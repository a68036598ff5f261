use doxing_emulator::doxee_resolution::DoxArg;
use doxing_emulator::guest::parse_guest_invocation;

#[test]
fn guest_guest_invocation_accepts_exact_mention() {
    let text = "@DoxingEmulatorBot".to_string();
    assert_eq!(
        parse_guest_invocation(Some(&text), "DoxingEmulatorBot"),
        Some(DoxArg::Empty)
    );
}

#[test]
fn guest_guest_invocation_accepts_mention_with_user_id() {
    let text = " @DoxingEmulatorBot 123 ".to_string();
    assert_eq!(
        parse_guest_invocation(Some(&text), "DoxingEmulatorBot"),
        Some(DoxArg::UserId(123))
    );
}

#[test]
fn guest_guest_invocation_rejects_non_token_mention() {
    let text = "@DoxingEmulatorBot123".to_string();
    assert_eq!(
        parse_guest_invocation(Some(&text), "DoxingEmulatorBot"),
        None
    );
}

#[test]
fn guest_guest_invocation_ignores_non_leading_mention() {
    let text = "hello @DoxingEmulatorBot 123".to_string();
    assert_eq!(
        parse_guest_invocation(Some(&text), "DoxingEmulatorBot"),
        None
    );
}

#[test]
fn guest_guest_invocation_ignores_other_bot() {
    let text = "@OtherBot 123".to_string();
    assert_eq!(
        parse_guest_invocation(Some(&text), "DoxingEmulatorBot"),
        None
    );
}

#[test]
fn guest_guest_invocation_replies_to_invalid_mentioned_arg() {
    let text = "@DoxingEmulatorBot 123 extra".to_string();
    assert_eq!(
        parse_guest_invocation(Some(&text), "DoxingEmulatorBot"),
        Some(DoxArg::Invalid)
    );
}

#[test]
fn guest_guest_invocation_replies_to_invalid_mentioned_punctuation() {
    let text = "@DoxingEmulatorBot, 123".to_string();
    assert_eq!(
        parse_guest_invocation(Some(&text), "DoxingEmulatorBot"),
        Some(DoxArg::Invalid)
    );
}


