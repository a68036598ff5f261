use doxing_emulator::doxee_resolution::{parse_guest_invocation, DoxArg};

#[test]
fn dox_arg_parse_empty_as_none() {
    assert_eq!(DoxArg::parse(None), DoxArg::Empty);
    assert_eq!(DoxArg::parse(Some("")), DoxArg::Empty);
    assert_eq!(DoxArg::parse(Some("  ")), DoxArg::Empty);
}

#[test]
fn dox_arg_parse_user_id() {
    assert_eq!(DoxArg::parse(Some(" 123 ")), DoxArg::UserId(123));
}

#[test]
fn dox_arg_parse_invalid_text() {
    assert_eq!(DoxArg::parse(Some("123 extra")), DoxArg::Invalid);
    assert_eq!(DoxArg::parse(Some("-100123")), DoxArg::Invalid);
}

#[test]
fn doxee_resolution_guest_invocation_accepts_exact_mention() {
    let text = "@DoxingEmulatorBot".to_string();
    assert_eq!(
        parse_guest_invocation(Some(&text), "DoxingEmulatorBot"),
        Some(DoxArg::Empty)
    );
}

#[test]
fn doxee_resolution_guest_invocation_accepts_mention_with_user_id() {
    let text = " @DoxingEmulatorBot 123 ".to_string();
    assert_eq!(
        parse_guest_invocation(Some(&text), "DoxingEmulatorBot"),
        Some(DoxArg::UserId(123))
    );
}

#[test]
fn doxee_resolution_guest_invocation_rejects_non_token_mention() {
    let text = "@DoxingEmulatorBot123".to_string();
    assert_eq!(
        parse_guest_invocation(Some(&text), "DoxingEmulatorBot"),
        None
    );
}

#[test]
fn doxee_resolution_guest_invocation_ignores_non_leading_mention() {
    let text = "hello @DoxingEmulatorBot 123".to_string();
    assert_eq!(
        parse_guest_invocation(Some(&text), "DoxingEmulatorBot"),
        None
    );
}

#[test]
fn doxee_resolution_guest_invocation_ignores_other_bot() {
    let text = "@OtherBot 123".to_string();
    assert_eq!(
        parse_guest_invocation(Some(&text), "DoxingEmulatorBot"),
        None
    );
}

#[test]
fn doxee_resolution_guest_invocation_replies_to_invalid_mentioned_arg() {
    let text = "@DoxingEmulatorBot 123 extra".to_string();
    assert_eq!(
        parse_guest_invocation(Some(&text), "DoxingEmulatorBot"),
        Some(DoxArg::Invalid)
    );
}

#[test]
fn doxee_resolution_guest_invocation_replies_to_invalid_mentioned_punctuation() {
    let text = "@DoxingEmulatorBot, 123".to_string();
    assert_eq!(
        parse_guest_invocation(Some(&text), "DoxingEmulatorBot"),
        Some(DoxArg::Invalid)
    );
}

#[test]
fn dox_arg_parse_accepts_plus_sign_and_u64_range() {
    assert_eq!(DoxArg::parse(Some("+42")), DoxArg::UserId(42));
    assert_eq!(DoxArg::parse(Some("+")), DoxArg::Invalid);
    assert_eq!(
        DoxArg::parse(Some("18446744073709551615")),
        DoxArg::UserId(u64::MAX)
    );
    assert_eq!(DoxArg::parse(Some("18446744073709551616")), DoxArg::Invalid);
    assert_eq!(DoxArg::parse(Some("\u{3000}7\t")), DoxArg::UserId(7));
    assert_eq!(DoxArg::parse(Some("0x10")), DoxArg::Invalid);
}

#[test]
fn dox_arg_reads_back_printed_id() {
    for n in [0u64, 9, 10, 123456789, u64::MAX] {
        assert_eq!(DoxArg::parse(Some(&n.to_string())), DoxArg::UserId(n));
    }
}

#[test]
fn guest_invocation_edge_cases() {
    assert_eq!(parse_guest_invocation(None, "Bot"), None);
    assert_eq!(parse_guest_invocation(Some("@Bot_x"), "Bot"), None);
    assert_eq!(parse_guest_invocation(Some("@Bot\n42"), "Bot"), Some(DoxArg::UserId(42)));
    assert_eq!(parse_guest_invocation(Some("@Bot!"), "Bot"), Some(DoxArg::Invalid));
    assert_eq!(parse_guest_invocation(Some("@Bo"), "Bot"), None);
    assert_eq!(parse_guest_invocation(Some("  @Bot  "), "Bot"), Some(DoxArg::Empty));
}
