use doxing_emulator::dox_impl::{Chat, ChatFullInfo, ChatKind, DoxReport, SubjectId, User};
use doxing_emulator::doxee_resolution::{ChatMemberInfo, DoxArg, DoxeeSource, ExternalReply, Message, Origin};
use doxing_emulator::messages::BotError;
use doxing_emulator::resolver::{Query, Resolver, Step};

fn user(id: u64, first: &str) -> User {
    User { id, first_name: first.to_string(), last_name: None, username: None, is_premium: None }
}

fn group(id: i64) -> Chat {
    Chat { id, kind: ChatKind::Group, title: Some("G".to_string()), username: None }
}

fn message(from: Option<User>, chat: Chat) -> Message {
    Message {
        from,
        sender_chat: None,
        sender_tag: None,
        author_signature: None,
        chat,
        forward_origin: None,
        reply_to_message: None,
        external_reply: None,
        guest_bot_caller_user: None,
        guest_bot_caller_chat: None,
        text: None,
    }
}

fn drive(
    source: DoxeeSource,
    member: impl Fn(i64, u64) -> Option<ChatMemberInfo>,
    info: impl Fn(i64) -> Option<ChatFullInfo>,
) -> (Result<DoxReport, BotError>, Vec<Query>) {
    let (mut resolver, mut step) = Resolver::start(source);
    let mut asked = Vec::new();
    loop {
        match step {
            Step::Done(r) => return (r, asked),
            Step::Ask(q) => {
                asked.push(q);
                let next = match q {
                    Query::ChatMember { chat_id, user_id } => {
                        assert!(resolver.awaits_chat_member());
                        resolver.on_chat_member(member(chat_id, user_id))
                    }
                    Query::FullInfo { chat_id } => {
                        assert!(resolver.awaits_full_info());
                        resolver.on_full_info(info(chat_id))
                    }
                };
                resolver = next.0;
                step = next.1;
            }
        }
    }
}

fn no_member(_: i64, _: u64) -> Option<ChatMemberInfo> {
    None
}

fn no_info(_: i64) -> Option<ChatFullInfo> {
    None
}

fn birthday_info(_: i64) -> Option<ChatFullInfo> {
    Some(ChatFullInfo {
        username: Some("from_info".to_string()),
        first_name: None,
        last_name: None,
        birthdate: Some(doxing_emulator::dox_impl::Birthdate { day: 1, month: 1, year: None }),
        business_location: None,
        personal_chat: None,
    })
}

#[test]
fn bare_command_doxes_the_sender_and_completes_full_info() {
    let m = message(Some(user(10, "Doxer")), group(-1));
    let (r, asked) = drive(DoxeeSource::Command { arg: DoxArg::Empty, message: m }, no_member, birthday_info);
    let r = r.unwrap();
    assert_eq!(r.subject, SubjectId::User(10));
    assert_eq!(r.username.as_deref(), Some("from_info"));
    assert_eq!(asked, vec![Query::FullInfo { chat_id: 10 }]);
}

#[test]
fn command_without_sender_fails_to_identify_doxer() {
    let m = message(None, group(-1));
    let (r, asked) = drive(DoxeeSource::Command { arg: DoxArg::UserId(5), message: m }, no_member, no_info);
    assert_eq!(r.unwrap_err(), BotError::DoxerIdentificationFailed);
    assert!(asked.is_empty());
}

#[test]
fn reply_doxes_replied_sender() {
    let mut m = message(Some(user(10, "Doxer")), group(-1));
    m.reply_to_message = Some(Box::new(message(Some(user(20, "Doxee")), group(-1))));
    let (r, _) = drive(DoxeeSource::Command { arg: DoxArg::Empty, message: m }, no_member, no_info);
    assert_eq!(r.unwrap().subject, SubjectId::User(20));
}

#[test]
fn reply_to_forward_doxes_origin_with_title_from_chat() {
    let mut reply = message(Some(user(20, "Forwarder")), group(-5));
    reply.forward_origin = Some(Origin::User { sender_user: user(30, "Origin") });
    let mut m = message(Some(user(10, "Doxer")), group(-5));
    m.reply_to_message = Some(Box::new(reply));
    let member = |chat_id: i64, user_id: u64| {
        if chat_id == -5 && user_id == 30 {
            Some(ChatMemberInfo::Administrator { user: user(30, "Origin"), custom_title: Some("boss".to_string()) })
        } else {
            None
        }
    };
    let (r, asked) = drive(DoxeeSource::Command { arg: DoxArg::Empty, message: m }, member, no_info);
    let r = r.unwrap();
    assert_eq!(r.subject, SubjectId::User(30));
    assert_eq!(r.sender_title.as_deref(), Some("boss"));
    assert_eq!(
        asked,
        vec![Query::ChatMember { chat_id: -5, user_id: 30 }, Query::FullInfo { chat_id: 30 }]
    );
}

#[test]
fn explicit_id_falls_back_to_users_own_chat() {
    let m = message(Some(user(10, "Doxer")), group(-9));
    let member = |chat_id: i64, user_id: u64| {
        if chat_id == 77 {
            Some(ChatMemberInfo::Member { user: user(user_id, "Target"), tag: Some("tag".to_string()) })
        } else {
            None
        }
    };
    let (r, asked) = drive(DoxeeSource::Command { arg: DoxArg::UserId(77), message: m }, member, no_info);
    let r = r.unwrap();
    assert_eq!(r.subject, SubjectId::User(77));
    assert_eq!(r.sender_title.as_deref(), Some("tag"));
    assert_eq!(
        asked,
        vec![
            Query::ChatMember { chat_id: -9, user_id: 77 },
            Query::ChatMember { chat_id: 77, user_id: 77 },
            Query::FullInfo { chat_id: 77 },
        ]
    );
}

#[test]
fn unknown_explicit_id_cannot_be_identified() {
    let m = message(Some(user(10, "Doxer")), group(-9));
    let (r, asked) = drive(DoxeeSource::Command { arg: DoxArg::UserId(77), message: m }, no_member, no_info);
    assert_eq!(r.unwrap_err(), BotError::DoxeeIdentificationFailed);
    assert_eq!(asked.len(), 2);
}

#[test]
fn inline_id_is_looked_up_once_in_its_own_chat() {
    let (r, asked) = drive(
        DoxeeSource::Inline { arg: DoxArg::UserId(5), from: user(1, "Asker") },
        no_member,
        no_info,
    );
    assert_eq!(r.unwrap_err(), BotError::DoxeeIdentificationFailed);
    assert_eq!(asked, vec![Query::ChatMember { chat_id: 5, user_id: 5 }]);
}

#[test]
fn inline_id_beyond_i64_fails_without_lookups() {
    let (r, asked) = drive(
        DoxeeSource::Inline { arg: DoxArg::UserId(u64::MAX), from: user(1, "Asker") },
        no_member,
        no_info,
    );
    assert_eq!(r.unwrap_err(), BotError::DoxeeIdentificationFailed);
    assert!(asked.is_empty());
}

#[test]
fn inline_invalid_and_empty_queries() {
    let (r, _) = drive(DoxeeSource::Inline { arg: DoxArg::Invalid, from: user(1, "A") }, no_member, no_info);
    assert_eq!(r.unwrap_err(), BotError::NotUserId);
    let (r, _) = drive(DoxeeSource::Inline { arg: DoxArg::Empty, from: user(1, "A") }, no_member, no_info);
    assert_eq!(r.unwrap().subject, SubjectId::User(1));
}

#[test]
fn private_forward_cases() {
    let mut m = message(Some(user(1, "A")), Chat { id: 1, kind: ChatKind::Private, title: None, username: None });
    let (r, _) = drive(DoxeeSource::PrivateForward { message: m }, no_member, no_info);
    assert_eq!(r.unwrap_err(), BotError::Incomprehensible);

    m = message(Some(user(1, "A")), Chat { id: 1, kind: ChatKind::Private, title: None, username: None });
    m.forward_origin = Some(Origin::HiddenUser);
    let (r, _) = drive(DoxeeSource::PrivateForward { message: m }, no_member, no_info);
    assert_eq!(r.unwrap_err(), BotError::InvalidOrigin);

    m = message(Some(user(1, "A")), Chat { id: 1, kind: ChatKind::Private, title: None, username: None });
    m.forward_origin = Some(Origin::Channel { chat: group(-100), author_signature: Some("sig".to_string()) });
    let (r, asked) = drive(DoxeeSource::PrivateForward { message: m }, no_member, no_info);
    let r = r.unwrap();
    assert_eq!(r.subject, SubjectId::Chat(-100));
    assert_eq!(r.sender_title.as_deref(), Some("sig"));
    assert!(asked.is_empty());

    m = message(None, Chat { id: 1, kind: ChatKind::Private, title: None, username: None });
    m.forward_origin = Some(Origin::HiddenUser);
    let (r, _) = drive(DoxeeSource::PrivateForward { message: m }, no_member, no_info);
    assert_eq!(r.unwrap_err(), BotError::DoxerIdentificationFailed);
}

#[test]
fn guest_doxes_caller_and_follows_external_reply() {
    let mut m = message(None, group(-3));
    m.guest_bot_caller_user = Some(user(44, "Caller"));
    let (r, _) = drive(DoxeeSource::Guest { arg: DoxArg::Empty, message: m }, no_member, no_info);
    assert_eq!(r.unwrap().subject, SubjectId::User(44));

    let mut m = message(None, group(-3));
    m.guest_bot_caller_user = Some(user(44, "Caller"));
    m.external_reply = Some(ExternalReply {
        origin: Origin::Chat { sender_chat: group(-8), author_signature: None },
        chat: Some(group(-8)),
    });
    let (r, _) = drive(DoxeeSource::Guest { arg: DoxArg::Empty, message: m }, no_member, no_info);
    assert_eq!(r.unwrap().subject, SubjectId::Chat(-8));

    let m = message(None, group(-3));
    let (r, _) = drive(DoxeeSource::Guest { arg: DoxArg::Invalid, message: m }, no_member, no_info);
    assert_eq!(r.unwrap_err(), BotError::DoxerIdentificationFailed);
}

#[test]
fn reply_without_sender_cannot_identify_doxee() {
    let mut m = message(Some(user(10, "Doxer")), group(-1));
    m.reply_to_message = Some(Box::new(message(None, group(-1))));
    let (r, _) = drive(DoxeeSource::Command { arg: DoxArg::Empty, message: m }, no_member, no_info);
    assert_eq!(r.unwrap_err(), BotError::DoxeeIdentificationFailed);
}
