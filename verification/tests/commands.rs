use doxing_emulator::commands::{command_list, help_text, Commands, Dox, Help};
use doxing_emulator::dox_impl::{Chat, ChatKind, DoxReport, SubjectId, User};
use doxing_emulator::doxee_resolution::{DoxArg, DoxeeSource, Message};
use doxing_emulator::guest::guest_article;
use doxing_emulator::inline::inline_article;
use doxing_emulator::messages::BotError;
use doxing_emulator::non_command::non_command_source;
use doxing_emulator::replies::reply_text;
use doxing_emulator::Config;

fn message(kind: ChatKind) -> Message {
    Message {
        from: None,
        sender_chat: None,
        sender_tag: None,
        author_signature: None,
        chat: Chat { id: 1, kind, title: None, username: None },
        forward_origin: None,
        reply_to_message: None,
        external_reply: None,
        guest_bot_caller_user: None,
        guest_bot_caller_chat: None,
        text: None,
    }
}

#[test]
fn commands_parse_dox_and_help() {
    assert_eq!(Commands::parse(Some("/dox"), "Bot"), Some(Commands::Dox(Dox { doxee: None })));
    assert_eq!(
        Commands::parse(Some("/dox 123"), "Bot"),
        Some(Commands::Dox(Dox { doxee: Some(" 123".to_string()) }))
    );
    assert_eq!(
        Commands::parse(Some("/dox@Bot 5"), "Bot"),
        Some(Commands::Dox(Dox { doxee: Some(" 5".to_string()) }))
    );
    assert_eq!(Commands::parse(Some("/dox@Other 5"), "Bot"), None);
    assert_eq!(Commands::parse(Some("/help"), "Bot"), Some(Commands::Help(Help)));
    assert_eq!(Commands::parse(Some("/start help"), "Bot"), Some(Commands::Help(Help)));
    assert_eq!(Commands::parse(Some("/stop"), "Bot"), None);
    assert_eq!(Commands::parse(Some("/help@Bot"), "Bot"), Some(Commands::Help(Help)));
    assert_eq!(Commands::parse(Some("dox"), "Bot"), None);
    assert_eq!(Commands::parse(None, "Bot"), None);
}

#[test]
fn command_list_and_help_text() {
    let list = command_list();
    assert_eq!(list, [(Dox::TRIGGER, Dox::HELP), (Help::TRIGGER, Help::HELP)]);
    assert_eq!(list[0], ("dox", "盒盒盒"));
    let help = help_text("MyBot");
    assert!(help.starts_with("<b>开盒模拟器</b> @MyBot"));
    assert!(help.contains("<code>@MyBot 用户 ID</code>"));
}

#[test]
fn dox_command_source_parses_its_argument() {
    match (Dox { doxee: Some(" 12 ".to_string()) }).source(message(ChatKind::Group)) {
        DoxeeSource::Command { arg, .. } => assert_eq!(arg, DoxArg::UserId(12)),
        _ => panic!("not a command source"),
    }
    match (Dox { doxee: None }).source(message(ChatKind::Group)) {
        DoxeeSource::Command { arg, .. } => assert_eq!(arg, DoxArg::Empty),
        _ => panic!("not a command source"),
    }
}

#[test]
fn each_error_has_its_own_text() {
    let all = [
        BotError::DoxerIdentificationFailed,
        BotError::DoxeeIdentificationFailed,
        BotError::InvalidOrigin,
        BotError::NotUserId,
        BotError::Incomprehensible,
    ];
    for (i, a) in all.iter().enumerate() {
        assert!(!a.as_str().is_empty());
        assert_eq!(a.to_string(), a.as_str());
        for b in &all[i + 1..] {
            assert_ne!(a.as_str(), b.as_str());
        }
    }
}

#[test]
fn inline_articles_per_outcome() {
    let report = DoxReport::from_user(User {
        id: 8,
        first_name: "Eve".to_string(),
        last_name: None,
        username: None,
        is_premium: None,
    });
    let html = report.to_string();
    let a = inline_article(Ok(report));
    assert_eq!(a.message, html);
    assert_eq!(a.title, "开盒 Eve");
    assert_eq!(a.description, "盒盒盒");
    let a = inline_article(Err(BotError::DoxeeIdentificationFailed));
    assert_eq!(a.title, "ERR_DOXEE_IDENTIFICATION_FAILED");
    assert_eq!(a.message, BotError::DoxeeIdentificationFailed.as_str());
    let a = inline_article(Err(BotError::NotUserId));
    assert_eq!(a.title, "ERR_NOT_USER_ID");
    assert_eq!(a.description, "发的啥呀这是？");
    let a = inline_article(Err(BotError::InvalidOrigin));
    assert_eq!(a.title, "ERR");
}

#[test]
fn guest_article_and_replies() {
    let r: Result<DoxReport, BotError> = Err(BotError::NotUserId);
    let a = guest_article(&r);
    assert_eq!(a.title, "Title");
    assert_eq!(a.description, "Description");
    assert_eq!(a.message, BotError::NotUserId.as_str());
    assert_eq!(reply_text(&r), BotError::NotUserId.as_str());
    let ok: Result<DoxReport, BotError> = Ok(DoxReport::from_chat(Chat {
        id: -1,
        kind: ChatKind::Channel,
        title: Some("Ch".to_string()),
        username: None,
    }));
    assert_eq!(reply_text(&ok), "您好，请问是群聊/频道 ID 为 <code>-1</code> 的 <code>Ch</code> 吗？");
    if let Ok(r) = &ok {
        assert_eq!(r.subject, SubjectId::Chat(-1));
    }
}

#[test]
fn non_commands_only_in_private_chats() {
    assert!(matches!(
        non_command_source(message(ChatKind::Private)),
        Some(DoxeeSource::PrivateForward { .. })
    ));
    assert!(non_command_source(message(ChatKind::Group)).is_none());
    assert!(non_command_source(message(ChatKind::Channel)).is_none());
}

#[test]
fn config_holds_token_and_proxy() {
    let c = Config { token: "t".to_string(), proxy: None };
    assert_eq!(c.clone(), c);
}
