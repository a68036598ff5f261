use doxing_emulator::dox_impl::{
    escape, fish_cake, Birthdate, BusinessLocation, Chat, ChatFullInfo, ChatKind, Coordinates,
    DoxReport, SubjectId, User,
};

#[test]
fn user_subject_converts_to_chat_id_when_possible() {
    assert_eq!(SubjectId::User(123).chat_id_for_get_chat(), Some(123));
}

#[test]
fn chat_subject_never_becomes_user_id() {
    assert_eq!(SubjectId::Chat(-1_000_000_000_000).as_user_id(), None);
}

#[test]
fn chat_display_uses_chat_id_without_wrapping() {
    let report = DoxReport {
        subject: SubjectId::Chat(-1_000_000_000_000),
        username: None,
        sender_title: Some("Test".to_string()),
        display_name: None,
        last_name: None,
        is_premium: None,
        birthdate: None,
        business_location: None,
        personal_chat: None,
    };

    let rendered = report.to_string();
    assert!(rendered.contains("群聊/频道 ID 为 <code>-1000000000000</code>"));
    assert!(!rendered.contains("先生"));
}

fn user(id: u64, first: &str) -> User {
    User {
        id,
        first_name: first.to_string(),
        last_name: None,
        username: None,
        is_premium: None,
    }
}

fn empty_report(subject: SubjectId) -> DoxReport {
    DoxReport {
        subject,
        username: None,
        sender_title: None,
        display_name: None,
        last_name: None,
        is_premium: None,
        birthdate: None,
        business_location: None,
        personal_chat: None,
    }
}

#[test]
fn user_ids_beyond_i64_have_no_chat_id() {
    assert_eq!(SubjectId::User(u64::MAX).chat_id_for_get_chat(), None);
    assert_eq!(SubjectId::Chat(-5).chat_id_for_get_chat(), Some(-5));
    assert_eq!(SubjectId::User(7).as_user_id(), Some(7));
}

#[test]
fn full_report_renders_every_clause_in_order() {
    let report = DoxReport {
        subject: SubjectId::User(42),
        username: Some("alice".to_string()),
        sender_title: Some("<admin>".to_string()),
        display_name: Some("Alice & Co".to_string()),
        last_name: Some("Smith".to_string()),
        is_premium: Some(true),
        birthdate: Some(Birthdate { day: 3, month: 7, year: Some(999) }),
        business_location: Some(BusinessLocation {
            address: "1 <Main> St".to_string(),
            location: Some(Coordinates {
                longitude: "120.5".to_string(),
                latitude: "-30.25".to_string(),
            }),
        }),
        personal_chat: Some(Chat {
            id: -100,
            kind: ChatKind::Channel,
            title: None,
            username: Some("alice_channel".to_string()),
        }),
    };
    assert_eq!(
        report.to_string(),
        "您好，请问是用户 ID 为 <code>42</code>，用户名为 <code>@alice</code>，头衔为 <code>&lt;admin&gt;</code>，生日在 0999 年 07 月 03 日，位于 <code>1 &lt;Main&gt; St</code>（经度：120.5，纬度：-30.25），开通了 tg 空间 @alice_channel 的 <code>Alice &amp; Co Smith</code> 富哥吗？"
    );
}

#[test]
fn minimal_user_report_is_plain_sir() {
    let report = DoxReport::from_user(user(1, "Bob"));
    assert_eq!(
        report.to_string(),
        "您好，请问是用户 ID 为 <code>1</code> 的 <code>Bob</code> 先生吗？"
    );
}

#[test]
fn birthday_without_year_and_user_without_name() {
    let mut report = empty_report(SubjectId::User(0));
    report.birthdate = Some(Birthdate { day: 12, month: 1, year: None });
    assert_eq!(
        report.to_string(),
        "您好，请问是用户 ID 为 <code>0</code>，生日在 01 月 12 日 的 <code></code> 先生吗？"
    );
}

#[test]
fn fish_cake_beats_premium() {
    let mut report = DoxReport::from_user(user(5, "Neko🍥"));
    report.is_premium = Some(true);
    assert!(report.to_string().ends_with("南梁吗？"));
    let mut report = DoxReport::from_user(user(5, "Neko"));
    report.last_name = Some("🏳️‍⚧️".to_string());
    assert!(report.to_string().ends_with("南梁吗？"));
    report.last_name = None;
    report.is_premium = Some(false);
    assert!(report.to_string().ends_with("先生吗？"));
}

#[test]
fn fish_cake_detects_markers() {
    assert!(fish_cake(Some(&"a🍥b".to_string())));
    assert!(fish_cake(Some(&"x🏳️‍⚧️".to_string())));
    assert!(!fish_cake(Some(&"🏳️".to_string())));
    assert!(!fish_cake(None));
}

fn read_back(s: &str) -> String {
    let mut out = String::new();
    let mut rest = s;
    while !rest.is_empty() {
        if rest.starts_with("&amp;") {
            out.push('&');
            rest = &rest[5..];
        } else if rest.starts_with("&lt;") {
            out.push('<');
            rest = &rest[4..];
        } else if rest.starts_with("&gt;") {
            out.push('>');
            rest = &rest[4..];
        } else {
            let c = rest.chars().next().unwrap();
            out.push(c);
            rest = &rest[c.len_utf8()..];
        }
    }
    out
}

#[test]
fn escaped_text_reads_back_to_the_original() {
    for s in ["a<b>&c", "&amp;", "&lt;&gt;", "<<&&>>", "Пётр & Ко", ""] {
        assert_eq!(read_back(&escape(s)), s);
    }
}

#[test]
fn text_without_markup_is_not_changed() {
    assert_eq!(escape("plain text, 123"), "plain text, 123");
    assert_eq!(escape("Пётр"), "Пётр");
    assert_ne!(escape("a & b"), "a & b");
}

#[test]
fn escape_replaces_markup_characters() {
    assert_eq!(escape("a<b>&c"), "a&lt;b&gt;&amp;c");
    assert_eq!(escape("&amp;"), "&amp;amp;");
    assert_eq!(escape(""), "");
}

#[test]
fn channel_without_username_is_left_out_and_chat_name_falls_back() {
    let mut report = DoxReport::from_chat(Chat {
        id: -42,
        kind: ChatKind::Supergroup,
        title: None,
        username: None,
    });
    report.last_name = Some("Group <1>".to_string());
    report.personal_chat = Some(Chat { id: 9, kind: ChatKind::Channel, title: None, username: None });
    assert_eq!(
        report.to_string(),
        "您好，请问是群聊/频道 ID 为 <code>-42</code> 的 <code>Group &lt;1&gt;</code> 吗？"
    );
}

#[test]
fn min_chat_id_renders() {
    let report = empty_report(SubjectId::Chat(i64::MIN));
    assert!(report.to_string().contains("<code>-9223372036854775808</code>"));
}

#[test]
fn inline_title_falls_back_through_names_to_id() {
    let mut report = empty_report(SubjectId::User(77));
    assert_eq!(report.inline_title(), "开盒 77");
    report.username = Some("u".to_string());
    assert_eq!(report.inline_title(), "开盒 u");
    report.last_name = Some("L".to_string());
    assert_eq!(report.inline_title(), "开盒 L");
    report.display_name = Some("D".to_string());
    assert_eq!(report.inline_title(), "开盒 D");
    assert_eq!(empty_report(SubjectId::Chat(-3)).inline_title(), "开盒 -3");
}

#[test]
fn full_info_wins_where_it_has_a_value() {
    let mut report = DoxReport::from_user(user(1, "First"));
    report.birthdate = Some(Birthdate { day: 1, month: 2, year: None });
    let info = ChatFullInfo {
        username: Some("filled".to_string()),
        first_name: Some("Other".to_string()),
        last_name: Some("Last".to_string()),
        birthdate: Some(Birthdate { day: 9, month: 9, year: Some(2000) }),
        business_location: None,
        personal_chat: None,
    };
    let r = report.with_full_info(info);
    assert_eq!(r.username.as_deref(), Some("filled"));
    assert_eq!(r.display_name.as_deref(), Some("Other"));
    assert_eq!(r.last_name.as_deref(), Some("Last"));
    assert_eq!(r.birthdate, Some(Birthdate { day: 9, month: 9, year: Some(2000) }));
    assert_eq!(r.subject, SubjectId::User(1));
}

#[test]
fn full_info_without_values_keeps_the_report() {
    let mut report = DoxReport::from_user(user(1, "First"));
    report.birthdate = Some(Birthdate { day: 1, month: 2, year: None });
    let info = ChatFullInfo {
        username: None,
        first_name: None,
        last_name: None,
        birthdate: None,
        business_location: None,
        personal_chat: None,
    };
    let r = report.with_full_info(info);
    assert_eq!(r.display_name.as_deref(), Some("First"));
    assert_eq!(r.birthdate, Some(Birthdate { day: 1, month: 2, year: None }));
    assert_eq!(r.subject, SubjectId::User(1));
}

#[test]
fn sender_chat_wins_over_user_and_title_is_kept() {
    let r = DoxReport::from_sender(
        Some(user(1, "U")),
        Some(Chat { id: -7, kind: ChatKind::Channel, title: Some("C".to_string()), username: None }),
        Some("sig".to_string()),
    )
    .unwrap();
    assert_eq!(r.subject, SubjectId::Chat(-7));
    assert_eq!(r.sender_title.as_deref(), Some("sig"));
    assert!(DoxReport::from_sender(None, None, None).is_none());
    let n = DoxReport::new(user(3, "N"), Some("t".to_string()), None);
    assert_eq!(n.sender_title.as_deref(), Some("t"));
}

#[test]
fn readme_sample_reply() {
    let report = DoxReport {
        subject: SubjectId::User(1234567890),
        username: Some("username".to_string()),
        sender_title: None,
        display_name: Some("FirstName".to_string()),
        last_name: None,
        is_premium: Some(true),
        birthdate: Some(Birthdate { day: 1, month: 1, year: None }),
        business_location: Some(BusinessLocation { address: "地球".to_string(), location: None }),
        personal_chat: Some(Chat {
            id: -1,
            kind: ChatKind::Channel,
            title: None,
            username: Some("channel".to_string()),
        }),
    };
    assert_eq!(
        report.to_string(),
        "您好，请问是用户 ID 为 <code>1234567890</code>，用户名为 <code>@username</code>，生日在 01 月 01 日，位于 <code>地球</code>，开通了 tg 空间 @channel 的 <code>FirstName</code> 富哥吗？"
    );
}
