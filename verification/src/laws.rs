//! What the bot promises of whom it doxes and of the texts it reads and
//! writes, proved over the resolution rules and the text specifications.
use vstd::prelude::*;
use crate::dox_impl::{
    birthday_html, channel_html, chat_id_of, fill, head_html, honorific, is_fish_cake,
    lacks_full_info, location_html, name_html, report_html, report_of_sender, report_of_user,
    title_html, username_html, Chat, ChatFullInfo, DoxReport, SubjectId, User,
};
use crate::doxee_resolution::{
    dox_arg_of, guest_invocation, member_user_and_title, DoxArg, DoxeeSource, Message, Origin,
};
use crate::messages::BotError;
use crate::outcome::{complete_full_info, from_origin, outcome, InfoAnswers, MemberAnswers};
use crate::resolver::{start_phase, Query, Step};
use crate::text::{
    all_ws, decimal, escape_char, escape_spec, is_markup_char, is_ws, lemma_escape_first,
    lemma_escape_len, lemma_parse_decimal, lemma_trim_identity, lemma_trim_ignores_surrounding_ws,
    lemma_unescape_after_char, no_markup, signed_decimal, trim_start, unescape_spec,
};

verus! {

/// The subject of a message's sender: the sender chat when there is one,
/// else the sending user.
pub open spec fn sender_subject(from: Option<User>, sender_chat: Option<Chat>) -> Option<SubjectId> {
    match sender_chat {
        Some(c) => Some(SubjectId::Chat(c.id)),
        None => match from {
            Some(u) => Some(SubjectId::User(u.id)),
            None => None,
        },
    }
}

/// Completing a report with full chat information keeps whom it describes,
/// its title and its premium flag; every field that the full information has
/// replaces the report's, and the report's other fields stay. Nothing
/// changes when the report lacks nothing or the lookup fails.
pub proof fn law_completion_updates_from_full_info(
    r: DoxReport,
    info: InfoAnswers,
    c: i64,
    fi: ChatFullInfo,
)
    ensures
        complete_full_info(r, info).subject == r.subject,
        complete_full_info(r, info).sender_title == r.sender_title,
        complete_full_info(r, info).is_premium == r.is_premium,
        (lacks_full_info(r) && chat_id_of(r.subject) == Some(c) && info(c) == Some(fi)) ==> {
            &&& complete_full_info(r, info).username == fill(fi.username, r.username)
            &&& complete_full_info(r, info).display_name == fill(fi.first_name, r.display_name)
            &&& complete_full_info(r, info).last_name == fill(fi.last_name, r.last_name)
            &&& complete_full_info(r, info).birthdate == fill(fi.birthdate, r.birthdate)
            &&& complete_full_info(r, info).business_location == fill(
                fi.business_location,
                r.business_location,
            )
            &&& complete_full_info(r, info).personal_chat == fill(
                fi.personal_chat,
                r.personal_chat,
            )
        },
        !(lacks_full_info(r) && match chat_id_of(r.subject) {
            Some(id) => info(id) is Some,
            None => false,
        }) ==> complete_full_info(r, info) == r,
{
}

proof fn lemma_completion_keeps_subject(r: DoxReport, info: InfoAnswers)
    ensures
        complete_full_info(r, info).subject == r.subject,
{
}

proof fn lemma_sender_report_subject(from: Option<User>, sender_chat: Option<Chat>, t: Option<String>)
    ensures
        match report_of_sender(from, sender_chat, t) {
            Some(r) => sender_subject(from, sender_chat) == Some(r.subject),
            None => sender_subject(from, sender_chat) is None,
        },
{
}

/// A guest mention resolves exactly as a `/dox` command on the same message
/// would, when the message names no separate guest caller.
pub proof fn law_guest_resolves_like_command(
    arg: DoxArg,
    m: Message,
    member: MemberAnswers,
    info: InfoAnswers,
)
    requires
        m.guest_bot_caller_user is None,
        m.guest_bot_caller_chat is None,
    ensures
        outcome(DoxeeSource::Guest { arg: arg, message: m }, member, info) == outcome(
            DoxeeSource::Command { arg: arg, message: m },
            member,
            info,
        ),
{
}

/// `/dox` without argument, reply or external reply doxes its sender.
pub proof fn law_bare_command_doxes_sender(m: Message, member: MemberAnswers, info: InfoAnswers)
    requires
        m.reply_to_message is None,
        m.external_reply is None,
        sender_subject(m.from, m.sender_chat) is Some,
    ensures
        outcome(DoxeeSource::Command { arg: DoxArg::Empty, message: m }, member, info) matches Ok(r)
            && Some(r.subject) == sender_subject(m.from, m.sender_chat),
{
    lemma_sender_report_subject(m.from, m.sender_chat, fill(m.sender_tag, m.author_signature));
    let d = report_of_sender(m.from, m.sender_chat, fill(m.sender_tag, m.author_signature));
    lemma_completion_keeps_subject(d->0, info);
}

/// A guest mention without user ID, reply or external reply doxes the user
/// who called the bot.
pub proof fn law_bare_guest_mention_doxes_caller(
    m: Message,
    caller: User,
    member: MemberAnswers,
    info: InfoAnswers,
)
    requires
        m.reply_to_message is None,
        m.external_reply is None,
        m.guest_bot_caller_user == Some(caller),
        m.guest_bot_caller_chat is None,
        m.sender_chat is None,
    ensures
        outcome(DoxeeSource::Guest { arg: DoxArg::Empty, message: m }, member, info) matches Ok(r)
            && r.subject == SubjectId::User(caller.id),
{
    let d = report_of_sender(Some(caller), None, fill(m.sender_tag, m.author_signature));
    lemma_completion_keeps_subject(d->0, info);
}

/// `/dox` in reply to a message that is neither forwarded nor an external
/// reply doxes the sender of the replied-to message.
pub proof fn law_reply_doxes_replied_sender(
    m: Message,
    reply: Message,
    member: MemberAnswers,
    info: InfoAnswers,
)
    requires
        m.reply_to_message == Some(Box::new(reply)),
        sender_subject(m.from, m.sender_chat) is Some,
        reply.forward_origin is None,
        reply.external_reply is None,
        sender_subject(reply.from, reply.sender_chat) is Some,
    ensures
        outcome(DoxeeSource::Command { arg: DoxArg::Empty, message: m }, member, info) matches Ok(r)
            && Some(r.subject) == sender_subject(reply.from, reply.sender_chat),
{
    lemma_sender_report_subject(m.from, m.sender_chat, fill(m.sender_tag, m.author_signature));
    lemma_sender_report_subject(
        reply.from,
        reply.sender_chat,
        fill(reply.sender_tag, reply.author_signature),
    );
    let d = report_of_sender(
        reply.from,
        reply.sender_chat,
        fill(reply.sender_tag, reply.author_signature),
    );
    lemma_completion_keeps_subject(d->0, info);
}

/// `/dox` in reply to a forwarded message doxes the user the message was
/// forwarded from.
pub proof fn law_reply_to_forward_doxes_origin(
    m: Message,
    reply: Message,
    origin_user: User,
    member: MemberAnswers,
    info: InfoAnswers,
)
    requires
        m.reply_to_message == Some(Box::new(reply)),
        sender_subject(m.from, m.sender_chat) is Some,
        reply.forward_origin == Some(Origin::User { sender_user: origin_user }),
    ensures
        outcome(DoxeeSource::Command { arg: DoxArg::Empty, message: m }, member, info) matches Ok(r)
            && r.subject == SubjectId::User(origin_user.id),
{
    lemma_sender_report_subject(m.from, m.sender_chat, fill(m.sender_tag, m.author_signature));
    lemma_origin_user_subject(origin_user, Some(reply.chat.id), member, info);
}

proof fn lemma_origin_user_subject(u: User, chat_id: Option<i64>, member: MemberAnswers, info: InfoAnswers)
    ensures
        from_origin(Origin::User { sender_user: u }, chat_id, member, info) matches Some(r)
            && r.subject == SubjectId::User(u.id),
{
    let r = crate::outcome::complete_title(crate::dox_impl::report_of_user(u), chat_id, member);
    lemma_completion_keeps_subject(r, info);
}

/// A message forwarded to the bot in private doxes the user it was forwarded
/// from; one whose sender hid their account gets the invalid-origin reply.
pub proof fn law_forward_doxes_origin(m: Message, member: MemberAnswers, info: InfoAnswers)
    requires
        sender_subject(m.from, m.sender_chat) is Some,
        m.forward_origin is Some,
    ensures
        m.forward_origin matches Some(Origin::User { sender_user }) ==> (outcome(
            DoxeeSource::PrivateForward { message: m },
            member,
            info,
        ) matches Ok(r) && r.subject == SubjectId::User(sender_user.id)),
        m.forward_origin == Some(Origin::HiddenUser) ==> outcome(
            DoxeeSource::PrivateForward { message: m },
            member,
            info,
        ) == Err::<DoxReport, BotError>(BotError::InvalidOrigin),
{
    match m.forward_origin {
        Some(Origin::User { sender_user }) => lemma_origin_user_subject(
            sender_user,
            None,
            member,
            info,
        ),
        _ => {},
    }
}

/// An argument that is not a user ID is answered with the not-a-user-ID
/// error, whoever asks.
pub proof fn law_invalid_argument_is_refused(m: Message, from: User, member: MemberAnswers, info: InfoAnswers)
    requires
        sender_subject(m.from, m.sender_chat) is Some,
    ensures
        outcome(DoxeeSource::Command { arg: DoxArg::Invalid, message: m }, member, info) == Err::<
            DoxReport,
            BotError,
        >(BotError::NotUserId),
        outcome(DoxeeSource::Inline { arg: DoxArg::Invalid, from: from }, member, info) == Err::<
            DoxReport,
            BotError,
        >(BotError::NotUserId),
{
    lemma_sender_report_subject(m.from, m.sender_chat, fill(m.sender_tag, m.author_signature));
}

/// `/dox <user_id>` doxes the member that looking up that ID in the chat
/// finds; when neither the chat nor the user's own chat knows the ID, the
/// doxee cannot be identified.
pub proof fn law_explicit_id_doxes_that_member(
    m: Message,
    user_id: u64,
    member: MemberAnswers,
    info: InfoAnswers,
)
    requires
        sender_subject(m.from, m.sender_chat) is Some,
    ensures
        member(m.chat.id, user_id) matches Some(mem) ==> (outcome(
            DoxeeSource::Command { arg: DoxArg::UserId(user_id), message: m },
            member,
            info,
        ) matches Ok(r) && r.subject == SubjectId::User(member_user_and_title(mem).0.id)),
        (member(m.chat.id, user_id) is None && (user_id > i64::MAX || member(
            user_id as i64,
            user_id,
        ) is None)) ==> outcome(
            DoxeeSource::Command { arg: DoxArg::UserId(user_id), message: m },
            member,
            info,
        ) == Err::<DoxReport, BotError>(BotError::DoxeeIdentificationFailed),
{
    lemma_sender_report_subject(m.from, m.sender_chat, fill(m.sender_tag, m.author_signature));
    match member(m.chat.id, user_id) {
        Some(mem) => {
            let (u, t) = member_user_and_title(mem);
            lemma_completion_keeps_subject(crate::dox_impl::new_report(u, t, None), info);
        },
        None => {},
    }
}

/// A `/dox` command (`guest` false) or a guest mention of the bot (`guest`
/// true) with argument `arg`, sent in `m`.
pub open spec fn message_request(guest: bool, arg: DoxArg, m: Message) -> DoxeeSource {
    if guest {
        DoxeeSource::Guest { arg: arg, message: m }
    } else {
        DoxeeSource::Command { arg: arg, message: m }
    }
}

/// Whether the one who makes the request in `m` is known: the guest caller
/// (user or chat) for a guest mention, else the message's sender.
pub open spec fn doxer_known(guest: bool, m: Message) -> bool {
    if guest {
        sender_subject(
            fill(m.guest_bot_caller_user, m.from),
            fill(m.guest_bot_caller_chat, m.sender_chat),
        ) is Some
    } else {
        sender_subject(m.from, m.sender_chat) is Some
    }
}

/// Whether `r` describes chat `c` as it is, under title `t`.
pub open spec fn describes_chat(r: DoxReport, c: Chat, t: Option<String>) -> bool {
    &&& r.subject == SubjectId::Chat(c.id)
    &&& r.sender_title == t
    &&& r.display_name == c.title
    &&& r.username == c.username
}

proof fn lemma_doxer_report(guest: bool, m: Message)
    requires
        doxer_known(guest, m),
    ensures
        guest ==> report_of_sender(
            fill(m.guest_bot_caller_user, m.from),
            fill(m.guest_bot_caller_chat, m.sender_chat),
            fill(m.sender_tag, m.author_signature),
        ) is Some,
        !guest ==> report_of_sender(m.from, m.sender_chat, fill(m.sender_tag, m.author_signature))
            is Some,
{
    lemma_sender_report_subject(
        fill(m.guest_bot_caller_user, m.from),
        fill(m.guest_bot_caller_chat, m.sender_chat),
        fill(m.sender_tag, m.author_signature),
    );
    lemma_sender_report_subject(m.from, m.sender_chat, fill(m.sender_tag, m.author_signature));
}

/// `/dox` (or a bare guest mention) in reply to a message forwarded from a
/// channel or sent on behalf of a chat doxes that channel or chat, under the
/// signature the message carried, without any lookup; in reply to a message
/// from a hidden account it gets the invalid-origin reply.
pub proof fn law_reply_to_forwarded_chat_doxes_that_chat(
    guest: bool,
    m: Message,
    reply: Message,
    member: MemberAnswers,
    info: InfoAnswers,
)
    requires
        m.reply_to_message == Some(Box::new(reply)),
        doxer_known(guest, m),
    ensures
        reply.forward_origin matches Some(Origin::Channel { chat, author_signature }) ==> {
            &&& start_phase(message_request(guest, DoxArg::Empty, m)).1 matches Step::Done(
                Ok(r),
            ) && describes_chat(r, chat, author_signature)
            &&& outcome(message_request(guest, DoxArg::Empty, m), member, info) matches Ok(r)
                && describes_chat(r, chat, author_signature)
        },
        reply.forward_origin matches Some(Origin::Chat { sender_chat, author_signature }) ==> {
            &&& start_phase(message_request(guest, DoxArg::Empty, m)).1 matches Step::Done(
                Ok(r),
            ) && describes_chat(r, sender_chat, author_signature)
            &&& outcome(message_request(guest, DoxArg::Empty, m), member, info) matches Ok(r)
                && describes_chat(r, sender_chat, author_signature)
        },
        reply.forward_origin == Some(Origin::HiddenUser) ==> outcome(
            message_request(guest, DoxArg::Empty, m),
            member,
            info,
        ) == Err::<DoxReport, BotError>(BotError::InvalidOrigin),
{
    lemma_doxer_report(guest, m);
}

/// `/dox <user_id>` and a guest mention with a user ID first look that user
/// up in the chat of the message, and dox the member found there, whoever
/// called the bot.
pub proof fn law_explicit_id_is_looked_up_in_the_chat(
    guest: bool,
    m: Message,
    user_id: u64,
    member: MemberAnswers,
    info: InfoAnswers,
)
    requires
        doxer_known(guest, m),
    ensures
        start_phase(message_request(guest, DoxArg::UserId(user_id), m)).1 == Step::Ask(
            Query::ChatMember { chat_id: m.chat.id, user_id: user_id },
        ),
        member(m.chat.id, user_id) matches Some(mem) ==> (outcome(
            message_request(guest, DoxArg::UserId(user_id), m),
            member,
            info,
        ) matches Ok(r) && r.subject == SubjectId::User(member_user_and_title(mem).0.id)),
{
    lemma_doxer_report(guest, m);
    match member(m.chat.id, user_id) {
        Some(mem) => {
            let (u, t) = member_user_and_title(mem);
            lemma_completion_keeps_subject(crate::dox_impl::new_report(u, t, None), info);
        },
        None => {},
    }
}

/// Whether `res` doxes origin `o` as the origin itself says: the user it
/// names, or the channel or chat with the signature it carries; a hidden
/// account gets the invalid-origin reply.
pub open spec fn doxes_origin(res: Result<DoxReport, BotError>, o: Origin) -> bool {
    match o {
        Origin::User { sender_user } => res matches Ok(r) && r.subject == SubjectId::User(
            sender_user.id,
        ),
        Origin::Channel { chat, author_signature } => res matches Ok(r) && describes_chat(
            r,
            chat,
            author_signature,
        ),
        Origin::Chat { sender_chat, author_signature } => res matches Ok(r) && describes_chat(
            r,
            sender_chat,
            author_signature,
        ),
        Origin::HiddenUser => res == Err::<DoxReport, BotError>(BotError::InvalidOrigin),
    }
}

proof fn lemma_from_origin_doxes_origin(
    o: Origin,
    chat_id: Option<i64>,
    member: MemberAnswers,
    info: InfoAnswers,
)
    ensures
        doxes_origin(
            crate::outcome::or_error(from_origin(o, chat_id, member, info), BotError::InvalidOrigin),
            o,
        ),
{
    match o {
        Origin::User { sender_user } => lemma_origin_user_subject(sender_user, chat_id, member, info),
        _ => {},
    }
}

/// Whoever a forwarded or externally replied-to message came from is the
/// doxee, of every kind of origin: a message forwarded to the bot in
/// private; `/dox` (or a bare guest mention) in reply to a forwarded
/// message; in reply to an external reply; or itself an external reply.
pub proof fn law_origin_is_the_doxee(
    guest: bool,
    m: Message,
    member: MemberAnswers,
    info: InfoAnswers,
)
    ensures
        (m.from is Some || m.sender_chat is Some) ==> (m.forward_origin matches Some(o)
            ==> doxes_origin(outcome(DoxeeSource::PrivateForward { message: m }, member, info), o)),
        doxer_known(guest, m) ==> (m.reply_to_message matches Some(reply) ==> (
        reply.forward_origin matches Some(o) ==> doxes_origin(
            outcome(message_request(guest, DoxArg::Empty, m), member, info),
            o,
        ))),
        doxer_known(guest, m) ==> (m.reply_to_message matches Some(reply) ==> (
        reply.forward_origin is None ==> (reply.external_reply matches Some(e) ==> doxes_origin(
            outcome(message_request(guest, DoxArg::Empty, m), member, info),
            e.origin,
        )))),
        doxer_known(guest, m) ==> (m.reply_to_message is None ==> (m.external_reply matches Some(
            e,
        ) ==> doxes_origin(outcome(message_request(guest, DoxArg::Empty, m), member, info), e.origin))),
{
    if doxer_known(guest, m) {
        lemma_doxer_report(guest, m);
    }
    match m.forward_origin {
        Some(o) => lemma_from_origin_doxes_origin(o, None, member, info),
        None => {},
    }
    match m.reply_to_message {
        Some(reply) => match reply.forward_origin {
            Some(o) => lemma_from_origin_doxes_origin(o, Some(reply.chat.id), member, info),
            None => match reply.external_reply {
                Some(e) => lemma_from_origin_doxes_origin(
                    e.origin,
                    crate::resolver::external_chat_id(e),
                    member,
                    info,
                ),
                None => {},
            },
        },
        None => match m.external_reply {
            Some(e) => lemma_from_origin_doxes_origin(
                e.origin,
                crate::resolver::external_chat_id(e),
                member,
                info,
            ),
            None => {},
        },
    }
}

/// An inline query without an argument doxes the user who typed it; one
/// with a user ID looks that user up in their own chat and doxes the member
/// found there; one with any other argument is refused.
pub proof fn law_inline_query_doxes(
    from: User,
    user_id: u64,
    member: MemberAnswers,
    info: InfoAnswers,
)
    ensures
        outcome(DoxeeSource::Inline { arg: DoxArg::Empty, from: from }, member, info) matches Ok(r)
            && r.subject == SubjectId::User(from.id),
        user_id <= i64::MAX ==> start_phase(
            DoxeeSource::Inline { arg: DoxArg::UserId(user_id), from: from },
        ).1 == Step::Ask(Query::ChatMember { chat_id: user_id as i64, user_id: user_id }),
        user_id <= i64::MAX ==> (member(user_id as i64, user_id) matches Some(mem) ==> (outcome(
            DoxeeSource::Inline { arg: DoxArg::UserId(user_id), from: from },
            member,
            info,
        ) matches Ok(r) && r.subject == SubjectId::User(member_user_and_title(mem).0.id))),
        outcome(DoxeeSource::Inline { arg: DoxArg::Invalid, from: from }, member, info) == Err::<
            DoxReport,
            BotError,
        >(BotError::NotUserId),
{
    lemma_completion_keeps_subject(report_of_user(from), info);
    if user_id <= i64::MAX {
        match member(user_id as i64, user_id) {
            Some(mem) => {
                let (u, t) = member_user_and_title(mem);
                lemma_completion_keeps_subject(crate::dox_impl::new_report(u, t, None), info);
            },
            None => {},
        }
    }
}

// ---------------------------------------------------------------------------
// Texts
// ---------------------------------------------------------------------------

/// The report of a user carries the user's own ID, first name, last name,
/// username and premium flag, and none of what only a title or full chat
/// information gives.
pub proof fn law_user_report_is_the_user(u: User)
    ensures
        report_of_user(u).subject == SubjectId::User(u.id),
        report_of_user(u).display_name == Some(u.first_name),
        report_of_user(u).last_name == u.last_name,
        report_of_user(u).username == u.username,
        report_of_user(u).is_premium == u.is_premium,
        report_of_user(u).sender_title is None,
        report_of_user(u).birthdate is None,
        report_of_user(u).business_location is None,
        report_of_user(u).personal_chat is None,
{
}

/// The opening of a report: whom it asks about, by kind and ID.
pub open spec fn id_clause(s: SubjectId) -> Seq<char> {
    match s {
        SubjectId::User(id) => "您好，请问是用户 ID 为 <code>"@ + decimal(id as nat) + "</code>"@,
        SubjectId::Chat(id) => "您好，请问是群聊/频道 ID 为 <code>"@ + signed_decimal(id as int)
            + "</code>"@,
    }
}

/// A report opens with the ID of whom it describes; when it has a username,
/// `@username` follows the ID directly, for users and chats alike.
pub proof fn law_report_opens_with_id_and_username(r: DoxReport)
    ensures
        id_clause(r.subject).is_prefix_of(report_html(r)),
        r.username matches Some(u) ==> (id_clause(r.subject) + "，用户名为 <code>@"@ + u@
            + "</code>"@).is_prefix_of(report_html(r)),
{
    let rest = title_html(r.sender_title) + birthday_html(r.birthdate) + location_html(
        r.business_location,
    ) + channel_html(r.personal_chat) + name_html(r) + "吗？"@;
    assert(head_html(r.subject) == id_clause(r.subject));
    assert(report_html(r) =~= id_clause(r.subject) + (username_html(r.username) + rest));
    let p = id_clause(r.subject);
    assert(report_html(r).subrange(0, p.len() as int) =~= p);
    match r.username {
        Some(u) => {
            let q = p + "，用户名为 <code>@"@ + u@ + "</code>"@;
            assert(report_html(r) =~= q + rest);
            assert(report_html(r).subrange(0, q.len() as int) =~= q);
        },
        None => {},
    }
}

/// A report with a title gives it, escaped, right after the ID and the
/// username (if any).
pub proof fn law_title_follows_the_username(r: DoxReport, t: String)
    requires
        r.sender_title == Some(t),
    ensures
        (id_clause(r.subject) + match r.username {
            Some(u) => "，用户名为 <code>@"@ + u@ + "</code>"@,
            None => Seq::<char>::empty(),
        } + "，头衔为 <code>"@ + escape_spec(t@) + "</code>"@).is_prefix_of(report_html(r)),
{
    let rest = birthday_html(r.birthdate) + location_html(r.business_location) + channel_html(
        r.personal_chat,
    ) + name_html(r) + "吗？"@;
    let q = id_clause(r.subject) + username_html(r.username) + "，头衔为 <code>"@ + escape_spec(
        t@,
    ) + "</code>"@;
    assert(head_html(r.subject) == id_clause(r.subject));
    assert(report_html(r) =~= q + rest);
    assert(report_html(r).subrange(0, q.len() as int) =~= q);
}

/// A report on a chat ends by asking about the chat by its name (its title,
/// else its last name), escaped, with no honorific.
pub proof fn law_chat_is_asked_by_name(r: DoxReport)
    requires
        r.subject is Chat,
    ensures
        (" 的 <code>"@ + escape_spec(
            match r.display_name {
                Some(d) => d@,
                None => match r.last_name {
                    Some(l) => l@,
                    None => Seq::<char>::empty(),
                },
            },
        ) + "</code> 吗？"@).is_suffix_of(report_html(r)),
{
    reveal_strlit("</code> ");
    reveal_strlit("吗？");
    reveal_strlit("</code> 吗？");
    let front = head_html(r.subject) + username_html(r.username) + title_html(r.sender_title)
        + birthday_html(r.birthdate) + location_html(r.business_location) + channel_html(
        r.personal_chat,
    );
    let tail = " 的 <code>"@ + escape_spec(crate::dox_impl::chat_name(r)) + "</code> 吗？"@;
    assert("</code> "@ + "吗？"@ =~= "</code> 吗？"@);
    assert(report_html(r) =~= front + tail);
    assert(report_html(r).subrange(front.len() as int, report_html(r).len() as int) =~= tail);
}

/// A user whose names hold no fish cake is addressed as 富哥 when they have
/// Telegram Premium, else as 先生.
pub proof fn law_premium_user_is_called_rich(r: DoxReport)
    requires
        r.subject is User,
        !is_fish_cake(r.display_name),
        !is_fish_cake(r.last_name),
    ensures
        r.is_premium == Some(true) ==> "富哥吗？"@.is_suffix_of(report_html(r)),
        r.is_premium != Some(true) ==> "先生吗？"@.is_suffix_of(report_html(r)),
{
    reveal_strlit("富哥");
    reveal_strlit("先生");
    reveal_strlit("吗？");
    reveal_strlit("富哥吗？");
    reveal_strlit("先生吗？");
    let front = head_html(r.subject) + username_html(r.username) + title_html(r.sender_title)
        + birthday_html(r.birthdate) + location_html(r.business_location) + channel_html(
        r.personal_chat,
    );
    let name_front = " 的 <code>"@ + match r.display_name {
        Some(d) => escape_spec(d@),
        None => Seq::empty(),
    } + match r.last_name {
        Some(l) => " "@ + escape_spec(l@),
        None => Seq::empty(),
    } + "</code> "@;
    let tail = honorific(r) + "吗？"@;
    assert(name_html(r) == name_front + honorific(r));
    let whole = front + name_front;
    assert(report_html(r) =~= whole + tail);
    assert(tail.len() == 4);
    assert(report_html(r).subrange(whole.len() as int, report_html(r).len() as int) =~= tail);
    if r.is_premium == Some(true) {
        assert(tail =~= "富哥吗？"@);
    } else {
        assert(tail =~= "先生吗？"@);
    }
}


/// The decimal text of a user ID reads back as that ID.
pub proof fn law_user_id_reads_back(n: u64)
    ensures
        dox_arg_of(Some(decimal(n as nat))) == DoxArg::UserId(n),
{
    lemma_parse_decimal(n);
    lemma_trim_identity(decimal(n as nat));
}

/// A mention of the bot followed by a space and a user ID asks to dox that
/// ID.
pub proof fn law_guest_mention_with_id(user: Seq<char>, n: u64)
    ensures
        guest_invocation(Some("@"@ + user + " "@ + decimal(n as nat)), user) == Some(
            DoxArg::UserId(n),
        ),
{
    reveal_strlit("@");
    reveal_strlit(" ");
    lemma_parse_decimal(n);
    let d = decimal(n as nat);
    let text = "@"@ + user + " "@ + d;
    assert(text.last() == d.last());
    lemma_trim_identity(text);
    assert(text.subrange(1, 1 + user.len() as int) =~= user);
    let rest = text.skip(1 + user.len() as int);
    assert(rest =~= " "@ + d);
    assert(rest.drop_first() =~= d);
    assert(trim_start(rest) == trim_start(d));
    lemma_trim_identity(d);
    law_user_id_reads_back(n);
}

/// A bare mention of the bot asks to dox the implicit doxee, whenever the
/// bot's name does not end in whitespace.
pub proof fn law_bare_guest_mention(user: Seq<char>)
    requires
        user.len() == 0 || !is_ws(user.last()),
    ensures
        guest_invocation(Some("@"@ + user), user) == Some(DoxArg::Empty),
{
    reveal_strlit("@");
    let text = "@"@ + user;
    if user.len() > 0 {
        assert(text.last() == user.last());
    }
    lemma_trim_identity(text);
    assert(text.subrange(1, 1 + user.len() as int) =~= user);
    assert(text.skip(1 + user.len() as int).len() == 0);
}

/// A guest mention and an argument are read the same whatever whitespace
/// surrounds them.
pub proof fn law_surrounding_whitespace_is_ignored(
    pre: Seq<char>,
    t: Seq<char>,
    post: Seq<char>,
    user: Seq<char>,
)
    requires
        all_ws(pre),
        all_ws(post),
    ensures
        guest_invocation(Some(pre + t + post), user) == guest_invocation(Some(t), user),
        dox_arg_of(Some(pre + t + post)) == dox_arg_of(Some(t)),
{
    lemma_trim_ignores_surrounding_ws(pre, t, post);
}

/// Escaped text holds no `<` and no `>`: user-controlled names can never
/// open or close markup in a report.
pub proof fn law_escape_leaves_no_tags(s: Seq<char>)
    ensures
        !escape_spec(s).contains('<'),
        !escape_spec(s).contains('>'),
    decreases s.len(),
{
    reveal_strlit("&amp;");
    reveal_strlit("&lt;");
    reveal_strlit("&gt;");
    if s.len() > 0 {
        law_escape_leaves_no_tags(s.drop_last());
        let a = escape_spec(s.drop_last());
        let b = escape_char(s.last());
        assert(!b.contains('<'));
        assert(!b.contains('>'));
        assert forall|i: int| 0 <= i < (a + b).len() implies (a + b)[i] != '<' && (a + b)[i]
            != '>' by {
            if i < a.len() {
                assert((a + b)[i] == a[i]);
            } else {
                assert((a + b)[i] == b[i - a.len()]);
            }
        }
    }
}

/// Escaping loses nothing: reading the escaped text back, replacing
/// `&amp;`, `&lt;` and `&gt;` in one left-to-right pass, gives the text
/// that was escaped.
pub proof fn law_escape_round_trip(s: Seq<char>)
    ensures
        unescape_spec(escape_spec(s)) == s,
    decreases s.len(),
{
    if s.len() == 0 {
        assert(escape_spec(s) =~= Seq::<char>::empty());
        assert(unescape_spec(escape_spec(s)) =~= s);
    } else {
        lemma_escape_first(s);
        law_escape_round_trip(s.skip(1));
        lemma_unescape_after_char(s[0], escape_spec(s.skip(1)));
        assert(seq![s[0]] + s.skip(1) =~= s);
    }
}

/// Escaping changes a text exactly when it holds `&`, `<` or `>`: a text
/// without them is shown as it is.
pub proof fn law_escape_changes_only_markup(s: Seq<char>)
    ensures
        (escape_spec(s) == s) <==> no_markup(s),
    decreases s.len(),
{
    lemma_escape_len(s);
    if s.len() > 0 && no_markup(s) {
        let d = s.drop_last();
        assert forall|i: int| 0 <= i < d.len() implies !is_markup_char(#[trigger] d[i]) by {
            assert(d[i] == s[i]);
        }
        law_escape_changes_only_markup(d);
        assert(!is_markup_char(s[s.len() - 1]));
        assert(escape_char(s.last()) =~= seq![s.last()]);
        assert(escape_spec(s) =~= s);
    } else if s.len() == 0 {
        assert(escape_spec(s) =~= s);
    }
}

} // verus!
