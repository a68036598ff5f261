//! The resolver: decides, one Telegram lookup at a time, whom a request
//! doxes. The caller performs each lookup it asks for and hands back the
//! answer; the resolver never talks to Telegram itself.
use vstd::prelude::*;
use crate::dox_impl::{
    chat_id_of, fill, i64_of, lacks_full_info, new_report, report_of_chat, report_of_sender,
    report_of_user, titled, try_i64, with_full_info_spec, ChatFullInfo, DoxReport, SubjectId,
    User,
};
use crate::doxee_resolution::{
    member_user_and_title, user_and_title, ChatMemberInfo, DoxArg, DoxeeSource, ExternalReply,
    Message, Origin,
};
use crate::messages::BotError;

verus! {

/// A lookup that the resolver needs answered.
#[derive(Debug, Clone, Copy, PartialEq, Eq, Structural)]
pub enum Query {
    /// Look up the member `user_id` of chat `chat_id` (`getChatMember`);
    /// answer `None` when the lookup fails.
    ChatMember {
        /// Chat to look in.
        chat_id: i64,
        /// User to look up.
        user_id: u64,
    },
    /// Get the full information of chat `chat_id` (`getChat`); answer `None`
    /// when the lookup fails.
    FullInfo {
        /// Chat to get.
        chat_id: i64,
    },
}

/// What the resolver wants next.
#[derive(Debug)]
pub enum Step {
    /// Perform this lookup and hand back its answer.
    Ask(Query),
    /// Resolution is over: the doxee's report, or the error to reply with.
    Done(Result<DoxReport, BotError>),
}

/// Why a chat member is being looked up.
#[derive(Debug)]
pub enum Goal {
    /// To find the doxee named by an explicit user ID.
    Doxee,
    /// To find the title of the user this report describes.
    Title(DoxReport),
}

/// The state of a resolution.
#[derive(Debug)]
pub enum Resolver {
    /// Waiting for a chat member lookup in `chat_id`; `retried` once the
    /// lookup falls back to the user's own chat.
    MemberLookup {
        /// Why the member is looked up.
        goal: Goal,
        /// The user looked up.
        user_id: u64,
        /// The chat it is looked up in.
        chat_id: i64,
        /// Whether this is the fallback lookup.
        retried: bool,
    },
    /// Waiting for the full information of the report's subject.
    FullInfoLookup {
        /// The report to complete.
        report: DoxReport,
    },
    /// Resolution is over.
    Finished,
}

// ---------------------------------------------------------------------------
// Transitions
// ---------------------------------------------------------------------------

/// Resolution ends with `r`.
pub open spec fn finished(r: Result<DoxReport, BotError>) -> (Resolver, Step) {
    (Resolver::Finished, Step::Done(r))
}

/// Complete `r` with full chat information when it lacks some and its
/// subject can be looked up; otherwise end with `r`.
pub open spec fn full_info_phase(r: DoxReport) -> (Resolver, Step) {
    if lacks_full_info(r) {
        match chat_id_of(r.subject) {
            Some(c) => (
                Resolver::FullInfoLookup { report: r },
                Step::Ask(Query::FullInfo { chat_id: c }),
            ),
            None => finished(Ok(r)),
        }
    } else {
        finished(Ok(r))
    }
}

/// What follows when no member could be found for `goal`.
pub open spec fn member_failed(goal: Goal) -> (Resolver, Step) {
    match goal {
        Goal::Doxee => finished(Err(BotError::DoxeeIdentificationFailed)),
        Goal::Title(r) => full_info_phase(r),
    }
}

/// Look up member `user_id` in `chat_id`, or in the user's own chat when no
/// chat is given.
pub open spec fn member_phase(goal: Goal, user_id: u64, chat_id: Option<i64>) -> (
    Resolver,
    Step,
) {
    let chat = match chat_id {
        Some(c) => Some(c),
        None => i64_of(user_id),
    };
    match chat {
        Some(c) => (
            Resolver::MemberLookup { goal: goal, user_id: user_id, chat_id: c, retried: false },
            Step::Ask(Query::ChatMember { chat_id: c, user_id: user_id }),
        ),
        None => member_failed(goal),
    }
}

/// Find the title of a user report that has none, then complete it.
pub open spec fn title_phase(r: DoxReport, chat_id: Option<i64>) -> (Resolver, Step) {
    if r.sender_title is None {
        match r.subject {
            SubjectId::User(uid) => member_phase(Goal::Title(r), uid, chat_id),
            SubjectId::Chat(_) => full_info_phase(r),
        }
    } else {
        full_info_phase(r)
    }
}

/// Dox the origin of a forwarded or external message.
pub open spec fn origin_phase(o: Origin, chat_id: Option<i64>) -> (Resolver, Step) {
    match o {
        Origin::User { sender_user } => title_phase(report_of_user(sender_user), chat_id),
        Origin::Channel { chat, author_signature } => finished(
            Ok(titled(report_of_chat(chat), author_signature)),
        ),
        Origin::Chat { sender_chat, author_signature } => finished(
            Ok(titled(report_of_chat(sender_chat), author_signature)),
        ),
        Origin::HiddenUser => finished(Err(BotError::InvalidOrigin)),
    }
}

/// The chat ID of an external reply's chat, if known.
pub open spec fn external_chat_id(e: ExternalReply) -> Option<i64> {
    match e.chat {
        Some(c) => Some(c.id),
        None => None,
    }
}

/// Dox the sender of a replied-to message.
pub open spec fn reply_phase(m: Message) -> (Resolver, Step) {
    match m.forward_origin {
        Some(o) => origin_phase(o, Some(m.chat.id)),
        None => match m.external_reply {
            Some(e) => origin_phase(e.origin, external_chat_id(e)),
            None => match report_of_sender(
                m.from,
                m.sender_chat,
                fill(m.sender_tag, m.author_signature),
            ) {
                Some(r) => full_info_phase(r),
                None => finished(Err(BotError::DoxeeIdentificationFailed)),
            },
        },
    }
}

/// Dox the implicit doxee: the replied-to sender, else the external reply's
/// origin, else the doxer.
pub open spec fn implicit_phase(
    reply: Option<Box<Message>>,
    external: Option<ExternalReply>,
    doxer: DoxReport,
) -> (Resolver, Step) {
    match reply {
        Some(m) => reply_phase(*m),
        None => match external {
            Some(e) => origin_phase(e.origin, external_chat_id(e)),
            None => full_info_phase(doxer),
        },
    }
}

/// Resolve a message-borne request once its doxer report is known.
pub open spec fn doxer_phase(
    arg: DoxArg,
    doxer: Option<DoxReport>,
    chat_id: i64,
    reply: Option<Box<Message>>,
    external: Option<ExternalReply>,
) -> (Resolver, Step) {
    match doxer {
        None => finished(Err(BotError::DoxerIdentificationFailed)),
        Some(doxer) => match arg {
            DoxArg::Empty => implicit_phase(reply, external, doxer),
            DoxArg::UserId(uid) => member_phase(Goal::Doxee, uid, Some(chat_id)),
            DoxArg::Invalid => finished(Err(BotError::NotUserId)),
        },
    }
}

/// Resolve a message-borne request whose doxer is `from` / `sender_chat`.
pub open spec fn sender_phase(
    arg: DoxArg,
    m: Message,
    from: Option<User>,
    sender_chat: Option<crate::dox_impl::Chat>,
) -> (Resolver, Step) {
    doxer_phase(
        arg,
        report_of_sender(from, sender_chat, fill(m.sender_tag, m.author_signature)),
        m.chat.id,
        m.reply_to_message,
        m.external_reply,
    )
}

/// The first step of resolving `source`.
pub open spec fn start_phase(source: DoxeeSource) -> (Resolver, Step) {
    match source {
        DoxeeSource::Command { arg, message } => sender_phase(
            arg,
            message,
            message.from,
            message.sender_chat,
        ),
        DoxeeSource::Guest { arg, message } => sender_phase(
            arg,
            message,
            fill(message.guest_bot_caller_user, message.from),
            fill(message.guest_bot_caller_chat, message.sender_chat),
        ),
        DoxeeSource::Inline { arg, from } => match arg {
            DoxArg::Empty => full_info_phase(report_of_user(from)),
            DoxArg::UserId(uid) => member_phase(Goal::Doxee, uid, None),
            DoxArg::Invalid => finished(Err(BotError::NotUserId)),
        },
        DoxeeSource::PrivateForward { message } => match message.forward_origin {
            None => finished(Err(BotError::Incomprehensible)),
            Some(o) => if message.from is None && message.sender_chat is None {
                finished(Err(BotError::DoxerIdentificationFailed))
            } else {
                origin_phase(o, None)
            },
        },
    }
}

/// The step after a member lookup answered `answer`: on success the report
/// of the member (or the title it gives) goes on to full info; on failure the
/// lookup falls back once to the user's own chat, then gives up.
pub open spec fn after_member(state: Resolver, answer: Option<ChatMemberInfo>) -> (
    Resolver,
    Step,
) {
    match state {
        Resolver::MemberLookup { goal, user_id, chat_id, retried } => match answer {
            Some(m) => {
                let (user, title) = member_user_and_title(m);
                match goal {
                    Goal::Doxee => full_info_phase(new_report(user, title, None)),
                    Goal::Title(r) => full_info_phase(titled(r, title)),
                }
            },
            None => if retried {
                member_failed(goal)
            } else {
                match i64_of(user_id) {
                    None => member_failed(goal),
                    Some(fb) => if fb == chat_id {
                        member_failed(goal)
                    } else {
                        (
                            Resolver::MemberLookup {
                                goal: goal,
                                user_id: user_id,
                                chat_id: fb,
                                retried: true,
                            },
                            Step::Ask(Query::ChatMember { chat_id: fb, user_id: user_id }),
                        )
                    },
                }
            },
        },
        _ => finished(Err(BotError::DoxeeIdentificationFailed)),
    }
}

/// The step after a full info lookup answered `answer`.
pub open spec fn after_full_info(state: Resolver, answer: Option<ChatFullInfo>) -> (
    Resolver,
    Step,
) {
    match state {
        Resolver::FullInfoLookup { report } => match answer {
            Some(fi) => finished(Ok(with_full_info_spec(report, fi))),
            None => finished(Ok(report)),
        },
        _ => finished(Err(BotError::DoxeeIdentificationFailed)),
    }
}

// ---------------------------------------------------------------------------
// Executable transitions
// ---------------------------------------------------------------------------

fn finish(r: Result<DoxReport, BotError>) -> (res: (Resolver, Step))
    ensures
        res == finished(r),
{
    (Resolver::Finished, Step::Done(r))
}

fn enter_full_info(r: DoxReport) -> (res: (Resolver, Step))
    ensures
        res == full_info_phase(r),
{
    if r.lacks_full_info() {
        match r.subject.chat_id_for_get_chat() {
            Some(c) => {
                return (
                    Resolver::FullInfoLookup { report: r },
                    Step::Ask(Query::FullInfo { chat_id: c }),
                );
            },
            None => {},
        }
    }
    finish(Ok(r))
}

fn fail_member(goal: Goal) -> (res: (Resolver, Step))
    ensures
        res == member_failed(goal),
{
    match goal {
        Goal::Doxee => finish(Err(BotError::DoxeeIdentificationFailed)),
        Goal::Title(r) => enter_full_info(r),
    }
}

fn enter_member(goal: Goal, user_id: u64, chat_id: Option<i64>) -> (res: (Resolver, Step))
    ensures
        res == member_phase(goal, user_id, chat_id),
{
    let chat = match chat_id {
        Some(c) => Some(c),
        None => try_i64(user_id),
    };
    match chat {
        Some(c) => (
            Resolver::MemberLookup { goal, user_id, chat_id: c, retried: false },
            Step::Ask(Query::ChatMember { chat_id: c, user_id }),
        ),
        None => fail_member(goal),
    }
}

fn enter_title(r: DoxReport, chat_id: Option<i64>) -> (res: (Resolver, Step))
    ensures
        res == title_phase(r, chat_id),
{
    if r.sender_title.is_none() {
        match r.subject {
            SubjectId::User(uid) => enter_member(Goal::Title(r), uid, chat_id),
            SubjectId::Chat(_) => enter_full_info(r),
        }
    } else {
        enter_full_info(r)
    }
}

fn enter_origin(o: Origin, chat_id: Option<i64>) -> (res: (Resolver, Step))
    ensures
        res == origin_phase(o, chat_id),
{
    match o {
        Origin::User { sender_user } => enter_title(DoxReport::from_user(sender_user), chat_id),
        Origin::Channel { chat, author_signature } => finish(
            Ok(DoxReport::from_chat(chat).with_title(author_signature)),
        ),
        Origin::Chat { sender_chat, author_signature } => finish(
            Ok(DoxReport::from_chat(sender_chat).with_title(author_signature)),
        ),
        Origin::HiddenUser => finish(Err(BotError::InvalidOrigin)),
    }
}

fn external_chat(e: &ExternalReply) -> (res: Option<i64>)
    ensures
        res == external_chat_id(*e),
{
    match &e.chat {
        Some(c) => Some(c.id),
        None => None,
    }
}

fn either<T>(a: Option<T>, b: Option<T>) -> (res: Option<T>)
    ensures
        res == fill(a, b),
{
    match a {
        Some(x) => Some(x),
        None => b,
    }
}

fn enter_reply(m: Message) -> (res: (Resolver, Step))
    ensures
        res == reply_phase(m),
{
    let Message {
        from,
        sender_chat,
        sender_tag,
        author_signature,
        chat,
        forward_origin,
        external_reply,
        ..
    } = m;
    match forward_origin {
        Some(o) => enter_origin(o, Some(chat.id)),
        None => match external_reply {
            Some(e) => {
                let cid = external_chat(&e);
                enter_origin(e.origin, cid)
            },
            None => match DoxReport::from_sender(
                from,
                sender_chat,
                either(sender_tag, author_signature),
            ) {
                Some(r) => enter_full_info(r),
                None => finish(Err(BotError::DoxeeIdentificationFailed)),
            },
        },
    }
}

fn enter_implicit(
    reply: Option<Box<Message>>,
    external: Option<ExternalReply>,
    doxer: DoxReport,
) -> (res: (Resolver, Step))
    ensures
        res == implicit_phase(reply, external, doxer),
{
    match reply {
        Some(m) => enter_reply(*m),
        None => match external {
            Some(e) => {
                let cid = external_chat(&e);
                enter_origin(e.origin, cid)
            },
            None => enter_full_info(doxer),
        },
    }
}

fn enter_doxer(
    arg: DoxArg,
    doxer: Option<DoxReport>,
    chat_id: i64,
    reply: Option<Box<Message>>,
    external: Option<ExternalReply>,
) -> (res: (Resolver, Step))
    ensures
        res == doxer_phase(arg, doxer, chat_id, reply, external),
{
    match doxer {
        None => finish(Err(BotError::DoxerIdentificationFailed)),
        Some(doxer) => match arg {
            DoxArg::Empty => enter_implicit(reply, external, doxer),
            DoxArg::UserId(uid) => enter_member(Goal::Doxee, uid, Some(chat_id)),
            DoxArg::Invalid => finish(Err(BotError::NotUserId)),
        },
    }
}

impl Resolver {
    /// Begin resolving `source`: the resolver and what it wants first.
    pub fn start(source: DoxeeSource) -> (res: (Resolver, Step))
        ensures
            res == start_phase(source),
    {
        match source {
            DoxeeSource::Command { arg, message } => {
                let Message {
                    from,
                    sender_chat,
                    sender_tag,
                    author_signature,
                    chat,
                    reply_to_message,
                    external_reply,
                    ..
                } = message;
                let doxer = DoxReport::from_sender(
                    from,
                    sender_chat,
                    either(sender_tag, author_signature),
                );
                enter_doxer(arg, doxer, chat.id, reply_to_message, external_reply)
            },
            DoxeeSource::Guest { arg, message } => {
                let Message {
                    from,
                    sender_chat,
                    sender_tag,
                    author_signature,
                    chat,
                    reply_to_message,
                    external_reply,
                    guest_bot_caller_user,
                    guest_bot_caller_chat,
                    ..
                } = message;
                let doxer = DoxReport::from_sender(
                    either(guest_bot_caller_user, from),
                    either(guest_bot_caller_chat, sender_chat),
                    either(sender_tag, author_signature),
                );
                enter_doxer(arg, doxer, chat.id, reply_to_message, external_reply)
            },
            DoxeeSource::Inline { arg, from } => match arg {
                DoxArg::Empty => enter_full_info(DoxReport::from_user(from)),
                DoxArg::UserId(uid) => enter_member(Goal::Doxee, uid, None),
                DoxArg::Invalid => finish(Err(BotError::NotUserId)),
            },
            DoxeeSource::PrivateForward { message } => {
                let Message { from, sender_chat, forward_origin, .. } = message;
                match forward_origin {
                    None => finish(Err(BotError::Incomprehensible)),
                    Some(o) => if from.is_none() && sender_chat.is_none() {
                        finish(Err(BotError::DoxerIdentificationFailed))
                    } else {
                        enter_origin(o, None)
                    },
                }
            },
        }
    }

    /// Whether the resolver waits for a chat member lookup.
    pub fn awaits_chat_member(&self) -> (b: bool)
        ensures
            b == self is MemberLookup,
    {
        match self {
            Resolver::MemberLookup { .. } => true,
            _ => false,
        }
    }

    /// Whether the resolver waits for a full info lookup.
    pub fn awaits_full_info(&self) -> (b: bool)
        ensures
            b == self is FullInfoLookup,
    {
        match self {
            Resolver::FullInfoLookup { .. } => true,
            _ => false,
        }
    }

    /// Hand back the answer of the chat member lookup that was asked for.
    pub fn on_chat_member(self, answer: Option<ChatMemberInfo>) -> (res: (Resolver, Step))
        requires
            self is MemberLookup,
        ensures
            res == after_member(self, answer),
    {
        match self {
            Resolver::MemberLookup { goal, user_id, chat_id, retried } => match answer {
                Some(m) => {
                    let (user, title) = user_and_title(m);
                    match goal {
                        Goal::Doxee => enter_full_info(DoxReport::new(user, title, None)),
                        Goal::Title(r) => enter_full_info(r.with_title(title)),
                    }
                },
                None => if retried {
                    fail_member(goal)
                } else {
                    match try_i64(user_id) {
                        None => fail_member(goal),
                        Some(fb) => if fb == chat_id {
                            fail_member(goal)
                        } else {
                            (
                                Resolver::MemberLookup { goal, user_id, chat_id: fb, retried: true },
                                Step::Ask(Query::ChatMember { chat_id: fb, user_id }),
                            )
                        },
                    }
                },
            },
            _ => finish(Err(BotError::DoxeeIdentificationFailed)),
        }
    }

    /// Hand back the answer of the full info lookup that was asked for.
    pub fn on_full_info(self, answer: Option<ChatFullInfo>) -> (res: (Resolver, Step))
        requires
            self is FullInfoLookup,
        ensures
            res == after_full_info(self, answer),
    {
        match self {
            Resolver::FullInfoLookup { report } => match answer {
                Some(fi) => finish(Ok(report.with_full_info(fi))),
                None => finish(Ok(report)),
            },
            _ => finish(Err(BotError::DoxeeIdentificationFailed)),
        }
    }
}

} // verus!
