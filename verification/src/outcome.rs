//! What a resolution delivers, stated as nested lookups over what Telegram
//! answers, and the laws that tie the resolver to it and to the promises of
//! the bot: who the doxee is for each kind of request.
use vstd::prelude::*;
use crate::dox_impl::{
    chat_id_of, fill, i64_of, lacks_full_info, new_report, report_of_chat, report_of_sender,
    report_of_user, titled, with_full_info_spec, Chat, ChatFullInfo, DoxReport, SubjectId, User,
};
use crate::doxee_resolution::{member_user_and_title, ChatMemberInfo, DoxArg, DoxeeSource, Message, Origin};
use crate::messages::BotError;
use crate::resolver::{
    after_full_info, after_member, external_chat_id, finished, full_info_phase, member_failed, member_phase, origin_phase, reply_phase, sender_phase,
    start_phase, title_phase, Goal, Query, Resolver, Step,
};

verus! {

/// The answers that Telegram gives to member lookups (`chat_id`, `user_id`).
pub type MemberAnswers = spec_fn(i64, u64) -> Option<ChatMemberInfo>;

/// The answers that Telegram gives to full info lookups (`chat_id`).
pub type InfoAnswers = spec_fn(i64) -> Option<ChatFullInfo>;

/// The user and title of member `user_id`, looked up in `chat_id` (or the
/// user's own chat when none is given), falling back once to the user's own
/// chat when that differs from the first.
pub open spec fn lookup_member(user_id: u64, chat_id: Option<i64>, member: MemberAnswers) -> Option<
    (User, Option<String>),
> {
    let chat = match chat_id {
        Some(c) => Some(c),
        None => i64_of(user_id),
    };
    match chat {
        None => None,
        Some(c) => match member(c, user_id) {
            Some(m) => Some(member_user_and_title(m)),
            None => match i64_of(user_id) {
                None => None,
                Some(fb) => if fb == c {
                    None
                } else {
                    match member(fb, user_id) {
                        Some(m) => Some(member_user_and_title(m)),
                        None => None,
                    }
                },
            },
        },
    }
}

/// `r` completed with the full information of its subject, when it lacks
/// some and the lookup succeeds.
pub open spec fn complete_full_info(r: DoxReport, info: InfoAnswers) -> DoxReport {
    if lacks_full_info(r) {
        match chat_id_of(r.subject) {
            Some(c) => match info(c) {
                Some(fi) => with_full_info_spec(r, fi),
                None => r,
            },
            None => r,
        }
    } else {
        r
    }
}

/// `r` with the title its user has in `chat_id`, when it has none yet.
pub open spec fn complete_title(r: DoxReport, chat_id: Option<i64>, member: MemberAnswers) -> DoxReport {
    if r.sender_title is None {
        match r.subject {
            SubjectId::User(uid) => match lookup_member(uid, chat_id, member) {
                Some((_, t)) => titled(r, t),
                None => r,
            },
            SubjectId::Chat(_) => r,
        }
    } else {
        r
    }
}

/// The report of the user with ID `user_id`, when they can be found.
pub open spec fn from_id(
    user_id: u64,
    chat_id: Option<i64>,
    member: MemberAnswers,
    info: InfoAnswers,
) -> Option<DoxReport> {
    match lookup_member(user_id, chat_id, member) {
        Some((u, t)) => Some(complete_full_info(new_report(u, t, None), info)),
        None => None,
    }
}

/// The report of a message origin; hidden users give none.
pub open spec fn from_origin(
    o: Origin,
    chat_id: Option<i64>,
    member: MemberAnswers,
    info: InfoAnswers,
) -> Option<DoxReport> {
    match o {
        Origin::User { sender_user } => Some(
            complete_full_info(complete_title(report_of_user(sender_user), chat_id, member), info),
        ),
        Origin::Channel { chat, author_signature } => Some(
            titled(report_of_chat(chat), author_signature),
        ),
        Origin::Chat { sender_chat, author_signature } => Some(
            titled(report_of_chat(sender_chat), author_signature),
        ),
        Origin::HiddenUser => None,
    }
}

/// `Ok` of a present report, else the error `e`.
pub open spec fn or_error(r: Option<DoxReport>, e: BotError) -> Result<DoxReport, BotError> {
    match r {
        Some(r) => Ok(r),
        None => Err(e),
    }
}

/// The doxee of a reply: the forwarded origin, the external reply's origin,
/// or the sender of the replied-to message.
pub open spec fn resolve_reply(m: Message, member: MemberAnswers, info: InfoAnswers) -> Result<
    DoxReport,
    BotError,
> {
    match m.forward_origin {
        Some(o) => or_error(from_origin(o, Some(m.chat.id), member, info), BotError::InvalidOrigin),
        None => match m.external_reply {
            Some(e) => or_error(
                from_origin(e.origin, external_chat_id(e), member, info),
                BotError::InvalidOrigin,
            ),
            None => match report_of_sender(
                m.from,
                m.sender_chat,
                fill(m.sender_tag, m.author_signature),
            ) {
                Some(r) => Ok(complete_full_info(r, info)),
                None => Err(BotError::DoxeeIdentificationFailed),
            },
        },
    }
}

/// The doxee when no user ID is given: the reply's doxee, else the external
/// reply's origin, else the doxer.
pub open spec fn resolve_implicit(
    reply: Option<Box<Message>>,
    external: Option<crate::doxee_resolution::ExternalReply>,
    doxer: DoxReport,
    member: MemberAnswers,
    info: InfoAnswers,
) -> Result<DoxReport, BotError> {
    match reply {
        Some(m) => resolve_reply(*m, member, info),
        None => match external {
            Some(e) => or_error(
                from_origin(e.origin, external_chat_id(e), member, info),
                BotError::InvalidOrigin,
            ),
            None => Ok(complete_full_info(doxer, info)),
        },
    }
}

/// The doxee of a command or guest message whose doxer is `from` /
/// `sender_chat`.
pub open spec fn resolve_message(
    arg: DoxArg,
    m: Message,
    from: Option<User>,
    sender_chat: Option<Chat>,
    member: MemberAnswers,
    info: InfoAnswers,
) -> Result<DoxReport, BotError> {
    match report_of_sender(from, sender_chat, fill(m.sender_tag, m.author_signature)) {
        None => Err(BotError::DoxerIdentificationFailed),
        Some(doxer) => match arg {
            DoxArg::Empty => resolve_implicit(
                m.reply_to_message,
                m.external_reply,
                doxer,
                member,
                info,
            ),
            DoxArg::UserId(uid) => or_error(
                from_id(uid, Some(m.chat.id), member, info),
                BotError::DoxeeIdentificationFailed,
            ),
            DoxArg::Invalid => Err(BotError::NotUserId),
        },
    }
}

/// The reply that a request gets, given what Telegram answers to lookups.
pub open spec fn outcome(source: DoxeeSource, member: MemberAnswers, info: InfoAnswers) -> Result<
    DoxReport,
    BotError,
> {
    match source {
        DoxeeSource::Command { arg, message } => resolve_message(
            arg,
            message,
            message.from,
            message.sender_chat,
            member,
            info,
        ),
        DoxeeSource::Guest { arg, message } => resolve_message(
            arg,
            message,
            fill(message.guest_bot_caller_user, message.from),
            fill(message.guest_bot_caller_chat, message.sender_chat),
            member,
            info,
        ),
        DoxeeSource::Inline { arg, from } => match arg {
            DoxArg::Empty => Ok(complete_full_info(report_of_user(from), info)),
            DoxArg::UserId(uid) => or_error(
                from_id(uid, None, member, info),
                BotError::DoxeeIdentificationFailed,
            ),
            DoxArg::Invalid => Err(BotError::NotUserId),
        },
        DoxeeSource::PrivateForward { message } => match message.forward_origin {
            None => Err(BotError::Incomprehensible),
            Some(o) => if message.from is None && message.sender_chat is None {
                Err(BotError::DoxerIdentificationFailed)
            } else {
                or_error(from_origin(o, None, member, info), BotError::InvalidOrigin)
            },
        },
    }
}

/// Drive the resolver from `state`, answering each lookup from `member` and
/// `info`, for at most `fuel` lookups; `None` when that is not enough.
pub open spec fn run(
    state: (Resolver, Step),
    member: MemberAnswers,
    info: InfoAnswers,
    fuel: nat,
) -> Option<Result<DoxReport, BotError>>
    decreases fuel,
{
    match state.1 {
        Step::Done(r) => Some(r),
        Step::Ask(q) => if fuel == 0 {
            None
        } else {
            match q {
                Query::ChatMember { chat_id, user_id } => run(
                    after_member(state.0, member(chat_id, user_id)),
                    member,
                    info,
                    (fuel - 1) as nat,
                ),
                Query::FullInfo { chat_id } => run(
                    after_full_info(state.0, info(chat_id)),
                    member,
                    info,
                    (fuel - 1) as nat,
                ),
            }
        },
    }
}

// ---------------------------------------------------------------------------
// The resolver delivers the outcome
// ---------------------------------------------------------------------------

proof fn lemma_run_done(r: Result<DoxReport, BotError>, member: MemberAnswers, info: InfoAnswers, fuel: nat)
    ensures
        run(finished(r), member, info, fuel) == Some(r),
{
}

proof fn lemma_run_full_info(r: DoxReport, member: MemberAnswers, info: InfoAnswers, fuel: nat)
    requires
        fuel >= 1,
    ensures
        run(full_info_phase(r), member, info, fuel) == Some(
            Ok::<DoxReport, BotError>(complete_full_info(r, info)),
        ),
{
    if lacks_full_info(r) {
        match chat_id_of(r.subject) {
            Some(c) => {
                let next = after_full_info(Resolver::FullInfoLookup { report: r }, info(c));
                assert(run(full_info_phase(r), member, info, fuel) == run(
                    next,
                    member,
                    info,
                    (fuel - 1) as nat,
                ));
                match info(c) {
                    Some(fi) => lemma_run_done(
                        Ok(with_full_info_spec(r, fi)),
                        member,
                        info,
                        (fuel - 1) as nat,
                    ),
                    None => lemma_run_done(Ok(r), member, info, (fuel - 1) as nat),
                }
            },
            None => lemma_run_done(Ok(r), member, info, fuel),
        }
    } else {
        lemma_run_done(Ok(r), member, info, fuel);
    }
}

/// What a member lookup for `goal` ends in, once its answer (if any) is known.
spec fn member_result(goal: Goal, found: Option<(User, Option<String>)>, info: InfoAnswers) -> Result<DoxReport, BotError> {
    match goal {
        Goal::Doxee => match found {
            Some((u, t)) => Ok(complete_full_info(new_report(u, t, None), info)),
            None => Err(BotError::DoxeeIdentificationFailed),
        },
        Goal::Title(r) => match found {
            Some((_, t)) => Ok(complete_full_info(titled(r, t), info)),
            None => Ok(complete_full_info(r, info)),
        },
    }
}

proof fn lemma_run_member_failed(goal: Goal, member: MemberAnswers, info: InfoAnswers, fuel: nat)
    requires
        fuel >= 1,
    ensures
        run(member_failed(goal), member, info, fuel) == Some(member_result(goal, None, info)),
{
    match goal {
        Goal::Doxee => lemma_run_done(Err(BotError::DoxeeIdentificationFailed), member, info, fuel),
        Goal::Title(r) => lemma_run_full_info(r, member, info, fuel),
    }
}

proof fn lemma_run_member(goal: Goal, user_id: u64, chat_id: Option<i64>, member: MemberAnswers, info: InfoAnswers, fuel: nat)
    requires
        fuel >= 3,
    ensures
        run(member_phase(goal, user_id, chat_id), member, info, fuel) == Some(
            member_result(goal, lookup_member(user_id, chat_id, member), info),
        ),
{
    let chat = match chat_id {
        Some(c) => Some(c),
        None => i64_of(user_id),
    };
    match chat {
        None => lemma_run_member_failed(goal, member, info, fuel),
        Some(c) => {
            let s0 = Resolver::MemberLookup { goal: goal, user_id: user_id, chat_id: c, retried: false };
            let f1 = (fuel - 1) as nat;
            assert(run(member_phase(goal, user_id, chat_id), member, info, fuel) == run(
                after_member(s0, member(c, user_id)),
                member,
                info,
                f1,
            ));
            match member(c, user_id) {
                Some(m) => {
                    let (user, title) = member_user_and_title(m);
                    match goal {
                        Goal::Doxee => lemma_run_full_info(new_report(user, title, None), member, info, f1),
                        Goal::Title(r) => lemma_run_full_info(titled(r, title), member, info, f1),
                    }
                },
                None => match i64_of(user_id) {
                    None => lemma_run_member_failed(goal, member, info, f1),
                    Some(fb) => if fb == c {
                        lemma_run_member_failed(goal, member, info, f1);
                    } else {
                        let s1 = Resolver::MemberLookup { goal: goal, user_id: user_id, chat_id: fb, retried: true };
                        let f2 = (f1 - 1) as nat;
                        assert(run(after_member(s0, None), member, info, f1) == run(
                            after_member(s1, member(fb, user_id)),
                            member,
                            info,
                            f2,
                        ));
                        match member(fb, user_id) {
                            Some(m) => {
                                let (user, title) = member_user_and_title(m);
                                match goal {
                                    Goal::Doxee => lemma_run_full_info(new_report(user, title, None), member, info, f2),
                                    Goal::Title(r) => lemma_run_full_info(titled(r, title), member, info, f2),
                                }
                            },
                            None => lemma_run_member_failed(goal, member, info, f2),
                        }
                    },
                },
            }
        },
    }
}

proof fn lemma_run_title(r: DoxReport, chat_id: Option<i64>, member: MemberAnswers, info: InfoAnswers, fuel: nat)
    requires
        fuel >= 3,
    ensures
        run(title_phase(r, chat_id), member, info, fuel) == Some(
            Ok::<DoxReport, BotError>(complete_full_info(complete_title(r, chat_id, member), info)),
        ),
{
    if r.sender_title is None {
        match r.subject {
            SubjectId::User(uid) => lemma_run_member(Goal::Title(r), uid, chat_id, member, info, fuel),
            SubjectId::Chat(_) => lemma_run_full_info(r, member, info, fuel),
        }
    } else {
        lemma_run_full_info(r, member, info, fuel);
    }
}

proof fn lemma_run_origin(o: Origin, chat_id: Option<i64>, member: MemberAnswers, info: InfoAnswers, fuel: nat)
    requires
        fuel >= 3,
    ensures
        run(origin_phase(o, chat_id), member, info, fuel) == Some(
            or_error(from_origin(o, chat_id, member, info), BotError::InvalidOrigin),
        ),
{
    match o {
        Origin::User { sender_user } => lemma_run_title(report_of_user(sender_user), chat_id, member, info, fuel),
        _ => {},
    }
}

proof fn lemma_run_reply(m: Message, member: MemberAnswers, info: InfoAnswers, fuel: nat)
    requires
        fuel >= 3,
    ensures
        run(reply_phase(m), member, info, fuel) == Some(resolve_reply(m, member, info)),
{
    match m.forward_origin {
        Some(o) => lemma_run_origin(o, Some(m.chat.id), member, info, fuel),
        None => match m.external_reply {
            Some(e) => lemma_run_origin(e.origin, external_chat_id(e), member, info, fuel),
            None => match report_of_sender(m.from, m.sender_chat, fill(m.sender_tag, m.author_signature)) {
                Some(r) => lemma_run_full_info(r, member, info, fuel),
                None => {},
            },
        },
    }
}

proof fn lemma_run_message(arg: DoxArg, m: Message, from: Option<User>, sender_chat: Option<Chat>, member: MemberAnswers, info: InfoAnswers)
    ensures
        run(sender_phase(arg, m, from, sender_chat), member, info, 3) == Some(
            resolve_message(arg, m, from, sender_chat, member, info),
        ),
{
    match report_of_sender(from, sender_chat, fill(m.sender_tag, m.author_signature)) {
        None => {},
        Some(doxer) => match arg {
            DoxArg::Empty => match m.reply_to_message {
                Some(r) => lemma_run_reply(*r, member, info, 3),
                None => match m.external_reply {
                    Some(e) => lemma_run_origin(e.origin, external_chat_id(e), member, info, 3),
                    None => lemma_run_full_info(doxer, member, info, 3),
                },
            },
            DoxArg::UserId(uid) => lemma_run_member(Goal::Doxee, uid, Some(m.chat.id), member, info, 3),
            DoxArg::Invalid => {},
        },
    }
}

/// Driving the resolver from its start, and answering each lookup it asks
/// for with what Telegram answers, takes at most three lookups and ends in
/// exactly the reply that the resolution rules give for the request.
pub proof fn lemma_resolver_delivers_outcome(source: DoxeeSource, member: MemberAnswers, info: InfoAnswers)
    ensures
        run(start_phase(source), member, info, 3) == Some(outcome(source, member, info)),
{
    match source {
        DoxeeSource::Command { arg, message } => lemma_run_message(arg, message, message.from, message.sender_chat, member, info),
        DoxeeSource::Guest { arg, message } => lemma_run_message(
            arg,
            message,
            fill(message.guest_bot_caller_user, message.from),
            fill(message.guest_bot_caller_chat, message.sender_chat),
            member,
            info,
        ),
        DoxeeSource::Inline { arg, from } => match arg {
            DoxArg::Empty => lemma_run_full_info(report_of_user(from), member, info, 3),
            DoxArg::UserId(uid) => lemma_run_member(Goal::Doxee, uid, None, member, info, 3),
            DoxArg::Invalid => {},
        },
        DoxeeSource::PrivateForward { message } => match message.forward_origin {
            None => {},
            Some(o) => if !(message.from is None && message.sender_chat is None) {
                lemma_run_origin(o, None, member, info, 3);
            },
        },
    }
}

} // verus!
