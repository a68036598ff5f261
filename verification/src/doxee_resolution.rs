//! Doxee resolution from Telegram source context: the doxee argument, guest
//! mentions, and the requests (with the message fields they carry) that the
//! resolver works on.
use vstd::prelude::*;
use crate::dox_impl::{Chat, User};
use crate::text::{
    is_ascii_alnum, is_ascii_alphanumeric, is_whitespace, is_ws, parse_u64, parse_u64_spec,
    trim, trim_str,
};

verus! {

// ---------------------------------------------------------------------------
// Arguments
// ---------------------------------------------------------------------------

/// Parsed argument naming an explicit doxee.
#[derive(Debug, Clone, Copy, PartialEq, Eq, Structural)]
pub enum DoxArg {
    /// No explicit doxee was provided.
    Empty,
    /// Explicit Telegram user ID.
    UserId(u64),
    /// An explicit doxee argument was provided, but it is not valid.
    Invalid,
}

/// The argument that a raw text denotes: nothing when it is absent or
/// blank, a user ID when its trimmed text is one, and invalid otherwise.
pub open spec fn dox_arg_of(raw: Option<Seq<char>>) -> DoxArg {
    match raw {
        None => DoxArg::Empty,
        Some(r) => {
            let t = trim(r);
            if t.len() == 0 {
                DoxArg::Empty
            } else {
                match parse_u64_spec(t) {
                    Some(id) => DoxArg::UserId(id),
                    None => DoxArg::Invalid,
                }
            }
        },
    }
}

/// The view of an optional string slice.
pub open spec fn opt_view(s: Option<&str>) -> Option<Seq<char>> {
    match s {
        Some(s) => Some(s@),
        None => None,
    }
}

impl DoxArg {
    /// Parse an optional raw doxee argument.
    pub fn parse(raw: Option<&str>) -> (res: Self)
        ensures
            res == dox_arg_of(opt_view(raw)),
    {
        let raw = match raw {
            None => return DoxArg::Empty,
            Some(raw) => trim_str(raw),
        };
        if raw.unicode_len() == 0 {
            return DoxArg::Empty;
        }
        match parse_u64(raw) {
            Some(id) => DoxArg::UserId(id),
            None => DoxArg::Invalid,
        }
    }
}

/// What a guest message text asks of the bot `user`: `None` when it is not
/// a mention of the bot at its start; otherwise the argument after the
/// mention (`DoxArg::Empty` for a bare mention, `DoxArg::Invalid` when the
/// mention is followed by anything but whitespace and a user ID).
pub open spec fn guest_invocation(text: Option<Seq<char>>, user: Seq<char>) -> Option<DoxArg> {
    match text {
        None => None,
        Some(raw) => {
            let t = trim(raw);
            if t.len() >= 1 + user.len() && t[0] == '@' && t.subrange(1, 1 + user.len() as int)
                == user {
                let rest = t.skip(1 + user.len() as int);
                if rest.len() == 0 {
                    Some(DoxArg::Empty)
                } else if is_ws(rest[0]) {
                    Some(dox_arg_of(Some(rest)))
                } else if is_ascii_alnum(rest[0]) || rest[0] == '_' {
                    None
                } else {
                    Some(DoxArg::Invalid)
                }
            } else {
                None
            }
        },
    }
}

/// Parse a guest mention invocation.
#[verifier::loop_isolation(false)]
pub fn parse_guest_invocation(text: Option<&str>, bot_username: &str) -> (res: Option<DoxArg>)
    ensures
        res == guest_invocation(opt_view(text), bot_username@),
{
    let t = match text {
        None => return None,
        Some(t) => trim_str(t),
    };
    let n = t.unicode_len();
    let u = bot_username.unicode_len();
    if n == 0 || t.get_char(0) != '@' {
        return None;
    }
    if n - 1 < u {
        return None;
    }
    let mut k: usize = 0;
    while k < u
        invariant
            n == t@.len(),
            u == bot_username@.len(),
            1 + u <= n,
            k <= u,
            forall|j: int| 0 <= j < k ==> t@[1 + j] == bot_username@[j],
        decreases u - k,
    {
        if t.get_char(1 + k) != bot_username.get_char(k) {
            assert(t@.subrange(1, 1 + u as int)[k as int] != bot_username@[k as int]);
            return None;
        }
        k = k + 1;
    }
    assert(t@.subrange(1, 1 + u as int) =~= bot_username@);
    let rest = t.substring_char(1 + u, n);
    assert(rest@ =~= t@.skip(1 + u as int));
    if rest.unicode_len() == 0 {
        return Some(DoxArg::Empty);
    }
    let first = rest.get_char(0);
    if is_whitespace(first) {
        return Some(DoxArg::parse(Some(rest)));
    }
    if is_ascii_alphanumeric(first) || first == '_' {
        return None;
    }
    Some(DoxArg::Invalid)
}

// ---------------------------------------------------------------------------
// Source context
// ---------------------------------------------------------------------------

/// Where a message was originally sent from.
#[derive(Debug, Clone)]
pub enum Origin {
    /// Sent by a known user.
    User {
        /// The user who sent the original message.
        sender_user: User,
    },
    /// Sent by a user who hides their account.
    HiddenUser,
    /// Sent on behalf of a chat.
    Chat {
        /// The chat that sent the original message.
        sender_chat: Chat,
        /// Signature of the author, if any.
        author_signature: Option<String>,
    },
    /// Posted in a channel.
    Channel {
        /// The channel.
        chat: Chat,
        /// Signature of the author, if any.
        author_signature: Option<String>,
    },
}

/// A reply to a message in another chat.
#[derive(Debug, Clone)]
pub struct ExternalReply {
    /// Where the replied-to message came from.
    pub origin: Origin,
    /// The chat of the replied-to message, if known.
    pub chat: Option<Chat>,
}

/// The fields of a Telegram message that doxee resolution reads.
#[derive(Debug)]
pub struct Message {
    /// The sending user.
    pub from: Option<User>,
    /// The chat the message was sent on behalf of.
    pub sender_chat: Option<Chat>,
    /// The sender's tag in the chat.
    pub sender_tag: Option<String>,
    /// Signature of the post author.
    pub author_signature: Option<String>,
    /// The chat the message belongs to.
    pub chat: Chat,
    /// Where a forwarded message originally came from.
    pub forward_origin: Option<Origin>,
    /// The message this one replies to.
    pub reply_to_message: Option<Box<Message>>,
    /// The message in another chat this one replies to.
    pub external_reply: Option<ExternalReply>,
    /// The user who called the bot in guest mode.
    pub guest_bot_caller_user: Option<User>,
    /// The chat that called the bot in guest mode.
    pub guest_bot_caller_chat: Option<Chat>,
    /// The text of the message.
    pub text: Option<String>,
}

/// Source context for resolving a doxee.
#[derive(Debug)]
pub enum DoxeeSource {
    /// `/dox` command invocation.
    Command {
        /// Parsed command argument.
        arg: DoxArg,
        /// Telegram message containing the command.
        message: Message,
    },
    /// Inline query invocation.
    Inline {
        /// Parsed inline query.
        arg: DoxArg,
        /// User issuing the inline query.
        from: User,
    },
    /// Guest mention invocation.
    Guest {
        /// Parsed guest mention argument.
        arg: DoxArg,
        /// Telegram guest message.
        message: Message,
    },
    /// Private non-command forwarded message.
    PrivateForward {
        /// Telegram private message.
        message: Message,
    },
}

/// What a chat member lookup tells of a member.
#[derive(Debug, Clone)]
pub enum ChatMemberInfo {
    /// The owner of the chat.
    Creator {
        /// The member.
        user: User,
        /// Custom title.
        custom_title: Option<String>,
    },
    /// An administrator.
    Administrator {
        /// The member.
        user: User,
        /// Custom title.
        custom_title: Option<String>,
    },
    /// An ordinary member.
    Member {
        /// The member.
        user: User,
        /// Member tag.
        tag: Option<String>,
    },
    /// A restricted member.
    Restricted {
        /// The member.
        user: User,
        /// Member tag.
        tag: Option<String>,
    },
    /// A user who left.
    Left {
        /// The user.
        user: User,
    },
    /// A banned user.
    Kicked {
        /// The user.
        user: User,
    },
}

/// The user and the title (custom title or tag) that a member lookup gives.
pub open spec fn member_user_and_title(m: ChatMemberInfo) -> (User, Option<String>) {
    match m {
        ChatMemberInfo::Creator { user, custom_title } => (user, custom_title),
        ChatMemberInfo::Administrator { user, custom_title } => (user, custom_title),
        ChatMemberInfo::Member { user, tag } => (user, tag),
        ChatMemberInfo::Restricted { user, tag } => (user, tag),
        ChatMemberInfo::Left { user } => (user, None),
        ChatMemberInfo::Kicked { user } => (user, None),
    }
}

/// The user and title of a chat member.
pub fn user_and_title(m: ChatMemberInfo) -> (res: (User, Option<String>))
    ensures
        res == member_user_and_title(m),
{
    match m {
        ChatMemberInfo::Creator { user, custom_title } => (user, custom_title),
        ChatMemberInfo::Administrator { user, custom_title } => (user, custom_title),
        ChatMemberInfo::Member { user, tag } => (user, tag),
        ChatMemberInfo::Restricted { user, tag } => (user, tag),
        ChatMemberInfo::Left { user } => (user, None),
        ChatMemberInfo::Kicked { user } => (user, None),
    }
}

} // verus!
