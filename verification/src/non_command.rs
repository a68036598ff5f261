//! Non-command messages.
use vstd::prelude::*;
use crate::dox_impl::ChatKind;
use crate::doxee_resolution::{DoxeeSource, Message};

verus! {

/// The request that a non-command message makes: only messages in private
/// chats are handled, as forwards to dox.
pub fn non_command_source(message: Message) -> (res: Option<DoxeeSource>)
    ensures
        match message.chat.kind {
            ChatKind::Private => res == Some(DoxeeSource::PrivateForward { message: message }),
            _ => res is None,
        },
{
    match message.chat.kind {
        ChatKind::Private => Some(DoxeeSource::PrivateForward { message }),
        _ => None,
    }
}

} // verus!
