//! The answer to guest mentions.
use vstd::prelude::*;
use crate::dox_impl::DoxReport;
use crate::messages::BotError;
use crate::replies::{reply_html, reply_text};
pub use crate::inline::Article;
pub use crate::doxee_resolution::parse_guest_invocation;

verus! {

/// The article that answers a guest mention.
pub fn guest_article(r: &Result<DoxReport, BotError>) -> (res: Article)
    ensures
        res.message@ == reply_html(*r),
        res.title@ == "Title"@,
        res.description@ == "Description"@,
{
    Article {
        message: reply_text(r),
        title: String::from_str("Title"),
        description: String::from_str("Description"),
    }
}

} // verus!
