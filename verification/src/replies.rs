//! The HTML reply that a resolution is answered with.
use vstd::prelude::*;
use crate::dox_impl::{report_html, DoxReport};
use crate::messages::{error_text, BotError};

verus! {

/// The HTML reply for a resolution: the report, or the error message.
pub open spec fn reply_html(r: Result<DoxReport, BotError>) -> Seq<char> {
    match r {
        Ok(report) => report_html(report),
        Err(e) => error_text(e),
    }
}

/// The HTML reply for a resolution.
pub fn reply_text(r: &Result<DoxReport, BotError>) -> (res: String)
    ensures
        res@ == reply_html(*r),
{
    match r {
        Ok(report) => report.to_string(),
        Err(e) => e.to_string(),
    }
}

} // verus!
