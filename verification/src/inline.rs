//! The answer to inline queries.
use vstd::prelude::*;
use crate::dox_impl::{inline_title_spec, DoxReport};
use crate::messages::BotError;
use crate::replies::{reply_html, reply_text};

verus! {

/// The texts of an inline query result article.
#[derive(Debug, Clone)]
pub struct Article {
    /// The HTML message that choosing the article sends.
    pub message: String,
    /// The title shown in the result list.
    pub title: String,
    /// The description shown in the result list.
    pub description: String,
}

/// The title of the inline article for a resolution.
pub open spec fn inline_title_of(r: Result<DoxReport, BotError>) -> Seq<char> {
    match r {
        Ok(report) => inline_title_spec(report),
        Err(BotError::DoxeeIdentificationFailed) => "ERR_DOXEE_IDENTIFICATION_FAILED"@,
        Err(BotError::NotUserId) => "ERR_NOT_USER_ID"@,
        Err(_) => "ERR"@,
    }
}

/// The description of the inline article for a resolution.
pub open spec fn inline_description_of(r: Result<DoxReport, BotError>) -> Seq<char> {
    match r {
        Ok(_) => "盒盒盒"@,
        Err(BotError::DoxeeIdentificationFailed) =>
            "马冬什么？马冬梅。什么冬梅啊？马冬梅啊。马什么梅啊？行，大爷，您先凉快吧。"@,
        Err(_) => "发的啥呀这是？"@,
    }
}

/// The article that answers an inline query.
pub fn inline_article(r: Result<DoxReport, BotError>) -> (res: Article)
    ensures
        res.message@ == reply_html(r),
        res.title@ == inline_title_of(r),
        res.description@ == inline_description_of(r),
{
    let message = reply_text(&r);
    match r {
        Ok(report) => Article {
            message,
            title: report.inline_title(),
            description: String::from_str("盒盒盒"),
        },
        Err(BotError::DoxeeIdentificationFailed) => Article {
            message,
            title: String::from_str("ERR_DOXEE_IDENTIFICATION_FAILED"),
            description: String::from_str(
                "马冬什么？马冬梅。什么冬梅啊？马冬梅啊。马什么梅啊？行，大爷，您先凉快吧。",
            ),
        },
        Err(BotError::NotUserId) => Article {
            message,
            title: String::from_str("ERR_NOT_USER_ID"),
            description: String::from_str("发的啥呀这是？"),
        },
        Err(_) => Article {
            message,
            title: String::from_str("ERR"),
            description: String::from_str("发的啥呀这是？"),
        },
    }
}

} // verus!
