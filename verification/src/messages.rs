//! Static HTML bot error messages.
use vstd::prelude::*;

verus! {

/// Built-in HTML error reply message.
#[derive(Debug, Clone, Copy, PartialEq, Eq, Structural)]
pub enum BotError {
    /// Failed to identify the command invoker.
    DoxerIdentificationFailed,
    /// Failed to identify the dox target.
    DoxeeIdentificationFailed,
    /// The message origin cannot be used as a dox target.
    InvalidOrigin,
    /// Provided argument is not a user ID.
    NotUserId,
    /// Non-command message cannot be understood.
    Incomprehensible,
}

/// The HTML reply text of each error.
pub open spec fn error_text(e: BotError) -> Seq<char> {
    match e {
        BotError::DoxerIdentificationFailed => "❌ 无法确定<b>你</b>是谁，开盒失败。"@,
        BotError::DoxeeIdentificationFailed =>
            "❌ 无法确定要开盒的对象。请回复一条消息，或提供有效的用户 ID。"@,
        BotError::InvalidOrigin => "❌ 无法从这条消息的来源确定用户，对方可能隐藏了转发来源。"@,
        BotError::NotUserId => "❌ 提供的参数不是有效的用户 ID。"@,
        BotError::Incomprehensible => "🤔 看不懂这条消息。请转发一条消息给我，或者使用 /dox 命令。"@,
    }
}

impl BotError {
    /// Return the error message HTML.
    pub fn as_str(self) -> (res: &'static str)
        ensures
            res@ == error_text(self),
    {
        match self {
            BotError::DoxerIdentificationFailed => "❌ 无法确定<b>你</b>是谁，开盒失败。",
            BotError::DoxeeIdentificationFailed =>
                "❌ 无法确定要开盒的对象。请回复一条消息，或提供有效的用户 ID。",
            BotError::InvalidOrigin => "❌ 无法从这条消息的来源确定用户，对方可能隐藏了转发来源。",
            BotError::NotUserId => "❌ 提供的参数不是有效的用户 ID。",
            BotError::Incomprehensible => "🤔 看不懂这条消息。请转发一条消息给我，或者使用 /dox 命令。",
        }
    }

    /// The error message HTML as an owned string.
    pub fn to_string(&self) -> (res: String)
        ensures
            res@ == error_text(*self),
    {
        String::from_str(self.as_str())
    }
}

} // verus!
