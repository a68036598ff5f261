//! Commands for the bot: `/dox` and `/help`.
use vstd::prelude::*;
use crate::doxee_resolution::{opt_view, DoxArg, DoxeeSource, Message};
use crate::text::{is_whitespace, is_ws};

verus! {

/// The dox command.
#[derive(Debug, Clone, PartialEq, Eq)]
pub struct Dox {
    /// The text after the command, naming the doxee, if any.
    pub doxee: Option<String>,
}

/// The help command.
#[derive(Debug, Clone, Copy, PartialEq, Eq)]
pub struct Help;

/// A parsed bot command; `/start` (which the inline help button sends)
/// shows the help too.
#[derive(Debug, Clone, PartialEq, Eq)]
pub enum Commands {
    /// `/dox [user_id]`.
    Dox(Dox),
    /// `/help` or `/start`.
    Help(Help),
}

impl Dox {
    /// Trigger word.
    pub const TRIGGER: &'static str = "dox";
    /// Help message.
    pub const HELP: &'static str = "盒盒盒";

    /// The request this command makes, sent in `message`.
    pub fn source(self, message: Message) -> (res: DoxeeSource)
        ensures
            res == (DoxeeSource::Command {
                arg: crate::doxee_resolution::dox_arg_of(
                    match self.doxee {
                        Some(s) => Some(s@),
                        None => None,
                    },
                ),
                message: message,
            }),
    {
        let arg = match &self.doxee {
            Some(s) => DoxArg::parse(Some(s.as_str())),
            None => DoxArg::parse(None),
        };
        DoxeeSource::Command { arg, message }
    }
}

impl Help {
    /// Trigger word.
    pub const TRIGGER: &'static str = "help";
    /// Help message.
    pub const HELP: &'static str = "查看帮助信息";
}

/// The help text, mentioning the bot by `username`.
pub open spec fn help_html(username: Seq<char>) -> Seq<char> {
    "<b>开盒模拟器</b> @"@ + username + "\n\n"@
        + "<code>/dox</code>：开盒自己；回复一条消息时开盒该消息的发送者\n"@
        + "<code>/dox 用户 ID</code>：开盒指定 ID 的用户\n"@
        + "私聊转发一条消息给我：开盒该消息的原发送者\n"@ + "<code>@"@ + username
        + " 用户 ID</code>：在任意聊天中通过内联模式开盒\n\n"@
        + "本机器人仅供娱乐，所有信息均来自 Telegram 公开接口。"@
}

/// The help message for the bot `username`.
pub fn help_text(username: &str) -> (res: String)
    ensures
        res@ == help_html(username@),
{
    let mut out = String::from_str("<b>开盒模拟器</b> @");
    out.append(username);
    out.append("\n\n");
    out.append("<code>/dox</code>：开盒自己；回复一条消息时开盒该消息的发送者\n");
    out.append("<code>/dox 用户 ID</code>：开盒指定 ID 的用户\n");
    out.append("私聊转发一条消息给我：开盒该消息的原发送者\n");
    out.append("<code>@");
    out.append(username);
    out.append(" 用户 ID</code>：在任意聊天中通过内联模式开盒\n\n");
    out.append("本机器人仅供娱乐，所有信息均来自 Telegram 公开接口。");
    assert(out@ =~= help_html(username@));
    out
}

/// The trigger words and help messages of all commands, in menu order.
pub fn command_list() -> (res: [(&'static str, &'static str); 2])
    ensures
        res[0].0@ == "dox"@,
        res[0].1@ == "盒盒盒"@,
        res[1].0@ == "help"@,
        res[1].1@ == "查看帮助信息"@,
{
    [("dox", "盒盒盒"), ("help", "查看帮助信息")]
}

// ---------------------------------------------------------------------------
// Parsing
// ---------------------------------------------------------------------------

/// The first index at or after `i` that holds whitespace, else `s.len()`.
pub open spec fn first_ws_from(s: Seq<char>, i: nat) -> nat
    decreases s.len() - i,
{
    if i >= s.len() {
        s.len()
    } else if is_ws(s[i as int]) {
        i
    } else {
        first_ws_from(s, i + 1)
    }
}

/// The first index at or after `i` that holds `@`, else `s.len()`.
pub open spec fn first_at_from(s: Seq<char>, i: nat) -> nat
    decreases s.len() - i,
{
    if i >= s.len() {
        s.len()
    } else if s[i as int] == '@' {
        i
    } else {
        first_at_from(s, i + 1)
    }
}

/// The name and the rest of a command addressed to the bot `user`: the text
/// starts with `/`, the command word runs to the first whitespace, and an
/// `@name` suffix of the word, if any, must name the bot.
pub open spec fn command_parts(text: Option<Seq<char>>, user: Seq<char>) -> Option<
    (Seq<char>, Seq<char>),
> {
    match text {
        None => None,
        Some(t) => if t.len() == 0 || t[0] != '/' {
            None
        } else {
            let e = first_ws_from(t, 1);
            let word = t.subrange(1, e as int);
            let rest = t.skip(e as int);
            let a = first_at_from(word, 0);
            if a < word.len() && word.skip(a + 1 as int) != user {
                None
            } else {
                Some((word.take(a as int), rest))
            }
        },
    }
}

/// Whether `res` is the command that `parts` names.
pub open spec fn is_command(res: Option<Commands>, parts: Option<(Seq<char>, Seq<char>)>) -> bool {
    match parts {
        None => res is None,
        Some((name, rest)) => if name == "dox"@ {
            match res {
                Some(Commands::Dox(d)) => match d.doxee {
                    Some(s) => rest.len() > 0 && s@ == rest,
                    None => rest.len() == 0,
                },
                _ => false,
            }
        } else if name == "help"@ || name == "start"@ {
            res matches Some(Commands::Help(_))
        } else {
            res is None
        },
    }
}

proof fn lemma_first_ws_from(s: Seq<char>, i: nat, j: nat)
    requires
        i <= j <= s.len(),
        forall|k: int| i <= k < j ==> !is_ws(#[trigger] s[k]),
        j == s.len() || is_ws(s[j as int]),
    ensures
        first_ws_from(s, i) == j,
    decreases j - i,
{
    if i < j {
        lemma_first_ws_from(s, i + 1, j);
    }
}

proof fn lemma_first_at_from(s: Seq<char>, i: nat, j: nat)
    requires
        i <= j <= s.len(),
        forall|k: int| i <= k < j ==> #[trigger] s[k] != '@',
        j == s.len() || s[j as int] == '@',
    ensures
        first_at_from(s, i) == j,
    decreases j - i,
{
    if i < j {
        lemma_first_at_from(s, i + 1, j);
    }
}

/// Addressing a command to the bot by name changes nothing: for a command
/// word `w` and what follows it (nothing, or text after whitespace),
/// `/w@user rest` is read exactly as `/w rest` is, as the command `w` with
/// argument `rest`. So `/dox@user` is `/dox`, and `/help@user` is `/help`.
pub proof fn law_bot_name_suffix_is_transparent(w: Seq<char>, user: Seq<char>, rest: Seq<char>)
    requires
        forall|k: int| 0 <= k < w.len() ==> !is_ws(#[trigger] w[k]) && w[k] != '@',
        forall|k: int| 0 <= k < user.len() ==> !is_ws(#[trigger] user[k]),
        rest.len() == 0 || is_ws(rest[0]),
    ensures
        command_parts(Some("/"@ + w + "@"@ + user + rest), user) == Some((w, rest)),
        command_parts(Some("/"@ + w + rest), user) == Some((w, rest)),
{
    reveal_strlit("/");
    reveal_strlit("@");
    let t1 = "/"@ + w + "@"@ + user + rest;
    let e1 = 1 + w.len() + 1 + user.len();
    assert forall|k: int| 1 <= k < e1 implies !is_ws(#[trigger] t1[k]) by {
        if k < 1 + w.len() {
            assert(t1[k] == w[k - 1]);
        } else if k == 1 + w.len() {
            assert(t1[k] == '@');
        } else {
            assert(t1[k] == user[k - 2 - w.len()]);
        }
    }
    if rest.len() > 0 {
        assert(t1[e1 as int] == rest[0]);
    }
    lemma_first_ws_from(t1, 1, e1 as nat);
    let word1 = t1.subrange(1, e1 as int);
    assert(word1 =~= w + "@"@ + user);
    assert forall|k: int| 0 <= k < w.len() implies #[trigger] word1[k] != '@' by {
        assert(word1[k] == w[k]);
    }
    lemma_first_at_from(word1, 0, w.len());
    assert(word1.skip(w.len() + 1 as int) =~= user);
    assert(word1.take(w.len() as int) =~= w);
    assert(t1.skip(e1 as int) =~= rest);

    let t2 = "/"@ + w + rest;
    let e2 = 1 + w.len();
    assert forall|k: int| 1 <= k < e2 implies !is_ws(#[trigger] t2[k]) by {
        assert(t2[k] == w[k - 1]);
    }
    if rest.len() > 0 {
        assert(t2[e2 as int] == rest[0]);
    }
    lemma_first_ws_from(t2, 1, e2 as nat);
    let word2 = t2.subrange(1, e2 as int);
    assert(word2 =~= w);
    lemma_first_at_from(word2, 0, w.len());
    assert(word2.take(w.len() as int) =~= w);
    assert(t2.skip(e2 as int) =~= rest);
}

/// `/dox@user`, with nothing after it, is the `/dox` command without an
/// argument, which doxes the sender or the replied-to message.
pub proof fn law_dox_at_bot_is_bare_dox(user: Seq<char>, res: Option<Commands>)
    requires
        forall|k: int| 0 <= k < user.len() ==> !is_ws(#[trigger] user[k]),
        is_command(res, command_parts(Some("/dox@"@ + user), user)),
    ensures
        res matches Some(Commands::Dox(d)) && d.doxee is None,
{
    reveal_strlit("dox");
    reveal_strlit("/dox@");
    reveal_strlit("/");
    reveal_strlit("@");
    let w = "dox"@;
    assert(!is_ws('d') && !is_ws('o') && !is_ws('x'));
    law_bot_name_suffix_is_transparent(w, user, Seq::empty());
    assert("/dox@"@ + user =~= "/"@ + w + "@"@ + user + Seq::<char>::empty());
}

/// Whether two texts are equal.
pub fn same_text(a: &str, b: &str) -> (res: bool)
    ensures
        res == (a@ == b@),
{
    let n = a.unicode_len();
    if n != b.unicode_len() {
        return false;
    }
    let mut i: usize = 0;
    while i < n
        invariant
            n == a@.len(),
            n == b@.len(),
            i <= n,
            forall|j: int| 0 <= j < i ==> a@[j] == b@[j],
        decreases n - i,
    {
        if a.get_char(i) != b.get_char(i) {
            return false;
        }
        i = i + 1;
    }
    assert(a@ =~= b@);
    true
}

impl Commands {
    /// Parse a message text as a command to the bot `username`.
    #[verifier::loop_isolation(false)]
    pub fn parse(text: Option<&str>, username: &str) -> (res: Option<Commands>)
        ensures
            is_command(res, command_parts(opt_view(text), username@)),
    {
        let t = match text {
            None => return None,
            Some(t) => t,
        };
        let n = t.unicode_len();
        if n == 0 || t.get_char(0) != '/' {
            return None;
        }
        let mut e: usize = 1;
        while e < n && !is_whitespace(t.get_char(e))
            invariant
                n == t@.len(),
                1 <= e <= n,
                first_ws_from(t@, 1) == first_ws_from(t@, e as nat),
            decreases n - e,
        {
            e = e + 1;
        }
        let word = t.substring_char(1, e);
        let rest = t.substring_char(e, n);
        assert(rest@ =~= t@.skip(e as int));
        let w = word.unicode_len();
        let mut a: usize = 0;
        while a < w && word.get_char(a) != '@'
            invariant
                w == word@.len(),
                a <= w,
                first_at_from(word@, 0) == first_at_from(word@, a as nat),
            decreases w - a,
        {
            a = a + 1;
        }
        if a < w {
            let target = word.substring_char(a + 1, w);
            assert(target@ =~= word@.skip(a + 1));
            if !same_text(target, username) {
                return None;
            }
        }
        let name = word.substring_char(0, a);
        assert(name@ =~= word@.take(a as int));
        if same_text(name, "dox") {
            let doxee = if rest.unicode_len() > 0 {
                Some(String::from_str(rest))
            } else {
                None
            };
            Some(Commands::Dox(Dox { doxee }))
        } else if same_text(name, "help") || same_text(name, "start") {
            Some(Commands::Help(Help))
        } else {
            None
        }
    }
}

} // verus!
