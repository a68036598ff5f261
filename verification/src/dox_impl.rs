//! Dox reports: what is known of a user or chat, how it is gathered and how
//! it is rendered as HTML.
use vstd::prelude::*;
use crate::text::{
    contains, contains_spec, decimal, escape_spec, push_decimal, push_escaped, push_signed_decimal,
    push_zero_padded, signed_decimal, zero_padded,
};

verus! {

/// Identifier for either a Telegram user or a chat.
#[derive(Debug, Clone, Copy, PartialEq, Eq, Structural)]
pub enum SubjectId {
    /// Telegram user ID.
    User(u64),
    /// Telegram chat/channel/group ID.
    Chat(i64),
}

/// The kind of a Telegram chat.
#[derive(Debug, Clone, Copy, PartialEq, Eq, Structural)]
pub enum ChatKind {
    /// A private conversation with one user.
    Private,
    /// A basic group.
    Group,
    /// A supergroup.
    Supergroup,
    /// A channel.
    Channel,
}

/// The fields of a Telegram user that dox reports use.
#[derive(Debug, Clone)]
pub struct User {
    /// Telegram user ID.
    pub id: u64,
    /// First name.
    pub first_name: String,
    /// Last name, if any.
    pub last_name: Option<String>,
    /// Username, if any.
    pub username: Option<String>,
    /// Whether the user has Telegram Premium, if known.
    pub is_premium: Option<bool>,
}

/// The fields of a Telegram chat that dox reports use.
#[derive(Debug, Clone)]
pub struct Chat {
    /// Chat ID.
    pub id: i64,
    /// Kind of the chat.
    pub kind: ChatKind,
    /// Title of a group or channel.
    pub title: Option<String>,
    /// Username, if any.
    pub username: Option<String>,
}

/// A birthdate; the year may be hidden.
#[derive(Debug, Clone, Copy, PartialEq, Eq, Structural)]
pub struct Birthdate {
    /// Day of the month.
    pub day: u8,
    /// Month.
    pub month: u8,
    /// Year, if shown.
    pub year: Option<u16>,
}

/// Geographic coordinates, each as the decimal text that Telegram's numbers
/// print as.
#[derive(Debug, Clone)]
pub struct Coordinates {
    /// Longitude.
    pub longitude: String,
    /// Latitude.
    pub latitude: String,
}

/// The location of a business account.
#[derive(Debug, Clone)]
pub struct BusinessLocation {
    /// Address of the business.
    pub address: String,
    /// Coordinates of the business, if given.
    pub location: Option<Coordinates>,
}

/// The fields of Telegram's full chat information that dox reports use.
#[derive(Debug, Clone)]
pub struct ChatFullInfo {
    /// Username, if any.
    pub username: Option<String>,
    /// First name of the other party in a private chat.
    pub first_name: Option<String>,
    /// Last name of the other party in a private chat.
    pub last_name: Option<String>,
    /// Birthdate of the other party in a private chat.
    pub birthdate: Option<Birthdate>,
    /// Business location.
    pub business_location: Option<BusinessLocation>,
    /// Personal channel of the user.
    pub personal_chat: Option<Chat>,
}

/// A report containing all available information about a user.
#[derive(Debug, Clone)]
pub struct DoxReport {
    /// User or chat this report describes.
    pub subject: SubjectId,
    /// The user's username, if any.
    pub username: Option<String>,
    /// The user's title/tag in the chat or signature, if any.
    pub sender_title: Option<String>,
    /// The user's first name or chat name, if any.
    pub display_name: Option<String>,
    /// The user's last name, if any.
    pub last_name: Option<String>,
    /// If the user is premium.
    pub is_premium: Option<bool>,
    /// Birthdate, if any.
    pub birthdate: Option<Birthdate>,
    /// Business location, if any.
    pub business_location: Option<BusinessLocation>,
    /// Personal channel, if any.
    pub personal_chat: Option<Chat>,
}

// ---------------------------------------------------------------------------
// Subjects
// ---------------------------------------------------------------------------

/// The `i64` with the same value as `n`, when there is one.
pub open spec fn i64_of(n: u64) -> Option<i64> {
    if n <= i64::MAX as u64 {
        Some(n as i64)
    } else {
        None
    }
}

/// The chat ID under which `get_chat` finds a subject.
pub open spec fn chat_id_of(s: SubjectId) -> Option<i64> {
    match s {
        SubjectId::User(id) => i64_of(id),
        SubjectId::Chat(id) => Some(id),
    }
}

/// `u64` to `i64` (`i64::try_from`), when the value fits.
pub fn try_i64(n: u64) -> (r: Option<i64>)
    ensures
        r == i64_of(n),
{
    if n <= 9223372036854775807u64 {
        Some(n as i64)
    } else {
        None
    }
}

impl SubjectId {
    /// Return user ID if subject is a user.
    pub fn as_user_id(self) -> (res: Option<u64>)
        ensures
            res == (match self {
                SubjectId::User(id) => Some(id),
                SubjectId::Chat(_) => None,
            }),
    {
        match self {
            SubjectId::User(id) => Some(id),
            SubjectId::Chat(_) => None,
        }
    }

    /// Return chat ID usable with `get_chat`.
    pub fn chat_id_for_get_chat(self) -> (res: Option<i64>)
        ensures
            res == chat_id_of(self),
    {
        match self {
            SubjectId::User(id) => try_i64(id),
            SubjectId::Chat(id) => Some(id),
        }
    }
}

// ---------------------------------------------------------------------------
// Building reports
// ---------------------------------------------------------------------------

/// `a` when it is present, else `b`.
pub open spec fn fill<T>(a: Option<T>, b: Option<T>) -> Option<T> {
    if a is Some {
        a
    } else {
        b
    }
}

/// The report that a user's own fields give.
pub open spec fn report_of_user(u: User) -> DoxReport {
    DoxReport {
        subject: SubjectId::User(u.id),
        username: u.username,
        sender_title: None,
        display_name: Some(u.first_name),
        last_name: u.last_name,
        is_premium: u.is_premium,
        birthdate: None,
        business_location: None,
        personal_chat: None,
    }
}

/// The report that a chat's own fields give; its title is its name.
pub open spec fn report_of_chat(c: Chat) -> DoxReport {
    DoxReport {
        subject: SubjectId::Chat(c.id),
        username: c.username,
        sender_title: None,
        display_name: c.title,
        last_name: None,
        is_premium: None,
        birthdate: None,
        business_location: None,
        personal_chat: None,
    }
}

/// `r` with its title replaced by `t`.
pub open spec fn titled(r: DoxReport, t: Option<String>) -> DoxReport {
    DoxReport { sender_title: t, ..r }
}

/// The report of a message's sender: the sender chat when there is one,
/// else the sending user; `None` when the message names neither.
pub open spec fn report_of_sender(
    from: Option<User>,
    sender_chat: Option<Chat>,
    title: Option<String>,
) -> Option<DoxReport> {
    match sender_chat {
        Some(c) => Some(titled(report_of_chat(c), title)),
        None => match from {
            Some(u) => Some(titled(report_of_user(u), title)),
            None => None,
        },
    }
}

/// `r` updated by `fi`: each field that `fi` has replaces `r`'s; fields
/// that `fi` lacks are kept from `r`.
pub open spec fn with_full_info_spec(r: DoxReport, fi: ChatFullInfo) -> DoxReport {
    DoxReport {
        username: fill(fi.username, r.username),
        display_name: fill(fi.first_name, r.display_name),
        last_name: fill(fi.last_name, r.last_name),
        birthdate: fill(fi.birthdate, r.birthdate),
        business_location: fill(fi.business_location, r.business_location),
        personal_chat: fill(fi.personal_chat, r.personal_chat),
        ..r
    }
}

/// The report of a user with a title, completed by full info when given.
pub open spec fn new_report(u: User, title: Option<String>, fi: Option<ChatFullInfo>) -> DoxReport {
    let r = titled(report_of_user(u), title);
    match fi {
        Some(fi) => with_full_info_spec(r, fi),
        None => r,
    }
}

/// Whether full chat information could still add to `r`.
pub open spec fn lacks_full_info(r: DoxReport) -> bool {
    r.birthdate is None || r.business_location is None || r.personal_chat is None
}

impl DoxReport {
    /// Create a new [`DoxReport`] from given user, title and full info.
    pub fn new(user: User, title: Option<String>, full_info: Option<ChatFullInfo>) -> (res: Self)
        ensures
            res == new_report(user, title, full_info),
    {
        let mut report = Self::from_user(user);
        if title.is_some() {
            report = report.with_title(title);
        }
        if let Some(full_info) = full_info {
            report = report.with_full_info(full_info);
        }
        report
    }

    /// Create a new [`DoxReport`] from given [`User`].
    pub fn from_user(user: User) -> (res: Self)
        ensures
            res == report_of_user(user),
            res.subject == SubjectId::User(user.id),
            res.display_name == Some(user.first_name),
            res.last_name == user.last_name,
            res.username == user.username,
            res.is_premium == user.is_premium,
    {
        DoxReport {
            subject: SubjectId::User(user.id),
            username: user.username,
            sender_title: None,
            display_name: Some(user.first_name),
            last_name: user.last_name,
            is_premium: user.is_premium,
            birthdate: None,
            business_location: None,
            personal_chat: None,
        }
    }

    /// Create a new [`DoxReport`] from given [`Chat`].
    pub fn from_chat(chat: Chat) -> (res: Self)
        ensures
            res == report_of_chat(chat),
    {
        DoxReport {
            subject: SubjectId::Chat(chat.id),
            username: chat.username,
            sender_title: None,
            display_name: chat.title,
            last_name: None,
            is_premium: None,
            birthdate: None,
            business_location: None,
            personal_chat: None,
        }
    }

    /// Create a new [`DoxReport`] from message sender fields.
    pub fn from_sender(
        from: Option<User>,
        sender_chat: Option<Chat>,
        sender_title: Option<String>,
    ) -> (res: Option<Self>)
        ensures
            res == report_of_sender(from, sender_chat, sender_title),
    {
        let report = if let Some(chat) = sender_chat {
            Self::from_chat(chat)
        } else if let Some(user) = from {
            Self::from_user(user)
        } else {
            return None;
        };
        Some(report.with_title(sender_title))
    }

    /// Add title/tag to the [`DoxReport`].
    pub fn with_title(self, title: Option<String>) -> (res: Self)
        ensures
            res == titled(self, title),
    {
        let mut r = self;
        r.sender_title = title;
        r
    }

    /// Update the [`DoxReport`] with given [`ChatFullInfo`], keeping existing
    /// fields if the new info doesn't have them.
    pub fn with_full_info(self, full_info: ChatFullInfo) -> (res: Self)
        ensures
            res == with_full_info_spec(self, full_info),
    {
        let mut r = self;
        let ChatFullInfo {
            username,
            first_name,
            last_name,
            birthdate,
            business_location,
            personal_chat,
        } = full_info;
        if username.is_some() {
            r.username = username;
        }
        if first_name.is_some() {
            r.display_name = first_name;
        }
        if last_name.is_some() {
            r.last_name = last_name;
        }
        if birthdate.is_some() {
            r.birthdate = birthdate;
        }
        if business_location.is_some() {
            r.business_location = business_location;
        }
        if personal_chat.is_some() {
            r.personal_chat = personal_chat;
        }
        r
    }

    /// Whether full chat information could still add to this report.
    pub fn lacks_full_info(&self) -> (b: bool)
        ensures
            b == lacks_full_info(*self),
    {
        self.birthdate.is_none() || self.business_location.is_none() || self.personal_chat.is_none()
    }
}

// ---------------------------------------------------------------------------
// Rendering
// ---------------------------------------------------------------------------

/// Whether a name marks its owner with "🍥" or "🏳️‍⚧️".
pub open spec fn is_fish_cake(s: Option<String>) -> bool {
    match s {
        Some(s) => contains_spec(s@, "🍥"@) || contains_spec(s@, "🏳️‍⚧️"@),
        None => false,
    }
}

/// Whether the given string contains "🍥" or "🏳️‍⚧️".
pub fn fish_cake(s: Option<&String>) -> (b: bool)
    ensures
        b == match s {
            Some(s) => contains_spec(s@, "🍥"@) || contains_spec(s@, "🏳️‍⚧️"@),
            None => false,
        },
{
    match s {
        Some(s) => contains(s.as_str(), "🍥") || contains(s.as_str(), "🏳️‍⚧️"),
        None => false,
    }
}

/// Escapes the given string for Telegram's HTML style: `&`, `<` and `>`
/// become entities.
pub fn escape(s: &str) -> (res: String)
    ensures
        res@ == escape_spec(s@),
{
    let mut out = String::new();
    push_escaped(&mut out, s);
    assert(out@ =~= escape_spec(s@));
    out
}

/// The opening of a report: whom it asks about.
pub open spec fn head_html(s: SubjectId) -> Seq<char> {
    match s {
        SubjectId::User(id) => "您好，请问是用户 ID 为 <code>"@ + decimal(id as nat) + "</code>"@,
        SubjectId::Chat(id) => "您好，请问是群聊/频道 ID 为 <code>"@ + signed_decimal(id as int)
            + "</code>"@,
    }
}

/// The username clause.
pub open spec fn username_html(u: Option<String>) -> Seq<char> {
    match u {
        Some(u) => "，用户名为 <code>@"@ + u@ + "</code>"@,
        None => Seq::empty(),
    }
}

/// The title clause.
pub open spec fn title_html(t: Option<String>) -> Seq<char> {
    match t {
        Some(t) => "，头衔为 <code>"@ + escape_spec(t@) + "</code>"@,
        None => Seq::empty(),
    }
}

/// The birthday clause: month and day with two digits, the year with four.
pub open spec fn birthday_html(b: Option<Birthdate>) -> Seq<char> {
    match b {
        Some(b) => match b.year {
            None => "，生日在 "@ + zero_padded(b.month as nat, 2) + " 月 "@ + zero_padded(
                b.day as nat,
                2,
            ) + " 日"@,
            Some(y) => "，生日在 "@ + zero_padded(y as nat, 4) + " 年 "@ + zero_padded(
                b.month as nat,
                2,
            ) + " 月 "@ + zero_padded(b.day as nat, 2) + " 日"@,
        },
        None => Seq::empty(),
    }
}

/// The business location clause.
pub open spec fn location_html(l: Option<BusinessLocation>) -> Seq<char> {
    match l {
        Some(l) => "，位于 <code>"@ + escape_spec(l.address@) + "</code>"@ + match l.location {
            Some(c) => "（经度："@ + c.longitude@ + "，纬度："@ + c.latitude@ + "）"@,
            None => Seq::empty(),
        },
        None => Seq::empty(),
    }
}

/// The personal channel clause; a channel without a username is left out.
pub open spec fn channel_html(c: Option<Chat>) -> Seq<char> {
    match c {
        Some(c) => match c.username {
            Some(u) => "，开通了 tg 空间 @"@ + u@,
            None => Seq::empty(),
        },
        None => Seq::empty(),
    }
}

/// How a user is addressed: fish cake, rich, or plain.
pub open spec fn honorific(r: DoxReport) -> Seq<char> {
    if is_fish_cake(r.display_name) || is_fish_cake(r.last_name) {
        "南梁"@
    } else if r.is_premium == Some(true) {
        "富哥"@
    } else {
        "先生"@
    }
}

/// The name of a chat: its display name, else its last name, else nothing.
pub open spec fn chat_name(r: DoxReport) -> Seq<char> {
    match r.display_name {
        Some(d) => d@,
        None => match r.last_name {
            Some(l) => l@,
            None => Seq::empty(),
        },
    }
}

/// The name clause.
pub open spec fn name_html(r: DoxReport) -> Seq<char> {
    match r.subject {
        SubjectId::User(_) => " 的 <code>"@ + match r.display_name {
            Some(d) => escape_spec(d@),
            None => Seq::empty(),
        } + match r.last_name {
            Some(l) => " "@ + escape_spec(l@),
            None => Seq::empty(),
        } + "</code> "@ + honorific(r),
        SubjectId::Chat(_) => " 的 <code>"@ + escape_spec(chat_name(r)) + "</code> "@,
    }
}

/// The whole HTML text of a report.
pub open spec fn report_html(r: DoxReport) -> Seq<char> {
    head_html(r.subject) + username_html(r.username) + title_html(r.sender_title)
        + birthday_html(r.birthdate) + location_html(r.business_location) + channel_html(
        r.personal_chat,
    ) + name_html(r) + "吗？"@
}

/// The title of the inline result for a report: the first of display name,
/// last name and username, else the ID.
pub open spec fn inline_title_spec(r: DoxReport) -> Seq<char> {
    "开盒 "@ + match r.display_name {
        Some(d) => d@,
        None => match r.last_name {
            Some(l) => l@,
            None => match r.username {
                Some(u) => u@,
                None => match r.subject {
                    SubjectId::User(id) => decimal(id as nat),
                    SubjectId::Chat(id) => signed_decimal(id as int),
                },
            },
        },
    }
}

fn push_head(out: &mut String, s: SubjectId)
    ensures
        final(out)@ == old(out)@ + head_html(s),
{
    match s {
        SubjectId::User(id) => {
            out.append("您好，请问是用户 ID 为 <code>");
            push_decimal(out, id);
            out.append("</code>");
        },
        SubjectId::Chat(id) => {
            out.append("您好，请问是群聊/频道 ID 为 <code>");
            push_signed_decimal(out, id);
            out.append("</code>");
        },
    }
    assert(final(out)@ =~= old(out)@ + head_html(s));
}

fn push_username(out: &mut String, u: &Option<String>)
    ensures
        final(out)@ == old(out)@ + username_html(*u),
{
    match u {
        Some(u) => {
            out.append("，用户名为 <code>@");
            out.append(u.as_str());
            out.append("</code>");
        },
        None => {},
    }
    assert(final(out)@ =~= old(out)@ + username_html(*u));
}

fn push_title(out: &mut String, t: &Option<String>)
    ensures
        final(out)@ == old(out)@ + title_html(*t),
{
    match t {
        Some(t) => {
            out.append("，头衔为 <code>");
            push_escaped(out, t.as_str());
            out.append("</code>");
        },
        None => {},
    }
    assert(final(out)@ =~= old(out)@ + title_html(*t));
}

fn push_birthday(out: &mut String, b: &Option<Birthdate>)
    ensures
        final(out)@ == old(out)@ + birthday_html(*b),
{
    match b {
        Some(b) => {
            out.append("，生日在 ");
            match b.year {
                None => {},
                Some(y) => {
                    push_zero_padded(out, y as u64, 4);
                    out.append(" 年 ");
                },
            }
            push_zero_padded(out, b.month as u64, 2);
            out.append(" 月 ");
            push_zero_padded(out, b.day as u64, 2);
            out.append(" 日");
        },
        None => {},
    }
    assert(final(out)@ =~= old(out)@ + birthday_html(*b));
}

fn push_location(out: &mut String, l: &Option<BusinessLocation>)
    ensures
        final(out)@ == old(out)@ + location_html(*l),
{
    match l {
        Some(l) => {
            out.append("，位于 <code>");
            push_escaped(out, l.address.as_str());
            out.append("</code>");
            match &l.location {
                Some(c) => {
                    out.append("（经度：");
                    out.append(c.longitude.as_str());
                    out.append("，纬度：");
                    out.append(c.latitude.as_str());
                    out.append("）");
                },
                None => {},
            }
        },
        None => {},
    }
    assert(final(out)@ =~= old(out)@ + location_html(*l));
}

fn push_channel(out: &mut String, c: &Option<Chat>)
    ensures
        final(out)@ == old(out)@ + channel_html(*c),
{
    match c {
        Some(c) => match &c.username {
            Some(u) => {
                out.append("，开通了 tg 空间 @");
                out.append(u.as_str());
            },
            None => {},
        },
        None => {},
    }
    assert(final(out)@ =~= old(out)@ + channel_html(*c));
}

fn push_name(out: &mut String, r: &DoxReport)
    ensures
        final(out)@ == old(out)@ + name_html(*r),
{
    match r.subject {
        SubjectId::User(_) => {
            out.append(" 的 <code>");
            match &r.display_name {
                Some(d) => push_escaped(out, d.as_str()),
                None => {},
            }
            match &r.last_name {
                Some(l) => {
                    out.append(" ");
                    push_escaped(out, l.as_str());
                },
                None => {},
            }
            out.append("</code> ");
            let fish = match &r.display_name {
                Some(d) => fish_cake(Some(d)),
                None => false,
            } || match &r.last_name {
                Some(l) => fish_cake(Some(l)),
                None => false,
            };
            if fish {
                out.append("南梁");
            } else if r.is_premium == Some(true) {
                out.append("富哥");
            } else {
                out.append("先生");
            }
        },
        SubjectId::Chat(_) => {
            out.append(" 的 <code>");
            match &r.display_name {
                Some(d) => push_escaped(out, d.as_str()),
                None => match &r.last_name {
                    Some(l) => push_escaped(out, l.as_str()),
                    None => {
                        assert(escape_spec(Seq::<char>::empty()) =~= Seq::<char>::empty());
                    },
                },
            }
            out.append("</code> ");
        },
    }
    assert(final(out)@ =~= old(out)@ + name_html(*r));
}

impl DoxReport {
    /// The HTML text of the report.
    pub fn to_string(&self) -> (res: String)
        ensures
            res@ == report_html(*self),
    {
        let mut out = String::new();
        push_head(&mut out, self.subject);
        push_username(&mut out, &self.username);
        push_title(&mut out, &self.sender_title);
        push_birthday(&mut out, &self.birthdate);
        push_location(&mut out, &self.business_location);
        push_channel(&mut out, &self.personal_chat);
        push_name(&mut out, self);
        out.append("吗？");
        assert(out@ =~= report_html(*self));
        out
    }

    /// The title of the inline query result for this report.
    pub fn inline_title(&self) -> (res: String)
        ensures
            res@ == inline_title_spec(*self),
    {
        let mut out = String::from_str("开盒 ");
        match &self.display_name {
            Some(d) => out.append(d.as_str()),
            None => match &self.last_name {
                Some(l) => out.append(l.as_str()),
                None => match &self.username {
                    Some(u) => out.append(u.as_str()),
                    None => match self.subject {
                        SubjectId::User(id) => push_decimal(&mut out, id),
                        SubjectId::Chat(id) => push_signed_decimal(&mut out, id),
                    },
                },
            },
        }
        assert(out@ =~= inline_title_spec(*self));
        out
    }
}

} // verus!
