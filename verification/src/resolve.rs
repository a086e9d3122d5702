//! Reading a user or a channel out of a command's argument.

use vstd::prelude::*;
use vstd::string::StrSliceExecFns;
use vstd::string::StringExecFns;
use vstd::utf8::is_ascii_chars;
use serenity::model::id::ChannelId;
use crate::store::Reply;

verus! {

/// Whether `c` is one of the ten decimal digits.
pub open spec fn is_digit(c: char) -> bool {
    '0' <= c <= '9'
}

/// The number a digit stands for.
pub open spec fn digit_value(c: char) -> nat
    recommends
        is_digit(c),
{
    (c as u32 - '0' as u32) as nat
}

/// The number a row of digits stands for, read as a decimal numeral.
pub open spec fn digits_value(digits: Seq<char>) -> nat
    decreases digits.len(),
{
    if digits.len() == 0 {
        0
    } else {
        digits_value(digits.drop_last()) * 10 + digit_value(digits.last())
    }
}

/// Whether every character of `text` is a digit.
pub open spec fn all_digits(text: Seq<char>) -> bool {
    forall|i: int| 0 <= i < text.len() ==> is_digit(#[trigger] text[i])
}

/// The identifier that `text` writes: an optional plus sign and at least
/// one digit, nothing else, standing for a number that fits 64 bits.
pub open spec fn id_of(text: Seq<char>) -> Option<u64> {
    let digits = if text.len() > 0 && text[0] == '+' {
        text.skip(1)
    } else {
        text
    };
    if digits.len() > 0 && all_digits(digits) && digits_value(digits) <= u64::MAX {
        Some(digits_value(digits) as u64)
    } else {
        None
    }
}

/// A numeral stands for at least as much as any of its beginnings.
proof fn value_grows_with_length(digits: Seq<char>, n: int)
    requires
        0 <= n <= digits.len(),
    ensures
        digits_value(digits.take(n)) <= digits_value(digits),
    decreases digits.len(),
{
    if n < digits.len() {
        value_grows_with_length(digits.drop_last(), n);
        assert(digits.drop_last().take(n) =~= digits.take(n));
    } else {
        assert(digits.take(n) =~= digits);
    }
}

/// `text` without the characters `c` at its end.
pub open spec fn without_trailing(text: Seq<char>, c: char) -> Seq<char>
    decreases text.len(),
{
    if text.len() > 0 && text.last() == c {
        without_trailing(text.drop_last(), c)
    } else {
        text
    }
}

/// `text` without the characters `c` at its start.
pub open spec fn without_leading(text: Seq<char>, c: char) -> Seq<char>
    decreases text.len(),
{
    if text.len() > 0 && text[0] == c {
        without_leading(text.skip(1), c)
    } else {
        text
    }
}

/// `text` without the pairs `a`, `b` at its start.
pub open spec fn without_leading_pair(text: Seq<char>, a: char, b: char) -> Seq<char>
    decreases text.len(),
{
    if text.len() >= 2 && text[0] == a && text[1] == b {
        without_leading_pair(text.skip(2), a, b)
    } else {
        text
    }
}

/// Reads an identifier written in `text` between `from` and `to`.
fn read_id(text: &str, from: usize, to: usize) -> (id: Option<u64>)
    requires
        from <= to <= text@.len(),
    ensures
        id == id_of(text@.subrange(from as int, to as int)),
{
    let ghost part = text@.subrange(from as int, to as int);
    let mut i: usize = from;
    if from < to && text.get_char(from) == '+' {
        i = from + 1;
    }
    let start = i;
    let ghost digits = text@.subrange(start as int, to as int);
    assert(digits =~= if part.len() > 0 && part[0] == '+' {
        part.skip(1)
    } else {
        part
    });
    if start == to {
        return None;
    }
    let mut value: u64 = 0;
    while i < to
        invariant
            start <= i <= to <= text@.len(),
            from <= start < to,
            part == text@.subrange(from as int, to as int),
            digits == text@.subrange(start as int, to as int),
            digits == if part.len() > 0 && part[0] == '+' {
                part.skip(1)
            } else {
                part
            },
            all_digits(digits.take(i - start)),
            value == digits_value(digits.take(i - start)),
        decreases to - i,
    {
        let c = text.get_char(i);
        assert(c == digits[i - start]);
        if c < '0' || c > '9' {
            return None;
        }
        let d = (c as u32 - '0' as u32) as u64;
        proof {
            let more = digits.take(i - start + 1);
            assert(more.drop_last() =~= digits.take(i - start));
            assert(more.last() == c);
            assert(digits_value(more) == value * 10 + d);
            assert forall|k: int| 0 <= k < more.len() implies is_digit(#[trigger] more[k]) by {
                if k < i - start {
                    assert(digits.take(i - start)[k] == more[k]);
                }
            }
            value_grows_with_length(digits, i - start + 1);
        }
        if value > (u64::MAX - d) / 10 {
            return None;
        }
        value = value * 10 + d;
        i += 1;
    }
    assert(digits.take(i - start) =~= digits);
    Some(value)
}

/// Reads an identifier: an optional plus sign and decimal digits.
pub fn parse_id(text: &str) -> (id: Option<u64>)
    ensures
        id == id_of(text@),
{
    let len = text.unicode_len();
    assert(text@.subrange(0, len as int) =~= text@);
    read_id(text, 0, len)
}

/// Where `text` ends once the characters `c` at its end are left out.
fn end_without_trailing(text: &str, c: char) -> (to: usize)
    ensures
        to <= text@.len(),
        text@.take(to as int) == without_trailing(text@, c),
{
    let mut to = text.unicode_len();
    assert(text@.take(to as int) =~= text@);
    while to > 0 && text.get_char(to - 1) == c
        invariant
            to <= text@.len(),
            without_trailing(text@.take(to as int), c) == without_trailing(text@, c),
        decreases to,
    {
        assert(text@.take(to as int).drop_last() =~= text@.take(to - 1));
        to -= 1;
    }
    to
}

/// Where `text`, cut at `to`, starts once the pairs `a`, `b` at its start
/// are left out.
fn start_without_pairs(text: &str, to: usize, a: char, b: char) -> (from: usize)
    requires
        to <= text@.len(),
    ensures
        from <= to,
        text@.subrange(from as int, to as int) == without_leading_pair(
            text@.take(to as int),
            a,
            b,
        ),
{
    let mut from: usize = 0;
    assert(text@.subrange(0, to as int) =~= text@.take(to as int));
    while to - from >= 2 && text.get_char(from) == a && text.get_char(from + 1) == b
        invariant
            from <= to <= text@.len(),
            without_leading_pair(text@.subrange(from as int, to as int), a, b)
                == without_leading_pair(text@.take(to as int), a, b),
        decreases to - from,
    {
        assert(text@.subrange(from as int, to as int).skip(2) =~= text@.subrange(
            from + 2,
            to as int,
        ));
        from += 2;
    }
    from
}

/// Where `text`, between `from` and `to`, starts once the characters `c`
/// at its start are left out.
fn start_without_leading(text: &str, from: usize, to: usize, c: char) -> (start: usize)
    requires
        from <= to <= text@.len(),
    ensures
        from <= start <= to,
        text@.subrange(start as int, to as int) == without_leading(
            text@.subrange(from as int, to as int),
            c,
        ),
{
    let mut start = from;
    while start < to && text.get_char(start) == c
        invariant
            from <= start <= to <= text@.len(),
            without_leading(text@.subrange(start as int, to as int), c) == without_leading(
                text@.subrange(from as int, to as int),
                c,
            ),
        decreases to - start,
    {
        assert(text@.subrange(start as int, to as int).skip(1) =~= text@.subrange(
            start + 1,
            to as int,
        ));
        start += 1;
    }
    start
}

/// What stands inside a user mention: the text without closing brackets at
/// its end and without the opening of a mention at its start.
pub open spec fn user_mention_body(text: Seq<char>) -> Seq<char> {
    without_leading(without_leading_pair(without_trailing(text, '>'), '<', '@'), '!')
}

/// What stands inside a channel mention.
pub open spec fn channel_mention_body(text: Seq<char>) -> Seq<char> {
    without_leading_pair(without_trailing(text, '>'), '<', '#')
}

/// Whom a command's argument names.
#[derive(Debug)]
pub enum UserQuery {
    /// The argument gives the user's identifier.
    Known(u64),
    /// The argument is a name; the user cache under `key` holds who goes
    /// by it.
    Cached { key: String },
}

/// Why no user came of an argument.
#[derive(Clone, Copy, Debug, PartialEq, Eq, Structural)]
pub enum ResolveError {
    /// The command had no argument.
    NoUserProvided,
    /// The user cache could not be read.
    LookupFailed,
    /// Nobody goes by the name.
    NotFound,
    /// Several users go by the name.
    Ambiguous,
}

/// The key under which the user cache holds who goes by `name`.
pub open spec fn cache_key(name: Seq<char>) -> Seq<char> {
    "usercache-"@ + name
}

/// Builds the key under which the user cache holds who goes by `name`.
pub fn usercache_key(name: &str) -> (key: String)
    ensures
        key@ == cache_key(name@),
{
    let mut key = String::from_str("usercache-");
    key.append(name);
    key
}

/// The user that an argument names outright, if it does: as a number, or as
/// a mention with a number inside.
pub open spec fn user_named(token: Seq<char>) -> Option<u64> {
    if id_of(token) is Some {
        id_of(token)
    } else {
        id_of(user_mention_body(token))
    }
}

/// Reads the user out of a command's arguments. `token` is the first
/// argument, if there is one, and `message` is all of them as typed.
///
/// No arguments at all is an error. A number, or a mention with a number
/// inside, is the user. Anything else is taken as a name, to be looked up
/// in the user cache.
pub fn resolve_user(token: Option<&str>, message: &str) -> (query: Result<UserQuery, ResolveError>)
    ensures
        message@.len() == 0 ==> query == Err::<UserQuery, ResolveError>(
            ResolveError::NoUserProvided,
        ),
        message@.len() > 0 ==> match query {
            Ok(UserQuery::Known(user)) => token matches Some(t) && user_named(t@) == Some(user),
            Ok(UserQuery::Cached { key }) => key@ == cache_key(message@) && (token matches Some(t)
                ==> user_named(t@) is None),
            Err(_) => false,
        },
{
    if message.unicode_len() == 0 {
        return Err(ResolveError::NoUserProvided);
    }
    if let Some(token) = token {
        if let Some(user) = parse_id(token) {
            return Ok(UserQuery::Known(user));
        }
        let to = end_without_trailing(token, '>');
        let from = start_without_pairs(token, to, '<', '@');
        let start = start_without_leading(token, from, to, '!');
        if let Some(user) = read_id(token, start, to) {
            return Ok(UserQuery::Known(user));
        }
    }
    Ok(UserQuery::Cached { key: usercache_key(message) })
}

/// Reads the user that the lookup command is about: the author where there
/// are no arguments, else whom the arguments name.
pub fn user(token: Option<&str>, message: &str, author: u64) -> (query: Result<
    UserQuery,
    ResolveError,
>)
    ensures
        message@.len() == 0 ==> (query matches Ok(UserQuery::Known(user)) && user == author),
        message@.len() > 0 ==> match query {
            Ok(UserQuery::Known(user)) => token matches Some(t) && user_named(t@) == Some(user),
            Ok(UserQuery::Cached { key }) => key@ == cache_key(message@) && (token matches Some(t)
                ==> user_named(t@) is None),
            Err(_) => false,
        },
{
    if message.unicode_len() == 0 {
        Ok(UserQuery::Known(author))
    } else {
        resolve_user(token, message)
    }
}

/// The one user a lookup found: an error if the lookup failed, found
/// nobody, or found several.
pub open spec fn chosen(found: Option<Seq<u64>>) -> Result<u64, ResolveError> {
    match found {
        None => Err(ResolveError::LookupFailed),
        Some(users) => if users.len() > 1 {
            Err(ResolveError::Ambiguous)
        } else if users.len() == 0 {
            Err(ResolveError::NotFound)
        } else {
            Ok(users[0])
        },
    }
}

/// Picks the user out of what the user cache answered.
pub fn choose_user(reply: &Reply) -> (user: Result<u64, ResolveError>)
    ensures
        user == chosen(reply@.members()),
{
    match reply {
        Reply::Members(users) => {
            if users.len() > 1 {
                Err(ResolveError::Ambiguous)
            } else if users.len() == 0 {
                Err(ResolveError::NotFound)
            } else {
                Ok(users[0])
            }
        },
        _ => Err(ResolveError::LookupFailed),
    }
}

impl ResolveError {
    /// What is said of this error.
    pub open spec fn text(self) -> Seq<char> {
        match self {
            ResolveError::NoUserProvided => "**Error:** No user was provided!"@,
            ResolveError::LookupFailed => "**Error:** Unable to lookup the provided user!"@,
            ResolveError::NotFound => "**Error:** No user could be found!"@,
            ResolveError::Ambiguous => "**Error:** Usercache listing is not implemented yet!"@,
        }
    }

    /// The message for whoever gave the argument.
    pub fn message(&self) -> (message: String)
        ensures
            message@ == self.text(),
    {
        match self {
            ResolveError::NoUserProvided => String::from_str("**Error:** No user was provided!"),
            ResolveError::LookupFailed => String::from_str(
                "**Error:** Unable to lookup the provided user!",
            ),
            ResolveError::NotFound => String::from_str("**Error:** No user could be found!"),
            ResolveError::Ambiguous => String::from_str(
                "**Error:** Usercache listing is not implemented yet!",
            ),
        }
    }
}

/// The channel that the chat library reads out of `text`, if it reads one.
pub uninterp spec fn channel_id_of(text: Seq<char>) -> Option<u64>;

/// Parses `text` with `ChannelId::from_str` of the chat library, which reads
/// a channel out of a mention or a bare number. The result depends on the text
/// alone and is named `channel_id_of`; an error becomes `None`. The text
/// must be ASCII: the library cuts mentions at byte offsets.
#[verifier::external_body]
fn channel_id_from_str(text: &str) -> (id: Option<u64>)
    requires
        is_ascii_chars(text@),
    ensures
        id == channel_id_of(text@),
{
    match text.parse::<ChannelId>() {
        Ok(channel) => Some(channel.0),
        Err(_) => None,
    }
}

/// No channel came of an argument.
#[derive(Clone, Copy, Debug, PartialEq, Eq, Structural)]
pub enum ChannelError {
    /// The argument is neither a number nor a mention of a channel.
    Unparseable,
}

impl ChannelError {
    /// What is said of this error.
    pub open spec fn text(self) -> Seq<char> {
        "**Error:** Unable to parse the provided argument to a channel id!"@
    }

    /// The message for whoever gave the argument.
    pub fn message(&self) -> (message: String)
        ensures
            message@ == self.text(),
    {
        String::from_str("**Error:** Unable to parse the provided argument to a channel id!")
    }
}

/// The channel that the inside of a mention was read as, or the error that
/// it was read as none.
pub fn read_or_unparseable(read: Option<u64>) -> (channel: Result<u64, ChannelError>)
    ensures
        channel == (match read {
            Some(id) => Ok::<u64, ChannelError>(id),
            None => Err(ChannelError::Unparseable),
        }),
{
    match read {
        Some(id) => Ok(id),
        None => Err(ChannelError::Unparseable),
    }
}

/// The channel that an argument names: the number it writes, or else what
/// the chat library reads out of the inside of the mention, which must be
/// ASCII to be read at all.
pub open spec fn channel_named(token: Seq<char>) -> Option<u64> {
    if id_of(token) is Some {
        id_of(token)
    } else if is_ascii_chars(channel_mention_body(token)) {
        channel_id_of(channel_mention_body(token))
    } else {
        None
    }
}

/// Reads the channel out of a command's arguments. `token` is the first
/// argument, if there is one, `message` is all of them as typed, and `here`
/// is the channel the command was given in.
///
/// No arguments at all means the channel at hand. Otherwise the first
/// argument must name a channel.
pub fn resolve_channel(token: Option<&str>, message: &str, here: u64) -> (channel: Result<
    u64,
    ChannelError,
>)
    ensures
        message@.len() == 0 ==> channel == Ok::<u64, ChannelError>(here),
        message@.len() > 0 ==> channel == (match token {
            Some(t) => match channel_named(t@) {
                Some(id) => Ok::<u64, ChannelError>(id),
                None => Err(ChannelError::Unparseable),
            },
            None => Err(ChannelError::Unparseable),
        }),
{
    if message.unicode_len() == 0 {
        return Ok(here);
    }
    match token {
        None => Err(ChannelError::Unparseable),
        Some(token) => {
            if let Some(id) = parse_id(token) {
                return Ok(id);
            }
            let to = end_without_trailing(token, '>');
            let from = start_without_pairs(token, to, '<', '#');
            let inside = token.substring_char(from, to);
            if inside.is_ascii() {
                read_or_unparseable(channel_id_from_str(inside))
            } else {
                Err(ChannelError::Unparseable)
            }
        },
    }
}

} // verus!
