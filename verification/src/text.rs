//! The text of a relayed message.

use vstd::prelude::*;
use vstd::string::StringExecFns;

verus! {

/// What follows the display name of an admin in a relayed message.
pub open spec fn admin_marker() -> Seq<char> {
    " (admin)"@
}

/// What stands between the author and the content of a relayed message.
pub open spec fn separator() -> Seq<char> {
    ": "@
}

/// The text that is sent on: the author's display name, the admin marker if
/// the author is an admin, a separator, and the content.
pub open spec fn outgoing_text(name: Seq<char>, admin: bool, content: Seq<char>) -> Seq<char> {
    if admin {
        name + admin_marker() + separator() + content
    } else {
        name + separator() + content
    }
}

/// Whether `needle` occurs in `text` at position `at`.
pub open spec fn occurs_at(text: Seq<char>, needle: Seq<char>, at: int) -> bool {
    0 <= at && at + needle.len() <= text.len() && text.subrange(at, at + needle.len()) == needle
}

/// Whether `needle` occurs somewhere in `text`.
pub open spec fn occurs_in(text: Seq<char>, needle: Seq<char>) -> bool {
    exists|at: int| occurs_at(text, needle, at)
}

/// Builds the text that is sent on for a message. `content` is taken as it
/// is: mentions in it must already be in their display form.
pub fn compose(name: &str, admin: bool, content: &str) -> (text: String)
    ensures
        text@ == outgoing_text(name@, admin, content@),
{
    let mut text = String::from_str(name);
    if admin {
        text.append(" (admin)");
    }
    text.append(": ");
    text.append(content);
    text
}

/// The marker stands right after the display name exactly when the author
/// is an admin.
pub proof fn marker_follows_name_iff_admin(name: Seq<char>, admin: bool, content: Seq<char>)
    ensures
        occurs_at(outgoing_text(name, admin, content), admin_marker(), name.len() as int)
            <==> admin,
{
    reveal_strlit(" (admin)");
    reveal_strlit(": ");
    let text = outgoing_text(name, admin, content);
    let at = name.len() as int;
    if admin {
        assert(text.subrange(at, at + admin_marker().len()) =~= admin_marker());
    } else {
        if occurs_at(text, admin_marker(), at) {
            assert(text.subrange(at, at + 8)[0] == admin_marker()[0]);
            assert(text[at] == ':');
        }
    }
}

/// The text for an admin holds the marker. The text for anyone else does
/// not, as long as neither the display name nor the content, with a space
/// before it, holds the marker already.
pub proof fn marker_marks_admins(name: Seq<char>, admin: bool, content: Seq<char>)
    requires
        !admin ==> !occurs_in(name, admin_marker()),
        !admin ==> !occurs_in(seq![' '] + content, admin_marker()),
    ensures
        occurs_in(outgoing_text(name, admin, content), admin_marker()) <==> admin,
{
    reveal_strlit(" (admin)");
    reveal_strlit(": ");
    let text = outgoing_text(name, admin, content);
    let marker = admin_marker();
    let n = name.len() as int;
    if admin {
        marker_follows_name_iff_admin(name, admin, content);
        assert(occurs_at(text, marker, n));
    } else {
        assert forall|at: int| !occurs_at(text, marker, at) by {
            if occurs_at(text, marker, at) {
                let found = text.subrange(at, at + 8);
                assert(found == marker);
                if at + 8 <= n {
                    assert(name.subrange(at, at + 8) =~= found);
                    assert(occurs_at(name, marker, at));
                } else if at <= n {
                    // The occurrence would cover the colon of the separator.
                    assert(found[n - at] == text[n]);
                    assert(text[n] == ':');
                    assert(forall|i: int| 0 <= i < 8 ==> marker[i] != ':');
                } else {
                    let tail = seq![' '] + content;
                    assert(tail.subrange(at - n - 1, at - n - 1 + 8) =~= found);
                    assert(occurs_at(tail, marker, at - n - 1));
                }
            }
        }
    }
}

/// The character that writes the digit `d`.
pub open spec fn digit_char(d: nat) -> char
    recommends
        d < 10,
{
    if d == 0 {
        '0'
    } else if d == 1 {
        '1'
    } else if d == 2 {
        '2'
    } else if d == 3 {
        '3'
    } else if d == 4 {
        '4'
    } else if d == 5 {
        '5'
    } else if d == 6 {
        '6'
    } else if d == 7 {
        '7'
    } else if d == 8 {
        '8'
    } else {
        '9'
    }
}

/// The decimal numeral of `n`, without leading zeros.
pub open spec fn decimal(n: nat) -> Seq<char>
    decreases n,
{
    if n < 10 {
        seq![digit_char(n)]
    } else {
        decimal(n / 10).push(digit_char(n % 10))
    }
}

/// The one-character text of a digit.
fn digit_text(d: u64) -> (text: &'static str)
    requires
        d < 10,
    ensures
        text@ == seq![digit_char(d as nat)],
{
    proof {
        reveal_strlit("0");
        reveal_strlit("1");
        reveal_strlit("2");
        reveal_strlit("3");
        reveal_strlit("4");
        reveal_strlit("5");
        reveal_strlit("6");
        reveal_strlit("7");
        reveal_strlit("8");
        reveal_strlit("9");
    }
    let text = if d == 0 {
        "0"
    } else if d == 1 {
        "1"
    } else if d == 2 {
        "2"
    } else if d == 3 {
        "3"
    } else if d == 4 {
        "4"
    } else if d == 5 {
        "5"
    } else if d == 6 {
        "6"
    } else if d == 7 {
        "7"
    } else if d == 8 {
        "8"
    } else {
        "9"
    };
    assert(text@ =~= seq![digit_char(d as nat)]);
    text
}

/// Appends the decimal numeral of `n` to `out`.
pub fn push_decimal(out: &mut String, n: u64)
    ensures
        final(out)@ == old(out)@ + decimal(n as nat),
    decreases n,
{
    if n >= 10 {
        push_decimal(out, n / 10);
    }
    out.append(digit_text(n % 10));
    proof {
        if n >= 10 {
            assert(old(out)@ + decimal(n as nat / 10) + seq![digit_char(n as nat % 10)] =~= old(
                out,
            )@ + decimal(n as nat));
        }
    }
}

/// The text `before`, the numeral of `n`, and `after`, in a row.
pub open spec fn around(before: Seq<char>, n: u64, after: Seq<char>) -> Seq<char> {
    before + decimal(n as nat) + after
}

/// Writes `before`, the numeral of `n`, and `after` in a row.
pub fn write_around(before: &str, n: u64, after: &str) -> (text: String)
    ensures
        text@ == around(before@, n, after@),
{
    let mut text = String::from_str(before);
    push_decimal(&mut text, n);
    text.append(after);
    text
}

/// What the bot shows itself as listening to, with the command prefix at
/// the end.
pub fn activity_text(prefix: &str) -> (text: String)
    ensures
        text@ == "your conversations | "@ + prefix@,
{
    let mut text = String::from_str("your conversations | ");
    text.append(prefix);
    text
}

} // verus!
