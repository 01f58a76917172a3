//! What the user sees and types: tagged lines, the numbered session list
//! and the reading of a selection.

use vstd::prelude::*;
use vstd::string::StringExecFns;
use crate::config::tag;
use crate::error::VigilError;
use crate::text::{
    decimal, decimal_string, digit_char, is_space, texts, to_chars, trim_bounds, trimmed,
};

verus! {

/// The value of a decimal digit, or `None` for any other character.
pub open spec fn digit_value(c: char) -> Option<nat> {
    if c == '0' {
        Some(0)
    } else if c == '1' {
        Some(1)
    } else if c == '2' {
        Some(2)
    } else if c == '3' {
        Some(3)
    } else if c == '4' {
        Some(4)
    } else if c == '5' {
        Some(5)
    } else if c == '6' {
        Some(6)
    } else if c == '7' {
        Some(7)
    } else if c == '8' {
        Some(8)
    } else if c == '9' {
        Some(9)
    } else {
        None
    }
}

/// The number that a run of decimal digits stands for, or `None` where the
/// text is empty or holds anything but digits.
pub open spec fn digits_value(s: Seq<char>) -> Option<nat>
    decreases s.len(),
{
    if s.len() == 0 {
        None
    } else if s.len() == 1 {
        digit_value(s[0])
    } else {
        match (digits_value(s.drop_last()), digit_value(s.last())) {
            (Some(high), Some(low)) => Some(10 * high + low),
            _ => None,
        }
    }
}

/// The number that a text stands for: decimal digits, with an optional `+`
/// in front. Any other text stands for zero.
pub open spec fn number_or_zero(s: Seq<char>) -> nat {
    let digits = if s.len() > 0 && s[0] == '+' {
        s.drop_first()
    } else {
        s
    };
    match digits_value(digits) {
        Some(n) => n,
        None => 0,
    }
}

/// The index, counted from one, that a line of input selects: one for a
/// blank line, else the number that the line holds between its white space,
/// and zero where it holds no number.
pub open spec fn selection_index(input: Seq<char>) -> nat {
    let line = trimmed(input);
    if line.len() == 0 {
        1
    } else {
        number_or_zero(line)
    }
}

/// The session that a line of input selects, if it selects one.
pub open spec fn selected(sessions: Seq<Seq<char>>, input: Seq<char>) -> Option<Seq<char>> {
    let index = selection_index(input);
    if 1 <= index <= sessions.len() {
        Some(sessions[index - 1])
    } else {
        None
    }
}

/// The value of a decimal digit.
fn digit_of(c: char) -> (r: Option<usize>)
    ensures
        match r {
            Some(d) => digit_value(c) == Some(d as nat) && d < 10,
            None => digit_value(c) is None,
        },
{
    match c {
        '0' => Some(0),
        '1' => Some(1),
        '2' => Some(2),
        '3' => Some(3),
        '4' => Some(4),
        '5' => Some(5),
        '6' => Some(6),
        '7' => Some(7),
        '8' => Some(8),
        '9' => Some(9),
        _ => None,
    }
}

/// The number that `v[from..to]` stands for where it is made of digits and
/// stands for at most `limit`; zero in every other case.
fn read_index(v: &Vec<char>, from: usize, to: usize, limit: usize) -> (r: usize)
    requires
        from <= to <= v.len(),
    ensures
        r <= limit,
        match digits_value(v@.subrange(from as int, to as int)) {
            Some(n) => if n <= limit {
                r == n
            } else {
                r == 0
            },
            None => r == 0,
        },
{
    if from == to {
        assert(v@.subrange(from as int, to as int).len() == 0);
        return 0;
    }
    let mut value: usize = 0;
    let mut over = false;
    let mut i: usize = from;
    while i < to
        invariant
            from <= i <= to <= v.len(),
            from < to,
            value <= limit,
            i == from ==> value == 0 && !over,
            i > from ==> match digits_value(v@.subrange(from as int, i as int)) {
                Some(n) => if over {
                    n > limit
                } else {
                    n == value
                },
                None => false,
            },
        decreases to - i,
    {
        let ghost head = v@.subrange(from as int, i as int);
        let ghost next = v@.subrange(from as int, i + 1);
        proof {
            assert(next.drop_last() =~= head);
            assert(next.last() == v@[i as int]);
            if i == from {
                assert(next.len() == 1);
                assert(next[0] == v@[i as int]);
            }
        }
        match digit_of(v[i]) {
            None => {
                proof {
                    digits_value_prefix(v@.subrange(from as int, to as int), i + 1 - from);
                    assert(v@.subrange(from as int, to as int).take(i + 1 - from) =~= next);
                }
                return 0;
            },
            Some(d) => {
                if over || d > limit || value > (limit - d) / 10 {
                    proof {
                        if !over && d <= limit {
                            assert(10 * value + d > limit) by (nonlinear_arith)
                                requires
                                    value > (limit - d) / 10,
                                    d <= limit,
                            ;
                        }
                    }
                    over = true;
                } else {
                    assert(10 * value + d <= limit) by (nonlinear_arith)
                        requires
                            value <= (limit - d) / 10,
                            d <= limit,
                    ;
                    value = 10 * value + d;
                }
            },
        }
        i += 1;
    }
    assert(v@.subrange(from as int, i as int) == v@.subrange(from as int, to as int));
    if over {
        0
    } else {
        value
    }
}

/// A text whose beginning holds something other than digits holds
/// something other than digits.
proof fn digits_value_prefix(s: Seq<char>, k: int)
    requires
        1 <= k <= s.len(),
        digits_value(s.take(k)) is None,
    ensures
        digits_value(s) is None,
    decreases s.len() - k,
{
    if k < s.len() {
        assert(s.take(k + 1).drop_last() =~= s.take(k));
        digits_value_prefix(s, k + 1);
    } else {
        assert(s.take(k) =~= s);
    }
}

/// Reads a selection: the session that the line `input` picks from
/// `sessions`, or an error where it picks none. A blank line picks the
/// first session; a line that holds no number picks none.
pub fn select_session(sessions: &[String], input: &str) -> (r: Result<String, VigilError>)
    ensures
        match r {
            Ok(name) => selected(texts(sessions@), input@) == Some(name@),
            Err(e) => selected(texts(sessions@), input@) is None && e@
                == crate::error::VigilErrorView::InvalidSelection,
        },
{
    let v = to_chars(input);
    let (a, b) = trim_bounds(&v, 0, v.len());
    assert(v@.subrange(0, v.len() as int) =~= v@);
    let ghost line = trimmed(input@);
    let index = if a == b {
        1
    } else {
        let from = if v[a] == '+' {
            a + 1
        } else {
            a
        };
        assert(line[0] == v@[a as int]);
        assert(line.drop_first() =~= v@.subrange(a + 1, b as int));
        read_index(&v, from, b, sessions.len())
    };
    if index == 0 || index > sessions.len() {
        Err(VigilError::InvalidSelection)
    } else {
        Ok(sessions[index - 1].clone())
    }
}

/// The lines that number the first `upto` sessions from one.
pub open spec fn numbered(sessions: Seq<Seq<char>>, upto: nat) -> Seq<char>
    recommends
        upto <= sessions.len(),
    decreases upto,
{
    if upto == 0 {
        Seq::empty()
    } else {
        numbered(sessions, (upto - 1) as nat) + "  "@ + decimal(upto) + ". "@ + sessions[upto - 1]
            + "\n"@
    }
}

/// What the user is shown before a selection: a tagged heading that names
/// the action, the numbered sessions, and the question.
pub open spec fn prompt_text(action: Seq<char>, sessions: Seq<Seq<char>>) -> Seq<char> {
    tag() + "Select a session to "@ + action + ":\n"@ + numbered(sessions, sessions.len())
        + "Enter number (or press Enter for 1): "@
}

/// The text to show, on the diagnostic stream, before the user selects one
/// of `sessions`.
pub fn prompt_user_to_select_session(action: &str, sessions: &[String]) -> (r: String)
    ensures
        r@ == prompt_text(action@, texts(sessions@)),
{
    let mut out = String::from_str("[vigil] ");
    out.append("Select a session to ");
    out.append(action);
    out.append(":\n");
    let ghost head = out@;
    let mut i: usize = 0;
    assert(out@ =~= head + numbered(texts(sessions@), 0));
    while i < sessions.len()
        invariant
            i <= sessions.len(),
            out@ == head + numbered(texts(sessions@), i as nat),
        decreases sessions.len() - i,
    {
        let ghost before = out@;
        out.append("  ");
        out.append(decimal_string((i + 1) as u64).as_str());
        out.append(". ");
        out.append(sessions[i].as_str());
        out.append("\n");
        assert(texts(sessions@)[i as int] == sessions@[i as int]@);
        assert(out@ =~= head + numbered(texts(sessions@), (i + 1) as nat));
        i += 1;
    }
    out.append("Enter number (or press Enter for 1): ");
    out
}

/// A status line: the message behind the tool's tag.
pub fn status_line(msg: &str) -> (r: String)
    ensures
        r@ == tag() + msg@,
{
    let mut out = String::from_str("[vigil] ");
    out.append(msg);
    out
}

/// An error line: the message behind the tool's tag and the word `ERROR`.
pub fn error_line(msg: &str) -> (r: String)
    ensures
        r@ == tag() + "ERROR: "@ + msg@,
{
    let mut out = String::from_str("[vigil] ");
    out.append("ERROR: ");
    out.append(msg);
    out
}

/// The decimal notation of a number is made of digits and stands for that
/// number.
proof fn decimal_is_read_back(n: nat)
    ensures
        decimal(n).len() >= 1,
        forall|i: int| 0 <= i < decimal(n).len() ==> digit_value(#[trigger] decimal(n)[i]) is Some,
        digits_value(decimal(n)) == Some(n),
    decreases n,
{
    if n >= 10 {
        decimal_is_read_back(n / 10);
        let text = decimal(n);
        assert(text.drop_last() =~= decimal(n / 10));
        assert(text.last() == digit_char(n % 10));
    }
}

/// The number shown before a session in the prompt selects that session.
pub proof fn shown_number_selects_its_session(sessions: Seq<Seq<char>>, i: int)
    requires
        0 <= i < sessions.len(),
    ensures
        selected(sessions, decimal((i + 1) as nat)) == Some(sessions[i]),
{
    let text = decimal((i + 1) as nat);
    decimal_is_read_back((i + 1) as nat);
    assert(digit_value(text[0]) is Some);
    assert(digit_value(text.last()) is Some);
    assert(!is_space(text[0]));
    assert(!is_space(text.last()));
    assert(trimmed(text) == text);
    assert(text[0] != '+');
}

} // verus!
