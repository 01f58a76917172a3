//! Shell quoting, the local user name and the installation hint.

use vstd::prelude::*;

verus! {

/// What stands for one character inside a single-quoted shell word: a single
/// quote becomes the four characters `'\''`, which close the quoting, give an
/// escaped quote and open the quoting again; any other character stands for
/// itself.
pub open spec fn escape_char(c: char) -> Seq<char> {
    if c == '\'' {
        seq!['\'', '\\', '\'', '\'']
    } else {
        seq![c]
    }
}

/// The body of a single-quoted shell word: each character of `s`, escaped.
pub open spec fn escape_quotes(s: Seq<char>) -> Seq<char>
    decreases s.len(),
{
    if s.len() == 0 {
        Seq::empty()
    } else {
        escape_char(s[0]) + escape_quotes(s.drop_first())
    }
}

/// The single-quoted shell word that stands for the literal text `s`.
pub open spec fn quoted(s: Seq<char>) -> Seq<char> {
    seq!['\''] + escape_quotes(s) + seq!['\'']
}

/// `c` in front of a decoded text, if there is one.
pub open spec fn cons(c: char, rest: Option<Seq<char>>) -> Option<Seq<char>> {
    match rest {
        Some(r) => Some(seq![c] + r),
        None => None,
    }
}

/// The text that a shell reads from one word in which only single quotes and
/// backslashes are special. Outside quotes a backslash makes the next
/// character literal and a single quote opens quoting; inside quotes every
/// character is literal up to the closing quote. A word that ends inside
/// quotes, or on a backslash, has no reading.
pub open spec fn unquoted(word: Seq<char>, inside: bool) -> Option<Seq<char>>
    decreases word.len(),
{
    if word.len() == 0 {
        if inside {
            None
        } else {
            Some(Seq::empty())
        }
    } else if word[0] == '\'' {
        unquoted(word.drop_first(), !inside)
    } else if inside || word[0] != '\\' {
        cons(word[0], unquoted(word.drop_first(), inside))
    } else if word.len() >= 2 {
        cons(word[1], unquoted(word.skip(2), false))
    } else {
        None
    }
}

/// Escaping distributes over a character added at the end.
proof fn escape_quotes_push(s: Seq<char>, c: char)
    ensures
        escape_quotes(s.push(c)) == escape_quotes(s) + escape_char(c),
    decreases s.len(),
{
    if s.len() == 0 {
        let one = s.push(c);
        assert(one.drop_first() =~= Seq::<char>::empty());
        assert(one[0] == c);
        assert(escape_quotes(one) == escape_char(c) + escape_quotes(one.drop_first()));
        assert(escape_quotes(one) =~= escape_quotes(s) + escape_char(c));
    } else {
        escape_quotes_push(s.drop_first(), c);
        assert(s.push(c).drop_first() =~= s.drop_first().push(c));
        assert(escape_quotes(s.push(c)) =~= escape_quotes(s) + escape_char(c));
    }
}

/// Read from inside the quotes, an escaped body and its closing quote give
/// the text back.
proof fn unquoted_escape(s: Seq<char>)
    ensures
        unquoted(escape_quotes(s) + seq!['\''], true) == Some(s),
    decreases s.len(),
{
    let w = escape_quotes(s) + seq!['\''];
    if s.len() == 0 {
        assert(w[0] == '\'');
        assert(w.drop_first() =~= Seq::<char>::empty());
        assert(unquoted(w.drop_first(), false) == Some(Seq::<char>::empty()));
        assert(s =~= Seq::<char>::empty());
    } else {
        let rest = s.drop_first();
        let tail = escape_quotes(rest) + seq!['\''];
        unquoted_escape(rest);
        assert(seq![s[0]] + rest =~= s);
        if s[0] == '\'' {
            let w1 = w.drop_first();
            assert(w1 =~= seq!['\\', '\'', '\''] + tail);
            assert(unquoted(w, true) == unquoted(w1, false));
            let w3 = w1.skip(2);
            assert(w3 =~= seq!['\''] + tail);
            assert(unquoted(w1, false) == cons('\'', unquoted(w3, false)));
            assert(w3.drop_first() =~= tail);
            assert(unquoted(w3, false) == unquoted(tail, true));
        } else {
            assert(w.drop_first() =~= tail);
            assert(unquoted(w, true) == cons(s[0], unquoted(tail, true)));
        }
    }
}

/// Quoting loses nothing: a shell that reads the quoted form of `s` reads
/// exactly `s`, whatever `s` holds, single quotes and the empty text
/// included.
pub proof fn quoting_round_trips(s: Seq<char>)
    ensures
        unquoted(quoted(s), false) == Some(s),
{
    let w = quoted(s);
    unquoted_escape(s);
    assert(w.drop_first() =~= escape_quotes(s) + seq!['\'']);
}

/// Shell-escape a string for use in a remote command line.
pub fn shell_escape(s: &str) -> (r: String)
    ensures
        r@ == quoted(s@),
{
    let mut out = String::new();
    out.push('\'');
    for c in it: s.chars()
        invariant
            it.seq() == s@,
            out@ == seq!['\''] + escape_quotes(s@.take(it.index())),
    {
        proof {
            let k = it.index();
            assert(s@.take(k + 1) =~= s@.take(k).push(c));
            escape_quotes_push(s@.take(k), c);
        }
        let ghost before = out@;
        if c == '\'' {
            out.push('\'');
            out.push('\\');
            out.push('\'');
            out.push('\'');
        } else {
            out.push(c);
        }
        assert(out@ =~= before + escape_char(c));
        assert(before + escape_char(c) =~= seq!['\''] + (escape_quotes(s@.take(it.index()))
            + escape_char(c)));
    }
    out.push('\'');
    proof {
        assert(s@.take(s@.len() as int) == s@);
        assert(out@ =~= quoted(s@));
    }
    out
}

/// The text of the installation hint.
pub open spec fn install_hint() -> Seq<char> {
    "tmux not found on remote host.\n  - Debian/Ubuntu: sudo apt-get install tmux\n  - RHEL/CentOS/Fedora: sudo yum install tmux (or dnf)\n  - macOS (Homebrew): brew install tmux"@
}

/// What to tell the user when the remote host has no multiplexer.
pub fn tmux_install_hint() -> (r: &'static str)
    ensures
        r@ == install_hint(),
{
    "tmux not found on remote host.\n  - Debian/Ubuntu: sudo apt-get install tmux\n  - RHEL/CentOS/Fedora: sudo yum install tmux (or dnf)\n  - macOS (Homebrew): brew install tmux"
}

/// The local user name: the first of the two environment values that is
/// set, or `user` when neither is.
pub open spec fn local_username(user: Option<Seq<char>>, logname: Option<Seq<char>>) -> Seq<char> {
    match (user, logname) {
        (Some(u), _) => u,
        (None, Some(l)) => l,
        (None, None) => "user"@,
    }
}

/// Resolves the local user name from the values of `USER` and `LOGNAME`.
pub fn get_local_username(user: Option<String>, logname: Option<String>) -> (r: String)
    ensures
        r@ == local_username(
            match user {
                Some(u) => Some(u@),
                None => None,
            },
            match logname {
                Some(l) => Some(l@),
                None => None,
            },
        ),
{
    match user {
        Some(u) => u,
        None => match logname {
            Some(l) => l,
            None => "user".to_owned(),
        },
    }
}

} // verus!
