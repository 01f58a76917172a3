//! The remote multiplexer commands: how they are built, and how the
//! session list that comes back is read.

use vstd::prelude::*;
use vstd::string::StringExecFns;
use crate::cli::{any_tty_flag, with_tty};
use crate::config::{Config, ConfigView};
use crate::error::{VigilError, VigilErrorView};
use crate::ssh::{
    capturing_call, exec_remote_capture, strip_tty_flags, without_tty, Invocation, InvocationView,
};
use crate::text::{
    append_strings, from_chars, is_blank, str_is_blank, to_chars, trim_bounds, trimmed,
};
use crate::util::{quoted, shell_escape};

verus! {

/// The error of `shell_words::split`: a quote that is never closed.
#[verifier::external_type_specification]
#[verifier::external_body]
pub struct ExParseError(shell_words::ParseError);

/// The words that `shell_words::split` makes of a command line, or `None`
/// where it reports an error.
pub uninterp spec fn shell_split(line: Seq<char>) -> Option<Seq<Seq<char>>>;

/// `shell_words::split` splits a command line into words as a POSIX shell
/// would, and fails on an unclosed quote. Its result depends on the text
/// alone; the contract gives it the name [`shell_split`].
pub assume_specification[ shell_words::split ](s: &str) -> (r: Result<
    Vec<String>,
    shell_words::ParseError,
>)
    ensures
        match r {
            Ok(words) => shell_split(s@) == Some(words.deep_view()),
            Err(_) => shell_split(s@) is None,
        },
;

/// The format that makes the multiplexer print bare session names.
pub open spec fn session_format() -> Seq<char> {
    "#{session_name}"@
}

/// The remote command that lists the sessions, one name per line.
pub open spec fn list_command(tmux_bin: Seq<char>) -> Seq<char> {
    tmux_bin + " list-sessions -F "@ + quoted(session_format())
}

/// The remote command that kills the session `target`.
pub open spec fn kill_command(tmux_bin: Seq<char>, target: Seq<char>) -> Seq<char> {
    tmux_bin + " kill-session -t "@ + quoted(target)
}

/// The argument vector that attaches to the session `name`, or creates it
/// where it does not exist, with the extra arguments at its end.
pub open spec fn session_command(
    tmux_bin: Seq<char>,
    name: Seq<char>,
    extra: Seq<Seq<char>>,
) -> Seq<Seq<char>> {
    seq![tmux_bin, "new-session"@, "-A"@, "-s"@, name] + extra
}

/// The extra arguments that the free-form string stands for, given what the
/// shell lexer made of it: none where the string is blank or the lexer
/// failed.
pub open spec fn extra_arguments(
    tmux_args: Seq<char>,
    split: Option<Seq<Seq<char>>>,
) -> Seq<Seq<char>> {
    match split {
        Some(words) if !is_blank(tmux_args) => words,
        _ => Seq::empty(),
    }
}

/// The outbound SSH arguments of an attach: terminal allocation is
/// requested, and the session command follows the SSH arguments.
pub open spec fn attach_command(c: ConfigView, name: Seq<char>) -> Seq<Seq<char>> {
    with_tty(c.ssh_args) + session_command(
        c.tmux_bin,
        name,
        extra_arguments(c.tmux_args, shell_split(c.tmux_args)),
    )
}

/// The session-create command for `session_name`, with the extra arguments
/// `extra` at its end.
pub fn session_command_with(tmux_bin: &str, session_name: &str, extra: &Vec<String>) -> (r: Vec<
    String,
>)
    ensures
        r.deep_view() == session_command(tmux_bin@, session_name@, extra.deep_view()),
{
    let mut cmd: Vec<String> = Vec::new();
    cmd.push(tmux_bin.to_owned());
    cmd.push("new-session".to_owned());
    cmd.push("-A".to_owned());
    cmd.push("-s".to_owned());
    cmd.push(session_name.to_owned());
    assert(cmd.deep_view() =~= seq![tmux_bin@, "new-session"@, "-A"@, "-s"@, session_name@]);
    append_strings(&mut cmd, extra);
    cmd
}

/// The words that the lexer gave, or none where it failed.
pub fn extra_from_split(split: Result<Vec<String>, shell_words::ParseError>) -> (r: Vec<String>)
    ensures
        r.deep_view() == match split {
            Ok(words) => words.deep_view(),
            Err(_) => Seq::empty(),
        },
{
    match split {
        Ok(words) => words,
        Err(_) => Vec::new(),
    }
}

/// Builds the command that attaches to a session or creates it. A blank
/// extra-arguments string adds nothing, and neither does one that the shell
/// lexer cannot read.
pub fn build_session_command(config: &Config, session_name: &str) -> (r: Vec<String>)
    ensures
        r.deep_view() == session_command(
            config@.tmux_bin,
            session_name@,
            extra_arguments(config@.tmux_args, shell_split(config@.tmux_args)),
        ),
{
    let extra = if str_is_blank(config.tmux_args.as_str()) {
        Vec::new()
    } else {
        extra_from_split(shell_words::split(config.tmux_args.as_str()))
    };
    session_command_with(config.tmux_bin.as_str(), session_name, &extra)
}

/// Builds the full SSH arguments with the session command at their end.
pub fn build_attach_command(config: &Config, session_name: &str) -> (r: Vec<String>)
    ensures
        r.deep_view() == attach_command(config@, session_name@),
{
    let cmd = build_session_command(config, session_name);
    let mut args: Vec<String> = Vec::new();
    if !any_tty_flag(&config.ssh_args) {
        args.push("-t".to_owned());
    }
    assert(args.deep_view() + config@.ssh_args =~= with_tty(config@.ssh_args));
    append_strings(&mut args, &config.ssh_args);
    append_strings(&mut args, &cmd);
    args
}

/// The remote command that lists the sessions of the multiplexer
/// `tmux_bin`.
pub fn list_sessions_command(tmux_bin: &str) -> (r: String)
    ensures
        r@ == list_command(tmux_bin@),
{
    let mut cmd = tmux_bin.to_owned();
    cmd.append(" list-sessions -F ");
    cmd.append(shell_escape("#{session_name}").as_str());
    cmd
}

/// The remote command that kills the session `target`.
pub fn kill_session_command(tmux_bin: &str, target: &str) -> (r: String)
    ensures
        r@ == kill_command(tmux_bin@, target@),
{
    let mut cmd = tmux_bin.to_owned();
    cmd.append(" kill-session -t ");
    cmd.append(shell_escape(target).as_str());
    cmd
}

/// The call that asks the remote host for its sessions: no terminal, and
/// the output is captured.
pub open spec fn list_call(c: ConfigView) -> InvocationView {
    capturing_call(c.ssh_prog, c.ssh_args, list_command(c.tmux_bin))
}

/// The call that kills the session `target`: no terminal is allocated, and
/// what the remote side prints stays visible.
pub open spec fn kill_call(c: ConfigView, target: Seq<char>) -> InvocationView {
    InvocationView {
        program: c.ssh_prog,
        args: without_tty(c.ssh_args).push(kill_command(c.tmux_bin, target)),
        capture: false,
    }
}

/// The call that attaches to the session `name` or creates it.
pub open spec fn attach_call(c: ConfigView, name: Seq<char>) -> InvocationView {
    InvocationView { program: c.ssh_prog, args: attach_command(c, name), capture: false }
}

/// The call that lists all remote sessions.
pub fn list_remote_sessions(config: &Config) -> (r: Invocation)
    ensures
        r@ == list_call(config@),
{
    let cmd = list_sessions_command(config.tmux_bin.as_str());
    exec_remote_capture(config, cmd.as_str())
}

/// The call that kills a remote session.
pub fn kill_remote_session(config: &Config, target: &str) -> (r: Invocation)
    ensures
        r@ == kill_call(config@, target@),
{
    let mut args = strip_tty_flags(&config.ssh_args);
    let ghost before = args.deep_view();
    let cmd = kill_session_command(config.tmux_bin.as_str(), target);
    args.push(cmd);
    let r = Invocation { program: config.ssh_prog.clone(), args, capture: false };
    assert(r@.args =~= before.push(kill_command(config@.tmux_bin, target@)));
    r
}

/// The call that attaches to a remote session, creating it if it does not
/// exist.
pub fn attach_session(config: &Config, session_name: &str) -> (r: Invocation)
    ensures
        r@ == attach_call(config@, session_name@),
{
    let args = build_attach_command(config, session_name);
    Invocation { program: config.ssh_prog.clone(), args, capture: false }
}

/// Where the first line of `s` ends: the position of its first newline, or
/// its length where it has none.
pub open spec fn line_end(s: Seq<char>) -> int
    decreases s.len(),
{
    if s.len() == 0 || s[0] == '\n' {
        0
    } else {
        1 + line_end(s.drop_first())
    }
}

/// The session names in the output of a list command: its lines, each
/// without the white space at its ends, the empty ones left out.
pub open spec fn session_names(output: Seq<char>) -> Seq<Seq<char>>
    decreases output.len(),
    via session_names_decreases
{
    let end = line_end(output);
    let name = trimmed(output.take(end));
    let rest = if end < output.len() {
        session_names(output.skip(end + 1))
    } else {
        Seq::empty()
    };
    if name.len() > 0 {
        seq![name] + rest
    } else {
        rest
    }
}

#[via_fn]
proof fn session_names_decreases(output: Seq<char>) {
    line_end_bounds(output);
}

/// The first line ends within the text, at a newline or at the end, and
/// holds no newline itself.
pub proof fn line_end_bounds(s: Seq<char>)
    ensures
        0 <= line_end(s) <= s.len(),
        line_end(s) < s.len() ==> s[line_end(s)] == '\n',
        forall|i: int| 0 <= i < line_end(s) ==> s[i] != '\n',
    decreases s.len(),
{
    if s.len() > 0 && s[0] != '\n' {
        line_end_bounds(s.drop_first());
        assert forall|i: int| 0 <= i < line_end(s) implies s[i] != '\n' by {
            if i > 0 {
                assert(s[i] == s.drop_first()[i - 1]);
            }
        }
    }
}

/// The first line ends at `k` where no newline stands before `k` and one
/// stands at `k`, or the text ends there.
proof fn line_end_is(s: Seq<char>, k: int)
    requires
        0 <= k <= s.len(),
        forall|i: int| 0 <= i < k ==> s[i] != '\n',
        k < s.len() ==> s[k] == '\n',
    ensures
        line_end(s) == k,
    decreases k,
{
    if k > 0 {
        let rest = s.drop_first();
        assert forall|i: int| 0 <= i < k - 1 implies rest[i] != '\n' by {
            assert(rest[i] == s[i + 1]);
        }
        line_end_is(rest, k - 1);
    }
}

/// Reads the session names from the output of a list command.
pub fn parse_session_list(output: &str) -> (r: Vec<String>)
    ensures
        r.deep_view() == session_names(output@),
{
    let v = to_chars(output);
    let n = v.len();
    let mut out: Vec<String> = Vec::new();
    let mut start: usize = 0;
    let mut i: usize = 0;
    assert(v@.skip(0) =~= v@);
    assert(out.deep_view() + session_names(v@) =~= session_names(v@));
    while i < n
        invariant
            n == v.len(),
            start <= i <= n,
            forall|j: int| start <= j < i ==> v@[j] != '\n',
            session_names(v@) == out.deep_view() + session_names(v@.skip(start as int)),
        decreases n - i,
    {
        if v[i] == '\n' {
            let ghost s = v@.skip(start as int);
            let ghost before = out.deep_view();
            proof {
                line_end_is(s, i - start);
                assert(s.take(i - start) =~= v@.subrange(start as int, i as int));
                assert(s.skip(i - start + 1) =~= v@.skip(i + 1));
            }
            let (a, b) = trim_bounds(&v, start, i);
            if a < b {
                let name = from_chars(&v, a, b);
                out.push(name);
                assert(out.deep_view() =~= before + seq![trimmed(s.take(i - start))]);
                assert(out.deep_view() + session_names(v@.skip(i + 1)) =~= before + (seq![
                    trimmed(s.take(i - start)),
                ] + session_names(v@.skip(i + 1))));
            }
            start = i + 1;
        }
        i += 1;
    }
    let ghost s = v@.skip(start as int);
    let ghost before = out.deep_view();
    proof {
        line_end_is(s, n - start);
        assert(s.take(n - start) =~= v@.subrange(start as int, n as int));
    }
    let (a, b) = trim_bounds(&v, start, n);
    if a < b {
        let name = from_chars(&v, a, b);
        out.push(name);
        assert(out.deep_view() =~= before + seq![trimmed(s.take(n - start))]);
    }
    assert(out.deep_view() =~= before + session_names(s));
    out
}

/// What a discovery query yields when the remote command ended with status
/// `code` and printed `output`: the names it printed where it succeeded, a
/// missing multiplexer where the status is 127, and no sessions on any other
/// status.
pub open spec fn discovered(code: Option<i32>, output: Seq<char>) -> Result<
    Seq<Seq<char>>,
    VigilErrorView,
> {
    if code == Some(0i32) {
        Ok(session_names(output))
    } else if code == Some(127i32) {
        Err(VigilErrorView::RemoteNotFound)
    } else {
        Ok(Seq::empty())
    }
}

/// Reads the result of a discovery query. A status other than zero and 127
/// is no error: it means that the remote host has no sessions.
pub fn discovery_outcome(code: Option<i32>, output: &str) -> (r: Result<Vec<String>, VigilError>)
    ensures
        match r {
            Ok(names) => discovered(code, output@) == Ok::<Seq<Seq<char>>, VigilErrorView>(
                names.deep_view(),
            ),
            Err(e) => discovered(code, output@) == Err::<Seq<Seq<char>>, VigilErrorView>(e@),
        },
        code != Some(0i32) && code != Some(127i32) ==> (r matches Ok(names) && names.len() == 0),
{
    match code {
        Some(0) => Ok(parse_session_list(output)),
        Some(127) => Err(VigilError::RemoteNotFound),
        _ => {
            let none: Vec<String> = Vec::new();
            assert(none.deep_view() =~= Seq::<Seq<char>>::empty());
            Ok(none)
        },
    }
}

} // verus!
