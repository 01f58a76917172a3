//! The outbound SSH invocations and the classification of their exit
//! status.

use vstd::prelude::*;
use crate::cli::is_tty_flag;
use crate::config::Config;
use crate::error::{VigilError, VigilErrorView};
use crate::text::{append_strings, copy_strings, str_eq, texts};

verus! {

/// One call of the remote-execution program, ready to be spawned.
#[derive(Debug, PartialEq, Eq)]
pub struct Invocation {
    /// The program to run.
    pub program: String,
    /// Its arguments; the last one is the remote command.
    pub args: Vec<String>,
    /// Whether standard output is captured rather than left on the terminal.
    pub capture: bool,
}

/// The mathematical value of an [`Invocation`].
pub struct InvocationView {
    pub program: Seq<char>,
    pub args: Seq<Seq<char>>,
    pub capture: bool,
}

impl View for Invocation {
    type V = InvocationView;

    open spec fn view(&self) -> InvocationView {
        InvocationView {
            program: self.program@,
            args: self.args.deep_view(),
            capture: self.capture,
        }
    }
}

/// The tokens that are no terminal-allocation flags, in order.
pub open spec fn without_tty(toks: Seq<Seq<char>>) -> Seq<Seq<char>> {
    toks.filter(|t: Seq<char>| !is_tty_flag(t))
}

/// The interactive call that runs `command` on the remote host.
pub open spec fn interactive_call(
    program: Seq<char>,
    args: Seq<Seq<char>>,
    command: Seq<char>,
) -> InvocationView {
    InvocationView { program, args: args.push(command), capture: false }
}

/// The capturing call that runs `command` on the remote host: no terminal
/// is allocated for it.
pub open spec fn capturing_call(
    program: Seq<char>,
    args: Seq<Seq<char>>,
    command: Seq<char>,
) -> InvocationView {
    InvocationView { program, args: without_tty(args).push(command), capture: true }
}

/// The outcome of a remote command that ended with status `code` (`None`
/// when a signal ended it).
pub open spec fn command_outcome(code: Option<i32>) -> Result<(), VigilErrorView> {
    if code == Some(0i32) {
        Ok(())
    } else if code == Some(127i32) {
        Err(VigilErrorView::RemoteNotFound)
    } else {
        Err(VigilErrorView::RemoteFailed { code })
    }
}

/// Infers the SSH program and normalizes its arguments.
pub fn infer_ssh_prog(ssh_args: &[String]) -> (r: Result<(String, Vec<String>), VigilError>)
    ensures
        r matches Ok(p) && p.0@ == "ssh"@ && p.1.deep_view() == texts(ssh_args@),
{
    Ok(("ssh".to_owned(), copy_strings(ssh_args)))
}

/// The arguments without the terminal-allocation flags.
pub fn strip_tty_flags(args: &Vec<String>) -> (r: Vec<String>)
    ensures
        r.deep_view() == without_tty(args.deep_view()),
{
    let mut out: Vec<String> = Vec::new();
    let mut i: usize = 0;
    proof {
        reveal(Seq::filter);
        assert(args.deep_view().take(0) =~= Seq::<Seq<char>>::empty());
    }
    while i < args.len()
        invariant
            i <= args.len(),
            out.deep_view() == without_tty(args.deep_view().take(i as int)),
        decreases args.len() - i,
    {
        proof {
            reveal(Seq::filter);
            let next = args.deep_view().take(i + 1);
            assert(next.drop_last() =~= args.deep_view().take(i as int));
            assert(next.last() == args[i as int]@);
        }
        let ghost before = out.deep_view();
        if !(str_eq(args[i].as_str(), "-t") || str_eq(args[i].as_str(), "-tt")) {
            out.push(args[i].clone());
            assert(out.deep_view() =~= before.push(args[i as int]@));
        }
        i += 1;
    }
    assert(args.deep_view().take(args.len() as int) =~= args.deep_view());
    out
}

/// The call that runs `command` on the remote host with the terminal
/// attached.
pub fn exec_remote_command(config: &Config, command: &str) -> (r: Invocation)
    ensures
        r@ == interactive_call(config@.ssh_prog, config@.ssh_args, command@),
{
    let mut args: Vec<String> = Vec::new();
    append_strings(&mut args, &config.ssh_args);
    args.push(command.to_owned());
    let r = Invocation { program: config.ssh_prog.clone(), args, capture: false };
    assert(r@.args =~= config@.ssh_args.push(command@));
    r
}

/// The call that runs `command` on the remote host and captures what it
/// prints.
pub fn exec_remote_capture(config: &Config, command: &str) -> (r: Invocation)
    ensures
        r@ == capturing_call(config@.ssh_prog, config@.ssh_args, command@),
{
    let mut args = strip_tty_flags(&config.ssh_args);
    let ghost before = args.deep_view();
    args.push(command.to_owned());
    let r = Invocation { program: config.ssh_prog.clone(), args, capture: true };
    assert(r@.args =~= before.push(command@));
    r
}

/// Classifies the exit status of a remote command: zero is success, 127
/// says that the remote command was not found, anything else is a failure.
pub fn remote_status(code: Option<i32>) -> (r: Result<(), VigilError>)
    ensures
        match r {
            Ok(_) => command_outcome(code) is Ok,
            Err(e) => command_outcome(code) == Err::<(), VigilErrorView>(e@),
        },
{
    match code {
        Some(0) => Ok(()),
        Some(127) => Err(VigilError::RemoteNotFound),
        _ => Err(VigilError::RemoteFailed { code }),
    }
}

} // verus!
