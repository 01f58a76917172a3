//! The session orchestrator: which of the three modes runs, and the state
//! machine that takes a run from its start to its exit code. The machine
//! decides; the caller spawns the processes, reads the input and writes the
//! lines, and reports each result back as an event.

use vstd::prelude::*;
use vstd::string::StringExecFns;
use crate::cli::{Cli, CliView, Target, TargetView};
use crate::config::{default_session, tag, Config, ConfigView};
use crate::error::{exit_code_of, message_text, VigilError, VigilErrorView};
use crate::ssh::{Invocation, InvocationView};
use crate::text::{decimal, decimal_string, trimmed};
use crate::tmux::{
    attach_call,
    attach_session,
    discovered,
    discovery_outcome,
    line_end,
    session_names,
    kill_call,
    kill_remote_session,
    list_call,
    list_remote_sessions,
};
use crate::ui::{
    error_line,
    prompt_text,
    prompt_user_to_select_session,
    select_session,
    selected,
    status_line,
};
use crate::util::{install_hint, tmux_install_hint};

verus! {

/// The operating mode of a run.
#[derive(Debug, PartialEq, Eq)]
pub enum Mode {
    /// Print the remote sessions.
    List,
    /// Kill a session: the named one, or one that the user selects.
    Kill(Option<String>),
    /// Attach to a session or create it: the named one, one that the user
    /// selects, or the default one where attach was not asked for.
    Attach(Target),
}

/// The mathematical value of a [`Mode`].
pub enum ModeView {
    List,
    Kill(Option<Seq<char>>),
    Attach(TargetView),
}

impl View for Mode {
    type V = ModeView;

    open spec fn view(&self) -> ModeView {
        match self {
            Mode::List => ModeView::List,
            Mode::Kill(Some(name)) => ModeView::Kill(Some(name@)),
            Mode::Kill(None) => ModeView::Kill(None),
            Mode::Attach(target) => ModeView::Attach(target@),
        }
    }
}

/// The mode that a command line asks for: list before kill, kill before
/// attach.
pub open spec fn mode_of(c: CliView) -> ModeView {
    if c.list {
        ModeView::List
    } else {
        match c.kill {
            TargetView::Named(name) => ModeView::Kill(Some(name)),
            TargetView::Unnamed => ModeView::Kill(None),
            TargetView::Unset => ModeView::Attach(c.attach),
        }
    }
}

/// Selects the mode of the run.
pub fn select_mode(cli: &Cli) -> (r: Mode)
    ensures
        r@ == mode_of(cli@),
{
    if cli.list {
        Mode::List
    } else {
        match &cli.kill {
            Target::Named(name) => Mode::Kill(Some(name.clone())),
            Target::Unnamed => Mode::Kill(None),
            Target::Unset => match &cli.attach {
                Target::Named(name) => Mode::Attach(Target::Named(name.clone())),
                Target::Unnamed => Mode::Attach(Target::Unnamed),
                Target::Unset => Mode::Attach(Target::Unset),
            },
        }
    }
}

/// Something to tell the user.
#[derive(Debug, PartialEq, Eq)]
pub enum Notice {
    /// The name of a remote session, for the primary output stream.
    Session(String),
    /// The remote host has no sessions.
    NoSessions,
    /// The remote host has no sessions that could be killed.
    NoSessionsToKill,
    /// The remote host has no sessions, so this one will be created.
    WillCreate(String),
    /// This session was killed.
    Killed(String),
    /// Debug trace: the number of remote sessions found.
    Trace(usize),
    /// How to install the multiplexer on the remote host.
    InstallHint,
    /// The fatal error that ends the run.
    Failure(VigilError),
}

/// The mathematical value of a [`Notice`].
pub enum NoticeView {
    Session(Seq<char>),
    NoSessions,
    NoSessionsToKill,
    WillCreate(Seq<char>),
    Killed(Seq<char>),
    Trace(nat),
    InstallHint,
    Failure(VigilErrorView),
}

impl View for Notice {
    type V = NoticeView;

    open spec fn view(&self) -> NoticeView {
        match self {
            Notice::Session(name) => NoticeView::Session(name@),
            Notice::NoSessions => NoticeView::NoSessions,
            Notice::NoSessionsToKill => NoticeView::NoSessionsToKill,
            Notice::WillCreate(name) => NoticeView::WillCreate(name@),
            Notice::Killed(name) => NoticeView::Killed(name@),
            Notice::Trace(count) => NoticeView::Trace(*count as nat),
            Notice::InstallHint => NoticeView::InstallHint,
            Notice::Failure(e) => NoticeView::Failure(e@),
        }
    }
}

/// The line that a notice writes. Every line but a session name carries the
/// tool's tag, and a fatal error the word `ERROR` behind it.
pub open spec fn notice_text(n: NoticeView) -> Seq<char> {
    match n {
        NoticeView::Session(name) => name,
        NoticeView::NoSessions => tag() + "No tmux sessions found remotely."@,
        NoticeView::NoSessionsToKill => tag() + "No tmux sessions found remotely to kill."@,
        NoticeView::WillCreate(name) => tag()
            + "No tmux sessions found remotely; will create/attach to '"@ + name + "'."@,
        NoticeView::Killed(name) => tag() + "Killed session '"@ + name + "'."@,
        NoticeView::Trace(count) => tag() + "debug: remote sessions found: "@ + decimal(count),
        NoticeView::InstallHint => tag() + install_hint(),
        NoticeView::Failure(e) => tag() + "ERROR: "@ + message_text(e),
    }
}

impl Notice {
    /// Whether the notice goes to the primary output stream; every other
    /// notice goes to the diagnostic stream.
    pub fn is_primary(&self) -> (r: bool)
        ensures
            r == (self@ is Session),
    {
        match self {
            Notice::Session(_) => true,
            _ => false,
        }
    }

    /// The line to write for the notice.
    pub fn line(&self) -> (r: String)
        ensures
            r@ == notice_text(self@),
    {
        match self {
            Notice::Session(name) => name.clone(),
            Notice::NoSessions => status_line("No tmux sessions found remotely."),
            Notice::NoSessionsToKill => status_line("No tmux sessions found remotely to kill."),
            Notice::WillCreate(name) => {
                let mut s = status_line("No tmux sessions found remotely; will create/attach to '");
                s.append(name.as_str());
                s.append("'.");
                s
            },
            Notice::Killed(name) => {
                let mut s = status_line("Killed session '");
                s.append(name.as_str());
                s.append("'.");
                s
            },
            Notice::Trace(count) => {
                let mut s = status_line("debug: remote sessions found: ");
                s.append(decimal_string(*count as u64).as_str());
                s
            },
            Notice::InstallHint => status_line(tmux_install_hint()),
            Notice::Failure(e) => error_line(e.message().as_str()),
        }
    }
}

/// Where a run stands.
#[derive(Debug, PartialEq, Eq)]
pub enum State {
    /// Nothing has happened yet.
    Start,
    /// The discovery query of debug tracing is under way.
    Tracing,
    /// The discovery query of list mode is under way.
    Listing,
    /// The discovery query of kill mode is under way.
    KillDiscovery,
    /// The user is selecting one of these sessions to kill.
    KillSelection(Vec<String>),
    /// The kill command for this session is under way.
    Killing(String),
    /// The discovery query of attach mode is under way.
    AttachDiscovery,
    /// The user is selecting one of these sessions to attach to.
    AttachSelection(Vec<String>),
    /// The attach-or-create command is under way.
    Attaching,
    /// The run is over.
    Done,
}

/// The mathematical value of a [`State`].
pub enum StateView {
    Start,
    Tracing,
    Listing,
    KillDiscovery,
    KillSelection(Seq<Seq<char>>),
    Killing(Seq<char>),
    AttachDiscovery,
    AttachSelection(Seq<Seq<char>>),
    Attaching,
    Done,
}

impl View for State {
    type V = StateView;

    open spec fn view(&self) -> StateView {
        match self {
            State::Start => StateView::Start,
            State::Tracing => StateView::Tracing,
            State::Listing => StateView::Listing,
            State::KillDiscovery => StateView::KillDiscovery,
            State::KillSelection(names) => StateView::KillSelection(names.deep_view()),
            State::Killing(name) => StateView::Killing(name@),
            State::AttachDiscovery => StateView::AttachDiscovery,
            State::AttachSelection(names) => StateView::AttachSelection(names.deep_view()),
            State::Attaching => StateView::Attaching,
            State::Done => StateView::Done,
        }
    }
}

/// What the caller reports back.
#[derive(Debug, PartialEq, Eq)]
pub enum Event {
    /// The run begins.
    Begin,
    /// A capturing call ended with this status (`None` where a signal ended
    /// it) and printed this text.
    Captured { code: Option<i32>, output: String },
    /// An interactive call ended with this status.
    Exited { code: Option<i32> },
    /// The program of a call could not be started.
    SpawnFailed { detail: String },
    /// The user typed this line.
    Line(String),
    /// No line could be read.
    ReadFailed,
}

/// The mathematical value of an [`Event`].
pub enum EventView {
    Begin,
    Captured { code: Option<i32>, output: Seq<char> },
    Exited { code: Option<i32> },
    SpawnFailed { detail: Seq<char> },
    Line(Seq<char>),
    ReadFailed,
}

impl View for Event {
    type V = EventView;

    open spec fn view(&self) -> EventView {
        match self {
            Event::Begin => EventView::Begin,
            Event::Captured { code, output } => EventView::Captured {
                code: *code,
                output: output@,
            },
            Event::Exited { code } => EventView::Exited { code: *code },
            Event::SpawnFailed { detail } => EventView::SpawnFailed { detail: detail@ },
            Event::Line(line) => EventView::Line(line@),
            Event::ReadFailed => EventView::ReadFailed,
        }
    }
}

/// What the caller does next.
#[derive(Debug, PartialEq, Eq)]
pub enum Action {
    /// Spawn this call and report how it ended.
    Run(Invocation),
    /// Show this text on the diagnostic stream and read one line.
    Ask(String),
    /// Leave with this exit code.
    Exit(i32),
}

/// The mathematical value of an [`Action`].
pub enum ActionView {
    Run(InvocationView),
    Ask(Seq<char>),
    Exit(i32),
}

impl View for Action {
    type V = ActionView;

    open spec fn view(&self) -> ActionView {
        match self {
            Action::Run(call) => ActionView::Run(call@),
            Action::Ask(text) => ActionView::Ask(text@),
            Action::Exit(code) => ActionView::Exit(*code),
        }
    }
}

/// One step of a run: the new state, what to tell the user, and what to do
/// next.
#[derive(Debug, PartialEq, Eq)]
pub struct Step {
    pub state: State,
    pub notices: Vec<Notice>,
    pub action: Action,
}

/// The mathematical value of a [`Step`].
pub struct StepView {
    pub state: StateView,
    pub notices: Seq<NoticeView>,
    pub action: ActionView,
}

/// The values of a vector of notices, in order.
pub open spec fn notice_views(v: Seq<Notice>) -> Seq<NoticeView> {
    Seq::new(v.len(), |i: int| v[i]@)
}

impl View for Step {
    type V = StepView;

    open spec fn view(&self) -> StepView {
        StepView {
            state: self.state@,
            notices: notice_views(self.notices@),
            action: self.action@,
        }
    }
}

/// The step that starts a discovery query and waits for it in `state`.
pub open spec fn discover(c: ConfigView, state: StateView, notices: Seq<NoticeView>) -> StepView {
    StepView { state, notices, action: ActionView::Run(list_call(c)) }
}

/// The step that starts the kill command for the session `name`.
pub open spec fn start_kill(
    c: ConfigView,
    name: Seq<char>,
    notices: Seq<NoticeView>,
) -> StepView {
    StepView {
        state: StateView::Killing(name),
        notices,
        action: ActionView::Run(kill_call(c, name)),
    }
}

/// The step that starts the attach-or-create command for the session
/// `name`.
pub open spec fn start_attach(
    c: ConfigView,
    name: Seq<char>,
    notices: Seq<NoticeView>,
) -> StepView {
    StepView {
        state: StateView::Attaching,
        notices,
        action: ActionView::Run(attach_call(c, name)),
    }
}

/// The step that ends the run with success.
pub open spec fn finish(notices: Seq<NoticeView>) -> StepView {
    StepView { state: StateView::Done, notices, action: ActionView::Exit(0i32) }
}

/// The step that ends the run with a fatal error. Where the error is a
/// missing multiplexer, the installation hint comes first.
pub open spec fn fail(e: VigilErrorView) -> StepView {
    StepView {
        state: StateView::Done,
        notices: if e is RemoteNotFound {
            seq![NoticeView::InstallHint, NoticeView::Failure(e)]
        } else {
            seq![NoticeView::Failure(e)]
        },
        action: ActionView::Exit(exit_code_of(e)),
    }
}

/// The step that starts the mode `m`, after `notices`.
pub open spec fn dispatch(c: ConfigView, m: ModeView, notices: Seq<NoticeView>) -> StepView {
    match m {
        ModeView::List => discover(c, StateView::Listing, notices),
        ModeView::Kill(Some(name)) => start_kill(c, name, notices),
        ModeView::Kill(None) => discover(c, StateView::KillDiscovery, notices),
        ModeView::Attach(TargetView::Named(name)) => start_attach(c, name, notices),
        ModeView::Attach(TargetView::Unnamed) => discover(c, StateView::AttachDiscovery, notices),
        ModeView::Attach(TargetView::Unset) => start_attach(c, default_session(c), notices),
    }
}

/// The sessions that a discovery query found; none where the remote host
/// has no multiplexer or the query ended with another non-zero status.
pub open spec fn found(code: Option<i32>, output: Seq<char>) -> Seq<Seq<char>> {
    match discovered(code, output) {
        Ok(names) => names,
        Err(_) => Seq::empty(),
    }
}

/// The installation hint where the status says that the multiplexer is
/// missing, and nothing otherwise.
pub open spec fn hint_for(code: Option<i32>) -> Seq<NoticeView> {
    if code == Some(127i32) {
        seq![NoticeView::InstallHint]
    } else {
        Seq::empty()
    }
}

/// What list mode prints: every name in order, or a notice that there is
/// none.
pub open spec fn listing(names: Seq<Seq<char>>) -> Seq<NoticeView> {
    if names.len() == 0 {
        seq![NoticeView::NoSessions]
    } else {
        Seq::new(names.len(), |i: int| NoticeView::Session(names[i]))
    }
}

/// The step that follows the end of an interactive command with status
/// `code`: `done` where it succeeded, a missing multiplexer on status 127,
/// and the failure `failed` on any other status.
pub open spec fn after_command(
    code: Option<i32>,
    done: Seq<NoticeView>,
    failed: VigilErrorView,
) -> StepView {
    if code == Some(0i32) {
        finish(done)
    } else if code == Some(127i32) {
        fail(VigilErrorView::RemoteNotFound)
    } else {
        fail(failed)
    }
}

/// The transition function of a run with configuration `c` and mode `m`:
/// the step that the event `e` causes in the state `s`, or `None` where the
/// state does not wait for such an event.
pub open spec fn next(c: ConfigView, m: ModeView, s: StateView, e: EventView) -> Option<StepView> {
    match (s, e) {
        (StateView::Start, EventView::Begin) => Some(
            if c.debug {
                discover(c, StateView::Tracing, Seq::empty())
            } else {
                dispatch(c, m, Seq::empty())
            },
        ),
        (StateView::Tracing, EventView::Captured { code, output }) => Some(
            dispatch(c, m, seq![NoticeView::Trace(found(code, output).len())]),
        ),
        (StateView::Tracing, EventView::SpawnFailed { detail }) => Some(
            dispatch(c, m, seq![NoticeView::Trace(0)]),
        ),
        (StateView::Listing, EventView::Captured { code, output }) => Some(
            finish(hint_for(code) + listing(found(code, output))),
        ),
        (StateView::KillDiscovery, EventView::Captured { code, output }) => Some(
            if found(code, output).len() == 0 {
                finish(hint_for(code) + seq![NoticeView::NoSessionsToKill])
            } else {
                StepView {
                    state: StateView::KillSelection(found(code, output)),
                    notices: Seq::empty(),
                    action: ActionView::Ask(prompt_text("kill"@, found(code, output))),
                }
            },
        ),
        (StateView::AttachDiscovery, EventView::Captured { code, output }) => Some(
            if code == Some(127i32) {
                fail(VigilErrorView::RemoteNotFound)
            } else if found(code, output).len() == 0 {
                start_attach(
                    c,
                    default_session(c),
                    seq![NoticeView::WillCreate(default_session(c))],
                )
            } else {
                StepView {
                    state: StateView::AttachSelection(found(code, output)),
                    notices: Seq::empty(),
                    action: ActionView::Ask(prompt_text("attach"@, found(code, output))),
                }
            },
        ),
        (StateView::KillSelection(names), EventView::Line(input)) => Some(
            match selected(names, input) {
                Some(name) => start_kill(c, name, Seq::empty()),
                None => fail(VigilErrorView::InvalidSelection),
            },
        ),
        (StateView::AttachSelection(names), EventView::Line(input)) => Some(
            match selected(names, input) {
                Some(name) => start_attach(c, name, Seq::empty()),
                None => fail(VigilErrorView::InvalidSelection),
            },
        ),
        (StateView::KillSelection(_), EventView::ReadFailed) => Some(
            fail(VigilErrorView::ReadFailed),
        ),
        (StateView::AttachSelection(_), EventView::ReadFailed) => Some(
            fail(VigilErrorView::ReadFailed),
        ),
        (StateView::Killing(name), EventView::Exited { code }) => Some(
            after_command(
                code,
                seq![NoticeView::Killed(name)],
                VigilErrorView::KillFailed { target: name, code },
            ),
        ),
        (StateView::Attaching, EventView::Exited { code }) => Some(
            after_command(code, Seq::empty(), VigilErrorView::RemoteFailed { code }),
        ),
        (StateView::Listing, EventView::SpawnFailed { detail }) => Some(
            fail(spawn_error(c, detail)),
        ),
        (StateView::KillDiscovery, EventView::SpawnFailed { detail }) => Some(
            fail(spawn_error(c, detail)),
        ),
        (StateView::AttachDiscovery, EventView::SpawnFailed { detail }) => Some(
            fail(spawn_error(c, detail)),
        ),
        (StateView::Killing(_), EventView::SpawnFailed { detail }) => Some(
            fail(spawn_error(c, detail)),
        ),
        (StateView::Attaching, EventView::SpawnFailed { detail }) => Some(
            fail(spawn_error(c, detail)),
        ),
        _ => None,
    }
}

/// The error of a remote-execution program that could not be started.
pub open spec fn spawn_error(c: ConfigView, detail: Seq<char>) -> VigilErrorView {
    VigilErrorView::Spawn { program: c.ssh_prog, detail }
}

/// One notice, as a vector.
fn one_notice(n: Notice) -> (r: Vec<Notice>)
    ensures
        notice_views(r@) == seq![n@],
{
    let mut v: Vec<Notice> = Vec::new();
    v.push(n);
    assert(notice_views(v@) =~= seq![n@]);
    v
}

/// No notice.
fn no_notice() -> (r: Vec<Notice>)
    ensures
        notice_views(r@) == Seq::<NoticeView>::empty(),
{
    let v: Vec<Notice> = Vec::new();
    assert(notice_views(v@) =~= Seq::<NoticeView>::empty());
    v
}

/// The installation hint where the status says that the multiplexer is
/// missing.
fn hint_notices(code: Option<i32>) -> (r: Vec<Notice>)
    ensures
        notice_views(r@) == hint_for(code),
{
    match code {
        Some(127) => one_notice(Notice::InstallHint),
        _ => no_notice(),
    }
}

/// Adds a notice at the end.
fn add_notice(notices: &mut Vec<Notice>, n: Notice)
    ensures
        notice_views(final(notices)@) == notice_views(old(notices)@).push(n@),
{
    notices.push(n);
    assert(notice_views(notices@) =~= notice_views(old(notices)@).push(n@));
}

/// Adds what list mode prints for `names`.
fn add_listing(notices: &mut Vec<Notice>, names: &Vec<String>)
    ensures
        notice_views(final(notices)@) == notice_views(old(notices)@) + listing(names.deep_view()),
{
    let ghost start = notice_views(notices@);
    if names.len() == 0 {
        add_notice(notices, Notice::NoSessions);
        assert(notice_views(notices@) =~= start + listing(names.deep_view()));
    } else {
        let mut i: usize = 0;
        assert(notice_views(notices@) =~= start + listing(names.deep_view()).take(0));
        while i < names.len()
            invariant
                i <= names.len(),
                names.len() > 0,
                notice_views(notices@) == start + listing(names.deep_view()).take(i as int),
            decreases names.len() - i,
        {
            let ghost before = notice_views(notices@);
            add_notice(notices, Notice::Session(names[i].clone()));
            assert(notice_views(notices@) =~= start + listing(names.deep_view()).take(i + 1));
            i += 1;
        }
        assert(listing(names.deep_view()).take(i as int) =~= listing(names.deep_view()));
    }
}

/// The step that ends the run with success.
fn finish_step(notices: Vec<Notice>) -> (r: Step)
    ensures
        r@ == finish(notice_views(notices@)),
{
    Step { state: State::Done, notices, action: Action::Exit(0) }
}

/// The step that ends the run with a fatal error.
fn fail_step(e: VigilError) -> (r: Step)
    ensures
        r@ == fail(e@),
{
    let code = e.exit_code();
    let notices = match e {
        VigilError::RemoteNotFound => {
            let mut v = one_notice(Notice::InstallHint);
            add_notice(&mut v, Notice::Failure(VigilError::RemoteNotFound));
            assert(notice_views(v@) =~= seq![
                NoticeView::InstallHint,
                NoticeView::Failure(VigilErrorView::RemoteNotFound),
            ]);
            v
        },
        _ => one_notice(Notice::Failure(e)),
    };
    Step { state: State::Done, notices, action: Action::Exit(code) }
}

/// The step that starts a discovery query and waits for it in `state`.
fn discover_step(config: &Config, state: State, notices: Vec<Notice>) -> (r: Step)
    ensures
        r@ == discover(config@, state@, notice_views(notices@)),
{
    Step { state, notices, action: Action::Run(list_remote_sessions(config)) }
}

/// The step that starts the kill command for the session `name`.
fn kill_step(config: &Config, name: String, notices: Vec<Notice>) -> (r: Step)
    ensures
        r@ == start_kill(config@, name@, notice_views(notices@)),
{
    let call = kill_remote_session(config, name.as_str());
    Step { state: State::Killing(name), notices, action: Action::Run(call) }
}

/// The step that starts the attach-or-create command for the session
/// `name`.
fn attach_step(config: &Config, name: &str, notices: Vec<Notice>) -> (r: Step)
    ensures
        r@ == start_attach(config@, name@, notice_views(notices@)),
{
    Step { state: State::Attaching, notices, action: Action::Run(attach_session(config, name)) }
}

/// The step that starts the mode, after `notices`.
fn dispatch_step(config: &Config, mode: &Mode, notices: Vec<Notice>) -> (r: Step)
    ensures
        r@ == dispatch(config@, mode@, notice_views(notices@)),
{
    match mode {
        Mode::List => discover_step(config, State::Listing, notices),
        Mode::Kill(Some(name)) => kill_step(config, name.clone(), notices),
        Mode::Kill(None) => discover_step(config, State::KillDiscovery, notices),
        Mode::Attach(Target::Named(name)) => attach_step(config, name.as_str(), notices),
        Mode::Attach(Target::Unnamed) => discover_step(config, State::AttachDiscovery, notices),
        Mode::Attach(Target::Unset) => {
            let name = config.default_session_name();
            attach_step(config, name.as_str(), notices)
        },
    }
}

/// The sessions that a discovery query found.
fn found_sessions(code: Option<i32>, output: &str) -> (r: Vec<String>)
    ensures
        r.deep_view() == found(code, output@),
{
    match discovery_outcome(code, output) {
        Ok(names) => names,
        Err(_) => {
            let none: Vec<String> = Vec::new();
            assert(none.deep_view() =~= Seq::<Seq<char>>::empty());
            none
        },
    }
}

/// The step that asks the user to select one of `names`.
fn ask_step(action: &str, names: Vec<String>, kill: bool) -> (r: Step)
    ensures
        r@ == (StepView {
            state: if kill {
                StateView::KillSelection(names.deep_view())
            } else {
                StateView::AttachSelection(names.deep_view())
            },
            notices: Seq::empty(),
            action: ActionView::Ask(prompt_text(action@, names.deep_view())),
        }),
{
    let text = prompt_user_to_select_session(action, names.as_slice());
    assert(crate::text::texts(names@) =~= names.deep_view());
    let state = if kill {
        State::KillSelection(names)
    } else {
        State::AttachSelection(names)
    };
    Step { state, notices: no_notice(), action: Action::Ask(text) }
}

/// The step that follows the end of an interactive command.
fn command_step(code: Option<i32>, done: Vec<Notice>, failed: VigilError) -> (r: Step)
    ensures
        r@ == after_command(code, notice_views(done@), failed@),
{
    match code {
        Some(0) => finish_step(done),
        Some(127) => fail_step(VigilError::RemoteNotFound),
        _ => fail_step(failed),
    }
}

/// The step that follows a program that could not be started.
fn spawn_failed_step(config: &Config, detail: String) -> (r: Step)
    ensures
        r@ == fail(spawn_error(config@, detail@)),
{
    fail_step(VigilError::Spawn { program: config.ssh_prog.clone(), detail })
}

/// Takes one step of the run: given the state and the event that the caller
/// reports, says what to tell the user, what to do next and in which state
/// to wait for its result. Returns `None` where the state does not wait for
/// such an event.
pub fn step(config: &Config, mode: &Mode, state: State, event: Event) -> (r: Option<Step>)
    ensures
        match r {
            Some(st) => next(config@, mode@, state@, event@) == Some(st@),
            None => next(config@, mode@, state@, event@) is None,
        },
{
    let ghost goal = next(config@, mode@, state@, event@);
    let st = match (state, event) {
        (State::Start, Event::Begin) => {
            if config.debug {
                discover_step(config, State::Tracing, no_notice())
            } else {
                dispatch_step(config, mode, no_notice())
            }
        },
        (State::Tracing, Event::Captured { code, output }) => {
            let names = found_sessions(code, output.as_str());
            dispatch_step(config, mode, one_notice(Notice::Trace(names.len())))
        },
        (State::Tracing, Event::SpawnFailed { detail: _ }) => {
            dispatch_step(config, mode, one_notice(Notice::Trace(0)))
        },
        (State::Listing, Event::Captured { code, output }) => {
            let names = found_sessions(code, output.as_str());
            let mut notices = hint_notices(code);
            add_listing(&mut notices, &names);
            finish_step(notices)
        },
        (State::KillDiscovery, Event::Captured { code, output }) => {
            let names = found_sessions(code, output.as_str());
            if names.len() == 0 {
                let mut notices = hint_notices(code);
                add_notice(&mut notices, Notice::NoSessionsToKill);
                finish_step(notices)
            } else {
                ask_step("kill", names, true)
            }
        },
        (State::AttachDiscovery, Event::Captured { code, output }) => {
            let names = found_sessions(code, output.as_str());
            if code == Some(127) {
                fail_step(VigilError::RemoteNotFound)
            } else if names.len() == 0 {
                let name = config.default_session_name();
                let notices = one_notice(Notice::WillCreate(name.clone()));
                attach_step(config, name.as_str(), notices)
            } else {
                ask_step("attach", names, false)
            }
        },
        (State::KillSelection(names), Event::Line(input)) => {
            assert(crate::text::texts(names@) =~= names.deep_view());
            match select_session(names.as_slice(), input.as_str()) {
                Ok(name) => kill_step(config, name, no_notice()),
                Err(e) => fail_step(e),
            }
        },
        (State::AttachSelection(names), Event::Line(input)) => {
            assert(crate::text::texts(names@) =~= names.deep_view());
            match select_session(names.as_slice(), input.as_str()) {
                Ok(name) => attach_step(config, name.as_str(), no_notice()),
                Err(e) => fail_step(e),
            }
        },
        (State::KillSelection(_), Event::ReadFailed) => fail_step(VigilError::ReadFailed),
        (State::AttachSelection(_), Event::ReadFailed) => fail_step(VigilError::ReadFailed),
        (State::Killing(name), Event::Exited { code }) => {
            let done = one_notice(Notice::Killed(name.clone()));
            command_step(code, done, VigilError::KillFailed { target: name, code })
        },
        (State::Attaching, Event::Exited { code }) => {
            command_step(code, no_notice(), VigilError::RemoteFailed { code })
        },
        (State::Listing, Event::SpawnFailed { detail }) => spawn_failed_step(config, detail),
        (State::KillDiscovery, Event::SpawnFailed { detail }) => spawn_failed_step(config, detail),
        (State::AttachDiscovery, Event::SpawnFailed { detail }) => spawn_failed_step(
            config,
            detail,
        ),
        (State::Killing(_), Event::SpawnFailed { detail }) => spawn_failed_step(config, detail),
        (State::Attaching, Event::SpawnFailed { detail }) => spawn_failed_step(config, detail),
        _ => {
            return None;
        },
    };
    assert(goal is Some);
    assert(goal->0.state == st@.state);
    assert(goal->0.notices == st@.notices);
    assert(goal->0.action == st@.action);
    Some(st)
}

/// How many steps a run may still take from a state, at most.
pub open spec fn steps_left(s: StateView) -> nat {
    match s {
        StateView::Start => 5,
        StateView::Tracing => 4,
        StateView::Listing => 3,
        StateView::KillDiscovery => 3,
        StateView::AttachDiscovery => 3,
        StateView::KillSelection(_) => 2,
        StateView::AttachSelection(_) => 2,
        StateView::Killing(_) => 1,
        StateView::Attaching => 1,
        StateView::Done => 0,
    }
}

/// Whether one of the notices is a fatal error.
pub open spec fn has_failure(notices: Seq<NoticeView>) -> bool {
    exists|i: int| 0 <= i < notices.len() && #[trigger] notices[i] is Failure
}

/// Every step brings the run closer to its end, and the run is over
/// exactly when the step says to exit: no run takes more than five steps.
pub proof fn every_step_makes_progress(c: ConfigView, m: ModeView, s: StateView, e: EventView)
    requires
        next(c, m, s, e) is Some,
    ensures
        steps_left(next(c, m, s, e)->0.state) < steps_left(s),
        next(c, m, s, e)->0.action is Exit <==> next(c, m, s, e)->0.state is Done,
{
}

/// A run exits with a code other than zero exactly when it reports a fatal
/// error.
pub proof fn exit_code_tells_failure(c: ConfigView, m: ModeView, s: StateView, e: EventView)
    requires
        next(c, m, s, e) is Some,
        next(c, m, s, e)->0.action is Exit,
    ensures
        next(c, m, s, e)->0.action->Exit_0 != 0 <==> has_failure(next(c, m, s, e)->0.notices),
{
    let st = next(c, m, s, e)->0;
    let code = st.action->Exit_0;
    if code != 0 {
        assert(st.notices.last() is Failure);
    } else {
        assert forall|i: int| 0 <= i < st.notices.len() implies !(#[trigger] st.notices[i]
            is Failure) by {}
    }
}

/// A discovery query that ends with a status other than zero and 127 is no
/// error: the run goes on as if the remote host had reported no sessions.
pub proof fn discovery_tolerates_failure(
    c: ConfigView,
    m: ModeView,
    s: StateView,
    code: Option<i32>,
    output: Seq<char>,
)
    requires
        s is Tracing || s is Listing || s is KillDiscovery || s is AttachDiscovery,
        code != Some(0i32),
        code != Some(127i32),
    ensures
        found(code, output) == Seq::<Seq<char>>::empty(),
        next(c, m, s, EventView::Captured { code, output }) == next(
            c,
            m,
            s,
            EventView::Captured { code: Some(0i32), output: Seq::empty() },
        ),
{
    let none = Seq::<char>::empty();
    assert(line_end(none) == 0);
    assert(trimmed(none.take(0)) =~= none);
    assert(session_names(none) =~= Seq::<Seq<char>>::empty());
}

/// Debug tracing does not change what the run does: after the trace the run
/// takes the step that it would have taken at its start without tracing,
/// with the trace as its one notice more.
pub proof fn tracing_keeps_the_mode(
    c: ConfigView,
    m: ModeView,
    code: Option<i32>,
    output: Seq<char>,
)
    ensures
        ({
            let traced = next(c, m, StateView::Tracing, EventView::Captured { code, output })->0;
            let plain = next(
                ConfigView { debug: false, ..c },
                m,
                StateView::Start,
                EventView::Begin,
            )->0;
            &&& traced.state == plain.state
            &&& traced.action == plain.action
            &&& plain.notices == Seq::<NoticeView>::empty()
            &&& traced.notices == seq![NoticeView::Trace(found(code, output).len())]
        }),
{
}

} // verus!
