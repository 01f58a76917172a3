use vigil::cli::{parse_args, Cli, Environment, Target};
use vigil::config::Config;
use vigil::error::VigilError;
use vigil::session::{select_mode, step, Action, Event, Mode, Notice, State, Step};
use vigil::ssh::Invocation;

fn orchestration_strings(items: &[&str]) -> Vec<String> {
    items.iter().map(|s| s.to_string()).collect()
}

fn orchestration_cli(args: &[&str]) -> Cli {
    parse_args(Cli {
        session: "default".to_string(),
        session_provided: false,
        tmux_bin: "tmux".to_string(),
        tmux_args: String::new(),
        attach: Target::Unset,
        kill: Target::Unset,
        list: false,
        ssh_args: orchestration_strings(args),
    })
    .expect("hoisting never fails")
}

fn orchestration_env(debug: bool) -> Environment {
    Environment { ssh_available: true, user: Some("alice".to_string()), logname: None, debug }
}

fn orchestration_setup(args: &[&str], debug: bool) -> (Config, Mode) {
    let cli = orchestration_cli(args);
    let mode = select_mode(&cli);
    let config = cli.to_config(orchestration_env(debug)).expect("ssh is available");
    (config, mode)
}

fn orchestration_step(config: &Config, mode: &Mode, state: State, event: Event) -> Step {
    step(config, mode, state, event).expect("the state waits for this event")
}

fn orchestration_list_call() -> Action {
    Action::Run(Invocation {
        program: "ssh".to_string(),
        args: orchestration_strings(&["user@host", "tmux list-sessions -F '#{session_name}'"]),
        capture: true,
    })
}

fn orchestration_attach_call(name: &str) -> Action {
    Action::Run(Invocation {
        program: "ssh".to_string(),
        args: orchestration_strings(&[
            "-t",
            "user@host",
            "tmux",
            "new-session",
            "-A",
            "-s",
            name,
        ]),
        capture: false,
    })
}

fn orchestration_kill_call(name: &str) -> Action {
    Action::Run(Invocation {
        program: "ssh".to_string(),
        args: vec!["user@host".to_string(), format!("tmux kill-session -t '{}'", name)],
        capture: false,
    })
}

fn orchestration_captured(code: i32, output: &str) -> Event {
    Event::Captured { code: Some(code), output: output.to_string() }
}

#[test]
fn list_after_destination_runs_list_only() {
    let (config, mode) = orchestration_setup(&["user@host", "--list"], false);
    assert_eq!(mode, Mode::List);
    assert_eq!(config.ssh_args, orchestration_strings(&["-t", "user@host"]));
    let first = orchestration_step(&config, &mode, State::Start, Event::Begin);
    assert_eq!(first.state, State::Listing);
    assert!(first.notices.is_empty());
    assert_eq!(first.action, orchestration_list_call());
    let second =
        orchestration_step(&config, &mode, first.state, orchestration_captured(0, "a\nb\n"));
    assert_eq!(second.state, State::Done);
    assert_eq!(
        second.notices,
        vec![Notice::Session("a".to_string()), Notice::Session("b".to_string())]
    );
    assert_eq!(second.action, Action::Exit(0));
}

#[test]
fn attach_with_name_performs_no_discovery() {
    let (config, mode) = orchestration_setup(&["--attach", "work", "user@host"], false);
    assert_eq!(mode, Mode::Attach(Target::Named("work".to_string())));
    assert_eq!(config.ssh_args, orchestration_strings(&["-t", "user@host"]));
    let first = orchestration_step(&config, &mode, State::Start, Event::Begin);
    assert_eq!(first.state, State::Attaching);
    assert!(first.notices.is_empty());
    assert_eq!(first.action, orchestration_attach_call("work"));
    let second =
        orchestration_step(&config, &mode, first.state, Event::Exited { code: Some(0) });
    assert_eq!(second.state, State::Done);
    assert!(second.notices.is_empty());
    assert_eq!(second.action, Action::Exit(0));
}

#[test]
fn default_invocation_targets_stem_and_user() {
    let (config, mode) = orchestration_setup(&["user@host"], false);
    assert_eq!(mode, Mode::Attach(Target::Unset));
    assert_eq!(config.default_session_name(), "default_alice");
    let first = orchestration_step(&config, &mode, State::Start, Event::Begin);
    assert_eq!(first.state, State::Attaching);
    assert!(first.notices.is_empty());
    assert_eq!(first.action, orchestration_attach_call("default_alice"));
}

#[test]
fn kill_selection_with_empty_input_kills_the_first_session() {
    let (config, mode) = orchestration_setup(&["user@host", "--kill"], false);
    assert_eq!(mode, Mode::Kill(None));
    let first = orchestration_step(&config, &mode, State::Start, Event::Begin);
    assert_eq!(first.state, State::KillDiscovery);
    assert_eq!(first.action, orchestration_list_call());
    let second =
        orchestration_step(&config, &mode, first.state, orchestration_captured(0, "a\nb\nc\n"));
    assert_eq!(second.state, State::KillSelection(orchestration_strings(&["a", "b", "c"])));
    assert!(second.notices.is_empty());
    assert_eq!(
        second.action,
        Action::Ask(
            "[vigil] Select a session to kill:\n  1. a\n  2. b\n  3. c\nEnter number (or press Enter for 1): "
                .to_string()
        )
    );
    let third = orchestration_step(&config, &mode, second.state, Event::Line("\n".to_string()));
    assert_eq!(third.state, State::Killing("a".to_string()));
    assert_eq!(third.action, orchestration_kill_call("a"));
    let fourth = orchestration_step(&config, &mode, third.state, Event::Exited { code: Some(0) });
    assert_eq!(fourth.state, State::Done);
    assert_eq!(fourth.notices, vec![Notice::Killed("a".to_string())]);
    assert_eq!(fourth.action, Action::Exit(0));
}

#[test]
fn selection_out_of_range_is_fatal() {
    let (config, mode) = orchestration_setup(&["user@host", "--kill"], false);
    let state = State::KillSelection(orchestration_strings(&["a", "b", "c"]));
    let next = orchestration_step(&config, &mode, state, Event::Line("5\n".to_string()));
    assert_eq!(next.state, State::Done);
    assert_eq!(next.notices, vec![Notice::Failure(VigilError::InvalidSelection)]);
    assert_eq!(next.action, Action::Exit(1));
    let state = State::AttachSelection(orchestration_strings(&["a", "b", "c"]));
    let next = orchestration_step(&config, &mode, state, Event::Line("zero".to_string()));
    assert_eq!(next.notices, vec![Notice::Failure(VigilError::InvalidSelection)]);
    assert_eq!(next.action, Action::Exit(1));
}

#[test]
fn kill_that_reports_127_is_a_missing_multiplexer() {
    let (config, mode) = orchestration_setup(&["user@host", "--kill", "old"], false);
    assert_eq!(mode, Mode::Kill(Some("old".to_string())));
    let first = orchestration_step(&config, &mode, State::Start, Event::Begin);
    assert_eq!(first.state, State::Killing("old".to_string()));
    assert_eq!(first.action, orchestration_kill_call("old"));
    let second =
        orchestration_step(&config, &mode, first.state, Event::Exited { code: Some(127) });
    assert_eq!(second.state, State::Done);
    assert_eq!(
        second.notices,
        vec![Notice::InstallHint, Notice::Failure(VigilError::RemoteNotFound)]
    );
    assert_eq!(second.action, Action::Exit(127));
}

#[test]
fn kill_that_fails_otherwise_is_a_kill_failure() {
    let (config, mode) = orchestration_setup(&["user@host", "--kill", "old"], false);
    let next = orchestration_step(
        &config,
        &mode,
        State::Killing("old".to_string()),
        Event::Exited { code: Some(1) },
    );
    assert_eq!(
        next.notices,
        vec![Notice::Failure(VigilError::KillFailed { target: "old".to_string(), code: Some(1) })]
    );
    assert_eq!(next.action, Action::Exit(1));
    let next = orchestration_step(
        &config,
        &mode,
        State::Killing("old".to_string()),
        Event::Exited { code: None },
    );
    assert_eq!(
        next.notices,
        vec![Notice::Failure(VigilError::KillFailed { target: "old".to_string(), code: None })]
    );
    assert_eq!(next.action, Action::Exit(1));
}

#[test]
fn list_with_no_sessions_says_so() {
    let (config, mode) = orchestration_setup(&["user@host", "--list"], false);
    let next = orchestration_step(&config, &mode, State::Listing, orchestration_captured(0, ""));
    assert_eq!(next.notices, vec![Notice::NoSessions]);
    assert_eq!(next.action, Action::Exit(0));
}

#[test]
fn discovery_failure_is_no_sessions_in_every_mode() {
    let (config, mode) = orchestration_setup(&["user@host", "--list"], false);
    let next =
        orchestration_step(&config, &mode, State::Listing, orchestration_captured(1, "junk\n"));
    assert_eq!(next.notices, vec![Notice::NoSessions]);
    assert_eq!(next.action, Action::Exit(0));

    let (config, mode) = orchestration_setup(&["user@host", "--kill"], false);
    let next = orchestration_step(
        &config,
        &mode,
        State::KillDiscovery,
        Event::Captured { code: None, output: "junk\n".to_string() },
    );
    assert_eq!(next.state, State::Done);
    assert_eq!(next.notices, vec![Notice::NoSessionsToKill]);
    assert_eq!(next.action, Action::Exit(0));

    let (config, mode) = orchestration_setup(&["user@host", "--attach"], false);
    let next = orchestration_step(
        &config,
        &mode,
        State::AttachDiscovery,
        orchestration_captured(255, "junk\n"),
    );
    assert_eq!(next.state, State::Attaching);
    assert_eq!(next.notices, vec![Notice::WillCreate("default_alice".to_string())]);
    assert_eq!(next.action, orchestration_attach_call("default_alice"));
}

#[test]
fn discovery_that_reports_127_gives_the_hint() {
    let (config, mode) = orchestration_setup(&["user@host", "--list"], false);
    let next = orchestration_step(&config, &mode, State::Listing, orchestration_captured(127, ""));
    assert_eq!(next.notices, vec![Notice::InstallHint, Notice::NoSessions]);
    assert_eq!(next.action, Action::Exit(0));

    let (config, mode) = orchestration_setup(&["user@host", "--kill"], false);
    let next =
        orchestration_step(&config, &mode, State::KillDiscovery, orchestration_captured(127, ""));
    assert_eq!(next.notices, vec![Notice::InstallHint, Notice::NoSessionsToKill]);
    assert_eq!(next.action, Action::Exit(0));

    let (config, mode) = orchestration_setup(&["user@host", "--attach"], false);
    let next = orchestration_step(
        &config,
        &mode,
        State::AttachDiscovery,
        orchestration_captured(127, ""),
    );
    assert_eq!(next.state, State::Done);
    assert_eq!(
        next.notices,
        vec![Notice::InstallHint, Notice::Failure(VigilError::RemoteNotFound)]
    );
    assert_eq!(next.action, Action::Exit(127));
}

#[test]
fn attach_without_name_selects_among_sessions() {
    let (config, mode) = orchestration_setup(&["user@host", "--attach"], false);
    assert_eq!(mode, Mode::Attach(Target::Unnamed));
    let first = orchestration_step(&config, &mode, State::Start, Event::Begin);
    assert_eq!(first.state, State::AttachDiscovery);
    assert_eq!(first.action, orchestration_list_call());
    let second =
        orchestration_step(&config, &mode, first.state, orchestration_captured(0, "x\ny\n"));
    assert_eq!(second.state, State::AttachSelection(orchestration_strings(&["x", "y"])));
    assert_eq!(
        second.action,
        Action::Ask(
            "[vigil] Select a session to attach:\n  1. x\n  2. y\nEnter number (or press Enter for 1): "
                .to_string()
        )
    );
    let third = orchestration_step(&config, &mode, second.state, Event::Line("2\n".to_string()));
    assert_eq!(third.state, State::Attaching);
    assert_eq!(third.action, orchestration_attach_call("y"));
}

#[test]
fn attach_failure_is_fatal_and_propagates_the_status() {
    let (config, mode) = orchestration_setup(&["user@host"], false);
    let next =
        orchestration_step(&config, &mode, State::Attaching, Event::Exited { code: Some(3) });
    assert_eq!(next.state, State::Done);
    assert_eq!(
        next.notices,
        vec![Notice::Failure(VigilError::RemoteFailed { code: Some(3) })]
    );
    assert_eq!(next.action, Action::Exit(3));
    let next =
        orchestration_step(&config, &mode, State::Attaching, Event::Exited { code: Some(127) });
    assert_eq!(
        next.notices,
        vec![Notice::InstallHint, Notice::Failure(VigilError::RemoteNotFound)]
    );
    assert_eq!(next.action, Action::Exit(127));
    let next = orchestration_step(&config, &mode, State::Attaching, Event::Exited { code: None });
    assert_eq!(next.notices, vec![Notice::Failure(VigilError::RemoteFailed { code: None })]);
    assert_eq!(next.action, Action::Exit(1));
}

#[test]
fn spawn_failure_is_fatal() {
    let (config, mode) = orchestration_setup(&["user@host", "--list"], false);
    for state in [
        State::Listing,
        State::KillDiscovery,
        State::AttachDiscovery,
        State::Killing("x".to_string()),
        State::Attaching,
    ] {
        let next = orchestration_step(
            &config,
            &mode,
            state,
            Event::SpawnFailed { detail: "No such file or directory".to_string() },
        );
        assert_eq!(next.state, State::Done);
        assert_eq!(
            next.notices,
            vec![Notice::Failure(VigilError::Spawn {
                program: "ssh".to_string(),
                detail: "No such file or directory".to_string(),
            })]
        );
        assert_eq!(next.action, Action::Exit(1));
    }
}

#[test]
fn read_failure_is_fatal() {
    let (config, mode) = orchestration_setup(&["user@host", "--kill"], false);
    for state in [
        State::KillSelection(orchestration_strings(&["a"])),
        State::AttachSelection(orchestration_strings(&["a"])),
    ] {
        let next = orchestration_step(&config, &mode, state, Event::ReadFailed);
        assert_eq!(next.state, State::Done);
        assert_eq!(next.notices, vec![Notice::Failure(VigilError::ReadFailed)]);
        assert_eq!(next.action, Action::Exit(1));
    }
}

#[test]
fn debug_tracing_lists_first_and_keeps_the_mode() {
    let (config, mode) = orchestration_setup(&["user@host", "--kill", "old"], true);
    assert!(config.debug);
    let first = orchestration_step(&config, &mode, State::Start, Event::Begin);
    assert_eq!(first.state, State::Tracing);
    assert!(first.notices.is_empty());
    assert_eq!(first.action, orchestration_list_call());
    let second =
        orchestration_step(&config, &mode, first.state, orchestration_captured(0, "a\nb\n"));
    assert_eq!(second.state, State::Killing("old".to_string()));
    assert_eq!(second.notices, vec![Notice::Trace(2)]);
    assert_eq!(second.action, orchestration_kill_call("old"));

    let traced = orchestration_step(
        &config,
        &mode,
        State::Tracing,
        Event::SpawnFailed { detail: "gone".to_string() },
    );
    assert_eq!(traced.state, State::Killing("old".to_string()));
    assert_eq!(traced.notices, vec![Notice::Trace(0)]);
    assert_eq!(traced.action, orchestration_kill_call("old"));

    let traced =
        orchestration_step(&config, &mode, State::Tracing, orchestration_captured(127, "a\n"));
    assert_eq!(traced.notices, vec![Notice::Trace(0)]);
}

#[test]
fn events_that_a_state_does_not_wait_for_give_no_step() {
    let (config, mode) = orchestration_setup(&["user@host"], false);
    assert_eq!(step(&config, &mode, State::Done, Event::Begin), None);
    assert_eq!(step(&config, &mode, State::Start, Event::ReadFailed), None);
    assert_eq!(step(&config, &mode, State::Start, Event::Exited { code: Some(0) }), None);
    assert_eq!(step(&config, &mode, State::Listing, Event::Exited { code: Some(0) }), None);
    assert_eq!(step(&config, &mode, State::Attaching, orchestration_captured(0, "")), None);
    assert_eq!(step(&config, &mode, State::Attaching, Event::Line("1".to_string())), None);
    assert_eq!(
        step(&config, &mode, State::KillSelection(Vec::new()), Event::Exited { code: None }),
        None
    );
    assert_eq!(
        step(
            &config,
            &mode,
            State::AttachSelection(Vec::new()),
            Event::SpawnFailed { detail: String::new() }
        ),
        None
    );
}

#[test]
fn list_has_priority_over_kill_and_kill_over_attach() {
    let cli = orchestration_cli(&["user@host", "--attach", "a", "--kill", "k", "--list"]);
    assert_eq!(select_mode(&cli), Mode::List);
    let cli = orchestration_cli(&["user@host", "--attach", "a", "--kill", "k"]);
    assert_eq!(select_mode(&cli), Mode::Kill(Some("k".to_string())));
    let cli = orchestration_cli(&["user@host", "--attach", "a", "--kill"]);
    assert_eq!(select_mode(&cli), Mode::Kill(None));
    let cli = orchestration_cli(&["user@host", "--attach", "a"]);
    assert_eq!(select_mode(&cli), Mode::Attach(Target::Named("a".to_string())));
    let cli = orchestration_cli(&["user@host", "--attach"]);
    assert_eq!(select_mode(&cli), Mode::Attach(Target::Unnamed));
    let cli = orchestration_cli(&["user@host"]);
    assert_eq!(select_mode(&cli), Mode::Attach(Target::Unset));
}

#[test]
fn notices_render_as_tagged_lines() {
    assert_eq!(Notice::Session("main".to_string()).line(), "main");
    assert!(Notice::Session("main".to_string()).is_primary());
    assert_eq!(Notice::NoSessions.line(), "[vigil] No tmux sessions found remotely.");
    assert!(!Notice::NoSessions.is_primary());
    assert_eq!(
        Notice::NoSessionsToKill.line(),
        "[vigil] No tmux sessions found remotely to kill."
    );
    assert_eq!(
        Notice::WillCreate("default_alice".to_string()).line(),
        "[vigil] No tmux sessions found remotely; will create/attach to 'default_alice'."
    );
    assert_eq!(Notice::Killed("old".to_string()).line(), "[vigil] Killed session 'old'.");
    assert_eq!(Notice::Trace(12).line(), "[vigil] debug: remote sessions found: 12");
    assert_eq!(
        Notice::InstallHint.line(),
        "[vigil] tmux not found on remote host.\n  - Debian/Ubuntu: sudo apt-get install tmux\n  - RHEL/CentOS/Fedora: sudo yum install tmux (or dnf)\n  - macOS (Homebrew): brew install tmux"
    );
    assert_eq!(
        Notice::Failure(VigilError::InvalidSelection).line(),
        "[vigil] ERROR: invalid selection"
    );
    assert!(!Notice::Failure(VigilError::InvalidSelection).is_primary());
}
