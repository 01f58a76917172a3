//! The configuration of one run, built once and read-only afterwards.

use vstd::prelude::*;
use vstd::string::StringExecFns;

verus! {

/// Core configuration of a run.
#[derive(Debug, Clone, PartialEq, Eq)]
pub struct Config {
    /// Base session name.
    pub session: String,
    /// Whether the session name was explicitly provided by the user.
    pub session_provided: bool,
    /// Multiplexer binary on the remote host.
    pub tmux_bin: String,
    /// Extra arguments for the session-create command, as one string.
    pub tmux_args: String,
    /// The remote-execution program.
    pub ssh_prog: String,
    /// Its arguments, before the remote command is appended.
    pub ssh_args: Vec<String>,
    /// The local user name.
    pub local_user: String,
    /// Whether debug tracing is on.
    pub debug: bool,
}

/// The mathematical value of a [`Config`].
pub struct ConfigView {
    pub session: Seq<char>,
    pub session_provided: bool,
    pub tmux_bin: Seq<char>,
    pub tmux_args: Seq<char>,
    pub ssh_prog: Seq<char>,
    pub ssh_args: Seq<Seq<char>>,
    pub local_user: Seq<char>,
    pub debug: bool,
}

impl View for Config {
    type V = ConfigView;

    open spec fn view(&self) -> ConfigView {
        ConfigView {
            session: self.session@,
            session_provided: self.session_provided,
            tmux_bin: self.tmux_bin@,
            tmux_args: self.tmux_args@,
            ssh_prog: self.ssh_prog@,
            ssh_args: self.ssh_args.deep_view(),
            local_user: self.local_user@,
            debug: self.debug,
        }
    }
}

/// The tag that marks the tool's own lines on the diagnostic stream.
pub open spec fn tag() -> Seq<char> {
    "[vigil] "@
}

/// The session name used when none is chosen: the base name, an underscore
/// and the local user name.
pub open spec fn default_session(c: ConfigView) -> Seq<char> {
    c.session + "_"@ + c.local_user
}

impl Config {
    pub fn new(
        session: String,
        session_provided: bool,
        tmux_bin: String,
        tmux_args: String,
        ssh_prog: String,
        ssh_args: Vec<String>,
        local_user: String,
        debug: bool,
    ) -> (r: Self)
        ensures
            r@ == (ConfigView {
                session: session@,
                session_provided,
                tmux_bin: tmux_bin@,
                tmux_args: tmux_args@,
                ssh_prog: ssh_prog@,
                ssh_args: ssh_args.deep_view(),
                local_user: local_user@,
                debug,
            }),
    {
        Config {
            session,
            session_provided,
            tmux_bin,
            tmux_args,
            ssh_prog,
            ssh_args,
            local_user,
            debug,
        }
    }

    /// The line that debug tracing writes for `msg`: the tagged message when
    /// tracing is on, nothing when it is off.
    pub fn debug_line(&self, msg: &str) -> (r: Option<String>)
        ensures
            match r {
                Some(line) => self.debug && line@ == tag() + msg@,
                None => !self.debug,
            },
    {
        if self.debug {
            let mut line = String::from_str("[vigil] ");
            line.append(msg);
            Some(line)
        } else {
            None
        }
    }

    /// The session name used when none is chosen.
    pub fn default_session_name(&self) -> (r: String)
        ensures
            r@ == default_session(self@),
    {
        let mut name = self.session.clone();
        name.append("_");
        name.append(self.local_user.as_str());
        name
    }
}

} // verus!
