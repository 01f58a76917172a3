//! The command-line options and the tolerant scan that finds the tool's own
//! flags among the trailing SSH arguments.

use vstd::prelude::*;
use crate::config::{Config, ConfigView};
use crate::error::{VigilError, VigilErrorView};
use crate::ssh::infer_ssh_prog;
use crate::text::str_eq;
use crate::util::{get_local_username, local_username};

verus! {

/// A mode flag that may carry a session name.
#[derive(Debug, PartialEq, Eq)]
pub enum Target {
    /// The flag was not given.
    Unset,
    /// The flag was given without a name.
    Unnamed,
    /// The flag was given with this name.
    Named(String),
}

/// The mathematical value of a [`Target`].
pub enum TargetView {
    Unset,
    Unnamed,
    Named(Seq<char>),
}

impl View for Target {
    type V = TargetView;

    open spec fn view(&self) -> TargetView {
        match self {
            Target::Unset => TargetView::Unset,
            Target::Unnamed => TargetView::Unnamed,
            Target::Named(name) => TargetView::Named(name@),
        }
    }
}

impl Target {
    /// Whether the flag was given, with or without a name.
    pub fn is_set(&self) -> (r: bool)
        ensures
            r == !(self@ is Unset),
    {
        match self {
            Target::Unset => false,
            _ => true,
        }
    }
}

/// The parsed command line.
#[derive(Debug, PartialEq, Eq)]
pub struct Cli {
    /// Base session name, to be suffixed with the local user.
    pub session: String,
    /// Whether the base session name was given on the command line.
    pub session_provided: bool,
    /// Multiplexer binary on the remote host.
    pub tmux_bin: String,
    /// Extra arguments for the session-create command, as one string.
    pub tmux_args: String,
    /// Attach to a session, optionally by name.
    pub attach: Target,
    /// Kill a session, optionally by name.
    pub kill: Target,
    /// List the remote sessions and exit.
    pub list: bool,
    /// SSH arguments and destination.
    pub ssh_args: Vec<String>,
}

/// The mathematical value of a [`Cli`].
pub struct CliView {
    pub session: Seq<char>,
    pub session_provided: bool,
    pub tmux_bin: Seq<char>,
    pub tmux_args: Seq<char>,
    pub attach: TargetView,
    pub kill: TargetView,
    pub list: bool,
    pub ssh_args: Seq<Seq<char>>,
}

impl View for Cli {
    type V = CliView;

    open spec fn view(&self) -> CliView {
        CliView {
            session: self.session@,
            session_provided: self.session_provided,
            tmux_bin: self.tmux_bin@,
            tmux_args: self.tmux_args@,
            attach: self.attach@,
            kill: self.kill@,
            list: self.list,
            ssh_args: self.ssh_args.deep_view(),
        }
    }
}

/// What the process environment holds for a run.
#[derive(Debug, PartialEq, Eq)]
pub struct Environment {
    /// Whether the remote-execution program can be started.
    pub ssh_available: bool,
    /// The value of `USER`, if it is set.
    pub user: Option<String>,
    /// The value of `LOGNAME`, if it is set.
    pub logname: Option<String>,
    /// Whether debug tracing is asked for.
    pub debug: bool,
}

/// The mathematical value of an [`Environment`].
pub struct EnvironmentView {
    pub ssh_available: bool,
    pub user: Option<Seq<char>>,
    pub logname: Option<Seq<char>>,
    pub debug: bool,
}

impl View for Environment {
    type V = EnvironmentView;

    open spec fn view(&self) -> EnvironmentView {
        EnvironmentView {
            ssh_available: self.ssh_available,
            user: match self.user {
                Some(u) => Some(u@),
                None => None,
            },
            logname: match self.logname {
                Some(l) => Some(l@),
                None => None,
            },
            debug: self.debug,
        }
    }
}

/// The configuration that a command line and an environment give.
pub open spec fn config_of(c: CliView, env: EnvironmentView) -> ConfigView {
    ConfigView {
        session: c.session,
        session_provided: c.session_provided,
        tmux_bin: c.tmux_bin,
        tmux_args: c.tmux_args,
        ssh_prog: "ssh"@,
        ssh_args: c.ssh_args,
        local_user: local_username(env.user, env.logname),
        debug: env.debug,
    }
}

/// The token that asks for the session list.
pub open spec fn is_list_flag(t: Seq<char>) -> bool {
    t == "--list"@
}

/// The token that asks to attach, or its alias.
pub open spec fn is_attach_flag(t: Seq<char>) -> bool {
    t == "--attach"@ || t == "--select"@
}

/// The token that asks to kill a session.
pub open spec fn is_kill_flag(t: Seq<char>) -> bool {
    t == "--kill"@
}

/// A token that asks SSH to allocate a terminal.
pub open spec fn is_tty_flag(t: Seq<char>) -> bool {
    t == "-t"@ || t == "-tt"@
}

/// Whether some token asks SSH to allocate a terminal.
pub open spec fn has_tty_flag(toks: Seq<Seq<char>>) -> bool {
    exists|i: int| 0 <= i < toks.len() && is_tty_flag(#[trigger] toks[i])
}

/// Whether a token that follows a mode flag is taken as a session name: it
/// does not start with `-` and holds neither `@` nor `:`.
pub open spec fn looks_like_name(t: Seq<char>) -> bool {
    &&& !(t.len() > 0 && t[0] == '-')
    &&& !t.contains('@')
    &&& !t.contains(':')
}

/// What a scan leaves: the tokens it kept and the three mode fields.
pub struct Scan {
    pub tokens: Seq<Seq<char>>,
    pub list: bool,
    pub attach: TargetView,
    pub kill: TargetView,
}

/// The target that a mode flag records when `rest` follows it.
pub open spec fn flag_target(rest: Seq<Seq<char>>) -> TargetView {
    if rest.len() > 0 && looks_like_name(rest[0]) {
        TargetView::Named(rest[0])
    } else {
        TargetView::Unnamed
    }
}

/// What follows a mode flag once its name, if it has one, is taken away.
pub open spec fn after_flag(rest: Seq<Seq<char>>) -> Seq<Seq<char>> {
    if rest.len() > 0 && looks_like_name(rest[0]) {
        rest.drop_first()
    } else {
        rest
    }
}

/// The left-to-right scan of `toks`, starting from the given mode fields. A
/// mode flag whose mode is still unset is taken out, with the name behind it
/// if there is one; every other token is kept.
pub open spec fn scan(
    toks: Seq<Seq<char>>,
    list: bool,
    attach: TargetView,
    kill: TargetView,
) -> Scan
    decreases toks.len(),
{
    if toks.len() == 0 {
        Scan { tokens: Seq::empty(), list, attach, kill }
    } else {
        let rest = toks.drop_first();
        if is_list_flag(toks[0]) && !list {
            scan(rest, true, attach, kill)
        } else if is_attach_flag(toks[0]) && attach is Unset {
            scan(after_flag(rest), list, flag_target(rest), kill)
        } else if is_kill_flag(toks[0]) && kill is Unset {
            scan(after_flag(rest), list, attach, flag_target(rest))
        } else {
            let s = scan(rest, list, attach, kill);
            Scan { tokens: seq![toks[0]] + s.tokens, ..s }
        }
    }
}

/// The tokens with a terminal-allocation flag in front, unless one of them
/// is such a flag already.
pub open spec fn with_tty(toks: Seq<Seq<char>>) -> Seq<Seq<char>> {
    if has_tty_flag(toks) {
        toks
    } else {
        seq!["-t"@] + toks
    }
}

/// The command line after hoisting: the mode flags found among the SSH
/// arguments are moved into the mode fields, and terminal allocation is
/// requested.
pub open spec fn hoisted(c: CliView) -> CliView {
    let s = scan(c.ssh_args, c.list, c.attach, c.kill);
    CliView { attach: s.attach, kill: s.kill, list: s.list, ssh_args: with_tty(s.tokens), ..c }
}

/// Whether a token that follows a mode flag is taken as a session name.
pub fn token_is_name(t: &str) -> (r: bool)
    ensures
        r == looks_like_name(t@),
{
    let mut ok = true;
    let mut first = true;
    for c in it: t.chars()
        invariant
            it.seq() == t@,
            first == (it.index() == 0),
            ok == looks_like_name(t@.take(it.index())),
    {
        proof {
            let k = it.index();
            let a = t@.take(k);
            let b = t@.take(k + 1);
            assert(b =~= a.push(c));
            assert forall|x: char| b.contains(x) implies (a.contains(x) || x == c) by {
                let j = choose|j: int| 0 <= j < b.len() && b[j] == x;
                if j < k {
                    assert(a[j] == x);
                }
            }
            assert forall|x: char| (a.contains(x) || x == c) implies b.contains(x) by {
                if a.contains(x) {
                    let j = choose|j: int| 0 <= j < a.len() && a[j] == x;
                    assert(b[j] == x);
                } else {
                    assert(b[k] == x);
                }
            }
        }
        if c == '@' || c == ':' || (first && c == '-') {
            ok = false;
        }
        first = false;
    }
    assert(t@.take(t@.len() as int) == t@);
    ok
}

/// Whether some argument asks SSH to allocate a terminal.
pub fn any_tty_flag(args: &Vec<String>) -> (r: bool)
    ensures
        r == has_tty_flag(args.deep_view()),
{
    let mut i: usize = 0;
    while i < args.len()
        invariant
            i <= args.len(),
            forall|j: int| 0 <= j < i ==> !is_tty_flag(#[trigger] args.deep_view()[j]),
        decreases args.len() - i,
    {
        if str_eq(args[i].as_str(), "-t") || str_eq(args[i].as_str(), "-tt") {
            assert(is_tty_flag(args.deep_view()[i as int]));
            return true;
        }
        i += 1;
    }
    false
}

/// Takes the mode flag at `args[i]` away, and the session name behind it if
/// there is one, and returns the target that the flag records.
fn take_flag(args: &mut Vec<String>, i: usize) -> (r: Target)
    requires
        i < old(args).len(),
    ensures
        r@ == flag_target(old(args).deep_view().skip(i as int).drop_first()),
        final(args).deep_view() == old(args).deep_view().take(i as int) + after_flag(
            old(args).deep_view().skip(i as int).drop_first(),
        ),
{
    let ghost before = args.deep_view();
    args.remove(i);
    assert(args.deep_view() =~= before.take(i as int) + before.skip(i as int).drop_first());
    if i < args.len() && token_is_name(args[i].as_str()) {
        let ghost mid = args.deep_view();
        let name = args.remove(i);
        assert(args.deep_view() =~= before.take(i as int) + before.skip(
            i as int,
        ).drop_first().drop_first());
        assert(name@ == mid[i as int]);
        Target::Named(name)
    } else {
        Target::Unnamed
    }
}

/// Hoists the tool's own flags out of the trailing SSH arguments, wherever
/// they stand, and makes sure that terminal allocation is requested.
pub fn parse_args(parsed: Cli) -> (r: Result<Cli, VigilError>)
    ensures
        r matches Ok(c) && c@ == hoisted(parsed@),
{
    let ghost start = parsed@;
    let ghost goal = scan(start.ssh_args, start.list, start.attach, start.kill);
    let Cli { session, session_provided, tmux_bin, tmux_args, attach, kill, list, ssh_args } =
        parsed;
    let mut attach = attach;
    let mut kill = kill;
    let mut list = list;
    let mut args = ssh_args;
    let mut i: usize = 0;
    assert(args.deep_view().skip(0) =~= start.ssh_args);
    assert(args.deep_view().take(0) + goal.tokens =~= goal.tokens);
    while i < args.len()
        invariant
            i <= args.len(),
            goal == scan(start.ssh_args, start.list, start.attach, start.kill),
            ({
                let s = scan(args.deep_view().skip(i as int), list, attach@, kill@);
                &&& goal.tokens == args.deep_view().take(i as int) + s.tokens
                &&& goal.list == s.list
                &&& goal.attach == s.attach
                &&& goal.kill == s.kill
            }),
        decreases args.len() - i,
    {
        let ghost before = args.deep_view();
        let ghost toks = before.skip(i as int);
        assert(toks[0] == args[i as int]@);
        if str_eq(args[i].as_str(), "--list") && !list {
            list = true;
            args.remove(i);
            assert(args.deep_view().skip(i as int) =~= toks.drop_first());
            assert(args.deep_view().take(i as int) =~= before.take(i as int));
        } else if (str_eq(args[i].as_str(), "--attach") || str_eq(args[i].as_str(), "--select"))
            && !attach.is_set() {
            attach = take_flag(&mut args, i);
            assert(args.deep_view().skip(i as int) =~= after_flag(toks.drop_first()));
            assert(args.deep_view().take(i as int) =~= before.take(i as int));
        } else if str_eq(args[i].as_str(), "--kill") && !kill.is_set() {
            kill = take_flag(&mut args, i);
            assert(args.deep_view().skip(i as int) =~= after_flag(toks.drop_first()));
            assert(args.deep_view().take(i as int) =~= before.take(i as int));
        } else {
            let ghost s = scan(toks.drop_first(), list, attach@, kill@);
            assert(before.skip(i + 1) =~= toks.drop_first());
            assert(before.take(i + 1) + s.tokens =~= before.take(i as int) + (seq![toks[0]]
                + s.tokens));
            i += 1;
        }
    }
    proof {
        assert(args.deep_view().skip(i as int) =~= Seq::<Seq<char>>::empty());
        assert(goal.tokens =~= args.deep_view());
    }
    if !any_tty_flag(&args) {
        let ghost before = args.deep_view();
        args.insert(0, "-t".to_owned());
        assert(args.deep_view() =~= seq!["-t"@] + before);
    }
    let r = Cli {
        session,
        session_provided,
        tmux_bin,
        tmux_args,
        attach,
        kill,
        list,
        ssh_args: args,
    };
    assert(r@.ssh_args =~= hoisted(start).ssh_args);
    Ok(r)
}

impl Cli {
    /// Hoists the tool's own flags out of the trailing SSH arguments of an
    /// already parsed command line.
    pub fn parse_with_fallback(parsed: Cli) -> (r: Result<Cli, VigilError>)
        ensures
            r matches Ok(c) && c@ == hoisted(parsed@),
    {
        parse_args(parsed)
    }

    /// Builds the configuration of the run from the command line and from
    /// what the environment holds. Fails where the remote-execution program
    /// is not available.
    pub fn to_config(self, env: Environment) -> (r: Result<Config, VigilError>)
        ensures
            match r {
                Ok(c) => env.ssh_available && c@ == config_of(self@, env@),
                Err(e) => !env.ssh_available && e@ == VigilErrorView::SshMissing,
            },
    {
        if !env.ssh_available {
            return Err(VigilError::SshMissing);
        }
        let Environment { ssh_available: _, user, logname, debug } = env;
        let local_user = get_local_username(user, logname);
        match infer_ssh_prog(self.ssh_args.as_slice()) {
            Ok((ssh_prog, ssh_args)) => {
                assert(ssh_args.deep_view() =~= self.ssh_args.deep_view());
                Ok(
                    Config::new(
                        self.session,
                        self.session_provided,
                        self.tmux_bin,
                        self.tmux_args,
                        ssh_prog,
                        ssh_args,
                        local_user,
                        debug,
                    ),
                )
            },
            Err(e) => Err(e),
        }
    }
}

/// Whether the scan keeps the token `t` when it meets it with these mode
/// fields.
pub open spec fn kept(t: Seq<char>, list: bool, attach: TargetView, kill: TargetView) -> bool {
    &&& is_list_flag(t) ==> list
    &&& is_attach_flag(t) ==> !(attach is Unset)
    &&& is_kill_flag(t) ==> !(kill is Unset)
}

/// The flag tokens differ from each other, and each starts with a dash.
proof fn flags_are_distinct()
    ensures
        "--list"@ != "--attach"@,
        "--list"@ != "--select"@,
        "--list"@ != "--kill"@,
        "--kill"@ != "--attach"@,
        "--kill"@ != "--select"@,
        "-t"@ != "--list"@,
        "-t"@ != "--attach"@,
        "-t"@ != "--select"@,
        "-t"@ != "--kill"@,
        !looks_like_name("--list"@),
        !looks_like_name("--attach"@),
        !looks_like_name("--select"@),
        !looks_like_name("--kill"@),
{
    reveal_strlit("--list");
    reveal_strlit("--attach");
    reveal_strlit("--select");
    reveal_strlit("--kill");
    reveal_strlit("-t");
    assert("--list"@.len() == 6);
    assert("--attach"@.len() == 8);
    assert("--select"@.len() == 8);
    assert("--kill"@[2] == 'k');
    assert("--list"@[2] == 'l');
    assert("--attach"@[2] == 'a');
    assert("--select"@[2] == 's');
    assert("-t"@.len() == 2);
    assert("--list"@[0] == '-');
    assert("--attach"@[0] == '-');
    assert("--select"@[0] == '-');
    assert("--kill"@[0] == '-');
}

/// A mode that is set when the scan starts is still what it was when the
/// scan ends.
proof fn scan_keeps_set_modes(
    toks: Seq<Seq<char>>,
    list: bool,
    attach: TargetView,
    kill: TargetView,
)
    ensures
        list ==> scan(toks, list, attach, kill).list,
        !(attach is Unset) ==> scan(toks, list, attach, kill).attach == attach,
        !(kill is Unset) ==> scan(toks, list, attach, kill).kill == kill,
    decreases toks.len(),
{
    if toks.len() > 0 {
        let rest = toks.drop_first();
        if is_list_flag(toks[0]) && !list {
            scan_keeps_set_modes(rest, true, attach, kill);
        } else if is_attach_flag(toks[0]) && attach is Unset {
            scan_keeps_set_modes(after_flag(rest), list, flag_target(rest), kill);
        } else if is_kill_flag(toks[0]) && kill is Unset {
            scan_keeps_set_modes(after_flag(rest), list, attach, flag_target(rest));
        } else {
            scan_keeps_set_modes(rest, list, attach, kill);
        }
    }
}

/// Every token that the scan leaves is one that a scan from the final mode
/// fields keeps.
proof fn scan_leaves_kept_tokens(
    toks: Seq<Seq<char>>,
    list: bool,
    attach: TargetView,
    kill: TargetView,
)
    ensures
        ({
            let s = scan(toks, list, attach, kill);
            forall|i: int|
                0 <= i < s.tokens.len() ==> kept(#[trigger] s.tokens[i], s.list, s.attach, s.kill)
        }),
    decreases toks.len(),
{
    if toks.len() > 0 {
        let rest = toks.drop_first();
        if is_list_flag(toks[0]) && !list {
            scan_leaves_kept_tokens(rest, true, attach, kill);
        } else if is_attach_flag(toks[0]) && attach is Unset {
            scan_leaves_kept_tokens(after_flag(rest), list, flag_target(rest), kill);
        } else if is_kill_flag(toks[0]) && kill is Unset {
            scan_leaves_kept_tokens(after_flag(rest), list, attach, flag_target(rest));
        } else {
            scan_leaves_kept_tokens(rest, list, attach, kill);
            scan_keeps_set_modes(rest, list, attach, kill);
            let s = scan(rest, list, attach, kill);
            let t = scan(toks, list, attach, kill);
            assert forall|i: int| 0 <= i < t.tokens.len() implies kept(
                #[trigger] t.tokens[i],
                t.list,
                t.attach,
                t.kill,
            ) by {
                if i > 0 {
                    assert(t.tokens[i] == s.tokens[i - 1]);
                }
            }
        }
    }
}

/// A scan over tokens that it keeps, each of them, changes nothing.
proof fn scan_of_kept_tokens(
    toks: Seq<Seq<char>>,
    list: bool,
    attach: TargetView,
    kill: TargetView,
)
    requires
        forall|i: int| 0 <= i < toks.len() ==> kept(#[trigger] toks[i], list, attach, kill),
    ensures
        scan(toks, list, attach, kill) == (Scan { tokens: toks, list, attach, kill }),
    decreases toks.len(),
{
    if toks.len() > 0 {
        let rest = toks.drop_first();
        assert(kept(toks[0], list, attach, kill));
        assert forall|i: int| 0 <= i < rest.len() implies kept(
            #[trigger] rest[i],
            list,
            attach,
            kill,
        ) by {
            assert(rest[i] == toks[i + 1]);
        }
        scan_of_kept_tokens(rest, list, attach, kill);
        assert(seq![toks[0]] + rest =~= toks);
    } else {
        assert(toks =~= Seq::empty());
    }
}

/// After hoisting, terminal allocation is requested, and a mode flag stands
/// among the SSH arguments only where its mode was set before the scan came
/// to it: the scan would keep every token that is left.
pub proof fn hoisted_arguments_are_kept(c: CliView)
    ensures
        has_tty_flag(hoisted(c).ssh_args),
        forall|i: int|
            0 <= i < hoisted(c).ssh_args.len() ==> kept(
                #[trigger] hoisted(c).ssh_args[i],
                hoisted(c).list,
                hoisted(c).attach,
                hoisted(c).kill,
            ),
{
    let s = scan(c.ssh_args, c.list, c.attach, c.kill);
    let w = with_tty(s.tokens);
    scan_leaves_kept_tokens(c.ssh_args, c.list, c.attach, c.kill);
    flags_are_distinct();
    assert forall|i: int| 0 <= i < w.len() implies kept(#[trigger] w[i], s.list, s.attach, s.kill) by {
        if !has_tty_flag(s.tokens) && i > 0 {
            assert(w[i] == s.tokens[i - 1]);
        }
    }
    if !has_tty_flag(s.tokens) {
        assert(is_tty_flag(w[0]));
    }
}

/// Hoisting is idempotent: hoisting a command line that was hoisted already
/// gives that command line back, with the same tokens and the same modes.
pub proof fn hoisting_is_idempotent(c: CliView)
    ensures
        hoisted(hoisted(c)) == hoisted(c),
{
    let h = hoisted(c);
    hoisted_arguments_are_kept(c);
    scan_of_kept_tokens(h.ssh_args, h.list, h.attach, h.kill);
}

/// An attach flag (or its alias) that stands right before a session name
/// records that name, wherever the two stand among the tokens, as long as
/// attach mode is not set before the scan reaches them.
pub proof fn attach_flag_records_name(
    c: CliView,
    pre: Seq<Seq<char>>,
    flag: Seq<char>,
    name: Seq<char>,
    post: Seq<Seq<char>>,
)
    requires
        c.ssh_args == pre + seq![flag, name] + post,
        is_attach_flag(flag),
        looks_like_name(name),
        c.attach is Unset,
        forall|i: int| 0 <= i < pre.len() ==> !is_attach_flag(#[trigger] pre[i]),
    ensures
        hoisted(c).attach == TargetView::Named(name),
{
    scan_records_attach(pre, flag, name, post, c.list, c.kill);
}

/// A kill flag that stands right before a session name records that name,
/// wherever the two stand among the tokens, as long as kill mode is not set
/// before the scan reaches them.
pub proof fn kill_flag_records_name(
    c: CliView,
    pre: Seq<Seq<char>>,
    flag: Seq<char>,
    name: Seq<char>,
    post: Seq<Seq<char>>,
)
    requires
        c.ssh_args == pre + seq![flag, name] + post,
        is_kill_flag(flag),
        looks_like_name(name),
        c.kill is Unset,
        forall|i: int| 0 <= i < pre.len() ==> !is_kill_flag(#[trigger] pre[i]),
    ensures
        hoisted(c).kill == TargetView::Named(name),
{
    scan_records_kill(pre, flag, name, post, c.list, c.attach);
}

proof fn scan_records_attach(
    pre: Seq<Seq<char>>,
    flag: Seq<char>,
    name: Seq<char>,
    post: Seq<Seq<char>>,
    list: bool,
    kill: TargetView,
)
    requires
        is_attach_flag(flag),
        looks_like_name(name),
        forall|i: int| 0 <= i < pre.len() ==> !is_attach_flag(#[trigger] pre[i]),
    ensures
        scan(pre + seq![flag, name] + post, list, TargetView::Unset, kill).attach
            == TargetView::Named(name),
    decreases pre.len(),
{
    flags_are_distinct();
    let toks = pre + seq![flag, name] + post;
    let rest = toks.drop_first();
    if pre.len() == 0 {
        assert(toks[0] == flag);
        assert(rest[0] == name);
        scan_keeps_set_modes(after_flag(rest), list, TargetView::Named(name), kill);
    } else {
        let shorter = pre.drop_first();
        assert(toks[0] == pre[0]);
        assert(rest =~= shorter + seq![flag, name] + post);
        assert forall|i: int| 0 <= i < shorter.len() implies !is_attach_flag(
            #[trigger] shorter[i],
        ) by {
            assert(shorter[i] == pre[i + 1]);
        }
        if is_list_flag(toks[0]) && !list {
            scan_records_attach(shorter, flag, name, post, true, kill);
        } else if is_kill_flag(toks[0]) && kill is Unset {
            if looks_like_name(rest[0]) {
                assert(shorter.len() > 0) by {
                    if shorter.len() == 0 {
                        assert(rest[0] == flag);
                    }
                }
                let shortest = shorter.drop_first();
                assert(rest.drop_first() =~= shortest + seq![flag, name] + post);
                assert forall|i: int| 0 <= i < shortest.len() implies !is_attach_flag(
                    #[trigger] shortest[i],
                ) by {
                    assert(shortest[i] == shorter[i + 1]);
                }
                scan_records_attach(shortest, flag, name, post, list, flag_target(rest));
            } else {
                scan_records_attach(shorter, flag, name, post, list, flag_target(rest));
            }
        } else {
            scan_records_attach(shorter, flag, name, post, list, kill);
        }
    }
}

proof fn scan_records_kill(
    pre: Seq<Seq<char>>,
    flag: Seq<char>,
    name: Seq<char>,
    post: Seq<Seq<char>>,
    list: bool,
    attach: TargetView,
)
    requires
        is_kill_flag(flag),
        looks_like_name(name),
        forall|i: int| 0 <= i < pre.len() ==> !is_kill_flag(#[trigger] pre[i]),
    ensures
        scan(pre + seq![flag, name] + post, list, attach, TargetView::Unset).kill
            == TargetView::Named(name),
    decreases pre.len(),
{
    flags_are_distinct();
    let toks = pre + seq![flag, name] + post;
    let rest = toks.drop_first();
    if pre.len() == 0 {
        assert(toks[0] == flag);
        assert(rest[0] == name);
        scan_keeps_set_modes(after_flag(rest), list, attach, TargetView::Named(name));
    } else {
        let shorter = pre.drop_first();
        assert(toks[0] == pre[0]);
        assert(rest =~= shorter + seq![flag, name] + post);
        assert forall|i: int| 0 <= i < shorter.len() implies !is_kill_flag(
            #[trigger] shorter[i],
        ) by {
            assert(shorter[i] == pre[i + 1]);
        }
        if is_list_flag(toks[0]) && !list {
            scan_records_kill(shorter, flag, name, post, true, attach);
        } else if is_attach_flag(toks[0]) && attach is Unset {
            if looks_like_name(rest[0]) {
                assert(shorter.len() > 0) by {
                    if shorter.len() == 0 {
                        assert(rest[0] == flag);
                    }
                }
                let shortest = shorter.drop_first();
                assert(rest.drop_first() =~= shortest + seq![flag, name] + post);
                assert forall|i: int| 0 <= i < shortest.len() implies !is_kill_flag(
                    #[trigger] shortest[i],
                ) by {
                    assert(shortest[i] == shorter[i + 1]);
                }
                scan_records_kill(shortest, flag, name, post, list, flag_target(rest));
            } else {
                scan_records_kill(shorter, flag, name, post, list, flag_target(rest));
            }
        } else {
            scan_records_kill(shorter, flag, name, post, list, attach);
        }
    }
}

} // verus!
