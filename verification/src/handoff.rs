//! What is handed to the VPN client: its argument list, and the credentials
//! that it reads from its standard input.

use crate::config::{Config, ConfigView};
use crate::constant::{CLIENT_PROGRAM, MODE_ONCE, MODE_WATCH, ROUTING_HELPER};
use crate::invocation::{Invocation, InvocationView};
use vstd::prelude::*;

verus! {

/// Flag that precedes the user identity.
pub const FLAG_USER: &'static str = "--user";

/// Flag that makes the client read the credentials from its standard input.
pub const FLAG_PASSWD_ON_STDIN: &'static str = "--passwd-on-stdin";

/// Flag that precedes the routing script.
pub const FLAG_SCRIPT: &'static str = "--script";

/// Flag that makes the client detach once the session stands.
pub const FLAG_BACKGROUND: &'static str = "--background";

/// How the client is supervised.
#[derive(Debug, Clone, Copy, PartialEq, Eq, Structural)]
pub enum Mode {
    /// Start the client detached, report its process identifier and return.
    Once,
    /// Start the client attached and wait until it exits.
    Watch,
    /// Any other mode name: the client is started attached and not waited
    /// for.
    Other,
}

/// The mode that a name selects.
pub open spec fn mode_named(name: Seq<char>) -> Mode {
    if name == MODE_ONCE@ {
        Mode::Once
    } else if name == MODE_WATCH@ {
        Mode::Watch
    } else {
        Mode::Other
    }
}

impl Mode {
    /// The mode that `name` selects: `once`, `watch`, or neither.
    pub fn from_name(name: &str) -> (mode: Mode)
        ensures
            mode == mode_named(name@),
    {
        let name = name.to_owned();
        if name == MODE_ONCE.to_owned() {
            Mode::Once
        } else if name == MODE_WATCH.to_owned() {
            Mode::Watch
        } else {
            Mode::Other
        }
    }
}

/// The routing script for a route specification: the helper's name, a space,
/// and the specification.
pub open spec fn script_for(route: Seq<char>) -> Seq<char> {
    ROUTING_HELPER@ + " "@ + route
}

/// The client's arguments: the user, the flag for credentials on standard
/// input, the routing script, the detach flag in mode `Once` only, and the
/// host last.
pub open spec fn client_args(config: ConfigView, mode: Mode) -> Seq<Seq<char>> {
    let fixed = seq![
        FLAG_USER@,
        config.username,
        FLAG_PASSWD_ON_STDIN@,
        FLAG_SCRIPT@,
        script_for(config.route_cidr),
    ];
    if mode == Mode::Once {
        fixed.push(FLAG_BACKGROUND@).push(config.host)
    } else {
        fixed.push(config.host)
    }
}

/// How the client is run for a configuration in a mode.
pub open spec fn client_invocation(config: ConfigView, mode: Mode) -> InvocationView {
    InvocationView { program: CLIENT_PROGRAM@, args: client_args(config, mode) }
}

/// What the client reads from its standard input: the password and the code
/// right behind it, with nothing between them and nothing after.
pub open spec fn credentials(password: Seq<char>, code: Seq<char>) -> Seq<char> {
    password + code
}

/// The routing script for a route specification.
pub fn routing_script(route: &str) -> (script: String)
    ensures
        script@ == script_for(route@),
{
    ROUTING_HELPER.to_owned().concat(" ").concat(route)
}

/// The client's invocation for a configuration in a mode.
pub fn invocation(config: &Config, mode: Mode) -> (inv: Invocation)
    ensures
        inv@ == client_invocation(config@, mode),
{
    let mut inv = Invocation::new(CLIENT_PROGRAM);
    inv.arg(FLAG_USER);
    inv.arg(config.username.as_str());
    inv.arg(FLAG_PASSWD_ON_STDIN);
    inv.arg(FLAG_SCRIPT);
    inv.arg(routing_script(config.route_cidr.as_str()).as_str());
    if mode == Mode::Once {
        inv.arg(FLAG_BACKGROUND);
    }
    inv.arg(config.host.as_str());
    assert(inv@.args =~= client_args(config@, mode));
    inv
}

/// The text written to the client's standard input.
pub fn stdin_payload(password: &str, code: &str) -> (payload: String)
    ensures
        payload@ == credentials(password@, code@),
{
    password.to_owned().concat(code)
}

/// The mathematical value of a [`Handoff`].
pub ghost struct HandoffView {
    pub invocation: InvocationView,
    pub payload: Seq<char>,
}

/// All that one connection attempt hands to the client.
#[derive(Debug, PartialEq, Eq)]
pub struct Handoff {
    pub invocation: Invocation,
    pub payload: String,
}

impl View for Handoff {
    type V = HandoffView;

    open spec fn view(&self) -> HandoffView {
        HandoffView { invocation: self.invocation@, payload: self.payload@ }
    }
}

/// The hand-off for a configuration, a mode and a code.
pub open spec fn handoff_for(config: ConfigView, mode: Mode, code: Seq<char>) -> HandoffView {
    HandoffView {
        invocation: client_invocation(config, mode),
        payload: credentials(config.password, code),
    }
}

/// Assembles the hand-off from a configuration, a mode and a code that was
/// computed already.
pub fn prepare(config: &Config, mode: Mode, code: &str) -> (handoff: Handoff)
    ensures
        handoff@ == handoff_for(config@, mode, code@),
{
    Handoff {
        invocation: invocation(config, mode),
        payload: stdin_payload(config.password.as_str(), code),
    }
}

/// The host is always the last argument, and the detach flag stands right
/// before it in mode `Once`; in the other modes the list has no place for
/// it.
pub proof fn lemma_detach_flag_in_once_only(config: ConfigView, mode: Mode)
    ensures
        client_args(config, mode).last() == config.host,
        mode == Mode::Once ==> client_args(config, mode).len() == 7 && client_args(config, mode)[5]
            == FLAG_BACKGROUND@,
        mode != Mode::Once ==> client_args(config, mode).len() == 6,
{
}

/// The credentials begin with the whole password and end with the whole
/// code, and hold nothing else.
pub proof fn lemma_credentials_hold_nothing_else(password: Seq<char>, code: Seq<char>)
    ensures
        credentials(password, code).len() == password.len() + code.len(),
        credentials(password, code).subrange(0, password.len() as int) == password,
        credentials(password, code).subrange(
            password.len() as int,
            credentials(password, code).len() as int,
        ) == code,
{
    let all = credentials(password, code);
    assert(all.subrange(0, password.len() as int) =~= password);
    assert(all.subrange(password.len() as int, all.len() as int) =~= code);
}

} // verus!
