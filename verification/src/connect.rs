//! One connection attempt from the environment to the hand-off.

use crate::config::{configured, first_missing, Config, ConfigError, ConfigView, Environment};
use crate::handoff::{handoff_for, mode_named, prepare, Handoff, Mode};
use crate::otp::{
    expected_code, generate_code, generate_current_code, is_decimal, secret_fault, CodeError,
    CodeFault, DIGITS, STEP,
};
use crate::session::{Phase, Session};
use vstd::prelude::*;

verus! {

/// Why no connection was attempted.
#[derive(Debug)]
pub enum ConnectError {
    /// The environment does not configure a connection.
    Config(ConfigError),
    /// The configured secret yields no code.
    Code(CodeError),
}

/// The text shown for an error.
pub open spec fn connect_error_text(e: ConnectError) -> Seq<char> {
    match e {
        ConnectError::Config(e) => e.key() + " not set"@,
        ConnectError::Code(e) => e.cause@,
    }
}

impl ConnectError {
    /// The text shown for this error.
    pub fn message(&self) -> (text: String)
        ensures
            text@ == connect_error_text(*self),
    {
        match self {
            ConnectError::Config(e) => e.message(),
            ConnectError::Code(e) => e.message(),
        }
    }
}

/// An attempt that is ready to start: what to hand to the client, and the
/// session that supervises it.
#[derive(Debug)]
pub struct Connection {
    pub handoff: Handoff,
    pub session: Session,
}

impl Connection {
    /// The attempt stands at its start, in the mode named `mode`, with the
    /// hand-off for `config` and `code`.
    pub open spec fn starts(&self, mode: Seq<char>, config: ConfigView, code: Seq<char>) -> bool {
        &&& self.handoff@ == handoff_for(config, mode_named(mode), code)
        &&& self.session.mode_of() == mode_named(mode)
        &&& self.session.phase_of() == Phase::Idle
    }

    /// The attempt stands at its start, in the mode named `mode`, with the
    /// hand-off for what `env` configures and `code`.
    pub open spec fn is_start(
        &self,
        mode: Seq<char>,
        env: Map<Seq<char>, Seq<char>>,
        code: Seq<char>,
    ) -> bool {
        self.starts(mode, configured(env), code)
    }

    /// The attempt in the mode named `mode` for a configuration and a code
    /// that was computed already.
    pub fn new(mode: &str, config: &Config, code: &str) -> (connection: Connection)
        ensures
            connection.starts(mode@, config@, code@),
    {
        let selected = Mode::from_name(mode);
        Connection { handoff: prepare(config, selected, code), session: Session::new(selected) }
    }
}

fn configuration(env: &Environment) -> (r: Result<Config, ConnectError>)
    ensures
        match r {
            Ok(config) => first_missing(env@) is None && config@ == configured(env@),
            Err(ConnectError::Config(e)) => first_missing(env@) == Some(e.key()),
            Err(ConnectError::Code(_)) => false,
        },
{
    match Config::from_env(env) {
        Ok(config) => Ok(config),
        Err(e) => Err(ConnectError::Config(e)),
    }
}

fn code_or_error(r: Result<String, CodeError>) -> (code: Result<String, ConnectError>)
    ensures
        match (r, code) {
            (Ok(before), Ok(after)) => after@ == before@,
            (Err(before), Err(ConnectError::Code(after))) => after == before,
            _ => false,
        },
{
    match r {
        Ok(code) => Ok(code),
        Err(e) => Err(ConnectError::Code(e)),
    }
}

/// Prepares a connection in the mode named `mode` from `env`, with the code
/// of the configured secret at the Unix time `time`.
///
/// It fails with the first missing variable, and else with the fault of the
/// secret; in all other cases it succeeds. The code that is handed over has
/// six decimal digits and is the same at every time of the same
/// thirty-second step.
pub fn connect_vpn_at(mode: &str, env: &Environment, time: u64) -> (r: Result<
    Connection,
    ConnectError,
>)
    ensures
        match r {
            Ok(connection) => {
                let secret = configured(env@).totp_secret;
                &&& first_missing(env@) is None
                &&& expected_code(secret, time) is Ok
                &&& is_decimal(expected_code(secret, time)->Ok_0, DIGITS)
                &&& connection.is_start(mode@, env@, expected_code(secret, time)->Ok_0)
                &&& forall|t: u64|
                    t / STEP == time / STEP ==> #[trigger] expected_code(secret, t)
                        == expected_code(secret, time)
            },
            Err(ConnectError::Config(e)) => first_missing(env@) == Some(e.key()),
            Err(ConnectError::Code(e)) => {
                &&& first_missing(env@) is None
                &&& expected_code(configured(env@).totp_secret, time) == Err::<
                    Seq<char>,
                    CodeFault,
                >(e.fault)
            },
        },
{
    let config = configuration(env)?;
    let code = code_or_error(generate_code(config.totp_secret.as_str(), time))?;
    Ok(Connection::new(mode, &config, code.as_str()))
}

/// Prepares a connection in the mode named `mode` from `env`, with the code
/// of the configured secret at the time that the system clock shows.
///
/// It fails with the first missing variable, and else with the fault of the
/// secret. Where neither stands in the way, the outcome is the connection
/// with the code of the configured secret at some Unix time, the one that
/// the clock showed, or `Clock`.
pub fn connect_vpn(mode: &str, env: &Environment) -> (r: Result<Connection, ConnectError>)
    ensures
        match r {
            Ok(connection) => {
                let secret = configured(env@).totp_secret;
                &&& first_missing(env@) is None
                &&& secret_fault(secret) is None
                &&& exists|t: u64|
                    {
                        &&& #[trigger] expected_code(secret, t) is Ok
                        &&& is_decimal(expected_code(secret, t)->Ok_0, DIGITS)
                        &&& connection.is_start(mode@, env@, expected_code(secret, t)->Ok_0)
                    }
            },
            Err(ConnectError::Config(e)) => first_missing(env@) == Some(e.key()),
            Err(ConnectError::Code(e)) => {
                &&& first_missing(env@) is None
                &&& (secret_fault(configured(env@).totp_secret) == Some(e.fault) || (secret_fault(
                    configured(env@).totp_secret,
                ) is None && e.fault == CodeFault::Clock))
            },
        },
{
    let config = configuration(env)?;
    let code = code_or_error(generate_current_code(config.totp_secret.as_str()))?;
    let connection = Connection::new(mode, &config, code.as_str());
    proof {
        let t = choose|t: u64| #[trigger]
            expected_code(config@.totp_secret, t) == Ok::<Seq<char>, CodeFault>(code@);
        assert(expected_code(configured(env@).totp_secret, t) is Ok);
    }
    Ok(connection)
}

} // verus!
