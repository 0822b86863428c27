//! What must hold before anything is run: the user is privileged, and the
//! client and its routing helper are installed.
//!
//! Both facts are asked of the system, through the `nix` and `which` crates.
//! Nothing is known of the answers; the verdicts on them are proved.

use crate::constant::{CLIENT_PROGRAM, ROUTING_HELPER};
use vstd::prelude::*;

verus! {

/// Why the invocation may not go on.
#[derive(Debug, PartialEq, Eq)]
pub enum PreflightError {
    /// The effective user is not root.
    NotRoot,
    /// The named program is not on the search path.
    MissingProgram { program: String },
}

/// The text shown for an error.
pub open spec fn preflight_text(e: PreflightError) -> Seq<char> {
    match e {
        PreflightError::NotRoot => "This program must be run as root"@,
        PreflightError::MissingProgram { program } => {
            program@ + " is not installed or not in PATH"@
        },
    }
}

impl PreflightError {
    /// The text shown for this error.
    pub fn message(&self) -> (text: String)
        ensures
            text@ == preflight_text(*self),
    {
        match self {
            PreflightError::NotRoot => "This program must be run as root".to_owned(),
            PreflightError::MissingProgram { program } => program.clone().concat(
                " is not installed or not in PATH",
            ),
        }
    }
}

/// Calls `Uid::effective` of `nix` and then `Uid::is_root`: whether the
/// effective user of this process is root. The answer depends on the
/// process, so nothing is claimed of it.
#[verifier::external_body]
fn effective_user_is_root() -> (is_root: bool) {
    nix::unistd::Uid::effective().is_root()
}

/// Calls `which::which`: whether it finds an executable of this name. The
/// answer depends on the search path and on the disk, so nothing is claimed
/// of it.
#[verifier::external_body]
fn found_on_path(program: &str) -> (found: bool) {
    which::which(program).is_ok()
}

/// The verdict on the effective user: only root passes.
pub fn root_verdict(is_root: bool) -> (r: Result<(), PreflightError>)
    ensures
        r is Ok <==> is_root,
        r matches Err(e) ==> e == PreflightError::NotRoot,
{
    if !is_root {
        return Err(PreflightError::NotRoot);
    }
    Ok(())
}

/// Fails unless the effective user of this process is root.
pub fn check_root() -> (r: Result<(), PreflightError>)
    ensures
        r matches Err(e) ==> e == PreflightError::NotRoot,
{
    root_verdict(effective_user_is_root())
}

/// The first required program that was not found: the client is looked for
/// before its routing helper.
pub open spec fn first_absent(client_found: bool, helper_found: bool) -> Option<Seq<char>> {
    if !client_found {
        Some(CLIENT_PROGRAM@)
    } else if !helper_found {
        Some(ROUTING_HELPER@)
    } else {
        None
    }
}

/// The program that an error names as missing.
pub open spec fn named_missing(e: PreflightError) -> Option<Seq<char>> {
    match e {
        PreflightError::NotRoot => None,
        PreflightError::MissingProgram { program } => Some(program@),
    }
}

/// The verdict on the search for the two required programs: it names the
/// first one that was not found.
pub fn programs_verdict(client_found: bool, helper_found: bool) -> (r: Result<(), PreflightError>)
    ensures
        r is Ok <==> client_found && helper_found,
        r matches Err(e) ==> e is MissingProgram && named_missing(e) == first_absent(
            client_found,
            helper_found,
        ),
{
    if !client_found {
        return Err(PreflightError::MissingProgram { program: CLIENT_PROGRAM.to_owned() });
    }
    if !helper_found {
        return Err(PreflightError::MissingProgram { program: ROUTING_HELPER.to_owned() });
    }
    Ok(())
}

/// Fails unless the client and its routing helper are both on the search
/// path. The helper is not looked for once the client is missing.
pub fn check_required_programs() -> (r: Result<(), PreflightError>)
    ensures
        r matches Err(e) ==> named_missing(e) == Some(CLIENT_PROGRAM@) || named_missing(e) == Some(
            ROUTING_HELPER@,
        ),
{
    let client_found = found_on_path(CLIENT_PROGRAM);
    let helper_found = client_found && found_on_path(ROUTING_HELPER);
    programs_verdict(client_found, helper_found)
}

/// The verdict on all that is asked before any command is carried out. A
/// user who is not root is turned away whatever was found; for root the
/// verdict is that on the two programs.
pub fn preflight_verdict(is_root: bool, client_found: bool, helper_found: bool) -> (r: Result<
    (),
    PreflightError,
>)
    ensures
        r is Ok <==> is_root && client_found && helper_found,
        r matches Err(e) ==> if is_root {
            e is MissingProgram && named_missing(e) == first_absent(client_found, helper_found)
        } else {
            e == PreflightError::NotRoot
        },
{
    if !is_root {
        return Err(PreflightError::NotRoot);
    }
    programs_verdict(client_found, helper_found)
}

/// What is asked before any command is carried out: first that the user is
/// root, then that the required programs are installed. The programs are
/// not looked for where the user is not root.
pub fn preflight() -> (r: Result<(), PreflightError>)
    ensures
        r matches Err(e) ==> e == PreflightError::NotRoot || named_missing(e) == Some(
            CLIENT_PROGRAM@,
        ) || named_missing(e) == Some(ROUTING_HELPER@),
{
    let is_root = effective_user_is_root();
    let client_found = is_root && found_on_path(CLIENT_PROGRAM);
    let helper_found = client_found && found_on_path(ROUTING_HELPER);
    preflight_verdict(is_root, client_found, helper_found)
}

} // verus!
