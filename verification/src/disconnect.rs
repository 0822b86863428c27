//! Ending a session: every process that bears the client's name is signalled,
//! and whether the signal went out or reached any is not looked into.

use crate::constant::{CLIENT_PROGRAM, TERMINATOR};
use crate::invocation::{Invocation, InvocationView};
use crate::session::Failure;
use vstd::prelude::*;

verus! {

/// What became of running the terminator.
#[derive(Debug, PartialEq, Eq)]
pub enum Broadcast {
    /// It could not be started.
    NotStarted { cause: String },
    /// It ran and ended; `code` is `None` where a signal ended it.
    Ended { code: Option<i32> },
}

/// How the terminator is run: with the client's name as its only argument.
pub open spec fn terminator_invocation() -> InvocationView {
    InvocationView { program: TERMINATOR@, args: seq![CLIENT_PROGRAM@] }
}

/// The invocation that signals every process of the client's name.
pub fn disconnect() -> (inv: Invocation)
    ensures
        inv@ == terminator_invocation(),
{
    let mut inv = Invocation::new(TERMINATOR);
    inv.arg(CLIENT_PROGRAM);
    assert(inv@.args =~= seq![CLIENT_PROGRAM@]);
    inv
}

/// The outcome of a disconnect. It is a best effort: whether the terminator
/// could not be started, however it ended, and whether or not it found a
/// process, the disconnect counts as done.
pub fn disconnect_outcome(broadcast: Broadcast) -> (r: Result<(), Failure>)
    ensures
        r is Ok,
{
    Ok(())
}

} // verus!
