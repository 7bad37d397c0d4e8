use vstd::prelude::*;

use crate::peripheral::{rows_view, PeripheralId, PeripheralInfo};
use crate::state::{spec_select, State, StateView};

verus! {

/// A discrete command from the frontend that mutates or queries the
/// registry. Immutable once constructed.
#[derive(Debug)]
pub enum Action {
    StartScan,
    StopScan,
    Select(PeripheralId),
    Connect(PeripheralId),
    Disconnect(PeripheralId),
    Refresh,
    Exit,
}

/// The work an action delegates to the scanning backend. The driver's
/// caller performs it and hands the outcome back to `Action::apply`.
#[derive(Debug)]
pub enum BackendCommand {
    StartScan,
    StopScan,
    ListPeripherals,
}

/// What the scanning backend answered for one action: nothing was asked,
/// a scan control returned, or a peripheral listing returned. Failures
/// carry the backend's message.
pub enum BackendOutcome {
    NotNeeded,
    Scan(Result<(), String>),
    Listed(Result<Vec<PeripheralInfo>, String>),
}

/// An operational failure of one action: never fatal to the driver, which
/// records it and continues.
#[derive(Debug)]
pub enum OpError {
    /// The scanning backend failed the delegated operation.
    Backend(String),
    /// The operation is not yet supported.
    Unsupported,
    /// The exit sentinel: not an operational mutation but the signal for
    /// the driver to stop.
    ExitRequested,
}

/// Which backend operation an action delegates to, if any.
pub open spec fn spec_command(a: Action) -> Option<BackendCommand> {
    match a {
        Action::StartScan => Some(BackendCommand::StartScan),
        Action::StopScan => Some(BackendCommand::StopScan),
        Action::Refresh => Some(BackendCommand::ListPeripherals),
        Action::Select(_) => None,
        Action::Connect(_) => None,
        Action::Disconnect(_) => None,
        Action::Exit => None,
    }
}

/// Whether an outcome has the shape of the answer to an action's delegated
/// operation: this is the protocol between the driver's caller and `apply`.
pub open spec fn outcome_fits(a: Action, o: BackendOutcome) -> bool {
    match spec_command(a) {
        None => o is NotNeeded,
        Some(BackendCommand::StartScan) => o is Scan,
        Some(BackendCommand::StopScan) => o is Scan,
        Some(BackendCommand::ListPeripherals) => o is Listed,
    }
}

/// The registry after one action is applied, given the backend's answer:
/// only a selection or a successfully listed refresh changes it.
pub open spec fn spec_apply_state(s: StateView, a: Action, o: BackendOutcome) -> StateView {
    match a {
        Action::Select(id) => spec_select(s, id@),
        Action::Refresh => match o {
            BackendOutcome::Listed(Ok(rows)) => StateView { peripherals: rows_view(rows@), ..s },
            _ => s,
        },
        _ => s,
    }
}

/// Whether applying the action succeeds: selections always do, unsupported
/// operations and the exit sentinel never do, delegated operations exactly
/// when the backend answered without failure.
pub open spec fn spec_apply_ok(a: Action, o: BackendOutcome) -> bool {
    match a {
        Action::Select(_) => true,
        Action::Connect(_) => false,
        Action::Disconnect(_) => false,
        Action::Exit => false,
        Action::StartScan => o matches BackendOutcome::Scan(Ok(())),
        Action::StopScan => o matches BackendOutcome::Scan(Ok(())),
        Action::Refresh => o matches BackendOutcome::Listed(Ok(_)),
    }
}

/// The failure applying an action reports, where it fails at all: the
/// unsupported operations and the exit sentinel by their own kinds, the
/// delegated operations with the backend's message. (The arms a successful
/// apply never reaches are filled with an arbitrary kind.)
pub open spec fn spec_apply_err(a: Action, o: BackendOutcome) -> OpError {
    match a {
        Action::Connect(_) => OpError::Unsupported,
        Action::Disconnect(_) => OpError::Unsupported,
        Action::Exit => OpError::ExitRequested,
        Action::StartScan | Action::StopScan => match o {
            BackendOutcome::Scan(Err(e)) => OpError::Backend(e),
            _ => OpError::Unsupported,
        },
        Action::Refresh => match o {
            BackendOutcome::Listed(Err(e)) => OpError::Backend(e),
            _ => OpError::Unsupported,
        },
        Action::Select(_) => OpError::Unsupported,
    }
}

impl Action {
    /// The backend operation this action needs performed, if any.
    pub fn command(&self) -> (c: Option<BackendCommand>)
        ensures
            c == spec_command(*self),
    {
        match self {
            Action::StartScan => Some(BackendCommand::StartScan),
            Action::StopScan => Some(BackendCommand::StopScan),
            Action::Refresh => Some(BackendCommand::ListPeripherals),
            _ => None,
        }
    }

    /// Apply this action to the registry, given the outcome of the backend
    /// operation it delegates to. Never panics: every variant returns a
    /// success or an operational failure the caller records.
    pub fn apply(&self, state: &mut State, outcome: BackendOutcome) -> (r: Result<(), OpError>)
        requires
            outcome_fits(*self, outcome),
        ensures
            final(state)@ == spec_apply_state(old(state)@, *self, outcome),
            final(state).wf() == old(state).wf(),
            (r is Ok) == spec_apply_ok(*self, outcome),
            r is Err ==> r == Err::<(), OpError>(spec_apply_err(*self, outcome)),
            (*self matches Action::Connect(_) || *self matches Action::Disconnect(_))
                ==> r == Err::<(), OpError>(OpError::Unsupported),
            (*self matches Action::Exit) ==> r == Err::<(), OpError>(OpError::ExitRequested),
            (*self matches Action::StartScan || *self matches Action::StopScan)
                ==> (outcome matches BackendOutcome::Scan(Err(e))
                    ==> (r matches Err(OpError::Backend(m)) && m == e)),
            (*self matches Action::Refresh)
                ==> (outcome matches BackendOutcome::Listed(Err(e))
                    ==> (r matches Err(OpError::Backend(m)) && m == e)),
    {
        match self {
            Action::StartScan | Action::StopScan => {
                match outcome {
                    BackendOutcome::Scan(Ok(())) => Ok(()),
                    BackendOutcome::Scan(Err(e)) => Err(OpError::Backend(e)),
                    // the outcome protocol rules this arm out
                    _ => {
                        proof {
                            assert(false);
                        }
                        Err(OpError::Unsupported)
                    },
                }
            },
            Action::Select(id) => {
                state.select(id.duplicate());
                Ok(())
            },
            Action::Connect(_) => Err(OpError::Unsupported),
            Action::Disconnect(_) => Err(OpError::Unsupported),
            Action::Refresh => {
                match outcome {
                    BackendOutcome::Listed(fetched) => {
                        match state.update_peripherals(fetched) {
                            Ok(()) => Ok(()),
                            Err(e) => Err(OpError::Backend(e)),
                        }
                    },
                    // the outcome protocol rules this arm out
                    _ => {
                        proof {
                            assert(false);
                        }
                        Err(OpError::Unsupported)
                    },
                }
            },
            Action::Exit => Err(OpError::ExitRequested),
        }
    }
}

} // verus!
