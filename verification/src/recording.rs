//! The on/off disk-recording controller.
//!
//! A two-state machine, `Off` and `Recording`, each reachable from the
//! other, with both transitions idempotent. Starting needs an engine
//! launch and stopping needs an engine termination; the embedding program
//! performs both, serialized under one mutex, while this module decides
//! when they happen and what each request returns.

use vstd::prelude::*;

use crate::engine::EngineHandle;
use crate::errors::CaptureError;
use crate::values::OnOff;

verus! {

/// While `Recording`, the controller exclusively owns the handle of the
/// one running record engine; no second reference to it exists.
#[derive(Clone, Copy, Debug)]
pub enum RecordingState {
    Off,
    Recording(EngineHandle),
}

/// A start request launches an engine exactly when the controller is off.
pub open spec fn set_on_starts_engine(s: RecordingState) -> bool {
    s is Off
}

/// The state after a start request whose launch (if one was needed) came
/// to `outcome`: already recording stays as it is; off becomes recording
/// on success and stays off on failure.
pub open spec fn set_on_next(s: RecordingState, outcome: Result<EngineHandle, CaptureError>) -> RecordingState {
    match s {
        RecordingState::Recording(_) => s,
        RecordingState::Off => match outcome {
            Ok(h) => RecordingState::Recording(h),
            Err(_) => RecordingState::Off,
        },
    }
}

/// What that start request returns: success unless a launch was needed
/// and failed.
pub open spec fn set_on_result(s: RecordingState, outcome: Result<EngineHandle, CaptureError>) -> Result<
    (),
    CaptureError,
> {
    match s {
        RecordingState::Recording(_) => Ok(()),
        RecordingState::Off => match outcome {
            Ok(_) => Ok(()),
            Err(e) => Err(e),
        },
    }
}

/// A stop request terminates an engine exactly when one is recording.
pub open spec fn set_off_stops_engine(s: RecordingState) -> bool {
    s is Recording
}

/// After a stop request the controller is off — whatever the termination
/// itself comes to (best effort: recording can never be stuck on).
pub open spec fn set_off_next(s: RecordingState) -> RecordingState {
    RecordingState::Off
}

/// What that stop request returns: immediate success when already off;
/// otherwise the termination's own result, reported to the caller even
/// though the state has already moved off.
pub open spec fn set_off_result(s: RecordingState, stop_result: Result<(), CaptureError>) -> Result<
    (),
    CaptureError,
> {
    match s {
        RecordingState::Off => Ok(()),
        RecordingState::Recording(_) => stop_result,
    }
}

/// Idempotent start: once a start request has left the controller
/// recording, a second start request launches no engine, changes
/// nothing, and succeeds.
pub proof fn lemma_idempotent_start(
    s: RecordingState,
    outcome1: Result<EngineHandle, CaptureError>,
    outcome2: Result<EngineHandle, CaptureError>,
)
    requires
        set_on_next(s, outcome1) is Recording,
    ensures
        !set_on_starts_engine(set_on_next(s, outcome1)),
        set_on_next(set_on_next(s, outcome1), outcome2) == set_on_next(s, outcome1),
        set_on_result(set_on_next(s, outcome1), outcome2) == Ok::<(), CaptureError>(()),
{
}

/// Idempotent stop: a stop request on an off controller terminates no
/// engine, changes nothing, and succeeds whatever termination result a
/// real stop would have produced.
pub proof fn lemma_idempotent_stop(s: RecordingState, stop_result: Result<(), CaptureError>)
    requires
        s is Off,
    ensures
        !set_off_stops_engine(s),
        set_off_next(s) == s,
        set_off_result(s, stop_result) == Ok::<(), CaptureError>(()),
{
}

/// One toggle request, with the launch outcome a start would use.
pub enum ToggleCommand {
    On(Result<EngineHandle, CaptureError>),
    Off,
}

/// The state after one toggle request.
pub open spec fn toggle_next(s: RecordingState, c: ToggleCommand) -> RecordingState {
    match c {
        ToggleCommand::On(outcome) => set_on_next(s, outcome),
        ToggleCommand::Off => set_off_next(s),
    }
}

/// The state after a whole sequence of toggle requests, applied one
/// after another — the order the embedding mutex serializes them in.
pub open spec fn apply_toggles(s: RecordingState, cmds: Seq<ToggleCommand>) -> RecordingState
    decreases cmds.len(),
{
    if cmds.len() == 0 {
        s
    } else {
        toggle_next(apply_toggles(s, cmds.drop_last()), cmds.last())
    }
}

/// Mutual exclusion made observable: because the mutex totally orders
/// the toggle requests, the final state is decided by the last request
/// alone — a trailing stop always leaves the controller off, a trailing
/// start whose launch succeeded always leaves it recording, and from an
/// off state the last request determines the state exactly, the engine
/// handle included: no stale handle can survive. (That every
/// intermediate state holds at most one engine handle needs no lemma:
/// no [`RecordingState`] can hold two.)
pub proof fn lemma_last_toggle_wins(s: RecordingState, cmds: Seq<ToggleCommand>)
    requires
        cmds.len() > 0,
    ensures
        cmds.last() is Off ==> apply_toggles(s, cmds) is Off,
        cmds.last() matches ToggleCommand::On(outcome) && outcome is Ok ==> apply_toggles(
            s,
            cmds,
        ) is Recording,
        apply_toggles(s, cmds.drop_last()) is Off ==> apply_toggles(s, cmds) == toggle_next(
            RecordingState::Off,
            cmds.last(),
        ),
{
}

/// The mutable slot holding the recording state. The embedding program
/// serializes access with a mutex of its own; within that discipline this
/// type owns every transition.
pub struct RecordingController {
    state: RecordingState,
}

impl View for RecordingController {
    type V = RecordingState;

    closed spec fn view(&self) -> RecordingState {
        self.state
    }
}

impl RecordingController {
    /// A controller that is not recording.
    pub fn new() -> (r: Self)
        ensures
            r@ is Off,
    {
        RecordingController { state: RecordingState::Off }
    }

    /// The externally visible status: `On` exactly while recording. A
    /// pure read with no side effect.
    pub fn status(&self) -> (r: OnOff)
        ensures
            r == (if self@ is Recording {
                OnOff::On
            } else {
                OnOff::Off
            }),
    {
        match &self.state {
            RecordingState::Recording(_) => OnOff::On,
            RecordingState::Off => OnOff::Off,
        }
    }

    /// Whether a start request must launch an engine now.
    pub fn needs_start(&self) -> (r: bool)
        ensures
            r == set_on_starts_engine(self@),
    {
        match &self.state {
            RecordingState::Off => true,
            RecordingState::Recording(_) => false,
        }
    }

    /// The handle of the running engine, where one is recording. The
    /// handle is a key, not the resource: taking a copy for a pending
    /// termination does not duplicate ownership of the engine.
    pub fn current_handle(&self) -> (r: Option<EngineHandle>)
        ensures
            match self@ {
                RecordingState::Recording(h) => r == Some(h),
                RecordingState::Off => r is None,
            },
    {
        match &self.state {
            RecordingState::Recording(h) => Some(*h),
            RecordingState::Off => None,
        }
    }

    /// Completes a cold start request with the launch outcome the
    /// embedding program obtained: on success the controller records
    /// under the launched engine; on failure it stays off and the error
    /// propagates.
    pub fn install(&mut self, outcome: Result<EngineHandle, CaptureError>) -> (r: Result<
        (),
        CaptureError,
    >)
        requires
            old(self)@ is Off,
            outcome matches Err(e) ==> e.is_start_error(),
        ensures
            final(self)@ == set_on_next(old(self)@, outcome),
            r == set_on_result(old(self)@, outcome),
    {
        match outcome {
            Ok(h) => {
                self.state = RecordingState::Recording(h);
                Ok(())
            },
            Err(e) => Err(e),
        }
    }

    /// Takes the running engine's handle out for termination and clears
    /// the state first, so that recording is never stuck on and a second
    /// stop request is a no-op. `None` means there was nothing to stop.
    pub fn take_for_stop(&mut self) -> (r: Option<EngineHandle>)
        ensures
            final(self)@ == set_off_next(old(self)@),
            match old(self)@ {
                RecordingState::Recording(h) => r == Some(h),
                RecordingState::Off => r is None,
            },
    {
        let previous = self.state;
        self.state = RecordingState::Off;
        match previous {
            RecordingState::Recording(h) => Some(h),
            RecordingState::Off => None,
        }
    }
}

} // verus!
