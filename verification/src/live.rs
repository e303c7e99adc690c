//! The live-view stream session.
//!
//! The session lazily starts one engine on the first fetch and caches the
//! resulting descriptor; every later fetch reuses it. There is no
//! teardown path: once started, the live stream is reused forever (a
//! stated limitation — nothing here may invent an auto-stop).

use vstd::prelude::*;

use crate::engine::EngineHandle;
use crate::errors::CaptureError;
use crate::values::StreamDescriptor;

verus! {

/// The session is either untouched or holds the one live stream. The
/// descriptor and the engine handle are created together and share their
/// lifetime.
#[derive(Clone, Copy, Debug)]
pub enum LiveState {
    NotStarted,
    Active(StreamDescriptor, EngineHandle),
}

/// A fetch starts an engine exactly when no stream is active yet.
pub open spec fn live_fetch_starts_engine(s: LiveState) -> bool {
    s is NotStarted
}

/// The session state after a fetch whose launch (if one was needed) came
/// to `outcome`: an active stream is kept as it is; a cold session
/// becomes active on success and stays cold on failure.
pub open spec fn live_fetch_next(s: LiveState, outcome: Result<EngineHandle, CaptureError>) -> LiveState {
    match s {
        LiveState::Active(_, _) => s,
        LiveState::NotStarted => match outcome {
            Ok(h) => LiveState::Active(StreamDescriptor { port: h.port->0 }, h),
            Err(_) => LiveState::NotStarted,
        },
    }
}

/// What that fetch returns: the cached descriptor where one exists, the
/// fresh descriptor on a successful launch, the launch error otherwise.
pub open spec fn live_fetch_result(s: LiveState, outcome: Result<EngineHandle, CaptureError>) -> Result<
    StreamDescriptor,
    CaptureError,
> {
    match s {
        LiveState::Active(d, _) => Ok(d),
        LiveState::NotStarted => match outcome {
            Ok(h) => Ok(StreamDescriptor { port: h.port->0 }),
            Err(e) => Err(e),
        },
    }
}

/// Descriptor reuse: once one fetch has succeeded, no later fetch starts
/// another engine, and every later fetch returns the very descriptor the
/// first one returned — in particular, the same port.
pub proof fn lemma_descriptor_reuse(
    s: LiveState,
    outcome1: Result<EngineHandle, CaptureError>,
    outcome2: Result<EngineHandle, CaptureError>,
)
    requires
        live_fetch_starts_engine(s) ==> outcome1 is Ok,
    ensures
        !live_fetch_starts_engine(live_fetch_next(s, outcome1)),
        live_fetch_result(live_fetch_next(s, outcome1), outcome2) == live_fetch_result(
            s,
            outcome1,
        ),
{
}

/// The mutable slot holding the session state. The embedding program
/// serializes access with a mutex of its own; within that discipline this
/// type owns every transition.
pub struct LiveSession {
    state: LiveState,
}

impl View for LiveSession {
    type V = LiveState;

    closed spec fn view(&self) -> LiveState {
        self.state
    }
}

impl LiveSession {
    /// An active stream's engine handle always carries the port its
    /// descriptor shows: the two were created together.
    pub open spec fn wf(&self) -> bool {
        self@ matches LiveState::Active(d, h) ==> h.port == Some(d.port)
    }

    /// A session with no stream started yet.
    pub fn new() -> (r: Self)
        ensures
            r.wf(),
            r@ is NotStarted,
    {
        LiveSession { state: LiveState::NotStarted }
    }

    /// The cached descriptor, where a stream is active.
    pub fn cached(&self) -> (r: Option<StreamDescriptor>)
        ensures
            match self@ {
                LiveState::Active(d, _) => r == Some(d),
                LiveState::NotStarted => r is None,
            },
    {
        match &self.state {
            LiveState::Active(d, _) => Some(*d),
            LiveState::NotStarted => None,
        }
    }

    /// Whether the next fetch must launch an engine.
    pub fn needs_start(&self) -> (r: bool)
        ensures
            r == live_fetch_starts_engine(self@),
    {
        match &self.state {
            LiveState::NotStarted => true,
            LiveState::Active(_, _) => false,
        }
    }

    /// Completes a cold fetch with the launch outcome the embedding
    /// program obtained: on success the stream becomes active and its
    /// descriptor is returned; on failure the session stays cold and the
    /// error propagates. A launch that is to serve a live stream must
    /// have allocated a port (the program reports `PortNotAllocated` as a
    /// failure instead).
    pub fn install(&mut self, outcome: Result<EngineHandle, CaptureError>) -> (r: Result<
        StreamDescriptor,
        CaptureError,
    >)
        requires
            old(self)@ is NotStarted,
            outcome matches Ok(h) ==> h.port is Some,
            outcome matches Err(e) ==> e.is_start_error(),
        ensures
            final(self).wf(),
            final(self)@ == live_fetch_next(old(self)@, outcome),
            r == live_fetch_result(old(self)@, outcome),
    {
        match outcome {
            Ok(h) => {
                let d = StreamDescriptor { port: h.port.unwrap() };
                self.state = LiveState::Active(d, h);
                Ok(d)
            },
            Err(e) => Err(e),
        }
    }
}

} // verus!
