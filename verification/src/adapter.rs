//! The capture resource manager: the adapter facade.
//!
//! The facade owns the storage root, the two channel identities, the live
//! session and the recording controller, and routes batched fetch/send
//! requests to them. Every entry of a batch is answered independently:
//! the result always holds exactly one entry per input entry, and one
//! entry's failure never touches another's.
//!
//! Engine launches and terminations are outside work. A batch is
//! therefore processed in two steps under one lock of the embedding
//! program: first [`Adapter::fetch_prepare`] (or [`Adapter::send_prepare`])
//! says which engine work, if any, the batch needs; the program performs
//! it and hands the outcome to [`Adapter::fetch_values`] (or
//! [`Adapter::send_values`]), which completes every entry.

use vstd::prelude::*;

use crate::engine::EngineHandle;
use crate::errors::{CaptureError, Operation};
use crate::live::{
    live_fetch_next, live_fetch_result, live_fetch_starts_engine, LiveSession, LiveState,
};
use crate::pipeline::PipelineSpec;
use crate::recording::{
    set_off_next, set_off_result, set_off_stops_engine, set_on_next, set_on_result,
    set_on_starts_engine, RecordingController, RecordingState,
};
use crate::values::{OnOff, StreamDescriptor, Value};

verus! {

/// The stable identity under which the adapter registers itself.
pub open spec fn adapter_id() -> Seq<char> {
    "sentry@foxlink.mozilla.org"@
}

/// The identity of the channel that fetches the live stream descriptor.
pub open spec fn live_channel_id() -> Seq<char> {
    "sentry@foxlink.mozilla.org/livestream/html5"@
}

/// The identity of the channel that reads and toggles disk recording.
pub open spec fn recording_channel_id() -> Seq<char> {
    "sentry@foxlink.mozilla.org/record/ogg"@
}

/// Whether one of the requested ids addresses the given channel.
pub open spec fn contains_id(ids: Seq<String>, id: Seq<char>) -> bool {
    exists|k: int| 0 <= k < ids.len() && ids[k]@ == id
}

/// A batch of assignments stands for a map: its keys are distinct.
pub open spec fn distinct_keys(assignments: Seq<(String, Value)>) -> bool {
    forall|i: int, j: int|
        0 <= i < j < assignments.len() ==> assignments[i].0@ != assignments[j].0@
}

/// Whether one assignment asks the recording channel to toggle to `t`.
pub open spec fn record_toggle_entry(entry: (String, Value), t: OnOff) -> bool {
    &&& entry.0@ == recording_channel_id()
    &&& entry.1.decodes_to_on_off()
    &&& entry.1.spec_on_off() == t
}

/// Whether some assignment of the batch asks the recording channel to
/// toggle to `t`.
pub open spec fn asks_record_toggle(assignments: Seq<(String, Value)>, t: OnOff) -> bool {
    exists|k: int| 0 <= k < assignments.len() && record_toggle_entry(#[trigger] assignments[k], t)
}

/// The launch outcome a batch runs under: the one the embedding program
/// obtained where a launch was needed. Where none was needed the filler
/// never reaches a caller: an active stream ignores it and a controller
/// that is already recording ignores it too.
pub open spec fn outcome_of(launch: Option<Result<EngineHandle, CaptureError>>) -> Result<
    EngineHandle,
    CaptureError,
> {
    match launch {
        Some(o) => o,
        None => Err(CaptureError::NoBackendAvailable),
    }
}

/// The termination result a batch runs under, `Ok` where no termination
/// was needed (a stop of something already off succeeds immediately).
pub open spec fn termination_of(termination: Option<Result<(), CaptureError>>) -> Result<
    (),
    CaptureError,
> {
    match termination {
        Some(t) => t,
        None => Ok(()),
    }
}

/// What a fetch batch must answer for the channel `id`, given the state
/// the batch started from: the live descriptor (cached or fresh) wrapped
/// as a value, the recording status as an on/off value, or — for a
/// channel this adapter does not own — `OperationNotSupported` carrying
/// that same id.
pub open spec fn fetch_entry_granted(
    a: Adapter,
    id: Seq<char>,
    launch: Option<Result<EngineHandle, CaptureError>>,
    res: Result<Option<Value>, CaptureError>,
) -> bool {
    if id == live_channel_id() {
        res == match live_fetch_result(a.live_state(), outcome_of(launch)) {
            Ok(d) => Ok::<Option<Value>, CaptureError>(Some(Value::Stream(d))),
            Err(e) => Err::<Option<Value>, CaptureError>(e),
        }
    } else if id == recording_channel_id() {
        res == Ok::<Option<Value>, CaptureError>(
            Some(
                Value::OnOff(
                    if a.recording_state() is Recording {
                        OnOff::On
                    } else {
                        OnOff::Off
                    },
                ),
            ),
        )
    } else {
        res matches Err(CaptureError::OperationNotSupported(op, res_id)) && op == Operation::Fetch
            && res_id@ == id
    }
}

/// What a send batch must answer for one assignment, given the state the
/// batch started from: a value that does not decode to a toggle is a
/// type mismatch; a decoded toggle gets the start or stop result of the
/// recording controller; a foreign channel gets `OperationNotSupported`.
pub open spec fn send_entry_granted(
    a: Adapter,
    entry: (String, Value),
    launch: Option<Result<EngineHandle, CaptureError>>,
    termination: Option<Result<(), CaptureError>>,
    res: Result<(), CaptureError>,
) -> bool {
    if entry.0@ == recording_channel_id() {
        match entry.1 {
            Value::OnOff(OnOff::On) => res == set_on_result(
                a.recording_state(),
                outcome_of(launch),
            ),
            Value::OnOff(OnOff::Off) => res == set_off_result(
                a.recording_state(),
                termination_of(termination),
            ),
            _ => res == Err::<(), CaptureError>(CaptureError::ValueTypeMismatch),
        }
    } else {
        res matches Err(CaptureError::OperationNotSupported(op, res_id)) && op == Operation::Send
            && res_id@ == entry.0@
    }
}

/// The recording state a send batch leaves behind: an `On` assignment
/// drives the start transition under the batch's launch outcome, an
/// `Off` assignment drives the stop transition, and a batch with neither
/// leaves the controller alone.
pub open spec fn send_recording_next(
    s: RecordingState,
    assignments: Seq<(String, Value)>,
    launch: Option<Result<EngineHandle, CaptureError>>,
) -> RecordingState {
    if asks_record_toggle(assignments, OnOff::On) {
        set_on_next(s, outcome_of(launch))
    } else if asks_record_toggle(assignments, OnOff::Off) {
        set_off_next(s)
    } else {
        s
    }
}

/// A batch of assignments asks at most one toggle: its keys are distinct,
/// so only one assignment can address the recording channel, and one
/// value decodes to only one toggle.
proof fn lemma_one_toggle(assignments: Seq<(String, Value)>)
    requires
        distinct_keys(assignments),
    ensures
        !(asks_record_toggle(assignments, OnOff::On) && asks_record_toggle(
            assignments,
            OnOff::Off,
        )),
{
    if asks_record_toggle(assignments, OnOff::On) && asks_record_toggle(assignments, OnOff::Off) {
        let k1 = choose|k: int|
            0 <= k < assignments.len() && record_toggle_entry(#[trigger] assignments[k], OnOff::On);
        let k2 = choose|k: int|
            0 <= k < assignments.len() && record_toggle_entry(
                #[trigger] assignments[k],
                OnOff::Off,
            );
        if k1 == k2 {
            assert(assignments[k1].1.spec_on_off() == OnOff::On);
            assert(assignments[k1].1.spec_on_off() == OnOff::Off);
        } else if k1 < k2 {
            assert(assignments[k1].0@ != assignments[k2].0@);
        } else {
            assert(assignments[k2].0@ != assignments[k1].0@);
        }
    }
}

/// The engine work a send batch needs before it can be completed.
#[derive(Debug)]
pub enum SendPreparation {
    /// No launch and no termination: the batch only reads, errors, or
    /// hits an idempotent transition.
    NoEngineWork,
    /// Launch a record engine for this pipeline before completing.
    LaunchRecord(PipelineSpec),
    /// Terminate this engine before completing (the state slot is
    /// cleared when the batch completes; recording is never stuck on).
    Terminate(EngineHandle),
}

/// The capture resource manager. One per camera; the embedding program
/// guards it with a mutex and performs all engine work between a
/// `*_prepare` call and the batch call it prepared.
pub struct Adapter {
    /// The directory under which recordings are stored.
    storage_root: String,
    /// The identity of the live-stream channel.
    id_channel_fetch_html5_stream: String,
    /// The one shared live stream.
    livestreamer: LiveSession,
    /// The identity of the recording channel.
    id_channel_control_recording: String,
    /// The recording state machine.
    recorder: RecordingController,
}

impl Adapter {
    /// The storage root the adapter was created over.
    pub closed spec fn storage_root_view(&self) -> Seq<char> {
        self.storage_root@
    }

    /// The live session's state.
    pub closed spec fn live_state(&self) -> LiveState {
        self.livestreamer@
    }

    /// The recording controller's state.
    pub closed spec fn recording_state(&self) -> RecordingState {
        self.recorder@
    }

    /// The adapter's channel identities are the two fixed ones, and the
    /// live session is well formed. Constructors establish this and every
    /// method preserves it.
    pub closed spec fn wf(&self) -> bool {
        &&& self.id_channel_fetch_html5_stream@ == live_channel_id()
        &&& self.id_channel_control_recording@ == recording_channel_id()
        &&& self.livestreamer.wf()
    }

    /// Whether a fetch batch needs an engine launch first: it addresses
    /// the live channel while no stream is active yet.
    pub open spec fn fetch_needs_engine(self, ids: Seq<String>) -> bool {
        live_fetch_starts_engine(self.live_state()) && contains_id(ids, live_channel_id())
    }

    /// Whether a send batch needs an engine launch first: it toggles
    /// recording on while the controller is off.
    pub open spec fn send_needs_launch(self, assignments: Seq<(String, Value)>) -> bool {
        set_on_starts_engine(self.recording_state()) && asks_record_toggle(assignments, OnOff::On)
    }

    /// Whether a send batch needs an engine termination first: it toggles
    /// recording off while an engine is recording.
    pub open spec fn send_needs_termination(self, assignments: Seq<(String, Value)>) -> bool {
        set_off_stops_engine(self.recording_state()) && asks_record_toggle(
            assignments,
            OnOff::Off,
        )
    }

    /// A fresh adapter over a storage root: no live stream, not
    /// recording, channels fixed.
    pub fn new(storage_root: String) -> (r: Adapter)
        ensures
            r.wf(),
            r.storage_root_view() == storage_root@,
            r.live_state() is NotStarted,
            r.recording_state() is Off,
    {
        Adapter {
            storage_root,
            id_channel_fetch_html5_stream: String::from_str(
                "sentry@foxlink.mozilla.org/livestream/html5",
            ),
            livestreamer: LiveSession::new(),
            id_channel_control_recording: String::from_str("sentry@foxlink.mozilla.org/record/ogg"),
            recorder: RecordingController::new(),
        }
    }

    /// The adapter's stable identity.
    pub fn id(&self) -> (r: String)
        ensures
            r@ == adapter_id(),
    {
        String::from_str("sentry@foxlink.mozilla.org")
    }

    /// The adapter's human-readable name.
    pub fn name(&self) -> (r: &str)
        ensures
            r@ == "Built-in camera"@,
    {
        "Built-in camera"
    }

    /// The adapter's vendor.
    pub fn vendor(&self) -> (r: &str)
        ensures
            r@ == "Mozilla"@,
    {
        "Mozilla"
    }

    /// The adapter's version.
    pub fn version(&self) -> (r: [u32; 4])
        ensures
            r@ =~= seq![0u32, 1u32, 0u32, 0u32],
    {
        [0u32, 1u32, 0u32, 0u32]
    }

    /// The identity of the live-stream channel, for building requests.
    pub fn live_channel(&self) -> (r: String)
        requires
            self.wf(),
        ensures
            r@ == live_channel_id(),
    {
        self.id_channel_fetch_html5_stream.clone()
    }

    /// The identity of the recording channel, for building requests.
    pub fn recording_channel(&self) -> (r: String)
        requires
            self.wf(),
        ensures
            r@ == recording_channel_id(),
    {
        self.id_channel_control_recording.clone()
    }

    /// The live pipeline to launch before completing this fetch batch,
    /// if the batch addresses the live channel while no stream is active.
    pub fn fetch_prepare(&self, ids: &Vec<String>) -> (r: Option<PipelineSpec>)
        requires
            self.wf(),
        ensures
            (r is Some) == self.fetch_needs_engine(ids@),
            r matches Some(sp) ==> sp.is_live(),
    {
        if !self.livestreamer.needs_start() {
            return None;
        }
        let mut k: usize = 0;
        while k < ids.len()
            invariant
                self.wf(),
                live_fetch_starts_engine(self.live_state()),
                k <= ids@.len(),
                forall|j: int| 0 <= j < k ==> (#[trigger] ids@[j])@ != live_channel_id(),
            decreases ids@.len() - k,
        {
            if ids[k] == self.id_channel_fetch_html5_stream {
                return Some(PipelineSpec::live());
            }
            k = k + 1;
        }
        None
    }

    /// Answers a fetch batch: one result per requested channel id, in
    /// order. The live channel gets its descriptor — the cached one, or
    /// the one the batch's launch produced; the recording channel gets
    /// its on/off status; every other id gets `OperationNotSupported`.
    /// The recording state is never touched by a fetch.
    pub fn fetch_values(
        &mut self,
        ids: Vec<String>,
        launch: Option<Result<EngineHandle, CaptureError>>,
    ) -> (r: Vec<(String, Result<Option<Value>, CaptureError>)>)
        requires
            old(self).wf(),
            (launch is Some) == old(self).fetch_needs_engine(ids@),
            launch matches Some(o) ==> ((o matches Ok(h) ==> h.port is Some) && (
            o matches Err(e) ==> e.is_start_error())),
        ensures
            final(self).wf(),
            final(self).storage_root_view() == old(self).storage_root_view(),
            final(self).recording_state() == old(self).recording_state(),
            final(self).live_state() == live_fetch_next(old(self).live_state(), outcome_of(launch)),
            r@.len() == ids@.len(),
            forall|k: int| 0 <= k < ids@.len() ==> (#[trigger] r@[k]).0 == ids@[k],
            forall|k: int|
                0 <= k < ids@.len() ==> fetch_entry_granted(
                    *old(self),
                    ids@[k]@,
                    launch,
                    (#[trigger] r@[k]).1,
                ),
    {
        let ghost a0: Adapter = *old(self);
        // Resolve the live channel's one answer up front: it is the same
        // for every occurrence of the id in the batch.
        let live_slot: Result<StreamDescriptor, CaptureError> = match launch {
            Some(outcome) => self.livestreamer.install(outcome),
            None => match self.livestreamer.cached() {
                Some(d) => Ok(d),
                None => Err(CaptureError::NoBackendAvailable),
            },
        };
        let mut results: Vec<(String, Result<Option<Value>, CaptureError>)> = Vec::new();
        let mut k: usize = 0;
        while k < ids.len()
            invariant
                self.wf(),
                self.storage_root_view() == a0.storage_root_view(),
                self.recording_state() == a0.recording_state(),
                self.live_state() == live_fetch_next(a0.live_state(), outcome_of(launch)),
                live_slot == live_fetch_result(a0.live_state(), outcome_of(launch)),
                k <= ids@.len(),
                results@.len() == k,
                forall|j: int| 0 <= j < k ==> (#[trigger] results@[j]).0 == ids@[j],
                forall|j: int|
                    0 <= j < k ==> fetch_entry_granted(
                        a0,
                        ids@[j]@,
                        launch,
                        (#[trigger] results@[j]).1,
                    ),
            decreases ids@.len() - k,
        {
            let id = &ids[k];
            let res: Result<Option<Value>, CaptureError> = if *id
                == self.id_channel_fetch_html5_stream {
                match &live_slot {
                    Ok(d) => Ok(Some(Value::Stream(*d))),
                    Err(e) => Err(e.clone()),
                }
            } else if *id == self.id_channel_control_recording {
                Ok(Some(Value::OnOff(self.recorder.status())))
            } else {
                Err(CaptureError::OperationNotSupported(Operation::Fetch, id.clone()))
            };
            results.push((id.clone(), res));
            k = k + 1;
        }
        results
    }

    /// The engine work to perform before completing this send batch: a
    /// record launch where the batch toggles recording on from off, a
    /// termination where it toggles recording off while recording, and
    /// nothing otherwise.
    pub fn send_prepare(&self, assignments: &Vec<(String, Value)>) -> (r: SendPreparation)
        requires
            self.wf(),
            distinct_keys(assignments@),
        ensures
            (r is LaunchRecord) == self.send_needs_launch(assignments@),
            (r is Terminate) == self.send_needs_termination(assignments@),
            r matches SendPreparation::LaunchRecord(sp) ==> sp.is_record_for(
                self.storage_root_view(),
            ),
            r matches SendPreparation::Terminate(h) ==> self.recording_state()
                == RecordingState::Recording(h),
    {
        let mut k: usize = 0;
        while k < assignments.len()
            invariant
                self.wf(),
                distinct_keys(assignments@),
                k <= assignments@.len(),
                forall|j: int|
                    0 <= j < k ==> (#[trigger] assignments@[j]).0@ != recording_channel_id(),
            decreases assignments@.len() - k,
        {
            let entry = &assignments[k];
            if entry.0 == self.id_channel_control_recording {
                proof {
                    lemma_only_entry(assignments@, k as int);
                }
                match entry.1.cast_on_off() {
                    Err(_) => {
                        return SendPreparation::NoEngineWork;
                    },
                    Ok(OnOff::On) => {
                        if self.recorder.needs_start() {
                            return SendPreparation::LaunchRecord(
                                PipelineSpec::record(self.storage_root.as_str()),
                            );
                        } else {
                            return SendPreparation::NoEngineWork;
                        }
                    },
                    Ok(OnOff::Off) => {
                        match self.recorder.current_handle() {
                            Some(h) => {
                                return SendPreparation::Terminate(h);
                            },
                            None => {
                                return SendPreparation::NoEngineWork;
                            },
                        }
                    },
                }
            }
            k = k + 1;
        }
        SendPreparation::NoEngineWork
    }

    /// Answers a send batch: one result per assignment, in order. Only
    /// the recording channel accepts writes: a value that does not
    /// decode to a toggle is a type mismatch and changes nothing; a
    /// toggle drives the controller's idempotent start/stop transition
    /// under the prepared launch or termination outcome; every other id
    /// gets `OperationNotSupported`. The live session is never touched
    /// by a send.
    pub fn send_values(
        &mut self,
        assignments: Vec<(String, Value)>,
        launch: Option<Result<EngineHandle, CaptureError>>,
        termination: Option<Result<(), CaptureError>>,
    ) -> (r: Vec<(String, Result<(), CaptureError>)>)
        requires
            old(self).wf(),
            distinct_keys(assignments@),
            (launch is Some) == old(self).send_needs_launch(assignments@),
            (termination is Some) == old(self).send_needs_termination(assignments@),
            launch matches Some(o) ==> (o matches Err(e) ==> e.is_start_error()),
        ensures
            final(self).wf(),
            final(self).storage_root_view() == old(self).storage_root_view(),
            final(self).live_state() == old(self).live_state(),
            final(self).recording_state() == send_recording_next(
                old(self).recording_state(),
                assignments@,
                launch,
            ),
            r@.len() == assignments@.len(),
            forall|k: int| 0 <= k < assignments@.len() ==> (#[trigger] r@[k]).0 == assignments@[k].0,
            forall|k: int|
                0 <= k < assignments@.len() ==> send_entry_granted(
                    *old(self),
                    assignments@[k],
                    launch,
                    termination,
                    (#[trigger] r@[k]).1,
                ),
    {
        let ghost a0: Adapter = *old(self);
        // Drive the recording transition once, up front; its result is
        // the answer for the batch's one toggle assignment, if any.
        let rec_slot: Result<(), CaptureError> = match launch {
            Some(outcome) => self.recorder.install(outcome),
            None => match termination {
                Some(t) => {
                    let _ = self.recorder.take_for_stop();
                    t
                },
                None => Ok(()),
            },
        };
        proof {
            assert(self.recording_state() == send_recording_next(
                a0.recording_state(),
                assignments@,
                launch,
            )) by {
                if launch is None && termination is None {
                    if asks_record_toggle(assignments@, OnOff::On) {
                        assert(a0.recording_state() is Recording);
                    }
                    if asks_record_toggle(assignments@, OnOff::Off) {
                        assert(a0.recording_state() is Off);
                    }
                } else if launch is None && termination is Some {
                    if asks_record_toggle(assignments@, OnOff::On) {
                        lemma_one_toggle(assignments@);
                    }
                }
            }
            assert(asks_record_toggle(assignments@, OnOff::On) ==> rec_slot == set_on_result(
                a0.recording_state(),
                outcome_of(launch),
            )) by {
                if asks_record_toggle(assignments@, OnOff::On) {
                    if termination is Some {
                        lemma_one_toggle(assignments@);
                    }
                }
            }
            assert(asks_record_toggle(assignments@, OnOff::Off) ==> rec_slot == set_off_result(
                a0.recording_state(),
                termination_of(termination),
            )) by {
                if asks_record_toggle(assignments@, OnOff::Off) {
                    if launch is Some {
                        lemma_one_toggle(assignments@);
                    }
                }
            }
        }
        let mut results: Vec<(String, Result<(), CaptureError>)> = Vec::new();
        let mut k: usize = 0;
        while k < assignments.len()
            invariant
                self.wf(),
                distinct_keys(assignments@),
                self.storage_root_view() == a0.storage_root_view(),
                self.live_state() == a0.live_state(),
                self.recording_state() == send_recording_next(
                    a0.recording_state(),
                    assignments@,
                    launch,
                ),
                asks_record_toggle(assignments@, OnOff::On) ==> rec_slot == set_on_result(
                    a0.recording_state(),
                    outcome_of(launch),
                ),
                asks_record_toggle(assignments@, OnOff::Off) ==> rec_slot == set_off_result(
                    a0.recording_state(),
                    termination_of(termination),
                ),
                k <= assignments@.len(),
                results@.len() == k,
                forall|j: int| 0 <= j < k ==> (#[trigger] results@[j]).0 == assignments@[j].0,
                forall|j: int|
                    0 <= j < k ==> send_entry_granted(
                        a0,
                        assignments@[j],
                        launch,
                        termination,
                        (#[trigger] results@[j]).1,
                    ),
            decreases assignments@.len() - k,
        {
            let entry = &assignments[k];
            let res: Result<(), CaptureError> = if entry.0 == self.id_channel_control_recording {
                match entry.1.cast_on_off() {
                    Err(e) => Err(e),
                    Ok(_) => {
                        match &rec_slot {
                            Ok(u) => Ok(*u),
                            Err(e) => Err(e.clone()),
                        }
                    },
                }
            } else {
                Err(CaptureError::OperationNotSupported(Operation::Send, entry.0.clone()))
            };
            proof {
                // The toggle assignment is a witness that the batch asks
                // its toggle, which ties `rec_slot` to the right result.
                if assignments@[k as int].0@ == recording_channel_id() {
                    match assignments@[k as int].1 {
                        Value::OnOff(OnOff::On) => {
                            assert(record_toggle_entry(assignments@[k as int], OnOff::On));
                            assert(asks_record_toggle(assignments@, OnOff::On));
                        },
                        Value::OnOff(OnOff::Off) => {
                            assert(record_toggle_entry(assignments@[k as int], OnOff::Off));
                            assert(asks_record_toggle(assignments@, OnOff::Off));
                        },
                        _ => {},
                    }
                }
                assert(send_entry_granted(a0, assignments@[k as int], launch, termination, res));
            }
            results.push((entry.0.clone(), res));
            k = k + 1;
        }
        results
    }
}

/// With distinct keys, an assignment addressing the recording channel is
/// the only one that does: no other assignment asks any toggle.
proof fn lemma_only_entry(assignments: Seq<(String, Value)>, k: int)
    requires
        distinct_keys(assignments),
        0 <= k < assignments.len(),
        assignments[k].0@ == recording_channel_id(),
    ensures
        forall|t: OnOff|
            asks_record_toggle(assignments, t) ==> record_toggle_entry(assignments[k], t),
{
    assert forall|t: OnOff| asks_record_toggle(assignments, t) implies record_toggle_entry(
        assignments[k],
        t,
    ) by {
        let j = choose|j: int|
            0 <= j < assignments.len() && record_toggle_entry(#[trigger] assignments[j], t);
        if j != k {
            if j < k {
                assert(assignments[j].0@ != assignments[k].0@);
            } else {
                assert(assignments[k].0@ != assignments[j].0@);
            }
        }
    }
}

} // verus!
