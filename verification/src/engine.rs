//! Capture engine handles and the ordered-fallback launch policy.
//!
//! Launching a backend is outside work (an OS process or an in-process
//! media pipeline); the embedding program performs it and reports each
//! attempt's outcome back. This module owns every decision around those
//! attempts: which candidate to try next, when to give up, and which
//! launched job a returned [`EngineHandle`] stands for.

use vstd::prelude::*;

use crate::errors::CaptureError;

verus! {

/// A reference to one running external capture job. `job` is the key
/// under which the embedding program tracks the underlying OS resource;
/// `port` is the transport endpoint the job allocated, where its pipeline
/// asked for one (live view), and `None` where none is needed (record to
/// file).
#[derive(Clone, Copy, Debug, PartialEq, Eq)]
pub struct EngineHandle {
    pub job: u64,
    pub port: Option<u16>,
}

/// What one launch attempt of one candidate backend came to, as the
/// embedding program reports it.
#[derive(Clone, Copy, Debug)]
pub enum AttemptOutcome {
    /// The candidate failed to launch.
    Failed,
    /// The candidate launched as job `job`, with `port` allocated where
    /// the pipeline asked for a transport endpoint.
    Launched { job: u64, port: Option<u16> },
}

/// The ordered-fallback launch policy: candidates are tried in order and
/// the first that launches wins. The starter only decides; the embedding
/// program performs each attempt and reports its outcome.
pub struct EngineStarter {
    candidates: usize,
    next: usize,
}

impl EngineStarter {
    /// How many candidate backends the starter was configured with.
    pub closed spec fn candidate_count(&self) -> int {
        self.candidates as int
    }

    /// How many candidates have been tried and have failed.
    pub closed spec fn tried(&self) -> int {
        self.next as int
    }

    pub open spec fn wf(&self) -> bool {
        0 <= self.tried() <= self.candidate_count()
    }

    /// A starter over an ordered list of `candidates` backends, none
    /// tried yet.
    pub fn new(candidates: usize) -> (r: Self)
        ensures
            r.wf(),
            r.candidate_count() == candidates,
            r.tried() == 0,
    {
        EngineStarter { candidates, next: 0 }
    }

    /// The index of the candidate to try next, or `None` once every
    /// candidate has failed.
    pub fn next_candidate(&self) -> (r: Option<usize>)
        requires
            self.wf(),
        ensures
            r matches Some(i) ==> i == self.tried() && self.tried() < self.candidate_count(),
            r is None <==> self.tried() == self.candidate_count(),
    {
        if self.next < self.candidates {
            Some(self.next)
        } else {
            None
        }
    }

    /// Records that the current candidate failed to launch; the policy
    /// moves on to the next one.
    pub fn record_failure(&mut self)
        requires
            old(self).wf(),
            old(self).tried() < old(self).candidate_count(),
        ensures
            final(self).wf(),
            final(self).candidate_count() == old(self).candidate_count(),
            final(self).tried() == old(self).tried() + 1,
    {
        self.next = self.next + 1;
    }
}

/// Runs the ordered-fallback policy against the outcome each candidate
/// would produce: the first candidate that launches wins and yields the
/// handle of that launch; if every candidate fails, the launch as a whole
/// fails with `NoBackendAvailable`. Candidates after the first success
/// are never considered.
pub fn run_fallback(attempts: &Vec<AttemptOutcome>) -> (r: Result<EngineHandle, CaptureError>)
    ensures
        r matches Ok(h) ==> exists|i: int|
            {
                &&& 0 <= i < attempts@.len()
                &&& (#[trigger] attempts@[i]) matches AttemptOutcome::Launched { job, port }
                    && h.job == job && h.port == port
                &&& forall|j: int| 0 <= j < i ==> attempts@[j] is Failed
            },
        r matches Err(e) ==> {
            &&& e == CaptureError::NoBackendAvailable
            &&& forall|i: int|
                0 <= i < attempts@.len() ==> (#[trigger] attempts@[i]) is Failed
        },
        (r is Ok) <==> exists|i: int|
            0 <= i < attempts@.len() && (#[trigger] attempts@[i]) is Launched,
{
    let mut starter = EngineStarter::new(attempts.len());
    loop
        invariant
            starter.wf(),
            starter.candidate_count() == attempts@.len(),
            forall|j: int| 0 <= j < starter.tried() ==> (#[trigger] attempts@[j]) is Failed,
        decreases attempts@.len() - starter.tried(),
    {
        match starter.next_candidate() {
            None => {
                return Err(CaptureError::NoBackendAvailable);
            },
            Some(i) => {
                match attempts[i] {
                    AttemptOutcome::Failed => {
                        starter.record_failure();
                    },
                    AttemptOutcome::Launched { job, port } => {
                        return Ok(EngineHandle { job, port });
                    },
                }
            },
        }
    }
}

} // verus!
