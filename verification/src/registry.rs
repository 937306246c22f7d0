//! The job registry: the one shared mutable structure of the orchestration
//! layer. It owns the generation-identifier lifecycle — created at
//! submission, advanced only by dispatch, worker completion or an explicit
//! cancel, and never regressing — and resolves every status or cancel call.
use vstd::prelude::*;
use vstd::string::StringExecFns;

use crate::errors::OrchestratorError;
use crate::ident::{fresh_generation_id, is_uuid_v4};
use crate::model_type::{parse_model_type, spec_parse_model_type, str_eq};
use crate::request::{encode_payload, spec_payload, GenerationRequest};
use crate::response::GenerationResponse;

verus! {

/// Where one job stands: submitted, dispatched to the worker, or in one of
/// the three terminal states.
#[derive(Clone, Copy, PartialEq, Eq, Debug, Structural)]
pub enum JobStatus {
    Submitted,
    Running,
    Completed,
    Failed,
    Cancelled,
}

/// A terminal status never changes again.
pub open spec fn is_terminal(s: JobStatus) -> bool {
    s is Completed || s is Failed || s is Cancelled
}

/// How far along the lifecycle a status stands.
pub open spec fn status_rank(s: JobStatus) -> int {
    if s is Submitted {
        0
    } else if s is Running {
        1
    } else {
        2
    }
}

/// The lifecycle steps a job may take: forward to dispatch or a terminal
/// state, and nowhere from a terminal state.
pub open spec fn valid_transition(from: JobStatus, to: JobStatus) -> bool {
    ||| from == to
    ||| (from is Submitted && (to is Running || is_terminal(to)))
    ||| (from is Running && is_terminal(to))
}

/// Law: the lifecycle is monotonic — no step lowers a job's rank, and a
/// terminal state admits no step at all.
pub proof fn lemma_transition_monotonic(from: JobStatus, to: JobStatus)
    requires
        valid_transition(from, to),
    ensures
        status_rank(to) >= status_rank(from),
        is_terminal(from) ==> to == from,
{
}

/// One tracked generation request, from submission to a terminal outcome.
/// `result` is populated exactly on completion, `fault` exactly on failure.
#[derive(Debug)]
pub struct Job {
    pub generation_id: String,
    pub status: JobStatus,
    pub result: Option<GenerationResponse>,
    pub fault: Option<OrchestratorError>,
}

impl Job {
    /// The identifier has the shape submission created it with, and the
    /// recorded outcome matches the status: a result exactly on completion,
    /// well-formed and carrying this job's own generation identifier, a
    /// fault exactly on failure.
    pub open spec fn wf(self) -> bool {
        &&& is_uuid_v4(self.generation_id@)
        &&& self.result is Some <==> self.status is Completed
        &&& self.fault is Some <==> self.status is Failed
        &&& self.result is Some ==> (self.result->0.wf() && self.result->0.generation_id@
            == self.generation_id@)
    }
}

/// What the application must now do for a freshly submitted job: hand the
/// payload to the worker's `generate` subcommand under this identifier.
pub struct Dispatch {
    pub generation_id: String,
    pub payload: Vec<u8>,
}

/// The registry of live and finished jobs, keyed by generation identifier.
pub struct JobRegistry {
    jobs: Vec<Job>,
}

/// A job after the transport reports it dispatched: a submitted job starts
/// running, any other is left alone.
pub open spec fn after_dispatch(j: Job) -> Job {
    if j.status is Submitted {
        Job { status: JobStatus::Running, ..j }
    } else {
        j
    }
}

/// A job after the worker invocation behind it resolves: a non-terminal job
/// completes or fails with the outcome, a terminal one keeps its record.
pub open spec fn after_resolve(j: Job, outcome: Result<GenerationResponse, OrchestratorError>) -> Job {
    if is_terminal(j.status) {
        j
    } else {
        match outcome {
            Ok(resp) => Job { status: JobStatus::Completed, result: Some(resp), fault: None, ..j },
            Err(e) => Job { status: JobStatus::Failed, result: None, fault: Some(e), ..j },
        }
    }
}

/// A job after a cancel request: a non-terminal job is cancelled eagerly, a
/// terminal one keeps its record untouched.
pub open spec fn after_cancel(j: Job) -> Job {
    if is_terminal(j.status) {
        j
    } else {
        Job { status: JobStatus::Cancelled, ..j }
    }
}

impl JobRegistry {
    /// The jobs the registry holds, in submission order.
    pub closed spec fn jobs(self) -> Seq<Job> {
        self.jobs@
    }

    /// Identifiers are pairwise distinct and every job is well-formed.
    pub open spec fn wf(self) -> bool {
        &&& forall|i: int, j: int|
            0 <= i < j < self.jobs().len() ==> (#[trigger] self.jobs()[i]).generation_id@ != (
            #[trigger] self.jobs()[j]).generation_id@
        &&& forall|i: int| 0 <= i < self.jobs().len() ==> (#[trigger] self.jobs()[i]).wf()
    }

    /// Whether some job carries this identifier.
    pub open spec fn has_job(self, id: Seq<char>) -> bool {
        exists|i: int|
            0 <= i < self.jobs().len() && (#[trigger] self.jobs()[i]).generation_id@ == id
    }

    /// The position of the job carrying this identifier.
    pub open spec fn index_of(self, id: Seq<char>) -> int {
        choose|i: int|
            0 <= i < self.jobs().len() && (#[trigger] self.jobs()[i]).generation_id@ == id
    }

    /// The job carrying this identifier.
    pub open spec fn job_of(self, id: Seq<char>) -> Job {
        self.jobs()[self.index_of(id)]
    }

    /// In a well-formed registry the identifier pins the position down.
    pub proof fn lemma_index_unique(self, id: Seq<char>, i: int)
        requires
            self.wf(),
            0 <= i < self.jobs().len(),
            self.jobs()[i].generation_id@ == id,
        ensures
            self.index_of(id) == i,
            self.has_job(id),
    {
        assert(self.has_job(id));
        let j = self.index_of(id);
        if i < j {
            assert(self.jobs()[i].generation_id@ != self.jobs()[j].generation_id@);
        } else if j < i {
            assert(self.jobs()[j].generation_id@ != self.jobs()[i].generation_id@);
        }
    }

    /// An empty registry.
    pub fn new() -> (r: JobRegistry)
        ensures
            r.wf(),
            r.jobs() == Seq::<Job>::empty(),
    {
        let r = JobRegistry { jobs: Vec::new() };
        proof {
            assert(r.jobs() =~= Seq::<Job>::empty());
        }
        r
    }

    /// The position of the job carrying this identifier, if any.
    fn find(&self, id: &str) -> (r: Option<usize>)
        ensures
            r is Some ==> (r->0 < self.jobs().len() && self.jobs()[r->0 as int].generation_id@
                == id@),
            r is None ==> !self.has_job(id@),
    {
        let n = self.jobs.len();
        let mut i: usize = 0;
        while i < n
            invariant
                n == self.jobs@.len(),
                i <= n,
                forall|k: int| 0 <= k < i ==> (#[trigger] self.jobs@[k]).generation_id@ != id@,
            decreases n - i,
        {
            if str_eq(self.jobs[i].generation_id.as_str(), id) {
                return Some(i);
            }
            i = i + 1;
        }
        None
    }

    /// Submits a request under a given identifier: validates the model kind,
    /// creates the job in state `Submitted`, and returns what the transport
    /// must now dispatch. An unrecognized `model_type` is rejected with
    /// `InvalidModelType` before any job is created and before anything
    /// reaches the worker; an identifier already taken is rejected with
    /// `TransportFailure`, so identifiers stay unique for the registry's
    /// lifetime.
    pub fn submit_with_id(&mut self, req: &GenerationRequest, id: String) -> (r: Result<
        Dispatch,
        OrchestratorError,
    >)
        requires
            old(self).wf(),
            is_uuid_v4(id@),
        ensures
            final(self).wf(),
            r is Ok <==> (spec_parse_model_type(req.model_type@) is Some && !old(self).has_job(
                id@,
            )),
            r is Err ==> *final(self) == *old(self),
            spec_parse_model_type(req.model_type@) is None ==> (r->Err_0
                matches OrchestratorError::InvalidModelType { given } && given@
                == req.model_type@),
            (spec_parse_model_type(req.model_type@) is Some && old(self).has_job(id@)) ==> r->Err_0
                matches OrchestratorError::TransportFailure { .. },
            r is Ok ==> ({
                let d = r->Ok_0;
                &&& d.generation_id@ == id@
                &&& d.payload@ == spec_payload(*req, id@)
                &&& final(self).jobs() == old(self).jobs().push(
                    (Job {
                        generation_id: d.generation_id,
                        status: JobStatus::Submitted,
                        result: None,
                        fault: None,
                    }),
                )
            }),
    {
        if parse_model_type(req.model_type.as_str()).is_none() {
            return Err(
                OrchestratorError::InvalidModelType {
                    given: String::from_str(req.model_type.as_str()),
                },
            );
        }
        if self.find(id.as_str()).is_some() {
            return Err(
                OrchestratorError::TransportFailure {
                    message: String::from_str("generation identifier already taken"),
                },
            );
        }
        let job = Job {
            generation_id: id.clone(),
            status: JobStatus::Submitted,
            result: None,
            fault: None,
        };
        self.jobs.push(job);
        let payload = encode_payload(req, id.as_str());
        proof {
            let jobs = self.jobs@;
            let n = jobs.len() - 1;
            assert forall|i: int, j: int| 0 <= i < j < jobs.len() implies (
            #[trigger] jobs[i]).generation_id@ != (#[trigger] jobs[j]).generation_id@ by {
                if j == n {
                    assert(!old(self).has_job(id@));
                    assert(old(self).jobs()[i].generation_id@ != id@);
                }
            }
        }
        Ok(Dispatch { generation_id: id, payload })
    }

    /// Submits a request under a freshly drawn random identifier. The draw is
    /// outside the logic, so all this call promises of it is its shape and
    /// that a collision with a live identifier — never owed to happen — is
    /// rejected rather than admitted; `submit_with_id` carries the exact
    /// contract for any given identifier.
    pub fn submit(&mut self, req: &GenerationRequest) -> (r: Result<Dispatch, OrchestratorError>)
        requires
            old(self).wf(),
        ensures
            final(self).wf(),
            r is Err ==> *final(self) == *old(self),
            spec_parse_model_type(req.model_type@) is None <==> (r is Err && (r->Err_0
                matches OrchestratorError::InvalidModelType { given } && given@
                == req.model_type@)),
            r is Err ==> (spec_parse_model_type(req.model_type@) is None || old(
                self,
            ).jobs().len() > 0),
            r is Ok ==> ({
                let d = r->Ok_0;
                &&& is_uuid_v4(d.generation_id@)
                &&& !old(self).has_job(d.generation_id@)
                &&& d.payload@ == spec_payload(*req, d.generation_id@)
                &&& final(self).jobs() == old(self).jobs().push(
                    (Job {
                        generation_id: d.generation_id,
                        status: JobStatus::Submitted,
                        result: None,
                        fault: None,
                    }),
                )
            }),
    {
        let id = fresh_generation_id();
        self.submit_with_id(req, id)
    }

    /// A read-only snapshot of the job carrying this identifier, or
    /// `UnknownJob` for an identifier never submitted (or since evicted).
    pub fn status_of<'a>(&'a self, id: &str) -> (r: Result<&'a Job, OrchestratorError>)
        requires
            self.wf(),
        ensures
            r is Ok <==> self.has_job(id@),
            r is Ok ==> *r->Ok_0 == self.job_of(id@),
            r is Err ==> (r->Err_0 matches OrchestratorError::UnknownJob { generation_id }
                && generation_id@ == id@),
    {
        match self.find(id) {
            Some(i) => {
                proof {
                    self.lemma_index_unique(id@, i as int);
                }
                Ok(&self.jobs[i])
            },
            None => Err(OrchestratorError::UnknownJob { generation_id: String::from_str(id) }),
        }
    }

    /// Records that the transport dispatched the job: `Submitted` becomes
    /// `Running`; a job the lifecycle has already moved past is left alone,
    /// so no state ever regresses.
    pub fn mark_running(&mut self, id: &str) -> (r: Result<(), OrchestratorError>)
        requires
            old(self).wf(),
        ensures
            final(self).wf(),
            r is Ok <==> old(self).has_job(id@),
            r is Err ==> (*final(self) == *old(self) && (r->Err_0
                matches OrchestratorError::UnknownJob { generation_id } && generation_id@
                == id@)),
            r is Ok ==> ({
                let i = old(self).index_of(id@);
                &&& final(self).jobs() == old(self).jobs().update(i, after_dispatch(
                    old(self).jobs()[i],
                ))
                &&& valid_transition(old(self).jobs()[i].status, final(self).jobs()[i].status)
            }),
    {
        let i = match self.find(id) {
            Some(i) => i,
            None => {
                return Err(
                    OrchestratorError::UnknownJob { generation_id: String::from_str(id) },
                );
            },
        };
        proof {
            self.lemma_index_unique(id@, i as int);
        }
        let advance = match self.jobs[i].status {
            JobStatus::Submitted => true,
            _ => false,
        };
        if advance {
            let gid = self.jobs[i].generation_id.clone();
            self.jobs[i] = Job {
                generation_id: gid,
                status: JobStatus::Running,
                result: None,
                fault: None,
            };
        }
        proof {
            assert(self.jobs@ =~= old(self).jobs().update(
                old(self).index_of(id@),
                after_dispatch(old(self).jobs()[old(self).index_of(id@)]),
            ));
        }
        Ok(())
    }

    /// Records the outcome the transport observed for this job: a non-terminal
    /// job completes with the decoded response or fails with the error; a job
    /// already terminal (cancelled, say) keeps its record untouched. A
    /// successful outcome must carry this job's own generation identifier —
    /// the correlation the decoder enforces — so the registry never records a
    /// response under a job it does not answer for.
    pub fn resolve(&mut self, id: &str, outcome: Result<GenerationResponse, OrchestratorError>) -> (r:
        Result<(), OrchestratorError>)
        requires
            old(self).wf(),
            outcome is Ok ==> (outcome->Ok_0.wf() && outcome->Ok_0.generation_id@ == id@),
        ensures
            final(self).wf(),
            r is Ok <==> old(self).has_job(id@),
            r is Err ==> (*final(self) == *old(self) && (r->Err_0
                matches OrchestratorError::UnknownJob { generation_id } && generation_id@
                == id@)),
            r is Ok ==> ({
                let i = old(self).index_of(id@);
                &&& final(self).jobs() == old(self).jobs().update(i, after_resolve(
                    old(self).jobs()[i],
                    outcome,
                ))
                &&& valid_transition(old(self).jobs()[i].status, final(self).jobs()[i].status)
            }),
    {
        let i = match self.find(id) {
            Some(i) => i,
            None => {
                return Err(
                    OrchestratorError::UnknownJob { generation_id: String::from_str(id) },
                );
            },
        };
        proof {
            self.lemma_index_unique(id@, i as int);
        }
        let terminal = match self.jobs[i].status {
            JobStatus::Completed => true,
            JobStatus::Failed => true,
            JobStatus::Cancelled => true,
            _ => false,
        };
        if !terminal {
            let gid = self.jobs[i].generation_id.clone();
            match outcome {
                Ok(resp) => {
                    self.jobs[i] = Job {
                        generation_id: gid,
                        status: JobStatus::Completed,
                        result: Some(resp),
                        fault: None,
                    };
                },
                Err(e) => {
                    self.jobs[i] = Job {
                        generation_id: gid,
                        status: JobStatus::Failed,
                        result: None,
                        fault: Some(e),
                    };
                },
            }
        }
        proof {
            assert(self.jobs@ =~= old(self).jobs().update(
                old(self).index_of(id@),
                after_resolve(old(self).jobs()[old(self).index_of(id@)], outcome),
            ));
        }
        Ok(())
    }

    /// Cancels the job carrying this identifier. A non-terminal job moves
    /// eagerly to `Cancelled` and the call returns `true`: the caller must
    /// now signal the worker, best-effort. A job already terminal is a no-op
    /// returning `false` — cancellation is idempotent and never touches a
    /// recorded terminal result. An identifier never submitted is
    /// `UnknownJob`.
    pub fn cancel(&mut self, id: &str) -> (r: Result<bool, OrchestratorError>)
        requires
            old(self).wf(),
        ensures
            final(self).wf(),
            r is Ok <==> old(self).has_job(id@),
            r is Err ==> (*final(self) == *old(self) && (r->Err_0
                matches OrchestratorError::UnknownJob { generation_id } && generation_id@
                == id@)),
            r is Ok ==> ({
                let i = old(self).index_of(id@);
                &&& final(self).jobs() == old(self).jobs().update(i, after_cancel(
                    old(self).jobs()[i],
                ))
                &&& r->Ok_0 == !is_terminal(old(self).jobs()[i].status)
                &&& valid_transition(old(self).jobs()[i].status, final(self).jobs()[i].status)
                &&& is_terminal(old(self).jobs()[i].status) ==> *final(self) == *old(self)
            }),
    {
        let i = match self.find(id) {
            Some(i) => i,
            None => {
                return Err(
                    OrchestratorError::UnknownJob { generation_id: String::from_str(id) },
                );
            },
        };
        proof {
            self.lemma_index_unique(id@, i as int);
        }
        let terminal = match self.jobs[i].status {
            JobStatus::Completed => true,
            JobStatus::Failed => true,
            JobStatus::Cancelled => true,
            _ => false,
        };
        if terminal {
            proof {
                assert(self.jobs@ =~= old(self).jobs().update(
                    old(self).index_of(id@),
                    after_cancel(old(self).jobs()[old(self).index_of(id@)]),
                ));
            }
            Ok(false)
        } else {
            let gid = self.jobs[i].generation_id.clone();
            self.jobs[i] = Job {
                generation_id: gid,
                status: JobStatus::Cancelled,
                result: None,
                fault: None,
            };
            proof {
                assert(self.jobs@ =~= old(self).jobs().update(
                    old(self).index_of(id@),
                    after_cancel(old(self).jobs()[old(self).index_of(id@)]),
                ));
            }
            Ok(true)
        }
    }
}

/// Law: two distinct jobs the registry holds never share a generation
/// identifier, and every identifier is a syntactically valid version-4 UUID.
pub proof fn lemma_live_ids_unique(r: JobRegistry, i: int, j: int)
    requires
        r.wf(),
        0 <= i < r.jobs().len(),
        0 <= j < r.jobs().len(),
        i != j,
    ensures
        r.jobs()[i].generation_id@ != r.jobs()[j].generation_id@,
        is_uuid_v4(r.jobs()[i].generation_id@),
{
}

} // verus!
