use vstd::prelude::*;
use crate::config::SchedulerConfig;
use crate::params::EffectiveParameters;
use crate::params::effective_of;
use crate::params::resolve_parameters;
use crate::request::InferenceRequest;
use crate::session::SessionPlan;
use crate::session::model_start_session;
use crate::session::plan_of;
use crate::session::plan_session;
use crate::session::session_from_snapshot;
use crate::sink::TransportError;
use crate::snapshot::RestoreError;
use crate::snapshot::decode_snapshot;
use crate::snapshot::load_snapshot;
use crate::snapshot::snapshot_decodes;
use crate::snapshot::valid_snapshot_bytes;
use crate::snapshot::zstd_inflate;

verus! {

/// Everything the execution environment needs to run one admitted request:
/// the prompt, the fully resolved sampling parameters, the session plan,
/// and the request's own output sink.
pub struct GenerationJob {
    /// The prompt to feed to the model.
    pub prompt: String,
    /// The sampling parameters this generation runs with.
    pub params: EffectiveParameters,
    /// Where the starting session comes from.
    pub plan: SessionPlan,
    /// The sink the produced tokens are streamed to.
    pub sink: flume::Sender<Result<String, TransportError>>,
    /// The caller's opaque cache/session key.
    pub cache: u64,
}

/// What the scheduler does after one poll of the request queue: run one
/// generation to completion, or idle briefly before polling again.
pub enum StepAction {
    /// Execute this job synchronously, streaming its tokens to its sink,
    /// before the queue is polled again.
    Run(GenerationJob),
    /// The queue was empty: sleep briefly, then poll again.
    Idle,
}

/// The job the scheduler hands out for a request under a configuration.
/// It is a function of the configuration and the request alone: neither
/// earlier requests nor the fate of their token deliveries enter into it.
pub open spec fn job_for(cfg: SchedulerConfig, req: InferenceRequest) -> GenerationJob {
    GenerationJob {
        prompt: req.prompt,
        params: effective_of(cfg, req),
        plan: plan_of(cfg),
        sink: req.tx_tokens,
        cache: req.cache,
    }
}

/// The service order a sequence of queue polls produces: the polled
/// requests' cache keys, in exactly the order the queue handed them over —
/// empty polls contribute nothing, and no request is skipped, repeated or
/// reordered.
pub open spec fn service_log(polls: Seq<Option<u64>>) -> Seq<u64> {
    polls.filter(|o: Option<u64>| o is Some).map_values(|o: Option<u64>| o->0)
}

/// Polling one more request extends the service order by exactly that
/// request, behind everything polled before it: first in, first out.
pub proof fn lemma_service_log_push_request(polls: Seq<Option<u64>>, key: u64)
    ensures
        service_log(polls.push(Some(key))) =~= service_log(polls).push(key),
{
    reveal(Seq::filter);
    let pred = |o: Option<u64>| o is Some;
    let longer = polls.push(Some(key));
    assert(longer.drop_last() =~= polls);
    assert(longer.filter(pred) =~= polls.filter(pred).push(Some(key)));
}

/// Strict serialization across phases: every request polled in an earlier
/// stretch of the queue is served, completely, before anything polled in a
/// later stretch — the service order of the two stretches in sequence is
/// the first stretch's service order followed by the second's.
pub proof fn lemma_earlier_polls_served_first(earlier: Seq<Option<u64>>, later: Seq<Option<u64>>)
    ensures
        service_log(earlier + later) =~= service_log(earlier) + service_log(later),
{
    let pred = |o: Option<u64>| o is Some;
    let key = |o: Option<u64>| o->0;
    Seq::<Option<u64>>::filter_distributes_over_add(earlier, later, pred);
    assert((earlier.filter(pred) + later.filter(pred)).map_values(key)
        =~= earlier.filter(pred).map_values(key) + later.filter(pred).map_values(key));
}

/// An empty poll leaves the service order unchanged.
pub proof fn lemma_service_log_push_idle(polls: Seq<Option<u64>>)
    ensures
        service_log(polls.push(None)) =~= service_log(polls),
{
    reveal(Seq::filter);
    let pred = |o: Option<u64>| o is Some;
    let longer = polls.push(None);
    assert(longer.drop_last() =~= polls);
    assert(longer.filter(pred) =~= polls.filter(pred));
}

/// The job handed out for a request does not depend on what the scheduler
/// served before, nor on whether any earlier token reached its sink — a
/// closed or dropped sink can therefore never corrupt how later, unrelated
/// requests are handled.
pub proof fn lemma_job_independent_of_history(s1: Scheduler, s2: Scheduler, req: InferenceRequest)
    requires
        s1.config == s2.config,
    ensures
        job_for(s1.config, req) == job_for(s2.config, req),
{
}

/// The single consumer of the request queue. It owns the process-wide
/// configuration and the validated snapshot payload; the execution
/// environment polls the queue, feeds each poll to [`Scheduler::on_poll`],
/// and performs the action handed back.
pub struct Scheduler {
    /// The process-wide configuration the scheduler was started with.
    pub config: SchedulerConfig,
    /// The decompressed snapshot payload, held exactly when a restore path
    /// is configured, and validated to decode into a session snapshot.
    pub snapshot_payload: Option<Vec<u8>>,
    /// The queue polls handled so far, newest last.
    pub polls: Ghost<Seq<Option<u64>>>,
    /// The cache keys of the requests admitted so far, in service order.
    pub served: Ghost<Seq<u64>>,
}

impl Scheduler {
    /// A scheduler is well formed when it holds a snapshot payload exactly
    /// if a restore path is configured, that payload decodes into a session
    /// snapshot, and its service record matches its poll record.
    pub open spec fn wf(self) -> bool {
        &&& self.config.restore_path is Some <==> self.snapshot_payload is Some
        &&& (self.snapshot_payload matches Some(p) ==> snapshot_decodes(p@))
        &&& self.served@ == service_log(self.polls@)
    }

    /// Start the scheduler: when a restore path is configured, the raw
    /// contents of the snapshot file must be supplied, and a file that does
    /// not decompress and decode into a session snapshot is rejected before
    /// any request can be served — a malformed snapshot is a fatal startup
    /// error, and no partial or garbage session state is ever kept.
    pub fn new(config: SchedulerConfig, raw_snapshot: Option<Vec<u8>>) -> (r: Result<Scheduler, RestoreError>)
        requires
            config.restore_path is Some <==> raw_snapshot is Some,
        ensures
            match r {
                Ok(s) => {
                    &&& s.wf()
                    &&& s.config == config
                    &&& s.polls@ == Seq::<Option<u64>>::empty()
                    &&& s.served@ == Seq::<u64>::empty()
                    &&& (raw_snapshot matches Some(raw) ==> valid_snapshot_bytes(raw@)
                        && (s.snapshot_payload matches Some(p) && zstd_inflate(raw@) == Some(p@)))
                    &&& (raw_snapshot is None ==> s.snapshot_payload is None)
                },
                Err(e) => {
                    &&& raw_snapshot matches Some(raw) && !valid_snapshot_bytes(raw@)
                    &&& (e == RestoreError::Decompress || e == RestoreError::Decode)
                },
            },
    {
        match raw_snapshot {
            None => {
                let s = Scheduler {
                    config,
                    snapshot_payload: None,
                    polls: Ghost(Seq::empty()),
                    served: Ghost(Seq::empty()),
                };
                proof {
                    reveal(Seq::filter);
                    assert(s.served@ =~= service_log(s.polls@));
                }
                Ok(s)
            },
            Some(raw) => {
                match load_snapshot(raw.as_slice()) {
                    Ok(payload) => {
                        let s = Scheduler {
                            config,
                            snapshot_payload: Some(payload),
                            polls: Ghost(Seq::empty()),
                            served: Ghost(Seq::empty()),
                        };
                        proof {
                            reveal(Seq::filter);
                            assert(s.served@ =~= service_log(s.polls@));
                        }
                        Ok(s)
                    },
                    Err(e) => Err(e),
                }
            },
        }
    }

    /// Handle one poll of the request queue. A polled request is admitted
    /// at once: the action hands out its job — resolved from the
    /// configuration and the request alone — and the request joins the
    /// service record behind everything admitted before it. An empty poll
    /// asks the environment to idle briefly and changes nothing.
    pub fn on_poll(&mut self, polled: Option<InferenceRequest>) -> (act: StepAction)
        requires
            old(self).wf(),
        ensures
            final(self).wf(),
            final(self).config == old(self).config,
            final(self).snapshot_payload == old(self).snapshot_payload,
            match polled {
                Some(req) => {
                    &&& act matches StepAction::Run(job) && job == job_for(old(self).config, req)
                    &&& final(self).polls@ == old(self).polls@.push(Some(req.cache))
                    &&& final(self).served@ == old(self).served@.push(req.cache)
                },
                None => {
                    &&& act is Idle
                    &&& final(self).polls@ == old(self).polls@.push(None)
                    &&& final(self).served@ == old(self).served@
                },
            },
    {
        match polled {
            Some(req) => {
                let params = resolve_parameters(&req, &self.config);
                let plan = plan_session(&self.config);
                proof {
                    lemma_service_log_push_request(self.polls@, req.cache);
                }
                self.polls = Ghost(self.polls@.push(Some(req.cache)));
                self.served = Ghost(self.served@.push(req.cache));
                StepAction::Run(GenerationJob {
                    prompt: req.prompt,
                    params,
                    plan,
                    sink: req.tx_tokens,
                    cache: req.cache,
                })
            },
            None => {
                proof {
                    lemma_service_log_push_idle(self.polls@);
                }
                self.polls = Ghost(self.polls@.push(None));
                StepAction::Idle
            },
        }
    }

    /// Produce the starting generation session for one request, as the
    /// active plan directs: decoded afresh from the validated snapshot
    /// payload — so every restored generation starts from the identical
    /// snapshot state — or started fresh from the model with the configured
    /// cache precision. On a well-formed scheduler the payload always
    /// decodes, so the only possible failure is a snapshot that does not
    /// fit the loaded model.
    pub fn prepare_session(&self, model: &llm::models::Llama) -> (r: Result<llm::InferenceSession, RestoreError>)
        ensures
            plan_of(self.config) matches SessionPlan::Fresh(_) ==> r.is_ok(),
            r matches Err(e) ==> e == RestoreError::Decode || e == RestoreError::Incompatible,
            self.wf() ==> (r matches Err(e) ==> e == RestoreError::Incompatible),
    {
        let plan = plan_session(&self.config);
        match plan {
            SessionPlan::Fresh(precision) => Ok(model_start_session(model, precision)),
            SessionPlan::Restore => {
                match &self.snapshot_payload {
                    Some(payload) => {
                        match decode_snapshot(payload.as_slice()) {
                            Ok(snapshot) => {
                                match session_from_snapshot(snapshot, model) {
                                    Ok(session) => Ok(session),
                                    Err(_) => Err(RestoreError::Incompatible),
                                }
                            },
                            Err(_) => Err(RestoreError::Decode),
                        }
                    },
                    // Unreachable on a well-formed scheduler: a restore plan
                    // implies a held payload.
                    None => Err(RestoreError::Decode),
                }
            },
        }
    }
}

} // verus!
