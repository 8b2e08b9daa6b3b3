use vstd::prelude::*;
use crate::config::SchedulerConfig;

verus! {

/// The numeric precision of a fresh session's key/value cache entries.
#[derive(Clone, Copy, PartialEq, Eq, Structural, Debug)]
pub enum MemoryPrecision {
    /// Half-precision (16-bit) cache entries.
    Half,
    /// Single-precision (32-bit) cache entries.
    Single,
}

/// Where one generation's starting session comes from. The policy is
/// evaluated per request, so every restored generation starts from the
/// identical snapshot state rather than from a state earlier requests have
/// advanced.
#[derive(Clone, Copy, PartialEq, Eq, Structural, Debug)]
pub enum SessionPlan {
    /// Decode the starting state from the validated snapshot payload.
    Restore,
    /// Start a new session from the model with this cache precision.
    Fresh(MemoryPrecision),
}

/// The session plan a configuration directs: restore exactly when a
/// restore path is configured, otherwise a fresh session whose cache
/// precision follows the configured memory flag.
pub open spec fn plan_of(cfg: SchedulerConfig) -> SessionPlan {
    if cfg.restore_path is Some {
        SessionPlan::Restore
    } else if cfg.half_precision_memory {
        SessionPlan::Fresh(MemoryPrecision::Half)
    } else {
        SessionPlan::Fresh(MemoryPrecision::Single)
    }
}

/// Decide where the next generation's starting session comes from.
pub fn plan_session(cfg: &SchedulerConfig) -> (plan: SessionPlan)
    ensures
        plan == plan_of(*cfg),
{
    if cfg.restore_path.is_some() {
        SessionPlan::Restore
    } else if cfg.half_precision_memory {
        SessionPlan::Fresh(MemoryPrecision::Half)
    } else {
        SessionPlan::Fresh(MemoryPrecision::Single)
    }
}

/// Declares `llm::models::Llama`, the loaded model the scheduler owns
/// exclusively; opaque here.
#[verifier::external_type_specification]
#[verifier::external_body]
pub struct ExLlama(llm::models::Llama);

/// Declares `llm::InferenceSession`, one generation's mutable engine
/// state; opaque here.
#[verifier::external_type_specification]
#[verifier::external_body]
pub struct ExInferenceSession(llm::InferenceSession);

/// Declares `llm::SnapshotError`, the engine's reason a decoded snapshot
/// could not become a session.
#[verifier::external_type_specification]
#[verifier::external_body]
pub struct ExLlmSnapshotError(llm::SnapshotError);

/// Relies on `llm::Model::start_session`: a fresh generation session for
/// this model, with the requested key/value cache precision for both the
/// key and the value tensors.
#[verifier::external_body]
pub(crate) fn model_start_session(model: &llm::models::Llama, precision: MemoryPrecision) -> (session: llm::InferenceSession) {
    let kind = match precision {
        MemoryPrecision::Half => llm::ModelKVMemoryType::Float16,
        MemoryPrecision::Single => llm::ModelKVMemoryType::Float32,
    };
    llm::Model::start_session(
        model,
        llm::InferenceSessionConfig { memory_k_type: kind, memory_v_type: kind },
    )
}

/// Relies on `llm::InferenceSession::from_snapshot`: rebuilds a session
/// from a decoded snapshot, failing when the snapshot's tensors do not fit
/// the loaded model.
#[verifier::external_body]
pub(crate) fn session_from_snapshot(snapshot: llm::InferenceSnapshot, model: &llm::models::Llama) -> (r: Result<llm::InferenceSession, llm::SnapshotError>) {
    llm::InferenceSession::from_snapshot(snapshot, model)
}

} // verus!
