use vstd::prelude::*;
use crate::config::SchedulerConfig;
use crate::request::InferenceRequest;

verus! {

/// The value an optional request-level override selects: the override
/// itself when present, the process-wide fallback otherwise.
pub open spec fn chosen<T>(over: Option<T>, fallback: T) -> T {
    match over {
        Some(v) => v,
        None => fallback,
    }
}

/// The sampling parameters one generation actually runs with, after the
/// request's overrides have been overlaid onto the process-wide defaults.
/// Real-valued controls are raw bit patterns, as in [`SchedulerConfig`].
#[derive(Clone, Copy)]
pub struct EffectiveParameters {
    /// Worker threads handed to the generation engine.
    pub n_threads: usize,
    /// Prompt tokens fed to the model per batch.
    pub n_batch: usize,
    /// Top-k sampling cutoff.
    pub top_k: usize,
    /// Top-p sampling cutoff, as raw bits.
    pub top_p_bits: u32,
    /// Repetition penalty, as raw bits.
    pub repeat_penalty_bits: u32,
    /// Sampling temperature, as raw bits.
    pub temp_bits: u32,
    /// How many recent tokens the repetition penalty looks back over.
    pub repetition_penalty_last_n: usize,
    /// Cap on the number of tokens generated; `None` leaves the count to
    /// the engine.
    pub maximum_token_count: Option<usize>,
}

/// The parameters a request runs with under a given configuration: each
/// override, when set, strictly takes precedence over the process-wide
/// default; when unset, the default is used verbatim.
pub open spec fn effective_of(cfg: SchedulerConfig, req: InferenceRequest) -> EffectiveParameters {
    EffectiveParameters {
        n_threads: cfg.num_threads,
        n_batch: chosen(req.n_batch, cfg.batch_size),
        top_k: chosen(req.top_k, cfg.top_k),
        top_p_bits: chosen(req.top_p_bits, cfg.top_p_bits),
        repeat_penalty_bits: chosen(req.repeat_penalty_bits, cfg.repeat_penalty_bits),
        temp_bits: chosen(req.temp_bits, cfg.temp_bits),
        repetition_penalty_last_n: cfg.repeat_last_n,
        maximum_token_count: req.num_predict,
    }
}

/// Overlay a request's optional overrides onto the process-wide defaults.
pub fn resolve_parameters(req: &InferenceRequest, cfg: &SchedulerConfig) -> (p: EffectiveParameters)
    ensures
        p == effective_of(*cfg, *req),
{
    EffectiveParameters {
        n_threads: cfg.num_threads,
        n_batch: match req.n_batch {
            Some(v) => v,
            None => cfg.batch_size,
        },
        top_k: match req.top_k {
            Some(v) => v,
            None => cfg.top_k,
        },
        top_p_bits: match req.top_p_bits {
            Some(v) => v,
            None => cfg.top_p_bits,
        },
        repeat_penalty_bits: match req.repeat_penalty_bits {
            Some(v) => v,
            None => cfg.repeat_penalty_bits,
        },
        temp_bits: match req.temp_bits {
            Some(v) => v,
            None => cfg.temp_bits,
        },
        repetition_penalty_last_n: cfg.repeat_last_n,
        maximum_token_count: req.num_predict,
    }
}

} // verus!
