use vstd::prelude::*;
use crate::sink::TransportError;

verus! {

/// One caller's generation job, handed to the scheduler over the request
/// queue and consumed exactly once.
///
/// Every `Option` field is an override: when present it takes strict
/// precedence over the corresponding process-wide default, when absent the
/// default is used verbatim. The real-valued overrides are carried as raw
/// bit patterns, as in [`crate::config::SchedulerConfig`].
pub struct InferenceRequest {
    /// The per-request output sink the produced tokens are streamed to.
    pub tx_tokens: flume::Sender<Result<String, TransportError>>,
    /// Cap on the number of tokens generated for this request; `None`
    /// leaves the count to the engine.
    pub num_predict: Option<usize>,
    /// The prompt to feed to the model.
    pub prompt: String,
    /// Override for the per-batch prompt token count.
    pub n_batch: Option<usize>,
    /// Override for the top-k sampling cutoff.
    pub top_k: Option<usize>,
    /// Override for the top-p sampling cutoff, as raw bits.
    pub top_p_bits: Option<u32>,
    /// Override for the repetition penalty, as raw bits.
    pub repeat_penalty_bits: Option<u32>,
    /// Override for the sampling temperature, as raw bits.
    pub temp_bits: Option<u32>,
    /// The caller's opaque cache/session key.
    pub cache: u64,
}

} // verus!
