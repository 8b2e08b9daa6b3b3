use vstd::prelude::*;

verus! {

/// Process-wide settings, read once at startup and handed by reference to
/// the scheduler; request handling never consults ambient global state.
///
/// The sampling controls that are real-valued (`top_p`, `repeat_penalty`,
/// `temp`) are carried as the raw bit pattern of an IEEE single-precision
/// value. The scheduler only selects and copies these controls — it never
/// computes with them — so the bit pattern is all it needs to hold.
pub struct SchedulerConfig {
    /// Path of the model file the scheduler loads at startup.
    pub model_path: String,
    /// Number of worker threads handed to the generation engine.
    pub num_threads: usize,
    /// Default number of prompt tokens fed to the model per batch.
    pub batch_size: usize,
    /// Default top-k sampling cutoff.
    pub top_k: usize,
    /// Default top-p (nucleus) sampling cutoff, as raw bits.
    pub top_p_bits: u32,
    /// Default repetition penalty, as raw bits.
    pub repeat_penalty_bits: u32,
    /// Default sampling temperature, as raw bits.
    pub temp_bits: u32,
    /// How many recent tokens the repetition penalty looks back over.
    pub repeat_last_n: usize,
    /// Whether a fresh session's key/value cache holds half-precision
    /// entries rather than single-precision ones.
    pub half_precision_memory: bool,
    /// When set, every generation starts from the session snapshot stored
    /// at this path instead of from a fresh session.
    pub restore_path: Option<String>,
}

} // verus!
