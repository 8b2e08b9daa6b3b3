use inference_scheduler::config::SchedulerConfig;
use inference_scheduler::params::resolve_parameters;
use inference_scheduler::request::InferenceRequest;
use inference_scheduler::scheduler::{GenerationJob, Scheduler, StepAction};
use inference_scheduler::session::{plan_session, MemoryPrecision, SessionPlan};
use inference_scheduler::sink::{forward_token, TransportError};
use inference_scheduler::snapshot::{load_snapshot, RestoreError};

fn test_config() -> SchedulerConfig {
    SchedulerConfig {
        model_path: String::from("model.bin"),
        num_threads: 4,
        batch_size: 8,
        top_k: 40,
        top_p_bits: 0.95f32.to_bits(),
        repeat_penalty_bits: 1.3f32.to_bits(),
        temp_bits: 0.8f32.to_bits(),
        repeat_last_n: 64,
        half_precision_memory: false,
        restore_path: None,
    }
}

fn request_with_sink(
    prompt: &str,
    cache: u64,
) -> (
    InferenceRequest,
    flume::Receiver<Result<String, TransportError>>,
) {
    let (tx, rx) = flume::unbounded();
    (
        InferenceRequest {
            tx_tokens: tx,
            num_predict: None,
            prompt: String::from(prompt),
            n_batch: None,
            top_k: None,
            top_p_bits: None,
            repeat_penalty_bits: None,
            temp_bits: None,
            cache,
        },
        rx,
    )
}

/// A byte string that bincode decodes into a session snapshot: all fields
/// zero or empty (cache type variants at index zero, every length zero).
fn minimal_snapshot_payload() -> Vec<u8> {
    vec![0u8; 48]
}

#[test]
fn overrides_take_precedence_over_defaults() {
    let cfg = test_config();
    let (mut req, _rx) = request_with_sink("hi", 9);
    req.num_predict = Some(12);
    req.n_batch = Some(2);
    req.top_k = Some(7);
    req.top_p_bits = Some(0.5f32.to_bits());
    req.repeat_penalty_bits = Some(1.1f32.to_bits());
    req.temp_bits = Some(0.25f32.to_bits());
    let p = resolve_parameters(&req, &cfg);
    assert_eq!(p.n_threads, 4);
    assert_eq!(p.n_batch, 2);
    assert_eq!(p.top_k, 7);
    assert_eq!(p.top_p_bits, 0.5f32.to_bits());
    assert_eq!(p.repeat_penalty_bits, 1.1f32.to_bits());
    assert_eq!(p.temp_bits, 0.25f32.to_bits());
    assert_eq!(p.repetition_penalty_last_n, 64);
    assert_eq!(p.maximum_token_count, Some(12));
}

#[test]
fn unset_overrides_fall_back_to_defaults_verbatim() {
    let cfg = test_config();
    let (req, _rx) = request_with_sink("hi", 9);
    let p = resolve_parameters(&req, &cfg);
    assert_eq!(p.n_threads, 4);
    assert_eq!(p.n_batch, 8);
    assert_eq!(p.top_k, 40);
    assert_eq!(p.top_p_bits, 0.95f32.to_bits());
    assert_eq!(p.repeat_penalty_bits, 1.3f32.to_bits());
    assert_eq!(p.temp_bits, 0.8f32.to_bits());
    assert_eq!(p.repetition_penalty_last_n, 64);
    assert_eq!(p.maximum_token_count, None);
}

#[test]
fn mixed_overrides_resolve_field_by_field() {
    let cfg = test_config();
    let (mut req, _rx) = request_with_sink("hi", 9);
    req.top_k = Some(3);
    let p = resolve_parameters(&req, &cfg);
    assert_eq!(p.top_k, 3);
    assert_eq!(p.n_batch, 8);
    assert_eq!(p.temp_bits, 0.8f32.to_bits());
}

#[test]
fn fresh_plan_follows_memory_flag() {
    let mut cfg = test_config();
    assert_eq!(
        plan_session(&cfg),
        SessionPlan::Fresh(MemoryPrecision::Single)
    );
    cfg.half_precision_memory = true;
    assert_eq!(plan_session(&cfg), SessionPlan::Fresh(MemoryPrecision::Half));
}

#[test]
fn restore_plan_when_path_configured() {
    let mut cfg = test_config();
    cfg.restore_path = Some(String::from("snapshot.zst"));
    assert_eq!(plan_session(&cfg), SessionPlan::Restore);
}

#[test]
fn tokens_arrive_in_generation_order() {
    let (req, rx) = request_with_sink("hi", 1);
    assert!(forward_token(&req.tx_tokens, String::from("He")));
    assert!(forward_token(&req.tx_tokens, String::from("ll")));
    assert!(forward_token(&req.tx_tokens, String::from("o")));
    let got: Vec<String> = rx.try_iter().map(|r| r.unwrap()).collect();
    assert_eq!(got, vec!["He", "ll", "o"]);
}

#[test]
fn closed_sink_is_reported_and_never_fatal() {
    let (req, rx) = request_with_sink("hi", 1);
    drop(rx);
    assert!(!forward_token(&req.tx_tokens, String::from("He")));
    assert!(!forward_token(&req.tx_tokens, String::from("llo")));
}

#[test]
fn closed_sink_does_not_disturb_later_requests() {
    let cfg = test_config();
    let mut scheduler = Scheduler::new(cfg, None).unwrap();

    let (req_a, rx_a) = request_with_sink("first", 1);
    drop(rx_a);
    match scheduler.on_poll(Some(req_a)) {
        StepAction::Run(job) => {
            // The consumer is gone; delivery fails quietly and generation
            // would simply run on.
            assert!(!forward_token(&job.sink, String::from("lost")));
        }
        StepAction::Idle => panic!("a polled request must be run"),
    }

    let (req_b, rx_b) = request_with_sink("second", 2);
    match scheduler.on_poll(Some(req_b)) {
        StepAction::Run(job) => {
            assert_eq!(job.prompt, "second");
            assert!(forward_token(&job.sink, String::from("fine")));
        }
        StepAction::Idle => panic!("a polled request must be run"),
    }
    let got: Vec<String> = rx_b.try_iter().map(|r| r.unwrap()).collect();
    assert_eq!(got, vec!["fine"]);
}

#[test]
fn three_token_request_uses_defaults_for_unset_controls() {
    let cfg = test_config();
    let mut scheduler = Scheduler::new(cfg, None).unwrap();
    let (mut req, rx) = request_with_sink("Hello", 1);
    req.num_predict = Some(3);

    let job: GenerationJob = match scheduler.on_poll(Some(req)) {
        StepAction::Run(job) => job,
        StepAction::Idle => panic!("a polled request must be run"),
    };
    assert_eq!(job.prompt, "Hello");
    assert_eq!(job.cache, 1);
    assert_eq!(job.params.maximum_token_count, Some(3));
    assert_eq!(job.params.temp_bits, 0.8f32.to_bits());
    assert_eq!(job.params.top_k, 40);
    assert_eq!(job.params.top_p_bits, 0.95f32.to_bits());
    assert_eq!(job.params.repeat_penalty_bits, 1.3f32.to_bits());

    // The engine would hit the three-token cap; each produced token is
    // forwarded as a success, in order.
    for t in ["He", "ll", "o"] {
        assert!(forward_token(&job.sink, String::from(t)));
    }
    let got: Vec<String> = rx.try_iter().map(|r| r.unwrap()).collect();
    assert_eq!(got, vec!["He", "ll", "o"]);
}

#[test]
fn earlier_request_is_fully_served_before_later_one() {
    let cfg = test_config();
    let mut scheduler = Scheduler::new(cfg, None).unwrap();
    let (req_a, rx_a) = request_with_sink("first", 1);
    let (req_b, rx_b) = request_with_sink("second", 2);

    let job_a = match scheduler.on_poll(Some(req_a)) {
        StepAction::Run(job) => job,
        StepAction::Idle => panic!("a polled request must be run"),
    };
    // A's generation runs to completion before the queue is polled again.
    for t in ["a1", "a2"] {
        assert!(forward_token(&job_a.sink, String::from(t)));
    }
    assert_eq!(rx_a.len(), 2);
    assert!(rx_b.is_empty());

    let job_b = match scheduler.on_poll(Some(req_b)) {
        StepAction::Run(job) => job,
        StepAction::Idle => panic!("a polled request must be run"),
    };
    assert!(forward_token(&job_b.sink, String::from("b1")));
    let got_a: Vec<String> = rx_a.try_iter().map(|r| r.unwrap()).collect();
    let got_b: Vec<String> = rx_b.try_iter().map(|r| r.unwrap()).collect();
    assert_eq!(got_a, vec!["a1", "a2"]);
    assert_eq!(got_b, vec!["b1"]);
}

#[test]
fn empty_poll_idles() {
    let cfg = test_config();
    let mut scheduler = Scheduler::new(cfg, None).unwrap();
    assert!(matches!(scheduler.on_poll(None), StepAction::Idle));
}

#[test]
fn snapshot_round_trips_through_compression() {
    let payload = minimal_snapshot_payload();
    let compressed = zstd::stream::encode_all(payload.as_slice(), 0).unwrap();
    assert_ne!(compressed, payload);
    let restored = load_snapshot(compressed.as_slice()).unwrap();
    assert_eq!(restored, payload);
}

#[test]
fn garbage_bytes_fail_decompression() {
    let r = load_snapshot(b"this is not a compressed stream");
    assert_eq!(r.unwrap_err(), RestoreError::Decompress);
}

#[test]
fn truncated_payload_fails_decoding() {
    let compressed = zstd::stream::encode_all(&[0u8; 7][..], 0).unwrap();
    let r = load_snapshot(compressed.as_slice());
    assert_eq!(r.unwrap_err(), RestoreError::Decode);
}

#[test]
fn malformed_snapshot_is_a_fatal_startup_error() {
    let mut cfg = test_config();
    cfg.restore_path = Some(String::from("snapshot.zst"));
    let r = Scheduler::new(cfg, Some(b"garbage".to_vec()));
    assert!(matches!(r, Err(RestoreError::Decompress)));
}

#[test]
fn undecodable_snapshot_is_a_fatal_startup_error() {
    let mut cfg = test_config();
    cfg.restore_path = Some(String::from("snapshot.zst"));
    let compressed = zstd::stream::encode_all(&[1u8, 2, 3][..], 0).unwrap();
    let r = Scheduler::new(cfg, Some(compressed));
    assert!(matches!(r, Err(RestoreError::Decode)));
}

#[test]
fn valid_snapshot_is_accepted_at_startup() {
    let mut cfg = test_config();
    cfg.restore_path = Some(String::from("snapshot.zst"));
    let compressed =
        zstd::stream::encode_all(minimal_snapshot_payload().as_slice(), 0).unwrap();
    let scheduler = Scheduler::new(cfg, Some(compressed)).unwrap();
    assert_eq!(scheduler.snapshot_payload, Some(minimal_snapshot_payload()));
}

#[test]
fn restore_plan_still_hands_out_jobs() {
    let mut cfg = test_config();
    cfg.restore_path = Some(String::from("snapshot.zst"));
    let compressed =
        zstd::stream::encode_all(minimal_snapshot_payload().as_slice(), 0).unwrap();
    let mut scheduler = Scheduler::new(cfg, Some(compressed)).unwrap();
    let (req, _rx) = request_with_sink("hi", 5);
    match scheduler.on_poll(Some(req)) {
        StepAction::Run(job) => assert_eq!(job.plan, SessionPlan::Restore),
        StepAction::Idle => panic!("a polled request must be run"),
    }
}
