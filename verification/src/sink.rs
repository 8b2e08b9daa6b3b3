use vstd::prelude::*;

verus! {

/// An error a transport layer may report through a request's output sink.
/// The scheduler itself only ever sends successfully produced tokens; the
/// error slot exists so a sink's consumer sees one stream type for both
/// outcomes.
#[derive(Clone, Copy, PartialEq, Eq, Structural, Debug)]
pub struct TransportError;

/// Declares `flume::Sender`, the producer handle of the channel used both
/// for the request queue and for each request's output sink; its contents
/// are opaque here.
#[verifier::external_type_specification]
#[verifier::external_body]
#[verifier::reject_recursive_types(T)]
pub struct ExSender<T>(flume::Sender<T>);

/// Relies on `flume::Sender::send`: on an unbounded channel it never blocks,
/// and it fails exactly when every receiver has been dropped. Which of the
/// two happens depends on the consumer's behaviour in other threads, so
/// nothing more is promised of the returned flag.
#[verifier::external_body]
fn send_ok_token(tx: &flume::Sender<Result<String, TransportError>>, token: String) -> (delivered: bool) {
    tx.send(Ok(token)).is_ok()
}

/// Forward one produced token, wrapped as a success, to a request's output
/// sink. Delivery is best-effort: a closed or dropped sink is only reported
/// in the returned flag, never treated as an error, so the generation that
/// drives this call always continues.
pub fn forward_token(tx: &flume::Sender<Result<String, TransportError>>, token: String) -> (delivered: bool)
{
    send_ok_token(tx, token)
}

} // verus!
