//! The chunk channel between the audio callback and the writer: a queue of
//! the `crossbeam_channel` crate with one producer and one consumer. The
//! application makes it unbounded, so that no chunk is lost to a full queue.

use vstd::prelude::*;

verus! {

/// The sending end of a `crossbeam_channel` channel.
#[verifier::external_type_specification]
#[verifier::external_body]
#[verifier::reject_recursive_types(T)]
pub struct ExSender<T>(crossbeam_channel::Sender<T>);

/// The receiving end of a `crossbeam_channel` channel.
#[verifier::external_type_specification]
#[verifier::external_body]
#[verifier::reject_recursive_types(T)]
pub struct ExReceiver<T>(crossbeam_channel::Receiver<T>);

/// Calls `crossbeam_channel::Sender::try_send` and tells whether the chunk
/// was queued. The call never waits, whatever the kind of the channel. It
/// fails when every receiver is gone, or when a channel of bounded capacity
/// is full; the chunk is then dropped. Nothing is claimed of the outcome: it
/// depends on what the other end has done.
#[verifier::external_body]
pub(crate) fn send_chunk(tx: &crossbeam_channel::Sender<Vec<i16>>, chunk: Vec<i16>) -> (queued:
    bool) {
    tx.try_send(chunk).is_ok()
}

/// Calls `crossbeam_channel::Receiver::recv`: waits for the next chunk and
/// returns it, or returns `None` once the channel is empty and every sender is
/// gone. Nothing is claimed of the outcome: it depends on what the other end
/// has done.
#[verifier::external_body]
pub(crate) fn recv_chunk(rx: &crossbeam_channel::Receiver<Vec<i16>>) -> (chunk: Option<Vec<i16>>) {
    rx.recv().ok()
}

} // verus!
