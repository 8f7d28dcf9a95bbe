//! Tap delivery: routes captured PCM chunks into a bounded in-process
//! channel. Delivery is a non-blocking attempt — a chunk that finds the
//! channel full is dropped, a deliberate load-shedding policy that keeps
//! the capture thread responsive. Chunks carry samples as 32-bit words.
use vstd::prelude::*;

verus! {

#[verifier::external_type_specification]
#[verifier::external_body]
#[verifier::reject_recursive_types(T)]
pub struct ExSender<T>(crossbeam_channel::Sender<T>);

/// How many chunks the recording pipeline's channel buffers.
pub const CHANNEL_CAPACITY: usize = 32;

/// Relies on crossbeam_channel::Sender::try_send: never blocks; the chunk
/// is accepted unless the channel is full or disconnected, and is
/// discarded otherwise — load shedding, not an error.
#[verifier::external_body]
fn try_deliver(sender: &crossbeam_channel::Sender<Vec<u32>>, samples: Vec<u32>) {
    let _ = sender.try_send(samples);
}

/// The consumer a capture tap delivers its chunks to. The recording
/// pipeline uses the buffered-channel consumer; a host-managed consumer
/// would live with the host bindings, outside this crate.
pub enum AudioCallback {
    /// Deliver into a bounded channel, dropping on overflow.
    Channel(crossbeam_channel::Sender<Vec<u32>>),
}

impl AudioCallback {
    /// Delivers one chunk to the configured consumer without blocking;
    /// a chunk the consumer cannot take right now is discarded.
    pub fn call(&self, samples: Vec<u32>) {
        match self {
            AudioCallback::Channel(sender) => {
                try_deliver(sender, samples);
            },
        }
    }
}

} // verus!
