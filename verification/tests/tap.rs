//! Tap delivery and backpressure: the producer never blocks; overload is
//! shed by dropping chunks, never by stalling or failing.
use media_capture::AudioCallback;
use media_capture::CHANNEL_CAPACITY;

#[test]
fn overload_drops_chunks_without_blocking() {
    // Nothing drains the channel, standing in for a paused worker; far
    // more chunks than the capacity are offered through the callback, and
    // every call returns immediately instead of blocking.
    let (tx, rx) = crossbeam_channel::bounded::<Vec<u32>>(CHANNEL_CAPACITY);
    let cb = AudioCallback::Channel(tx);
    for i in 0..CHANNEL_CAPACITY as u32 + 100 {
        cb.call(vec![i]);
    }
    // Exactly the capacity's worth was buffered, in production order; the
    // hundred chunks beyond it were dropped, with no error raised.
    for i in 0..CHANNEL_CAPACITY as u32 {
        assert_eq!(rx.recv().ok(), Some(vec![i]));
    }
    drop(cb);
    assert!(rx.recv().is_err());
}

#[test]
fn closed_channel_signals_end_of_input() {
    let (tx, rx) = crossbeam_channel::bounded::<Vec<u32>>(4);
    let cb = AudioCallback::Channel(tx);
    cb.call(vec![9]);
    drop(cb);
    assert_eq!(rx.recv().ok(), Some(vec![9]));
    assert!(rx.recv().is_err(), "all senders gone and nothing buffered");
}
