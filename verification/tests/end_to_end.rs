//! A whole synthetic session: a capture source feeding silence through the
//! bounded channel into the pipeline, stopped, and the artifact checked.
//! Sample words carry `f32` bit patterns; the converter runs the real
//! resampler crate. The compressed payload stands in as opaque bytes here:
//! the container and its accounting are what these tests observe.
use media_capture::AudioCallback;
use media_capture::CHANNEL_CAPACITY;
use media_capture::OggOpusWriter;
use media_capture::RecordingSessionMeta;
use media_capture::SessionRegistry;
use media_capture::duration_ms;
use media_capture::make_artifact;
use media_capture::now_millis;
use media_capture::output_file_name;
use media_capture::sanitize_id;
use rubato::Resampler;

/// Drains the channel and drives the writer the way the worker thread
/// does, returning the finished container bytes and sample count.
fn run_worker(
    rx: &crossbeam_channel::Receiver<Vec<u32>>,
    source_rate: u32,
    channels: u32,
) -> Result<(Vec<u8>, u64), media_capture::RecordingError> {
    let mut writer = OggOpusWriter::new(source_rate, channels);
    let ch = writer.channels() as usize;
    let mut engine = if source_rate != 48000 {
        Some(
            rubato::FastFixedIn::<f32>::new(
                48000.0 / source_rate as f64,
                1.0,
                rubato::PolynomialDegree::Linear,
                1024,
                ch,
            )
            .expect("the resampler accepts this ratio"),
        )
    } else {
        None
    };
    for chunk in rx.iter() {
        writer.queue_samples(&chunk);
        while let Some(raw) = writer.next_chunk() {
            let floats: Vec<Vec<f32>> = raw
                .iter()
                .map(|b| b.iter().map(|&w| f32::from_bits(w)).collect())
                .collect();
            let blocks = engine
                .as_mut()
                .expect("chunks only exist in conversion mode")
                .process(&floats, None)
                .expect("conversion of a full chunk succeeds");
            let words: Vec<Vec<u32>> = blocks
                .iter()
                .map(|b| b.iter().map(|&s| s.to_bits()).collect())
                .collect();
            writer.accept_converted(&words);
        }
        while let Some(frame) = writer.take_frame() {
            // The compressor would run here; its output is opaque bytes.
            writer.write_audio_packet(vec![0x5A; 40], frame.len() / ch);
        }
    }
    if let Some((frame, true_samples)) = writer.final_frame() {
        let _ = frame;
        writer.write_audio_packet(vec![0x5A; 40], true_samples);
    }
    writer.finish()
}

#[test]
fn session_at_encode_rate_reports_exact_duration() {
    // 100 ms of silence at the encode rate, mono, in 10 ms chunks.
    let (tx, rx) = crossbeam_channel::bounded::<Vec<u32>>(CHANNEL_CAPACITY);
    let source = AudioCallback::Channel(tx);
    for _ in 0..10 {
        source.call(vec![0f32.to_bits(); 480]);
    }
    drop(source);
    let (bytes, total) = run_worker(&rx, 48000, 1).expect("audio was captured");
    assert_eq!(total, 4800);
    assert_eq!(duration_ms(total), 100);
    assert_eq!(&bytes[0..4], b"OggS");
    assert_eq!(&bytes[28..36], b"OpusHead");
    assert_eq!(&bytes[47 + 28..47 + 36], b"OpusTags");
    let artifact = make_artifact(
        String::from("e2e"),
        String::from("/tmp/e2e.opus"),
        1,
        total,
        bytes.len() as i64,
    );
    assert_eq!(artifact.sample_rate, 48000);
    assert_eq!(artifact.channels, 1);
    assert_eq!(artifact.duration_ms, 100);
}

#[test]
fn session_with_conversion_produces_a_valid_artifact() {
    // 100 ms of silence at 44.1 kHz, mono: the converter's warm-up block
    // is discarded and a sub-chunk residue stays buffered, so the duration
    // is below 100 ms but audio is still captured and framed.
    let (tx, rx) = crossbeam_channel::bounded::<Vec<u32>>(CHANNEL_CAPACITY);
    let source = AudioCallback::Channel(tx);
    for _ in 0..10 {
        source.call(vec![0f32.to_bits(); 441]);
    }
    drop(source);
    let (bytes, total) = run_worker(&rx, 44100, 1).expect("audio was captured");
    assert!(total > 0);
    assert!(duration_ms(total) <= 100);
    assert_eq!(&bytes[0..4], b"OggS");
    assert_eq!(&bytes[28..36], b"OpusHead");
}

#[test]
fn start_and_stop_bookkeeping_around_a_session() {
    let mut registry = SessionRegistry::new();
    let started_at = now_millis();
    let id = sanitize_id(Some(String::from("e2e session!")));
    assert_eq!(id, "e2esession");
    let filepath = output_file_name(&String::from("/tmp/captures"), &id);
    let meta = RecordingSessionMeta {
        id: id.clone(),
        filepath: filepath.clone(),
        sample_rate: 48000,
        channels: 1,
        started_at,
    };
    assert!(registry.insert(meta).is_ok());
    let stopped = registry.remove(&id).expect("the session was active");
    assert_eq!(stopped.filepath, "/tmp/captures/e2esession.opus");
    assert!(registry.remove(&id).is_err());
}
