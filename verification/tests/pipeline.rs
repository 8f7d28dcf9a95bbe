//! The codec/container writer: frame slicing, padding, the empty-recording
//! rule, pass-through conservation and the serialized header packets.
use media_capture::OggOpusWriter;
use media_capture::RecordingError;
use media_capture::duration_ms;
use media_capture::make_artifact;

fn words(n: usize) -> Vec<u32> {
    (0..n as u32).collect()
}

#[test]
fn empty_session_fails_finalize() {
    let w = OggOpusWriter::new(48000, 1);
    match w.finish() {
        Err(RecordingError::Empty) => {}
        _ => panic!("a session with no audio must fail finalize with empty-recording"),
    }
}

#[test]
fn partial_frame_is_padded_but_duration_counts_true_samples() {
    let mut w = OggOpusWriter::new(48000, 1);
    w.queue_samples(&vec![0u32; 480]);
    assert!(w.take_frame().is_none());
    let (frame, true_samples) = w.final_frame().expect("a partial frame was pending");
    assert_eq!(frame.len(), 960);
    assert_eq!(true_samples, 480);
    assert!(frame[480..].iter().all(|&s| s == 0));
    w.write_audio_packet(vec![1, 2, 3], true_samples);
    let (_bytes, total) = w.finish().expect("one data packet was written");
    assert_eq!(total, 480);
    assert_eq!(duration_ms(total), 10);
}

#[test]
fn stereo_partial_frame_counts_per_channel_samples() {
    let mut w = OggOpusWriter::new(48000, 2);
    assert_eq!(w.channels(), 2);
    assert_eq!(w.frame_len(), 1920);
    w.queue_samples(&vec![7u32; 100]);
    let (frame, true_samples) = w.final_frame().expect("a partial frame was pending");
    assert_eq!(frame.len(), 1920);
    assert_eq!(true_samples, 50);
}

#[test]
fn passthrough_conserves_samples_and_values() {
    let mut w = OggOpusWriter::new(48000, 1);
    let fed = words(2400);
    w.queue_samples(&fed);
    let mut taken: Vec<u32> = Vec::new();
    let mut frames = 0;
    while let Some(frame) = w.take_frame() {
        assert_eq!(frame.len(), 960);
        taken.extend_from_slice(&frame);
        frames += 1;
    }
    assert_eq!(frames, 2);
    assert_eq!(w.pending_len(), 480);
    assert_eq!(taken.len() + w.pending_len(), fed.len());
    assert_eq!(&taken[..], &fed[..1920]);
    let (frame, true_samples) = w.final_frame().expect("the residue was pending");
    assert_eq!(true_samples, 480);
    assert_eq!(&frame[..480], &fed[1920..]);
}

#[test]
fn conversion_mode_chunks_and_discards_warmup() {
    let mut w = OggOpusWriter::new(44100, 1);
    w.queue_samples(&words(1000));
    assert!(w.next_chunk().is_none(), "below one input chunk nothing converts");
    w.queue_samples(&words(1100));
    let chunk = w.next_chunk().expect("1024 samples were queued");
    assert_eq!(chunk.len(), 1);
    assert_eq!(chunk[0].len(), 1024);
    assert_eq!(&chunk[0][..1000], &words(1000)[..]);
    let chunk2 = w.next_chunk().expect("1076 samples remain queued");
    assert_eq!(chunk2[0].len(), 1024);
    assert!(w.next_chunk().is_none(), "only 52 samples remain queued");
    // The first converted block is the warm-up artifact: discarded.
    w.accept_converted(&vec![vec![9u32; 500]]);
    assert_eq!(w.pending_len(), 0);
    // The second one is kept and joins the pending buffer.
    w.accept_converted(&vec![vec![3u32; 500]]);
    assert_eq!(w.pending_len(), 500);
}

#[test]
fn stereo_chunks_deinterleave_per_channel() {
    let mut w = OggOpusWriter::new(44100, 2);
    let mut fed: Vec<u32> = Vec::new();
    for i in 0..1024u32 {
        fed.push(i * 2);
        fed.push(i * 2 + 1);
    }
    w.queue_samples(&fed);
    let chunk = w.next_chunk().expect("one full stereo chunk was queued");
    assert_eq!(chunk.len(), 2);
    assert_eq!(chunk[0].len(), 1024);
    assert_eq!(chunk[1].len(), 1024);
    assert_eq!(chunk[0][5], 10);
    assert_eq!(chunk[1][5], 11);
    // Converted blocks come back re-interleaved.
    w.accept_converted(&vec![vec![1u32; 4], vec![2u32; 4]]);
    assert_eq!(w.pending_len(), 0);
    w.accept_converted(&vec![vec![1u32; 4], vec![2u32; 4]]);
    assert_eq!(w.pending_len(), 8);
}

#[test]
fn container_starts_with_the_two_header_packets() {
    let mut w = OggOpusWriter::new(48000, 1);
    w.queue_samples(&vec![0u32; 960]);
    let frame = w.take_frame().expect("one full frame was queued");
    assert_eq!(frame.len(), 960);
    w.write_audio_packet(vec![0xAA, 0xBB], 960);
    let (bytes, total) = w.finish().expect("one data packet was written");
    assert_eq!(total, 960);

    // First page: capture pattern, stream version 0, beginning-of-stream
    // flag, granule 0, one segment of 19 bytes: the identification header.
    assert_eq!(&bytes[0..4], b"OggS");
    assert_eq!(bytes[4], 0);
    assert_eq!(bytes[5], 0x02);
    assert_eq!(&bytes[6..14], &[0u8; 8]);
    assert_eq!(bytes[26], 1);
    assert_eq!(bytes[27], 19);
    let head = &bytes[28..47];
    assert_eq!(&head[0..8], b"OpusHead");
    assert_eq!(head[8], 1, "format version");
    assert_eq!(head[9], 1, "channel count");
    assert_eq!(&head[10..12], &[0, 0], "pre-skip");
    assert_eq!(&head[12..16], &48000u32.to_le_bytes(), "encode sample rate");
    assert_eq!(&head[16..18], &[0, 0], "output gain");
    assert_eq!(head[18], 0, "channel mapping family");

    // Second page: the comment header, one segment of 29 bytes.
    let p2 = 47;
    assert_eq!(&bytes[p2..p2 + 4], b"OggS");
    assert_eq!(bytes[p2 + 5], 0x00);
    assert_eq!(bytes[p2 + 26], 1);
    assert_eq!(bytes[p2 + 27], 29);
    let tags = &bytes[p2 + 28..p2 + 28 + 29];
    assert_eq!(&tags[0..8], b"OpusTags");
    assert_eq!(&tags[8..12], &13u32.to_le_bytes());
    assert_eq!(&tags[12..25], b"AFFiNE Native");
    assert_eq!(&tags[25..29], &0u32.to_le_bytes());

    // Both header pages carry the same stream serial as the data page.
    assert_eq!(&bytes[14..18], &bytes[p2 + 14..p2 + 18]);

    // The data page carries the payload and ends the stream with granule
    // equal to the total encoded sample count.
    let p3 = p2 + 27 + 1 + 29;
    assert_eq!(&bytes[p3..p3 + 4], b"OggS");
    let tail = &bytes[p3..];
    assert!(tail.windows(2).any(|w2| w2 == [0xAA, 0xBB]));
    assert_eq!(&bytes[p3 + 6..p3 + 14], &960u64.to_le_bytes());
}

#[test]
fn artifact_reports_encode_rate_and_duration() {
    let a = make_artifact(
        String::from("abc"),
        String::from("/tmp/abc.opus"),
        2,
        4800,
        1234,
    );
    assert_eq!(a.id, "abc");
    assert_eq!(a.filepath, "/tmp/abc.opus");
    assert_eq!(a.sample_rate, 48000);
    assert_eq!(a.channels, 2);
    assert_eq!(a.duration_ms, 100);
    assert_eq!(a.size, 1234);
}

#[test]
fn duration_is_integer_milliseconds_of_true_samples() {
    assert_eq!(duration_ms(0), 0);
    assert_eq!(duration_ms(48000), 1000);
    assert_eq!(duration_ms(480), 10);
    assert_eq!(duration_ms(479), 9);
    assert_eq!(duration_ms(4410 * 48000 / 44100), 100);
}
