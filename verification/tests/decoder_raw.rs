use redlux::Decoder;
use redlux::Error;
use std::io::Cursor;

/// One 1024-sample block of quiet synthetic audio.
fn input_block() -> Vec<i16> {
    let mut block = Vec::with_capacity(1024);
    for i in 0..1024i32 {
        block.push(((i % 64) * 100 - 3200) as i16);
    }
    block
}

/// Encode `blocks` blocks of mono 44100 Hz audio into an ADTS stream,
/// returning the stream and how many ADTS frames it holds.
fn encode_adts_stream(blocks: usize) -> (Vec<u8>, usize) {
    let encoder = fdk_aac::enc::Encoder::new(fdk_aac::enc::EncoderParams {
        bit_rate: fdk_aac::enc::BitRate::Cbr(64000),
        sample_rate: 44100,
        transport: fdk_aac::enc::Transport::Adts,
        channels: fdk_aac::enc::ChannelMode::Mono,
        audio_object_type: fdk_aac::enc::AudioObjectType::Mpeg4LowComplexity,
    })
    .expect("encoder");
    let input = input_block();
    let mut stream = Vec::new();
    let mut frames = 0usize;
    for _ in 0..blocks {
        let mut out = vec![0u8; 8192];
        let info = encoder.encode(&input, &mut out).expect("encode");
        if info.output_size > 0 {
            stream.extend_from_slice(&out[..info.output_size]);
            frames += 1;
        }
    }
    (stream, frames)
}

#[test]
fn raw_stream_yields_all_samples_then_ends_cleanly() {
    let (stream, frames) = encode_adts_stream(24);
    assert!(frames > 0, "the encoder must emit at least one frame");
    let mut decoder = Decoder::new_aac(Cursor::new(stream));
    let mut count = 0usize;
    while let Some(_) = decoder.next_sample() {
        count += 1;
        assert!(count <= frames * 1024, "more samples than the frames hold");
    }
    // one low-complexity mono frame decodes to 1024 samples
    assert_eq!(count, frames * 1024);
    assert!(decoder.iter_error.is_none(), "clean end of stream must not record an error");
    // a finished sequence stays finished
    assert!(decoder.next_sample().is_none());
}

#[test]
fn stream_parameters_are_reported_after_the_first_decode() {
    let (stream, _) = encode_adts_stream(8);
    let mut decoder = Decoder::new_aac(Cursor::new(stream));
    assert!(decoder.next_sample().is_some());
    assert_eq!(decoder.channels(), 1);
    assert_eq!(decoder.sample_rate(), 44100);
    assert!(decoder.current_frame_len().is_some());
    assert_eq!(decoder.total_duration(), None);
}

#[test]
fn empty_stream_ends_without_error() {
    let mut decoder = Decoder::new_aac(Cursor::new(Vec::new()));
    assert_eq!(decoder.decode_next_sample().expect("end of stream is not an error"), None);
    assert!(decoder.next_sample().is_none());
    assert!(decoder.iter_error.is_none());
}

#[test]
fn garbage_stream_records_a_decoder_failure() {
    // a buffer of zeros never syncs: the fill-and-retry path fails twice in
    // succession, so the sequence ends and the slot holds the wrapped code
    let garbage = vec![0u8; 16384];
    let mut decoder = Decoder::new_aac(Cursor::new(garbage));
    let mut pulled = 0usize;
    loop {
        match decoder.next_sample() {
            Some(_) => {
                pulled += 1;
                assert!(pulled <= 16384, "garbage must not decode forever");
            },
            None => break,
        }
    }
    assert!(matches!(decoder.iter_error, Some(Error::TrackDecodingError(_))));
}

#[test]
fn read_failure_is_recorded_as_a_reader_error() {
    struct FailingReader;
    impl std::io::Read for FailingReader {
        fn read(&mut self, _buf: &mut [u8]) -> std::io::Result<usize> {
            Err(std::io::Error::new(std::io::ErrorKind::Other, "broken pipe"))
        }
    }
    impl std::io::Seek for FailingReader {
        fn seek(&mut self, _pos: std::io::SeekFrom) -> std::io::Result<u64> {
            Ok(0)
        }
    }
    let mut decoder = Decoder::new_aac(FailingReader);
    assert!(decoder.next_sample().is_none());
    assert!(matches!(decoder.iter_error, Some(Error::ReaderError(_))));
    assert_eq!(decoder.iter_error.as_ref().unwrap().message(), "Error reading file");
}
