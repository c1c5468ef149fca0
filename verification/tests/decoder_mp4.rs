use redlux::Decoder;
use redlux::Error;
use redlux::TrackInfo;
use redlux::select_aac_track;
use std::io::Cursor;

/// One 1024-sample block of quiet synthetic audio.
fn input_block() -> Vec<i16> {
    let mut block = Vec::with_capacity(1024);
    for i in 0..1024i32 {
        block.push(((i % 128) * 50 - 3200) as i16);
    }
    block
}

/// Encode `blocks` blocks of mono 44100 Hz audio into raw AAC access units
/// (no ADTS framing), one vector per emitted frame.
fn encode_raw_frames(blocks: usize) -> Vec<Vec<u8>> {
    let encoder = fdk_aac::enc::Encoder::new(fdk_aac::enc::EncoderParams {
        bit_rate: fdk_aac::enc::BitRate::Cbr(64000),
        sample_rate: 44100,
        transport: fdk_aac::enc::Transport::Raw,
        channels: fdk_aac::enc::ChannelMode::Mono,
        audio_object_type: fdk_aac::enc::AudioObjectType::Mpeg4LowComplexity,
    })
    .expect("encoder");
    let input = input_block();
    let mut frames = Vec::new();
    for _ in 0..blocks {
        let mut out = vec![0u8; 8192];
        let info = encoder.encode(&input, &mut out).expect("encode");
        if info.output_size > 0 {
            frames.push(out[..info.output_size].to_vec());
        }
    }
    frames
}

fn mp4_config() -> mp4::Mp4Config {
    mp4::Mp4Config {
        major_brand: str::parse("isom").unwrap(),
        minor_version: 512,
        compatible_brands: vec![str::parse("isom").unwrap(), str::parse("iso2").unwrap()],
        timescale: 1000,
    }
}

/// Write an in-memory MP4 with one AAC track holding the given frames.
fn write_mp4(frames: &[Vec<u8>]) -> Vec<u8> {
    let data = Cursor::new(Vec::<u8>::new());
    let mut writer = mp4::Mp4Writer::write_start(data, &mp4_config()).expect("write_start");
    writer
        .add_track(&mp4::TrackConfig {
            track_type: mp4::TrackType::Audio,
            timescale: 44100,
            language: String::from("und"),
            media_conf: mp4::MediaConfig::AacConfig(mp4::AacConfig {
                bitrate: 64000,
                profile: mp4::AudioObjectType::AacLowComplexity,
                freq_index: mp4::SampleFreqIndex::Freq44100,
                chan_conf: mp4::ChannelConfig::Mono,
            }),
        })
        .expect("add_track");
    let mut start_time = 0u64;
    for frame in frames {
        let sample = mp4::Mp4Sample {
            start_time,
            duration: 1024,
            rendering_offset: 0,
            is_sync: true,
            bytes: mp4::Bytes::copy_from_slice(frame),
        };
        writer.write_sample(1, &sample).expect("write_sample");
        start_time += 1024;
    }
    writer.write_end().expect("write_end");
    writer.into_writer().into_inner()
}

#[test]
fn container_track_yields_one_block_per_sample_then_ends_cleanly() {
    let frames = encode_raw_frames(16);
    assert!(frames.len() > 0, "the encoder must emit at least one frame");
    let data = write_mp4(&frames);
    let size = data.len() as u64;
    let mut decoder = Decoder::new_mpeg4(Cursor::new(data), size).expect("container with an AAC track");
    let mut count = 0usize;
    while let Some(_) = decoder.next_sample() {
        count += 1;
        assert!(count <= frames.len() * 1024, "more samples than the track holds");
    }
    // the header builder ran once per sample with the track's parameters:
    // every frame decoded, to 1024 samples each, and nothing followed the last
    assert_eq!(count, frames.len() * 1024);
    assert!(decoder.iter_error.is_none(), "clean end of track must not record an error");
    assert!(decoder.next_sample().is_none());
}

#[test]
fn container_reports_track_parameters() {
    let frames = encode_raw_frames(8);
    let data = write_mp4(&frames);
    let size = data.len() as u64;
    let mut decoder = Decoder::new_mpeg4(Cursor::new(data), size).expect("container");
    assert!(decoder.next_sample().is_some());
    assert_eq!(decoder.channels(), 1);
    assert_eq!(decoder.sample_rate(), 44100);
}

#[test]
fn container_without_aac_track_fails_closed() {
    let data = Cursor::new(Vec::<u8>::new());
    let mut writer = mp4::Mp4Writer::write_start(data, &mp4_config()).expect("write_start");
    writer.write_end().expect("write_end");
    let data = writer.into_writer().into_inner();
    let size = data.len() as u64;
    match Decoder::<Cursor<Vec<u8>>>::new_mpeg4(Cursor::new(data), size) {
        Err(Error::TrackNotFound) => {},
        _ => panic!("a container with no AAC track must fail with track-not-found"),
    }
}

#[test]
fn malformed_container_fails_with_header_error() {
    let data = vec![0x12u8, 0x34, 0x56, 0x78, 0x9A];
    let size = data.len() as u64;
    match Decoder::<Cursor<Vec<u8>>>::new_mpeg4(Cursor::new(data), size) {
        Err(Error::FileHeaderError) => {},
        _ => panic!("a malformed container must fail with a header error"),
    }
}

#[test]
fn first_aac_track_is_selected() {
    let tracks = vec![
        TrackInfo { track_id: 1, is_aac: false },
        TrackInfo { track_id: 2, is_aac: true },
        TrackInfo { track_id: 3, is_aac: true },
    ];
    assert_eq!(select_aac_track(&tracks), Some(2));
    let no_aac = vec![
        TrackInfo { track_id: 1, is_aac: false },
        TrackInfo { track_id: 2, is_aac: false },
    ];
    assert_eq!(select_aac_track(&no_aac), None);
    assert_eq!(select_aac_track(&Vec::new()), None);
}
