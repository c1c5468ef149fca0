use redlux::Error;
use redlux::adts::AudioObjectType;
use redlux::adts::ChannelConfig;
use redlux::adts::SampleFreqIndex;
use redlux::adts::construct_adts_header;
use redlux::adts::get_bits;
use redlux::adts::get_bits_u8;

fn header(aot: AudioObjectType, payload_len: usize) -> Vec<u8> {
    construct_adts_header(aot, SampleFreqIndex::Freq44100, ChannelConfig::Stereo, payload_len)
        .expect("supported object type must build a header")
}

#[test]
fn header_bytes_exact() {
    // 44100 Hz is index 4, stereo is configuration 2, frame length 107
    let h = header(AudioObjectType::AacLowComplexity, 100);
    assert_eq!(h, vec![0xFF, 0xF1, 0x50, 0x80, 0x0D, 0x7F, 0xFC]);
}

#[test]
fn header_bytes_mono_max_frequency() {
    // index 0, mono, smallest frame (empty payload, length 7)
    let h = construct_adts_header(
        AudioObjectType::AacLowComplexity,
        SampleFreqIndex::Freq96000,
        ChannelConfig::Mono,
        0,
    )
    .expect("header");
    assert_eq!(h, vec![0xFF, 0xF1, 0x40, 0x40, 0x00, 0xFF, 0xFC]);
}

#[test]
fn supported_profiles_coerce_to_low_complexity() {
    // spectral-band-replication and parametric-stereo are implicitly
    // signalled: they build byte-identical headers to low-complexity
    let lc = header(AudioObjectType::AacLowComplexity, 312);
    let sbr = header(AudioObjectType::SpectralBandReplication, 312);
    let ps = header(AudioObjectType::ParametricStereo, 312);
    assert_eq!(lc, sbr);
    assert_eq!(lc, ps);
    // the profile field holds the low-complexity code minus one
    assert_eq!(lc[2] >> 6, 1);
}

#[test]
fn unsupported_profile_names_the_offending_type() {
    let r = construct_adts_header(
        AudioObjectType::AacMain,
        SampleFreqIndex::Freq48000,
        ChannelConfig::Stereo,
        10,
    );
    match r {
        Err(Error::UnsupportedObjectType(aot)) => assert_eq!(aot, AudioObjectType::AacMain),
        _ => panic!("expected an unsupported-object-type error"),
    }
    let r = construct_adts_header(
        AudioObjectType::MpegLayer3,
        SampleFreqIndex::Freq48000,
        ChannelConfig::Stereo,
        10,
    );
    match r {
        Err(Error::UnsupportedObjectType(aot)) => assert_eq!(aot, AudioObjectType::MpegLayer3),
        _ => panic!("expected an unsupported-object-type error"),
    }
}

#[test]
fn fixed_fields_hold_for_every_parameter_choice() {
    let freqs = [
        SampleFreqIndex::Freq96000,
        SampleFreqIndex::Freq44100,
        SampleFreqIndex::Freq8000,
        SampleFreqIndex::Freq7350,
    ];
    let chans = [
        ChannelConfig::Mono,
        ChannelConfig::Stereo,
        ChannelConfig::Five,
        ChannelConfig::SevenOne,
    ];
    for (i, freq) in freqs.iter().enumerate() {
        for (j, chan) in chans.iter().enumerate() {
            let payload = 17 * (i + 1) * (j + 1);
            let h =
                construct_adts_header(AudioObjectType::AacLowComplexity, *freq, *chan, payload)
                    .expect("header");
            // exactly 7 bytes, sync bits 0xFFF
            assert_eq!(h.len(), 7);
            assert_eq!(h[0], 0xFF);
            assert_eq!(h[1] >> 4, 0xF);
            // protection absent
            assert_eq!(h[1] & 1, 1);
            // buffer fullness 0x7FF (variable bit rate marker)
            let fullness = (((h[5] & 0x1F) as u16) << 6) | ((h[6] >> 2) as u16);
            assert_eq!(fullness, 0x7FF);
            // number of raw data blocks - 1
            assert_eq!(h[6] & 3, 0);
        }
    }
}

#[test]
fn frame_length_field_is_payload_plus_seven() {
    for payload in [0usize, 1, 100, 1024, 4096, 8184] {
        let h = header(AudioObjectType::AacLowComplexity, payload);
        let field =
            (((h[3] & 3) as u16) << 11) | ((h[4] as u16) << 3) | ((h[5] >> 5) as u16);
        assert_eq!(field as usize, payload + 7);
    }
}

#[test]
fn oversized_payload_is_rejected() {
    // 8185 + 7 no longer fits the 13-bit frame-length field
    let r = construct_adts_header(
        AudioObjectType::AacLowComplexity,
        SampleFreqIndex::Freq44100,
        ChannelConfig::Stereo,
        8185,
    );
    assert!(matches!(r, Err(Error::SampleTooLarge)));
    let r = construct_adts_header(
        AudioObjectType::AacLowComplexity,
        SampleFreqIndex::Freq44100,
        ChannelConfig::Stereo,
        usize::MAX,
    );
    assert!(matches!(r, Err(Error::SampleTooLarge)));
}

#[test]
fn bit_extraction() {
    // frame length 107 sits in bits 4..16 of the 16-bit value
    assert_eq!(get_bits(107, 3..5), 0);
    assert_eq!(get_bits(107, 6..13), 13);
    assert_eq!(get_bits(107, 14..16), 3);
    assert_eq!(get_bits(0xFFFF, 1..16), 0xFFFF);
    assert_eq!(get_bits(0b0101_1010_0101_1010, 2..9), 0b1011_0100);
    assert_eq!(get_bits_u8(0b0000_0110, 6..6), 1);
    assert_eq!(get_bits_u8(0b0000_0110, 7..8), 2);
    assert_eq!(get_bits_u8(0xFF, 1..8), 0xFF);
}

#[test]
fn code_round_trips() {
    assert_eq!(SampleFreqIndex::from_code(4), Some(SampleFreqIndex::Freq44100));
    assert_eq!(SampleFreqIndex::from_code(12), Some(SampleFreqIndex::Freq7350));
    assert_eq!(SampleFreqIndex::from_code(13), None);
    assert_eq!(SampleFreqIndex::from_code(15), None);
    assert_eq!(SampleFreqIndex::Freq96000.code(), 0);
    assert_eq!(SampleFreqIndex::Freq7350.code(), 12);
    assert_eq!(ChannelConfig::from_code(0), None);
    assert_eq!(ChannelConfig::from_code(1), Some(ChannelConfig::Mono));
    assert_eq!(ChannelConfig::from_code(7), Some(ChannelConfig::SevenOne));
    assert_eq!(ChannelConfig::from_code(8), None);
    assert_eq!(ChannelConfig::SevenOne.code(), 7);
    assert_eq!(AudioObjectType::from_code(2), Some(AudioObjectType::AacLowComplexity));
    assert_eq!(AudioObjectType::from_code(5), Some(AudioObjectType::SpectralBandReplication));
    assert_eq!(AudioObjectType::from_code(29), Some(AudioObjectType::ParametricStereo));
    assert_eq!(AudioObjectType::from_code(0), None);
    assert_eq!(AudioObjectType::from_code(10), None);
    assert_eq!(AudioObjectType::from_code(31), None);
    assert_eq!(AudioObjectType::from_code(47), None);
}

#[test]
fn error_messages() {
    assert_eq!(Error::FileHeaderError.message(), "Error reading file header");
    assert_eq!(Error::TrackNotFound.message(), "Unable to find track in file");
    assert_eq!(Error::SamplesError.message(), "Error reading samples");
    assert_eq!(
        Error::UnsupportedObjectType(AudioObjectType::AacMain).message(),
        "Unsupported audio object type"
    );
    assert_eq!(Error::SampleTooLarge.message(), "Sample too large for an ADTS frame");
}
