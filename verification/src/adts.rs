//! Construction of the fixed 7-byte ADTS frame header (no CRC).
//!
//! An ADTS header carries, packed most-significant-bit first: a 12-bit sync
//! word `0xFFF`, the MPEG version and layer bits, a protection-absent bit,
//! the profile, the sampling-frequency index, the channel configuration, the
//! 13-bit frame length (header plus payload), an 11-bit buffer-fullness
//! field (`0x7FF`, the variable-bit-rate marker) and the number of raw data
//! blocks minus one.

use core::ops::Range;
use vstd::prelude::*;

verus! {

use crate::Error;

/// Size in bytes of the fixed ADTS header without CRC.
pub const ADTS_HEADER_LENGTH: usize = 7;

/// The largest payload whose frame length (payload plus header) still fits
/// the 13-bit frame-length field.
pub const MAX_ADTS_PAYLOAD_LENGTH: usize = 8184;

/// MPEG-4 audio object types, as carried in a container track's decoder
/// configuration.
#[derive(Clone, Copy, Debug, PartialEq, Eq, Structural)]
pub enum AudioObjectType {
    AacMain,
    AacLowComplexity,
    AacScalableSampleRate,
    AacLongTermPrediction,
    SpectralBandReplication,
    AACScalable,
    TwinVQ,
    CodeExcitedLinearPrediction,
    HarmonicVectorExcitationCoding,
    TextToSpeechtInterface,
    MainSynthetic,
    WavetableSynthesis,
    GeneralMIDI,
    AlgorithmicSynthesis,
    ErrorResilientAacLowComplexity,
    ErrorResilientAacLongTermPrediction,
    ErrorResilientAacScalable,
    ErrorResilientAacTwinVQ,
    ErrorResilientAacBitSlicedArithmeticCoding,
    ErrorResilientAacLowDelay,
    ErrorResilientCodeExcitedLinearPrediction,
    ErrorResilientHarmonicVectorExcitationCoding,
    ErrorResilientHarmonicIndividualLinesNoise,
    ErrorResilientParametric,
    SinuSoidalCoding,
    ParametricStereo,
    MpegSurround,
    MpegLayer1,
    MpegLayer2,
    MpegLayer3,
    DirectStreamTransfer,
    AudioLosslessCoding,
    ScalableLosslessCoding,
    ScalableLosslessCodingNoneCore,
    ErrorResilientAacEnhancedLowDelay,
    SymbolicMusicRepresentationSimple,
    SymbolicMusicRepresentationMain,
    UnifiedSpeechAudioCoding,
    SpatialAudioObjectCoding,
    LowDelayMpegSurround,
    SpatialAudioObjectCodingDialogueEnhancement,
    AudioSync,
}

/// The object types the header builder accepts.  Spectral-band-replication
/// and parametric-stereo streams are carried under the low-complexity
/// profile code (implicit signaling): ADTS has no field for them.
pub open spec fn spec_aot_supported(aot: AudioObjectType) -> bool {
    ||| aot == AudioObjectType::AacLowComplexity
    ||| aot == AudioObjectType::SpectralBandReplication
    ||| aot == AudioObjectType::ParametricStereo
}

/// The MPEG-4 audio object type for a numeric code, `None` on the codes the
/// standard leaves unassigned.
pub open spec fn spec_aot_from_code(code: u8) -> Option<AudioObjectType> {
    if code == 1 { Some(AudioObjectType::AacMain) }
    else if code == 2 { Some(AudioObjectType::AacLowComplexity) }
    else if code == 3 { Some(AudioObjectType::AacScalableSampleRate) }
    else if code == 4 { Some(AudioObjectType::AacLongTermPrediction) }
    else if code == 5 { Some(AudioObjectType::SpectralBandReplication) }
    else if code == 6 { Some(AudioObjectType::AACScalable) }
    else if code == 7 { Some(AudioObjectType::TwinVQ) }
    else if code == 8 { Some(AudioObjectType::CodeExcitedLinearPrediction) }
    else if code == 9 { Some(AudioObjectType::HarmonicVectorExcitationCoding) }
    else if code == 12 { Some(AudioObjectType::TextToSpeechtInterface) }
    else if code == 13 { Some(AudioObjectType::MainSynthetic) }
    else if code == 14 { Some(AudioObjectType::WavetableSynthesis) }
    else if code == 15 { Some(AudioObjectType::GeneralMIDI) }
    else if code == 16 { Some(AudioObjectType::AlgorithmicSynthesis) }
    else if code == 17 { Some(AudioObjectType::ErrorResilientAacLowComplexity) }
    else if code == 19 { Some(AudioObjectType::ErrorResilientAacLongTermPrediction) }
    else if code == 20 { Some(AudioObjectType::ErrorResilientAacScalable) }
    else if code == 21 { Some(AudioObjectType::ErrorResilientAacTwinVQ) }
    else if code == 22 { Some(AudioObjectType::ErrorResilientAacBitSlicedArithmeticCoding) }
    else if code == 23 { Some(AudioObjectType::ErrorResilientAacLowDelay) }
    else if code == 24 { Some(AudioObjectType::ErrorResilientCodeExcitedLinearPrediction) }
    else if code == 25 { Some(AudioObjectType::ErrorResilientHarmonicVectorExcitationCoding) }
    else if code == 26 { Some(AudioObjectType::ErrorResilientHarmonicIndividualLinesNoise) }
    else if code == 27 { Some(AudioObjectType::ErrorResilientParametric) }
    else if code == 28 { Some(AudioObjectType::SinuSoidalCoding) }
    else if code == 29 { Some(AudioObjectType::ParametricStereo) }
    else if code == 30 { Some(AudioObjectType::MpegSurround) }
    else if code == 32 { Some(AudioObjectType::MpegLayer1) }
    else if code == 33 { Some(AudioObjectType::MpegLayer2) }
    else if code == 34 { Some(AudioObjectType::MpegLayer3) }
    else if code == 35 { Some(AudioObjectType::DirectStreamTransfer) }
    else if code == 36 { Some(AudioObjectType::AudioLosslessCoding) }
    else if code == 37 { Some(AudioObjectType::ScalableLosslessCoding) }
    else if code == 38 { Some(AudioObjectType::ScalableLosslessCodingNoneCore) }
    else if code == 39 { Some(AudioObjectType::ErrorResilientAacEnhancedLowDelay) }
    else if code == 40 { Some(AudioObjectType::SymbolicMusicRepresentationSimple) }
    else if code == 41 { Some(AudioObjectType::SymbolicMusicRepresentationMain) }
    else if code == 42 { Some(AudioObjectType::UnifiedSpeechAudioCoding) }
    else if code == 43 { Some(AudioObjectType::SpatialAudioObjectCoding) }
    else if code == 44 { Some(AudioObjectType::LowDelayMpegSurround) }
    else if code == 45 { Some(AudioObjectType::SpatialAudioObjectCodingDialogueEnhancement) }
    else if code == 46 { Some(AudioObjectType::AudioSync) }
    else { None }
}

impl AudioObjectType {
    /// Look an object type up by its numeric code.
    pub fn from_code(code: u8) -> (r: Option<AudioObjectType>)
        ensures
            r == spec_aot_from_code(code),
    {
        match code {
            1 => Some(AudioObjectType::AacMain),
            2 => Some(AudioObjectType::AacLowComplexity),
            3 => Some(AudioObjectType::AacScalableSampleRate),
            4 => Some(AudioObjectType::AacLongTermPrediction),
            5 => Some(AudioObjectType::SpectralBandReplication),
            6 => Some(AudioObjectType::AACScalable),
            7 => Some(AudioObjectType::TwinVQ),
            8 => Some(AudioObjectType::CodeExcitedLinearPrediction),
            9 => Some(AudioObjectType::HarmonicVectorExcitationCoding),
            12 => Some(AudioObjectType::TextToSpeechtInterface),
            13 => Some(AudioObjectType::MainSynthetic),
            14 => Some(AudioObjectType::WavetableSynthesis),
            15 => Some(AudioObjectType::GeneralMIDI),
            16 => Some(AudioObjectType::AlgorithmicSynthesis),
            17 => Some(AudioObjectType::ErrorResilientAacLowComplexity),
            19 => Some(AudioObjectType::ErrorResilientAacLongTermPrediction),
            20 => Some(AudioObjectType::ErrorResilientAacScalable),
            21 => Some(AudioObjectType::ErrorResilientAacTwinVQ),
            22 => Some(AudioObjectType::ErrorResilientAacBitSlicedArithmeticCoding),
            23 => Some(AudioObjectType::ErrorResilientAacLowDelay),
            24 => Some(AudioObjectType::ErrorResilientCodeExcitedLinearPrediction),
            25 => Some(AudioObjectType::ErrorResilientHarmonicVectorExcitationCoding),
            26 => Some(AudioObjectType::ErrorResilientHarmonicIndividualLinesNoise),
            27 => Some(AudioObjectType::ErrorResilientParametric),
            28 => Some(AudioObjectType::SinuSoidalCoding),
            29 => Some(AudioObjectType::ParametricStereo),
            30 => Some(AudioObjectType::MpegSurround),
            32 => Some(AudioObjectType::MpegLayer1),
            33 => Some(AudioObjectType::MpegLayer2),
            34 => Some(AudioObjectType::MpegLayer3),
            35 => Some(AudioObjectType::DirectStreamTransfer),
            36 => Some(AudioObjectType::AudioLosslessCoding),
            37 => Some(AudioObjectType::ScalableLosslessCoding),
            38 => Some(AudioObjectType::ScalableLosslessCodingNoneCore),
            39 => Some(AudioObjectType::ErrorResilientAacEnhancedLowDelay),
            40 => Some(AudioObjectType::SymbolicMusicRepresentationSimple),
            41 => Some(AudioObjectType::SymbolicMusicRepresentationMain),
            42 => Some(AudioObjectType::UnifiedSpeechAudioCoding),
            43 => Some(AudioObjectType::SpatialAudioObjectCoding),
            44 => Some(AudioObjectType::LowDelayMpegSurround),
            45 => Some(AudioObjectType::SpatialAudioObjectCodingDialogueEnhancement),
            46 => Some(AudioObjectType::AudioSync),
            _ => None,
        }
    }
}

/// Sampling-frequency indices legal in ADTS: index 0 (96000 Hz) down to
/// index 12 (7350 Hz).  Indices 13-14 are reserved and 15 marks an explicit
/// rate; none of those may appear in a header.
#[derive(Clone, Copy, Debug, PartialEq, Eq, Structural)]
pub enum SampleFreqIndex {
    Freq96000,
    Freq88200,
    Freq64000,
    Freq48000,
    Freq44100,
    Freq32000,
    Freq24000,
    Freq22050,
    Freq16000,
    Freq12000,
    Freq11025,
    Freq8000,
    Freq7350,
}

/// The 4-bit code of a sampling-frequency index.
pub open spec fn spec_freq_index_code(f: SampleFreqIndex) -> u8 {
    match f {
        SampleFreqIndex::Freq96000 => 0,
        SampleFreqIndex::Freq88200 => 1,
        SampleFreqIndex::Freq64000 => 2,
        SampleFreqIndex::Freq48000 => 3,
        SampleFreqIndex::Freq44100 => 4,
        SampleFreqIndex::Freq32000 => 5,
        SampleFreqIndex::Freq24000 => 6,
        SampleFreqIndex::Freq22050 => 7,
        SampleFreqIndex::Freq16000 => 8,
        SampleFreqIndex::Freq12000 => 9,
        SampleFreqIndex::Freq11025 => 10,
        SampleFreqIndex::Freq8000 => 11,
        SampleFreqIndex::Freq7350 => 12,
    }
}

impl SampleFreqIndex {
    /// The 4-bit code packed into the header.
    pub fn code(&self) -> (r: u8)
        ensures
            r == spec_freq_index_code(*self),
    {
        match self {
            SampleFreqIndex::Freq96000 => 0,
            SampleFreqIndex::Freq88200 => 1,
            SampleFreqIndex::Freq64000 => 2,
            SampleFreqIndex::Freq48000 => 3,
            SampleFreqIndex::Freq44100 => 4,
            SampleFreqIndex::Freq32000 => 5,
            SampleFreqIndex::Freq24000 => 6,
            SampleFreqIndex::Freq22050 => 7,
            SampleFreqIndex::Freq16000 => 8,
            SampleFreqIndex::Freq12000 => 9,
            SampleFreqIndex::Freq11025 => 10,
            SampleFreqIndex::Freq8000 => 11,
            SampleFreqIndex::Freq7350 => 12,
        }
    }

    /// Look a sampling-frequency index up by its 4-bit code; the reserved
    /// and explicit-rate codes have no index.
    pub fn from_code(code: u8) -> (r: Option<SampleFreqIndex>)
        ensures
            code <= 12 ==> (r matches Some(f) && spec_freq_index_code(f) == code),
            code > 12 ==> r is None,
    {
        match code {
            0 => Some(SampleFreqIndex::Freq96000),
            1 => Some(SampleFreqIndex::Freq88200),
            2 => Some(SampleFreqIndex::Freq64000),
            3 => Some(SampleFreqIndex::Freq48000),
            4 => Some(SampleFreqIndex::Freq44100),
            5 => Some(SampleFreqIndex::Freq32000),
            6 => Some(SampleFreqIndex::Freq24000),
            7 => Some(SampleFreqIndex::Freq22050),
            8 => Some(SampleFreqIndex::Freq16000),
            9 => Some(SampleFreqIndex::Freq12000),
            10 => Some(SampleFreqIndex::Freq11025),
            11 => Some(SampleFreqIndex::Freq8000),
            12 => Some(SampleFreqIndex::Freq7350),
            _ => None,
        }
    }
}

/// Channel configurations legal in ADTS: 1 (mono) through 7 (7.1).
/// Configuration 0 (inband program config) and 8-15 (reserved) are not
/// accepted.
#[derive(Clone, Copy, Debug, PartialEq, Eq, Structural)]
pub enum ChannelConfig {
    Mono,
    Stereo,
    Three,
    Four,
    Five,
    FiveOne,
    SevenOne,
}

/// The 3-bit code of a channel configuration.
pub open spec fn spec_channel_code(c: ChannelConfig) -> u8 {
    match c {
        ChannelConfig::Mono => 1,
        ChannelConfig::Stereo => 2,
        ChannelConfig::Three => 3,
        ChannelConfig::Four => 4,
        ChannelConfig::Five => 5,
        ChannelConfig::FiveOne => 6,
        ChannelConfig::SevenOne => 7,
    }
}

impl ChannelConfig {
    /// The 3-bit code packed into the header.
    pub fn code(&self) -> (r: u8)
        ensures
            r == spec_channel_code(*self),
    {
        match self {
            ChannelConfig::Mono => 1,
            ChannelConfig::Stereo => 2,
            ChannelConfig::Three => 3,
            ChannelConfig::Four => 4,
            ChannelConfig::Five => 5,
            ChannelConfig::FiveOne => 6,
            ChannelConfig::SevenOne => 7,
        }
    }

    /// Look a channel configuration up by its 3-bit code.
    pub fn from_code(code: u8) -> (r: Option<ChannelConfig>)
        ensures
            1 <= code <= 7 ==> (r matches Some(c) && spec_channel_code(c) == code),
            code == 0 || code > 7 ==> r is None,
    {
        match code {
            1 => Some(ChannelConfig::Mono),
            2 => Some(ChannelConfig::Stereo),
            3 => Some(ChannelConfig::Three),
            4 => Some(ChannelConfig::Four),
            5 => Some(ChannelConfig::Five),
            6 => Some(ChannelConfig::FiveOne),
            7 => Some(ChannelConfig::SevenOne),
            _ => None,
        }
    }
}

/// The mask with the low `width` bits set, for widths up to 16.
pub open spec fn spec_low_mask16(width: u16) -> u16
    recommends
        width <= 16,
{
    (((1u32 << (width as u32)) - 1) as u16)
}

/// The mask with the low `width` bits set, for widths up to 8.
pub open spec fn spec_low_mask8(width: u8) -> u8
    recommends
        width <= 8,
{
    (((1u32 << (width as u32)) - 1) as u8)
}

/// The bits of `byte` from position `start` to position `end`, counting
/// most-significant-bit first from 1, moved to the low end of the result.
pub fn get_bits(byte: u16, range: Range<u16>) -> (r: u16)
    requires
        1 <= range.start,
        range.start <= range.end,
        range.end <= 16,
    ensures
        r == (byte >> ((16 - range.end) as u16)) & spec_low_mask16((range.end - range.start + 1) as u16),
{
    let start = range.start;
    let end = range.end;
    let shaved_left = byte << (start - 1);
    let moved_back = shaved_left >> (start - 1);
    let shave_right = moved_back >> (16 - end);
    proof {
        assert(shave_right == (byte >> ((16 - end) as u16)) & spec_low_mask16((end - start + 1) as u16))
            by (bit_vector)
            requires
                1 <= start,
                start <= end,
                end <= 16,
                shave_right == ((byte << ((start - 1) as u16)) >> ((start - 1) as u16)) >> ((16 - end) as u16),
        ;
    }
    shave_right
}

/// As [`get_bits`], over a single byte.
pub fn get_bits_u8(byte: u8, range: Range<u8>) -> (r: u8)
    requires
        1 <= range.start,
        range.start <= range.end,
        range.end <= 8,
    ensures
        r == (byte >> ((8 - range.end) as u8)) & spec_low_mask8((range.end - range.start + 1) as u8),
{
    let start = range.start;
    let end = range.end;
    let shaved_left = byte << (start - 1);
    let moved_back = shaved_left >> (start - 1);
    let shave_right = moved_back >> (8 - end);
    proof {
        assert(shave_right == (byte >> ((8 - end) as u8)) & spec_low_mask8((end - start + 1) as u8))
            by (bit_vector)
            requires
                1 <= start,
                start <= end,
                end <= 8,
                shave_right == ((byte << ((start - 1) as u8)) >> ((start - 1) as u8)) >> ((8 - end) as u8),
        ;
    }
    shave_right
}

/// The seven bytes of a fixed ADTS header (no CRC) for the low-complexity
/// profile, a sampling-frequency index code, a channel-configuration code
/// and a frame length of header plus payload.
pub open spec fn spec_adts_header(freq: u8, chan: u8, frame_length: u16) -> Seq<u8>
    recommends
        freq <= 12,
        1 <= chan <= 7,
        7 <= frame_length <= 8191,
{
    seq![
        // sync word, high 8 bits
        0xFFu8,
        // sync word low 4 bits, MPEG version 0, layer 00, protection absent 1
        0xF1u8,
        // profile 01 (low complexity), frequency index, private bit 0,
        // channel configuration high bit
        ((1u8 << 6) | ((freq << 2) as u8) | ((chan >> 2) as u8)) as u8,
        // channel configuration low 2 bits, original/copy 0, home 0,
        // copyright id bit 0, copyright id start 0, frame length high 2 bits
        ((((chan & 3) << 6) as u8) | ((frame_length >> 11) as u8)) as u8,
        // frame length middle 8 bits
        ((frame_length >> 3) as u8),
        // frame length low 3 bits, buffer fullness high 5 bits
        (((((frame_length & 7) as u8) << 5) as u8) | 0x1Fu8) as u8,
        // buffer fullness low 6 bits, number of raw data blocks - 1 = 00
        0xFCu8,
    ]
}

/// Build the 7-byte ADTS header for one frame whose payload is
/// `payload_len` bytes long.
///
/// The three supported object types are all emitted under the
/// low-complexity profile code (implicit signaling); any other object type
/// is rejected, naming the offending type.  A payload longer than
/// [`MAX_ADTS_PAYLOAD_LENGTH`] cannot be represented in the 13-bit
/// frame-length field and is rejected rather than silently truncated.
pub fn construct_adts_header(
    object_type: AudioObjectType,
    sample_freq_index: SampleFreqIndex,
    channel_config: ChannelConfig,
    payload_len: usize,
) -> (r: Result<Vec<u8>, Error>)
    ensures
        spec_aot_supported(object_type) && payload_len <= MAX_ADTS_PAYLOAD_LENGTH ==> (r matches Ok(h)
            && h@ == spec_adts_header(
                spec_freq_index_code(sample_freq_index),
                spec_channel_code(channel_config),
                (ADTS_HEADER_LENGTH + payload_len) as u16,
            )),
        !spec_aot_supported(object_type) ==> r == Err::<Vec<u8>, Error>(
            Error::UnsupportedObjectType(object_type),
        ),
        spec_aot_supported(object_type) && payload_len > MAX_ADTS_PAYLOAD_LENGTH ==> r
            == Err::<Vec<u8>, Error>(Error::SampleTooLarge),
{
    // Object types 5 (SBR) and 29 (PS) are coerced to type 2 (AAC-LC); the
    // decoder detects the extension on its own ("implicit signaling", the
    // only option for ADTS).
    let profile: u8 = match object_type {
        AudioObjectType::AacLowComplexity => 2,
        AudioObjectType::SpectralBandReplication => 2,
        AudioObjectType::ParametricStereo => 2,
        aot => {
            return Err(Error::UnsupportedObjectType(aot));
        },
    };
    let adts_object_type: u8 = profile - 1;

    if payload_len > MAX_ADTS_PAYLOAD_LENGTH {
        return Err(Error::SampleTooLarge);
    }
    let frame_length: u16 = (ADTS_HEADER_LENGTH as u16) + (payload_len as u16);

    let freq_code: u8 = sample_freq_index.code();
    let chan_code: u8 = channel_config.code();

    // sync word
    let byte0: u8 = 0b1111_1111;
    // sync word, MPEG version 0, layer 00, protection absent 1 (no CRC)
    let byte1: u8 = 0b1111_0001;
    // profile, frequency index, private bit 0, channel configuration bit 1
    let chan_high: u8 = get_bits_u8(chan_code, 6..6);
    let byte2: u8 = (adts_object_type << 6) | (freq_code << 2) | chan_high;
    // channel configuration bits 2-3, original/copy 0, home 0, copyright id
    // bit 0, copyright id start 0, frame length bits 1-2
    let chan_low: u8 = get_bits_u8(chan_code, 7..8);
    let len_high: u8 = get_bits(frame_length, 3..5) as u8;
    let byte3: u8 = (chan_low << 6) | len_high;
    // frame length bits 3-10
    let byte4: u8 = get_bits(frame_length, 6..13) as u8;
    // frame length bits 11-13, buffer fullness bits 1-5
    let len_low: u8 = get_bits(frame_length, 14..16) as u8;
    let byte5: u8 = (len_low << 5) | 0b1_1111;
    // buffer fullness bits 6-11, number of raw data blocks - 1 = 00
    let byte6: u8 = 0b1111_1100;

    proof {
        let f = spec_freq_index_code(sample_freq_index);
        let c = spec_channel_code(channel_config);
        let fl = (ADTS_HEADER_LENGTH + payload_len) as u16;
        assert(byte2 == ((1u8 << 6) | ((f << 2) as u8) | ((c >> 2) as u8)) as u8) by (bit_vector)
            requires
                f <= 12,
                1 <= c <= 7,
                chan_high == (c >> ((8 - 6) as u8)) & spec_low_mask8(((6 - 6) + 1) as u8),
                byte2 == (1u8 << 6) | ((f << 2) as u8) | chan_high,
        ;
        assert(byte3 == ((((c & 3) << 6) as u8) | ((fl >> 11) as u8)) as u8) by (bit_vector)
            requires
                1 <= c <= 7,
                fl <= 8191,
                chan_low == (c >> ((8 - 8) as u8)) & spec_low_mask8(((8 - 7) + 1) as u8),
                len_high == ((fl >> ((16 - 5) as u16)) & spec_low_mask16(((5 - 3) + 1) as u16)) as u8,
                byte3 == ((chan_low << 6) as u8) | len_high,
        ;
        assert(byte4 == ((fl >> 3) as u8)) by (bit_vector)
            requires
                fl <= 8191,
                byte4 == ((fl >> ((16 - 13) as u16)) & spec_low_mask16(((13 - 6) + 1) as u16)) as u8,
        ;
        assert(byte5 == (((((fl & 7) as u8) << 5) as u8) | 0x1Fu8) as u8) by (bit_vector)
            requires
                fl <= 8191,
                len_low == ((fl >> ((16 - 16) as u16)) & spec_low_mask16(((16 - 14) + 1) as u16)) as u8,
                byte5 == ((len_low << 5) as u8) | 0x1Fu8,
        ;
    }

    let header = vec![byte0, byte1, byte2, byte3, byte4, byte5, byte6];
    proof {
        assert(header@ =~= spec_adts_header(
            spec_freq_index_code(sample_freq_index),
            spec_channel_code(channel_config),
            (ADTS_HEADER_LENGTH + payload_len) as u16,
        ));
    }
    Ok(header)
}

/// The sync word of a built header: its first 12 bits.
pub open spec fn spec_sync_word(h: Seq<u8>) -> u16
    recommends
        h.len() == 7,
{
    (((h[0] as u16) << 4) | ((h[1] as u16) >> 4)) as u16
}

/// The protection-absent bit of a built header.
pub open spec fn spec_protection_absent(h: Seq<u8>) -> u8
    recommends
        h.len() == 7,
{
    h[1] & 1
}

/// The 2-bit profile field of a built header (object type minus one).
pub open spec fn spec_profile_field(h: Seq<u8>) -> u8
    recommends
        h.len() == 7,
{
    h[2] >> 6
}

/// The 4-bit sampling-frequency-index field of a built header.
pub open spec fn spec_freq_index_field(h: Seq<u8>) -> u8
    recommends
        h.len() == 7,
{
    (h[2] >> 2) & 0xF
}

/// The private bit of a built header.
pub open spec fn spec_private_bit(h: Seq<u8>) -> u8
    recommends
        h.len() == 7,
{
    (h[2] >> 1) & 1
}

/// The 3-bit channel-configuration field of a built header.
pub open spec fn spec_channel_field(h: Seq<u8>) -> u8
    recommends
        h.len() == 7,
{
    (((h[2] & 1) << 2) | (h[3] >> 6)) as u8
}

/// The 13-bit frame-length field of a built header.
pub open spec fn spec_frame_length_field(h: Seq<u8>) -> u16
    recommends
        h.len() == 7,
{
    ((((h[3] & 3) as u16) << 11) | (((h[4] as u16) << 3) as u16) | ((h[5] >> 5) as u16)) as u16
}

/// The 11-bit buffer-fullness field of a built header.
pub open spec fn spec_buffer_fullness_field(h: Seq<u8>) -> u16
    recommends
        h.len() == 7,
{
    ((((h[5] & 0x1F) as u16) << 6) | ((h[6] >> 2) as u16)) as u16
}

/// The raw-data-blocks-minus-one field of a built header.
pub open spec fn spec_raw_blocks_field(h: Seq<u8>) -> u8
    recommends
        h.len() == 7,
{
    h[6] & 3
}

/// Law: every built header is exactly 7 bytes, begins with the sync word
/// `0xFFF`, has protection-absent 1, carries the low-complexity profile
/// code (2 - 1) whatever supported object type it was built for, echoes the
/// frequency-index and channel codes, keeps the private, original/copy,
/// home and copyright bits 0, stores frame length (payload plus 7) in its
/// 13-bit field, marks buffer fullness `0x7FF`, and has raw-data-blocks
/// minus one equal to 0.
pub proof fn lemma_adts_header_fields(freq: u8, chan: u8, frame_length: u16)
    requires
        freq <= 12,
        1 <= chan <= 7,
        7 <= frame_length <= 8191,
    ensures
        ({
            let h = spec_adts_header(freq, chan, frame_length);
            &&& h.len() == 7
            &&& spec_sync_word(h) == 0xFFF
            &&& spec_protection_absent(h) == 1
            &&& spec_profile_field(h) == 1
            &&& spec_freq_index_field(h) == freq
            &&& spec_private_bit(h) == 0
            &&& spec_channel_field(h) == chan
            &&& spec_frame_length_field(h) == frame_length
            &&& spec_buffer_fullness_field(h) == 0x7FF
            &&& spec_raw_blocks_field(h) == 0
        }),
{
    let h = spec_adts_header(freq, chan, frame_length);
    assert(h.len() == 7);
    let b2 = ((1u8 << 6) | ((freq << 2) as u8) | ((chan >> 2) as u8)) as u8;
    let b3 = ((((chan & 3) << 6) as u8) | ((frame_length >> 11) as u8)) as u8;
    let b4 = ((frame_length >> 3) as u8);
    let b5 = (((((frame_length & 7) as u8) << 5) as u8) | 0x1Fu8) as u8;
    assert(h[0] == 0xFFu8 && h[1] == 0xF1u8 && h[2] == b2 && h[3] == b3 && h[4] == b4 && h[5] == b5
        && h[6] == 0xFCu8);
    assert((((0xFFu8 as u16) << 4) | ((0xF1u8 as u16) >> 4)) as u16 == 0xFFF) by (bit_vector);
    assert(0xF1u8 & 1 == 1) by (bit_vector);
    assert(b2 >> 6 == 1 && (b2 >> 2) & 0xF == freq && (b2 >> 1) & 1 == 0) by (bit_vector)
        requires
            freq <= 12,
            1 <= chan <= 7,
            b2 == ((1u8 << 6) | ((freq << 2) as u8) | ((chan >> 2) as u8)) as u8,
    ;
    assert((((b2 & 1) << 2) | (b3 >> 6)) as u8 == chan) by (bit_vector)
        requires
            freq <= 12,
            1 <= chan <= 7,
            frame_length <= 8191,
            b2 == ((1u8 << 6) | ((freq << 2) as u8) | ((chan >> 2) as u8)) as u8,
            b3 == ((((chan & 3) << 6) as u8) | ((frame_length >> 11) as u8)) as u8,
    ;
    assert(((((b3 & 3) as u16) << 11) | (((b4 as u16) << 3) as u16) | ((b5 >> 5) as u16)) as u16
        == frame_length) by (bit_vector)
        requires
            1 <= chan <= 7,
            frame_length <= 8191,
            b3 == ((((chan & 3) << 6) as u8) | ((frame_length >> 11) as u8)) as u8,
            b4 == ((frame_length >> 3) as u8),
            b5 == (((((frame_length & 7) as u8) << 5) as u8) | 0x1Fu8) as u8,
    ;
    assert(((((b5 & 0x1F) as u16) << 6) | ((0xFCu8 >> 2) as u16)) as u16 == 0x7FF) by (bit_vector)
        requires
            b5 == (((((frame_length & 7) as u8) << 5) as u8) | 0x1Fu8) as u8,
    ;
    assert(0xFCu8 & 3 == 0) by (bit_vector);
}

/// Law: for every payload length up to [`MAX_ADTS_PAYLOAD_LENGTH`], the
/// frame-length field of the built header reads back exactly payload length
/// plus 7.
pub proof fn lemma_frame_length_round_trip(freq: u8, chan: u8, payload_len: usize)
    requires
        freq <= 12,
        1 <= chan <= 7,
        payload_len <= MAX_ADTS_PAYLOAD_LENGTH,
    ensures
        spec_frame_length_field(
            spec_adts_header(freq, chan, (ADTS_HEADER_LENGTH + payload_len) as u16),
        ) == ADTS_HEADER_LENGTH + payload_len,
{
    lemma_adts_header_fields(freq, chan, (ADTS_HEADER_LENGTH + payload_len) as u16);
}

} // verus!
