//! The trusted boundary to the native AAC decoder, the MP4 demuxer and the
//! underlying byte source.
//!
//! Each outside type is declared opaque, and each outside operation the
//! decoder relies on is wrapped in one `external_body` function whose
//! contract states what the outside crate's source shows of it.

use fdk_aac::dec::Decoder as AacDecoder;
use fdk_aac::dec::DecoderError;
use mp4::Error as Mp4Error;
use mp4::Mp4Reader;
use std::io::Error as IoError;
use vstd::prelude::*;

verus! {

use crate::TrackInfo;

#[verifier::external_type_specification]
#[verifier::external_body]
pub struct ExAacDecoder(AacDecoder);

#[verifier::external_type_specification]
#[verifier::external_body]
pub struct ExDecoderError(DecoderError);

#[verifier::external_type_specification]
#[verifier::external_body]
#[verifier::reject_recursive_types(R)]
pub struct ExMp4Reader<R>(Mp4Reader<R>);

#[verifier::external_type_specification]
#[verifier::external_body]
pub struct ExMp4Error(Mp4Error);

#[verifier::external_type_specification]
#[verifier::external_body]
pub struct ExIoError(IoError);

/// What one decode step reported: a decoded frame, one of the two
/// recoverable conditions ("not enough bits", "transport sync error"), or
/// any other failure.
pub(crate) enum DecodeAttempt {
    Decoded,
    Recoverable(DecoderError),
    Failed(DecoderError),
}

/// The codec parameters of one container track, as numeric codes: audio
/// object type, sampling-frequency index, channel configuration.
pub(crate) enum TrackCodecInfo {
    Found(u8, u8, u8),
    Missing,
    Unreadable,
}

/// Relies on fdk_aac::dec::Decoder::new: allocates a native decoder
/// configured for the ADTS transport.
#[verifier::external_body]
pub(crate) fn aac_decoder_new() -> AacDecoder {
    AacDecoder::new(fdk_aac::dec::Transport::Adts)
}

/// Relies on fdk_aac::dec::Decoder::decode_frame: decodes one frame from
/// the decoder's internally buffered bitstream into `pcm`, leaving the
/// block's length unchanged; its "not enough bits" and "transport sync
/// error" codes are the two recoverable conditions.
#[verifier::external_body]
pub(crate) fn decoder_decode_frame(dec: &mut AacDecoder, pcm: &mut Vec<i16>) -> (r: DecodeAttempt)
    ensures
        final(pcm)@.len() == old(pcm)@.len(),
{
    match dec.decode_frame(pcm.as_mut_slice()) {
        Ok(()) => DecodeAttempt::Decoded,
        Err(e) => {
            if e == DecoderError::NOT_ENOUGH_BITS || e == DecoderError::TRANSPORT_SYNC_ERROR {
                DecodeAttempt::Recoverable(e)
            } else {
                DecodeAttempt::Failed(e)
            }
        },
    }
}

/// Relies on fdk_aac::dec::Decoder::fill: hands `bytes` to the decoder's
/// internal buffer and returns how many leading bytes it consumed, never
/// more than were offered.
#[verifier::external_body]
pub(crate) fn decoder_fill(dec: &mut AacDecoder, bytes: &Vec<u8>) -> (r: Result<
    usize,
    DecoderError,
>)
    ensures
        r matches Ok(consumed) ==> consumed <= bytes@.len(),
{
    dec.fill(bytes.as_slice())
}

/// Relies on fdk_aac::dec::Decoder::decoded_frame_size: the size of the
/// most recently decoded frame in samples (frame size times channel count).
#[verifier::external_body]
pub(crate) fn decoder_decoded_frame_size(dec: &AacDecoder) -> usize {
    dec.decoded_frame_size()
}

/// Relies on fdk_aac::dec::Decoder::stream_info: the channel count and
/// sample rate of the decoder's current stream-parameter report.
#[verifier::external_body]
pub(crate) fn decoder_stream_params(dec: &AacDecoder) -> (i32, i32) {
    let info = dec.stream_info();
    (info.numChannels, info.sampleRate)
}

/// Relies on mp4::Mp4Reader::read_header: parses a container header from a
/// sized byte source, failing on malformed input.
#[verifier::external_body]
pub(crate) fn mp4_read_header<R: std::io::Read + std::io::Seek>(reader: R, size: u64) -> (r: Result<
    Mp4Reader<R>,
    Mp4Error,
>) {
    Mp4Reader::read_header(reader, size)
}

/// Relies on mp4::Mp4Reader::tracks, mp4::Mp4Track::track_id and
/// mp4::Mp4Track::media_type: one entry per track of the container, in the
/// demuxer's own (unspecified) order, carrying the track id and whether the
/// track's media type is AAC.
#[verifier::external_body]
pub(crate) fn mp4_list_tracks<R: std::io::Read + std::io::Seek>(reader: &Mp4Reader<R>) -> Vec<TrackInfo> {
    let mut out = Vec::new();
    for track in reader.tracks().values() {
        let is_aac = (matches!(track.media_type(), Ok(mp4::MediaType::AAC)));
        out.push(TrackInfo { track_id: track.track_id(), is_aac });
    }
    out
}

/// Relies on mp4::Mp4Reader::read_sample: the payload of the sample at the
/// given 1-based position of the given track, `Ok(None)` once the track has
/// no further sample.
#[verifier::external_body]
pub(crate) fn mp4_read_sample<R: std::io::Read + std::io::Seek>(
    reader: &mut Mp4Reader<R>,
    track_id: u32,
    sample_id: u32,
) -> (r: Result<Option<Vec<u8>>, Mp4Error>) {
    match reader.read_sample(track_id, sample_id) {
        Ok(Some(sample)) => Ok(Some(sample.bytes.to_vec())),
        Ok(None) => Ok(None),
        Err(e) => Err(e),
    }
}

/// Relies on mp4::Mp4Reader::tracks and the track accessors
/// mp4::Mp4Track::audio_profile, mp4::Mp4Track::sample_freq_index and
/// mp4::Mp4Track::channel_config: the track's codec parameters as their
/// numeric codes.
#[verifier::external_body]
pub(crate) fn mp4_track_codec_params<R: std::io::Read + std::io::Seek>(reader: &Mp4Reader<R>, track_id: u32) -> TrackCodecInfo {
    let track = match reader.tracks().get(&track_id) {
        Some(track) => track,
        None => {
            return TrackCodecInfo::Missing;
        },
    };
    match (track.audio_profile(), track.sample_freq_index(), track.channel_config()) {
        (Ok(aot), Ok(freq), Ok(chan)) => TrackCodecInfo::Found(aot as u8, freq as u8, chan as u8),
        _ => TrackCodecInfo::Unreadable,
    }
}

/// Relies on std::io::Read::read: up to `max_len` bytes from the byte
/// source; the result holds exactly the bytes read, and is empty at end of
/// stream per the reader's report.
#[verifier::external_body]
pub(crate) fn read_up_to<R: std::io::Read>(reader: &mut R, max_len: usize) -> (r: Result<
    Vec<u8>,
    IoError,
>)
    ensures
        r matches Ok(bytes) ==> bytes@.len() <= max_len,
{
    let mut buf = vec![0u8; max_len];
    match reader.read(&mut buf) {
        Ok(n) => {
            buf.truncate(n);
            Ok(buf)
        },
        Err(e) => Err(e),
    }
}

} // verus!
