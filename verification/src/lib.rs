//! AAC elementary-stream audio, decoded lazily to 16-bit PCM samples.
//!
//! The input is either a raw ADTS-framed byte stream or an AAC track of an
//! MPEG-4 container.  The container path synthesizes one ADTS header per
//! sample (see [`adts`]); both paths feed a shared byte buffer that drives
//! the native AAC decoder through a fill-and-retry protocol.
#![allow(unused_imports)]

use fdk_aac::dec::Decoder as AacDecoder;
use vstd::prelude::*;

pub mod adts;
pub mod backend;

verus! {

use crate::adts::AudioObjectType;
use crate::adts::ChannelConfig;
use crate::adts::SampleFreqIndex;
use crate::adts::construct_adts_header;
use crate::adts::spec_adts_header;
use crate::backend::DecodeAttempt;
use crate::backend::TrackCodecInfo;
use crate::backend::aac_decoder_new;
use crate::backend::decoder_decode_frame;
use crate::backend::decoder_decoded_frame_size;
use crate::backend::decoder_fill;
use crate::backend::decoder_stream_params;
use crate::backend::mp4_list_tracks;
use crate::backend::mp4_read_header;
use crate::backend::mp4_read_sample;
use crate::backend::mp4_track_codec_params;
use crate::backend::read_up_to;

/// Capacity of the shared byte buffer: how much ADTS-framed input the raw
/// backend keeps in flight at most.
pub const BUFFER_CAPACITY: usize = 8192;

/// Capacity of the PCM block one decode step writes into, in samples.
pub const PCM_BLOCK_CAPACITY: usize = 8192;

/// File container format.
pub enum Format {
    Mp4,
    Aac,
}

/// Everything that can go wrong while opening a stream or pulling samples.
#[derive(Debug)]
pub enum Error {
    /// Error reading the header of the file.
    FileHeaderError,
    /// Unable to get information about a track, such as audio profile,
    /// sample frequency or channel config.
    TrackReadingError,
    /// Unsupported audio object type, naming the offending type.
    UnsupportedObjectType(AudioObjectType),
    /// Unable to find an AAC track in the file.
    TrackNotFound,
    /// Error decoding the track, carrying the underlying decoder code.
    TrackDecodingError(fdk_aac::dec::DecoderError),
    /// Error getting samples.
    SamplesError,
    /// A sample too large for the 13-bit ADTS frame-length field.
    SampleTooLarge,
    /// Error from the underlying reader.
    ReaderError(std::io::Error),
}

impl Error {
    /// A short human-readable description of the error.
    pub fn message(&self) -> (r: &'static str)
        ensures
            self is FileHeaderError ==> r@ == "Error reading file header"@,
            self is TrackReadingError ==> r@ == "Error reading file track info"@,
            self is UnsupportedObjectType ==> r@ == "Unsupported audio object type"@,
            self is TrackNotFound ==> r@ == "Unable to find track in file"@,
            self is TrackDecodingError ==> r@ == "Error decoding track"@,
            self is SamplesError ==> r@ == "Error reading samples"@,
            self is SampleTooLarge ==> r@ == "Sample too large for an ADTS frame"@,
            self is ReaderError ==> r@ == "Error reading file"@,
    {
        match self {
            Error::FileHeaderError => "Error reading file header",
            Error::TrackReadingError => "Error reading file track info",
            Error::UnsupportedObjectType(_) => "Unsupported audio object type",
            Error::TrackNotFound => "Unable to find track in file",
            Error::TrackDecodingError(_) => "Error decoding track",
            Error::SamplesError => "Error reading samples",
            Error::SampleTooLarge => "Sample too large for an ADTS frame",
            Error::ReaderError(_) => "Error reading file",
        }
    }
}

/// One container track as the demuxer lists it: its id and whether its
/// media type is AAC.
#[derive(Clone, Copy, Debug, PartialEq, Eq, Structural)]
pub struct TrackInfo {
    pub track_id: u32,
    pub is_aac: bool,
}

/// The id of the first listed track whose media type is AAC, `None` when no
/// track is an AAC track.
pub fn select_aac_track(tracks: &Vec<TrackInfo>) -> (r: Option<u32>)
    ensures
        r matches Some(id) ==> exists|i: int|
            #![auto]
            0 <= i < tracks@.len() && tracks@[i].is_aac && tracks@[i].track_id == id && (forall|
                j: int,
            | 0 <= j < i ==> !tracks@[j].is_aac),
        r is None <==> (forall|i: int| #![auto] 0 <= i < tracks@.len() ==> !tracks@[i].is_aac),
{
    let mut idx: usize = 0;
    while idx < tracks.len()
        invariant
            idx <= tracks@.len(),
            forall|j: int| #![auto] 0 <= j < idx ==> !tracks@[j].is_aac,
        decreases tracks@.len() - idx,
    {
        if tracks[idx].is_aac {
            return Some(tracks[idx].track_id);
        }
        idx = idx + 1;
    }
    None
}

/// A correctly framed container chunk: one sample's payload behind a 7-byte
/// ADTS header whose frame length is the chunk's own length.
pub open spec fn spec_framed_sample(v: Seq<u8>) -> bool {
    &&& 7 <= v.len() <= 8191
    &&& exists|f: u8, c: u8|
        f <= 12 && 1 <= c <= 7 && v.subrange(0, 7) == #[trigger] spec_adts_header(
            f,
            c,
            v.len() as u16,
        )
}

/// Underlying reader: the parsed container, or the raw ADTS byte source.
#[verifier::reject_recursive_types(R)]
pub enum Reader<R> {
    Mp4Reader(mp4::Mp4Reader<R>),
    AacReader(R),
}

/// A pull-based AAC decoder: a sample source over `reader`, the shared byte
/// buffer, the most recently decoded PCM block with its read cursor, and
/// the last-error slot that the lazy sequence records failures in.
#[verifier::reject_recursive_types(R)]
pub struct Decoder<R> {
    pub format: Format,
    reader: Reader<R>,
    aac_decoder: AacDecoder,
    bytes: Vec<u8>,
    current_pcm_index: usize,
    current_pcm: Vec<i16>,
    track_id: u32,
    position: u32,
    /// If there's an error while pulling samples, that error is added here.
    pub iter_error: Option<Error>,
}

impl<R> Decoder<R> {
    /// Structural invariant: the PCM cursor never passes the block length,
    /// sample positions are 1-based, and the raw backend's byte buffer
    /// never exceeds its capacity.
    pub closed spec fn wf(self) -> bool {
        &&& self.current_pcm_index <= self.current_pcm@.len()
        &&& self.position >= 1
        &&& (self.reader is AacReader ==> self.bytes@.len() <= BUFFER_CAPACITY)
    }

    /// The most recently decoded PCM block.
    pub closed spec fn pcm_block(self) -> Seq<i16> {
        self.current_pcm@
    }

    /// The read cursor into the PCM block.
    pub closed spec fn pcm_cursor(self) -> int {
        self.current_pcm_index as int
    }

    /// The bytes accumulated for the decoder and not yet consumed by it.
    pub closed spec fn buffered(self) -> Seq<u8> {
        self.bytes@
    }

    /// The 1-based position of the next container sample to fetch.
    pub closed spec fn sample_position(self) -> u32 {
        self.position
    }

    /// The id of the selected AAC track.
    pub closed spec fn selected_track(self) -> u32 {
        self.track_id
    }

    /// Whether the decoder reads the raw ADTS backend.
    pub closed spec fn is_raw_backend(self) -> bool {
        self.reader is AacReader
    }

    /// The container format tag.
    pub closed spec fn spec_format(self) -> Format {
        self.format
    }

    /// The last-error slot.
    pub closed spec fn last_error(self) -> Option<Error> {
        self.iter_error
    }

    /// Create from an AAC buffer, already ADTS-framed.
    pub fn new_aac(reader: R) -> (d: Decoder<R>)
        ensures
            d.wf(),
            d.spec_format() is Aac,
            d.is_raw_backend(),
            d.buffered() == Seq::<u8>::empty(),
            d.pcm_block() == Seq::<i16>::empty(),
            d.pcm_cursor() == 0,
            d.sample_position() == 1,
            d.last_error() is None,
    {
        let aac_decoder = aac_decoder_new();
        Decoder {
            format: Format::Aac,
            reader: Reader::AacReader(reader),
            aac_decoder,
            bytes: Vec::new(),
            current_pcm_index: 0,
            current_pcm: Vec::new(),
            track_id: 0,
            position: 1,
            iter_error: None,
        }
    }

    /// Current frame length: the decoder's reported decode block size.
    pub fn current_frame_len(&self) -> (r: Option<usize>)
        ensures
            r is Some,
    {
        let frame_size: usize = decoder_decoded_frame_size(&self.aac_decoder);
        Some(frame_size)
    }

    /// Channel count per the decoder's current stream-parameter report;
    /// meaningful only after the first successful decode.
    pub fn channels(&self) -> u16 {
        let (num_channels, _) = decoder_stream_params(&self.aac_decoder);
        #[verifier::truncate] (num_channels as u16)
    }

    /// Sample rate per the decoder's current stream-parameter report;
    /// meaningful only after the first successful decode.
    pub fn sample_rate(&self) -> u32 {
        let (_, sample_rate) = decoder_stream_params(&self.aac_decoder);
        #[verifier::truncate] (sample_rate as u32)
    }

    /// Total duration is never computed.
    pub fn total_duration(&self) -> (r: Option<std::time::Duration>)
        ensures
            r is None,
    {
        None
    }
}

impl<R: std::io::Read + std::io::Seek> Decoder<R> {
    /// Create from an MPEG-4 buffer of the given size: parse the container
    /// header, then select the first AAC track, failing closed when the
    /// header is malformed or no AAC track exists.
    pub fn new_mpeg4(reader: R, size: u64) -> (r: Result<Decoder<R>, Error>)
        ensures
            r matches Ok(d) ==> {
                &&& d.wf()
                &&& d.spec_format() is Mp4
                &&& !d.is_raw_backend()
                &&& d.buffered() == Seq::<u8>::empty()
                &&& d.pcm_block() == Seq::<i16>::empty()
                &&& d.pcm_cursor() == 0
                &&& d.sample_position() == 1
                &&& d.last_error() is None
            },
            r matches Err(e) ==> (e is FileHeaderError || e is TrackNotFound),
    {
        let aac_decoder = aac_decoder_new();
        let mp4 = match mp4_read_header(reader, size) {
            Ok(mp4) => mp4,
            Err(_) => {
                return Err(Error::FileHeaderError);
            },
        };
        let tracks = mp4_list_tracks(&mp4);
        let track_id = match select_aac_track(&tracks) {
            Some(track_id) => track_id,
            None => {
                return Err(Error::TrackNotFound);
            },
        };
        Ok(
            Decoder {
                format: Format::Mp4,
                reader: Reader::Mp4Reader(mp4),
                aac_decoder,
                bytes: Vec::new(),
                current_pcm_index: 0,
                current_pcm: Vec::new(),
                track_id,
                position: 1,
                iter_error: None,
            },
        )
    }

    /// Fetch the next framed chunk from the sample source: on the container
    /// path, one sample with a freshly built ADTS header in front; on the
    /// raw path, up to a buffer's worth of bytes, already framed.  `None`
    /// signals end of stream.
    fn fetch_next_chunk(&mut self) -> (r: Result<Option<Vec<u8>>, Error>)
        requires
            old(self).wf(),
        ensures
            final(self).wf(),
            final(self).spec_format() == old(self).spec_format(),
            final(self).is_raw_backend() == old(self).is_raw_backend(),
            final(self).selected_track() == old(self).selected_track(),
            final(self).buffered() == old(self).buffered(),
            final(self).pcm_block() == old(self).pcm_block(),
            final(self).pcm_cursor() == old(self).pcm_cursor(),
            final(self).last_error() == old(self).last_error(),
            // the container position advances exactly on a fetched sample
            r matches Ok(c) && c is Some && !old(self).is_raw_backend() ==> final(self).sample_position() == old(self).sample_position() + 1,
            !(r matches Ok(c) && c is Some) ==> final(self).sample_position() == old(self).sample_position(),
            old(self).is_raw_backend() ==> final(self).sample_position() == old(self).sample_position(),
            // a raw chunk fits the remaining buffer capacity and is never empty
            old(self).is_raw_backend() ==> (r matches Ok(Some(v)) ==> 1 <= v@.len() && old(self).buffered().len() + v@.len() <= BUFFER_CAPACITY),
            // a container chunk is one sample behind a 7-byte ADTS header
            // built from the track's own codec parameters
            !old(self).is_raw_backend() ==> (r matches Ok(Some(v)) ==> spec_framed_sample(v@)),
            // the errors each backend can surface
            old(self).is_raw_backend() ==> (r matches Err(e) ==> e is ReaderError),
            !old(self).is_raw_backend() ==> (r matches Err(e) ==> (e is SamplesError
                || e is TrackNotFound || e is TrackReadingError || e is UnsupportedObjectType
                || e is SampleTooLarge)),
    {
        match &mut self.reader {
            Reader::Mp4Reader(mp4_reader) => {
                if self.position == u32::MAX {
                    return Err(Error::SamplesError);
                }
                let sample_opt = match mp4_read_sample(mp4_reader, self.track_id, self.position) {
                    Ok(sample_opt) => sample_opt,
                    Err(_) => {
                        return Err(Error::SamplesError);
                    },
                };
                let payload = match sample_opt {
                    Some(payload) => payload,
                    None => {
                        return Ok(None);  // end of track
                    },
                };
                let (aot_code, freq_code, chan_code) = match mp4_track_codec_params(
                    mp4_reader,
                    self.track_id,
                ) {
                    TrackCodecInfo::Found(aot_code, freq_code, chan_code) => (
                        aot_code,
                        freq_code,
                        chan_code,
                    ),
                    TrackCodecInfo::Missing => {
                        return Err(Error::TrackNotFound);
                    },
                    TrackCodecInfo::Unreadable => {
                        return Err(Error::TrackReadingError);
                    },
                };
                let object_type = match AudioObjectType::from_code(aot_code) {
                    Some(object_type) => object_type,
                    None => {
                        return Err(Error::TrackReadingError);
                    },
                };
                let sample_freq_index = match SampleFreqIndex::from_code(freq_code) {
                    Some(sample_freq_index) => sample_freq_index,
                    None => {
                        return Err(Error::TrackReadingError);
                    },
                };
                let channel_config = match ChannelConfig::from_code(chan_code) {
                    Some(channel_config) => channel_config,
                    None => {
                        return Err(Error::TrackReadingError);
                    },
                };
                let mut framed = match construct_adts_header(
                    object_type,
                    sample_freq_index,
                    channel_config,
                    payload.len(),
                ) {
                    Ok(framed) => framed,
                    Err(e) => {
                        return Err(e);
                    },
                };
                let ghost header_view = framed@;
                let ghost payload_view = payload@;
                let mut payload = payload;
                framed.append(&mut payload);
                proof {
                    let f = crate::adts::spec_freq_index_code(sample_freq_index);
                    let c = crate::adts::spec_channel_code(channel_config);
                    assert(f <= 12 && 1 <= c <= 7);
                    assert(payload_view.len() <= 8184);
                    assert(framed@.len() == 7 + payload_view.len());
                    assert(framed@.subrange(0, 7) =~= header_view);
                    assert(framed@.subrange(0, 7) == spec_adts_header(f, c, framed@.len() as u16));
                    assert(spec_framed_sample(framed@));
                }
                self.position = self.position + 1;
                Ok(Some(framed))
            },
            Reader::AacReader(aac_reader) => {
                let max_len = BUFFER_CAPACITY - self.bytes.len();
                let chunk = match read_up_to(aac_reader, max_len) {
                    Ok(chunk) => chunk,
                    Err(e) => {
                        return Err(Error::ReaderError(e));
                    },
                };
                if chunk.len() == 0 {
                    return Ok(None);  // end of stream
                }
                Ok(Some(chunk))
            },
        }
    }

    /// Hand the accumulated bytes to the decoder's fill operation and
    /// retain only the suffix it did not consume: the buffer never holds
    /// already-consumed bytes.
    fn fill_decoder_from_buffer(&mut self) -> (r: Result<(), Error>)
        requires
            old(self).wf(),
        ensures
            final(self).wf(),
            final(self).spec_format() == old(self).spec_format(),
            final(self).is_raw_backend() == old(self).is_raw_backend(),
            final(self).selected_track() == old(self).selected_track(),
            final(self).sample_position() == old(self).sample_position(),
            final(self).pcm_block() == old(self).pcm_block(),
            final(self).pcm_cursor() == old(self).pcm_cursor(),
            final(self).last_error() == old(self).last_error(),
            r is Ok ==> exists|consumed: int|
                0 <= consumed <= old(self).buffered().len() && final(self).buffered() == old(self).buffered().subrange(consumed, old(self).buffered().len() as int),
            r matches Err(e) ==> (e is TrackDecodingError && final(self).buffered() == old(self).buffered()),
    {
        let bytes_filled = match decoder_fill(&mut self.aac_decoder, &self.bytes) {
            Ok(bytes_filled) => bytes_filled,
            Err(e) => {
                return Err(Error::TrackDecodingError(e));
            },
        };
        let rest = tail_from(&self.bytes, bytes_filled);
        self.bytes = rest;
        proof {
            assert(self.bytes@ == old(self).buffered().subrange(
                bytes_filled as int,
                old(self).buffered().len() as int,
            ));
        }
        Ok(())
    }

    /// Consume and return the next sample, or `Ok(None)` once the stream
    /// has ended.
    ///
    /// While the current PCM block has unread entries, one is emitted and
    /// the cursor advances.  Once the block is exhausted a decode step runs
    /// against the decoder's buffered bitstream; on one of the two
    /// recoverable conditions, one unit is pulled from the sample source
    /// (ending the stream cleanly when the source is done), the byte buffer
    /// is offered to the decoder's fill operation, and the decode step is
    /// retried exactly once more.  Any other failure, or a failed retry, is
    /// fatal for this call.
    pub fn decode_next_sample(&mut self) -> (r: Result<Option<i16>, Error>)
        requires
            old(self).wf(),
        ensures
            final(self).wf(),
            final(self).spec_format() == old(self).spec_format(),
            final(self).is_raw_backend() == old(self).is_raw_backend(),
            final(self).selected_track() == old(self).selected_track(),
            final(self).last_error() == old(self).last_error(),
            // a block with unread entries: pure emission, nothing else moves
            old(self).pcm_cursor() < old(self).pcm_block().len() ==> {
                &&& r == Ok::<Option<i16>, Error>(
                    Some(old(self).pcm_block()[old(self).pcm_cursor()]),
                )
                &&& final(self).pcm_block() == old(self).pcm_block()
                &&& final(self).pcm_cursor() == old(self).pcm_cursor() + 1
                &&& final(self).buffered() == old(self).buffered()
                &&& final(self).sample_position() == old(self).sample_position()
            },
            // every emitted sample is the one under the new cursor
            r matches Ok(Some(v)) ==> {
                &&& 1 <= final(self).pcm_cursor() <= final(self).pcm_block().len()
                &&& v == final(self).pcm_block()[final(self).pcm_cursor() - 1]
            },
            // a refill installs a fresh block, read from its start
            old(self).pcm_cursor() == old(self).pcm_block().len() ==> (r matches Ok(Some(v)) ==> {
                &&& final(self).pcm_cursor() == 1
                &&& 1 <= final(self).pcm_block().len() <= PCM_BLOCK_CAPACITY
                &&& v == final(self).pcm_block()[0]
            }),
            // end of stream: only on an exhausted block, which stays put
            r == Ok::<Option<i16>, Error>(None) ==> {
                &&& old(self).pcm_cursor() == old(self).pcm_block().len()
                &&& final(self).pcm_block() == old(self).pcm_block()
                &&& final(self).pcm_cursor() == old(self).pcm_cursor()
            },
            // failures arise only while refilling an exhausted block
            r is Err ==> old(self).pcm_cursor() == old(self).pcm_block().len(),
            r matches Err(e) ==> !(e is FileHeaderError),
            // the byte buffer holds only the unconsumed suffix of what was
            // accumulated: its old contents extended by at most one fetched
            // unit, minus the prefix the decoder consumed
            exists|appended: Seq<u8>, consumed: int|
                0 <= consumed <= old(self).buffered().len() + appended.len() && final(self).buffered() == #[trigger] (old(self).buffered() + appended).subrange(
                    consumed,
                    (old(self).buffered().len() + appended.len()) as int,
                ),
            // the container position advances at most once per pull
            old(self).sample_position() <= final(self).sample_position() <= old(self).sample_position() + 1,
            old(self).is_raw_backend() ==> final(self).sample_position() == old(self).sample_position(),
    {
        proof {
            lemma_unchanged_buffer_is_suffix(old(self).buffered());
        }
        if self.current_pcm_index == self.current_pcm.len() {
            let mut pcm: Vec<i16> = vec![0i16; PCM_BLOCK_CAPACITY];
            let first_attempt = decoder_decode_frame(&mut self.aac_decoder, &mut pcm);
            match first_attempt {
                DecodeAttempt::Decoded => {},
                DecodeAttempt::Failed(e) => {
                    return Err(Error::TrackDecodingError(e));
                },
                DecodeAttempt::Recoverable(_) => {
                    // pull one unit from the sample source
                    let chunk = match self.fetch_next_chunk() {
                        Ok(chunk) => chunk,
                        Err(e) => {
                            return Err(e);
                        },
                    };
                    let mut chunk = match chunk {
                        Some(chunk) => chunk,
                        None => {
                            return Ok(None);  // clean end of stream
                        },
                    };
                    let ghost chunk_view = chunk@;
                    self.bytes.append(&mut chunk);
                    let ghost accumulated = old(self).buffered() + chunk_view;
                    proof {
                        assert(self.bytes@ == accumulated);
                    }
                    match self.fill_decoder_from_buffer() {
                        Ok(()) => {
                            proof {
                                let consumed = choose|consumed: int|
                                    0 <= consumed <= accumulated.len() && self.bytes@
                                        == accumulated.subrange(consumed, accumulated.len() as int);
                                assert(self.bytes@ == (old(self).buffered()
                                    + chunk_view).subrange(
                                    consumed,
                                    (old(self).buffered().len() + chunk_view.len()) as int,
                                ));
                            }
                        },
                        Err(e) => {
                            proof {
                                assert(self.bytes@ =~= (old(self).buffered()
                                    + chunk_view).subrange(
                                    0,
                                    (old(self).buffered().len() + chunk_view.len()) as int,
                                ));
                            }
                            return Err(e);
                        },
                    }
                    // retry the decode step exactly once more
                    match decoder_decode_frame(&mut self.aac_decoder, &mut pcm) {
                        DecodeAttempt::Decoded => {},
                        DecodeAttempt::Recoverable(e) => {
                            return Err(Error::TrackDecodingError(e));
                        },
                        DecodeAttempt::Failed(e) => {
                            return Err(Error::TrackDecodingError(e));
                        },
                    }
                },
            }
            // slice the block to the decoder-reported actual frame size:
            // frame sizes vary and padding past the reported size is never
            // emitted
            let decoded_frame_size = decoder_decoded_frame_size(&self.aac_decoder);
            if decoded_frame_size < pcm.len() {
                pcm.truncate(decoded_frame_size);
            }
            if pcm.len() == 0 {
                // a decode step that reports an empty frame would leave the
                // sequence without a sample to emit
                return Err(Error::SamplesError);
            }
            self.current_pcm = pcm;
            self.current_pcm_index = 0;
        }
        let value = self.current_pcm[self.current_pcm_index];
        self.current_pcm_index = self.current_pcm_index + 1;
        Ok(Some(value))
    }

    /// Run [`Self::decode_next_sample`] once: its sample on success; on a
    /// failure, record it in the last-error slot and end the sequence.
    pub fn next_sample(&mut self) -> (r: Option<i16>)
        requires
            old(self).wf(),
        ensures
            final(self).wf(),
            final(self).spec_format() == old(self).spec_format(),
            final(self).is_raw_backend() == old(self).is_raw_backend(),
            // a block with unread entries: pure emission, the slot untouched
            old(self).pcm_cursor() < old(self).pcm_block().len() ==> {
                &&& r == Some(old(self).pcm_block()[old(self).pcm_cursor()])
                &&& final(self).pcm_cursor() == old(self).pcm_cursor() + 1
                &&& final(self).pcm_block() == old(self).pcm_block()
                &&& final(self).last_error() == old(self).last_error()
            },
            // every emitted sample is the one under the new cursor, and
            // emitting never records an error
            r matches Some(v) ==> {
                &&& 1 <= final(self).pcm_cursor() <= final(self).pcm_block().len()
                &&& v == final(self).pcm_block()[final(self).pcm_cursor() - 1]
                &&& final(self).last_error() == old(self).last_error()
            },
            // the slot changes only to record a failure, and then nothing
            // is emitted; a clean end of stream leaves it untouched
            final(self).last_error() != old(self).last_error() ==> (r is None && final(self).last_error() is Some),
    {
        match self.decode_next_sample() {
            Ok(sample) => sample,
            Err(err) => {
                self.iter_error = Some(err);
                None
            },
        }
    }
}

/// An untouched buffer is trivially the unconsumed suffix of itself with
/// nothing appended.
proof fn lemma_unchanged_buffer_is_suffix(b: Seq<u8>)
    ensures
        exists|appended: Seq<u8>, consumed: int|
            0 <= consumed <= b.len() + appended.len() && b == #[trigger] (b + appended).subrange(
                consumed,
                (b.len() + appended.len()) as int,
            ),
{
    assert(b =~= (b + Seq::<u8>::empty()).subrange(
        0,
        (b.len() + Seq::<u8>::empty().len()) as int,
    ));
}

/// The suffix of `v` from index `from` on.
fn tail_from(v: &Vec<u8>, from: usize) -> (r: Vec<u8>)
    requires
        from <= v@.len(),
    ensures
        r@ == v@.subrange(from as int, v@.len() as int),
{
    let mut out: Vec<u8> = Vec::new();
    let mut i: usize = from;
    while i < v.len()
        invariant
            from <= i <= v@.len(),
            out@ == v@.subrange(from as int, i as int),
        decreases v@.len() - i,
    {
        let b = v[i];
        out.push(b);
        proof {
            assert(out@ =~= v@.subrange(from as int, i + 1 as int));
        }
        i = i + 1;
    }
    out
}

} // verus!
