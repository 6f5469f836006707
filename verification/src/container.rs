//! The box writer of the `mp4` crate, as far as this library uses it.
//!
//! The writer is opaque to the verifier. What it was set up with and what it
//! was given are described by the uninterpreted functions of this module, and
//! the four calls that the library makes are wrapped in functions whose
//! contracts are stated over them. Those contracts are assumed, not proved:
//! they restate what the source of `mp4` 0.14 does.
//!
//! The writer assembles the file in memory, so whether a call succeeds depends
//! on what the writer was given and on nothing else. Where the source of `mp4`
//! shows by itself that a call succeeds, the contract says so. Where success
//! rests on writing to the in-memory buffer, it is given a name instead.

use std::io::Cursor;
use vstd::prelude::*;

verus! {

/// `mp4::Mp4Writer`, taken as opaque.
#[verifier::external_type_specification]
#[verifier::external_body]
#[verifier::reject_recursive_types(W)]
pub struct ExMp4Writer<W>(mp4::Mp4Writer<W>);

/// `std::io::Cursor`, taken as opaque.
#[verifier::external_type_specification]
#[verifier::external_body]
#[verifier::reject_recursive_types(T)]
pub struct ExCursor<T>(Cursor<T>);

/// `mp4::Error`, taken as opaque.
#[verifier::external_type_specification]
#[verifier::external_body]
pub struct ExMp4Error(mp4::Error);

/// A writer that assembles the file in memory.
pub type BoxWriter = mp4::Mp4Writer<Cursor<Vec<u8>>>;

/// What a file is opened with.
pub ghost struct MovieSetup {
    pub major_brand: Seq<char>,
    pub minor_version: u32,
    /// The one brand listed as compatible.
    pub compatible_brand: Seq<char>,
    /// Time units per second of the movie header.
    pub timescale: u32,
}

/// What an H.264 video track is set up with.
pub ghost struct TrackSetup {
    /// Time units per second of the track's samples.
    pub timescale: u32,
    pub language: Seq<char>,
    pub width: u16,
    pub height: u16,
    pub sps: Seq<u8>,
    pub pps: Seq<u8>,
}

/// What the writer keeps of a sample.
pub ghost struct SampleRecord {
    pub duration: u32,
    pub rendering_offset: i32,
    pub is_sync: bool,
    pub payload: Seq<u8>,
}

/// What `w` was opened with.
pub uninterp spec fn movie_setup(w: BoxWriter) -> MovieSetup;

/// How many bytes the buffer of `w` held before the file was begun in it.
pub uninterp spec fn leading_bytes(w: BoxWriter) -> nat;

/// The tracks added to `w`, in the order of their ids, which start at 1.
pub uninterp spec fn track_setups(w: BoxWriter) -> Seq<TrackSetup>;

/// The samples written to the first track of `w`, oldest first.
pub uninterp spec fn track_samples(w: BoxWriter) -> Seq<SampleRecord>;

/// The summed duration of the samples of the first track that `w` still
/// gathers in a chunk, not yet moved to the file's media data.
pub uninterp spec fn open_chunk_span(w: BoxWriter) -> nat;

/// The bytes of payload in that chunk.
pub uninterp spec fn open_chunk_bytes(w: BoxWriter) -> nat;

/// Whether a file can be begun with `movie` in an empty buffer.
pub uninterp spec fn writer_opens(movie: MovieSetup) -> bool;

/// Whether `sample` can be written to the first track of a writer that was
/// opened with `movie` in an empty buffer, holds `tracks` and has taken
/// `samples`.
pub uninterp spec fn sample_fits(
    movie: MovieSetup,
    tracks: Seq<TrackSetup>,
    samples: Seq<SampleRecord>,
    sample: SampleRecord,
) -> bool;

/// The bytes of the finished file of a writer that was opened with `movie` in
/// an empty buffer, holds `tracks` and has taken `samples`; `None` where the
/// file cannot be finished.
pub uninterp spec fn finished_file(
    movie: MovieSetup,
    tracks: Seq<TrackSetup>,
    samples: Seq<SampleRecord>,
) -> Option<Seq<u8>>;

/// Whether `bytes` begin as every file of a writer with one compatible brand
/// does: a box of twenty bytes and of type `ftyp`, the header of the media
/// data box `mdat` behind it, and room for the header of a third box.
pub open spec fn has_file_head(bytes: Seq<u8>) -> bool {
    &&& bytes.len() >= 36
    &&& bytes.subrange(0, 8) == seq![0u8, 0u8, 0u8, 20u8, 0x66u8, 0x74u8, 0x79u8, 0x70u8]
    &&& bytes.subrange(24, 28) == seq![0x6du8, 0x64u8, 0x61u8, 0x74u8]
}

/// Whether two writers were opened alike.
pub open spec fn opened_alike(a: BoxWriter, b: BoxWriter) -> bool {
    &&& movie_setup(a) == movie_setup(b)
    &&& leading_bytes(a) == leading_bytes(b)
}

/// Whether a sample of `duration` can be written to the first track of `w`
/// without any counter of the writer running over: the track exists, its
/// clock is at least as fine as the movie's, its sample numbers stay within
/// 32 bits, and so does the duration gathered in its open chunk.
pub open spec fn takes_sample(w: BoxWriter, duration: u32) -> bool {
    &&& track_setups(w).len() >= 1
    &&& 0 < movie_setup(w).timescale <= track_setups(w)[0].timescale
    &&& track_samples(w).len() + 2 <= u32::MAX
    &&& open_chunk_span(w) + duration <= u32::MAX
}

/// Whether a sample of `duration` and of `payload_len` bytes completes the open
/// chunk of `w`: with it the gathered duration reaches the track's timescale,
/// and the chunk holds at least one byte.
pub open spec fn completes_chunk(w: BoxWriter, duration: u32, payload_len: nat) -> bool {
    &&& open_chunk_span(w) + duration >= track_setups(w)[0].timescale
    &&& open_chunk_bytes(w) + payload_len > 0
}

/// `mp4::Mp4Writer::write_start` on a new, empty in-memory buffer, with both
/// brands parsed by `mp4::FourCC::from_str`.
///
/// Assumed: whether the writer is returned is a function of the four values.
/// A writer that is returned holds them, began its file at the start of the
/// buffer, has no track and no sample, and gathers nothing.
#[verifier::external_body]
pub(crate) fn open_writer(
    major_brand: &str,
    minor_version: u32,
    compatible_brand: &str,
    timescale: u32,
) -> (r: Result<BoxWriter, mp4::Error>)
    ensures
        r is Ok <==> writer_opens(
            MovieSetup {
                major_brand: major_brand@,
                minor_version,
                compatible_brand: compatible_brand@,
                timescale,
            },
        ),
        r matches Ok(w) ==> {
            &&& movie_setup(w) == (MovieSetup {
                major_brand: major_brand@,
                minor_version,
                compatible_brand: compatible_brand@,
                timescale,
            })
            &&& leading_bytes(w) == 0
            &&& track_setups(w) == Seq::<TrackSetup>::empty()
            &&& track_samples(w) == Seq::<SampleRecord>::empty()
            &&& open_chunk_span(w) == 0
            &&& open_chunk_bytes(w) == 0
        },
{
    let config = mp4::Mp4Config {
        major_brand: major_brand.parse()?,
        minor_version,
        compatible_brands: vec![compatible_brand.parse()?],
        timescale,
    };
    mp4::Mp4Writer::write_start(Cursor::new(Vec::new()), &config)
}

/// `mp4::Mp4Writer::add_track` with the configuration of an H.264 video
/// track.
///
/// The writer takes the profile and level of the track from the second to
/// fourth byte of `sps`, hence the lower bound on its length. Adding a track
/// writes nothing to the buffer and has no way to fail. Assumed: the call
/// succeeds, the track is appended to the writer's tracks, and nothing else
/// changes.
#[verifier::external_body]
pub(crate) fn add_avc_track(
    w: &mut BoxWriter,
    timescale: u32,
    language: &str,
    width: u16,
    height: u16,
    sps: Vec<u8>,
    pps: Vec<u8>,
) -> (r: Result<(), mp4::Error>)
    requires
        sps@.len() >= 4,
        track_setups(*old(w)).len() + 1 < u32::MAX,
    ensures
        r is Ok,
        opened_alike(*final(w), *old(w)),
        track_setups(*final(w)) == track_setups(*old(w)).push(
            TrackSetup { timescale, language: language@, width, height, sps: sps@, pps: pps@ },
        ),
        track_samples(*final(w)) == track_samples(*old(w)),
        open_chunk_span(*final(w)) == open_chunk_span(*old(w)),
        open_chunk_bytes(*final(w)) == open_chunk_bytes(*old(w)),
{
    let avc = mp4::AvcConfig { width, height, seq_param_set: sps, pic_param_set: pps };
    w.add_track(
        &mp4::TrackConfig {
            track_type: mp4::TrackType::Video,
            timescale,
            language: String::from(language),
            media_conf: mp4::MediaConfig::AvcConfig(avc),
        },
    )
}

/// `mp4::Mp4Writer::write_sample` on the first track, with the payload copied
/// by `bytes::Bytes::copy_from_slice`.
///
/// The writer keeps the sample's duration, offset, sync flag and payload; it
/// does not keep `start_time`. It gathers samples in a chunk. A sample that
/// completes the chunk has the chunk moved to the media data, which leaves
/// the chunk empty; any other sample only joins the chunk, and nothing is
/// written to the buffer.
///
/// Assumed: whether the call succeeds is a function of what the writer holds
/// and of the sample, and it does succeed for a sample that does not complete
/// the chunk. On success the sample is appended to the track's samples, the
/// set-up is unchanged, and the chunk is empty or has grown by the sample.
#[verifier::external_body]
pub(crate) fn write_sample(
    w: &mut BoxWriter,
    track_id: u32,
    start_time: u64,
    duration: u32,
    rendering_offset: i32,
    is_sync: bool,
    data: &[u8],
) -> (r: Result<(), mp4::Error>)
    requires
        track_id == 1,
        data@.len() <= u32::MAX,
        leading_bytes(*old(w)) == 0,
        takes_sample(*old(w), duration),
    ensures
        r is Ok <==> sample_fits(
            movie_setup(*old(w)),
            track_setups(*old(w)),
            track_samples(*old(w)),
            SampleRecord { duration, rendering_offset, is_sync, payload: data@ },
        ),
        !completes_chunk(*old(w), duration, data@.len()) ==> r is Ok,
        r is Ok ==> {
            &&& opened_alike(*final(w), *old(w))
            &&& track_setups(*final(w)) == track_setups(*old(w))
            &&& track_samples(*final(w)) == track_samples(*old(w)).push(
                SampleRecord { duration, rendering_offset, is_sync, payload: data@ },
            )
            &&& open_chunk_span(*final(w)) == if completes_chunk(*old(w), duration, data@.len()) {
                0
            } else {
                open_chunk_span(*old(w)) + duration
            }
            &&& open_chunk_bytes(*final(w)) == if completes_chunk(*old(w), duration, data@.len()) {
                0
            } else {
                open_chunk_bytes(*old(w)) + data@.len()
            }
        },
{
    let bytes = bytes::Bytes::copy_from_slice(data);
    w.write_sample(
        track_id,
        &mp4::Mp4Sample { start_time, duration, rendering_offset, is_sync, bytes },
    )
}

/// `mp4::Mp4Writer::write_end`, then `into_writer` and
/// `std::io::Cursor::into_inner` for the buffer.
///
/// Claimed only of a writer that began its file at the start of the buffer.
/// Assumed: whether the file can be finished, and with which bytes, is a
/// function of what the writer holds. The bytes begin with what was written
/// when the writer was opened: the `ftyp` box, of twenty bytes with its one
/// compatible brand, then the header of `mdat` and eight bytes more.
#[verifier::external_body]
pub(crate) fn close_writer(w: BoxWriter) -> (r: Result<Vec<u8>, mp4::Error>)
    requires
        leading_bytes(w) == 0,
    ensures
        r is Ok <==> finished_file(movie_setup(w), track_setups(w), track_samples(w)) is Some,
        r matches Ok(bytes) ==> {
            &&& finished_file(movie_setup(w), track_setups(w), track_samples(w)) == Some(bytes@)
            &&& has_file_head(bytes@)
        },
{
    let mut w = w;
    w.write_end()?;
    Ok(w.into_writer().into_inner())
}

} // verus!
