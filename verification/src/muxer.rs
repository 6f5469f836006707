//! The container writer: one H.264 video track in a progressive MP4 file.

use crate::avcc::avcc_pps;
use crate::avcc::avcc_readable;
use crate::avcc::avcc_sps;
use crate::avcc::fallback_bytes;
use crate::avcc::read_avcc;
use crate::container::add_avc_track;
use crate::container::close_writer;
use crate::container::finished_file;
use crate::container::has_file_head;
use crate::container::leading_bytes;
use crate::container::movie_setup;
use crate::container::open_chunk_bytes;
use crate::container::open_chunk_span;
use crate::container::open_writer;
use crate::container::sample_fits;
use crate::container::track_samples;
use crate::container::track_setups;
use crate::container::write_sample;
use crate::container::writer_opens;
use crate::container::BoxWriter;
use crate::container::MovieSetup;
use crate::container::SampleRecord;
use crate::container::TrackSetup;
use crate::progress::MuxError;
use crate::progress::Phase;
use crate::progress::Progress;
use crate::progress::SAMPLE_LIMIT;
use crate::progress::TIMESCALE;
use vstd::prelude::*;

verus! {

/// Minor version written to the file type box.
pub const MINOR_VERSION: u32 = 512;

/// Id of the one track of the file.
pub const TRACK_ID: u32 = 1;

/// Fewest bytes of a sequence parameter set that a track can be described
/// from.
pub const MIN_SPS_LEN: usize = 4;

/// What every file of this library is opened with.
pub open spec fn movie() -> MovieSetup {
    MovieSetup {
        major_brand: "isom"@,
        minor_version: MINOR_VERSION,
        compatible_brand: "isom"@,
        timescale: TIMESCALE,
    }
}

/// What the box writer is given for a frame that lasts `duration`.
pub open spec fn sample_for(duration: u32, is_key: bool, data: Seq<u8>) -> SampleRecord {
    SampleRecord { duration, rendering_offset: 0, is_sync: is_key, payload: data }
}

/// The sixteen bits that the file keeps of a picture dimension.
pub open spec fn stored_dimension(pixels: u32) -> u16 {
    (pixels % 0x1_0000) as u16
}

/// The track of a writer made for pictures of `width` by `height` and the
/// configuration record `description`.
pub open spec fn track_for(width: u32, height: u32, description: Seq<u8>) -> TrackSetup {
    TrackSetup {
        timescale: TIMESCALE,
        language: "und"@,
        width: stored_dimension(width),
        height: stored_dimension(height),
        sps: avcc_sps(description),
        pps: avcc_pps(description),
    }
}

/// A writer of one MP4 file with a single H.264 video track.
pub struct Mp4Muxer {
    writer: Option<BoxWriter>,
    progress: Progress,
    degraded: bool,
    track: Ghost<TrackSetup>,
}

impl Mp4Muxer {
    /// The counters of the writer.
    pub closed spec fn progress(&self) -> Progress {
        self.progress
    }

    /// The track that the writer was made with.
    pub closed spec fn track(&self) -> TrackSetup {
        self.track@
    }

    /// The samples gathered for the file; none once the writer has let go of
    /// them, with the file or after a failure.
    pub closed spec fn samples(&self) -> Seq<SampleRecord> {
        match self.writer {
            Some(w) => track_samples(w),
            None => Seq::empty(),
        }
    }

    /// Whether the track is described by the fallback parameter sets.
    pub closed spec fn degraded(&self) -> bool {
        self.degraded
    }

    /// Whether the counters and the box writer agree: the box writer is held
    /// exactly while frames are accepted, it was set up as the track says, and
    /// it holds as many samples as were counted.
    pub closed spec fn wf(&self) -> bool {
        &&& self.writer is Some <==> self.progress.phase == Phase::Recording
        &&& self.progress.frame_count <= SAMPLE_LIMIT
        &&& self.track@.timescale == TIMESCALE
        &&& self.writer matches Some(w) ==> {
            &&& movie_setup(w) == movie()
            &&& leading_bytes(w) == 0
            &&& track_setups(w) == seq![self.track()]
            &&& track_samples(w).len() == self.progress.frame_count
            &&& open_chunk_span(w) == self.progress.open_span
            &&& open_chunk_bytes(w) > 0 <==> self.progress.open_payload
        }
    }

    /// While frames are accepted, the counters count exactly the samples
    /// gathered, the track ticks in microseconds, and no more samples are held
    /// than the track can number.
    pub proof fn lemma_counters_match_samples(&self)
        requires
            self.wf(),
        ensures
            self.track().timescale == TIMESCALE,
            self.progress().frame_count <= SAMPLE_LIMIT,
            self.progress().phase == Phase::Recording ==> self.samples().len()
                == self.progress().frame_count,
            self.progress().phase != Phase::Recording ==> self.samples().len() == 0,
    {
    }

    /// Opens a file for pictures of `width` by `height` whose decoder
    /// configuration is `description`.
    ///
    /// A record that cannot be read is no error: the track is then described by
    /// the fallback parameter sets, and the writer says so. A sequence
    /// parameter set of fewer than four bytes is turned down, because the track
    /// header is filled from its second to fourth byte. In every other case the
    /// writer is returned, unless the box writer cannot begin the file.
    pub fn new(width: u32, height: u32, description: &[u8]) -> (r: Result<Mp4Muxer, MuxError>)
        ensures
            avcc_sps(description@).len() < MIN_SPS_LEN ==> r == Err::<Mp4Muxer, MuxError>(
                MuxError::ParameterSetTooShort,
            ),
            avcc_sps(description@).len() >= MIN_SPS_LEN ==> {
                &&& r is Ok <==> writer_opens(movie())
                &&& match r {
                    Ok(m) => {
                        &&& m.wf()
                        &&& m.progress() == Progress::fresh()
                        &&& m.track() == track_for(width, height, description@)
                        &&& m.samples() == Seq::<SampleRecord>::empty()
                        &&& m.degraded() == !avcc_readable(description@)
                    },
                    Err(e) => e == MuxError::WriterFailed,
                }
            },
    {
        let (sps, pps, degraded) = match read_avcc(description) {
            Some((sps, pps)) => (sps, pps, false),
            None => (fallback_bytes(), fallback_bytes(), true),
        };
        if sps.len() < MIN_SPS_LEN {
            return Err(MuxError::ParameterSetTooShort);
        }
        let mut w = match open_writer("isom", MINOR_VERSION, "isom", TIMESCALE) {
            Ok(w) => w,
            Err(_) => {
                return Err(MuxError::WriterFailed);
            },
        };
        let track = Ghost(track_for(width, height, description@));
        let width: u16 = (width % 0x1_0000) as u16;
        let height: u16 = (height % 0x1_0000) as u16;
        match add_avc_track(&mut w, TIMESCALE, "und", width, height, sps, pps) {
            Ok(()) => {},
            // Not reached: adding a track does not fail.
            Err(_) => {
                return Err(MuxError::WriterFailed);
            },
        }
        Ok(Mp4Muxer { writer: Some(w), progress: Progress::new(), degraded, track })
    }

    /// Appends one encoded frame to the track.
    ///
    /// The counters decide whether the frame is accepted and how long it lasts
    /// (see [`Progress::verdict`]). A frame that is turned down leaves the
    /// writer as it was. An accepted frame is handed to the box writer, as a
    /// sync sample where `is_key` is set. A frame that only joins the open
    /// chunk is written for sure. For a frame that completes the chunk the box
    /// writer decides, and where it fails, the writer is marked as failed and
    /// what it had gathered is gone.
    pub fn add_frame(&mut self, data: &[u8], is_key: bool, timestamp: u64) -> (r: Result<
        (),
        MuxError,
    >)
        requires
            old(self).wf(),
        ensures
            final(self).wf(),
            final(self).track() == old(self).track(),
            final(self).degraded() == old(self).degraded(),
            match old(self).progress().verdict(data@.len(), timestamp) {
                Err(e) => r == Err::<(), MuxError>(e) && *final(self) == *old(self),
                Ok(duration) => {
                    &&& r is Ok <==> sample_fits(
                        movie(),
                        seq![old(self).track()],
                        old(self).samples(),
                        sample_for(duration, is_key, data@),
                    )
                    &&& old(self).progress().stays_in_chunk(data@.len(), timestamp) ==> r is Ok
                    &&& final(self).progress() == old(self).progress().settled(
                        data@.len(),
                        timestamp,
                        r is Ok,
                    )
                    &&& r is Ok ==> final(self).samples() == old(self).samples().push(
                        sample_for(duration, is_key, data@),
                    )
                    &&& r is Err ==> r == Err::<(), MuxError>(MuxError::WriterFailed)
                        && final(self).samples() == Seq::<SampleRecord>::empty()
                },
            },
    {
        let duration: u32 = match self.progress.plan_frame(data.len(), timestamp) {
            Ok(duration) => duration,
            Err(e) => {
                return Err(e);
            },
        };
        let mut w = match self.writer.take() {
            Some(w) => w,
            // Not reached: while frames are accepted the box writer is held.
            None => {
                return Err(MuxError::WriterFailed);
            },
        };
        match write_sample(&mut w, TRACK_ID, timestamp, duration, 0, is_key, data) {
            Ok(()) => {
                self.progress = self.progress.settle_frame(data.len(), timestamp, true);
                self.writer = Some(w);
                Ok(())
            },
            Err(_) => {
                self.progress = self.progress.settle_frame(data.len(), timestamp, false);
                Err(MuxError::WriterFailed)
            },
        }
    }

    /// Reads the counters.
    pub fn counters(&self) -> (p: Progress)
        ensures
            p == self.progress(),
    {
        self.progress
    }

    /// Tells whether the track is described by the fallback parameter sets,
    /// so that the caller can warn of a file that will not decode.
    pub fn is_degraded(&self) -> (b: bool)
        ensures
            b == self.degraded(),
    {
        self.degraded
    }

    /// Finishes the file and hands out its bytes.
    ///
    /// This can be done once. A writer that has finished, or that has failed,
    /// turns the call down and stays as it was. Otherwise the bytes are handed
    /// out, unless the box writer cannot finish the file.
    pub fn finish(&mut self) -> (r: Result<Vec<u8>, MuxError>)
        requires
            old(self).wf(),
        ensures
            final(self).wf(),
            final(self).track() == old(self).track(),
            final(self).degraded() == old(self).degraded(),
            match old(self).progress().closing_verdict() {
                Err(e) => r == Err::<Vec<u8>, MuxError>(e) && *final(self) == *old(self),
                Ok(_) => {
                    &&& r is Ok <==> finished_file(
                        movie(),
                        seq![old(self).track()],
                        old(self).samples(),
                    ) is Some
                    &&& final(self).progress() == old(self).progress().closed(r is Ok)
                    &&& final(self).samples() == Seq::<SampleRecord>::empty()
                    &&& r matches Ok(bytes) ==> {
                        &&& finished_file(
                            movie(),
                            seq![old(self).track()],
                            old(self).samples(),
                        ) == Some(bytes@)
                        &&& has_file_head(bytes@)
                    }
                    &&& r is Err ==> r == Err::<Vec<u8>, MuxError>(MuxError::WriterFailed)
                },
            },
    {
        match self.progress.plan_close() {
            Ok(()) => {},
            Err(e) => {
                return Err(e);
            },
        }
        let w = match self.writer.take() {
            Some(w) => w,
            // Not reached: while frames are accepted the box writer is held.
            None => {
                return Err(MuxError::WriterFailed);
            },
        };
        match close_writer(w) {
            Ok(bytes) => {
                self.progress = self.progress.settle_close(true);
                Ok(bytes)
            },
            Err(_) => {
                self.progress = self.progress.settle_close(false);
                Err(MuxError::WriterFailed)
            },
        }
    }
}

} // verus!
