//! The bookkeeping of a container writer, apart from the writer itself.
//!
//! Whether a frame is accepted, which duration it is written with, and what
//! the counters are afterwards are decided here, on plain values. The writer
//! of files only carries the decisions out.

use crate::timing::derived_durations;
use crate::timing::frame_duration;
use crate::timing::sample_duration;
use vstd::prelude::*;

verus! {

/// Time units per second of the movie and of its track: the encoder stamps
/// frames in microseconds.
pub const TIMESCALE: u32 = 1_000_000;

/// The most samples that a track takes: sample numbers are 32 bits wide, and
/// the number after the last sample has to exist.
pub const SAMPLE_LIMIT: u64 = 0xFFFF_FFFE;

/// Why an operation of the container writer was not carried out.
#[derive(Clone, Copy, Debug, PartialEq, Eq, Structural)]
pub enum MuxError {
    /// The file has been finished; the writer takes no further calls.
    AlreadyFinalized,
    /// The box writer reported a failure, now or in an earlier call. What it
    /// had gathered is discarded.
    WriterFailed,
    /// The sequence parameter set has fewer than the four bytes from which the
    /// track's profile and level are taken.
    ParameterSetTooShort,
    /// The track already holds as many samples as it can number.
    TooManySamples,
    /// The payload is longer than a 32-bit sample size can tell.
    SampleTooLarge,
    /// The duration is longer than the track can record at this point.
    DurationTooLong,
}

impl MuxError {
    /// What the error says, in words.
    pub open spec fn text(self) -> Seq<char> {
        match self {
            MuxError::AlreadyFinalized => "writer already finalized"@,
            MuxError::WriterFailed => "the container could not be written"@,
            MuxError::ParameterSetTooShort => "sequence parameter set shorter than four bytes"@,
            MuxError::TooManySamples => "the track holds no more samples"@,
            MuxError::SampleTooLarge => "sample payload too large"@,
            MuxError::DurationTooLong => "sample duration too long"@,
        }
    }

    /// Puts the error in words.
    pub fn message(&self) -> (s: &'static str)
        ensures
            s@ == self.text(),
    {
        match self {
            MuxError::AlreadyFinalized => "writer already finalized",
            MuxError::WriterFailed => "the container could not be written",
            MuxError::ParameterSetTooShort => "sequence parameter set shorter than four bytes",
            MuxError::TooManySamples => "the track holds no more samples",
            MuxError::SampleTooLarge => "sample payload too large",
            MuxError::DurationTooLong => "sample duration too long",
        }
    }
}

/// Where a container writer stands in its life.
#[derive(Clone, Copy, Debug, PartialEq, Eq, Structural)]
pub enum Phase {
    /// Frames are accepted.
    Recording,
    /// The file was handed out.
    Finalized,
    /// The box writer failed and was discarded.
    Failed,
}

/// The counters of a container writer.
#[derive(Clone, Copy, Debug, PartialEq, Eq, Structural)]
pub struct Progress {
    pub phase: Phase,
    /// Samples written so far.
    pub frame_count: u64,
    /// Stamp of the latest sample written, zero before the first.
    pub last_timestamp: u64,
    /// Summed duration of the samples in the chunk that the box writer has not
    /// yet moved to the file.
    pub open_span: u32,
    /// Whether that chunk holds any byte of payload.
    pub open_payload: bool,
}

impl Progress {
    /// The counters of a writer that has written nothing.
    pub open spec fn fresh() -> Progress {
        Progress {
            phase: Phase::Recording,
            frame_count: 0,
            last_timestamp: 0,
            open_span: 0,
            open_payload: false,
        }
    }

    /// The duration that a frame stamped `timestamp` would be written with.
    pub open spec fn duration_of(self, timestamp: u64) -> int {
        frame_duration(self.frame_count as nat, self.last_timestamp, timestamp)
    }

    /// The verdict on a frame of `payload_len` bytes stamped `timestamp`: the
    /// duration to write it with, or the reason for which it is turned down.
    pub open spec fn verdict(self, payload_len: nat, timestamp: u64) -> Result<u32, MuxError> {
        if self.phase == Phase::Finalized {
            Err(MuxError::AlreadyFinalized)
        } else if self.phase == Phase::Failed {
            Err(MuxError::WriterFailed)
        } else if self.frame_count >= SAMPLE_LIMIT {
            Err(MuxError::TooManySamples)
        } else if payload_len > u32::MAX {
            Err(MuxError::SampleTooLarge)
        } else if self.open_span + self.duration_of(timestamp) > u32::MAX {
            Err(MuxError::DurationTooLong)
        } else {
            Ok(self.duration_of(timestamp) as u32)
        }
    }

    /// Whether a frame is accepted and completes the open chunk: with it a
    /// second's worth is gathered, and there is payload to move to the file.
    pub open spec fn closes_chunk(self, payload_len: nat, timestamp: u64) -> bool {
        &&& self.verdict(payload_len, timestamp) is Ok
        &&& self.open_span + self.duration_of(timestamp) >= TIMESCALE
        &&& (self.open_payload || payload_len > 0)
    }

    /// Whether a frame is accepted and only joins the open chunk. Nothing is
    /// moved to the file for such a frame, so writing it cannot fail.
    pub open spec fn stays_in_chunk(self, payload_len: nat, timestamp: u64) -> bool {
        &&& self.verdict(payload_len, timestamp) is Ok
        &&& !self.closes_chunk(payload_len, timestamp)
    }

    /// The counters after the box writer was asked to write an accepted frame:
    /// advanced where it did, marked as failed where it did not.
    pub open spec fn settled(self, payload_len: nat, timestamp: u64, written: bool) -> Progress
        recommends
            self.verdict(payload_len, timestamp) is Ok,
    {
        if written && self.closes_chunk(payload_len, timestamp) {
            Progress {
                phase: Phase::Recording,
                frame_count: (self.frame_count + 1) as u64,
                last_timestamp: timestamp,
                open_span: 0,
                open_payload: false,
            }
        } else if written {
            Progress {
                phase: Phase::Recording,
                frame_count: (self.frame_count + 1) as u64,
                last_timestamp: timestamp,
                open_span: (self.open_span + self.duration_of(timestamp)) as u32,
                open_payload: self.open_payload || payload_len > 0,
            }
        } else {
            Progress { phase: Phase::Failed, ..self }
        }
    }

    /// The verdict on finishing the file.
    pub open spec fn closing_verdict(self) -> Result<(), MuxError> {
        match self.phase {
            Phase::Recording => Ok(()),
            Phase::Finalized => Err(MuxError::AlreadyFinalized),
            Phase::Failed => Err(MuxError::WriterFailed),
        }
    }

    /// The counters after the box writer was asked to finish the file.
    pub open spec fn closed(self, written: bool) -> Progress {
        if written {
            Progress { phase: Phase::Finalized, ..self }
        } else {
            Progress { phase: Phase::Failed, ..self }
        }
    }

    /// The counters after the frames stamped `stamps`, of `sizes` bytes each,
    /// were accepted and written one after the other.
    pub open spec fn fed(self, stamps: Seq<u64>, sizes: Seq<nat>) -> Progress
        recommends
            stamps.len() == sizes.len(),
        decreases stamps.len(),
    {
        if stamps.len() == 0 || sizes.len() != stamps.len() {
            self
        } else {
            self.fed(stamps.drop_last(), sizes.drop_last()).settled(
                sizes.last(),
                stamps.last(),
                true,
            )
        }
    }

    /// Starts the counters of a new writer.
    pub fn new() -> (p: Progress)
        ensures
            p == Progress::fresh(),
    {
        Progress {
            phase: Phase::Recording,
            frame_count: 0,
            last_timestamp: 0,
            open_span: 0,
            open_payload: false,
        }
    }

    /// Decides on a frame of `payload_len` bytes stamped `timestamp`.
    pub fn plan_frame(&self, payload_len: usize, timestamp: u64) -> (r: Result<u32, MuxError>)
        ensures
            r == self.verdict(payload_len as nat, timestamp),
    {
        match self.phase {
            Phase::Finalized => Err(MuxError::AlreadyFinalized),
            Phase::Failed => Err(MuxError::WriterFailed),
            Phase::Recording => {
                let duration: u64 = sample_duration(
                    self.frame_count,
                    self.last_timestamp,
                    timestamp,
                );
                let room: u64 = (u32::MAX - self.open_span) as u64;
                if self.frame_count >= SAMPLE_LIMIT {
                    Err(MuxError::TooManySamples)
                } else if payload_len as u64 > u32::MAX as u64 {
                    Err(MuxError::SampleTooLarge)
                } else if duration > room {
                    Err(MuxError::DurationTooLong)
                } else {
                    Ok(duration as u32)
                }
            },
        }
    }

    /// Records what became of an accepted frame.
    pub fn settle_frame(self, payload_len: usize, timestamp: u64, written: bool) -> (p: Progress)
        requires
            self.verdict(payload_len as nat, timestamp) is Ok,
        ensures
            p == self.settled(payload_len as nat, timestamp, written),
    {
        if written {
            let duration: u64 = sample_duration(self.frame_count, self.last_timestamp, timestamp);
            let gathered: u64 = self.open_span as u64 + duration;
            let payload: bool = self.open_payload || payload_len > 0;
            let closes: bool = gathered >= TIMESCALE as u64 && payload;
            Progress {
                phase: Phase::Recording,
                frame_count: self.frame_count + 1,
                last_timestamp: timestamp,
                open_span: if closes {
                    0
                } else {
                    gathered as u32
                },
                open_payload: payload && !closes,
            }
        } else {
            Progress {
                phase: Phase::Failed,
                frame_count: self.frame_count,
                last_timestamp: self.last_timestamp,
                open_span: self.open_span,
                open_payload: self.open_payload,
            }
        }
    }

    /// Decides on finishing the file.
    pub fn plan_close(&self) -> (r: Result<(), MuxError>)
        ensures
            r == self.closing_verdict(),
    {
        match self.phase {
            Phase::Recording => Ok(()),
            Phase::Finalized => Err(MuxError::AlreadyFinalized),
            Phase::Failed => Err(MuxError::WriterFailed),
        }
    }

    /// Records what became of finishing the file.
    pub fn settle_close(self, written: bool) -> (p: Progress)
        ensures
            p == self.closed(written),
    {
        Progress {
            phase: if written {
                Phase::Finalized
            } else {
                Phase::Failed
            },
            frame_count: self.frame_count,
            last_timestamp: self.last_timestamp,
            open_span: self.open_span,
            open_payload: self.open_payload,
        }
    }
}

/// A run of frames written to a new writer counts every frame and remembers
/// the stamp of the latest.
pub proof fn lemma_run_counts_frames(stamps: Seq<u64>, sizes: Seq<nat>)
    requires
        stamps.len() == sizes.len(),
        stamps.len() <= SAMPLE_LIMIT,
    ensures
        Progress::fresh().fed(stamps, sizes).phase == Phase::Recording,
        Progress::fresh().fed(stamps, sizes).frame_count == stamps.len(),
        stamps.len() > 0 ==> Progress::fresh().fed(stamps, sizes).last_timestamp == stamps.last(),
    decreases stamps.len(),
{
    if stamps.len() > 0 {
        lemma_run_counts_frames(stamps.drop_last(), sizes.drop_last());
    }
}

/// In a run of frames written to a new writer, each frame is given the
/// duration that its stamp and the stamp before it call for: the frame at `i`
/// meets the counters left by the frames before it, and the duration they
/// derive for it is the one at `i` of the durations derived from the stamps
/// alone.
pub proof fn lemma_run_follows_the_stamps(stamps: Seq<u64>, sizes: Seq<nat>, i: int)
    requires
        stamps.len() == sizes.len(),
        stamps.len() <= SAMPLE_LIMIT,
        0 <= i < stamps.len(),
    ensures
        Progress::fresh().fed(stamps.take(i), sizes.take(i)).duration_of(stamps[i])
            == derived_durations(stamps)[i],
{
    lemma_run_counts_frames(stamps.take(i), sizes.take(i));
}

/// An accepted frame is written with the duration that the counters derive,
/// which is at least one.
pub proof fn lemma_accepted_duration(p: Progress, payload_len: nat, timestamp: u64)
    requires
        p.verdict(payload_len, timestamp) is Ok,
    ensures
        p.verdict(payload_len, timestamp) == Ok::<u32, MuxError>(p.duration_of(timestamp) as u32),
        1 <= p.duration_of(timestamp) <= u32::MAX,
        p.phase == Phase::Recording,
{
}

/// Once the file has been handed out, the writer turns every further call
/// down as a call out of sequence: finishing again as well as another frame.
pub proof fn lemma_finished_writer_rejects(p: Progress, payload_len: nat, timestamp: u64)
    requires
        p.closing_verdict() is Ok,
    ensures
        p.closed(true).closing_verdict() == Err::<(), MuxError>(MuxError::AlreadyFinalized),
        p.closed(true).verdict(payload_len, timestamp) == Err::<u32, MuxError>(
            MuxError::AlreadyFinalized,
        ),
{
}

/// A writer whose box writer failed, on a frame or on finishing, reports that
/// failure on every further call.
pub proof fn lemma_failed_writer_rejects(p: Progress, payload_len: nat, timestamp: u64)
    requires
        p.phase == Phase::Failed,
    ensures
        p.closing_verdict() == Err::<(), MuxError>(MuxError::WriterFailed),
        p.verdict(payload_len, timestamp) == Err::<u32, MuxError>(MuxError::WriterFailed),
{
}

} // verus!
