//! How long each sample of the track lasts.
//!
//! The encoder stamps every frame with its presentation time, in microseconds.
//! A sample's duration is the distance from the frame before it; the first
//! frame, which has no predecessor, gets a nominal duration of one sixtieth of
//! a second. Where time does not move forward, because a stamp is repeated or
//! goes backwards, the duration is one unit, so that no sample ever lasts zero.

use vstd::prelude::*;

verus! {

/// Duration given to the first sample of a track, in microseconds.
pub const FIRST_FRAME_DURATION: u64 = 16_666;

/// The duration of a sample stamped `timestamp`, after `frames_before` samples
/// of which the latest was stamped `last_timestamp`.
pub open spec fn frame_duration(frames_before: nat, last_timestamp: u64, timestamp: u64) -> int {
    if frames_before == 0 {
        FIRST_FRAME_DURATION as int
    } else if timestamp > last_timestamp {
        timestamp - last_timestamp
    } else {
        1
    }
}

/// The durations of all samples of a track that is fed `timestamps` in order.
pub open spec fn derived_durations(timestamps: Seq<u64>) -> Seq<int> {
    Seq::new(
        timestamps.len(),
        |i: int|
            frame_duration(i as nat, if i > 0 { timestamps[i - 1] } else { 0 }, timestamps[i]),
    )
}

/// Whether each stamp is later than the one before it.
pub open spec fn strictly_increasing(timestamps: Seq<u64>) -> bool {
    forall|i: int| 0 < i < timestamps.len() ==> timestamps[i - 1] < #[trigger] timestamps[i]
}

/// Derives the duration of the next sample.
pub fn sample_duration(frame_count: u64, last_timestamp: u64, timestamp: u64) -> (duration: u64)
    ensures
        duration == frame_duration(frame_count as nat, last_timestamp, timestamp),
        duration >= 1,
{
    if frame_count == 0 {
        FIRST_FRAME_DURATION
    } else if timestamp > last_timestamp {
        timestamp - last_timestamp
    } else {
        1
    }
}

/// Under stamps that strictly increase, the first sample lasts the nominal
/// duration and every later sample lasts exactly as long as the distance from
/// its predecessor.
pub proof fn lemma_increasing_stamps_give_distances(timestamps: Seq<u64>)
    requires
        strictly_increasing(timestamps),
    ensures
        derived_durations(timestamps).len() == timestamps.len(),
        timestamps.len() > 0 ==> derived_durations(timestamps)[0] == FIRST_FRAME_DURATION,
        forall|i: int|
            0 < i < timestamps.len() ==> #[trigger] derived_durations(timestamps)[i]
                == timestamps[i] - timestamps[i - 1],
{
}

/// A stamp that repeats its predecessor or falls behind it gives a duration of
/// exactly one, whatever the other stamps are.
pub proof fn lemma_stalled_stamp_lasts_one(timestamps: Seq<u64>, i: int)
    requires
        0 < i < timestamps.len(),
        timestamps[i] <= timestamps[i - 1],
    ensures
        derived_durations(timestamps)[i] == 1,
{
}

/// No derived duration is zero or negative, and each fits in 64 bits.
pub proof fn lemma_durations_are_positive(timestamps: Seq<u64>, i: int)
    requires
        0 <= i < timestamps.len(),
    ensures
        1 <= derived_durations(timestamps)[i] <= u64::MAX,
{
}

} // verus!
