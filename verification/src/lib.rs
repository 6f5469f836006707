//! Building blocks of a screen recorder: reading an H.264 decoder
//! configuration record, deriving sample timing, and packaging encoded
//! samples into a progressive MP4 file with a single video track.
//!
//! * [`avcc`] reads the parameter sets out of a decoder configuration record
//!   and falls back to a fixed pair where the record cannot be read.
//! * [`timing`] derives the duration of each sample from the frame stamps.
//! * [`progress`] decides, on plain counters, whether a frame is accepted and
//!   what the counters are afterwards.
//! * [`muxer`] is the container writer itself.
//! * [`container`] describes the box writer of the `mp4` crate that the
//!   container writer drives.

pub mod avcc;
pub mod container;
pub mod muxer;
pub mod progress;
pub mod timing;

pub use muxer::Mp4Muxer;
pub use progress::MuxError;
pub use progress::Phase;
pub use progress::Progress;
