//! A frame-accurate scrubbing controller for a video player.
//!
//! The controller keeps the current frame, the play state, the drag state of
//! the seek track, the buffered fraction, the volume and the visibility of the
//! controls. Each command or notification updates that state and returns the
//! effects that the media elements and the page must carry out.
pub mod buffer;
pub mod frame_clock;
pub mod keys;
pub mod player;
pub mod seek_track;
pub mod timecode;
