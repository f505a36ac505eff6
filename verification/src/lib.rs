//! Decoder for a length-prefixed binary sensor feed.
//!
//! The feed is a stream of frames, each a fixed 24-byte big-endian header
//! followed by a little-endian payload whose length the header declares.
//! This crate locates and parses headers, reassembles payloads that arrive
//! in arbitrary chunks, and interprets scan-return and tracked-object
//! payloads into typed records. All parsing is pure byte logic with
//! verified contracts; the transport itself lives outside the crate.

pub mod bytes;
pub mod data_type;
pub mod errors;
pub mod fixed_time;
pub mod frame_loop;
pub mod header;
pub mod object;
pub mod reassembler;
pub mod scan;
pub mod timesync;
