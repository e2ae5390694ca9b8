//! Values exchanged with the Aeron Archive: where a recorded stream comes from,
//! the catalog's description of a recording, and the sentinel positions.

use vstd::prelude::*;

verus! {

/// Source location for recording — whether the stream being recorded originates
/// locally (via a spy subscription) or remotely (via network subscription).
#[derive(Debug, Clone, Copy, PartialEq, Eq, Structural)]
pub enum SourceLocation {
    Local,
    Remote,
}

/// The archive's number for a source location.
pub open spec fn source_location_code(source: SourceLocation) -> i32 {
    match source {
        SourceLocation::Local => 0,
        SourceLocation::Remote => 1,
    }
}

impl SourceLocation {
    /// The archive's number for this source location.
    pub fn code(&self) -> (r: i32)
        ensures
            r == source_location_code(*self),
    {
        match self {
            SourceLocation::Local => 0,
            SourceLocation::Remote => 1,
        }
    }
}

/// Describes a single recording in the Aeron Archive catalog.
#[derive(Debug, Clone)]
pub struct RecordingDescriptor {
    pub control_session_id: i64,
    pub correlation_id: i64,
    pub recording_id: i64,
    pub start_timestamp: i64,
    pub stop_timestamp: i64,
    pub start_position: i64,
    pub stop_position: i64,
    pub initial_term_id: i32,
    pub segment_file_length: i32,
    pub term_buffer_length: i32,
    pub mtu_length: i32,
    pub session_id: i32,
    pub stream_id: i32,
    pub stripped_channel: String,
    pub original_channel: String,
}

/// Sentinel value for null positions (same as `aeron::NULL_VALUE`).
pub const NULL_POSITION: i64 = i64::MIN;

/// Sentinel value for null length (replay entire recording).
pub const NULL_LENGTH: i64 = i64::MIN;

} // verus!
