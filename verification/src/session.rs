//! The plain data crossing the system boundary: start options, the metadata
//! a successful start returns, and the artifact a successful stop returns.
use vstd::prelude::*;

verus! {

/// What a caller hands to `start`: where to record, what to capture, and
/// under which id.
pub struct RecordingStartOptions {
    /// Tap only this process; absent means system-wide capture.
    pub app_process_id: Option<u32>,
    /// Processes to leave out of system-wide capture.
    pub exclude_process_ids: Option<Vec<u32>>,
    /// The directory the output file is placed in; must be absolute.
    pub output_dir: String,
    /// Requested format; only the supported codec name is accepted.
    pub format: Option<String>,
    /// Advisory capture sample rate.
    pub sample_rate: Option<u32>,
    /// Requested channel count; one or two, anything else is resolved from
    /// the capture source.
    pub channels: Option<u32>,
    /// Caller-supplied session id; sanitized before use.
    pub id: Option<String>,
}

/// What a successful start returns, and what the registry keeps per session.
pub struct RecordingSessionMeta {
    /// The sanitized session id.
    pub id: String,
    /// The output file path.
    pub filepath: String,
    /// The encode sample rate.
    pub sample_rate: u32,
    /// The effective channel count.
    pub channels: u32,
    /// Start time in epoch milliseconds.
    pub started_at: i64,
}

/// The terminal result of a session, produced once on a successful stop.
pub struct RecordingArtifact {
    /// The session id.
    pub id: String,
    /// The output file path.
    pub filepath: String,
    /// The encode sample rate.
    pub sample_rate: u32,
    /// The channel count.
    pub channels: u32,
    /// Duration in whole milliseconds, from the true sample count.
    pub duration_ms: i64,
    /// File size in bytes.
    pub size: i64,
}

} // verus!
