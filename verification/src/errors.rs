//! The closed set of failure categories surfaced across the system boundary,
//! each with a stable machine-readable code.
use vstd::prelude::*;

verus! {

use vstd::string::StringExecFns;

/// Every failure of the recording pipeline falls in one of these categories.
#[derive(Debug)]
pub enum RecordingError {
    /// Audio capture is unavailable on this operating system.
    UnsupportedPlatform,
    /// The requested output directory is not absolute or cannot be resolved.
    InvalidOutputDir,
    /// The requested format is not the supported codec name.
    InvalidFormat(String),
    /// An operating-system I/O failure, with its description.
    Io(String),
    /// An encoder, converter or container failure, with its description.
    Encoding(String),
    /// No active session carries the requested id.
    NotFound,
    /// The session captured no audio at all.
    Empty,
    /// Starting or halting the capture source failed, or the id is already
    /// recording; the cause is carried as text.
    Start(String),
    /// The worker thread did not complete normally.
    Join,
}

impl RecordingError {
    /// The stable machine-readable code of this category.
    pub fn code(&self) -> (r: &'static str)
        ensures
            r@ == self.spec_code(),
    {
        match self {
            RecordingError::UnsupportedPlatform => "unsupported-platform",
            RecordingError::InvalidOutputDir => "invalid-output-dir",
            RecordingError::InvalidFormat(_) => "invalid-format",
            RecordingError::Io(_) => "io-error",
            RecordingError::Encoding(_) => "encoding-error",
            RecordingError::NotFound => "not-found",
            RecordingError::Empty => "empty-recording",
            RecordingError::Start(_) => "start-failure",
            RecordingError::Join => "join-failure",
        }
    }

    /// The human-readable description of this failure.
    pub fn message(&self) -> (r: String)
        ensures
            r@ == self.spec_message(),
    {
        match self {
            RecordingError::UnsupportedPlatform => String::from_str("unsupported platform"),
            RecordingError::InvalidOutputDir => String::from_str("invalid output directory"),
            RecordingError::InvalidFormat(f) => {
                let mut s = String::from_str("invalid format ");
                s.append(f.as_str());
                s
            },
            RecordingError::Io(c) => {
                let mut s = String::from_str("io error: ");
                s.append(c.as_str());
                s
            },
            RecordingError::Encoding(c) => {
                let mut s = String::from_str("encoding error: ");
                s.append(c.as_str());
                s
            },
            RecordingError::NotFound => String::from_str("recording not found"),
            RecordingError::Empty => String::from_str("empty recording"),
            RecordingError::Start(c) => {
                let mut s = String::from_str("start failure: ");
                s.append(c.as_str());
                s
            },
            RecordingError::Join => String::from_str("join failure"),
        }
    }

    /// What `message` returns, for contracts.
    pub open spec fn spec_message(&self) -> Seq<char> {
        match self {
            RecordingError::UnsupportedPlatform => "unsupported platform"@,
            RecordingError::InvalidOutputDir => "invalid output directory"@,
            RecordingError::InvalidFormat(f) => "invalid format "@ + f@,
            RecordingError::Io(c) => "io error: "@ + c@,
            RecordingError::Encoding(c) => "encoding error: "@ + c@,
            RecordingError::NotFound => "recording not found"@,
            RecordingError::Empty => "empty recording"@,
            RecordingError::Start(c) => "start failure: "@ + c@,
            RecordingError::Join => "join failure"@,
        }
    }

    /// The form every failure takes when it crosses the system boundary:
    /// the stable code, a colon and a space, then the message.
    pub fn boundary_message(&self) -> (r: String)
        ensures
            r@ == self.spec_code() + ": "@ + self.spec_message(),
    {
        let mut s = String::from_str(self.code());
        s.append(": ");
        let m = self.message();
        s.append(m.as_str());
        s
    }

    /// What `code` returns, for contracts.
    pub open spec fn spec_code(&self) -> Seq<char> {
        match self {
            RecordingError::UnsupportedPlatform => "unsupported-platform"@,
            RecordingError::InvalidOutputDir => "invalid-output-dir"@,
            RecordingError::InvalidFormat(_) => "invalid-format"@,
            RecordingError::Io(_) => "io-error"@,
            RecordingError::Encoding(_) => "encoding-error"@,
            RecordingError::NotFound => "not-found"@,
            RecordingError::Empty => "empty-recording"@,
            RecordingError::Start(_) => "start-failure"@,
            RecordingError::Join => "join-failure"@,
        }
    }
}

} // verus!
