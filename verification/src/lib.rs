//! Verified core of a multi-session audio recording pipeline: session id
//! sanitization, the active-session registry, sample-rate-converter chunking,
//! frame buffering, and serialization of encoded frames into an Ogg container.

pub mod errors;
pub mod ids;
pub mod oggio;
pub mod registry;
pub mod resample;
pub mod session;
pub mod tap;
pub mod writer;

pub use errors::RecordingError;
pub use ids::effective_channels;
pub use ids::now_millis;
pub use ids::output_file_name;
pub use ids::sanitize_id;
pub use ids::validate_format;
pub use registry::SessionRegistry;
pub use resample::InterleavedResampler;
pub use session::RecordingArtifact;
pub use session::RecordingSessionMeta;
pub use session::RecordingStartOptions;
pub use tap::AudioCallback;
pub use tap::CHANNEL_CAPACITY;
pub use writer::OggOpusWriter;
pub use writer::duration_ms;
pub use writer::make_artifact;
