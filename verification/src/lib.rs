//! Stem extraction for tracker music modules.
//!
//! A tracker module is rendered once per voice (instrument or sample slot)
//! with every other voice muted, and the isolated PCM is encoded into an
//! audio container.  This crate holds the verified core of that pipeline:
//! the export configuration and its validation, the voice-isolation plan,
//! the streaming-render accumulation, the artifact naming scheme, and the
//! output encoders.  The tracker playback engine itself and all file I/O
//! stay outside the library and hand plain values in and out.
pub mod audio;
pub mod errors;
pub mod naming;
pub mod orchestrate;
pub mod render;

pub use audio::{
    parse_audio_format, write_audio_file, AudioFormat, EncodedAudio, ExportOptions, OpusPlan,
    ResampleMethod,
};
pub use errors::{ConfigField, StemError};
