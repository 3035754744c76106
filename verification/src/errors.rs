//! The error taxonomy of the stem-extraction pipeline.
use vstd::prelude::*;

verus! {

/// The configuration field that an encoder rejected.
#[derive(Clone, Copy, Debug, PartialEq, Eq, Structural)]
pub enum ConfigField {
    Format,
    Channels,
    BitDepth,
    SampleRate,
    OpusBitrate,
}

/// Everything that can go wrong while extracting stems.
///
/// Per-voice failures carry one of these; the caller decides whether a
/// failure aborts the whole run or only the one voice.
#[derive(Clone, Copy, Debug, PartialEq, Eq, Structural)]
pub enum StemError {
    /// The source bytes were not parseable as a tracker module.
    ModuleLoadFailed,
    /// The engine loaded the module but offers no mute/control surface,
    /// so no voice can be isolated.
    InteractiveInterfaceUnavailable,
    /// Voice isolation was requested with an index outside the module's
    /// voice table.
    InvalidVoiceIndex,
    /// An encoder rejected the export configuration before writing
    /// anything; the offending field is named.
    UnsupportedFormatConfiguration(ConfigField),
    /// The encoder or the filesystem failed while producing the artifact.
    OutputWriteFailed,
}

impl StemError {
    /// A human-readable description, for display at the program's edge:
    /// each error reads out as its own fixed text.
    pub fn message(&self) -> (s: String)
        ensures
            s@.len() > 0,
            *self == StemError::ModuleLoadFailed ==> s@
                == "failed to load the module from the given bytes"@,
            *self == StemError::InteractiveInterfaceUnavailable ==> s@
                == "the engine does not expose the interactive (mute) interface"@,
            *self == StemError::InvalidVoiceIndex ==> s@
                == "voice index out of range for this module"@,
            *self == StemError::UnsupportedFormatConfiguration(ConfigField::Format) ==> s@
                == "unsupported format configuration: format name"@,
            *self == StemError::UnsupportedFormatConfiguration(ConfigField::Channels) ==> s@
                == "unsupported format configuration: channels"@,
            *self == StemError::UnsupportedFormatConfiguration(ConfigField::BitDepth) ==> s@
                == "unsupported format configuration: bit depth"@,
            *self == StemError::UnsupportedFormatConfiguration(ConfigField::SampleRate) ==> s@
                == "unsupported format configuration: sample rate"@,
            *self == StemError::UnsupportedFormatConfiguration(ConfigField::OpusBitrate) ==> s@
                == "unsupported format configuration: opus bitrate"@,
            *self == StemError::OutputWriteFailed ==> s@
                == "failed to write the output artifact"@,
    {
        proof {
            reveal_strlit("failed to load the module from the given bytes");
            reveal_strlit("the engine does not expose the interactive (mute) interface");
            reveal_strlit("voice index out of range for this module");
            reveal_strlit("unsupported format configuration: format name");
            reveal_strlit("unsupported format configuration: channels");
            reveal_strlit("unsupported format configuration: bit depth");
            reveal_strlit("unsupported format configuration: sample rate");
            reveal_strlit("unsupported format configuration: opus bitrate");
            reveal_strlit("failed to write the output artifact");
        }
        match self {
            StemError::ModuleLoadFailed => String::from_str(
                "failed to load the module from the given bytes",
            ),
            StemError::InteractiveInterfaceUnavailable => String::from_str(
                "the engine does not expose the interactive (mute) interface",
            ),
            StemError::InvalidVoiceIndex => String::from_str(
                "voice index out of range for this module",
            ),
            StemError::UnsupportedFormatConfiguration(ConfigField::Format) => String::from_str(
                "unsupported format configuration: format name",
            ),
            StemError::UnsupportedFormatConfiguration(ConfigField::Channels) => String::from_str(
                "unsupported format configuration: channels",
            ),
            StemError::UnsupportedFormatConfiguration(ConfigField::BitDepth) => String::from_str(
                "unsupported format configuration: bit depth",
            ),
            StemError::UnsupportedFormatConfiguration(ConfigField::SampleRate) => String::from_str(
                "unsupported format configuration: sample rate",
            ),
            StemError::UnsupportedFormatConfiguration(ConfigField::OpusBitrate) => String::from_str(
                "unsupported format configuration: opus bitrate",
            ),
            StemError::OutputWriteFailed => String::from_str(
                "failed to write the output artifact",
            ),
        }
    }
}

} // verus!
