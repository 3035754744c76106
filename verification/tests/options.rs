use untracker::{
    audio::validate_options, audio::effective_options, AudioFormat, ConfigField, ExportOptions,
    ResampleMethod, StemError,
};

fn base_options() -> ExportOptions {
    ExportOptions {
        format: AudioFormat::Wav,
        sample_rate: 44100,
        channels: 2,
        bit_depth: 16,
        opus_bitrate: 128,
        vorbis_quality: 5,
        resample: ResampleMethod::Sinc,
        stereo_separation: 100,
    }
}

#[test]
fn test_resample_method_mapping() {
    assert_eq!(ResampleMethod::Nearest.to_openmpt_filter_length(), 1);
    assert_eq!(ResampleMethod::Linear.to_openmpt_filter_length(), 2);
    assert_eq!(ResampleMethod::Cubic.to_openmpt_filter_length(), 4);
    assert_eq!(ResampleMethod::Sinc.to_openmpt_filter_length(), 8);
}

#[test]
fn test_audio_format_parsing() {
    assert!("wav".parse::<AudioFormat>().is_ok());
    assert!("WAV".parse::<AudioFormat>().is_ok());
    assert!("vorbis".parse::<AudioFormat>().is_ok());
    assert!("ogg".parse::<AudioFormat>().is_ok());
    assert!("opus".parse::<AudioFormat>().is_ok());
    assert!("flac".parse::<AudioFormat>().is_ok());
    assert!("invalid".parse::<AudioFormat>().is_err());
}

#[test]
fn test_export_options_struct() {
    let options = ExportOptions {
        format: AudioFormat::Wav,
        sample_rate: 44100,
        channels: 2,
        bit_depth: 16,
        opus_bitrate: 128,
        vorbis_quality: 5,
        resample: ResampleMethod::Sinc,
        stereo_separation: 100,
    };
    assert_eq!(options.sample_rate, 44100);
    assert_eq!(options.channels, 2);
}

#[test]
fn parsed_formats_are_the_right_variants() {
    assert_eq!("wav".parse::<AudioFormat>().unwrap(), AudioFormat::Wav);
    assert_eq!("Vorbis".parse::<AudioFormat>().unwrap(), AudioFormat::Vorbis);
    assert_eq!("OGG".parse::<AudioFormat>().unwrap(), AudioFormat::Vorbis);
    assert_eq!("Opus".parse::<AudioFormat>().unwrap(), AudioFormat::Opus);
    assert_eq!("fLaC".parse::<AudioFormat>().unwrap(), AudioFormat::Flac);
    assert_eq!(
        "mp3".parse::<AudioFormat>().unwrap_err(),
        StemError::UnsupportedFormatConfiguration(ConfigField::Format)
    );
}

#[test]
fn format_names_with_other_scripts_are_rejected() {
    assert!("wäv".parse::<AudioFormat>().is_err());
    assert!("".parse::<AudioFormat>().is_err());
    assert!("wav ".parse::<AudioFormat>().is_err());
}

#[test]
fn three_channels_fail_validation_before_anything_runs() {
    let options = ExportOptions { channels: 3, ..base_options() };
    assert_eq!(
        validate_options(&options).unwrap_err(),
        StemError::UnsupportedFormatConfiguration(ConfigField::Channels)
    );
}

#[test]
fn bad_bit_depth_fails_validation() {
    let options = ExportOptions { bit_depth: 12, ..base_options() };
    assert_eq!(
        validate_options(&options).unwrap_err(),
        StemError::UnsupportedFormatConfiguration(ConfigField::BitDepth)
    );
}

#[test]
fn valid_options_pass_validation() {
    assert!(validate_options(&base_options()).is_ok());
    let mono24 = ExportOptions { channels: 1, bit_depth: 24, ..base_options() };
    assert!(validate_options(&mono24).is_ok());
}

#[test]
fn opus_at_44100_is_corrected_to_48000() {
    let options = ExportOptions { format: AudioFormat::Opus, ..base_options() };
    let corrected = effective_options(&options);
    assert_eq!(corrected.sample_rate, 48000);
    assert_eq!(corrected.format, AudioFormat::Opus);
    assert_eq!(corrected.channels, options.channels);
    assert_eq!(corrected.bit_depth, options.bit_depth);
}

#[test]
fn opus_at_supported_rates_is_untouched() {
    for rate in [8000u32, 12000, 16000, 24000, 48000] {
        let options =
            ExportOptions { format: AudioFormat::Opus, sample_rate: rate, ..base_options() };
        assert_eq!(effective_options(&options).sample_rate, rate);
    }
}

#[test]
fn non_opus_rates_are_never_corrected() {
    let options = ExportOptions { sample_rate: 44100, ..base_options() };
    assert_eq!(effective_options(&options).sample_rate, 44100);
    let odd = ExportOptions { format: AudioFormat::Flac, sample_rate: 22050, ..base_options() };
    assert_eq!(effective_options(&odd).sample_rate, 22050);
}

#[test]
fn error_messages_read_out_the_failure() {
    assert_eq!(
        StemError::InvalidVoiceIndex.message(),
        "voice index out of range for this module"
    );
    assert_eq!(
        StemError::UnsupportedFormatConfiguration(ConfigField::SampleRate).message(),
        "unsupported format configuration: sample rate"
    );
    assert_eq!(
        StemError::OutputWriteFailed.message(),
        "failed to write the output artifact"
    );
}

#[test]
fn error_messages_name_each_failure() {
    let errors = [
        StemError::ModuleLoadFailed,
        StemError::InteractiveInterfaceUnavailable,
        StemError::InvalidVoiceIndex,
        StemError::UnsupportedFormatConfiguration(ConfigField::Format),
        StemError::UnsupportedFormatConfiguration(ConfigField::Channels),
        StemError::UnsupportedFormatConfiguration(ConfigField::BitDepth),
        StemError::UnsupportedFormatConfiguration(ConfigField::SampleRate),
        StemError::UnsupportedFormatConfiguration(ConfigField::OpusBitrate),
        StemError::OutputWriteFailed,
    ];
    let mut seen: Vec<String> = Vec::new();
    for e in errors {
        let m = e.message();
        assert!(!m.is_empty());
        assert!(!seen.contains(&m));
        seen.push(m);
    }
}
