use untracker::orchestrate::plan_run;
use untracker::render::VoiceKind;
use untracker::{AudioFormat, ConfigField, ExportOptions, ResampleMethod, StemError};

fn default_options() -> ExportOptions {
    ExportOptions {
        format: AudioFormat::Wav,
        sample_rate: 44100,
        channels: 2,
        bit_depth: 16,
        opus_bitrate: 128,
        vorbis_quality: 5,
        resample: ResampleMethod::Sinc,
        stereo_separation: 100,
    }
}

#[test]
fn a_module_with_31_samples_plans_31_sample_stems() {
    let plan = plan_run(&default_options(), 0, 31, "cndmcrrp").unwrap();
    assert_eq!(plan.kind, VoiceKind::Sample);
    assert_eq!(plan.voice_count, 31);
    assert_eq!(plan.names.len(), 31);
    assert_eq!(plan.names[0], "cndmcrrp_sample_001.wav");
    assert_eq!(plan.names[30], "cndmcrrp_sample_031.wav");
    assert_eq!(plan.options.sample_rate, 44100);
    assert_eq!(plan.options.channels, 2);
    assert_eq!(plan.options.bit_depth, 16);
}

#[test]
fn a_module_with_47_instruments_plans_47_instrument_stems() {
    let plan = plan_run(&default_options(), 47, 0, "zalza-karate_muffins").unwrap();
    assert_eq!(plan.kind, VoiceKind::Instrument);
    assert_eq!(plan.voice_count, 47);
    assert_eq!(plan.names.len(), 47);
    assert_eq!(plan.names[0], "zalza-karate_muffins_instrument_001.wav");
    assert_eq!(plan.names[46], "zalza-karate_muffins_instrument_047.wav");
}

#[test]
fn bad_channels_abort_the_run_before_any_job() {
    let options = ExportOptions { channels: 3, ..default_options() };
    assert_eq!(
        plan_run(&options, 47, 0, "song").unwrap_err(),
        StemError::UnsupportedFormatConfiguration(ConfigField::Channels)
    );
}

#[test]
fn an_opus_run_is_planned_at_the_corrected_rate() {
    let options = ExportOptions { format: AudioFormat::Opus, ..default_options() };
    let plan = plan_run(&options, 2, 0, "song").unwrap();
    assert_eq!(plan.options.sample_rate, 48000);
    assert_eq!(plan.names[0], "song_instrument_001.opus");
}

#[test]
fn the_render_config_follows_the_options() {
    let options = ExportOptions {
        resample: ResampleMethod::Cubic,
        stereo_separation: 50,
        ..default_options()
    };
    let plan = plan_run(&options, 1, 0, "song").unwrap();
    assert_eq!(plan.config.filter_length, 4);
    assert_eq!(plan.config.stereo_separation, 50);
}

#[test]
fn planning_twice_gives_identical_names() {
    let a = plan_run(&default_options(), 0, 31, "nova").unwrap();
    let b = plan_run(&default_options(), 0, 31, "nova").unwrap();
    assert_eq!(a.names, b.names);
}
