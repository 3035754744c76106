use untracker::naming::{artifact_file_name, artifact_path, format_extension, kind_label, stem_plan};
use untracker::render::VoiceKind;
use untracker::AudioFormat;

#[test]
fn labels_and_extensions() {
    assert_eq!(kind_label(VoiceKind::Instrument), "instrument");
    assert_eq!(kind_label(VoiceKind::Sample), "sample");
    assert_eq!(format_extension(AudioFormat::Wav), "wav");
    assert_eq!(format_extension(AudioFormat::Vorbis), "ogg");
    assert_eq!(format_extension(AudioFormat::Opus), "opus");
    assert_eq!(format_extension(AudioFormat::Flac), "flac");
}

#[test]
fn file_names_are_zero_padded_and_one_based() {
    assert_eq!(
        artifact_file_name("cndmcrrp", VoiceKind::Sample, 1, AudioFormat::Wav),
        "cndmcrrp_sample_001.wav"
    );
    assert_eq!(
        artifact_file_name("cndmcrrp", VoiceKind::Sample, 31, AudioFormat::Wav),
        "cndmcrrp_sample_031.wav"
    );
    assert_eq!(
        artifact_file_name("zalza-karate_muffins", VoiceKind::Instrument, 47, AudioFormat::Wav),
        "zalza-karate_muffins_instrument_047.wav"
    );
    assert_eq!(
        artifact_file_name("song", VoiceKind::Instrument, 100, AudioFormat::Opus),
        "song_instrument_100.opus"
    );
    assert_eq!(
        artifact_file_name("song", VoiceKind::Sample, 1000, AudioFormat::Flac),
        "song_sample_1000.flac"
    );
}

#[test]
fn paths_join_directory_and_name() {
    assert_eq!(artifact_path("out", "song_sample_001.wav"), "out/song_sample_001.wav");
}

#[test]
fn thirty_one_samples_name_thirty_one_wav_files() {
    let names = stem_plan("cndmcrrp", VoiceKind::Sample, 31, AudioFormat::Wav);
    assert_eq!(names.len(), 31);
    assert_eq!(names[0], "cndmcrrp_sample_001.wav");
    assert_eq!(names[30], "cndmcrrp_sample_031.wav");
    for (i, name) in names.iter().enumerate() {
        assert_eq!(*name, format!("cndmcrrp_sample_{:03}.wav", i + 1));
    }
}

#[test]
fn forty_seven_instruments_name_forty_seven_wav_files() {
    let names = stem_plan("zalza-karate_muffins", VoiceKind::Instrument, 47, AudioFormat::Wav);
    assert_eq!(names.len(), 47);
    assert_eq!(names[0], "zalza-karate_muffins_instrument_001.wav");
    assert_eq!(names[46], "zalza-karate_muffins_instrument_047.wav");
}

#[test]
fn job_order_never_changes_the_file_set() {
    let plan = stem_plan("nova", VoiceKind::Sample, 31, AudioFormat::Wav);
    // Sequential completion order.
    let sequential: Vec<String> = (0..plan.len()).map(|i| plan[i].clone()).collect();
    // A scrambled completion order, as a parallel run might report.
    let mut scrambled: Vec<String> = (0..plan.len()).rev().map(|i| plan[i].clone()).collect();
    let mut sorted_sequential = sequential.clone();
    sorted_sequential.sort();
    scrambled.sort();
    assert_eq!(sorted_sequential, scrambled);
    assert_eq!(sequential.len(), scrambled.len());
}
