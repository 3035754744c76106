use std::io::Cursor;

use untracker::audio::opus_enc::assemble_opus_stream;
use untracker::{
    write_audio_file, AudioFormat, ConfigField, EncodedAudio, ExportOptions, ResampleMethod,
    StemError,
};

fn options_for(format: AudioFormat) -> ExportOptions {
    ExportOptions {
        format,
        sample_rate: 44100,
        channels: 2,
        bit_depth: 16,
        opus_bitrate: 128,
        vorbis_quality: 5,
        resample: ResampleMethod::Sinc,
        stereo_separation: 100,
    }
}

fn wav_bytes(params: untracker::audio::wav::WavParams, words: &[i32]) -> Vec<u8> {
    let spec = hound::WavSpec {
        channels: params.channels,
        sample_rate: params.sample_rate,
        bits_per_sample: params.bits_per_sample,
        sample_format: hound::SampleFormat::Int,
    };
    let mut buf: Vec<u8> = Vec::new();
    {
        let mut writer = hound::WavWriter::new(Cursor::new(&mut buf), spec).unwrap();
        for &w in words {
            writer.write_sample(w).unwrap();
        }
        writer.finalize().unwrap();
    }
    buf
}

#[test]
fn wav_sixteen_bit_keeps_samples_and_declares_the_options() {
    let samples: Vec<i16> = vec![0, 1, -1, i16::MAX, i16::MIN, 123];
    let options = options_for(AudioFormat::Wav);
    let encoded = write_audio_file(&samples, &options).unwrap();
    let (params, words) = match encoded {
        EncodedAudio::WavPcm(p, w) => (p, w),
        _ => panic!("wav output must be prepared pcm"),
    };
    assert_eq!(params.channels, 2);
    assert_eq!(params.sample_rate, 44100);
    assert_eq!(params.bits_per_sample, 16);
    let expected: Vec<i32> = samples.iter().map(|&s| s as i32).collect();
    assert_eq!(words, expected);

    // Round trip through a real WAV container: the declared header fields
    // are exactly the requested options.
    let bytes = wav_bytes(params, &words);
    assert_eq!(&bytes[0..4], b"RIFF");
    let reader = hound::WavReader::new(&bytes[..]).unwrap();
    let spec = reader.spec();
    assert_eq!(spec.channels, 2);
    assert_eq!(spec.sample_rate, 44100);
    assert_eq!(spec.bits_per_sample, 16);
}

#[test]
fn wav_twenty_four_bit_mono_shifts_each_sample() {
    let samples: Vec<i16> = vec![1, -1, 256, -300];
    let options = ExportOptions {
        bit_depth: 24,
        channels: 1,
        sample_rate: 22050,
        ..options_for(AudioFormat::Wav)
    };
    let encoded = write_audio_file(&samples, &options).unwrap();
    let (params, words) = match encoded {
        EncodedAudio::WavPcm(p, w) => (p, w),
        _ => panic!("wav output must be prepared pcm"),
    };
    assert_eq!(params.channels, 1);
    assert_eq!(params.sample_rate, 22050);
    assert_eq!(params.bits_per_sample, 24);
    assert_eq!(words, vec![256, -256, 65536, -76800]);

    let bytes = wav_bytes(params, &words);
    let mut reader = hound::WavReader::new(&bytes[..]).unwrap();
    let spec = reader.spec();
    assert_eq!(spec.channels, 1);
    assert_eq!(spec.sample_rate, 22050);
    assert_eq!(spec.bits_per_sample, 24);
    let back: Vec<i32> = reader.samples::<i32>().map(|s| s.unwrap()).collect();
    assert_eq!(back, vec![256, -256, 65536, -76800]);
}

#[test]
fn vorbis_stub_is_magic_rate_quality_then_pcm() {
    let samples: Vec<i16> = vec![1, -1];
    let options = options_for(AudioFormat::Vorbis);
    let encoded = write_audio_file(&samples, &options).unwrap();
    let bytes = match encoded {
        EncodedAudio::Container(b) => b,
        _ => panic!("vorbis output must be finished bytes"),
    };
    let mut expected: Vec<u8> = Vec::new();
    expected.extend_from_slice(b"OggS");
    expected.extend_from_slice(&44100u32.to_le_bytes());
    expected.push(5);
    expected.extend_from_slice(&1i16.to_le_bytes());
    expected.extend_from_slice(&(-1i16).to_le_bytes());
    assert_eq!(bytes, expected);
}

#[test]
fn flac_stub_is_magic_rate_depth_then_pcm() {
    let samples: Vec<i16> = vec![-2, 300];
    let options = options_for(AudioFormat::Flac);
    let encoded = write_audio_file(&samples, &options).unwrap();
    let bytes = match encoded {
        EncodedAudio::Container(b) => b,
        _ => panic!("flac output must be finished bytes"),
    };
    let mut expected: Vec<u8> = Vec::new();
    expected.extend_from_slice(b"fLaC");
    expected.extend_from_slice(&44100u32.to_le_bytes());
    expected.push(16);
    expected.extend_from_slice(&(-2i16).to_le_bytes());
    expected.extend_from_slice(&300i16.to_le_bytes());
    assert_eq!(bytes, expected);
}

#[test]
fn stubs_handle_empty_pcm_and_truncate_config_bytes() {
    let samples: Vec<i16> = Vec::new();
    let options = ExportOptions { vorbis_quality: 260, ..options_for(AudioFormat::Vorbis) };
    let encoded = write_audio_file(&samples, &options).unwrap();
    let bytes = match encoded {
        EncodedAudio::Container(b) => b,
        _ => panic!("vorbis output must be finished bytes"),
    };
    assert_eq!(bytes.len(), 9);
    // Only the low byte of the quality setting is recorded.
    assert_eq!(bytes[8], 4);
}

#[test]
fn opus_at_an_unsupported_rate_is_rejected_by_the_encoder() {
    let samples: Vec<i16> = vec![0; 16];
    let options = options_for(AudioFormat::Opus);
    assert_eq!(
        write_audio_file(&samples, &options).unwrap_err(),
        StemError::UnsupportedFormatConfiguration(ConfigField::SampleRate)
    );
}

#[test]
fn opus_with_an_oversized_bitrate_is_rejected() {
    let samples: Vec<i16> = vec![0; 16];
    let options = ExportOptions {
        sample_rate: 48000,
        opus_bitrate: 3_000_000,
        ..options_for(AudioFormat::Opus)
    };
    assert_eq!(
        write_audio_file(&samples, &options).unwrap_err(),
        StemError::UnsupportedFormatConfiguration(ConfigField::OpusBitrate)
    );
}

#[test]
fn opus_frames_are_twenty_ms_zero_padded_with_scheduled_granules() {
    // 2048 stereo samples at 48 kHz: one full 1920-sample frame and one
    // 128-sample remainder padded with zeros.
    let mut samples: Vec<i16> = Vec::new();
    for i in 0..2048 {
        samples.push((i % 100) as i16 + 1);
    }
    let options = ExportOptions { sample_rate: 48000, ..options_for(AudioFormat::Opus) };
    let encoded = write_audio_file(&samples, &options).unwrap();
    let plan = match encoded {
        EncodedAudio::OpusFrames(p) => p,
        _ => panic!("opus output must be an encoding plan"),
    };
    assert_eq!(plan.rate, 48000);
    assert_eq!(plan.channels, 2);
    assert_eq!(plan.bitrate_bits, 128_000);
    assert_eq!(plan.frames.len(), 2);
    assert_eq!(plan.frames[0].len(), 1920);
    assert_eq!(plan.frames[1].len(), 1920);
    assert_eq!(plan.frames[0][..], samples[..1920]);
    assert_eq!(plan.frames[1][..128], samples[1920..]);
    assert!(plan.frames[1][128..].iter().all(|&s| s == 0));
    // Granules: pre-skip 312, then 960 frames, then the unpadded 64.
    assert_eq!(plan.granules, vec![312 + 960, 312 + 960 + 64]);
}

#[test]
fn opus_granules_scale_to_48k_at_lower_rates() {
    // 8 kHz mono: 160-sample frames, granule weight 6.
    let samples: Vec<i16> = vec![7; 400];
    let options = ExportOptions {
        sample_rate: 8000,
        channels: 1,
        ..options_for(AudioFormat::Opus)
    };
    let encoded = write_audio_file(&samples, &options).unwrap();
    let plan = match encoded {
        EncodedAudio::OpusFrames(p) => p,
        _ => panic!("opus output must be an encoding plan"),
    };
    assert_eq!(plan.frames.len(), 3);
    assert_eq!(plan.granules, vec![312 + 960, 312 + 1920, 312 + 1920 + 80 * 6]);
}

#[test]
fn an_empty_buffer_makes_no_opus_frames() {
    let samples: Vec<i16> = Vec::new();
    let options = ExportOptions { sample_rate: 48000, ..options_for(AudioFormat::Opus) };
    let encoded = write_audio_file(&samples, &options).unwrap();
    let plan = match encoded {
        EncodedAudio::OpusFrames(p) => p,
        _ => panic!("opus output must be an encoding plan"),
    };
    assert!(plan.frames.is_empty());
    assert!(plan.granules.is_empty());
}

#[test]
fn assembly_always_succeeds_even_with_no_packets() {
    let packets: Vec<Vec<u8>> = Vec::new();
    let granules: Vec<u64> = Vec::new();
    let bytes = assemble_opus_stream(1, 24000, &packets, &granules).unwrap();
    assert_eq!(&bytes[0..4], b"OggS");
    assert_eq!(&bytes[28..36], b"OpusHead");
    assert_eq!(&bytes[75..83], b"OpusTags");
}

#[test]
fn the_assembled_ogg_stream_declares_the_corrected_rate() {
    // Fake encoded packets: the assembly only pages them.
    let packets: Vec<Vec<u8>> = vec![vec![0xAA; 10], vec![0xBB; 20]];
    let granules: Vec<u64> = vec![1272, 2232];
    let bytes = assemble_opus_stream(2, 48000, &packets, &granules).unwrap();
    // The stream begins with an Ogg page.
    assert_eq!(&bytes[0..4], b"OggS");
    // Its packet is the 19-byte OpusHead at offset 28.
    assert_eq!(&bytes[28..36], b"OpusHead");
    assert_eq!(bytes[36], 1, "version");
    assert_eq!(bytes[37], 2, "channel count");
    assert_eq!(&bytes[38..40], &312u16.to_le_bytes(), "pre-skip");
    assert_eq!(&bytes[40..44], &48000u32.to_le_bytes(), "declared rate");
    // The second page carries OpusTags: first page is 27 + 1 + 19 bytes.
    assert_eq!(&bytes[47..51], b"OggS");
    assert_eq!(&bytes[75..83], b"OpusTags");
    // The third page carries the first audio packet with its granule.
    let tags_page = 27 + 1 + 25;
    let audio_page = 47 + tags_page;
    assert_eq!(&bytes[audio_page..audio_page + 4], b"OggS");
    assert_eq!(
        &bytes[audio_page + 6..audio_page + 14],
        &1272u64.to_le_bytes(),
        "granule position of the first audio page"
    );
    assert_eq!(&bytes[audio_page + 28..audio_page + 38], &[0xAA; 10]);
}
