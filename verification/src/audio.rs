//! Export configuration: output formats, resampling methods and the
//! per-run option record, with the validation and correction rules that
//! the encoders demand.
use vstd::prelude::*;

pub mod ogg_stream;
pub mod opus_enc;
pub mod pcm;
pub mod stub;
pub mod wav;

use crate::errors::{ConfigField, StemError};

verus! {

/// The output container formats.
#[derive(Clone, Copy, Debug, PartialEq, Eq, Structural)]
pub enum AudioFormat {
    Wav,
    Vorbis,
    Opus,
    Flac,
}

/// The interpolation filter used when the engine resamples.
#[derive(Clone, Copy, Debug, PartialEq, Eq, Structural)]
pub enum ResampleMethod {
    Nearest,
    Linear,
    Cubic,
    Sinc,
}

impl ResampleMethod {
    /// The engine's interpolation filter length for this method.
    pub fn to_openmpt_filter_length(self) -> (r: i32)
        ensures
            r == spec_filter_length(self),
    {
        match self {
            ResampleMethod::Nearest => 1,
            ResampleMethod::Linear => 2,
            ResampleMethod::Cubic => 4,
            ResampleMethod::Sinc => 8,
        }
    }
}

/// The filter length each resampling method maps to.
pub open spec fn spec_filter_length(m: ResampleMethod) -> i32 {
    match m {
        ResampleMethod::Nearest => 1,
        ResampleMethod::Linear => 2,
        ResampleMethod::Cubic => 4,
        ResampleMethod::Sinc => 8,
    }
}

/// A character folded to lower case, for the ASCII letters.
pub open spec fn spec_lower_char(c: char) -> char {
    if 'A' <= c && c <= 'Z' {
        (((c as u8) + 32) as u8) as char
    } else {
        c
    }
}

/// Whether `s`, folded to lower case, is exactly `lit`.
pub open spec fn spec_eq_ignore_case(s: Seq<char>, lit: Seq<char>) -> bool {
    s.map_values(|c: char| spec_lower_char(c)) == lit
}

/// One character folded to lower case.
fn lower_char(c: char) -> (r: char)
    ensures
        r == spec_lower_char(c),
{
    if c >= 'A' && c <= 'Z' {
        (((c as u8) + 32) as u8) as char
    } else {
        c
    }
}

/// Whether `s`, folded to lower case, equals the (lower-case) `lit`.
fn matches_ignore_case(s: &str, lit: &str) -> (r: bool)
    ensures
        r == spec_eq_ignore_case(s@, lit@),
{
    let ghost folded = s@.map_values(|c: char| spec_lower_char(c));
    let n = s.unicode_len();
    if n != lit.unicode_len() {
        proof {
            assert(folded.len() != lit@.len());
        }
        return false;
    }
    let mut i: usize = 0;
    while i < n
        invariant
            n == s@.len(),
            n == lit@.len(),
            i <= n,
            folded == s@.map_values(|c: char| spec_lower_char(c)),
            forall|j: int| 0 <= j < i ==> folded[j] == lit@[j],
        decreases n - i,
    {
        if lower_char(s.get_char(i)) != lit.get_char(i) {
            proof {
                assert(folded[i as int] != lit@[i as int]);
            }
            return false;
        }
        i = i + 1;
    }
    proof {
        assert(folded =~= lit@);
    }
    true
}

/// The format a requested format name denotes, compared without regard to
/// letter case: `wav`, `vorbis` (also `ogg`), `opus` or `flac`; anything
/// else denotes none.
pub open spec fn spec_parse_format(s: Seq<char>) -> Option<AudioFormat> {
    if spec_eq_ignore_case(s, "wav"@) {
        Some(AudioFormat::Wav)
    } else if spec_eq_ignore_case(s, "vorbis"@) || spec_eq_ignore_case(s, "ogg"@) {
        Some(AudioFormat::Vorbis)
    } else if spec_eq_ignore_case(s, "opus"@) {
        Some(AudioFormat::Opus)
    } else if spec_eq_ignore_case(s, "flac"@) {
        Some(AudioFormat::Flac)
    } else {
        None
    }
}

/// Parses a format name, ignoring letter case.  Returns the format that
/// `spec_parse_format` names, and an error naming the format field exactly
/// when it names none.
pub fn parse_audio_format(s: &str) -> (r: Result<AudioFormat, StemError>)
    ensures
        r is Ok <==> spec_parse_format(s@) is Some,
        r is Ok ==> r->Ok_0 == spec_parse_format(s@)->0,
        r is Err ==> r->Err_0 == StemError::UnsupportedFormatConfiguration(ConfigField::Format),
{
    if matches_ignore_case(s, "wav") {
        Ok(AudioFormat::Wav)
    } else if matches_ignore_case(s, "vorbis") || matches_ignore_case(s, "ogg") {
        Ok(AudioFormat::Vorbis)
    } else if matches_ignore_case(s, "opus") {
        Ok(AudioFormat::Opus)
    } else if matches_ignore_case(s, "flac") {
        Ok(AudioFormat::Flac)
    } else {
        Err(StemError::UnsupportedFormatConfiguration(ConfigField::Format))
    }
}

impl core::str::FromStr for AudioFormat {
    type Err = StemError;

    fn from_str(s: &str) -> Result<AudioFormat, StemError> {
        parse_audio_format(s)
    }
}

/// The immutable configuration of one extraction run.
#[derive(Clone, Copy, Debug, PartialEq, Eq, Structural)]
pub struct ExportOptions {
    pub format: AudioFormat,
    pub sample_rate: u32,
    pub channels: u32,
    pub bit_depth: u32,
    pub opus_bitrate: u32,
    pub vorbis_quality: u32,
    pub resample: ResampleMethod,
    pub stereo_separation: i32,
}

/// The sample rates that an Opus encoder accepts.
pub open spec fn spec_opus_rate_ok(rate: u32) -> bool {
    rate == 8000 || rate == 12000 || rate == 16000 || rate == 24000 || rate == 48000
}

/// Whether `rate` is one of the sample rates an Opus encoder accepts.
pub fn opus_rate_supported(rate: u32) -> (r: bool)
    ensures
        r == spec_opus_rate_ok(rate),
{
    rate == 8000 || rate == 12000 || rate == 16000 || rate == 24000 || rate == 48000
}

/// The options a render request must actually use: identical to the
/// requested options, except that an Opus request at a rate the codec
/// does not accept is corrected to 48000 Hz before any rendering starts.
pub open spec fn spec_effective_options(o: ExportOptions) -> ExportOptions {
    if o.format == AudioFormat::Opus && !spec_opus_rate_ok(o.sample_rate) {
        ExportOptions { sample_rate: 48000u32, ..o }
    } else {
        o
    }
}

/// Corrects the requested options for rendering.  Only the sample rate can
/// change, and only for Opus output at a rate the codec does not accept.
pub fn effective_options(options: &ExportOptions) -> (r: ExportOptions)
    ensures
        r == spec_effective_options(*options),
        r.format == options.format && r.channels == options.channels && r.bit_depth
            == options.bit_depth && r.opus_bitrate == options.opus_bitrate && r.vorbis_quality
            == options.vorbis_quality && r.resample == options.resample && r.stereo_separation
            == options.stereo_separation,
        options.format == AudioFormat::Opus && !spec_opus_rate_ok(options.sample_rate)
            ==> r.sample_rate == 48000,
        options.format != AudioFormat::Opus || spec_opus_rate_ok(options.sample_rate)
            ==> r.sample_rate == options.sample_rate,
{
    if options.format == AudioFormat::Opus && !opus_rate_supported(options.sample_rate) {
        ExportOptions { sample_rate: 48000, ..*options }
    } else {
        *options
    }
}

/// The format-independent preconditions every encoder checks before it
/// writes anything: one or two channels, and a bit depth of 16 or 24.
pub open spec fn spec_common_config_error(o: ExportOptions) -> Option<ConfigField> {
    if o.channels != 1 && o.channels != 2 {
        Some(ConfigField::Channels)
    } else if o.bit_depth != 16 && o.bit_depth != 24 {
        Some(ConfigField::BitDepth)
    } else {
        None
    }
}

/// Checks the format-independent encoder preconditions.  Returns `Err`
/// exactly when the channel count is not 1 or 2, or the bit depth is not
/// 16 or 24; the error names the first offending field.
pub fn validate_options(options: &ExportOptions) -> (r: Result<(), StemError>)
    ensures
        r is Ok <==> spec_common_config_error(*options) is None,
        r is Err ==> r->Err_0 == StemError::UnsupportedFormatConfiguration(
            spec_common_config_error(*options)->0,
        ),
{
    if options.channels != 1 && options.channels != 2 {
        Err(StemError::UnsupportedFormatConfiguration(ConfigField::Channels))
    } else if options.bit_depth != 16 && options.bit_depth != 24 {
        Err(StemError::UnsupportedFormatConfiguration(ConfigField::BitDepth))
    } else {
        Ok(())
    }
}

/// The largest bitrate option, in kilobits, whose bit value still fits
/// the encoder's signed 32-bit control parameter.
pub const OPUS_MAX_BITRATE_KBPS: u32 = 2147483;

/// The configuration fault an encoding request carries, if any: the
/// common preconditions first, then the Opus-specific sample-rate and
/// bitrate constraints.
pub open spec fn spec_encode_error(o: ExportOptions) -> Option<StemError> {
    if spec_common_config_error(o) is Some {
        Some(StemError::UnsupportedFormatConfiguration(spec_common_config_error(o)->0))
    } else if o.format == AudioFormat::Opus && !spec_opus_rate_ok(o.sample_rate) {
        Some(StemError::UnsupportedFormatConfiguration(ConfigField::SampleRate))
    } else if o.format == AudioFormat::Opus && o.opus_bitrate > OPUS_MAX_BITRATE_KBPS {
        Some(StemError::UnsupportedFormatConfiguration(ConfigField::OpusBitrate))
    } else {
        None
    }
}

/// What one stem's PCM becomes on its way to disk.
///
/// Wherever the container can be assembled wholly inside the library, the
/// finished bytes are returned; the caller writes them out unchanged.  The
/// two remaining paths hand the caller exactly what its outside collaborator
/// needs: the WAV writer's header parameters and sample words, or the Opus
/// encoder's frames, which come back to [`opus_enc::assemble_opus_stream`]
/// as encoded packets.
#[derive(Debug)]
pub enum EncodedAudio {
    /// Finished container bytes, to be written to the destination as-is.
    Container(Vec<u8>),
    /// Linear PCM for a WAV container writer: the declared header
    /// parameters and the sample words to stream, in order.
    WavPcm(wav::WavParams, Vec<i32>),
    /// The encoding plan for an Opus stream.
    OpusFrames(OpusPlan),
}

/// Everything an Opus encoder must be given, and the granule schedule of
/// the packets it will return.
#[derive(Debug)]
pub struct OpusPlan {
    /// The (already corrected) encoding sample rate.
    pub rate: u32,
    /// The channel count, 1 or 2.
    pub channels: u32,
    /// The encoder bitrate in bits per second.
    pub bitrate_bits: i32,
    /// The zero-padded 20 ms frames, each `(rate / 50) * channels` samples.
    pub frames: Vec<Vec<i16>>,
    /// The granule position paged with each encoded frame.
    pub granules: Vec<u64>,
}

/// Encodes one stem's PCM for the configured output format, after
/// validating the configuration.  Returns the error that
/// `spec_encode_error` names exactly when it names one, before anything
/// is encoded; otherwise the format's `EncodedAudio`, pinned field by
/// field.
pub fn write_audio_file(samples: &Vec<i16>, options: &ExportOptions) -> (r: Result<
    EncodedAudio,
    StemError,
>)
    requires
        options.format == AudioFormat::Opus ==> samples@.len() <= opus_enc::OPUS_MAX_SAMPLES,
    ensures
        r is Err <==> spec_encode_error(*options) is Some,
        r is Err ==> r->Err_0 == spec_encode_error(*options)->0,
        r is Ok && options.format == AudioFormat::Wav ==> (r->Ok_0 matches EncodedAudio::WavPcm(
            params,
            words,
        ) && params.channels == options.channels && params.sample_rate == options.sample_rate
            && params.bits_per_sample == options.bit_depth && words@.len() == samples@.len()
            && (forall|i: int|
            0 <= i < samples@.len() ==> words@[i] == wav::spec_wav_sample_word(
                samples@[i],
                options.bit_depth,
            ))),
        r is Ok && options.format == AudioFormat::Vorbis ==> (r->Ok_0
            matches EncodedAudio::Container(b) && b@ == stub::spec_vorbis_stub_bytes(
            options.sample_rate,
            options.vorbis_quality,
            samples@,
        )),
        r is Ok && options.format == AudioFormat::Flac ==> (r->Ok_0
            matches EncodedAudio::Container(b) && b@ == stub::spec_flac_stub_bytes(
            options.sample_rate,
            options.bit_depth,
            samples@,
        )),
        r is Ok && options.format == AudioFormat::Opus ==> (r->Ok_0
            matches EncodedAudio::OpusFrames(plan) && {
            let spf = opus_enc::spec_opus_frame_samples(options.sample_rate, options.channels);
            let mult = opus_enc::spec_opus_granule_mult(options.sample_rate);
            &&& plan.rate == options.sample_rate
            &&& plan.channels == options.channels
            &&& plan.bitrate_bits == options.opus_bitrate * 1000
            &&& plan.frames@.len() == opus_enc::spec_opus_num_frames(samples@.len(), spf)
            &&& plan.granules@.len() == plan.frames@.len()
            &&& (forall|k: int|
                0 <= k < plan.frames@.len() ==> (#[trigger] plan.frames@[k])@
                    == opus_enc::spec_opus_frame(samples@, spf, k as nat))
            &&& (forall|k: int|
                0 <= k < plan.granules@.len() ==> #[trigger] plan.granules@[k]
                    == opus_enc::spec_opus_granule(
                    samples@.len(),
                    spf,
                    options.channels as nat,
                    mult,
                    k as nat,
                ))
        }),
{
    match validate_options(options) {
        Ok(u) => u,
        Err(e) => {
            return Err(e);
        },
    }
    match options.format {
        AudioFormat::Wav => {
            let params = wav::wav_params(options);
            let words = wav::wav_sample_words(samples, options.bit_depth);
            Ok(EncodedAudio::WavPcm(params, words))
        },
        AudioFormat::Vorbis => {
            Ok(
                EncodedAudio::Container(
                    stub::encode_vorbis_stub(samples, options.sample_rate, options.vorbis_quality),
                ),
            )
        },
        AudioFormat::Flac => {
            Ok(
                EncodedAudio::Container(
                    stub::encode_flac_stub(samples, options.sample_rate, options.bit_depth),
                ),
            )
        },
        AudioFormat::Opus => {
            if !opus_rate_supported(options.sample_rate) {
                return Err(StemError::UnsupportedFormatConfiguration(ConfigField::SampleRate));
            }
            if options.opus_bitrate > OPUS_MAX_BITRATE_KBPS {
                return Err(StemError::UnsupportedFormatConfiguration(ConfigField::OpusBitrate));
            }
            let (frames, granules) = opus_enc::opus_frame_plan(
                samples,
                options.channels,
                options.sample_rate,
            );
            Ok(
                EncodedAudio::OpusFrames(
                    OpusPlan {
                        rate: options.sample_rate,
                        channels: options.channels,
                        bitrate_bits: (options.opus_bitrate * 1000) as i32,
                        frames,
                        granules,
                    },
                ),
            )
        },
    }
}

} // verus!
