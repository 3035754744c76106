//! Planning a whole extraction run.
//!
//! One verified step turns the requested options and the loaded module's
//! voice counts into everything the per-voice jobs need: the validated and
//! corrected options, the voice table to walk, the engine render
//! configuration and the artifact name of every stem.  Validation happens
//! here, before any rendering starts; a bad configuration fails the run
//! with no voice touched.
use vstd::prelude::*;

use crate::audio::{
    spec_common_config_error,
    spec_effective_options,
    validate_options,
    effective_options,
    AudioFormat,
    ExportOptions,
};
use crate::errors::StemError;
use crate::naming::{spec_artifact_file_name, stem_plan};
use crate::render::{render_config, select_voices, RenderConfig, VoiceKind};

verus! {

/// Everything one run's jobs share, fixed before the first job starts.
#[derive(Debug)]
pub struct RunPlan {
    /// The validated options, with the Opus sample-rate correction applied.
    pub options: ExportOptions,
    /// Which voice table the module is split by.
    pub kind: VoiceKind,
    /// How many voices that table has: one stem job each.
    pub voice_count: u32,
    /// The artifact file name of each voice, by 0-based voice index.
    pub names: Vec<String>,
    /// The engine render parameters every job applies before rendering.
    pub config: RenderConfig,
}

/// Plans a run: validates the requested options, corrects them for
/// rendering, picks the voice table and fixes each job's artifact name.
/// Fails, before any job could start, exactly when the options fail the
/// common configuration checks.
pub fn plan_run(
    options: &ExportOptions,
    num_instruments: u32,
    num_samples: u32,
    base_name: &str,
) -> (r: Result<RunPlan, StemError>)
    ensures
        r is Ok <==> spec_common_config_error(*options) is None,
        r is Err ==> r->Err_0 == StemError::UnsupportedFormatConfiguration(
            spec_common_config_error(*options)->0,
        ),
        r is Ok ==> {
            let plan = r->Ok_0;
            &&& plan.options == spec_effective_options(*options)
            &&& (num_instruments > 0 ==> plan.kind == VoiceKind::Instrument && plan.voice_count
                == num_instruments)
            &&& (num_instruments == 0 ==> plan.kind == VoiceKind::Sample && plan.voice_count
                == num_samples)
            &&& plan.names@.len() == plan.voice_count
            &&& (forall|i: int|
                0 <= i < plan.voice_count ==> (#[trigger] plan.names@[i])@
                    == spec_artifact_file_name(
                    base_name@,
                    plan.kind,
                    (i + 1) as nat,
                    plan.options.format,
                ))
            &&& plan.config == crate::render::RenderConfig {
                filter_length: crate::audio::spec_filter_length(options.resample),
                stereo_separation: options.stereo_separation,
            }
        },
{
    match validate_options(options) {
        Ok(u) => u,
        Err(e) => {
            return Err(e);
        },
    }
    let corrected = effective_options(options);
    let (kind, voice_count) = select_voices(num_instruments, num_samples);
    let names = stem_plan(base_name, kind, voice_count, corrected.format);
    let config = render_config(&corrected);
    Ok(RunPlan { options: corrected, kind, voice_count, names, config })
}

} // verus!
