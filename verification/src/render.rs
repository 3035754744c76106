//! The stem-isolation protocol and the streaming-render accumulation.
//!
//! The tracker engine itself is an outside collaborator: the caller loads
//! the module, asks it for chunks of PCM and reports each chunk here.  This
//! module holds the decisions — which voices to mute, when to stop, and how
//! the per-chunk output becomes one PCM buffer — so that they are verified
//! for every possible engine behaviour.
use vstd::prelude::*;

use crate::errors::StemError;
use crate::audio::{spec_filter_length, ExportOptions};

verus! {

/// The kind of voice a module is split by: its instrument table, or its
/// sample table when it declares no instruments.
#[derive(Clone, Copy, Debug, PartialEq, Eq, Structural)]
pub enum VoiceKind {
    Instrument,
    Sample,
}

/// Picks the voice table of a module: instruments whenever at least one
/// instrument is declared, samples only otherwise.
pub fn select_voices(num_instruments: u32, num_samples: u32) -> (r: (VoiceKind, u32))
    ensures
        num_instruments > 0 ==> r == (VoiceKind::Instrument, num_instruments),
        num_instruments == 0 ==> r == (VoiceKind::Sample, num_samples),
{
    if num_instruments > 0 {
        (VoiceKind::Instrument, num_instruments)
    } else {
        (VoiceKind::Sample, num_samples)
    }
}

/// The mute status isolation assigns to voice `i` when `target` is the
/// voice to keep: everything but the target is muted.
pub open spec fn spec_isolation_mute(i: int, target: int) -> bool {
    i != target
}

/// The per-voice mute plan that isolates `target` in a module with
/// `voice_count` voices: entry `i` says whether voice `i` is muted.
/// Fails with `InvalidVoiceIndex` exactly when the target is out of range.
pub fn isolation_mutes(voice_count: u32, target: u32) -> (r: Result<Vec<bool>, StemError>)
    ensures
        r is Ok <==> target < voice_count,
        r is Err ==> r->Err_0 == StemError::InvalidVoiceIndex,
        r is Ok ==> r->Ok_0@.len() == voice_count && forall|i: int|
            0 <= i < voice_count ==> r->Ok_0@[i] == spec_isolation_mute(i, target as int),
{
    if target >= voice_count {
        return Err(StemError::InvalidVoiceIndex);
    }
    let mut mutes: Vec<bool> = Vec::new();
    let mut i: u32 = 0;
    while i < voice_count
        invariant
            i <= voice_count,
            mutes@.len() == i,
            forall|j: int| 0 <= j < i ==> mutes@[j] == spec_isolation_mute(j, target as int),
        decreases voice_count - i,
    {
        mutes.push(i != target);
        i = i + 1;
    }
    Ok(mutes)
}

/// A voice-isolation plan leaves exactly one voice unmuted: the target.
pub proof fn lemma_isolation_exactly_target(plan: Seq<bool>, voice_count: int, target: int)
    requires
        0 <= target < voice_count,
        plan.len() == voice_count,
        forall|i: int| 0 <= i < voice_count ==> plan[i] == spec_isolation_mute(i, target),
    ensures
        forall|i: int| 0 <= i < voice_count ==> (!plan[i] <==> i == target),
{
}

/// Isolating two different voices never leaves a voice unmuted in both
/// plans: the audible voice sets of two stem jobs are disjoint.
pub proof fn lemma_distinct_targets_disjoint(
    plan_a: Seq<bool>,
    plan_b: Seq<bool>,
    voice_count: int,
    target_a: int,
    target_b: int,
)
    requires
        0 <= target_a < voice_count,
        0 <= target_b < voice_count,
        target_a != target_b,
        plan_a.len() == voice_count,
        plan_b.len() == voice_count,
        forall|i: int| 0 <= i < voice_count ==> plan_a[i] == spec_isolation_mute(i, target_a),
        forall|i: int| 0 <= i < voice_count ==> plan_b[i] == spec_isolation_mute(i, target_b),
    ensures
        forall|i: int| 0 <= i < voice_count ==> plan_a[i] || plan_b[i],
{
}

/// The render parameters applied to an engine handle before the first
/// chunk is requested.
#[derive(Clone, Copy, Debug, PartialEq, Eq, Structural)]
pub struct RenderConfig {
    pub filter_length: i32,
    pub stereo_separation: i32,
}

/// The engine render configuration a run's options call for.
pub fn render_config(options: &ExportOptions) -> (r: RenderConfig)
    ensures
        r.filter_length == spec_filter_length(options.resample),
        r.stereo_separation == options.stereo_separation,
{
    RenderConfig {
        filter_length: options.resample.to_openmpt_filter_length(),
        stereo_separation: options.stereo_separation,
    }
}

/// The streaming render loop stops when the engine renders zero frames
/// (hard end of data) or when the playback position has reached the song's
/// estimated duration (the authoritative upper bound against modules that
/// loop forever).
pub fn render_should_stop(frames_rendered: usize, position_reached_duration: bool) -> (r: bool)
    ensures
        r == (frames_rendered == 0 || position_reached_duration),
{
    frames_rendered == 0 || position_reached_duration
}

/// Accumulates the interleaved PCM of one stem render.
///
/// Per chunk the engine reports how many frames it actually produced; only
/// that prefix of the chunk buffer is audio, and only it is kept.  The
/// accumulated buffer is always the concatenation of the kept prefixes, so
/// its length is an exact multiple of the channel count.
pub struct RenderAccumulator {
    pcm: Vec<i16>,
    channels: u32,
    history: Ghost<Seq<Seq<i16>>>,
}

impl RenderAccumulator {
    /// The channel count this accumulator interleaves.
    pub closed spec fn spec_channels(&self) -> u32 {
        self.channels
    }

    /// The PCM accumulated so far.
    pub closed spec fn spec_pcm(&self) -> Seq<i16> {
        self.pcm@
    }

    /// The chunk prefixes kept so far, in arrival order.
    pub closed spec fn spec_history(&self) -> Seq<Seq<i16>> {
        self.history@
    }

    /// The accumulated PCM is exactly the concatenation of the kept chunk
    /// prefixes, and every kept prefix is whole frames.
    pub closed spec fn wf(&self) -> bool {
        &&& self.channels == 1 || self.channels == 2
        &&& self.pcm@ == self.history@.flatten()
        &&& forall|k: int|
            0 <= k < self.history@.len() ==> ((#[trigger] self.history@[k]).len() as int) % (
            self.channels as int) == 0
    }

    /// An empty accumulator for a stem rendered with `channels` channels.
    pub fn new(channels: u32) -> (r: RenderAccumulator)
        requires
            channels == 1 || channels == 2,
        ensures
            r.wf(),
            r.spec_channels() == channels,
            r.spec_pcm() == Seq::<i16>::empty(),
            r.spec_history() == Seq::<Seq<i16>>::empty(),
    {
        let r = RenderAccumulator { pcm: Vec::new(), channels, history: Ghost(Seq::empty()) };
        proof {
            assert(r.pcm@ =~= r.history@.flatten());
        }
        r
    }

    /// Keeps the valid prefix of one rendered chunk: exactly
    /// `frames_rendered` frames, i.e. `frames_rendered * channels` samples.
    pub fn push_chunk(&mut self, chunk: &Vec<i16>, frames_rendered: usize)
        requires
            old(self).wf(),
            frames_rendered * (old(self).spec_channels() as int) <= chunk@.len(),
        ensures
            final(self).wf(),
            final(self).spec_channels() == old(self).spec_channels(),
            final(self).spec_history() == old(self).spec_history().push(
                chunk@.take(frames_rendered * old(self).spec_channels()),
            ),
            final(self).spec_pcm() == old(self).spec_pcm() + chunk@.take(
                frames_rendered * old(self).spec_channels(),
            ),
    {
        let total = chunk.len();
        proof {
            assert(frames_rendered * (self.channels as int) <= total);
        }
        let keep: usize = frames_rendered * (self.channels as usize);
        let mut i: usize = 0;
        let ghost prefix = chunk@.take(keep as int);
        let ghost pcm0 = self.pcm@;
        while i < keep
            invariant
                keep <= chunk@.len(),
                i <= keep,
                prefix == chunk@.take(keep as int),
                self.pcm@ == pcm0 + prefix.take(i as int),
                self.channels == old(self).channels,
                self.history == old(self).history,
            decreases keep - i,
        {
            self.pcm.push(chunk[i]);
            proof {
                assert(pcm0 + prefix.take(i as int) + seq![chunk@[i as int]] =~= pcm0 + prefix.take(
                    i + 1,
                ));
            }
            i = i + 1;
        }
        proof {
            assert(prefix.take(keep as int) =~= prefix);
            self.history@.lemma_flatten_push(prefix);
            assert(self.pcm@ =~= self.history@.push(prefix).flatten());
            assert(prefix.len() == keep);
            lemma_whole_frames(frames_rendered as int, self.channels as int);
        }
        self.history = Ghost(self.history@.push(prefix));
    }

    /// Hands the accumulated PCM out.  Its length is an exact multiple of
    /// the channel count.
    pub fn into_samples(self) -> (r: Vec<i16>)
        requires
            self.wf(),
        ensures
            r@ == self.spec_pcm(),
            (r@.len() as int) % (self.spec_channels() as int) == 0,
    {
        proof {
            lemma_flatten_preserves_multiple(self.history@, self.channels as int);
        }
        self.pcm
    }
}

/// `frames * channels` samples are whole frames.
proof fn lemma_whole_frames(frames: int, channels: int)
    requires
        channels > 0,
        frames >= 0,
    ensures
        (frames * channels) % channels == 0,
{
    vstd::arithmetic::mul::lemma_mul_is_commutative(frames, channels);
    vstd::arithmetic::div_mod::lemma_mod_multiples_basic(frames, channels);
}

/// Concatenating sequences whose lengths are all multiples of `m` yields a
/// sequence whose length is a multiple of `m`.
proof fn lemma_flatten_preserves_multiple(chunks: Seq<Seq<i16>>, m: int)
    requires
        m > 0,
        forall|k: int| 0 <= k < chunks.len() ==> ((#[trigger] chunks[k]).len() as int) % m == 0,
    ensures
        (chunks.flatten().len() as int) % m == 0,
    decreases chunks.len(),
{
    if chunks.len() == 0 {
        assert(chunks.flatten() =~= Seq::<i16>::empty());
        vstd::arithmetic::div_mod::lemma_small_mod(0, m as nat);
    } else {
        lemma_flatten_preserves_multiple(chunks.drop_first(), m);
        assert(chunks.flatten() == chunks.first() + chunks.drop_first().flatten());
        let a = chunks.first().len() as int;
        let b = chunks.drop_first().flatten().len() as int;
        assert(a % m == 0);
        assert(b % m == 0);
        vstd::arithmetic::div_mod::lemma_add_mod_noop(a, b, m);
        vstd::arithmetic::div_mod::lemma_small_mod(0, m as nat);
        assert((a + b) % m == 0);
        assert(chunks.flatten().len() as int == a + b);
    }
}

/// Re-running a render with the same chunk sequence yields the same PCM:
/// the accumulated buffer is a function of the kept chunk prefixes alone,
/// with no state carried across runs.
pub proof fn lemma_render_deterministic(a: RenderAccumulator, b: RenderAccumulator)
    requires
        a.wf(),
        b.wf(),
        a.spec_history() == b.spec_history(),
    ensures
        a.spec_pcm() == b.spec_pcm(),
{
}

} // verus!
