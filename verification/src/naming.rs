//! Deterministic artifact naming.
//!
//! An output file's name is a pure function of the stem base name, the
//! voice kind, the voice's 1-based ordinal and the container format:
//! `{base}_{kind}_{ordinal:03}.{ext}`.  Identical inputs give identical
//! paths whatever the execution order or concurrency mode.
use vstd::prelude::*;

use vstd::multiset::Multiset;
use crate::audio::AudioFormat;
use crate::render::VoiceKind;

verus! {

/// The character for one decimal digit.
pub open spec fn spec_digit_char(d: nat) -> char {
    if d == 0 {
        '0'
    } else if d == 1 {
        '1'
    } else if d == 2 {
        '2'
    } else if d == 3 {
        '3'
    } else if d == 4 {
        '4'
    } else if d == 5 {
        '5'
    } else if d == 6 {
        '6'
    } else if d == 7 {
        '7'
    } else if d == 8 {
        '8'
    } else {
        '9'
    }
}

/// The decimal digits of `n`, most significant first, no leading zeros.
pub open spec fn spec_decimal(n: nat) -> Seq<char>
    decreases n,
{
    if n < 10 {
        seq![spec_digit_char(n)]
    } else {
        spec_decimal(n / 10) + seq![spec_digit_char(n % 10)]
    }
}

/// `n` in decimal, zero-padded on the left to at least three digits.
pub open spec fn spec_pad3(n: nat) -> Seq<char> {
    if n < 10 {
        seq!['0', '0'] + spec_decimal(n)
    } else if n < 100 {
        seq!['0'] + spec_decimal(n)
    } else {
        spec_decimal(n)
    }
}

/// One decimal digit as a string slice.
fn digit_str(d: u32) -> (r: &'static str)
    requires
        d < 10,
    ensures
        r@ == seq![spec_digit_char(d as nat)],
{
    proof {
        reveal_strlit("0");
        reveal_strlit("1");
        reveal_strlit("2");
        reveal_strlit("3");
        reveal_strlit("4");
        reveal_strlit("5");
        reveal_strlit("6");
        reveal_strlit("7");
        reveal_strlit("8");
        reveal_strlit("9");
    }
    let r = if d == 0 {
        "0"
    } else if d == 1 {
        "1"
    } else if d == 2 {
        "2"
    } else if d == 3 {
        "3"
    } else if d == 4 {
        "4"
    } else if d == 5 {
        "5"
    } else if d == 6 {
        "6"
    } else if d == 7 {
        "7"
    } else if d == 8 {
        "8"
    } else {
        "9"
    };
    proof {
        assert(r@ =~= seq![spec_digit_char(d as nat)]);
    }
    r
}

/// Appends the decimal digits of `n` to `out`.
fn append_decimal(n: u32, out: &mut String)
    ensures
        final(out)@ == old(out)@ + spec_decimal(n as nat),
    decreases n,
{
    if n >= 10 {
        append_decimal(n / 10, out);
    }
    out.append(digit_str(n % 10));
    proof {
        if n >= 10 {
            assert(old(out)@ + spec_decimal(n as nat / 10) + seq![
                spec_digit_char(n as nat % 10),
            ] =~= old(out)@ + spec_decimal(n as nat));
        } else {
            assert(old(out)@ + seq![spec_digit_char(n as nat)] =~= old(out)@ + spec_decimal(
                n as nat,
            ));
        }
    }
}

/// Appends `n` in decimal, zero-padded to at least three digits.
fn append_pad3(n: u32, out: &mut String)
    ensures
        final(out)@ == old(out)@ + spec_pad3(n as nat),
{
    proof {
        reveal_strlit("00");
        reveal_strlit("0");
    }
    if n < 10 {
        out.append("00");
        proof {
            assert(out@ =~= old(out)@ + seq!['0', '0']);
        }
    } else if n < 100 {
        out.append("0");
        proof {
            assert(out@ =~= old(out)@ + seq!['0']);
        }
    }
    append_decimal(n, out);
    proof {
        assert(old(out)@ + spec_pad3(n as nat) =~= out@);
    }
}

/// The label a voice kind carries in file names.
pub open spec fn spec_kind_label(kind: VoiceKind) -> Seq<char> {
    match kind {
        VoiceKind::Instrument => "instrument"@,
        VoiceKind::Sample => "sample"@,
    }
}

/// The file-name label of a voice kind: `"instrument"` or `"sample"`.
pub fn kind_label(kind: VoiceKind) -> (r: &'static str)
    ensures
        r@ == spec_kind_label(kind),
{
    match kind {
        VoiceKind::Instrument => "instrument",
        VoiceKind::Sample => "sample",
    }
}

/// The file extension of an output format.
pub open spec fn spec_extension(format: AudioFormat) -> Seq<char> {
    match format {
        AudioFormat::Wav => "wav"@,
        AudioFormat::Vorbis => "ogg"@,
        AudioFormat::Opus => "opus"@,
        AudioFormat::Flac => "flac"@,
    }
}

/// The file extension a format's artifacts carry.
pub fn format_extension(format: AudioFormat) -> (r: &'static str)
    ensures
        r@ == spec_extension(format),
{
    match format {
        AudioFormat::Wav => "wav",
        AudioFormat::Vorbis => "ogg",
        AudioFormat::Opus => "opus",
        AudioFormat::Flac => "flac",
    }
}

/// The artifact file name of one stem:
/// `{base}_{kind}_{ordinal:03}.{ext}`, with the 1-based ordinal.
pub open spec fn spec_artifact_file_name(
    base: Seq<char>,
    kind: VoiceKind,
    ordinal: nat,
    format: AudioFormat,
) -> Seq<char> {
    base + "_"@ + spec_kind_label(kind) + "_"@ + spec_pad3(ordinal) + "."@ + spec_extension(format)
}

/// Builds the artifact file name of the stem with 1-based ordinal
/// `ordinal`.
pub fn artifact_file_name(base: &str, kind: VoiceKind, ordinal: u32, format: AudioFormat) -> (r:
    String)
    ensures
        r@ == spec_artifact_file_name(base@, kind, ordinal as nat, format),
{
    proof {
        reveal_strlit("_");
        reveal_strlit(".");
    }
    let mut out = String::from_str(base);
    out.append("_");
    out.append(kind_label(kind));
    out.append("_");
    append_pad3(ordinal, &mut out);
    out.append(".");
    out.append(format_extension(format));
    out
}

/// The full output path: `{dir}/{file_name}`.
pub open spec fn spec_artifact_path(dir: Seq<char>, file_name: Seq<char>) -> Seq<char> {
    dir + "/"@ + file_name
}

/// Joins the output directory and an artifact file name.
pub fn artifact_path(dir: &str, file_name: &str) -> (r: String)
    ensures
        r@ == spec_artifact_path(dir@, file_name@),
{
    proof {
        reveal_strlit("/");
    }
    let mut out = String::from_str(dir);
    out.append("/");
    out.append(file_name);
    out
}

/// The artifact names of a whole run, in voice order: entry `i` (0-based
/// voice index) is the name built from the 1-based ordinal `i + 1`.
pub fn stem_plan(base: &str, kind: VoiceKind, voice_count: u32, format: AudioFormat) -> (r: Vec<
    String,
>)
    ensures
        r@.len() == voice_count,
        forall|i: int|
            0 <= i < voice_count ==> (#[trigger] r@[i])@ == spec_artifact_file_name(
                base@,
                kind,
                (i + 1) as nat,
                format,
            ),
{
    let mut names: Vec<String> = Vec::new();
    let mut i: u32 = 0;
    while i < voice_count
        invariant
            i <= voice_count,
            names@.len() == i,
            forall|j: int|
                0 <= j < i ==> (#[trigger] names@[j])@ == spec_artifact_file_name(
                    base@,
                    kind,
                    (j + 1) as nat,
                    format,
                ),
        decreases voice_count - i,
    {
        names.push(artifact_file_name(base, kind, i + 1, format));
        i = i + 1;
    }
    names
}

/// Folding a completion order into a bag of names collects exactly the
/// names of the completed jobs.
proof fn lemma_fold_collects_names(names: Seq<Seq<char>>, order: Seq<int>, b: Multiset<Seq<char>>)
    requires
        forall|j: int| 0 <= j < order.len() ==> 0 <= #[trigger] order[j] < names.len(),
    ensures
        order.fold_right(|i: int, m: Multiset<Seq<char>>| m.insert(names[i]), b) == b.add(
            Seq::new(order.len(), |j: int| names[order[j]]).to_multiset(),
        ),
    decreases order.len(),
{
    broadcast use vstd::seq_lib::group_to_multiset_ensures;
    broadcast use vstd::multiset::group_multiset_axioms;

    let f = |i: int, m: Multiset<Seq<char>>| m.insert(names[i]);
    let mapped = Seq::new(order.len(), |j: int| names[order[j]]);
    if order.len() == 0 {
        assert(forall|x: Seq<char>| !mapped.contains(x));
        assert(mapped.to_multiset() =~= Multiset::<Seq<char>>::empty());
        assert(b.add(Multiset::<Seq<char>>::empty()) =~= b);
    } else {
        let last = order.last();
        let dl = order.drop_last();
        let mapped_dl = Seq::new(dl.len(), |j: int| names[dl[j]]);
        lemma_fold_collects_names(names, dl, f(last, b));
        assert(mapped =~= mapped_dl.push(names[last]));
        assert(mapped.to_multiset() == mapped_dl.to_multiset().insert(names[last]));
        assert(b.insert(names[last]).add(mapped_dl.to_multiset()) =~= b.add(
            mapped_dl.to_multiset().insert(names[last]),
        ));
    }
}

/// Completion order never changes the file set: whatever order a run's
/// jobs finish in — increasing voice order in sequential mode, any
/// interleaving in parallel mode — the bag of artifact names produced is
/// exactly the plan's, same names and same count.
pub proof fn lemma_completion_order_preserves_file_set(names: Seq<Seq<char>>, order: Seq<int>)
    requires
        order.to_multiset() == Seq::new(names.len(), |i: int| i).to_multiset(),
    ensures
        Seq::new(order.len(), |j: int| names[order[j]]).to_multiset() == names.to_multiset(),
{
    broadcast use vstd::seq_lib::group_to_multiset_ensures;
    broadcast use vstd::multiset::group_multiset_axioms;

    let range = Seq::new(names.len(), |i: int| i);
    let f = |i: int, m: Multiset<Seq<char>>| m.insert(names[i]);
    assert forall|j: int| 0 <= j < order.len() implies 0 <= #[trigger] order[j] < names.len() by {
        assert(order.contains(order[j]));
        assert(range.to_multiset().count(order[j]) > 0);
        assert(range.contains(order[j]));
        let i = choose|i: int| 0 <= i < range.len() && range[i] == order[j];
        assert(range[i] == i);
    }
    assert(vstd::seq_lib::commutative_foldr(f)) by {
        assert forall|x: int, y: int, v: Multiset<Seq<char>>| #[trigger] f(x, f(y, v)) == f(
            y,
            f(x, v),
        ) by {
            assert(v.insert(names[y]).insert(names[x]) =~= v.insert(names[x]).insert(names[y]));
        }
    }
    vstd::seq_lib::lemma_fold_right_permutation(order, range, f, Multiset::<Seq<char>>::empty());
    lemma_fold_collects_names(names, order, Multiset::<Seq<char>>::empty());
    lemma_fold_collects_names(names, range, Multiset::<Seq<char>>::empty());
    assert(Seq::new(range.len(), |j: int| names[range[j]]) =~= names);
    assert(Multiset::<Seq<char>>::empty().add(
        Seq::new(order.len(), |j: int| names[order[j]]).to_multiset(),
    ) =~= Seq::new(order.len(), |j: int| names[order[j]]).to_multiset());
    assert(Multiset::<Seq<char>>::empty().add(names.to_multiset()) =~= names.to_multiset());
}

/// The artifact name set of a run is fixed by its inputs alone: two plans
/// built from the same base name, kind, voice count and format name the
/// same files, whatever order the jobs later run in.
pub proof fn lemma_plan_deterministic(a: Seq<Seq<char>>, b: Seq<Seq<char>>, base: Seq<char>, kind: VoiceKind, voice_count: nat, format: AudioFormat)
    requires
        a.len() == voice_count,
        b.len() == voice_count,
        forall|i: int|
            0 <= i < voice_count ==> #[trigger] a[i] == spec_artifact_file_name(
                base,
                kind,
                (i + 1) as nat,
                format,
            ),
        forall|i: int|
            0 <= i < voice_count ==> #[trigger] b[i] == spec_artifact_file_name(
                base,
                kind,
                (i + 1) as nat,
                format,
            ),
    ensures
        a == b,
{
    assert(a =~= b);
}

} // verus!
