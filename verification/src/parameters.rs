//! What the speaker and scale operations of a voice mean, and the laws
//! they obey.

use crate::config::{Scale, SynthesisConfigView};
use crate::inference::{is_model_inputs_for, ModelInputs};
use crate::speakers::id_of_name;
use vstd::prelude::*;

verus! {

/// The name that stands for a speaker whom nobody named.
pub open spec fn default_speaker_name() -> Seq<char> {
    "Default"@
}

/// The name of the speaker in use: the selected one, or, where none was
/// selected, the speaker with id 0, or "Default" where that id has no name.
pub open spec fn current_speaker(synth: SynthesisConfigView, names: Map<i64, Seq<char>>) -> Seq<
    char,
> {
    match synth.speaker {
        Some((name, _)) => name,
        None => if names.contains_key(0i64) {
            names[0i64]
        } else {
            default_speaker_name()
        },
    }
}

/// What asking for the speaker gives: nothing on a voice without configured
/// speakers, else the name of the speaker in use.
pub open spec fn get_speaker_result(
    num_speakers: u32,
    synth: SynthesisConfigView,
    names: Map<i64, Seq<char>>,
) -> Option<Seq<char>> {
    if num_speakers == 0 {
        None
    } else {
        Some(current_speaker(synth, names))
    }
}

/// What selecting a speaker by name gives: nothing on a voice without
/// configured speakers or for a name that the table does not hold, else the
/// parameters with the name and its id as the selected speaker.
pub open spec fn set_speaker_result(
    num_speakers: u32,
    table: Seq<(Seq<char>, i64)>,
    synth: SynthesisConfigView,
    name: Seq<char>,
) -> Option<SynthesisConfigView> {
    if num_speakers == 0 {
        None
    } else {
        match id_of_name(table, name) {
            Some(id) => Some(SynthesisConfigView { speaker: Some((name, id)), ..synth }),
            None => None,
        }
    }
}

pub open spec fn with_noise_scale(synth: SynthesisConfigView, value: Scale) -> SynthesisConfigView {
    SynthesisConfigView { noise_scale: value, ..synth }
}

pub open spec fn with_length_scale(
    synth: SynthesisConfigView,
    value: Scale,
) -> SynthesisConfigView {
    SynthesisConfigView { length_scale: value, ..synth }
}

pub open spec fn with_noise_w(synth: SynthesisConfigView, value: Scale) -> SynthesisConfigView {
    SynthesisConfigView { noise_w: value, ..synth }
}

/// On a voice without configured speakers, selecting a speaker and asking for
/// the speaker both fail, whatever the name and the parameters.
pub proof fn lemma_single_speaker_voice(
    table: Seq<(Seq<char>, i64)>,
    synth: SynthesisConfigView,
    names: Map<i64, Seq<char>>,
    name: Seq<char>,
)
    ensures
        set_speaker_result(0, table, synth, name) is None,
        get_speaker_result(0, synth, names) is None,
{
}

/// On a voice with configured speakers, selecting a speaker succeeds exactly
/// for the names of the speaker table, and asking for the speaker afterwards
/// gives the very name that was selected.
pub proof fn lemma_set_then_get_speaker(
    num_speakers: u32,
    table: Seq<(Seq<char>, i64)>,
    synth: SynthesisConfigView,
    names: Map<i64, Seq<char>>,
    name: Seq<char>,
)
    requires
        num_speakers > 0,
    ensures
        set_speaker_result(num_speakers, table, synth, name) is Some <==> exists|i: int|
            0 <= i < table.len() && (#[trigger] table[i]).0 == name,
        set_speaker_result(num_speakers, table, synth, name) matches Some(updated)
            ==> get_speaker_result(num_speakers, updated, names) == Some(name),
{
    crate::speakers::lemma_id_of_name_is_some(table, name);
}

/// A scale that was set is the scale that is read, and setting one scale
/// leaves the other two and the speaker as they were.
pub proof fn lemma_scale_read_your_write(synth: SynthesisConfigView, value: Scale)
    ensures
        with_noise_scale(synth, value).noise_scale == value,
        with_noise_scale(synth, value) == (SynthesisConfigView { noise_scale: value, ..synth }),
        with_length_scale(synth, value).length_scale == value,
        with_length_scale(synth, value).noise_scale == synth.noise_scale,
        with_length_scale(synth, value).noise_w == synth.noise_w,
        with_length_scale(synth, value).speaker == synth.speaker,
        with_noise_w(synth, value).noise_w == value,
        with_noise_w(synth, value).noise_scale == synth.noise_scale,
        with_noise_w(synth, value).length_scale == synth.length_scale,
        with_noise_w(synth, value).speaker == synth.speaker,
        with_noise_scale(synth, value).length_scale == synth.length_scale,
        with_noise_scale(synth, value).noise_w == synth.noise_w,
        with_noise_scale(synth, value).speaker == synth.speaker,
{
}

/// Inputs that were built from a snapshot of the parameters carry the scales
/// and the speaker of that snapshot, whatever the parameters are set to
/// afterwards.
pub proof fn lemma_inputs_keep_their_snapshot(
    inputs: ModelInputs,
    num_speakers: u32,
    snapshot: SynthesisConfigView,
    ids: Seq<i64>,
    later: SynthesisConfigView,
)
    requires
        is_model_inputs_for(inputs, num_speakers, snapshot, ids),
    ensures
        inputs.scales@ == seq![snapshot.noise_scale, snapshot.length_scale, snapshot.noise_w],
        is_model_inputs_for(inputs, num_speakers, later, ids) ==> later.noise_scale
            == snapshot.noise_scale && later.length_scale == snapshot.length_scale
            && later.noise_w == snapshot.noise_w,
{
    if is_model_inputs_for(inputs, num_speakers, later, ids) {
        let a = seq![snapshot.noise_scale, snapshot.length_scale, snapshot.noise_w];
        let b = seq![later.noise_scale, later.length_scale, later.noise_w];
        assert(a == b);
        assert(a[0] == b[0] && a[1] == b[1] && a[2] == b[2]);
    }
}

/// Two sets of inputs that were built for the same ids under the same
/// parameters hold the same tensors: a voice in one piece and the encoder of
/// a split voice are run on the same.
pub proof fn lemma_inputs_are_determined(
    a: ModelInputs,
    b: ModelInputs,
    num_speakers: u32,
    synth: SynthesisConfigView,
    ids: Seq<i64>,
)
    requires
        is_model_inputs_for(a, num_speakers, synth, ids),
        is_model_inputs_for(b, num_speakers, synth, ids),
    ensures
        a.input@ == b.input@,
        a.input_shape@ == b.input_shape@,
        a.input_lengths@ == b.input_lengths@,
        a.scales@ == b.scales@,
        a.sid is Some <==> b.sid is Some,
        a.sid is Some ==> a.sid->0@ == b.sid->0@,
{
}

} // verus!
