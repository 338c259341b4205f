//! The descriptor of a voice and the parameters of its synthesis.

use crate::error::{PiperError, PiperResult};
use std::collections::HashMap;
use vstd::prelude::*;

verus! {

/// A synthesis scale (noise scale, length scale, noise weight), carried as the
/// bit pattern of an IEEE-754 single-precision number. The library stores and
/// forwards scales; it never computes with them.
#[derive(Debug, Clone, Copy, PartialEq, Eq, Structural, Default)]
pub struct Scale {
    pub bits: u32,
}

impl Scale {
    pub fn from_bits(bits: u32) -> (s: Scale)
        ensures
            s.bits == bits,
    {
        Scale { bits }
    }

    pub fn to_bits(&self) -> (bits: u32)
        ensures
            bits == self.bits,
    {
        self.bits
    }
}

/// The audio that a voice produces.
#[derive(Debug, Clone, Default)]
pub struct AudioConfig {
    pub sample_rate: u32,
    pub quality: Option<String>,
}

/// What the phonemizer is told about a voice.
#[derive(Debug, Clone, Default)]
pub struct ESpeakConfig {
    voice: String,
}

impl ESpeakConfig {
    pub closed spec fn spec_voice(&self) -> Seq<char> {
        self.voice@
    }

    pub fn new(voice: String) -> (c: ESpeakConfig)
        ensures
            c.spec_voice() == voice@,
    {
        ESpeakConfig { voice }
    }

    /// The voice or language tag handed to the phonemizer.
    pub fn voice(&self) -> (v: &String)
        ensures
            v@ == self.spec_voice(),
    {
        &self.voice
    }
}

/// The scales a voice was trained to be used with.
#[derive(Debug, Clone, Copy, PartialEq, Eq, Structural, Default)]
pub struct InferenceConfig {
    pub noise_scale: Scale,
    pub length_scale: Scale,
    pub noise_w: Scale,
}

/// The language of a voice.
#[derive(Debug, Clone, Default)]
pub struct Language {
    code: String,
    family: Option<String>,
    region: Option<String>,
    name_native: Option<String>,
    name_english: Option<String>,
}

impl Language {
    pub closed spec fn spec_code(&self) -> Seq<char> {
        self.code@
    }

    pub fn new(
        code: String,
        family: Option<String>,
        region: Option<String>,
        name_native: Option<String>,
        name_english: Option<String>,
    ) -> (l: Language)
        ensures
            l.spec_code() == code@,
    {
        Language { code, family, region, name_native, name_english }
    }

    pub fn code(&self) -> (c: &String)
        ensures
            c@ == self.spec_code(),
    {
        &self.code
    }
}

/// The id that each known character is fed to the model as.
///
/// A descriptor lists one or more ids per character; the model is given the
/// first, so that is the one kept.
#[derive(Debug, Clone, Default)]
pub struct Vocabulary {
    ids: HashMap<u32, i64>,
}

/// The first ids of the entries, a later entry for a character replacing an
/// earlier one.
pub open spec fn first_ids(entries: Seq<(char, Vec<i64>)>) -> Map<char, i64>
    decreases entries.len(),
{
    if entries.len() == 0 {
        Map::empty()
    } else {
        first_ids(entries.drop_last()).insert(entries.last().0, entries.last().1@[0])
    }
}

/// Every entry lists at least one id.
pub open spec fn all_have_ids(entries: Seq<(char, Vec<i64>)>) -> bool {
    forall|i: int| 0 <= i < entries.len() ==> (#[trigger] entries[i]).1@.len() > 0
}

/// Distinct characters have distinct code points.
proof fn lemma_code_point_injective(a: char, b: char)
    ensures
        (a as u32 == b as u32) <==> a == b,
{
    assert(a as u32 as int == a as int);
    assert(b as u32 as int == b as int);
    assert((a as int) as char == a);
    assert((b as int) as char == b);
}

impl View for Vocabulary {
    type V = Map<char, i64>;

    closed spec fn view(&self) -> Map<char, i64> {
        Map::new(|c: char| self.ids@.contains_key(c as u32), |c: char| self.ids@[c as u32])
    }
}

impl Vocabulary {
    /// A vocabulary that knows no character.
    pub fn empty() -> (v: Vocabulary)
        ensures
            v@ == Map::<char, i64>::empty(),
    {
        let v = Vocabulary { ids: HashMap::new() };
        assert(v@ =~= Map::<char, i64>::empty());
        v
    }

    /// Builds the vocabulary of a descriptor. An entry without any id makes
    /// the descriptor malformed.
    pub fn from_entries(entries: &Vec<(char, Vec<i64>)>) -> (r: PiperResult<Vocabulary>)
        ensures
            match r {
                Ok(v) => all_have_ids(entries@) && v@ == first_ids(entries@),
                Err(e) => !all_have_ids(entries@) && e is ConfigParseError,
            },
    {
        broadcast use vstd::std_specs::hash::group_hash_axioms;

        let mut ids: HashMap<u32, i64> = HashMap::new();
        let mut i: usize = 0;
        while i < entries.len()
            invariant
                0 <= i <= entries.len(),
                all_have_ids(entries@.take(i as int)),
                forall|c: char|
                    ids@.contains_key(c as u32) <==> #[trigger] first_ids(
                        entries@.take(i as int),
                    ).contains_key(c),
                forall|c: char| #[trigger]
                    first_ids(entries@.take(i as int)).contains_key(c) ==> ids@[c as u32]
                        == first_ids(entries@.take(i as int))[c],
            decreases entries.len() - i,
        {
            let c: char = entries[i].0;
            if entries[i].1.len() == 0 {
                return Err(PiperError::config("A phoneme of the voice has no id."));
            }
            let id: i64 = entries[i].1[0];
            let ghost before = ids@;
            let ghost prev = first_ids(entries@.take(i as int));
            ids.insert(c as u32, id);
            proof {
                let next = entries@.take(i as int + 1);
                assert(ids@ == before.insert(c as u32, id));
                assert(next.drop_last() =~= entries@.take(i as int));
                assert(next.last() == entries@[i as int]);
                assert forall|k: int| 0 <= k < next.len() implies (#[trigger] next[k]).1@.len()
                    > 0 by {
                    if k < i {
                        assert(entries@.take(i as int)[k] == next[k]);
                    }
                }
                assert forall|d: char|
                    ids@.contains_key(d as u32) <==> #[trigger] first_ids(next).contains_key(
                        d,
                    ) by {
                    lemma_code_point_injective(c, d);
                    assert(first_ids(next) == prev.insert(c, id));
                    assert(before.contains_key(d as u32) <==> prev.contains_key(d));
                }
                assert forall|d: char| #[trigger]
                    first_ids(next).contains_key(d) implies ids@[d as u32] == first_ids(
                    next,
                )[d] by {
                    lemma_code_point_injective(c, d);
                    assert(first_ids(next) == prev.insert(c, id));
                    if d != c {
                        assert(prev.contains_key(d));
                        assert(before[d as u32] == prev[d]);
                    }
                }
            }
            i += 1;
        }
        let v = Vocabulary { ids };
        proof {
            assert(entries@.take(i as int) =~= entries@);
            assert(v@ =~= first_ids(entries@));
        }
        Ok(v)
    }

    /// The id of a character, if the vocabulary knows it.
    pub fn get(&self, c: char) -> (r: Option<i64>)
        ensures
            r == (if self@.contains_key(c) {
                Some(self@[c])
            } else {
                None
            }),
    {
        broadcast use vstd::std_specs::hash::group_hash_axioms;

        let key: u32 = c as u32;
        match self.ids.get(&key) {
            Some(id) => Some(*id),
            None => None,
        }
    }
}

/// The tunables of a voice: the selected speaker, as name and id, and the
/// three scales.
#[derive(Debug, Clone, Default)]
pub struct SynthesisConfig {
    pub speaker: Option<(String, i64)>,
    pub noise_scale: Scale,
    pub length_scale: Scale,
    pub noise_w: Scale,
}

/// The tunables of a voice with the speaker's name as its characters.
pub struct SynthesisConfigView {
    pub speaker: Option<(Seq<char>, i64)>,
    pub noise_scale: Scale,
    pub length_scale: Scale,
    pub noise_w: Scale,
}

impl View for SynthesisConfig {
    type V = SynthesisConfigView;

    open spec fn view(&self) -> SynthesisConfigView {
        SynthesisConfigView {
            speaker: match self.speaker {
                Some((name, id)) => Some((name@, id)),
                None => None,
            },
            noise_scale: self.noise_scale,
            length_scale: self.length_scale,
            noise_w: self.noise_w,
        }
    }
}

impl SynthesisConfig {
    /// A copy of the parameters as they are now.
    pub fn snapshot(&self) -> (s: SynthesisConfig)
        ensures
            s@ == self@,
    {
        let speaker = match &self.speaker {
            Some((name, id)) => Some((name.clone(), *id)),
            None => None,
        };
        SynthesisConfig {
            speaker,
            noise_scale: self.noise_scale,
            length_scale: self.length_scale,
            noise_w: self.noise_w,
        }
    }
}

/// A speaker table as names and ids, in the order of its entries.
pub open spec fn speaker_table(entries: Seq<(String, i64)>) -> Seq<(Seq<char>, i64)> {
    Seq::new(entries.len(), |i: int| (entries[i].0@, entries[i].1))
}

/// The descriptor of a voice. It does not change after it was loaded.
#[derive(Debug, Clone, Default)]
pub struct ModelConfig {
    pub key: Option<String>,
    pub language: Option<Language>,
    pub audio: AudioConfig,
    pub num_speakers: u32,
    /// Speaker names with their ids, in the order of the descriptor.
    pub speaker_id_map: Vec<(String, i64)>,
    pub streaming: Option<bool>,
    pub espeak: ESpeakConfig,
    pub inference: InferenceConfig,
    pub num_symbols: u32,
    pub phoneme_map: Vec<(i64, char)>,
    pub phoneme_id_map: Vocabulary,
}

impl ModelConfig {
    /// The speaker table as names and ids.
    pub open spec fn spec_speakers(&self) -> Seq<(Seq<char>, i64)> {
        speaker_table(self.speaker_id_map@)
    }

    /// Whether the voice is split into an encoder and a decoder. A descriptor
    /// that does not say is not.
    pub fn is_streaming(&self) -> (b: bool)
        ensures
            b == (self.streaming == Some(true)),
    {
        match self.streaming {
            Some(b) => b,
            None => false,
        }
    }

    /// Whether text must be diacritized before it is phonemized: so it is for
    /// the Arabic voice, and for no other.
    pub fn needs_diacritization(&self) -> (b: bool)
        ensures
            b == (self.espeak.spec_voice() == seq!['a', 'r']),
    {
        proof {
            reveal_strlit("ar");
        }
        let arabic = String::from_str("ar");
        assert(arabic@ =~= seq!['a', 'r']);
        *self.espeak.voice() == arabic
    }

    /// The parameters a voice starts with when its descriptor was loaded: no
    /// speaker selected, and the scales of the descriptor.
    pub fn initial_synthesis_config(&self) -> (s: SynthesisConfig)
        ensures
            s@ == (SynthesisConfigView {
                speaker: None,
                noise_scale: self.inference.noise_scale,
                length_scale: self.inference.length_scale,
                noise_w: self.inference.noise_w,
            }),
    {
        SynthesisConfig {
            speaker: None,
            noise_scale: self.inference.noise_scale,
            length_scale: self.inference.length_scale,
            noise_w: self.inference.noise_w,
        }
    }
}

} // verus!
