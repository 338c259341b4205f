//! From a phoneme string to the ids that the model is fed.

use crate::config::Vocabulary;
use crate::error::{PiperError, PiperResult};
use vstd::prelude::*;

verus! {

/// The character whose id opens every input sequence.
pub const BOS: char = '^';

/// The character whose id closes every input sequence.
pub const EOS: char = '$';

/// The character whose id is put between the ids of an input sequence.
pub const PAD: char = '_';

/// The id of a character, if the vocabulary knows it.
pub open spec fn lookup(vocab: Map<char, i64>) -> spec_fn(char) -> Option<i64> {
    |c: char|
        if vocab.contains_key(c) {
            Some(vocab[c])
        } else {
            None
        }
}

/// The ids of the characters that the vocabulary knows, in the order of the
/// text. A character it does not know leaves no trace.
pub open spec fn mapped_ids(vocab: Map<char, i64>, phonemes: Seq<char>) -> Seq<i64> {
    phonemes.filter_map(lookup(vocab))
}

/// The tokens with one `pad` between every two neighbours.
pub open spec fn interleave(tokens: Seq<i64>, pad: i64) -> Seq<i64>
    recommends
        tokens.len() > 0,
{
    Seq::new(
        (2 * tokens.len() - 1) as nat,
        |i: int|
            if i % 2 == 0 {
                tokens[i / 2]
            } else {
                pad
            },
    )
}

/// The input of the model for a phoneme string: the opening id, the ids of the
/// known characters and the closing id, with one padding id between every two
/// of them.
pub open spec fn input_id_sequence(
    vocab: Map<char, i64>,
    phonemes: Seq<char>,
    pad_id: i64,
    bos_id: i64,
    eos_id: i64,
) -> Seq<i64> {
    interleave(seq![bos_id] + mapped_ids(vocab, phonemes) + seq![eos_id], pad_id)
}

/// Whether the vocabulary has the three characters that every input sequence
/// needs.
pub open spec fn has_meta_ids(vocab: Map<char, i64>) -> bool {
    vocab.contains_key(PAD) && vocab.contains_key(BOS) && vocab.contains_key(EOS)
}

/// The ids of padding, opening and closing, in that order. A voice that lacks
/// one of them cannot synthesize.
pub fn meta_ids(vocab: &Vocabulary) -> (r: PiperResult<(i64, i64, i64)>)
    ensures
        match r {
            Ok((pad_id, bos_id, eos_id)) => has_meta_ids(vocab@) && pad_id == vocab@[PAD]
                && bos_id == vocab@[BOS] && eos_id == vocab@[EOS],
            Err(e) => !has_meta_ids(vocab@) && e is OperationError,
        },
{
    match (vocab.get(PAD), vocab.get(BOS), vocab.get(EOS)) {
        (Some(pad_id), Some(bos_id), Some(eos_id)) => Ok((pad_id, bos_id, eos_id)),
        _ => Err(
            PiperError::operation("The voice has no id for padding, start or end of input."),
        ),
    }
}

/// Maps a phoneme string to the input of the model. Characters that the
/// vocabulary does not know are dropped without an error.
pub fn phonemes_to_input_ids(
    vocab: &Vocabulary,
    phonemes: &str,
    pad_id: i64,
    bos_id: i64,
    eos_id: i64,
) -> (ids: Vec<i64>)
    ensures
        ids@ == input_id_sequence(vocab@, phonemes@, pad_id, bos_id, eos_id),
{
    broadcast use vstd::string::group_string_axioms;

    let mut ids: Vec<i64> = Vec::new();
    ids.push(bos_id);
    ids.push(pad_id);
    proof {
        assert(phonemes@.take(0).filter_map(lookup(vocab@)) =~= Seq::<i64>::empty());
        assert(ids@ =~= interleave(seq![bos_id] + mapped_ids(vocab@, phonemes@.take(0)), pad_id)
            + seq![pad_id]);
    }
    for c in it: phonemes.chars()
        invariant
            it.seq() == phonemes@,
            ids@ == interleave(
                seq![bos_id] + mapped_ids(vocab@, phonemes@.take(it.index())),
                pad_id,
            ) + seq![pad_id],
    {
        let ghost k = it.index();
        let ghost before = seq![bos_id] + mapped_ids(vocab@, phonemes@.take(k));
        proof {
            assert(c == phonemes@[k]);
            phonemes@.lemma_filter_map_take_succ(lookup(vocab@), k);
        }
        match vocab.get(c) {
            Some(id) => {
                ids.push(id);
                ids.push(pad_id);
                proof {
                    let after = seq![bos_id] + mapped_ids(vocab@, phonemes@.take(k + 1));
                    assert(after =~= before.push(id));
                    assert(ids@ =~= interleave(after, pad_id) + seq![pad_id]);
                }
            },
            None => {
                proof {
                    let after = seq![bos_id] + mapped_ids(vocab@, phonemes@.take(k + 1));
                    assert(after =~= before);
                }
            },
        }
    }
    ids.push(eos_id);
    proof {
        assert(phonemes@.take(phonemes@.len() as int) =~= phonemes@);
        let inner = seq![bos_id] + mapped_ids(vocab@, phonemes@);
        assert(ids@ =~= interleave(inner + seq![eos_id], pad_id));
    }
    ids
}

/// The shape of every input sequence: it opens with the opening id and closes
/// with the closing id; it holds, at the even places, the opening id, the ids
/// of the known characters in their order and the closing id; and at every odd
/// place, that is between every two of those, exactly one padding id.
pub proof fn lemma_input_sequence_shape(
    vocab: Map<char, i64>,
    phonemes: Seq<char>,
    pad_id: i64,
    bos_id: i64,
    eos_id: i64,
)
    ensures
        ({
            let ids = input_id_sequence(vocab, phonemes, pad_id, bos_id, eos_id);
            let mapped = mapped_ids(vocab, phonemes);
            &&& ids.len() == 2 * mapped.len() + 3
            &&& ids.first() == bos_id
            &&& ids.last() == eos_id
            &&& forall|i: int| 0 <= i < ids.len() && i % 2 == 1 ==> ids[i] == pad_id
            &&& forall|k: int| 0 <= k < mapped.len() ==> ids[2 * k + 2] == mapped[k]
        }),
{
    let ids = input_id_sequence(vocab, phonemes, pad_id, bos_id, eos_id);
    let mapped = mapped_ids(vocab, phonemes);
    let tokens = seq![bos_id] + mapped + seq![eos_id];
    assert(tokens.len() == mapped.len() + 2);
    assert(ids.len() == 2 * mapped.len() + 3);
    assert(ids.first() == tokens[0]);
    assert(ids.last() == tokens[mapped.len() as int + 1]) by {
        assert((2 * mapped.len() + 2) % 2 == 0int);
        assert((2 * mapped.len() + 2) / 2 == mapped.len() + 1);
    }
    assert forall|k: int| 0 <= k < mapped.len() implies ids[2 * k + 2] == mapped[k] by {
        assert((2 * k + 2) % 2 == 0);
        assert((2 * k + 2) / 2 == k + 1);
        assert(tokens[k + 1] == mapped[k]);
    }
}

/// A character that the vocabulary does not know contributes no id and no
/// padding, wherever it stands in the text.
pub proof fn lemma_unknown_character_is_dropped(
    vocab: Map<char, i64>,
    before: Seq<char>,
    c: char,
    after: Seq<char>,
    pad_id: i64,
    bos_id: i64,
    eos_id: i64,
)
    requires
        !vocab.contains_key(c),
    ensures
        input_id_sequence(vocab, before + seq![c] + after, pad_id, bos_id, eos_id)
            == input_id_sequence(vocab, before + after, pad_id, bos_id, eos_id),
{
    lemma_mapped_ids_concat(vocab, before + seq![c], after);
    lemma_mapped_ids_concat(vocab, before, seq![c]);
    lemma_mapped_ids_concat(vocab, before, after);
    assert(mapped_ids(vocab, seq![c]) =~= Seq::<i64>::empty()) by {
        assert(seq![c].drop_last() =~= Seq::<char>::empty());
        assert(Seq::<char>::empty().filter_map(lookup(vocab)) =~= Seq::<i64>::empty());
    }
    assert(mapped_ids(vocab, before + seq![c] + after) =~= mapped_ids(vocab, before + after));
}

/// A character that the vocabulary knows contributes its id, after the ids of
/// what stands before it and before the ids of what stands after it.
pub proof fn lemma_known_character_is_mapped(
    vocab: Map<char, i64>,
    before: Seq<char>,
    c: char,
    after: Seq<char>,
)
    requires
        vocab.contains_key(c),
    ensures
        mapped_ids(vocab, before + seq![c] + after) == mapped_ids(vocab, before) + seq![vocab[c]]
            + mapped_ids(vocab, after),
{
    lemma_mapped_ids_concat(vocab, before + seq![c], after);
    lemma_mapped_ids_concat(vocab, before, seq![c]);
    assert(mapped_ids(vocab, seq![c]) =~= seq![vocab[c]]) by {
        assert(seq![c].drop_last() =~= Seq::<char>::empty());
        assert(Seq::<char>::empty().filter_map(lookup(vocab)) =~= Seq::<i64>::empty());
    }
}

/// The ids of a text are the ids of its first part followed by the ids of the
/// rest.
pub proof fn lemma_mapped_ids_concat(vocab: Map<char, i64>, a: Seq<char>, b: Seq<char>)
    ensures
        mapped_ids(vocab, a + b) == mapped_ids(vocab, a) + mapped_ids(vocab, b),
    decreases b.len(),
{
    if b.len() == 0 {
        assert(a + b =~= a);
        assert(mapped_ids(vocab, b) =~= Seq::<i64>::empty());
        assert(mapped_ids(vocab, a) + mapped_ids(vocab, b) =~= mapped_ids(vocab, a));
    } else {
        lemma_mapped_ids_concat(vocab, a, b.drop_last());
        assert((a + b).drop_last() =~= a + b.drop_last());
        assert((a + b).last() == b.last());
        assert(mapped_ids(vocab, a + b) =~= mapped_ids(vocab, a) + mapped_ids(vocab, b));
    }
}

} // verus!
