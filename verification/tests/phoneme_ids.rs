use piper_vits::phoneme_ids::{meta_ids, phonemes_to_input_ids};
use piper_vits::{PiperError, Vocabulary};

fn vocabulary() -> Vocabulary {
    let entries: Vec<(char, Vec<i64>)> = vec![
        ('_', vec![0]),
        ('^', vec![1]),
        ('$', vec![2]),
        ('a', vec![10, 99]),
        ('b', vec![11]),
        ('ɐ', vec![50]),
    ];
    Vocabulary::from_entries(&entries).unwrap()
}

#[test]
fn empty_text_gives_start_padding_end() {
    let ids = phonemes_to_input_ids(&vocabulary(), "", 0, 1, 2);
    assert_eq!(ids, vec![1, 0, 2]);
}

#[test]
fn known_characters_are_interleaved_with_padding() {
    let ids = phonemes_to_input_ids(&vocabulary(), "ab", 0, 1, 2);
    assert_eq!(ids, vec![1, 0, 10, 0, 11, 0, 2]);
}

#[test]
fn one_padding_between_every_two_ids() {
    let ids = phonemes_to_input_ids(&vocabulary(), "abɐa", 0, 1, 2);
    assert_eq!(ids.len(), 2 * 4 + 3);
    assert_eq!(ids[0], 1);
    assert_eq!(ids[ids.len() - 1], 2);
    for (i, id) in ids.iter().enumerate() {
        if i % 2 == 1 {
            assert_eq!(*id, 0);
        } else {
            assert_ne!(*id, 0);
        }
    }
    assert_eq!(ids, vec![1, 0, 10, 0, 11, 0, 50, 0, 10, 0, 2]);
}

#[test]
fn unknown_characters_leave_no_id_and_no_padding() {
    let vocab = vocabulary();
    let with_unknown = phonemes_to_input_ids(&vocab, "xaxxb?", 0, 1, 2);
    let without = phonemes_to_input_ids(&vocab, "ab", 0, 1, 2);
    assert_eq!(with_unknown, without);
    assert_eq!(phonemes_to_input_ids(&vocab, "xyz", 0, 1, 2), vec![1, 0, 2]);
}

#[test]
fn the_first_id_of_a_character_is_used() {
    let ids = phonemes_to_input_ids(&vocabulary(), "a", 7, 8, 9);
    assert_eq!(ids, vec![8, 7, 10, 7, 9]);
}

#[test]
fn characters_beyond_ascii_are_looked_up() {
    let ids = phonemes_to_input_ids(&vocabulary(), "ɐ", 0, 1, 2);
    assert_eq!(ids, vec![1, 0, 50, 0, 2]);
}

#[test]
fn meta_ids_are_padding_start_end() {
    assert_eq!(meta_ids(&vocabulary()), Ok((0, 1, 2)));
}

#[test]
fn a_vocabulary_without_padding_has_no_meta_ids() {
    let entries: Vec<(char, Vec<i64>)> = vec![('^', vec![1]), ('$', vec![2]), ('a', vec![3])];
    let vocab = Vocabulary::from_entries(&entries).unwrap();
    assert!(matches!(meta_ids(&vocab), Err(PiperError::OperationError(_))));
    assert!(matches!(meta_ids(&Vocabulary::empty()), Err(PiperError::OperationError(_))));
}

#[test]
fn a_later_entry_replaces_an_earlier_one() {
    let entries: Vec<(char, Vec<i64>)> = vec![('a', vec![3]), ('b', vec![4]), ('a', vec![5, 6])];
    let vocab = Vocabulary::from_entries(&entries).unwrap();
    assert_eq!(vocab.get('a'), Some(5));
    assert_eq!(vocab.get('b'), Some(4));
    assert_eq!(vocab.get('c'), None);
}

#[test]
fn an_entry_without_ids_is_a_malformed_descriptor() {
    let entries: Vec<(char, Vec<i64>)> = vec![('a', vec![3]), ('b', vec![])];
    assert!(matches!(
        Vocabulary::from_entries(&entries),
        Err(PiperError::ConfigParseError(_))
    ));
}
