use piper_vits::reversed_mapping;
use piper_vits::speakers::{speaker_id, table_is_bijective};

fn table(entries: &[(&str, i64)]) -> Vec<(String, i64)> {
    entries.iter().map(|(n, i)| (n.to_string(), *i)).collect()
}

#[test]
fn reversed_mapping_names_each_id() {
    let map = reversed_mapping(&table(&[("anna", 0), ("ben", 1), ("carl", 7)]));
    assert_eq!(map.len(), 3);
    assert_eq!(map.get(&0), Some(&"anna".to_string()));
    assert_eq!(map.get(&1), Some(&"ben".to_string()));
    assert_eq!(map.get(&7), Some(&"carl".to_string()));
    assert_eq!(map.get(&2), None);
}

#[test]
fn reversed_mapping_of_nothing_is_empty() {
    assert!(reversed_mapping(&table(&[])).is_empty());
}

#[test]
fn reversed_mapping_keeps_the_last_entry_of_an_id() {
    let map = reversed_mapping(&table(&[("anna", 3), ("ben", 3)]));
    assert_eq!(map.len(), 1);
    assert_eq!(map.get(&3), Some(&"ben".to_string()));
}

#[test]
fn speaker_id_finds_a_name() {
    let t = table(&[("anna", 0), ("ben", 1)]);
    assert_eq!(speaker_id(&t, &"ben".to_string()), Some(1));
    assert_eq!(speaker_id(&t, &"anna".to_string()), Some(0));
    assert_eq!(speaker_id(&t, &"Ben".to_string()), None);
    assert_eq!(speaker_id(&table(&[]), &"ben".to_string()), None);
}

#[test]
fn speaker_id_takes_the_last_entry_of_a_name() {
    let t = table(&[("anna", 0), ("anna", 4)]);
    assert_eq!(speaker_id(&t, &"anna".to_string()), Some(4));
}

#[test]
fn a_table_with_distinct_names_and_ids_is_bijective() {
    assert!(table_is_bijective(&table(&[])));
    assert!(table_is_bijective(&table(&[("anna", 0)])));
    assert!(table_is_bijective(&table(&[("anna", 0), ("ben", 1), ("carl", 2)])));
}

#[test]
fn a_repeated_id_or_name_is_not_bijective() {
    assert!(!table_is_bijective(&table(&[("anna", 0), ("ben", 1), ("carl", 0)])));
    assert!(!table_is_bijective(&table(&[("anna", 0), ("ben", 1), ("anna", 2)])));
    assert!(!table_is_bijective(&table(&[("anna", 0), ("anna", 0)])));
}
