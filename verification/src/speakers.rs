//! The speaker table of a voice, read from name to id and from id to name.

use crate::config::speaker_table;
use std::collections::HashMap;
use vstd::prelude::*;

verus! {

/// No two entries of the table share a name, and no two share an id: the table
/// is a one-to-one correspondence between its names and its ids.
pub open spec fn is_bijective(table: Seq<(Seq<char>, i64)>) -> bool {
    forall|i: int, j: int|
        0 <= i < j < table.len() ==> (#[trigger] table[i]).0 != (#[trigger] table[j]).0
            && table[i].1 != table[j].1
}

/// The id that the table gives a name. Where a name is entered more than
/// once, its last entry counts.
pub open spec fn id_of_name(table: Seq<(Seq<char>, i64)>, name: Seq<char>) -> Option<i64>
    decreases table.len(),
{
    if table.len() == 0 {
        None
    } else if table.last().0 == name {
        Some(table.last().1)
    } else {
        id_of_name(table.drop_last(), name)
    }
}

/// The table read from id to name. Where an id is entered more than once, its
/// last entry counts.
pub open spec fn inverse(table: Seq<(Seq<char>, i64)>) -> Map<i64, Seq<char>>
    decreases table.len(),
{
    if table.len() == 0 {
        Map::empty()
    } else {
        inverse(table.drop_last()).insert(table.last().1, table.last().0)
    }
}

/// A map from id to name as the names' characters.
pub open spec fn names(m: Map<i64, String>) -> Map<i64, Seq<char>> {
    m.map_values(|s: String| s@)
}

/// Whether the table is a one-to-one correspondence of names and ids.
pub fn table_is_bijective(entries: &Vec<(String, i64)>) -> (b: bool)
    ensures
        b == is_bijective(speaker_table(entries@)),
{
    let ghost table = speaker_table(entries@);
    let mut j: usize = 0;
    while j < entries.len()
        invariant
            0 <= j <= entries.len(),
            table == speaker_table(entries@),
            forall|a: int, b: int|
                0 <= a < b < j ==> (#[trigger] table[a]).0 != (#[trigger] table[b]).0
                    && table[a].1 != table[b].1,
        decreases entries.len() - j,
    {
        let mut i: usize = 0;
        while i < j
            invariant
                0 <= i <= j < entries.len(),
                table == speaker_table(entries@),
                forall|a: int|
                    0 <= a < i ==> (#[trigger] table[a]).0 != table[j as int].0 && table[a].1
                        != table[j as int].1,
            decreases j - i,
        {
            if entries[i].0 == entries[j].0 || entries[i].1 == entries[j].1 {
                assert(!(table[i as int].0 != table[j as int].0 && table[i as int].1
                    != table[j as int].1));
                return false;
            }
            i += 1;
        }
        j += 1;
    }
    true
}

/// Looks a speaker's name up in the table.
pub fn speaker_id(entries: &Vec<(String, i64)>, name: &String) -> (r: Option<i64>)
    ensures
        r == id_of_name(speaker_table(entries@), name@),
{
    let ghost table = speaker_table(entries@);
    let mut found: Option<i64> = None;
    let mut i: usize = 0;
    while i < entries.len()
        invariant
            0 <= i <= entries.len(),
            table == speaker_table(entries@),
            found == id_of_name(table.take(i as int), name@),
        decreases entries.len() - i,
    {
        proof {
            assert(table.take(i as int + 1).drop_last() =~= table.take(i as int));
            assert(table.take(i as int + 1).last() == table[i as int]);
        }
        if entries[i].0 == *name {
            found = Some(entries[i].1);
        }
        i += 1;
    }
    proof {
        assert(table.take(i as int) =~= table);
    }
    found
}

/// Turns the table of names and ids round: the result names each id's
/// speaker.
pub fn reversed_mapping(input: &Vec<(String, i64)>) -> (r: HashMap<i64, String>)
    ensures
        names(r@) == inverse(speaker_table(input@)),
{
    broadcast use vstd::std_specs::hash::group_hash_axioms;

    let ghost table = speaker_table(input@);
    let mut r: HashMap<i64, String> = HashMap::new();
    proof {
        assert(names(r@) =~= inverse(table.take(0)));
    }
    let mut i: usize = 0;
    while i < input.len()
        invariant
            0 <= i <= input.len(),
            table == speaker_table(input@),
            names(r@) == inverse(table.take(i as int)),
        decreases input.len() - i,
    {
        let ghost before = r@;
        let name = input[i].0.clone();
        let id: i64 = input[i].1;
        r.insert(id, name);
        proof {
            assert(table.take(i as int + 1).drop_last() =~= table.take(i as int));
            assert(table.take(i as int + 1).last() == table[i as int]);
            assert(r@ == before.insert(id, name));
            assert(names(r@) =~= names(before).insert(id, name@));
        }
        i += 1;
    }
    proof {
        assert(table.take(i as int) =~= table);
    }
    r
}

/// In a one-to-one table every name finds its own id and every id its own
/// name: reading the table one way and then the other comes back to the
/// start.
pub proof fn lemma_bijective_round_trip(table: Seq<(Seq<char>, i64)>, i: int)
    requires
        is_bijective(table),
        0 <= i < table.len(),
    ensures
        id_of_name(table, table[i].0) == Some(table[i].1),
        inverse(table).contains_key(table[i].1),
        inverse(table)[table[i].1] == table[i].0,
    decreases table.len(),
{
    if i == table.len() - 1 {
    } else {
        let rest = table.drop_last();
        assert(table[i] == rest[i]);
        assert(table.last() == table[table.len() - 1]);
        assert(is_bijective(rest)) by {
            assert forall|a: int, b: int| 0 <= a < b < rest.len() implies (#[trigger] rest[a]).0
                != (#[trigger] rest[b]).0 && rest[a].1 != rest[b].1 by {
                assert(rest[a] == table[a]);
                assert(rest[b] == table[b]);
            }
        }
        lemma_bijective_round_trip(rest, i);
    }
}

/// A name has an id exactly when some entry of the table carries the name.
pub proof fn lemma_id_of_name_is_some(table: Seq<(Seq<char>, i64)>, name: Seq<char>)
    ensures
        id_of_name(table, name) is Some <==> exists|i: int|
            0 <= i < table.len() && (#[trigger] table[i]).0 == name,
    decreases table.len(),
{
    if table.len() == 0 {
    } else if table.last().0 == name {
        assert(table[table.len() - 1].0 == name);
    } else {
        let rest = table.drop_last();
        lemma_id_of_name_is_some(rest, name);
        if id_of_name(rest, name) is Some {
            let i = choose|i: int| 0 <= i < rest.len() && (#[trigger] rest[i]).0 == name;
            assert(table[i] == rest[i]);
        }
        if exists|i: int| 0 <= i < table.len() && (#[trigger] table[i]).0 == name {
            let i = choose|i: int| 0 <= i < table.len() && (#[trigger] table[i]).0 == name;
            assert(i < table.len() - 1);
            assert(rest[i] == table[i]);
        }
    }
}

} // verus!
