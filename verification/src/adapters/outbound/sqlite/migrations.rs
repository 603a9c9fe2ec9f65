//! Which migrations are still to be applied, and under what label each is
//! announced.
use crate::text::{replace_char, texts, with_replaced, zero_padded, zero_padded_text};
use std::collections::HashSet;
use vstd::prelude::*;
use vstd::string::StringExecFns;

verus! {

/// One versioned migration: its version number and its description.
#[derive(Debug)]
pub struct Migration {
    pub version: i64,
    pub description: String,
}

/// The label of a migration: its version, zero-filled to four characters,
/// an underscore, and its description with spaces turned into underscores.
pub open spec fn label_of(version: i64, description: Seq<char>) -> Seq<char> {
    zero_padded(version) + seq!['_'] + with_replaced(description, ' ', '_')
}

/// The labels of the migrations whose version is not among the applied
/// ones, in the order of `available`.
pub open spec fn pending_labels(applied: Set<i64>, available: Seq<Migration>) -> Seq<Seq<char>>
    decreases available.len(),
{
    if available.len() == 0 {
        Seq::empty()
    } else {
        let earlier = pending_labels(applied, available.drop_last());
        let last = available.last();
        if applied.contains(last.version) {
            earlier
        } else {
            earlier.push(label_of(last.version, last.description@))
        }
    }
}

/// Whether `version` is among the applied versions.
pub fn is_applied(applied: &HashSet<i64>, version: i64) -> (found: bool)
    ensures
        found == applied@.contains(version),
{
    broadcast use vstd::std_specs::hash::group_hash_axioms;

    applied.contains(&version)
}

/// The label under which a migration is announced.
pub fn migration_label(migration: &Migration) -> (label: String)
    ensures
        label@ == label_of(migration.version, migration.description@),
{
    proof {
        reveal_strlit("_");
    }
    let slug: String = replace_char(migration.description.as_str(), ' ', "_");
    let label = zero_padded_text(migration.version).concat("_").concat(slug.as_str());
    assert(label@ =~= label_of(migration.version, migration.description@));
    label
}

/// The labels of the migrations that are still to be applied.
pub fn pending_migration_labels(applied: &HashSet<i64>, available: &Vec<Migration>) -> (labels: Vec<
    String,
>)
    ensures
        texts(labels@) == pending_labels(applied@, available@),
{
    let mut labels: Vec<String> = Vec::new();
    let mut index: usize = 0;
    assert(texts(labels@) =~= pending_labels(applied@, available@.take(0)));
    while index < available.len()
        invariant
            index <= available.len(),
            texts(labels@) == pending_labels(applied@, available@.take(index as int)),
        decreases available.len() - index,
    {
        let migration = &available[index];
        assert(available@.take(index + 1).drop_last() =~= available@.take(index as int));
        assert(available@.take(index + 1).last() == available@[index as int]);
        if !is_applied(applied, migration.version) {
            let label = migration_label(migration);
            let ghost before = labels@;
            labels.push(label);
            assert(texts(labels@) =~= texts(before).push(label@));
        }
        index += 1;
    }
    assert(available@.take(index as int) =~= available@);
    labels
}

} // verus!
