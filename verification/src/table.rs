//! Checking one table of the document against the schema.

use vstd::prelude::*;
use crate::error::{DecodeError, Fault, FieldPath, Place};
use crate::schema::{field_kind, known_kind, known_kind_of, RowView, Schema, Scope};
use crate::value::{
    flag_at, key_before, lookup, pairs, seen_before, text_at, Entry, Pair, Tree, Value,
};
use crate::schema::Kind;

verus! {

/// What is wrong with the entry `i` of a table of `scope` that stands at
/// `place`, if anything: its key stood in the table before, or the schema has
/// no such field, or the field takes a value of another kind, or some table
/// within its value holds a key twice.
pub open spec fn fault_at(
    rows: Seq<RowView>,
    scope: Scope,
    place: Place,
    entries: Seq<Pair>,
    i: int,
) -> Option<Fault> {
    let entry = entries[i];
    let at = place.field(entry.key);
    if key_before(entries, i, entry.key) {
        Some(Fault::DuplicateKey { place: at })
    } else {
        match field_kind(rows, scope, entry.key) {
            None => Some(Fault::UnknownField { place: at }),
            Some(expected) => if entry.value.kind() != expected {
                Some(
                    Fault::FieldType { place: at, expected, found: entry.value.kind() },
                )
            } else if entry.value.repeats() {
                Some(Fault::DuplicateKey { place: at })
            } else {
                None
            },
        }
    }
}

/// The fault of the first faulty entry among the first `n`, or `None` where
/// they are all in order.
pub open spec fn first_fault(
    rows: Seq<RowView>,
    scope: Scope,
    place: Place,
    entries: Seq<Pair>,
    n: int,
) -> Option<Fault>
    decreases n,
{
    if n <= 0 {
        None
    } else {
        match first_fault(rows, scope, place, entries, n - 1) {
            Some(fault) => Some(fault),
            None => fault_at(rows, scope, place, entries, n - 1),
        }
    }
}

/// The entries that a table of `scope` keeps as they are: those whose key is
/// none of the fields that every schema knows.
pub open spec fn carried(scope: Scope, entries: Seq<Pair>) -> Seq<Pair> {
    entries.filter(|pair: Pair| known_kind(scope, pair.key) is None)
}

/// Checks the entries of a table of `scope` that stands at `path`: the first
/// entry that is not in order, in the order of the document, decides the
/// error.
pub fn check_table(
    schema: &Schema,
    scope: Scope,
    path: &FieldPath,
    entries: &Vec<Entry>,
) -> (checked: Result<(), DecodeError>)
    ensures
        match checked {
            Ok(_) => first_fault(schema@, scope, path@, pairs(entries@), entries@.len() as int)
                is None,
            Err(error) => first_fault(
                schema@,
                scope,
                path@,
                pairs(entries@),
                entries@.len() as int,
            ) == Some(error@),
        },
{
    let mut i: usize = 0;
    while i < entries.len()
        invariant
            i <= entries@.len(),
            first_fault(schema@, scope, path@, pairs(entries@), i as int) is None,
        decreases entries@.len() - i,
    {
        let entry = &entries[i];
        assert(pairs(entries@)[i as int] == entry@);
        if seen_before(entries, i, &entry.key) {
            let error = DecodeError::DuplicateKey { path: path.field(&entry.key) };
            proof {
                lemma_fault_stays(
                    schema@,
                    scope,
                    path@,
                    pairs(entries@),
                    i as int + 1,
                    entries@.len() as int,
                );
            }
            return Err(error);
        }
        match schema.kind_of(scope, &entry.key) {
            None => {
                let error = DecodeError::UnknownField { path: path.field(&entry.key) };
                proof {
                    lemma_fault_stays(
                    schema@,
                    scope,
                    path@,
                    pairs(entries@),
                    i as int + 1,
                    entries@.len() as int,
                );
                }
                return Err(error);
            },
            Some(expected) => {
                let found = entry.value.kind();
                if found != expected {
                    let error = DecodeError::FieldType {
                        path: path.field(&entry.key),
                        expected,
                        found,
                    };
                    proof {
                        lemma_fault_stays(
                    schema@,
                    scope,
                    path@,
                    pairs(entries@),
                    i as int + 1,
                    entries@.len() as int,
                );
                    }
                    return Err(error);
                }
                if entry.value.has_repeat() {
                    let error = DecodeError::DuplicateKey { path: path.field(&entry.key) };
                    proof {
                        lemma_fault_stays(
                    schema@,
                    scope,
                    path@,
                    pairs(entries@),
                    i as int + 1,
                    entries@.len() as int,
                );
                    }
                    return Err(error);
                }
            },
        }
        i += 1;
    }
    Ok(())
}

/// Once a fault is found among the first `n` entries, it stays the first
/// fault of every longer stretch.
pub proof fn lemma_fault_stays(
    rows: Seq<RowView>,
    scope: Scope,
    place: Place,
    entries: Seq<Pair>,
    n: int,
    m: int,
)
    requires
        n <= m,
        first_fault(rows, scope, place, entries, n) is Some,
    ensures
        first_fault(rows, scope, place, entries, m) == first_fault(rows, scope, place, entries, n),
    decreases m - n,
{
    if n < m {
        lemma_fault_stays(rows, scope, place, entries, n, m - 1);
    }
}

/// The entries of a table of `scope` that are kept as they are, copied in
/// the order of the document.
pub fn carry(scope: Scope, entries: &Vec<Entry>) -> (kept: Vec<Entry>)
    ensures
        pairs(kept@) == carried(scope, pairs(entries@)),
{
    let mut kept: Vec<Entry> = Vec::new();
    let mut i: usize = 0;
    proof {
        reveal(Seq::filter);
        assert(pairs(entries@).take(0) =~= Seq::<Pair>::empty());
        assert(pairs(kept@) =~= Seq::<Pair>::empty());
    }
    while i < entries.len()
        invariant
            i <= entries@.len(),
            pairs(kept@) == carried(scope, pairs(entries@).take(i as int)),
        decreases entries@.len() - i,
    {
        let entry = &entries[i];
        let ghost before = pairs(kept@);
        proof {
            reveal(Seq::filter);
            let next = pairs(entries@).take(i as int + 1);
            assert(next.drop_last() =~= pairs(entries@).take(i as int));
            assert(next.last() == entry@);
        }
        if known_kind_of(scope, &entry.key).is_none() {
            kept.push(Entry { key: entry.key.clone(), value: entry.value.duplicate() });
            assert(pairs(kept@) =~= before.push(entry@));
        }
        i += 1;
    }
    assert(pairs(entries@).take(entries@.len() as int) =~= pairs(entries@));
    kept
}

/// In a table without fault among its first `n` entries, each of those
/// entries has a key that none before it has, and a value of the kind that
/// the schema asks of that key, in which no table holds a key twice.
pub proof fn lemma_checked_entry(
    rows: Seq<RowView>,
    scope: Scope,
    place: Place,
    entries: Seq<Pair>,
    n: int,
    j: int,
)
    requires
        0 <= j < n <= entries.len(),
        first_fault(rows, scope, place, entries, n) is None,
    ensures
        !key_before(entries, j, entries[j].key),
        field_kind(rows, scope, entries[j].key) == Some(entries[j].value.kind()),
        !entries[j].value.repeats(),
    decreases n,
{
    if j < n - 1 {
        lemma_checked_entry(rows, scope, place, entries, n - 1, j);
    }
}

/// An entry whose key none before it has is the one that a lookup of its key
/// finds.
pub proof fn lemma_lookup_entry(entries: Seq<Pair>, j: int)
    requires
        0 <= j < entries.len(),
        !key_before(entries, j, entries[j].key),
    ensures
        lookup(entries, entries[j].key) == Some(entries[j].value),
    decreases entries.len(),
{
    let key = entries[j].key;
    if j > 0 {
        assert(entries[0].key != key);
        let rest = entries.drop_first();
        assert(rest[j - 1] == entries[j]);
        assert forall|k: int| 0 <= k < j - 1 implies #[trigger] rest[k].key != key by {
            assert(rest[k] == entries[k + 1]);
        }
        lemma_lookup_entry(rest, j - 1);
    }
}

/// A lookup that finds a value finds it in an entry with the key asked for.
pub proof fn lemma_lookup_found(entries: Seq<Pair>, key: Seq<char>) -> (j: int)
    requires
        lookup(entries, key) is Some,
    ensures
        0 <= j < entries.len(),
        entries[j].key == key,
        !key_before(entries, j, key),
        lookup(entries, key) == Some(entries[j].value),
    decreases entries.len(),
{
    if entries[0].key == key {
        0
    } else {
        let rest = entries.drop_first();
        let k = lemma_lookup_found(rest, key);
        assert(rest[k] == entries[k + 1]);
        assert forall|i: int| 0 <= i < k + 1 implies #[trigger] entries[i].key != key by {
            if i > 0 {
                assert(rest[i - 1] == entries[i]);
            }
        }
        k + 1
    }
}

/// Among the entries that a table keeps as they are, a lookup finds what it
/// finds in the whole table, for every key that is none of the fields that
/// every schema knows; for those fields it finds nothing.
pub proof fn lemma_lookup_carried(scope: Scope, entries: Seq<Pair>, key: Seq<char>)
    ensures
        lookup(carried(scope, entries), key) == if known_kind(scope, key) is None {
            lookup(entries, key)
        } else {
            None
        },
    decreases entries.len(),
{
    reveal(Seq::filter);
    if entries.len() > 0 {
        let first = entries[0];
        let rest = entries.drop_first();
        let keep = |pair: Pair| known_kind(scope, pair.key) is None;
        assert(entries =~= seq![first] + rest);
        rest.lemma_filter_prepend(first, keep);
        lemma_lookup_carried(scope, rest, key);
        if keep(first) {
            let kept = seq![first] + rest.filter(keep);
            assert(kept[0] == first);
            assert(kept.drop_first() =~= rest.filter(keep));
        } else {
            assert(Seq::<Pair>::empty() + rest.filter(keep) =~= rest.filter(keep));
        }
    }
}

/// A table without fault loses nothing: a field that holds text or a flag is
/// read as just that text or flag, and every field that is none of those
/// which every schema knows is found unchanged among the entries that the
/// table keeps.
pub proof fn lemma_table_kept(
    rows: Seq<RowView>,
    scope: Scope,
    place: Place,
    entries: Seq<Pair>,
    key: Seq<char>,
)
    requires
        first_fault(rows, scope, place, entries, entries.len() as int) is None,
    ensures
        known_kind(scope, key) == Some(Kind::Text) ==> lookup(entries, key) == match text_at(
            entries,
            key,
        ) {
            Some(text) => Some(Tree::Text(text)),
            None => None,
        },
        known_kind(scope, key) == Some(Kind::Bool) ==> lookup(entries, key) == match flag_at(
            entries,
            key,
        ) {
            Some(flag) => Some(Tree::Bool(flag)),
            None => None,
        },
        known_kind(scope, key) is None ==> lookup(carried(scope, entries), key) == lookup(
            entries,
            key,
        ),
{
    lemma_lookup_carried(scope, entries, key);
    if lookup(entries, key) is Some {
        let j = lemma_lookup_found(entries, key);
        lemma_checked_entry(rows, scope, place, entries, entries.len() as int, j);
    }
}

} // verus!
