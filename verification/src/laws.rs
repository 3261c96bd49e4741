//! What holds of every document and every configuration.

use vstd::prelude::*;
use crate::decode::{capture_fault, decoded, document_fault, extras, section_value};
use crate::error::{Fault, Place};
use crate::migrate::{migrated, single_proxy, warnings_of, Warning};
use crate::model::{CoreView, ServeView, Settled};
use crate::schema::{
    field_kind, known_kind, lemma_known_kind, Kind, RowView, Scope, Section,
};
use crate::section::{element_fault, list_fault, list_under, section_fault, table_under};
use crate::table::{
    carried, fault_at, first_fault, lemma_checked_entry, lemma_fault_stays,
    lemma_lookup_carried, lemma_lookup_entry, lemma_table_kept,
};
use crate::value::{flag_at, key_before, lookup, text_at, Pair, Tree};

verus! {

/// A second migration changes nothing and warns of nothing: whatever the
/// configuration, migrating what was migrated gives it back as it is.
pub proof fn lemma_migration_is_idempotent(config: Settled)
    ensures
        migrated(migrated(config)) == migrated(config),
        warnings_of(migrated(config)) == Seq::<Warning>::empty(),
{
}

/// After the migration nothing deprecated is left that it would rewrite:
/// `clean.dist` is cleared, and so is `serve.proxy_backend`, with its
/// companions wherever it was set.
pub proof fn lemma_migrated_is_current(config: Settled)
    ensures
        migrated(config).clean.dist is None,
        migrated(config).serve.proxy_backend is None,
        config.serve.proxy_backend is Some ==> migrated(config).serve == (ServeView {
            settings: config.serve.settings,
            ..ServeView::empty()
        }),
{
}

/// The migration only ever adds to `proxies`, at the end: the proxies that
/// were there stay, in their order, and at most one follows them. It adds
/// one exactly if `serve.proxy_backend` was set, whatever the list held.
pub proof fn lemma_migration_appends(config: Settled)
    ensures
        migrated(config).proxies.len() == config.proxies.len() + (if config.serve.proxy_backend
            is Some {
            1int
        } else {
            0int
        }),
        migrated(config).proxies.take(config.proxies.len() as int) == config.proxies,
        config.serve.proxy_backend is Some ==> migrated(config).proxies.last() == single_proxy(
            config.serve,
            config.serve.proxy_backend->Some_0,
        ),
{
    assert(migrated(config).proxies.take(config.proxies.len() as int) =~= config.proxies);
}

/// The migration moves settings between the core settings, `clean`, `serve`
/// and `proxies`, and leaves every other part, and the settings that each
/// part keeps as they are, untouched.
pub proof fn lemma_migration_is_local(config: Settled)
    ensures
        migrated(config).build == config.build,
        migrated(config).tools == config.tools,
        migrated(config).hooks == config.hooks,
        migrated(config).watch == config.watch,
        migrated(config).core.settings == config.core.settings,
        migrated(config).clean.settings == config.clean.settings,
        migrated(config).serve.settings == config.serve.settings,
        config.clean.dist is None ==> migrated(config).core == config.core,
        config.clean.dist is Some ==> migrated(config).core.dist == config.clean.dist,
{
}

/// Where a root entry names no section, it stands among the entries set
/// aside, after those that were set aside from the entries before it.
pub proof fn lemma_set_aside(entries: Seq<Pair>, i: int) -> (at: int)
    requires
        0 <= i < entries.len(),
        Section::named_by(entries[i].key) is None,
    ensures
        at == extras(entries.take(i)).len(),
        0 <= at < extras(entries).len(),
        extras(entries)[at] == entries[i],
        extras(entries).take(at) == extras(entries.take(i)),
{
    let aside = |pair: Pair| Section::named_by(pair.key) is None;
    let head = entries.take(i);
    let tail = entries.skip(i + 1);
    assert(entries =~= head + (seq![entries[i]] + tail));
    Seq::filter_distributes_over_add(head, seq![entries[i]] + tail, aside);
    tail.lemma_filter_prepend(entries[i], aside);
    let at = head.filter(aside).len() as int;
    assert(extras(entries) == head.filter(aside) + (seq![entries[i]] + tail.filter(aside)));
    assert(extras(entries).take(at) =~= head.filter(aside));
    at
}

/// The schema is closed. A document with a root key that names no section
/// and is no core field is refused. Where the sections are in order and
/// nothing is wrong with the keys before it that name no section, the error
/// is that of an unknown field and names that very key.
pub proof fn lemma_closed_schema(rows: Seq<RowView>, entries: Seq<Pair>, i: int)
    requires
        0 <= i < entries.len(),
        Section::named_by(entries[i].key) is None,
        field_kind(rows, Scope::Core, entries[i].key) is None,
    ensures
        document_fault(rows, Tree::Table(entries)) is Some,
        capture_fault(rows, entries, entries.len() as int) is None && first_fault(
            rows,
            Scope::Core,
            Place::root(),
            extras(entries),
            extras(entries.take(i)).len() as int,
        ) is None ==> document_fault(rows, Tree::Table(entries)) == Some(
            Fault::UnknownField { place: Place::of_key(entries[i].key) },
        ),
{
    let aside = extras(entries);
    let at = lemma_set_aside(entries, i);
    let whole = aside.len() as int;
    if first_fault(rows, Scope::Core, Place::root(), aside, whole) is None {
        lemma_checked_entry(rows, Scope::Core, Place::root(), aside, whole, at);
    }
    if first_fault(rows, Scope::Core, Place::root(), aside, at) is None {
        if key_before(aside, at, entries[i].key) {
            let j = choose|j: int| 0 <= j < at && #[trigger] aside[j].key == entries[i].key;
            lemma_checked_entry(rows, Scope::Core, Place::root(), aside, at, j);
        }
        assert(fault_at(rows, Scope::Core, Place::root(), aside, at) == Some(
            Fault::UnknownField { place: Place::of_key(entries[i].key) },
        ));
        assert(first_fault(rows, Scope::Core, Place::root(), aside, at + 1) == Some(
            Fault::UnknownField { place: Place::of_key(entries[i].key) },
        ));
        lemma_fault_stays(rows, Scope::Core, Place::root(), aside, at + 1, whole);
    }
}

/// A core field that stands at the root of an accepted document is found
/// unchanged in the core settings: `dist` as the text it holds, every other
/// field among the settings that are kept as they are.
pub proof fn lemma_core_field_kept(rows: Seq<RowView>, entries: Seq<Pair>, i: int)
    requires
        0 <= i < entries.len(),
        document_fault(rows, Tree::Table(entries)) is None,
        Section::named_by(entries[i].key) is None,
    ensures
        entries[i].key == "dist"@ ==> decoded(Tree::Table(entries)).core.dist is Some
            && entries[i].value == Tree::Text(decoded(Tree::Table(entries)).core.dist->Some_0),
        entries[i].key != "dist"@ ==> lookup(
            decoded(Tree::Table(entries)).core.settings,
            entries[i].key,
        ) == Some(entries[i].value),
{
    let aside = extras(entries);
    let at = lemma_set_aside(entries, i);
    lemma_checked_entry(rows, Scope::Core, Place::root(), aside, aside.len() as int, at);
    lemma_lookup_entry(aside, at);
    lemma_lookup_carried(Scope::Core, aside, entries[i].key);
    lemma_known_kind(Scope::Core, entries[i].key);
}

/// Among the first `n` root entries of a document whose sections are in
/// order, the entry that names a section is the one that the section is
/// decoded from.
pub proof fn lemma_section_read(rows: Seq<RowView>, entries: Seq<Pair>, n: int, i: int)
    requires
        0 <= i < n <= entries.len(),
        capture_fault(rows, entries, n) is None,
        Section::named_by(entries[i].key) is Some,
    ensures
        section_value(entries, Section::named_by(entries[i].key)->Some_0, n) == Some(
            entries[i].value,
        ),
    decreases n,
{
    if i < n - 1 {
        lemma_section_read(rows, entries, n - 1, i);
    }
}

/// In a document whose first `n` root entries pass the first pass, each of
/// those entries that names a section holds a section without fault.
pub proof fn lemma_section_in_order(rows: Seq<RowView>, entries: Seq<Pair>, n: int, i: int)
    requires
        0 <= i < n <= entries.len(),
        capture_fault(rows, entries, n) is None,
        Section::named_by(entries[i].key) is Some,
    ensures
        section_fault(rows, Section::named_by(entries[i].key)->Some_0, entries[i].value) is None,
    decreases n,
{
    if i < n - 1 {
        lemma_section_in_order(rows, entries, n - 1, i);
    }
}

/// A section that is a table is decoded without loss. In an accepted
/// document, the table under the section's key is the one that the section
/// is decoded from; a field of it that holds text or a flag is read as just
/// that text or flag, and every field that is none of those which every
/// schema knows is found unchanged among the settings that the section
/// keeps.
pub proof fn lemma_section_kept(rows: Seq<RowView>, entries: Seq<Pair>, i: int, key: Seq<char>)
    requires
        0 <= i < entries.len(),
        document_fault(rows, Tree::Table(entries)) is None,
        Section::named_by(entries[i].key) is Some,
        !Section::named_by(entries[i].key)->Some_0.is_list(),
    ensures
        ({
            let section = Section::named_by(entries[i].key)->Some_0;
            let fields = table_under(Some(entries[i].value));
            &&& entries[i].value == Tree::Table(fields)
            &&& section_value(entries, section, entries.len() as int) == Some(entries[i].value)
            &&& known_kind(section.scope(), key) == Some(Kind::Text) ==> lookup(fields, key)
                == match text_at(fields, key) {
                Some(text) => Some(Tree::Text(text)),
                None => None,
            }
            &&& known_kind(section.scope(), key) == Some(Kind::Bool) ==> lookup(fields, key)
                == match flag_at(fields, key) {
                Some(flag) => Some(Tree::Bool(flag)),
                None => None,
            }
            &&& known_kind(section.scope(), key) is None ==> lookup(
                carried(section.scope(), fields),
                key,
            ) == lookup(fields, key)
        }),
{
    let section = Section::named_by(entries[i].key)->Some_0;
    let fields = table_under(Some(entries[i].value));
    lemma_section_read(rows, entries, entries.len() as int, i);
    lemma_section_in_order(rows, entries, entries.len() as int, i);
    lemma_table_kept(rows, section.scope(), Place::of_section(section), fields, key);
}

/// A section that is a list is decoded without loss. In an accepted
/// document, the list under the section's key is the one that the section is
/// decoded from, and each of its elements is a table of which nothing is
/// lost, as of a section that is a table.
pub proof fn lemma_element_kept(
    rows: Seq<RowView>,
    entries: Seq<Pair>,
    i: int,
    j: int,
    key: Seq<char>,
)
    requires
        0 <= i < entries.len(),
        document_fault(rows, Tree::Table(entries)) is None,
        Section::named_by(entries[i].key) is Some,
        Section::named_by(entries[i].key)->Some_0.is_list(),
        0 <= j < list_under(Some(entries[i].value)).len(),
    ensures
        ({
            let section = Section::named_by(entries[i].key)->Some_0;
            let items = list_under(Some(entries[i].value));
            let fields = table_under(Some(items[j]));
            &&& entries[i].value == Tree::List(items)
            &&& section_value(entries, section, entries.len() as int) == Some(entries[i].value)
            &&& items[j] == Tree::Table(fields)
            &&& section == Section::Proxies ==> lookup(fields, "backend"@) is Some
            &&& known_kind(section.scope(), key) == Some(Kind::Text) ==> lookup(fields, key)
                == match text_at(fields, key) {
                Some(text) => Some(Tree::Text(text)),
                None => None,
            }
            &&& known_kind(section.scope(), key) == Some(Kind::Bool) ==> lookup(fields, key)
                == match flag_at(fields, key) {
                Some(flag) => Some(Tree::Bool(flag)),
                None => None,
            }
            &&& known_kind(section.scope(), key) is None ==> lookup(
                carried(section.scope(), fields),
                key,
            ) == lookup(fields, key)
        }),
{
    let section = Section::named_by(entries[i].key)->Some_0;
    let items = list_under(Some(entries[i].value));
    let fields = table_under(Some(items[j]));
    lemma_section_read(rows, entries, entries.len() as int, i);
    lemma_section_in_order(rows, entries, entries.len() as int, i);
    lemma_element_in_order(rows, section, items, items.len() as int, j);
    lemma_table_kept(
        rows,
        section.scope(),
        Place::of_element(section, j as nat),
        fields,
        key,
    );
}

/// In a list whose first `n` elements are without fault, each of those
/// elements is.
pub proof fn lemma_element_in_order(
    rows: Seq<RowView>,
    section: Section,
    items: Seq<Tree>,
    n: int,
    j: int,
)
    requires
        0 <= j < n <= items.len(),
        list_fault(rows, section, items, n) is None,
    ensures
        element_fault(rows, section, items, j) is None,
    decreases n,
{
    if j < n - 1 {
        lemma_element_in_order(rows, section, items, n - 1, j);
    }
}

/// A table without fault holds no key twice, at any depth.
pub proof fn lemma_table_has_no_repeats(
    rows: Seq<RowView>,
    scope: Scope,
    place: Place,
    entries: Seq<Pair>,
)
    requires
        first_fault(rows, scope, place, entries, entries.len() as int) is None,
    ensures
        !Tree::Table(entries).repeats(),
{
    assert forall|i: int| 0 <= i < entries.len() implies !(key_before(
        entries,
        i,
        (#[trigger] entries[i]).key,
    ) || entries[i].value.repeats()) by {
        lemma_checked_entry(rows, scope, place, entries, entries.len() as int, i);
    }
}

/// A section without fault holds no key twice, at any depth.
pub proof fn lemma_section_has_no_repeats(rows: Seq<RowView>, section: Section, value: Tree)
    requires
        section_fault(rows, section, value) is None,
    ensures
        !value.repeats(),
{
    match value {
        Tree::Table(entries) => {
            lemma_table_has_no_repeats(
                rows,
                section.scope(),
                Place::of_section(section),
                entries,
            );
        },
        Tree::List(items) => {
            assert forall|j: int| 0 <= j < items.len() implies !(#[trigger] items[j]).repeats() by {
                lemma_element_in_order(rows, section, items, items.len() as int, j);
                lemma_table_has_no_repeats(
                    rows,
                    section.scope(),
                    Place::of_element(section, j as nat),
                    table_under(Some(items[j])),
                );
            }
        },
        _ => {},
    }
}

/// The first pass finds no fault in a shorter stretch of entries where it
/// finds none in a longer one.
pub proof fn lemma_capture_fault_before(rows: Seq<RowView>, entries: Seq<Pair>, n: int, m: int)
    requires
        0 <= n <= m,
        capture_fault(rows, entries, m) is None,
    ensures
        capture_fault(rows, entries, n) is None,
    decreases m - n,
{
    if n < m {
        lemma_capture_fault_before(rows, entries, n, m - 1);
    }
}

/// No key stands twice in a document that is accepted: not at its root,
/// where the two spellings of `proxies` count as one key, and in no table
/// within it, at any depth.
pub proof fn lemma_accepted_has_no_repeats(rows: Seq<RowView>, entries: Seq<Pair>)
    requires
        document_fault(rows, Tree::Table(entries)) is None,
    ensures
        !Tree::Table(entries).repeats(),
        forall|j: int, i: int|
            0 <= j < i < entries.len() && Section::named_by(entries[i].key) is Some
                ==> Section::named_by(#[trigger] entries[j].key) != Section::named_by(
                #[trigger] entries[i].key,
            ),
{
    let whole = entries.len() as int;
    let aside = extras(entries);
    assert forall|j: int, i: int|
        0 <= j < i < entries.len() && Section::named_by(entries[i].key) is Some
            implies Section::named_by(#[trigger] entries[j].key) != Section::named_by(
        #[trigger] entries[i].key,
    ) by {
        if Section::named_by(entries[j].key) == Section::named_by(entries[i].key) {
            lemma_capture_fault_before(rows, entries, i + 1, whole);
            lemma_capture_fault_before(rows, entries, i, whole);
            lemma_section_read(rows, entries, i, j);
        }
    }
    assert forall|i: int| 0 <= i < entries.len() implies !(key_before(
        entries,
        i,
        (#[trigger] entries[i]).key,
    ) || entries[i].value.repeats()) by {
        match Section::named_by(entries[i].key) {
            Some(section) => {
                lemma_section_in_order(rows, entries, whole, i);
                lemma_section_has_no_repeats(rows, section, entries[i].value);
                if key_before(entries, i, entries[i].key) {
                    let j = choose|j: int|
                        0 <= j < i && #[trigger] entries[j].key == entries[i].key;
                    assert(Section::named_by(entries[j].key) == Section::named_by(
                        entries[i].key,
                    ));
                }
            },
            None => {
                let at = lemma_set_aside(entries, i);
                lemma_checked_entry(
                    rows,
                    Scope::Core,
                    Place::root(),
                    aside,
                    aside.len() as int,
                    at,
                );
                if key_before(entries, i, entries[i].key) {
                    let j = choose|j: int|
                        0 <= j < i && #[trigger] entries[j].key == entries[i].key;
                    let before = entries.take(i);
                    assert(before[j] == entries[j]);
                    let at_j = lemma_set_aside(before, j);
                    assert(aside.take(at)[at_j] == aside[at_j]);
                    assert(aside[at_j].key == entries[i].key);
                }
            },
        }
    }
}

/// A document that holds sections only gives the core settings of the empty
/// document, and each of its sections is decoded from the value that stands
/// under the section's key.
pub proof fn lemma_sections_only(rows: Seq<RowView>, entries: Seq<Pair>)
    requires
        document_fault(rows, Tree::Table(entries)) is None,
        forall|i: int|
            0 <= i < entries.len() ==> Section::named_by(#[trigger] entries[i].key) is Some,
    ensures
        decoded(Tree::Table(entries)).core == CoreView::empty(),
        forall|i: int|
            0 <= i < entries.len() ==> section_value(
                entries,
                Section::named_by(#[trigger] entries[i].key)->Some_0,
                entries.len() as int,
            ) == Some(entries[i].value),
{
    let aside = |pair: Pair| Section::named_by(pair.key) is None;
    assert(entries.all(|pair: Pair| !aside(pair)));
    entries.lemma_all_neg_filter_empty(aside);
    assert(extras(entries) =~= Seq::<Pair>::empty());
    reveal(Seq::filter);
    assert(carried(Scope::Core, Seq::<Pair>::empty()) =~= Seq::<Pair>::empty());
    assert(text_at(Seq::<Pair>::empty(), "dist"@) is None);
    assert forall|i: int| 0 <= i < entries.len() implies section_value(
        entries,
        Section::named_by(#[trigger] entries[i].key)->Some_0,
        entries.len() as int,
    ) == Some(entries[i].value) by {
        lemma_section_read(rows, entries, entries.len() as int, i);
    }
}

/// Whether two root tables differ at most in how they spell the names of
/// their sections.
pub open spec fn same_but_names(left: Seq<Pair>, right: Seq<Pair>) -> bool {
    &&& left.len() == right.len()
    &&& forall|j: int|
        0 <= j < left.len() ==> {
            &&& (#[trigger] left[j]).value == right[j].value
            &&& Section::named_by(left[j].key) == Section::named_by(right[j].key)
            &&& Section::named_by(left[j].key) is None ==> left[j].key == right[j].key
        }
}

/// Two root tables that differ at most in how they spell the names of their
/// sections give the same sections, entry by entry.
proof fn lemma_same_sections(left: Seq<Pair>, right: Seq<Pair>, section: Section, n: int)
    requires
        same_but_names(left, right),
        0 <= n <= left.len(),
    ensures
        section_value(left, section, n) == section_value(right, section, n),
    decreases n,
{
    if n > 0 {
        lemma_same_sections(left, right, section, n - 1);
        assert(left[n - 1].value == right[n - 1].value);
    }
}

/// Two root tables that differ at most in how they spell the names of their
/// sections have the same first fault in the first pass.
proof fn lemma_same_capture_fault(rows: Seq<RowView>, left: Seq<Pair>, right: Seq<Pair>, n: int)
    requires
        same_but_names(left, right),
        0 <= n <= left.len(),
    ensures
        capture_fault(rows, left, n) == capture_fault(rows, right, n),
    decreases n,
{
    if n > 0 {
        lemma_same_capture_fault(rows, left, right, n - 1);
        assert(left[n - 1].value == right[n - 1].value);
        match Section::named_by(left[n - 1].key) {
            Some(section) => {
                lemma_same_sections(left, right, section, n - 1);
            },
            None => {},
        }
    }
}

/// Two root tables that differ at most in how they spell the names of their
/// sections set the same entries aside.
proof fn lemma_same_extras(left: Seq<Pair>, right: Seq<Pair>)
    requires
        same_but_names(left, right),
    ensures
        extras(left) == extras(right),
    decreases left.len(),
{
    reveal(Seq::filter);
    if left.len() > 0 {
        let n = left.len() - 1;
        assert(left[n].value == right[n].value);
        assert forall|j: int| 0 <= j < n implies {
            &&& (#[trigger] left.drop_last()[j]).value == right.drop_last()[j].value
            &&& Section::named_by(left.drop_last()[j].key) == Section::named_by(
                right.drop_last()[j].key,
            )
            &&& Section::named_by(left.drop_last()[j].key) is None ==> left.drop_last()[j].key
                == right.drop_last()[j].key
        } by {
            assert(left[j].value == right[j].value);
        }
        lemma_same_extras(left.drop_last(), right.drop_last());
    } else {
        assert(left =~= right);
    }
}

/// A section may be named by any of its spellings. Two documents that differ
/// at most in how they spell the names of their sections are refused for the
/// same reason or give the same configuration.
pub proof fn lemma_spelling_is_immaterial(rows: Seq<RowView>, left: Seq<Pair>, right: Seq<Pair>)
    requires
        same_but_names(left, right),
    ensures
        document_fault(rows, Tree::Table(left)) == document_fault(rows, Tree::Table(right)),
        decoded(Tree::Table(left)) == decoded(Tree::Table(right)),
{
    let n = left.len() as int;
    lemma_same_capture_fault(rows, left, right, n);
    lemma_same_extras(left, right);
    lemma_same_sections(left, right, Section::Build, n);
    lemma_same_sections(left, right, Section::Tools, n);
    lemma_same_sections(left, right, Section::Hooks, n);
    lemma_same_sections(left, right, Section::Watch, n);
    lemma_same_sections(left, right, Section::Serve, n);
    lemma_same_sections(left, right, Section::Clean, n);
    lemma_same_sections(left, right, Section::Proxies, n);
}

/// The older key `proxy` stands for `proxies`: a document that uses it is
/// refused for the same reason, or gives the same configuration, as the
/// document that says `proxies` in its place.
pub proof fn lemma_proxy_is_proxies(rows: Seq<RowView>, entries: Seq<Pair>, i: int)
    requires
        0 <= i < entries.len(),
        entries[i].key == "proxy"@,
    ensures
        ({
            let renamed = entries.update(i, Pair { key: "proxies"@, value: entries[i].value });
            &&& document_fault(rows, Tree::Table(entries)) == document_fault(
                rows,
                Tree::Table(renamed),
            )
            &&& decoded(Tree::Table(entries)) == decoded(Tree::Table(renamed))
        }),
{
    let renamed = entries.update(i, Pair { key: "proxies"@, value: entries[i].value });
    reveal_strlit("proxy");
    reveal_strlit("proxies");
    reveal_strlit("build");
    reveal_strlit("tools");
    reveal_strlit("hooks");
    reveal_strlit("watch");
    reveal_strlit("serve");
    reveal_strlit("clean");
    assert("proxy"@[0] == 'p' && "proxy"@.len() == 5 && "proxies"@.len() == 7);
    assert("build"@[0] == 'b' && "tools"@[0] == 't' && "hooks"@[0] == 'h');
    assert("watch"@[0] == 'w' && "serve"@[0] == 's' && "clean"@[0] == 'c');
    assert(Section::named_by("proxy"@) == Some(Section::Proxies));
    assert(Section::named_by("proxies"@) == Some(Section::Proxies));
    lemma_spelling_is_immaterial(rows, entries, renamed);
}

} // verus!
