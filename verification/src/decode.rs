//! Decoding the whole document in two passes.
//!
//! The first pass walks the root table once. A key that names a section has
//! its value decoded as that section; every other key is set aside, with its
//! value untouched. The second pass decodes what was set aside as the core
//! settings, which accept only their own fields. So a key is accepted at the
//! root exactly if it names a section or is a core field, although the core
//! settings have no key of their own.

use vstd::prelude::*;
use crate::error::{DecodeError, Fault, FieldPath, Place};
use crate::model::{
    Build, Clean, Configuration, Core, CoreView, Hooks, Proxies, Serve, Settled, Tools, Watch,
};
use crate::schema::{Kind, RowView, Schema, Scope, Section};
use crate::section::{
    clean_of, core_of, hooks_of, list_under, proxies_of, section_fault, serve_of, table_fault,
    table_under,
};
use crate::table::carried;
use crate::value::{lemma_table_view, pairs, Entry, Pair, Tree, Value};

verus! {

/// The value under the key that names `section` among the first `n` entries
/// of the root table, or `None` where none of them names it.
pub open spec fn section_value(entries: Seq<Pair>, section: Section, n: int) -> Option<Tree>
    decreases n,
{
    if n <= 0 {
        None
    } else if Section::named_by(entries[n - 1].key) == Some(section) {
        Some(entries[n - 1].value)
    } else {
        section_value(entries, section, n - 1)
    }
}

/// What the first pass finds wrong with the entry `i` of the root table, if
/// anything: it names a section that an earlier entry named, or the section
/// under it is faulty. An entry that names no section is set aside unread.
pub open spec fn capture_fault_at(rows: Seq<RowView>, entries: Seq<Pair>, i: int) -> Option<Fault> {
    match Section::named_by(entries[i].key) {
        None => None,
        Some(section) => if section_value(entries, section, i) is Some {
            Some(Fault::DuplicateKey { place: Place::of_section(section) })
        } else {
            section_fault(rows, section, entries[i].value)
        },
    }
}

/// The first fault that the first pass finds among the first `n` entries of
/// the root table.
pub open spec fn capture_fault(rows: Seq<RowView>, entries: Seq<Pair>, n: int) -> Option<Fault>
    decreases n,
{
    if n <= 0 {
        None
    } else {
        match capture_fault(rows, entries, n - 1) {
            Some(fault) => Some(fault),
            None => capture_fault_at(rows, entries, n - 1),
        }
    }
}

/// The entries of the root table that name no section, in the order of the
/// document.
pub open spec fn extras(entries: Seq<Pair>) -> Seq<Pair> {
    entries.filter(|pair: Pair| Section::named_by(pair.key) is None)
}

/// Why the document is refused, or `None` where it is accepted: the root is
/// no table, or the first pass finds a fault, or else the second pass does.
pub open spec fn document_fault(rows: Seq<RowView>, document: Tree) -> Option<Fault> {
    match document {
        Tree::Table(entries) => match capture_fault(rows, entries, entries.len() as int) {
            Some(fault) => Some(fault),
            None => table_fault(rows, Scope::Core, Place::root(), extras(entries)),
        },
        other => Some(
            Fault::FieldType {
                place: Place::root(),
                expected: Kind::Table,
                found: other.kind(),
            },
        ),
    }
}

/// The sections that the first `n` entries of the root table give; a section
/// that none of them names is empty. The core settings are left empty.
pub open spec fn sections_of(entries: Seq<Pair>, n: int) -> Settled {
    Settled {
        core: CoreView::empty(),
        build: carried(Scope::Build, table_under(section_value(entries, Section::Build, n))),
        tools: carried(Scope::Tools, table_under(section_value(entries, Section::Tools, n))),
        hooks: hooks_of(list_under(section_value(entries, Section::Hooks, n))),
        watch: carried(Scope::Watch, table_under(section_value(entries, Section::Watch, n))),
        serve: serve_of(table_under(section_value(entries, Section::Serve, n))),
        clean: clean_of(table_under(section_value(entries, Section::Clean, n))),
        proxies: proxies_of(list_under(section_value(entries, Section::Proxies, n))),
    }
}

/// The configuration that an accepted document gives.
pub open spec fn decoded(document: Tree) -> Settled {
    let entries = table_under(Some(document));
    let sections = sections_of(entries, entries.len() as int);
    Settled {
        core: core_of(extras(entries)),
        build: sections.build,
        tools: sections.tools,
        hooks: sections.hooks,
        watch: sections.watch,
        serve: sections.serve,
        clean: sections.clean,
        proxies: sections.proxies,
    }
}

/// Whether one of the first `i` entries names `section`.
pub fn names_before(entries: &Vec<Entry>, i: usize, section: Section) -> (named: bool)
    requires
        i <= entries@.len(),
    ensures
        named == (section_value(pairs(entries@), section, i as int) is Some),
{
    let mut j: usize = i;
    while j > 0
        invariant
            j <= i <= entries@.len(),
            section_value(pairs(entries@), section, i as int) == section_value(
                pairs(entries@),
                section,
                j as int,
            ),
        decreases j,
    {
        j -= 1;
        assert(pairs(entries@)[j as int].key == entries@[j as int].key@);
        if Section::from_key(&entries[j].key) == Some(section) {
            return true;
        }
    }
    false
}

/// Once the first pass has found a fault among the first `n` entries, it
/// stays the first of every longer stretch.
pub proof fn lemma_capture_fault_stays(rows: Seq<RowView>, entries: Seq<Pair>, n: int, m: int)
    requires
        n <= m,
        capture_fault(rows, entries, n) is Some,
    ensures
        capture_fault(rows, entries, m) == capture_fault(rows, entries, n),
    decreases m - n,
{
    if n < m {
        lemma_capture_fault_stays(rows, entries, n, m - 1);
    }
}

/// The first pass: decodes every section that the root table names and sets
/// the other entries aside, in the order of the document. The first entry
/// that is not in order decides the error.
pub fn capture(schema: &Schema, entries: &Vec<Entry>) -> (captured: Result<
    (Configuration, Vec<Entry>),
    DecodeError,
>)
    ensures
        match captured {
            Ok((sections, aside)) => capture_fault(
                schema@,
                pairs(entries@),
                entries@.len() as int,
            ) is None && sections@ == sections_of(pairs(entries@), entries@.len() as int)
                && pairs(aside@) == extras(pairs(entries@)),
            Err(error) => capture_fault(schema@, pairs(entries@), entries@.len() as int) == Some(
                error@,
            ),
        },
{
    let mut sections = Configuration::default();
    let mut aside: Vec<Entry> = Vec::new();
    let mut i: usize = 0;
    proof {
        reveal(Seq::filter);
        assert(pairs(entries@).take(0) =~= Seq::<Pair>::empty());
        assert(pairs(aside@) =~= Seq::<Pair>::empty());
        lemma_no_section_is_empty(pairs(entries@));
    }
    while i < entries.len()
        invariant
            i <= entries@.len(),
            capture_fault(schema@, pairs(entries@), i as int) is None,
            sections@ == sections_of(pairs(entries@), i as int),
            pairs(aside@) == extras(pairs(entries@).take(i as int)),
        decreases entries@.len() - i,
    {
        let entry = &entries[i];
        let ghost before = pairs(aside@);
        proof {
            reveal(Seq::filter);
            let next = pairs(entries@).take(i as int + 1);
            assert(next.drop_last() =~= pairs(entries@).take(i as int));
            assert(next.last() == entry@);
            assert(pairs(entries@)[i as int] == entry@);
        }
        match Section::from_key(&entry.key) {
            None => {
                aside.push(Entry { key: entry.key.clone(), value: entry.value.duplicate() });
                assert(pairs(aside@) =~= before.push(entry@));
            },
            Some(section) => {
                if names_before(entries, i, section) {
                    proof {
                        lemma_capture_fault_stays(
                            schema@,
                            pairs(entries@),
                            i as int + 1,
                            entries@.len() as int,
                        );
                    }
                    return Err(
                        DecodeError::DuplicateKey { path: FieldPath::of_section(section) },
                    );
                }
                let done = match section {
                    Section::Build => match Build::decode(schema, &entry.value) {
                        Ok(build) => {
                            sections.build = build;
                            Ok(())
                        },
                        Err(error) => Err(error),
                    },
                    Section::Tools => match Tools::decode(schema, &entry.value) {
                        Ok(tools) => {
                            sections.tools = tools;
                            Ok(())
                        },
                        Err(error) => Err(error),
                    },
                    Section::Hooks => match Hooks::decode(schema, &entry.value) {
                        Ok(hooks) => {
                            sections.hooks = hooks;
                            Ok(())
                        },
                        Err(error) => Err(error),
                    },
                    Section::Watch => match Watch::decode(schema, &entry.value) {
                        Ok(watch) => {
                            sections.watch = watch;
                            Ok(())
                        },
                        Err(error) => Err(error),
                    },
                    Section::Serve => match Serve::decode(schema, &entry.value) {
                        Ok(serve) => {
                            sections.serve = serve;
                            Ok(())
                        },
                        Err(error) => Err(error),
                    },
                    Section::Clean => match Clean::decode(schema, &entry.value) {
                        Ok(clean) => {
                            sections.clean = clean;
                            Ok(())
                        },
                        Err(error) => Err(error),
                    },
                    Section::Proxies => match Proxies::decode(schema, &entry.value) {
                        Ok(proxies) => {
                            sections.proxies = proxies;
                            Ok(())
                        },
                        Err(error) => Err(error),
                    },
                };
                match done {
                    Ok(_) => {},
                    Err(error) => {
                        proof {
                            lemma_capture_fault_stays(
                                schema@,
                                pairs(entries@),
                                i as int + 1,
                                entries@.len() as int,
                            );
                        }
                        return Err(error);
                    },
                }
            },
        }
        i += 1;
    }
    assert(pairs(entries@).take(entries@.len() as int) =~= pairs(entries@));
    Ok((sections, aside))
}

/// A root table of which no entry is read gives empty sections.
proof fn lemma_no_section_is_empty(entries: Seq<Pair>)
    ensures
        sections_of(entries, 0) == Settled::empty(),
{
    reveal(Seq::filter);
    assert(hooks_of(Seq::empty()) =~= Seq::empty());
    assert(proxies_of(Seq::empty()) =~= Seq::empty());
}

impl Configuration {
    /// Decodes the document against `schema`. The document is accepted
    /// exactly if it is a table of which every key names a section or is a
    /// core field, no key stands twice, and every value is of the kind that
    /// the schema asks for; what is accepted is decoded without loss.
    pub fn deserialize(document: &Value, schema: &Schema) -> (decoded: Result<
        Configuration,
        DecodeError,
    >)
        ensures
            match decoded {
                Ok(config) => document_fault(schema@, document@) is None && config@
                    == self::decoded(document@),
                Err(error) => document_fault(schema@, document@) == Some(error@),
            },
    {
        match document {
            Value::Table(entries) => {
                proof {
                    lemma_table_view(*document);
                }
                let (sections, aside) = capture(schema, entries)?;
                let core = Core::decode(schema, &aside)?;
                Ok(
                    Configuration {
                        core,
                        build: sections.build,
                        tools: sections.tools,
                        hooks: sections.hooks,
                        watch: sections.watch,
                        serve: sections.serve,
                        clean: sections.clean,
                        proxies: sections.proxies,
                    },
                )
            },
            other => Err(
                DecodeError::FieldType {
                    path: FieldPath::root(),
                    expected: Kind::Table,
                    found: other.kind(),
                },
            ),
        }
    }
}

} // verus!
