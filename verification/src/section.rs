//! Decoding each section of the document from the raw value under its key.

use vstd::prelude::*;
use crate::error::{DecodeError, Fault, FieldPath, Place};
use crate::model::{
    Build, Clean, CleanView, Core, CoreView, Hook, Hooks, Proxies, Proxy, ProxyView, Serve,
    ServeView, Tools, Watch,
};
use crate::schema::{Kind, RowView, Schema, Scope, Section};
use crate::table::{carried, carry, check_table, first_fault};
use crate::value::{
    find, find_flag, find_text, flag_at, lemma_list_view, lemma_table_view, lookup, pairs, text_at,
    trees, Entry, Pair, Tree, Value,
};

verus! {

/// Whether a table of `scope` must have the field `backend`.
pub open spec fn needs_backend(scope: Scope) -> bool {
    scope == Scope::Proxy
}

/// What is wrong with a table of `scope` that stands at `place`, if
/// anything: the fault of its first faulty entry, or, where the entries are
/// in order, a field that the table must have and lacks.
pub open spec fn table_fault(
    rows: Seq<RowView>,
    scope: Scope,
    place: Place,
    entries: Seq<Pair>,
) -> Option<Fault> {
    match first_fault(rows, scope, place, entries, entries.len() as int) {
        Some(fault) => Some(fault),
        None => if needs_backend(scope) && lookup(entries, "backend"@) is None {
            Some(Fault::MissingField { place: place.field("backend"@) })
        } else {
            None
        },
    }
}

/// What is wrong with the element `i` of a section that is a list: it is no
/// table, or the table is faulty.
pub open spec fn element_fault(
    rows: Seq<RowView>,
    section: Section,
    items: Seq<Tree>,
    i: int,
) -> Option<Fault> {
    let place = Place::of_element(section, i as nat);
    match items[i] {
        Tree::Table(entries) => table_fault(rows, section.scope(), place, entries),
        other => Some(
            Fault::FieldType { place, expected: Kind::Table, found: other.kind() },
        ),
    }
}

/// The fault of the first faulty element among the first `n`.
pub open spec fn list_fault(
    rows: Seq<RowView>,
    section: Section,
    items: Seq<Tree>,
    n: int,
) -> Option<Fault>
    decreases n,
{
    if n <= 0 {
        None
    } else {
        match list_fault(rows, section, items, n - 1) {
            Some(fault) => Some(fault),
            None => element_fault(rows, section, items, n - 1),
        }
    }
}

/// What is wrong with the value that stands under a section's key, if
/// anything: it is not of the section's kind, or something in it is faulty.
pub open spec fn section_fault(rows: Seq<RowView>, section: Section, value: Tree) -> Option<Fault> {
    match value {
        Tree::Table(entries) if !section.is_list() => table_fault(
            rows,
            section.scope(),
            Place::of_section(section),
            entries,
        ),
        Tree::List(items) if section.is_list() => list_fault(
            rows,
            section,
            items,
            items.len() as int,
        ),
        other => Some(
            Fault::FieldType {
                place: Place::of_section(section),
                expected: section.kind(),
                found: other.kind(),
            },
        ),
    }
}

/// The entries of the table that stands under a section's key; none where
/// the section is absent.
pub open spec fn table_under(value: Option<Tree>) -> Seq<Pair> {
    match value {
        Some(Tree::Table(entries)) => entries,
        _ => Seq::empty(),
    }
}

/// The elements of the list that stands under a section's key; none where
/// the section is absent.
pub open spec fn list_under(value: Option<Tree>) -> Seq<Tree> {
    match value {
        Some(Tree::List(items)) => items,
        _ => Seq::empty(),
    }
}

/// The core settings that a table gives.
pub open spec fn core_of(entries: Seq<Pair>) -> CoreView {
    CoreView { dist: text_at(entries, "dist"@), settings: carried(Scope::Core, entries) }
}

/// The section `serve` that a table gives.
pub open spec fn serve_of(entries: Seq<Pair>) -> ServeView {
    ServeView {
        proxy_backend: text_at(entries, "proxy_backend"@),
        proxy_rewrite: text_at(entries, "proxy_rewrite"@),
        proxy_ws: flag_at(entries, "proxy_ws"@),
        proxy_insecure: flag_at(entries, "proxy_insecure"@),
        proxy_no_system_proxy: flag_at(entries, "proxy_no_system_proxy"@),
        settings: carried(Scope::Serve, entries),
    }
}

/// The section `clean` that a table gives.
pub open spec fn clean_of(entries: Seq<Pair>) -> CleanView {
    CleanView { dist: text_at(entries, "dist"@), settings: carried(Scope::Clean, entries) }
}

/// The text of an optional text; the empty text where there is none.
pub open spec fn text_or_empty(text: Option<Seq<char>>) -> Seq<char> {
    match text {
        Some(text) => text,
        None => Seq::empty(),
    }
}

/// The flag of an optional flag; `false` where there is none.
pub open spec fn flag_or_false(flag: Option<bool>) -> bool {
    match flag {
        Some(flag) => flag,
        None => false,
    }
}

/// The proxy that a table gives. A flag that the table leaves out is off.
pub open spec fn proxy_of(entries: Seq<Pair>) -> ProxyView {
    ProxyView {
        backend: text_or_empty(text_at(entries, "backend"@)),
        rewrite: text_at(entries, "rewrite"@),
        ws: flag_or_false(flag_at(entries, "ws"@)),
        insecure: flag_or_false(flag_at(entries, "insecure"@)),
        no_system_proxy: flag_or_false(flag_at(entries, "no_system_proxy"@)),
        settings: carried(Scope::Proxy, entries),
    }
}

/// The proxies that a list of tables gives, in the list's order.
pub open spec fn proxies_of(items: Seq<Tree>) -> Seq<ProxyView> {
    items.map_values(|item: Tree| proxy_of(table_under(Some(item))))
}

/// The hooks that a list of tables gives, in the list's order.
pub open spec fn hooks_of(items: Seq<Tree>) -> Seq<Seq<Pair>> {
    items.map_values(|item: Tree| carried(Scope::Hook, table_under(Some(item))))
}

/// Checks the entries of a table of `scope` that stands at `path`, and that
/// the table has the fields it must have.
pub fn check_whole_table(
    schema: &Schema,
    scope: Scope,
    path: &FieldPath,
    entries: &Vec<Entry>,
) -> (checked: Result<(), DecodeError>)
    ensures
        match checked {
            Ok(_) => table_fault(schema@, scope, path@, pairs(entries@)) is None,
            Err(error) => table_fault(schema@, scope, path@, pairs(entries@)) == Some(error@),
        },
{
    check_table(schema, scope, path, entries)?;
    if scope == Scope::Proxy && find(entries, "backend").is_none() {
        let key = "backend".to_owned();
        return Err(DecodeError::MissingField { path: path.field(&key) });
    }
    Ok(())
}

/// The entries of the table `value`, checked against the fields of `scope`;
/// `path` is where the table stands.
fn checked_entries<'a>(
    schema: &Schema,
    scope: Scope,
    path: &FieldPath,
    value: &'a Value,
) -> (checked: Result<&'a Vec<Entry>, DecodeError>)
    requires
        path@.field is None,
    ensures
        match checked {
            Ok(entries) => value@ == Tree::Table(pairs(entries@)) && table_fault(
                schema@,
                scope,
                path@,
                pairs(entries@),
            ) is None,
            Err(error) => match value@ {
                Tree::Table(entries) => table_fault(schema@, scope, path@, entries) == Some(
                    error@,
                ),
                other => error@ == (Fault::FieldType {
                    place: path@,
                    expected: Kind::Table,
                    found: other.kind(),
                }),
            },
        },
{
    match value {
        Value::Table(entries) => {
            proof {
                lemma_table_view(*value);
            }
            check_whole_table(schema, scope, path, entries)?;
            Ok(entries)
        },
        other => Err(
            DecodeError::FieldType {
                path: FieldPath { section: path.section, index: path.index, field: None },
                expected: Kind::Table,
                found: other.kind(),
            },
        ),
    }
}

impl Core {
    /// The core settings out of the root keys that name no section.
    pub fn decode(schema: &Schema, extras: &Vec<Entry>) -> (decoded: Result<Core, DecodeError>)
        ensures
            match decoded {
                Ok(core) => table_fault(schema@, Scope::Core, Place::root(), pairs(extras@))
                    is None && core@ == core_of(pairs(extras@)),
                Err(error) => table_fault(schema@, Scope::Core, Place::root(), pairs(extras@))
                    == Some(error@),
            },
    {
        check_whole_table(schema, Scope::Core, &FieldPath::root(), extras)?;
        Ok(Core { dist: find_text(extras, "dist"), settings: carry(Scope::Core, extras) })
    }
}

impl Build {
    /// The section out of the value under its key.
    pub fn decode(schema: &Schema, value: &Value) -> (decoded: Result<Build, DecodeError>)
        ensures
            match decoded {
                Ok(build) => section_fault(schema@, Section::Build, value@) is None && build@
                    == carried(Scope::Build, table_under(Some(value@))),
                Err(error) => section_fault(schema@, Section::Build, value@) == Some(error@),
            },
    {
        let path = FieldPath::of_section(Section::Build);
        let entries = checked_entries(schema, Scope::Build, &path, value)?;
        Ok(Build { settings: carry(Scope::Build, entries) })
    }
}

impl Tools {
    /// The section out of the value under its key.
    pub fn decode(schema: &Schema, value: &Value) -> (decoded: Result<Tools, DecodeError>)
        ensures
            match decoded {
                Ok(tools) => section_fault(schema@, Section::Tools, value@) is None && tools@
                    == carried(Scope::Tools, table_under(Some(value@))),
                Err(error) => section_fault(schema@, Section::Tools, value@) == Some(error@),
            },
    {
        let path = FieldPath::of_section(Section::Tools);
        let entries = checked_entries(schema, Scope::Tools, &path, value)?;
        Ok(Tools { settings: carry(Scope::Tools, entries) })
    }
}

impl Watch {
    /// The section out of the value under its key.
    pub fn decode(schema: &Schema, value: &Value) -> (decoded: Result<Watch, DecodeError>)
        ensures
            match decoded {
                Ok(watch) => section_fault(schema@, Section::Watch, value@) is None && watch@
                    == carried(Scope::Watch, table_under(Some(value@))),
                Err(error) => section_fault(schema@, Section::Watch, value@) == Some(error@),
            },
    {
        let path = FieldPath::of_section(Section::Watch);
        let entries = checked_entries(schema, Scope::Watch, &path, value)?;
        Ok(Watch { settings: carry(Scope::Watch, entries) })
    }
}

impl Serve {
    /// The section out of the value under its key.
    pub fn decode(schema: &Schema, value: &Value) -> (decoded: Result<Serve, DecodeError>)
        ensures
            match decoded {
                Ok(serve) => section_fault(schema@, Section::Serve, value@) is None && serve@
                    == serve_of(table_under(Some(value@))),
                Err(error) => section_fault(schema@, Section::Serve, value@) == Some(error@),
            },
    {
        let path = FieldPath::of_section(Section::Serve);
        let entries = checked_entries(schema, Scope::Serve, &path, value)?;
        Ok(
            Serve {
                proxy_backend: find_text(entries, "proxy_backend"),
                proxy_rewrite: find_text(entries, "proxy_rewrite"),
                proxy_ws: find_flag(entries, "proxy_ws"),
                proxy_insecure: find_flag(entries, "proxy_insecure"),
                proxy_no_system_proxy: find_flag(entries, "proxy_no_system_proxy"),
                settings: carry(Scope::Serve, entries),
            },
        )
    }
}

impl Clean {
    /// The section out of the value under its key.
    pub fn decode(schema: &Schema, value: &Value) -> (decoded: Result<Clean, DecodeError>)
        ensures
            match decoded {
                Ok(clean) => section_fault(schema@, Section::Clean, value@) is None && clean@
                    == clean_of(table_under(Some(value@))),
                Err(error) => section_fault(schema@, Section::Clean, value@) == Some(error@),
            },
    {
        let path = FieldPath::of_section(Section::Clean);
        let entries = checked_entries(schema, Scope::Clean, &path, value)?;
        Ok(Clean { dist: find_text(entries, "dist"), settings: carry(Scope::Clean, entries) })
    }
}

impl Proxy {
    /// The proxy that the entries of a table give.
    fn of_entries(entries: &Vec<Entry>) -> (proxy: Proxy)
        ensures
            proxy@ == proxy_of(pairs(entries@)),
    {
        let backend = match find_text(entries, "backend") {
            Some(text) => text,
            None => String::new(),
        };
        let ws = match find_flag(entries, "ws") {
            Some(flag) => flag,
            None => false,
        };
        let insecure = match find_flag(entries, "insecure") {
            Some(flag) => flag,
            None => false,
        };
        let no_system_proxy = match find_flag(entries, "no_system_proxy") {
            Some(flag) => flag,
            None => false,
        };
        Proxy {
            backend,
            rewrite: find_text(entries, "rewrite"),
            ws,
            insecure,
            no_system_proxy,
            settings: carry(Scope::Proxy, entries),
        }
    }
}

impl Proxies {
    /// The section out of the value under its key.
    pub fn decode(schema: &Schema, value: &Value) -> (decoded: Result<Proxies, DecodeError>)
        ensures
            match decoded {
                Ok(proxies) => section_fault(schema@, Section::Proxies, value@) is None
                    && proxies@ == proxies_of(list_under(Some(value@))),
                Err(error) => section_fault(schema@, Section::Proxies, value@) == Some(error@),
            },
    {
        match value {
            Value::List(items) => {
                proof {
                    lemma_list_view(*value);
                }
                let mut out: Vec<Proxy> = Vec::new();
                let mut i: usize = 0;
                while i < items.len()
                    invariant
                        i <= items@.len(),
                        out@.len() == i,
                        value@ == Tree::List(trees(items@)),
                        list_fault(schema@, Section::Proxies, trees(items@), i as int) is None,
                        forall|j: int|
                            0 <= j < i ==> (#[trigger] out@[j])@ == proxy_of(
                                table_under(Some(items@[j]@)),
                            ),
                    decreases items@.len() - i,
                {
                    let path = FieldPath::of_element(Section::Proxies, i);
                    assert(trees(items@)[i as int] == items@[i as int]@);
                    match checked_entries(schema, Scope::Proxy, &path, &items[i]) {
                        Ok(entries) => {
                            out.push(Proxy::of_entries(entries));
                        },
                        Err(error) => {
                            proof {
                                lemma_list_fault_stays(
                                    schema@,
                                    Section::Proxies,
                                    trees(items@),
                                    i as int + 1,
                                    items@.len() as int,
                                );
                            }
                            return Err(error);
                        },
                    }
                    i += 1;
                }
                let proxies = Proxies(out);
                assert(proxies@ =~= proxies_of(trees(items@)));
                Ok(proxies)
            },
            other => Err(
                DecodeError::FieldType {
                    path: FieldPath::of_section(Section::Proxies),
                    expected: Kind::List,
                    found: other.kind(),
                },
            ),
        }
    }
}

impl Hooks {
    /// The section out of the value under its key.
    pub fn decode(schema: &Schema, value: &Value) -> (decoded: Result<Hooks, DecodeError>)
        ensures
            match decoded {
                Ok(hooks) => section_fault(schema@, Section::Hooks, value@) is None && hooks@
                    == hooks_of(list_under(Some(value@))),
                Err(error) => section_fault(schema@, Section::Hooks, value@) == Some(error@),
            },
    {
        match value {
            Value::List(items) => {
                proof {
                    lemma_list_view(*value);
                }
                let mut out: Vec<Hook> = Vec::new();
                let mut i: usize = 0;
                while i < items.len()
                    invariant
                        i <= items@.len(),
                        out@.len() == i,
                        value@ == Tree::List(trees(items@)),
                        list_fault(schema@, Section::Hooks, trees(items@), i as int) is None,
                        forall|j: int|
                            0 <= j < i ==> (#[trigger] out@[j])@ == carried(
                                Scope::Hook,
                                table_under(Some(items@[j]@)),
                            ),
                    decreases items@.len() - i,
                {
                    let path = FieldPath::of_element(Section::Hooks, i);
                    assert(trees(items@)[i as int] == items@[i as int]@);
                    match checked_entries(schema, Scope::Hook, &path, &items[i]) {
                        Ok(entries) => {
                            out.push(Hook { settings: carry(Scope::Hook, entries) });
                        },
                        Err(error) => {
                            proof {
                                lemma_list_fault_stays(
                                    schema@,
                                    Section::Hooks,
                                    trees(items@),
                                    i as int + 1,
                                    items@.len() as int,
                                );
                            }
                            return Err(error);
                        },
                    }
                    i += 1;
                }
                let hooks = Hooks(out);
                assert(hooks@ =~= hooks_of(trees(items@)));
                Ok(hooks)
            },
            other => Err(
                DecodeError::FieldType {
                    path: FieldPath::of_section(Section::Hooks),
                    expected: Kind::List,
                    found: other.kind(),
                },
            ),
        }
    }
}

/// Once a faulty element is found among the first `n`, its fault stays the
/// first of every longer stretch.
pub proof fn lemma_list_fault_stays(
    rows: Seq<RowView>,
    section: Section,
    items: Seq<Tree>,
    n: int,
    m: int,
)
    requires
        n <= m,
        list_fault(rows, section, items, n) is Some,
    ensures
        list_fault(rows, section, items, m) == list_fault(rows, section, items, n),
    decreases m - n,
{
    if n < m {
        lemma_list_fault_stays(rows, section, items, n, m - 1);
    }
}

} // verus!
