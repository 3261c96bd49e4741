//! The shape of the configuration document: its sections, the fields each
//! table may hold and the kind of value each field takes.
//!
//! Everything that decides whether a key is accepted is derived from the one
//! table in this file, so the shape that is published and the shape that is
//! decoded cannot drift apart.

use vstd::prelude::*;
use crate::text::spells;

verus! {

/// The kind of value that a field of the document holds.
#[derive(Clone, Copy, Debug, PartialEq, Eq, Structural)]
pub enum Kind {
    Bool,
    Integer,
    Text,
    List,
    Table,
}

/// A named section of the document. Every root key that names none of these
/// belongs to the core settings.
#[derive(Clone, Copy, Debug, PartialEq, Eq, Structural)]
pub enum Section {
    Build,
    Tools,
    Hooks,
    Watch,
    Serve,
    Clean,
    Proxies,
}

/// A table of the document whose fields the schema lists: the core settings
/// at the root, a section that is a table, or one element of a section that
/// is a list.
#[derive(Clone, Copy, Debug, PartialEq, Eq, Structural)]
pub enum Scope {
    Core,
    Build,
    Tools,
    Hook,
    Watch,
    Serve,
    Clean,
    Proxy,
}

impl Section {
    /// The key under which the section stands in the document.
    pub open spec fn name(self) -> Seq<char> {
        match self {
            Section::Build => "build"@,
            Section::Tools => "tools"@,
            Section::Hooks => "hooks"@,
            Section::Watch => "watch"@,
            Section::Serve => "serve"@,
            Section::Clean => "clean"@,
            Section::Proxies => "proxies"@,
        }
    }

    /// The section that a root key names, if any. `proxy` is an older
    /// spelling of `proxies` and names the same section.
    pub open spec fn named_by(key: Seq<char>) -> Option<Section> {
        if key == "build"@ {
            Some(Section::Build)
        } else if key == "tools"@ {
            Some(Section::Tools)
        } else if key == "hooks"@ {
            Some(Section::Hooks)
        } else if key == "watch"@ {
            Some(Section::Watch)
        } else if key == "serve"@ {
            Some(Section::Serve)
        } else if key == "clean"@ {
            Some(Section::Clean)
        } else if key == "proxies"@ || key == "proxy"@ {
            Some(Section::Proxies)
        } else {
            None
        }
    }

    /// Whether the section is a list of tables rather than one table.
    pub open spec fn is_list(self) -> bool {
        self == Section::Hooks || self == Section::Proxies
    }

    /// The table whose fields the section, or each of its elements, holds.
    pub open spec fn scope(self) -> Scope {
        match self {
            Section::Build => Scope::Build,
            Section::Tools => Scope::Tools,
            Section::Hooks => Scope::Hook,
            Section::Watch => Scope::Watch,
            Section::Serve => Scope::Serve,
            Section::Clean => Scope::Clean,
            Section::Proxies => Scope::Proxy,
        }
    }

    /// The kind of value that the section's key takes.
    pub open spec fn kind(self) -> Kind {
        if self.is_list() {
            Kind::List
        } else {
            Kind::Table
        }
    }

    /// The section that a root key names, if any.
    pub fn from_key(key: &String) -> (section: Option<Section>)
        ensures
            section == Section::named_by(key@),
    {
        if spells(key, "build") {
            Some(Section::Build)
        } else if spells(key, "tools") {
            Some(Section::Tools)
        } else if spells(key, "hooks") {
            Some(Section::Hooks)
        } else if spells(key, "watch") {
            Some(Section::Watch)
        } else if spells(key, "serve") {
            Some(Section::Serve)
        } else if spells(key, "clean") {
            Some(Section::Clean)
        } else if spells(key, "proxies") || spells(key, "proxy") {
            Some(Section::Proxies)
        } else {
            None
        }
    }

    /// The key under which the section stands in the document.
    pub fn key(self) -> (name: String)
        ensures
            name@ == self.name(),
    {
        match self {
            Section::Build => "build".to_owned(),
            Section::Tools => "tools".to_owned(),
            Section::Hooks => "hooks".to_owned(),
            Section::Watch => "watch".to_owned(),
            Section::Serve => "serve".to_owned(),
            Section::Clean => "clean".to_owned(),
            Section::Proxies => "proxies".to_owned(),
        }
    }
}

/// A field of a table: its name and the kind of value it takes.
#[derive(Clone, Debug, PartialEq, Eq)]
pub struct Field {
    pub name: String,
    pub kind: Kind,
}

/// The mathematical content of a [`Field`].
pub struct FieldView {
    pub name: Seq<char>,
    pub kind: Kind,
}

impl View for Field {
    type V = FieldView;

    open spec fn view(&self) -> FieldView {
        FieldView { name: self.name@, kind: self.kind }
    }
}

/// The fields of `scope` that every schema knows. These are the fields that
/// the configuration holds as fields of its own.
pub open spec fn known_fields(scope: Scope) -> Seq<FieldView> {
    match scope {
        Scope::Core | Scope::Clean => seq![FieldView { name: "dist"@, kind: Kind::Text }],
        Scope::Serve => seq![
            FieldView { name: "proxy_backend"@, kind: Kind::Text },
            FieldView { name: "proxy_rewrite"@, kind: Kind::Text },
            FieldView { name: "proxy_ws"@, kind: Kind::Bool },
            FieldView { name: "proxy_insecure"@, kind: Kind::Bool },
            FieldView { name: "proxy_no_system_proxy"@, kind: Kind::Bool },
        ],
        Scope::Proxy => seq![
            FieldView { name: "backend"@, kind: Kind::Text },
            FieldView { name: "rewrite"@, kind: Kind::Text },
            FieldView { name: "ws"@, kind: Kind::Bool },
            FieldView { name: "insecure"@, kind: Kind::Bool },
            FieldView { name: "no_system_proxy"@, kind: Kind::Bool },
        ],
        _ => Seq::empty(),
    }
}

/// The kind of the first of `fields` that is called `key`, or `None` where
/// none is.
pub open spec fn kind_in(fields: Seq<FieldView>, key: Seq<char>) -> Option<Kind>
    decreases fields.len(),
{
    if fields.len() == 0 {
        None
    } else if fields[0].name == key {
        Some(fields[0].kind)
    } else {
        kind_in(fields.drop_first(), key)
    }
}

/// The kind of a field that every schema knows, or `None` where `key` is no
/// such field of `scope`.
pub open spec fn known_kind(scope: Scope, key: Seq<char>) -> Option<Kind> {
    kind_in(known_fields(scope), key)
}

/// What `kind_in` finds in a list of five fields.
proof fn lemma_kind_in_five(fields: Seq<FieldView>, key: Seq<char>)
    requires
        fields.len() == 5,
    ensures
        kind_in(fields, key) == if fields[0].name == key {
            Some(fields[0].kind)
        } else if fields[1].name == key {
            Some(fields[1].kind)
        } else if fields[2].name == key {
            Some(fields[2].kind)
        } else if fields[3].name == key {
            Some(fields[3].kind)
        } else if fields[4].name == key {
            Some(fields[4].kind)
        } else {
            None
        },
{
    let one = fields.drop_first();
    let two = one.drop_first();
    let three = two.drop_first();
    let four = three.drop_first();
    let five = four.drop_first();
    assert(one[0] == fields[1]);
    assert(two[0] == fields[2]);
    assert(three[0] == fields[3]);
    assert(four[0] == fields[4]);
    assert(five.len() == 0);
    reveal_with_fuel(kind_in, 6);
}

/// The fields that every schema knows, scope by scope.
pub proof fn lemma_known_kind(scope: Scope, key: Seq<char>)
    ensures
        known_kind(scope, key) == match scope {
            Scope::Core | Scope::Clean => if key == "dist"@ {
                Some(Kind::Text)
            } else {
                None
            },
            Scope::Serve => if key == "proxy_backend"@ || key == "proxy_rewrite"@ {
                Some(Kind::Text)
            } else if key == "proxy_ws"@ || key == "proxy_insecure"@ || key
                == "proxy_no_system_proxy"@ {
                Some(Kind::Bool)
            } else {
                None
            },
            Scope::Proxy => if key == "backend"@ || key == "rewrite"@ {
                Some(Kind::Text)
            } else if key == "ws"@ || key == "insecure"@ || key == "no_system_proxy"@ {
                Some(Kind::Bool)
            } else {
                None
            },
            _ => None,
        },
{
    if scope == Scope::Serve || scope == Scope::Proxy {
        lemma_kind_in_five(known_fields(scope), key);
    } else if scope == Scope::Core || scope == Scope::Clean {
        assert(known_fields(scope).drop_first().len() == 0);
        reveal_with_fuel(kind_in, 2);
    }
}

/// One further field of the schema: a field of `scope`, called `name`, that
/// takes a value of `kind`.
#[derive(Clone, Debug, PartialEq, Eq)]
pub struct Row {
    pub scope: Scope,
    pub name: String,
    pub kind: Kind,
}

/// The mathematical content of a [`Row`].
pub struct RowView {
    pub scope: Scope,
    pub name: Seq<char>,
    pub kind: Kind,
}

impl View for Row {
    type V = RowView;

    open spec fn view(&self) -> RowView {
        RowView { scope: self.scope, name: self.name@, kind: self.kind }
    }
}

/// The kind that the first of `rows` for `key` in `scope` gives, or `None`
/// where no row speaks of it.
pub open spec fn listed_kind(rows: Seq<RowView>, scope: Scope, key: Seq<char>) -> Option<Kind>
    decreases rows.len(),
{
    if rows.len() == 0 {
        None
    } else if rows[0].scope == scope && rows[0].name == key {
        Some(rows[0].kind)
    } else {
        listed_kind(rows.drop_first(), scope, key)
    }
}

/// The kind that a schema with the further fields `rows` asks of `key` in
/// `scope`, or `None` where the schema has no such field. The fields that
/// every schema knows come first: no row can change their kind.
pub open spec fn field_kind(rows: Seq<RowView>, scope: Scope, key: Seq<char>) -> Option<Kind> {
    match known_kind(scope, key) {
        Some(kind) => Some(kind),
        None => listed_kind(rows, scope, key),
    }
}

/// The kind of a field that every schema knows.
pub fn known_kind_of(scope: Scope, key: &String) -> (kind: Option<Kind>)
    ensures
        kind == known_kind(scope, key@),
{
    proof {
        lemma_known_kind(scope, key@);
    }
    match scope {
        Scope::Core | Scope::Clean => if spells(key, "dist") {
            Some(Kind::Text)
        } else {
            None
        },
        Scope::Serve => if spells(key, "proxy_backend") || spells(key, "proxy_rewrite") {
            Some(Kind::Text)
        } else if spells(key, "proxy_ws") || spells(key, "proxy_insecure") || spells(
            key,
            "proxy_no_system_proxy",
        ) {
            Some(Kind::Bool)
        } else {
            None
        },
        Scope::Proxy => if spells(key, "backend") || spells(key, "rewrite") {
            Some(Kind::Text)
        } else if spells(key, "ws") || spells(key, "insecure") || spells(key, "no_system_proxy") {
            Some(Kind::Bool)
        } else {
            None
        },
        _ => None,
    }
}

/// The further fields that `rows` list for `scope`, in their order.
pub open spec fn listed_fields(rows: Seq<RowView>, scope: Scope) -> Seq<FieldView> {
    rows.filter(|row: RowView| row.scope == scope).map_values(
        |row: RowView| FieldView { name: row.name, kind: row.kind },
    )
}

/// All fields of `scope` in a schema with the further fields `rows`: those
/// that every schema knows, then those that the rows list.
pub open spec fn fields_of(rows: Seq<RowView>, scope: Scope) -> Seq<FieldView> {
    known_fields(scope) + listed_fields(rows, scope)
}

/// A section as a field of the root table.
pub open spec fn section_field(section: Section) -> FieldView {
    FieldView { name: section.name(), kind: section.kind() }
}

/// The sections as fields of the root table, in their order.
pub open spec fn section_fields() -> Seq<FieldView> {
    seq![
        section_field(Section::Build),
        section_field(Section::Tools),
        section_field(Section::Hooks),
        section_field(Section::Watch),
        section_field(Section::Serve),
        section_field(Section::Clean),
        section_field(Section::Proxies),
    ]
}

/// The root table as it is published: the core fields stand at the root
/// beside the sections, as they do in a document, although the configuration
/// holds them in a part of their own.
pub open spec fn published(rows: Seq<RowView>) -> Seq<FieldView> {
    fields_of(rows, Scope::Core) + section_fields()
}

/// The fields of `scope` that every schema knows.
pub fn known_fields_of(scope: Scope) -> (fields: Vec<Field>)
    ensures
        fields@.map_values(|field: Field| field@) == known_fields(scope),
{
    let mut fields: Vec<Field> = Vec::new();
    match scope {
        Scope::Core | Scope::Clean => {
            fields.push(Field { name: "dist".to_owned(), kind: Kind::Text });
        },
        Scope::Serve => {
            fields.push(Field { name: "proxy_backend".to_owned(), kind: Kind::Text });
            fields.push(Field { name: "proxy_rewrite".to_owned(), kind: Kind::Text });
            fields.push(Field { name: "proxy_ws".to_owned(), kind: Kind::Bool });
            fields.push(Field { name: "proxy_insecure".to_owned(), kind: Kind::Bool });
            fields.push(Field { name: "proxy_no_system_proxy".to_owned(), kind: Kind::Bool });
        },
        Scope::Proxy => {
            fields.push(Field { name: "backend".to_owned(), kind: Kind::Text });
            fields.push(Field { name: "rewrite".to_owned(), kind: Kind::Text });
            fields.push(Field { name: "ws".to_owned(), kind: Kind::Bool });
            fields.push(Field { name: "insecure".to_owned(), kind: Kind::Bool });
            fields.push(Field { name: "no_system_proxy".to_owned(), kind: Kind::Bool });
        },
        _ => {},
    }
    assert(fields@.map_values(|field: Field| field@) =~= known_fields(scope));
    fields
}

impl Section {
    /// The kind of value that the section's key takes.
    pub fn kind_of(self) -> (kind: Kind)
        ensures
            kind == self.kind(),
    {
        match self {
            Section::Hooks | Section::Proxies => Kind::List,
            _ => Kind::Table,
        }
    }

    /// The section as a field of the root table.
    pub fn field(self) -> (field: Field)
        ensures
            field@ == section_field(self),
    {
        Field { name: self.key(), kind: self.kind_of() }
    }
}

/// The fields of the document: those that every schema knows, and the
/// further rows that the components reading a section have added for their
/// own settings.
#[derive(Clone, Debug, PartialEq, Eq)]
pub struct Schema {
    pub rows: Vec<Row>,
}

impl View for Schema {
    type V = Seq<RowView>;

    open spec fn view(&self) -> Seq<RowView> {
        self.rows@.map_values(|row: Row| row@)
    }
}

impl Schema {
    /// The schema without further rows.
    pub fn new() -> (schema: Schema)
        ensures
            schema@ == Seq::<RowView>::empty(),
    {
        let schema = Schema { rows: Vec::new() };
        assert(schema@ =~= Seq::<RowView>::empty());
        schema
    }

    /// This schema with one more field.
    pub fn with_field(self, scope: Scope, name: String, kind: Kind) -> (schema: Schema)
        ensures
            schema@ == self@.push(RowView { scope, name: name@, kind }),
    {
        let mut rows = self.rows;
        rows.push(Row { scope, name, kind });
        let schema = Schema { rows };
        assert(schema@ =~= self@.push(RowView { scope, name: name@, kind }));
        schema
    }

    /// All fields of `scope`: those that every schema knows, then those that
    /// this schema adds.
    pub fn fields(&self, scope: Scope) -> (fields: Vec<Field>)
        ensures
            fields@.map_values(|field: Field| field@) == fields_of(self@, scope),
    {
        let mut fields = known_fields_of(scope);
        let ghost known = fields@.map_values(|field: Field| field@);
        let mut i: usize = 0;
        proof {
            reveal(Seq::filter);
            assert(self@.take(0) =~= Seq::<RowView>::empty());
            assert(listed_fields(self@.take(0), scope) =~= Seq::<FieldView>::empty());
            assert(known + Seq::<FieldView>::empty() =~= known);
        }
        while i < self.rows.len()
            invariant
                i <= self.rows@.len(),
                self@.len() == self.rows@.len(),
                known == known_fields(scope),
                fields@.map_values(|field: Field| field@) == known + listed_fields(
                    self@.take(i as int),
                    scope,
                ),
            decreases self.rows@.len() - i,
        {
            let row = &self.rows[i];
            let ghost before = fields@.map_values(|field: Field| field@);
            let ghost of_scope = |row: RowView| row.scope == scope;
            let ghost as_field = |row: RowView| FieldView { name: row.name, kind: row.kind };
            let ghost listed = self@.take(i as int).filter(of_scope);
            proof {
                reveal(Seq::filter);
                let next = self@.take(i as int + 1);
                assert(next.drop_last() =~= self@.take(i as int));
                assert(next.last() == row@);
            }
            if row.scope == scope {
                let field = Field { name: row.name.clone(), kind: row.kind };
                fields.push(field);
                proof {
                    assert(self@.take(i as int + 1).filter(of_scope) == listed.push(row@));
                    assert(listed.push(row@).map_values(as_field) =~= listed.map_values(
                        as_field,
                    ).push(field@));
                    assert(fields@.map_values(|field: Field| field@) =~= before.push(field@));
                    assert(before.push(field@) =~= known + listed.map_values(as_field).push(
                        field@,
                    ));
                }
            }
            i += 1;
        }
        assert(self@.take(self.rows@.len() as int) =~= self@);
        fields
    }

    /// The root table as it is published: the core fields, then the
    /// sections.
    pub fn published(&self) -> (fields: Vec<Field>)
        ensures
            fields@.map_values(|field: Field| field@) == self::published(self@),
    {
        let mut fields = self.fields(Scope::Core);
        let ghost core = fields@.map_values(|field: Field| field@);
        fields.push(Section::Build.field());
        fields.push(Section::Tools.field());
        fields.push(Section::Hooks.field());
        fields.push(Section::Watch.field());
        fields.push(Section::Serve.field());
        fields.push(Section::Clean.field());
        fields.push(Section::Proxies.field());
        assert(fields@.map_values(|field: Field| field@) =~= core + section_fields());
        fields
    }

    /// The kind that this schema asks of `key` in `scope`.
    pub fn kind_of(&self, scope: Scope, key: &String) -> (kind: Option<Kind>)
        ensures
            kind == field_kind(self@, scope, key@),
    {
        match known_kind_of(scope, key) {
            Some(kind) => Some(kind),
            None => {
                let mut i: usize = 0;
                assert(self@.skip(0) =~= self@);
                while i < self.rows.len()
                    invariant
                        i <= self.rows@.len(),
                        self@.len() == self.rows@.len(),
                        known_kind(scope, key@) is None,
                        listed_kind(self@, scope, key@) == listed_kind(
                            self@.skip(i as int),
                            scope,
                            key@,
                        ),
                    decreases self.rows@.len() - i,
                {
                    let row = &self.rows[i];
                    proof {
                        assert(self@.skip(i as int).len() > 0);
                        assert(self@.skip(i as int)[0] == row@);
                        assert(self@.skip(i as int).drop_first() =~= self@.skip(i as int + 1));
                    }
                    if row.scope == scope && row.name == *key {
                        return Some(row.kind);
                    }
                    i += 1;
                }
                None
            },
        }
    }
}

/// Whether one of `fields` is called `key`.
pub open spec fn names_field(fields: Seq<FieldView>, key: Seq<char>) -> bool {
    exists|j: int| 0 <= j < fields.len() && #[trigger] fields[j].name == key
}

/// A list of fields gives a kind for exactly the keys that it names.
pub proof fn lemma_kind_in_names(fields: Seq<FieldView>, key: Seq<char>)
    ensures
        kind_in(fields, key) is Some <==> names_field(fields, key),
    decreases fields.len(),
{
    if fields.len() > 0 {
        let rest = fields.drop_first();
        lemma_kind_in_names(rest, key);
        if fields[0].name != key {
            if names_field(rest, key) {
                let j = choose|j: int| 0 <= j < rest.len() && #[trigger] rest[j].name == key;
                assert(fields[j + 1].name == key);
            }
            if names_field(fields, key) {
                let j = choose|j: int| 0 <= j < fields.len() && #[trigger] fields[j].name == key;
                assert(rest[j - 1].name == key);
            }
        } else {
            assert(fields[0].name == key);
        }
    }
}

/// In two lists of fields, one after the other, the first list decides
/// wherever it names the key.
pub proof fn lemma_kind_in_both(first: Seq<FieldView>, second: Seq<FieldView>, key: Seq<char>)
    ensures
        kind_in(first + second, key) == match kind_in(first, key) {
            Some(kind) => Some(kind),
            None => kind_in(second, key),
        },
    decreases first.len(),
{
    if first.len() > 0 {
        assert((first + second)[0] == first[0]);
        assert((first + second).drop_first() =~= first.drop_first() + second);
        lemma_kind_in_both(first.drop_first(), second, key);
    } else {
        assert(first + second =~= second);
    }
}

/// The rows decide as the list of fields that they give for the scope.
pub proof fn lemma_listed_kind(rows: Seq<RowView>, scope: Scope, key: Seq<char>)
    ensures
        listed_kind(rows, scope, key) == kind_in(listed_fields(rows, scope), key),
    decreases rows.len(),
{
    let of_scope = |row: RowView| row.scope == scope;
    let as_field = |row: RowView| FieldView { name: row.name, kind: row.kind };
    reveal(Seq::filter);
    if rows.len() > 0 {
        let first = rows[0];
        let rest = rows.drop_first();
        assert(rows =~= seq![first] + rest);
        rest.lemma_filter_prepend(first, of_scope);
        lemma_listed_kind(rest, scope, key);
        if first.scope == scope {
            let kept = seq![first] + rest.filter(of_scope);
            assert(kept.map_values(as_field)[0] == as_field(first));
            assert(kept.map_values(as_field).drop_first() =~= rest.filter(of_scope).map_values(
                as_field,
            ));
        } else {
            assert(Seq::<RowView>::empty() + rest.filter(of_scope) =~= rest.filter(of_scope));
        }
    } else {
        assert(listed_fields(rows, scope) =~= Seq::<FieldView>::empty());
    }
}

/// One table decides: the kind that a schema asks of a key is the kind of the
/// first field of that name in the list of the scope's fields.
pub proof fn lemma_field_kind(rows: Seq<RowView>, scope: Scope, key: Seq<char>)
    ensures
        field_kind(rows, scope, key) == kind_in(fields_of(rows, scope), key),
{
    lemma_listed_kind(rows, scope, key);
    lemma_kind_in_both(known_fields(scope), listed_fields(rows, scope), key);
}

/// Whether a document may hold `key` at its root: the key names a section
/// or is a core field.
pub open spec fn accepted_at_root(rows: Seq<RowView>, key: Seq<char>) -> bool {
    Section::named_by(key) is Some || field_kind(rows, Scope::Core, key) is Some
}

/// The shape that is published and the shape that is decoded agree. A key is
/// accepted at the root of a document exactly if the published root table
/// names it; the one exception is `proxy`, the older spelling of `proxies`,
/// which is accepted and not published.
pub proof fn lemma_shapes_agree(rows: Seq<RowView>, key: Seq<char>)
    ensures
        accepted_at_root(rows, key) <==> names_field(published(rows), key) || key == "proxy"@,
{
    let core = fields_of(rows, Scope::Core);
    let sections = section_fields();
    let whole = published(rows);
    lemma_field_kind(rows, Scope::Core, key);
    lemma_kind_in_names(core, key);
    if names_field(core, key) {
        let j = choose|j: int| 0 <= j < core.len() && #[trigger] core[j].name == key;
        assert(whole[j].name == key);
    }
    if names_field(sections, key) {
        let j = choose|j: int| 0 <= j < sections.len() && #[trigger] sections[j].name == key;
        assert(whole[core.len() + j].name == key);
    }
    if names_field(whole, key) {
        let j = choose|j: int| 0 <= j < whole.len() && #[trigger] whole[j].name == key;
        if j < core.len() {
            assert(core[j].name == key);
        } else {
            assert(sections[j - core.len()].name == key);
        }
    }
    match Section::named_by(key) {
        Some(section) => {
            if key != "proxy"@ {
                let j: int = match section {
                    Section::Build => 0,
                    Section::Tools => 1,
                    Section::Hooks => 2,
                    Section::Watch => 3,
                    Section::Serve => 4,
                    Section::Clean => 5,
                    Section::Proxies => 6,
                };
                assert(sections[j].name == key);
            }
        },
        None => {},
    }
}

} // verus!
