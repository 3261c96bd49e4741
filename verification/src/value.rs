//! The raw document: a tree of tables, lists and scalars, as a parser of the
//! textual format hands it over.

use vstd::prelude::*;
use crate::schema::Kind;

verus! {

/// A node of the raw document.
#[derive(Debug, PartialEq, Eq)]
pub enum Value {
    Bool(bool),
    Integer(i64),
    Text(String),
    List(Vec<Value>),
    Table(Vec<Entry>),
}

/// One key of a table together with its value.
#[derive(Debug, PartialEq, Eq)]
pub struct Entry {
    pub key: String,
    pub value: Value,
}

/// The mathematical content of a [`Value`].
pub enum Tree {
    Bool(bool),
    Integer(int),
    Text(Seq<char>),
    List(Seq<Tree>),
    Table(Seq<Pair>),
}

/// The mathematical content of an [`Entry`].
pub struct Pair {
    pub key: Seq<char>,
    pub value: Tree,
}

impl View for Value {
    type V = Tree;

    open spec fn view(&self) -> Tree
        decreases self,
    {
        match self {
            Value::Bool(b) => Tree::Bool(*b),
            Value::Integer(i) => Tree::Integer(*i as int),
            Value::Text(s) => Tree::Text(s@),
            Value::List(items) => Tree::List(
                Seq::new(
                    items@.len(),
                    |i: int|
                        if 0 <= i < items@.len() {
                            items@[i].view()
                        } else {
                            Tree::Bool(false)
                        },
                ),
            ),
            Value::Table(entries) => Tree::Table(
                Seq::new(
                    entries@.len(),
                    |i: int|
                        if 0 <= i < entries@.len() {
                            Pair { key: entries@[i].key@, value: entries@[i].value.view() }
                        } else {
                            Pair { key: Seq::empty(), value: Tree::Bool(false) }
                        },
                ),
            ),
        }
    }
}

impl View for Entry {
    type V = Pair;

    open spec fn view(&self) -> Pair {
        Pair { key: self.key@, value: self.value@ }
    }
}

/// The content of each of `entries`, in order.
pub open spec fn pairs(entries: Seq<Entry>) -> Seq<Pair> {
    entries.map_values(|entry: Entry| entry@)
}

/// The content of each of `items`, in order.
pub open spec fn trees(items: Seq<Value>) -> Seq<Tree> {
    items.map_values(|item: Value| item@)
}

/// The value that the first entry with the key `key` holds, or `None` where
/// no entry has that key.
pub open spec fn lookup(entries: Seq<Pair>, key: Seq<char>) -> Option<Tree>
    decreases entries.len(),
{
    if entries.len() == 0 {
        None
    } else if entries[0].key == key {
        Some(entries[0].value)
    } else {
        lookup(entries.drop_first(), key)
    }
}

/// The text that the field `key` holds, or `None` where the table has no
/// such field or the field holds no text.
pub open spec fn text_at(entries: Seq<Pair>, key: Seq<char>) -> Option<Seq<char>> {
    match lookup(entries, key) {
        Some(Tree::Text(text)) => Some(text),
        _ => None,
    }
}

/// The flag that the field `key` holds, or `None` where the table has no such
/// field or the field holds no flag.
pub open spec fn flag_at(entries: Seq<Pair>, key: Seq<char>) -> Option<bool> {
    match lookup(entries, key) {
        Some(Tree::Bool(flag)) => Some(flag),
        _ => None,
    }
}

/// What the view of a list node holds.
pub proof fn lemma_list_view(v: Value)
    requires
        v is List,
    ensures
        v@ is List,
        v@->List_0.len() == v->List_0@.len(),
        forall|j: int| 0 <= j < v->List_0@.len() ==> #[trigger] v@->List_0[j] == v->List_0@[j]@,
        v@->List_0 == trees(v->List_0@),
{
    assert(v@->List_0 =~= trees(v->List_0@));
}

/// What the view of a table node holds.
pub proof fn lemma_table_view(v: Value)
    requires
        v is Table,
    ensures
        v@ is Table,
        v@->Table_0.len() == v->Table_0@.len(),
        forall|j: int|
            0 <= j < v->Table_0@.len() ==> #[trigger] v@->Table_0[j] == (Pair {
                key: v->Table_0@[j].key@,
                value: v->Table_0@[j].value@,
            }),
        v@->Table_0 == pairs(v->Table_0@),
{
    assert(v@->Table_0 =~= pairs(v->Table_0@));
}

impl Tree {
    /// The kind of this node.
    pub open spec fn kind(self) -> Kind {
        match self {
            Tree::Bool(_) => Kind::Bool,
            Tree::Integer(_) => Kind::Integer,
            Tree::Text(_) => Kind::Text,
            Tree::List(_) => Kind::List,
            Tree::Table(_) => Kind::Table,
        }
    }
}

/// Whether one of the first `i` entries has the key `key`.
pub open spec fn key_before(entries: Seq<Pair>, i: int, key: Seq<char>) -> bool {
    exists|j: int| 0 <= j < i && #[trigger] entries[j].key == key
}

impl Tree {
    /// Whether some table in this tree, at any depth, holds a key twice.
    pub open spec fn repeats(self) -> bool
        decreases self,
    {
        match self {
            Tree::List(items) => exists|i: int|
                0 <= i < items.len() && (#[trigger] items[i]).repeats(),
            Tree::Table(entries) => exists|i: int|
                0 <= i < entries.len() && (key_before(entries, i, (#[trigger] entries[i]).key)
                    || entries[i].value.repeats()),
            _ => false,
        }
    }
}

impl Value {
    /// The kind of this node.
    pub fn kind(&self) -> (k: Kind)
        ensures
            k == self@.kind(),
    {
        match self {
            Value::Bool(_) => Kind::Bool,
            Value::Integer(_) => Kind::Integer,
            Value::Text(_) => Kind::Text,
            Value::List(_) => Kind::List,
            Value::Table(_) => Kind::Table,
        }
    }

    /// A deep copy of this node.
    pub fn duplicate(&self) -> (copy: Value)
        ensures
            copy@ == self@,
        decreases self,
    {
        match self {
            Value::Bool(b) => Value::Bool(*b),
            Value::Integer(i) => Value::Integer(*i),
            Value::Text(s) => Value::Text(s.clone()),
            Value::List(items) => {
                let mut out: Vec<Value> = Vec::new();
                let mut i: usize = 0;
                while i < items.len()
                    invariant
                        i <= items@.len(),
                        out@.len() == i,
                        forall|j: int| 0 <= j < i ==> (#[trigger] out@[j])@ == items@[j]@,
                        self->List_0 == *items,
                        *self is List,
                    decreases items@.len() - i,
                {
                    proof {
                        broadcast use vstd::std_specs::vec::axiom_vec_index_decreases;
                        assert(decreases_to!(*self => self->List_0));
                        assert(decreases_to!(*items => items[i as int]));
                    }
                    out.push(items[i].duplicate());
                    i += 1;
                }
                let copy = Value::List(out);
                proof {
                    lemma_list_view(copy);
                    lemma_list_view(*self);
                    assert(copy@->List_0 =~= self@->List_0);
                }
                copy
            },
            Value::Table(entries) => {
                let mut out: Vec<Entry> = Vec::new();
                let mut i: usize = 0;
                while i < entries.len()
                    invariant
                        i <= entries@.len(),
                        out@.len() == i,
                        forall|j: int| 0 <= j < i ==> (#[trigger] out@[j]).key@ == entries@[j].key@
                            && out@[j].value@ == entries@[j].value@,
                        self->Table_0 == *entries,
                        *self is Table,
                    decreases entries@.len() - i,
                {
                    proof {
                        broadcast use vstd::std_specs::vec::axiom_vec_index_decreases;
                        assert(decreases_to!(*self => self->Table_0));
                        assert(decreases_to!(*entries => entries[i as int]));
                        assert(decreases_to!(entries[i as int] => entries[i as int].value));
                    }
                    out.push(
                        Entry { key: entries[i].key.clone(), value: entries[i].value.duplicate() },
                    );
                    i += 1;
                }
                let copy = Value::Table(out);
                proof {
                    lemma_table_view(copy);
                    lemma_table_view(*self);
                    assert(copy@->Table_0 =~= self@->Table_0);
                }
                copy
            },
        }
    }
}

/// Whether one of the first `i` entries has the key `key`.
pub fn seen_before(entries: &Vec<Entry>, i: usize, key: &String) -> (seen: bool)
    requires
        i <= entries@.len(),
    ensures
        seen == key_before(pairs(entries@), i as int, key@),
{
    let mut j: usize = 0;
    while j < i
        invariant
            j <= i <= entries@.len(),
            !key_before(pairs(entries@), j as int, key@),
        decreases i - j,
    {
        if entries[j].key == *key {
            assert(pairs(entries@)[j as int].key == key@);
            return true;
        }
        j += 1;
    }
    false
}

impl Value {
    /// Whether some table in this tree, at any depth, holds a key twice.
    pub fn has_repeat(&self) -> (found: bool)
        ensures
            found == self@.repeats(),
        decreases self,
    {
        match self {
            Value::List(items) => {
                proof {
                    lemma_list_view(*self);
                }
                let mut i: usize = 0;
                while i < items.len()
                    invariant
                        i <= items@.len(),
                        self->List_0 == *items,
                        *self is List,
                        self@ == Tree::List(trees(items@)),
                        forall|j: int| 0 <= j < i ==> !(#[trigger] trees(items@)[j]).repeats(),
                    decreases items@.len() - i,
                {
                    proof {
                        broadcast use vstd::std_specs::vec::axiom_vec_index_decreases;
                        assert(decreases_to!(*self => self->List_0));
                        assert(decreases_to!(*items => items[i as int]));
                    }
                    if items[i].has_repeat() {
                        proof {
                            let views = trees(items@);
                            assert(views[i as int] == items@[i as int]@);
                            assert(0 <= i < views.len() && views[i as int].repeats());
                            assert(Tree::List(views)->List_0 == views);
                            assert(Tree::List(views).repeats());
                        }
                        return true;
                    }
                    i += 1;
                }
                false
            },
            Value::Table(entries) => {
                proof {
                    lemma_table_view(*self);
                }
                let mut i: usize = 0;
                while i < entries.len()
                    invariant
                        i <= entries@.len(),
                        self->Table_0 == *entries,
                        *self is Table,
                        self@ == Tree::Table(pairs(entries@)),
                        forall|j: int|
                            0 <= j < i ==> !key_before(
                                pairs(entries@),
                                j,
                                (#[trigger] pairs(entries@)[j]).key,
                            ) && !pairs(entries@)[j].value.repeats(),
                    decreases entries@.len() - i,
                {
                    proof {
                        broadcast use vstd::std_specs::vec::axiom_vec_index_decreases;
                        assert(decreases_to!(*self => self->Table_0));
                        assert(decreases_to!(*entries => entries[i as int]));
                        assert(decreases_to!(entries[i as int] => entries[i as int].value));
                        assert(pairs(entries@)[i as int] == entries@[i as int]@);
                    }
                    if seen_before(entries, i, &entries[i].key) || entries[i].value.has_repeat() {
                        return true;
                    }
                    i += 1;
                }
                false
            },
            _ => false,
        }
    }
}

impl Clone for Value {
    fn clone(&self) -> (copy: Value)
        ensures
            copy@ == self@,
    {
        self.duplicate()
    }
}

impl Clone for Entry {
    fn clone(&self) -> (copy: Entry)
        ensures
            copy@ == self@,
    {
        Entry { key: self.key.clone(), value: self.value.duplicate() }
    }
}

/// The value of the first of `entries` whose key is `key`.
pub fn find<'a>(entries: &'a Vec<Entry>, key: &str) -> (found: Option<&'a Value>)
    ensures
        match found {
            Some(value) => lookup(pairs(entries@), key@) == Some(value@),
            None => lookup(pairs(entries@), key@) is None,
        },
{
    let wanted = key.to_owned();
    let mut i: usize = 0;
    assert(pairs(entries@).skip(0) =~= pairs(entries@));
    while i < entries.len()
        invariant
            i <= entries@.len(),
            wanted@ == key@,
            lookup(pairs(entries@), key@) == lookup(pairs(entries@).skip(i as int), key@),
        decreases entries@.len() - i,
    {
        let entry = &entries[i];
        proof {
            assert(pairs(entries@).skip(i as int).len() > 0);
            assert(pairs(entries@).skip(i as int)[0] == entry@);
            assert(pairs(entries@).skip(i as int).drop_first() =~= pairs(entries@).skip(
                i as int + 1,
            ));
        }
        if entry.key == wanted {
            return Some(&entry.value);
        }
        i += 1;
    }
    None
}

/// The text of the field `key`, where the table has the field and it holds
/// text.
pub fn find_text(entries: &Vec<Entry>, key: &str) -> (found: Option<String>)
    ensures
        match found {
            Some(text) => text_at(pairs(entries@), key@) == Some(text@),
            None => text_at(pairs(entries@), key@) is None,
        },
{
    match find(entries, key) {
        Some(Value::Text(text)) => Some(text.clone()),
        _ => None,
    }
}

/// The flag of the field `key`, where the table has the field and it holds a
/// flag.
pub fn find_flag(entries: &Vec<Entry>, key: &str) -> (found: Option<bool>)
    ensures
        found == flag_at(pairs(entries@), key@),
{
    match find(entries, key) {
        Some(Value::Bool(flag)) => Some(*flag),
        _ => None,
    }
}

} // verus!
