//! Why a document was refused, and where.

use vstd::prelude::*;
use vstd::string::StringExecFns;
use crate::schema::{Kind, Section};
use crate::text::{append_decimal, decimal};

verus! {

/// The place of a field in the document: the section it stands in, the
/// element of that section where the section is a list, and the field's own
/// name. A part that does not apply is `None`; a root key that names no
/// section has only its name.
#[derive(Clone, Debug, PartialEq, Eq)]
pub struct FieldPath {
    pub section: Option<Section>,
    pub index: Option<usize>,
    pub field: Option<String>,
}

/// The mathematical content of a [`FieldPath`].
pub struct Place {
    pub section: Option<Section>,
    pub index: Option<nat>,
    pub field: Option<Seq<char>>,
}

impl View for FieldPath {
    type V = Place;

    open spec fn view(&self) -> Place {
        Place {
            section: self.section,
            index: match self.index {
                Some(i) => Some(i as nat),
                None => None,
            },
            field: match self.field {
                Some(name) => Some(name@),
                None => None,
            },
        }
    }
}

impl Place {
    /// The place of the document's root.
    pub open spec fn root() -> Place {
        Place { section: None, index: None, field: None }
    }

    /// The place of the root key `key`, which names no section.
    pub open spec fn of_key(key: Seq<char>) -> Place {
        Place { section: None, index: None, field: Some(key) }
    }

    /// The place of a section.
    pub open spec fn of_section(section: Section) -> Place {
        Place { section: Some(section), index: None, field: None }
    }

    /// The place of the element `index` of a section that is a list.
    pub open spec fn of_element(section: Section, index: nat) -> Place {
        Place { section: Some(section), index: Some(index), field: None }
    }

    /// The place of the field `key` in the table that stands at `self`.
    pub open spec fn field(self, key: Seq<char>) -> Place {
        Place { section: self.section, index: self.index, field: Some(key) }
    }

    /// The section's name, where the place has one.
    pub open spec fn section_part(self) -> Seq<char> {
        match self.section {
            Some(section) => section.name(),
            None => Seq::empty(),
        }
    }

    /// The section's name and the element's number, joined by a dot.
    pub open spec fn element_part(self) -> Seq<char> {
        match self.index {
            Some(index) => if self.section is Some {
                self.section_part() + "."@ + decimal(index)
            } else {
                decimal(index)
            },
            None => self.section_part(),
        }
    }

    /// The place as a dotted path: the parts that apply, in order, with a
    /// dot between each two.
    pub open spec fn dotted(self) -> Seq<char> {
        match self.field {
            Some(name) => if self.section is Some || self.index is Some {
                self.element_part() + "."@ + name
            } else {
                name
            },
            None => self.element_part(),
        }
    }
}

impl FieldPath {
    /// The path of the document's root.
    pub fn root() -> (path: FieldPath)
        ensures
            path@ == Place::root(),
    {
        FieldPath { section: None, index: None, field: None }
    }

    /// The path of a root key that names no section.
    pub fn of_key(key: &String) -> (path: FieldPath)
        ensures
            path@ == Place::of_key(key@),
    {
        FieldPath { section: None, index: None, field: Some(key.clone()) }
    }

    /// The path of a section.
    pub fn of_section(section: Section) -> (path: FieldPath)
        ensures
            path@ == Place::of_section(section),
    {
        FieldPath { section: Some(section), index: None, field: None }
    }

    /// The path of one element of a section that is a list.
    pub fn of_element(section: Section, index: usize) -> (path: FieldPath)
        ensures
            path@ == Place::of_element(section, index as nat),
    {
        FieldPath { section: Some(section), index: Some(index), field: None }
    }

    /// The path of the field `key` in the table that stands at `self`.
    pub fn field(&self, key: &String) -> (path: FieldPath)
        ensures
            path@ == self@.field(key@),
    {
        FieldPath { section: self.section, index: self.index, field: Some(key.clone()) }
    }

    /// The path written out with dots, as a reader of the document would
    /// write it.
    pub fn dotted(&self) -> (text: String)
        ensures
            text@ == self@.dotted(),
    {
        let mut text = String::new();
        match self.section {
            Some(section) => {
                let name = section.key();
                text.append(name.as_str());
            },
            None => {},
        }
        assert(text@ =~= self@.section_part());
        match self.index {
            Some(index) => {
                if self.section.is_some() {
                    text.append(".");
                }
                append_decimal(&mut text, index);
            },
            None => {},
        }
        assert(text@ =~= self@.element_part());
        match &self.field {
            Some(name) => {
                if self.section.is_some() || self.index.is_some() {
                    text.append(".");
                }
                text.append(name.as_str());
            },
            None => {},
        }
        assert(text@ =~= self@.dotted());
        text
    }
}

impl Kind {
    /// The word by which a message speaks of the kind.
    pub open spec fn name(self) -> Seq<char> {
        match self {
            Kind::Bool => "boolean"@,
            Kind::Integer => "integer"@,
            Kind::Text => "string"@,
            Kind::List => "list"@,
            Kind::Table => "table"@,
        }
    }

    /// The word by which a message speaks of the kind.
    pub fn word(self) -> (word: &'static str)
        ensures
            word@ == self.name(),
    {
        match self {
            Kind::Bool => "boolean",
            Kind::Integer => "integer",
            Kind::Text => "string",
            Kind::List => "list",
            Kind::Table => "table",
        }
    }
}

/// Why a document was refused.
#[derive(Clone, Debug, PartialEq, Eq)]
pub enum DecodeError {
    /// The key at `path` is no field of the schema.
    UnknownField { path: FieldPath },
    /// The value at `path` is of kind `found` where the schema asks for
    /// `expected`.
    FieldType { path: FieldPath, expected: Kind, found: Kind },
    /// The key at `path` stands a second time in its table.
    DuplicateKey { path: FieldPath },
    /// The table lacks the field at `path`, which it must have.
    MissingField { path: FieldPath },
}

/// The mathematical content of a [`DecodeError`].
pub enum Fault {
    UnknownField { place: Place },
    FieldType { place: Place, expected: Kind, found: Kind },
    DuplicateKey { place: Place },
    MissingField { place: Place },
}

impl View for DecodeError {
    type V = Fault;

    open spec fn view(&self) -> Fault {
        match self {
            DecodeError::UnknownField { path } => Fault::UnknownField { place: path@ },
            DecodeError::FieldType { path, expected, found } => Fault::FieldType {
                place: path@,
                expected: *expected,
                found: *found,
            },
            DecodeError::DuplicateKey { path } => Fault::DuplicateKey { place: path@ },
            DecodeError::MissingField { path } => Fault::MissingField { place: path@ },
        }
    }
}

impl Fault {
    /// Where in the document the fault lies.
    pub open spec fn place(self) -> Place {
        match self {
            Fault::UnknownField { place } => place,
            Fault::FieldType { place, .. } => place,
            Fault::DuplicateKey { place } => place,
            Fault::MissingField { place } => place,
        }
    }

    /// The fault in words.
    pub open spec fn message(self) -> Seq<char> {
        match self {
            Fault::UnknownField { place } => "unknown field `"@ + place.dotted() + "`"@,
            Fault::FieldType { place, expected, found } => "invalid type at `"@ + place.dotted()
                + "`: expected "@ + expected.name() + ", found "@ + found.name(),
            Fault::DuplicateKey { place } => "duplicate key `"@ + place.dotted() + "`"@,
            Fault::MissingField { place } => "missing field `"@ + place.dotted() + "`"@,
        }
    }
}

impl DecodeError {
    /// The path of the field that the error is about.
    pub fn path(&self) -> (path: &FieldPath)
        ensures
            path@ == self@.place(),
    {
        match self {
            DecodeError::UnknownField { path } => path,
            DecodeError::FieldType { path, .. } => path,
            DecodeError::DuplicateKey { path } => path,
            DecodeError::MissingField { path } => path,
        }
    }

    /// The error in words, for the user who wrote the document.
    pub fn message(&self) -> (text: String)
        ensures
            text@ == self@.message(),
    {
        match self {
            DecodeError::UnknownField { path } => {
                let mut text = "unknown field `".to_owned();
                text.append(path.dotted().as_str());
                text.append("`");
                text
            },
            DecodeError::FieldType { path, expected, found } => {
                let mut text = "invalid type at `".to_owned();
                text.append(path.dotted().as_str());
                text.append("`: expected ");
                text.append(expected.word());
                text.append(", found ");
                text.append(found.word());
                text
            },
            DecodeError::DuplicateKey { path } => {
                let mut text = "duplicate key `".to_owned();
                text.append(path.dotted().as_str());
                text.append("`");
                text
            },
            DecodeError::MissingField { path } => {
                let mut text = "missing field `".to_owned();
                text.append(path.dotted().as_str());
                text.append("`");
                text
            },
        }
    }
}

} // verus!
