//! How a vertex record type is declared: its kind, its fields in declared
//! order, and the attributes written on each field.

use vstd::prelude::*;
use crate::layout::Component;

verus! {

/// A path as written in source: segments separated by `::`, with or without
/// a leading `::`.
pub struct Path {
    pub leading_colon: bool,
    pub segments: Vec<String>,
}

/// A literal value.
pub enum Lit {
    /// An integer literal, held as the decimal digits of its value.
    Int(String),
    /// Any other literal: a string, a float, a boolean.
    Other,
}

/// What stands behind an attribute's path.
pub enum Meta {
    /// Nothing: `#[location]`.
    Path,
    /// A list in brackets: `#[location(0)]`.
    List,
    /// A value: `#[location = 0]`.
    NameValue(Lit),
}

/// One attribute on a field. `meta` is `None` where what follows the path is
/// of none of the three forms.
pub struct Attribute {
    pub path: Path,
    pub meta: Option<Meta>,
}

/// One field of a record: its name if it has one, its attributes in written
/// order, and what a value of its type is made of.
pub struct Field {
    pub ident: Option<String>,
    pub attrs: Vec<Attribute>,
    pub ty: Component,
}

/// The fields of a struct.
pub enum Fields {
    Named(Vec<Field>),
    Unnamed,
    Unit,
}

/// The kind of a type declaration.
pub enum Data {
    Struct(Fields),
    Enum,
    Union,
}

} // verus!
