//! Deriving the layout of a vertex record from its declaration.
//!
//! The fields are walked in declared order. Each must carry an attribute
//! `location` with an integer value, which is the attribute location; its
//! byte offset is the sum of the sizes of the fields before it.

use vstd::prelude::*;
use vstd::string::*;
use crate::layout::{span, Binding, Component, LayoutView, VertexLayout};
use crate::record::{Attribute, Data, Field, Fields, Lit, Meta, Path};

verus! {

/// Why a declaration has no layout.
#[derive(Debug, PartialEq, Eq)]
pub enum LayoutError {
    /// The type is an enum.
    Enum,
    /// The type is a union.
    Union,
    /// The type is a struct without fields.
    UnitStruct,
    /// The type is a struct whose fields have no names.
    TupleStruct,
    /// A field has no name.
    UnnamedField,
    /// The named field carries no attribute `location`.
    MissingLocation(String),
    /// What follows `location` is neither nothing, a list nor a value.
    MalformedAttribute,
    /// `location` is not followed by `=` and a value.
    InvalidAttribute,
    /// The value of `location` is not an integer literal.
    InvalidLocationValue,
    /// The value of `location` is no decimal number of 32 bits.
    LocationOutOfRange,
    /// The fields take more bytes than the record has.
    RecordTooSmall,
}

/// A `LayoutError` as a value.
pub enum LayoutErrorView {
    Enum,
    Union,
    UnitStruct,
    TupleStruct,
    UnnamedField,
    MissingLocation(Seq<char>),
    MalformedAttribute,
    InvalidAttribute,
    InvalidLocationValue,
    LocationOutOfRange,
    RecordTooSmall,
}

impl View for LayoutError {
    type V = LayoutErrorView;

    open spec fn view(&self) -> LayoutErrorView {
        match self {
            LayoutError::Enum => LayoutErrorView::Enum,
            LayoutError::Union => LayoutErrorView::Union,
            LayoutError::UnitStruct => LayoutErrorView::UnitStruct,
            LayoutError::TupleStruct => LayoutErrorView::TupleStruct,
            LayoutError::UnnamedField => LayoutErrorView::UnnamedField,
            LayoutError::MissingLocation(name) => LayoutErrorView::MissingLocation(name@),
            LayoutError::MalformedAttribute => LayoutErrorView::MalformedAttribute,
            LayoutError::InvalidAttribute => LayoutErrorView::InvalidAttribute,
            LayoutError::InvalidLocationValue => LayoutErrorView::InvalidLocationValue,
            LayoutError::LocationOutOfRange => LayoutErrorView::LocationOutOfRange,
            LayoutError::RecordTooSmall => LayoutErrorView::RecordTooSmall,
        }
    }
}

/// The two characters that separate the segments of a path.
pub open spec fn separator() -> Seq<char> {
    seq![':', ':']
}

/// The segments with a separator between each two.
pub open spec fn joined(segments: Seq<String>) -> Seq<char>
    decreases segments.len(),
{
    if segments.len() == 0 {
        Seq::empty()
    } else if segments.len() == 1 {
        segments[0]@
    } else {
        joined(segments.drop_last()) + separator() + segments.last()@
    }
}

/// A path as text: its segments joined, behind a separator where the path
/// has a leading one. A path without segments is the empty text.
pub open spec fn path_string(path: Path) -> Seq<char> {
    if path.segments@.len() == 0 {
        Seq::empty()
    } else if path.leading_colon {
        separator() + joined(path.segments@)
    } else {
        joined(path.segments@)
    }
}

/// A path as text.
pub fn get_path_string(path: &Path) -> (string: String)
    ensures
        string@ == path_string(*path),
{
    let mut string = String::new();
    let n = path.segments.len();
    if n == 0 {
        return string;
    }
    proof {
        reveal_strlit("::");
    }
    if path.leading_colon {
        string.append("::");
    }
    let ghost lead = string@;
    string.append(path.segments[0].as_str());
    let mut i: usize = 1;
    while i < n
        invariant
            n == path.segments@.len(),
            1 <= i <= n,
            "::"@ == separator(),
            string@ == lead + joined(path.segments@.take(i as int)),
        decreases n - i,
    {
        string.append("::");
        string.append(path.segments[i].as_str());
        proof {
            let next = path.segments@.take(i + 1);
            assert(next.drop_last() =~= path.segments@.take(i as int));
        }
        i += 1;
    }
    assert(path.segments@.take(n as int) =~= path.segments@);
    string
}

/// One of the ten decimal digits.
pub open spec fn is_digit(c: char) -> bool {
    '0' <= c <= '9'
}

/// Nothing but decimal digits.
pub open spec fn all_digits(text: Seq<char>) -> bool {
    forall|i: int| 0 <= i < text.len() ==> is_digit(#[trigger] text[i])
}

/// The number that decimal digits write.
pub open spec fn decimal(digits: Seq<char>) -> nat
    decreases digits.len(),
{
    if digits.len() == 0 {
        0
    } else {
        decimal(digits.drop_last()) * 10 + (digits.last() as u32 - '0' as u32) as nat
    }
}

/// The 32-bit number that `text` writes in decimal digits, if it writes
/// one.
pub open spec fn decimal_u32(text: Seq<char>) -> Option<u32> {
    if text.len() > 0 && all_digits(text) && decimal(text) <= u32::MAX {
        Some(decimal(text) as u32)
    } else {
        None
    }
}

/// More digits never write a smaller number.
proof fn lemma_decimal_grows(digits: Seq<char>, k: int)
    requires
        0 <= k <= digits.len(),
        all_digits(digits),
    ensures
        decimal(digits.take(k)) <= decimal(digits),
    decreases digits.len() - k,
{
    if k < digits.len() {
        lemma_decimal_grows(digits, k + 1);
        assert(digits.take(k + 1).drop_last() =~= digits.take(k));
    } else {
        assert(digits.take(k) =~= digits);
    }
}

/// Read a 32-bit number from decimal digits. `None` for the empty text, for
/// text with anything but digits in it, and for a number beyond 32 bits.
pub fn parse_u32(text: &str) -> (value: Option<u32>)
    ensures
        value == decimal_u32(text@),
{
    if !text.is_ascii() {
        return None;
    }
    let n = text.unicode_len();
    if n == 0 {
        return None;
    }
    let mut value: u32 = 0;
    let mut i: usize = 0;
    while i < n
        invariant
            n == text@.len(),
            i <= n,
            text.is_ascii(),
            all_digits(text@.take(i as int)),
            value == decimal(text@.take(i as int)),
        decreases n - i,
    {
        let byte = text.get_ascii(i);
        if byte < 48 || byte > 57 {
            return None;
        }
        let digit: u32 = (byte - 48) as u32;
        proof {
            assert(text@.take(i + 1).drop_last() =~= text@.take(i as int));
            assert(all_digits(text@.take(i + 1)));
        }
        if value > (u32::MAX - digit) / 10 {
            proof {
                if all_digits(text@) {
                    lemma_decimal_grows(text@, i + 1);
                }
            }
            return None;
        }
        value = value * 10 + digit;
        i += 1;
    }
    assert(text@.take(n as int) =~= text@);
    Some(value)
}

/// What one field gives to a layout: its location and what it is made of.
#[derive(Clone, Copy, Debug, PartialEq, Eq, Structural)]
pub struct FieldBinding {
    pub location: u32,
    pub component: Component,
}

/// An outcome and the outcome as a value are the same.
pub open spec fn agrees<T>(outcome: Result<T, LayoutError>, value: Result<T, LayoutErrorView>) -> bool {
    match (outcome, value) {
        (Ok(a), Ok(b)) => a == b,
        (Err(e), Err(f)) => e@ == f,
        _ => false,
    }
}

/// The attribute's path is the single word `location`.
pub open spec fn is_location(attribute: Attribute) -> bool {
    path_string(attribute.path) == "location"@
}

/// The first attribute at or after `from` whose path is `location`.
pub open spec fn location_attribute(attributes: Seq<Attribute>, from: int) -> Option<Attribute>
    decreases attributes.len() - from,
{
    if from < 0 || from >= attributes.len() {
        None
    } else if is_location(attributes[from]) {
        Some(attributes[from])
    } else {
        location_attribute(attributes, from + 1)
    }
}

/// The location that a `location` attribute gives.
pub open spec fn location_value(attribute: Attribute) -> Result<u32, LayoutErrorView> {
    match attribute.meta {
        None => Err(LayoutErrorView::MalformedAttribute),
        Some(Meta::NameValue(Lit::Int(digits))) => match decimal_u32(digits@) {
            Some(location) => Ok(location),
            None => Err(LayoutErrorView::LocationOutOfRange),
        },
        Some(Meta::NameValue(Lit::Other)) => Err(LayoutErrorView::InvalidLocationValue),
        Some(_) => Err(LayoutErrorView::InvalidAttribute),
    }
}

/// What a field gives to a layout. The field must have a name and carry a
/// `location` attribute, the first of which counts.
pub open spec fn binding_of(field: Field) -> Result<FieldBinding, LayoutErrorView> {
    match field.ident {
        None => Err(LayoutErrorView::UnnamedField),
        Some(name) => match location_attribute(field.attrs@, 0) {
            None => Err(LayoutErrorView::MissingLocation(name@)),
            Some(attribute) => match location_value(attribute) {
                Ok(location) => Ok(FieldBinding { location, component: field.ty }),
                Err(e) => Err(e),
            },
        },
    }
}

/// What the fields give, in order; the error of the first field that has one.
pub open spec fn bindings_of(fields: Seq<Field>) -> Result<Seq<FieldBinding>, LayoutErrorView>
    decreases fields.len(),
{
    if fields.len() == 0 {
        Ok(Seq::empty())
    } else {
        match bindings_of(fields.drop_last()) {
            Err(e) => Err(e),
            Ok(bindings) => match binding_of(fields.last()) {
                Err(e) => Err(e),
                Ok(binding) => Ok(bindings.push(binding)),
            },
        }
    }
}

/// What a declaration gives: only a struct with named fields gives
/// anything.
pub open spec fn declared_bindings(data: Data) -> Result<Seq<FieldBinding>, LayoutErrorView> {
    match data {
        Data::Enum => Err(LayoutErrorView::Enum),
        Data::Union => Err(LayoutErrorView::Union),
        Data::Struct(Fields::Unit) => Err(LayoutErrorView::UnitStruct),
        Data::Struct(Fields::Unnamed) => Err(LayoutErrorView::TupleStruct),
        Data::Struct(Fields::Named(fields)) => bindings_of(fields@),
    }
}

/// Bytes that the fields take together.
pub open spec fn total_size(bindings: Seq<FieldBinding>) -> nat
    decreases bindings.len(),
{
    if bindings.len() == 0 {
        0
    } else {
        total_size(bindings.drop_last()) + bindings.last().component.spec_size() as nat
    }
}

/// The bindings of a layout: each field at the offset where the fields
/// before it end.
pub open spec fn laid_out(bindings: Seq<FieldBinding>) -> Seq<Binding> {
    Seq::new(
        bindings.len(),
        |i: int|
            Binding {
                location: bindings[i].location,
                component: bindings[i].component,
                offset: total_size(bindings.take(i)) as usize,
            },
    )
}

/// The layout of a record of `stride` bytes that is declared as `data`.
pub open spec fn derived(data: Data, stride: usize) -> Result<LayoutView, LayoutErrorView> {
    match declared_bindings(data) {
        Err(e) => Err(e),
        Ok(bindings) => if total_size(bindings) <= stride {
            Ok(LayoutView { bindings: laid_out(bindings), stride })
        } else {
            Err(LayoutErrorView::RecordTooSmall)
        },
    }
}

/// Whether the attribute's path is the single word `location`.
fn names_location(attribute: &Attribute) -> (yes: bool)
    ensures
        yes == is_location(*attribute),
{
    let text = get_path_string(&attribute.path);
    let word = "location".to_owned();
    text == word
}

/// Read the location that a `location` attribute gives.
fn read_location(attribute: &Attribute) -> (outcome: Result<u32, LayoutError>)
    ensures
        agrees(outcome, location_value(*attribute)),
{
    match &attribute.meta {
        None => Err(LayoutError::MalformedAttribute),
        Some(Meta::NameValue(Lit::Int(digits))) => match parse_u32(digits.as_str()) {
            Some(location) => Ok(location),
            None => Err(LayoutError::LocationOutOfRange),
        },
        Some(Meta::NameValue(Lit::Other)) => Err(LayoutError::InvalidLocationValue),
        Some(_) => Err(LayoutError::InvalidAttribute),
    }
}

/// Find out what one field gives to a layout.
pub fn field_binding(field: &Field) -> (outcome: Result<FieldBinding, LayoutError>)
    ensures
        agrees(outcome, binding_of(*field)),
{
    let name = match &field.ident {
        None => {
            return Err(LayoutError::UnnamedField);
        },
        Some(name) => name,
    };
    let n = field.attrs.len();
    let mut i: usize = 0;
    while i < n
        invariant
            n == field.attrs@.len(),
            i <= n,
            field.ident == Some(*name),
            location_attribute(field.attrs@, 0) == location_attribute(field.attrs@, i as int),
        decreases n - i,
    {
        if names_location(&field.attrs[i]) {
            return match read_location(&field.attrs[i]) {
                Ok(location) => Ok(FieldBinding { location, component: field.ty }),
                Err(e) => Err(e),
            };
        }
        i += 1;
    }
    Err(LayoutError::MissingLocation(name.clone()))
}

/// Find out what the fields of a declaration give, in declared order.
pub fn field_bindings(data: &Data) -> (outcome: Result<Vec<FieldBinding>, LayoutError>)
    ensures
        match outcome {
            Ok(bindings) => declared_bindings(*data) == Ok::<_, LayoutErrorView>(bindings@),
            Err(e) => declared_bindings(*data) == Err::<Seq<FieldBinding>, _>(e@),
        },
{
    match data {
        Data::Enum => Err(LayoutError::Enum),
        Data::Union => Err(LayoutError::Union),
        Data::Struct(Fields::Unit) => Err(LayoutError::UnitStruct),
        Data::Struct(Fields::Unnamed) => Err(LayoutError::TupleStruct),
        Data::Struct(Fields::Named(fields)) => {
            let n = fields.len();
            let mut bindings: Vec<FieldBinding> = Vec::new();
            let mut i: usize = 0;
            while i < n
                invariant
                    n == fields@.len(),
                    i <= n,
                    *data == Data::Struct(Fields::Named(*fields)),
                    bindings_of(fields@.take(i as int)) == Ok::<_, LayoutErrorView>(bindings@),
                decreases n - i,
            {
                proof {
                    assert(fields@.take(i + 1).drop_last() =~= fields@.take(i as int));
                }
                match field_binding(&fields[i]) {
                    Ok(binding) => {
                        bindings.push(binding);
                    },
                    Err(e) => {
                        proof {
                            lemma_first_error(fields@, i + 1);
                        }
                        return Err(e);
                    },
                }
                i += 1;
            }
            assert(fields@.take(n as int) =~= fields@);
            Ok(bindings)
        },
    }
}

/// Once some fields have an error, more fields have the same error.
proof fn lemma_first_error(fields: Seq<Field>, k: int)
    requires
        0 <= k <= fields.len(),
        bindings_of(fields.take(k)) is Err,
    ensures
        bindings_of(fields) == bindings_of(fields.take(k)),
    decreases fields.len() - k,
{
    if k < fields.len() {
        assert(fields.take(k + 1).drop_last() =~= fields.take(k));
        lemma_first_error(fields, k + 1);
    } else {
        assert(fields.take(k) =~= fields);
    }
}

/// The first fields never take more bytes than all of them.
pub proof fn lemma_total_size_grows(bindings: Seq<FieldBinding>, k: int)
    requires
        0 <= k <= bindings.len(),
    ensures
        total_size(bindings.take(k)) <= total_size(bindings),
    decreases bindings.len() - k,
{
    if k < bindings.len() {
        assert(bindings.take(k + 1).drop_last() =~= bindings.take(k));
        lemma_total_size_grows(bindings, k + 1);
    } else {
        assert(bindings.take(k) =~= bindings);
    }
}

/// Derive the layout of a vertex record of `stride` bytes from its
/// declaration.
///
/// Only a struct with named fields has a layout, and only if every field
/// carries an attribute `location = n` with `n` a 32-bit integer literal.
/// Of the fields in declared order the first that fails this decides the
/// error. Fields that take more than `stride` bytes together are refused
/// last.
pub fn vertex_attrib_pointers_derive(input: &Data, stride: usize) -> (outcome: Result<
    VertexLayout,
    LayoutError,
>)
    ensures
        match outcome {
            Ok(layout) => derived(*input, stride) == Ok::<_, LayoutErrorView>(layout@) && layout@.wf(),
            Err(e) => derived(*input, stride) == Err::<LayoutView, _>(e@),
        },
{
    let fields = match field_bindings(input) {
        Ok(fields) => fields,
        Err(e) => {
            return Err(e);
        },
    };
    let n = fields.len();
    let mut bindings: Vec<Binding> = Vec::new();
    let mut offset: usize = 0;
    let mut i: usize = 0;
    while i < n
        invariant
            n == fields@.len(),
            i <= n,
            declared_bindings(*input) == Ok::<_, LayoutErrorView>(fields@),
            offset == total_size(fields@.take(i as int)),
            offset <= stride,
            bindings@ == laid_out(fields@).take(i as int),
            forall|j: int| 0 <= j < i ==> (#[trigger] fields@[j]).component.wf(),
        decreases n - i,
    {
        let field = &fields[i];
        let size = field.component.size();
        proof {
            use_type_invariant(&field.component);
            assert(fields@.take(i + 1).drop_last() =~= fields@.take(i as int));
        }
        if size > stride - offset {
            proof {
                lemma_total_size_grows(fields@, i + 1);
            }
            return Err(LayoutError::RecordTooSmall);
        }
        bindings.push(Binding { location: field.location, component: field.component, offset });
        offset = offset + size;
        i += 1;
    }
    proof {
        assert(fields@.take(n as int) =~= fields@);
        assert(bindings@ =~= laid_out(fields@));
        lemma_laid_out_wf(fields@, stride);
    }
    Ok(VertexLayout::from_parts(bindings, stride))
}

/// Where every field gives a binding, the fields give their bindings in
/// order.
pub proof fn lemma_bindings_of(fields: Seq<Field>)
    requires
        forall|i: int| 0 <= i < fields.len() ==> (#[trigger] binding_of(fields[i])) is Ok,
    ensures
        bindings_of(fields) matches Ok(bindings) && bindings.len() == fields.len() && forall|i: int|
            0 <= i < fields.len() ==> binding_of(fields[i]) == Ok::<_, LayoutErrorView>(
                #[trigger] bindings[i],
            ),
    decreases fields.len(),
{
    if fields.len() > 0 {
        let front = fields.drop_last();
        lemma_bindings_of(front);
    }
}

/// The first bindings of a layout take what the first fields take.
proof fn lemma_span_laid_out(bindings: Seq<FieldBinding>, n: int)
    requires
        0 <= n <= bindings.len(),
    ensures
        span(laid_out(bindings), n) == total_size(bindings.take(n)),
    decreases n,
{
    if n > 0 {
        lemma_span_laid_out(bindings, n - 1);
        assert(bindings.take(n).drop_last() =~= bindings.take(n - 1));
    }
}

/// Fields of well-formed components that fit in the record are laid out
/// well.
pub proof fn lemma_laid_out_wf(bindings: Seq<FieldBinding>, stride: usize)
    requires
        forall|i: int| 0 <= i < bindings.len() ==> (#[trigger] bindings[i]).component.wf(),
        total_size(bindings) <= stride,
    ensures
        (LayoutView { bindings: laid_out(bindings), stride }).wf(),
{
    let layout = LayoutView { bindings: laid_out(bindings), stride };
    assert forall|i: int| 0 <= i < layout.bindings.len() implies (#[trigger] layout.bindings[i]).offset
        == span(layout.bindings, i) by {
        lemma_span_laid_out(bindings, i);
        lemma_total_size_grows(bindings, i);
    }
    lemma_span_laid_out(bindings, bindings.len() as int);
}

/// More bindings never take fewer bytes, and a well-formed one more takes
/// more.
pub proof fn lemma_span_grows(bindings: Seq<Binding>, i: int, j: int)
    requires
        0 <= i <= j <= bindings.len(),
        forall|k: int| 0 <= k < bindings.len() ==> (#[trigger] bindings[k]).component.wf(),
    ensures
        span(bindings, i) <= span(bindings, j),
        i < j ==> span(bindings, i) + bindings[i].component.spec_size() <= span(bindings, j),
        i < j ==> bindings[i].component.spec_size() >= 1,
    decreases j - i,
{
    if i < j {
        bindings[i].component.lemma_size();
        bindings[j - 1].component.lemma_size();
        lemma_span_grows(bindings, i, j - 1);
    }
}

/// In a well-formed layout the offsets grow strictly from each attribute to
/// the next, and every attribute ends inside the record.
pub proof fn lemma_offsets_increase(layout: LayoutView, i: int, j: int)
    requires
        layout.wf(),
        0 <= i <= j < layout.bindings.len(),
    ensures
        i < j ==> layout.bindings[i].end() <= layout.bindings[j].offset,
        i < j ==> layout.bindings[i].offset < layout.bindings[j].offset,
        layout.bindings[i].offset < layout.bindings[i].end(),
        layout.bindings[i].end() <= layout.stride,
{
    lemma_span_grows(layout.bindings, i, j);
    lemma_span_grows(layout.bindings, i, layout.bindings.len() as int);
}

/// A record type whose every field carries an explicit location, and whose
/// fields fit in its size, has a layout with one binding for each field, at
/// the field's location. The offsets of the bindings grow strictly in
/// declared order, every binding ends inside the record, and where the
/// fields' locations are distinct, so are the bindings'.
pub proof fn lemma_derived_layout(data: Data, fields: Seq<Field>, stride: usize)
    requires
        data matches Data::Struct(Fields::Named(named)) && named@ == fields,
        forall|i: int| 0 <= i < fields.len() ==> (#[trigger] fields[i]).ty.wf(),
        forall|i: int| 0 <= i < fields.len() ==> (#[trigger] binding_of(fields[i])) is Ok,
        bindings_of(fields) matches Ok(bindings) && total_size(bindings) <= stride,
    ensures
        derived(data, stride) matches Ok(layout) && {
            &&& layout.wf()
            &&& layout.stride == stride
            &&& layout.bindings.len() == fields.len()
            &&& forall|i: int|
                0 <= i < fields.len() ==> binding_of(fields[i]) == Ok::<_, LayoutErrorView>(
                    FieldBinding {
                        location: (#[trigger] layout.bindings[i]).location,
                        component: layout.bindings[i].component,
                    },
                )
            &&& forall|i: int, j: int|
                0 <= i < j < fields.len() ==> (#[trigger] layout.bindings[i]).offset < (
                #[trigger] layout.bindings[j]).offset
            &&& forall|i: int| 0 <= i < fields.len() ==> (#[trigger] layout.bindings[i]).end() <= stride
            &&& (forall|i: int, j: int|
                0 <= i < j < fields.len() ==> (#[trigger] binding_of(fields[i]))->Ok_0.location != (
                #[trigger] binding_of(fields[j]))->Ok_0.location) ==> layout.distinct_locations()
        },
{
    lemma_bindings_of(fields);
    let bindings = bindings_of(fields)->Ok_0;
    let layout = LayoutView { bindings: laid_out(bindings), stride };
    lemma_laid_out_wf(bindings, stride);
    assert forall|i: int, j: int| 0 <= i < j < fields.len() implies (#[trigger] layout.bindings[i]).offset < (
    #[trigger] layout.bindings[j]).offset by {
        lemma_offsets_increase(layout, i, j);
    }
    assert forall|i: int| 0 <= i < fields.len() implies (#[trigger] layout.bindings[i]).end() <= stride by {
        lemma_offsets_increase(layout, i, i);
    }
}

} // verus!
