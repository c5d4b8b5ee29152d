//! A vertex with a position and a colour.

use vstd::prelude::*;
use crate::derive::{
    binding_of, bindings_of, decimal, decimal_u32, declared_bindings, derived, is_location, joined,
    laid_out, location_attribute, location_value, total_size, vertex_attrib_pointers_derive,
    FieldBinding, LayoutErrorView,
};
use crate::layout::{Binding, Component, LayoutView, ScalarType, VertComponent, VertexAttrib, VertexLayout};
use crate::record::{Attribute, Data, Field, Fields, Lit, Meta, Path};
use crate::vector::Vec3;

verus! {

/// A vertex: its position at location 0, its colour at location 1, each
/// three single-precision values, packed in 24 bytes.
#[derive(Clone, Copy, Debug, PartialEq, Eq)]
pub struct Vertex {
    pub pos: Vec3,
    pub col: Vec3,
}

/// Bytes that a `Vertex` takes in memory.
pub const VERTEX_SIZE: usize = 24;

/// The attribute `#[location = value]`.
fn location(value: &str) -> (attribute: Attribute)
    ensures
        is_location(attribute),
        attribute.meta matches Some(Meta::NameValue(Lit::Int(digits))) && digits@ == value@,
{
    let word = "location".to_owned();
    let segments = vec![word];
    let path = Path { leading_colon: false, segments };
    assert(joined(path.segments@) == "location"@);
    Attribute { path, meta: Some(Meta::NameValue(Lit::Int(value.to_owned()))) }
}

/// The field `#[location = value] name: Vec3`.
fn vec3_field(name: &str, value: &str) -> (field: Field)
    ensures
        field.ident is Some,
        field.attrs@.len() == 1,
        is_location(field.attrs@[0]),
        field.attrs@[0].meta matches Some(Meta::NameValue(Lit::Int(digits))) && digits@ == value@,
        field.ty == Component::of(3, ScalarType::Float),
{
    Field {
        ident: Some(name.to_owned()),
        attrs: vec![location(value)],
        ty: Vec3::component(),
    }
}

impl Vertex {
    /// The vertex at `pos` with the colour `col`.
    pub fn new(pos: Vec3, col: Vec3) -> (vertex: Self)
        ensures
            vertex == (Vertex { pos, col }),
    {
        Self { pos, col }
    }

    /// How the type is declared.
    pub fn declaration() -> (data: Data)
        ensures
            derived(data, VERTEX_SIZE) == Ok::<_, LayoutErrorView>(Self::spec_layout()),
    {
        let pos = vec3_field("pos", "0");
        let col = vec3_field("col", "1");
        let fields = vec![pos, col];
        let data = Data::Struct(Fields::Named(fields));
        proof {
            broadcast use Component::lemma_of;

            reveal_strlit("0");
            reveal_strlit("1");
            let vec3 = Component::of(3, ScalarType::Float);
            assert(decimal("0"@.drop_last()) == 0);
            assert(decimal("1"@.drop_last()) == 0);
            assert(decimal("0"@) == 0);
            assert(decimal("1"@) == 1);
            assert(decimal_u32("0"@) == Some(0u32));
            assert(decimal_u32("1"@) == Some(1u32));
            assert(location_attribute(pos.attrs@, 0) == Some(pos.attrs@[0]));
            assert(location_attribute(col.attrs@, 0) == Some(col.attrs@[0]));
            assert(location_value(pos.attrs@[0]) == Ok::<_, LayoutErrorView>(0u32));
            assert(location_value(col.attrs@[0]) == Ok::<_, LayoutErrorView>(1u32));
            let first = FieldBinding { location: 0, component: vec3 };
            let second = FieldBinding { location: 1, component: vec3 };
            assert(binding_of(pos) == Ok::<_, LayoutErrorView>(first));
            assert(binding_of(col) == Ok::<_, LayoutErrorView>(second));
            let both = fields@;
            assert(both.drop_last() =~= seq![pos]);
            assert(both.drop_last().drop_last() =~= Seq::<Field>::empty());
            assert(bindings_of(both.drop_last().drop_last()) == Ok::<_, LayoutErrorView>(
                Seq::<FieldBinding>::empty(),
            ));
            assert(bindings_of(both.drop_last()) == Ok::<_, LayoutErrorView>(
                Seq::<FieldBinding>::empty().push(first),
            ));
            let bindings = seq![first, second];
            assert(Seq::<FieldBinding>::empty().push(first).push(second) =~= bindings);
            assert(bindings_of(both) == Ok::<_, LayoutErrorView>(bindings));
            assert(declared_bindings(data) == Ok::<_, LayoutErrorView>(bindings));
            vec3.lemma_size();
            assert(bindings.take(0) =~= Seq::<FieldBinding>::empty());
            assert(bindings.take(1) =~= seq![first]);
            assert(bindings.take(1).drop_last() =~= Seq::<FieldBinding>::empty());
            assert(bindings.drop_last() =~= seq![first]);
            assert(total_size(bindings.take(0)) == 0);
            assert(total_size(bindings.take(1)) == 12);
            assert(total_size(bindings) == 24);
            assert(laid_out(bindings) =~= Self::spec_layout().bindings);
        }
        data
    }
}

impl VertexAttrib for Vertex {
    open spec fn spec_layout() -> LayoutView {
        LayoutView {
            bindings: seq![
                Binding { location: 0, component: Component::of(3, ScalarType::Float), offset: 0 },
                Binding { location: 1, component: Component::of(3, ScalarType::Float), offset: 12 },
            ],
            stride: VERTEX_SIZE,
        }
    }

    fn layout() -> (layout: VertexLayout) {
        vertex_attrib_pointers_derive(&Self::declaration(), VERTEX_SIZE).unwrap()
    }
}

} // verus!
