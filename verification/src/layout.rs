//! Vertex layouts: what a field of a vertex record is made of, where each
//! attribute lies inside a record, and the requests that tell the device so.

use vstd::prelude::*;
use crate::device::{Call, Device, Gl};
use crate::gl;

verus! {

/// The scalar kinds a vertex attribute or an index can be made of.
#[derive(Clone, Copy, Debug, PartialEq, Eq, Structural)]
pub enum ScalarType {
    Byte,
    UnsignedByte,
    Short,
    UnsignedShort,
    Int,
    UnsignedInt,
    Float,
}

impl ScalarType {
    /// The code by which the device knows this kind.
    pub open spec fn spec_code(self) -> u32 {
        match self {
            ScalarType::Byte => gl::BYTE,
            ScalarType::UnsignedByte => gl::UNSIGNED_BYTE,
            ScalarType::Short => gl::SHORT,
            ScalarType::UnsignedShort => gl::UNSIGNED_SHORT,
            ScalarType::Int => gl::INT,
            ScalarType::UnsignedInt => gl::UNSIGNED_INT,
            ScalarType::Float => gl::FLOAT,
        }
    }

    /// The code by which the device knows this kind.
    #[verifier::when_used_as_spec(spec_code)]
    pub fn code(self) -> (code: u32)
        ensures
            code == self.spec_code(),
    {
        match self {
            ScalarType::Byte => gl::BYTE,
            ScalarType::UnsignedByte => gl::UNSIGNED_BYTE,
            ScalarType::Short => gl::SHORT,
            ScalarType::UnsignedShort => gl::UNSIGNED_SHORT,
            ScalarType::Int => gl::INT,
            ScalarType::UnsignedInt => gl::UNSIGNED_INT,
            ScalarType::Float => gl::FLOAT,
        }
    }

    /// Bytes that one scalar of this kind takes in memory.
    pub open spec fn spec_width(self) -> usize {
        match self {
            ScalarType::Byte | ScalarType::UnsignedByte => 1,
            ScalarType::Short | ScalarType::UnsignedShort => 2,
            ScalarType::Int | ScalarType::UnsignedInt | ScalarType::Float => 4,
        }
    }

    /// Bytes that one scalar of this kind takes in memory.
    #[verifier::when_used_as_spec(spec_width)]
    pub fn width(self) -> (width: usize)
        ensures
            width == self.spec_width(),
    {
        match self {
            ScalarType::Byte | ScalarType::UnsignedByte => 1,
            ScalarType::Short | ScalarType::UnsignedShort => 2,
            ScalarType::Int | ScalarType::UnsignedInt | ScalarType::Float => 4,
        }
    }
}

/// What one field of a vertex record is made of: one to four scalars of one
/// kind, packed.
#[derive(Clone, Copy, Debug, PartialEq, Eq, Structural)]
pub struct Component {
    count: u8,
    scalar: ScalarType,
}

impl Component {
    /// One to four scalars.
    #[verifier::type_invariant]
    pub closed spec fn wf(self) -> bool {
        1 <= self.count <= 4
    }

    /// The component of `count` scalars of kind `scalar`.
    pub closed spec fn of(count: u8, scalar: ScalarType) -> Component {
        Component { count, scalar }
    }

    /// How many scalars.
    pub closed spec fn spec_count(&self) -> u8 {
        self.count
    }

    /// Scalars of which kind.
    pub closed spec fn spec_scalar(&self) -> ScalarType {
        self.scalar
    }

    /// Bytes that the component takes in memory.
    pub open spec fn spec_size(&self) -> usize {
        (self.spec_count() * self.spec_scalar().spec_width()) as usize
    }

    /// The component of `count` scalars of a kind has that count and that
    /// kind, and is well formed for one to four scalars.
    pub broadcast proof fn lemma_of(count: u8, scalar: ScalarType)
        ensures
            (#[trigger] Component::of(count, scalar)).spec_count() == count,
            Component::of(count, scalar).spec_scalar() == scalar,
            Component::of(count, scalar).wf() <==> 1 <= count <= 4,
    {
    }

    /// A component takes at least one byte and at most sixteen.
    pub proof fn lemma_size(self)
        requires
            self.wf(),
        ensures
            1 <= self.spec_size() <= 16,
            self.spec_size() == self.spec_count() * self.spec_scalar().spec_width(),
    {
        let count = self.count as int;
        let width = self.scalar.spec_width() as int;
        assert(1 <= count * width <= 16) by (nonlinear_arith)
            requires
                1 <= count <= 4,
                1 <= width <= 4,
        ;
    }

    /// `Some` for one to four scalars, `None` for any other count.
    pub fn new(count: u8, scalar: ScalarType) -> (component: Option<Component>)
        ensures
            component == if 1 <= count <= 4 {
                Some(Component::of(count, scalar))
            } else {
                None
            },
    {
        if 1 <= count && count <= 4 {
            Some(Component { count, scalar })
        } else {
            None
        }
    }

    /// How many scalars.
    #[verifier::when_used_as_spec(spec_count)]
    pub fn count(&self) -> (count: u8)
        ensures
            count == self.spec_count(),
            1 <= count <= 4,
    {
        proof {
            use_type_invariant(self);
        }
        self.count
    }

    /// Scalars of which kind.
    #[verifier::when_used_as_spec(spec_scalar)]
    pub fn scalar(&self) -> (scalar: ScalarType)
        ensures
            scalar == self.spec_scalar(),
    {
        self.scalar
    }

    /// Bytes that the component takes in memory.
    #[verifier::when_used_as_spec(spec_size)]
    pub fn size(&self) -> (size: usize)
        ensures
            size == self.spec_size(),
            1 <= size <= 16,
    {
        proof {
            use_type_invariant(self);
            self.lemma_size();
        }
        (self.count as usize) * self.scalar.width()
    }

    /// Tell the device how the attribute at `location` is read: this
    /// component, `offset` bytes into each record, records `stride` bytes
    /// apart, values taken as they are.
    pub fn attrib_pointer<D: Device>(&self, gl: &mut Gl<D>, location: u32, stride: usize, offset: usize)
        ensures
            final(gl).issued() == old(gl).issued().push(self.pointer_call(location, stride, offset)),
    {
        gl.device.vertex_attrib_pointer(
            location,
            self.count,
            self.scalar.code(),
            false,
            stride,
            offset,
        );
    }

    /// The request that `attrib_pointer` makes.
    pub open spec fn pointer_call(self, location: u32, stride: usize, offset: usize) -> Call {
        Call::VertexAttribPointer {
            location,
            count: self.spec_count(),
            scalar: self.spec_scalar().spec_code(),
            normalized: false,
            stride,
            offset,
        }
    }
}

/// One attribute of a vertex layout: where the device finds it.
#[derive(Clone, Copy, Debug, PartialEq, Eq, Structural)]
pub struct Binding {
    /// The attribute location that the shader program reads it at.
    pub location: u32,
    pub component: Component,
    /// Bytes from the start of a record to the attribute.
    pub offset: usize,
}

impl Binding {
    /// Bytes from the start of a record to the end of the attribute.
    pub open spec fn end(self) -> int {
        self.offset + self.component.spec_size()
    }
}

/// A vertex layout as a value: the bindings in declared order, and the bytes
/// from one record to the next.
pub struct LayoutView {
    pub bindings: Seq<Binding>,
    pub stride: usize,
}

/// Bytes that the first `n` bindings take together.
pub open spec fn span(bindings: Seq<Binding>, n: int) -> nat
    decreases n,
{
    if n <= 0 {
        0
    } else {
        span(bindings, n - 1) + bindings[n - 1].component.spec_size() as nat
    }
}

impl LayoutView {
    /// Each attribute lies where the attributes before it end, and all of
    /// them together fit in the record.
    pub open spec fn wf(self) -> bool {
        &&& forall|i: int| 0 <= i < self.bindings.len() ==> (#[trigger] self.bindings[i]).component.wf()
        &&& forall|i: int|
            0 <= i < self.bindings.len() ==> (#[trigger] self.bindings[i]).offset == span(self.bindings, i)
        &&& span(self.bindings, self.bindings.len() as int) <= self.stride
    }

    /// No two bindings share a location.
    pub open spec fn distinct_locations(self) -> bool {
        forall|i: int, j: int|
            0 <= i < j < self.bindings.len() ==> (#[trigger] self.bindings[i]).location != (
            #[trigger] self.bindings[j]).location
    }

    /// The requests that describe every attribute to the device, in declared
    /// order.
    pub open spec fn pointer_calls(self) -> Seq<Call> {
        Seq::new(
            self.bindings.len(),
            |i: int|
                self.bindings[i].component.pointer_call(
                    self.bindings[i].location,
                    self.stride,
                    self.bindings[i].offset,
                ),
        )
    }

    /// The requests that switch every attribute on, in declared order.
    pub open spec fn enable_calls(self) -> Seq<Call> {
        Seq::new(
            self.bindings.len(),
            |i: int| Call::EnableVertexAttribArray { location: self.bindings[i].location },
        )
    }

    /// The requests that switch every attribute off, in declared order.
    pub open spec fn disable_calls(self) -> Seq<Call> {
        Seq::new(
            self.bindings.len(),
            |i: int| Call::DisableVertexAttribArray { location: self.bindings[i].location },
        )
    }
}

/// The layout of one vertex record type: for each field, in declared order,
/// the location, the component and the byte offset; and the stride.
pub struct VertexLayout {
    bindings: Vec<Binding>,
    stride: usize,
}

impl View for VertexLayout {
    type V = LayoutView;

    closed spec fn view(&self) -> LayoutView {
        LayoutView { bindings: self.bindings@, stride: self.stride }
    }
}

impl VertexLayout {
    #[verifier::type_invariant]
    closed spec fn inv(self) -> bool {
        self@.wf()
    }

    /// A layout from its parts.
    pub(crate) fn from_parts(bindings: Vec<Binding>, stride: usize) -> (layout: VertexLayout)
        requires
            (LayoutView { bindings: bindings@, stride }).wf(),
        ensures
            layout@ == (LayoutView { bindings: bindings@, stride }),
    {
        VertexLayout { bindings, stride }
    }

    /// The bindings, in declared order.
    pub fn bindings(&self) -> (bindings: &Vec<Binding>)
        ensures
            bindings@ == self@.bindings,
            self@.wf(),
    {
        proof {
            use_type_invariant(self);
        }
        &self.bindings
    }

    /// Bytes from one record to the next.
    pub fn stride(&self) -> (stride: usize)
        ensures
            stride == self@.stride,
    {
        self.stride
    }

    /// Describe every attribute to the device, once, in declared order. The
    /// buffer that holds the records must be bound when this is called.
    pub fn setup_attrib_pointer<D: Device>(&self, gl: &mut Gl<D>)
        ensures
            final(gl).issued() == old(gl).issued() + self@.pointer_calls(),
    {
        let n = self.bindings.len();
        let mut i: usize = 0;
        while i < n
            invariant
                n == self.bindings@.len(),
                i <= n,
                gl.issued() == old(gl).issued() + self@.pointer_calls().take(i as int),
            decreases n - i,
        {
            let binding = &self.bindings[i];
            binding.component.attrib_pointer(gl, binding.location, self.stride, binding.offset);
            assert(self@.pointer_calls().take(i + 1) == self@.pointer_calls().take(i as int).push(
                self@.pointer_calls()[i as int],
            ));
            i += 1;
        }
    }

    /// Switch every attribute on, in declared order.
    pub fn enable_attribs<D: Device>(&self, gl: &mut Gl<D>)
        ensures
            final(gl).issued() == old(gl).issued() + self@.enable_calls(),
    {
        let n = self.bindings.len();
        let mut i: usize = 0;
        while i < n
            invariant
                n == self.bindings@.len(),
                i <= n,
                gl.issued() == old(gl).issued() + self@.enable_calls().take(i as int),
            decreases n - i,
        {
            gl.device.enable_vertex_attrib_array(self.bindings[i].location);
            assert(self@.enable_calls().take(i + 1) == self@.enable_calls().take(i as int).push(
                self@.enable_calls()[i as int],
            ));
            i += 1;
        }
    }

    /// Switch every attribute off, in declared order.
    pub fn disable_attribs<D: Device>(&self, gl: &mut Gl<D>)
        ensures
            final(gl).issued() == old(gl).issued() + self@.disable_calls(),
    {
        let n = self.bindings.len();
        let mut i: usize = 0;
        while i < n
            invariant
                n == self.bindings@.len(),
                i <= n,
                gl.issued() == old(gl).issued() + self@.disable_calls().take(i as int),
            decreases n - i,
        {
            gl.device.disable_vertex_attrib_array(self.bindings[i].location);
            assert(self@.disable_calls().take(i + 1) == self@.disable_calls().take(i as int).push(
                self@.disable_calls()[i as int],
            ));
            i += 1;
        }
    }
}

/// A type whose values can be a field of a vertex record.
///
/// The spec function has a default so that a type outside the verifier can
/// implement the trait; such a type is taken on trust to keep the contracts.
pub trait VertComponent {
    /// What a value of the type is made of.
    open spec fn spec_component() -> Component {
        arbitrary()
    }

    fn component() -> (component: Component)
        ensures
            component == Self::spec_component(),
    ;

    /// Tell the device how an attribute of this type is read at `location`,
    /// `offset` bytes into each record, records `stride` bytes apart.
    fn attrib_pointer<D: Device>(gl: &mut Gl<D>, location: u32, stride: usize, offset: usize)
        ensures
            final(gl).issued() == old(gl).issued().push(
                Self::spec_component().pointer_call(location, stride, offset),
            ),
    {
        Self::component().attrib_pointer(gl, location, stride, offset);
    }
}

/// A vertex record type: it knows its layout.
///
/// The spec function has a default so that a type outside the verifier can
/// implement the trait; such a type is taken on trust to keep the contracts.
pub trait VertexAttrib {
    /// The layout that every value of the type has.
    open spec fn spec_layout() -> LayoutView {
        arbitrary()
    }

    fn layout() -> (layout: VertexLayout)
        ensures
            layout@ == Self::spec_layout(),
    ;

    /// Describe every attribute to the device, in declared order.
    fn setup_attrib_pointer<D: Device>(gl: &mut Gl<D>)
        ensures
            final(gl).issued() == old(gl).issued() + Self::spec_layout().pointer_calls(),
    {
        Self::layout().setup_attrib_pointer(gl);
    }

    /// Switch every attribute on, in declared order.
    fn enable_attribs<D: Device>(gl: &mut Gl<D>)
        ensures
            final(gl).issued() == old(gl).issued() + Self::spec_layout().enable_calls(),
    {
        Self::layout().enable_attribs(gl);
    }

    /// Switch every attribute off, in declared order.
    fn disable_attribs<D: Device>(gl: &mut Gl<D>)
        ensures
            final(gl).issued() == old(gl).issued() + Self::spec_layout().disable_calls(),
    {
        Self::layout().disable_attribs(gl);
    }
}

/// A type whose values can be the indices of a mesh.
///
/// The spec function has a default so that a type outside the verifier can
/// implement the trait; such a type is taken on trust to keep the contracts.
pub trait Index {
    /// The scalar kind as which the device reads an index.
    open spec fn spec_type() -> ScalarType {
        arbitrary()
    }

    fn get_type() -> (scalar: ScalarType)
        ensures
            scalar == Self::spec_type(),
    ;
}

impl Index for u16 {
    open spec fn spec_type() -> ScalarType {
        ScalarType::UnsignedShort
    }

    fn get_type() -> (scalar: ScalarType) {
        ScalarType::UnsignedShort
    }
}

impl Index for u32 {
    open spec fn spec_type() -> ScalarType {
        ScalarType::UnsignedInt
    }

    fn get_type() -> (scalar: ScalarType) {
        ScalarType::UnsignedInt
    }
}

} // verus!
