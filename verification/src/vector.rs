//! Single-precision scalars, vectors and matrices, as the device takes them.
//!
//! Nothing here computes with the values: they are handed to the device as
//! they are. Each value is therefore held as its IEEE-754 bit pattern, which
//! takes the same four bytes in memory as the value itself.

use vstd::prelude::*;
use crate::device::{Call, Device, Gl};
use crate::layout::{Component, ScalarType, VertComponent};
use crate::uniform::Uniform;

verus! {

/// One single-precision value.
#[derive(Clone, Copy, Debug, PartialEq, Eq, Structural)]
pub struct Float {
    pub bits: u32,
}

impl Float {
    /// The value with the given bit pattern.
    pub fn new(x: u32) -> (value: Self)
        ensures
            value == (Float { bits: x }),
    {
        Self { bits: x }
    }
}

impl Uniform for Float {
    open spec fn request(&self, location: i32) -> Call {
        Call::Uniform1f { location, x: self.bits }
    }

    fn set_uniform<D: Device>(&self, gl: &mut Gl<D>, location: i32) {
        gl.device.uniform_1f(location, self.bits);
    }
}

/// Two single-precision values, `x` then `y`.
#[derive(Clone, Copy, Debug, PartialEq, Eq)]
pub struct Vec2 {
    pub bits: [u32; 2],
}

impl Vec2 {
    /// The vector of the values with the given bit patterns.
    pub fn new(x: u32, y: u32) -> (value: Self)
        ensures
            value.bits@ == seq![x, y],
    {
        Self { bits: [x, y] }
    }
}

impl VertComponent for Vec2 {
    open spec fn spec_component() -> Component {
        Component::of(2, ScalarType::Float)
    }

    fn component() -> (component: Component) {
        Component::new(2, ScalarType::Float).unwrap()
    }
}

impl Uniform for Vec2 {
    open spec fn request(&self, location: i32) -> Call {
        Call::Uniform2f { location, x: self.bits[0], y: self.bits[1] }
    }

    fn set_uniform<D: Device>(&self, gl: &mut Gl<D>, location: i32) {
        gl.device.uniform_2f(location, self.bits[0], self.bits[1]);
    }
}

/// Three single-precision values, `x`, `y`, then `z`.
#[derive(Clone, Copy, Debug, PartialEq, Eq)]
pub struct Vec3 {
    pub bits: [u32; 3],
}

impl Vec3 {
    /// The vector of the values with the given bit patterns.
    pub fn new(x: u32, y: u32, z: u32) -> (value: Self)
        ensures
            value.bits@ == seq![x, y, z],
    {
        Self { bits: [x, y, z] }
    }
}

impl VertComponent for Vec3 {
    open spec fn spec_component() -> Component {
        Component::of(3, ScalarType::Float)
    }

    fn component() -> (component: Component) {
        Component::new(3, ScalarType::Float).unwrap()
    }
}

impl Uniform for Vec3 {
    open spec fn request(&self, location: i32) -> Call {
        Call::Uniform3f { location, x: self.bits[0], y: self.bits[1], z: self.bits[2] }
    }

    fn set_uniform<D: Device>(&self, gl: &mut Gl<D>, location: i32) {
        gl.device.uniform_3f(location, self.bits[0], self.bits[1], self.bits[2]);
    }
}

/// Four single-precision values, `x`, `y`, `z`, then `w`.
#[derive(Clone, Copy, Debug, PartialEq, Eq)]
pub struct Vec4 {
    pub bits: [u32; 4],
}

impl Vec4 {
    /// The vector of the values with the given bit patterns.
    pub fn new(x: u32, y: u32, z: u32, w: u32) -> (value: Self)
        ensures
            value.bits@ == seq![x, y, z, w],
    {
        Self { bits: [x, y, z, w] }
    }
}

impl VertComponent for Vec4 {
    open spec fn spec_component() -> Component {
        Component::of(4, ScalarType::Float)
    }

    fn component() -> (component: Component) {
        Component::new(4, ScalarType::Float).unwrap()
    }
}

impl Uniform for Vec4 {
    open spec fn request(&self, location: i32) -> Call {
        Call::Uniform4f { location, x: self.bits[0], y: self.bits[1], z: self.bits[2], w: self.bits[3] }
    }

    fn set_uniform<D: Device>(&self, gl: &mut Gl<D>, location: i32) {
        gl.device.uniform_4f(location, self.bits[0], self.bits[1], self.bits[2], self.bits[3]);
    }
}

/// A matrix of four columns of four single-precision values, one column
/// after the other.
#[derive(Clone, Copy, Debug, PartialEq, Eq)]
pub struct Mat4 {
    pub bits: [u32; 16],
}

impl Uniform for Mat4 {
    open spec fn request(&self, location: i32) -> Call {
        Call::UniformMatrix4fv { location, transpose: false, values: self.bits@ }
    }

    fn set_uniform<D: Device>(&self, gl: &mut Gl<D>, location: i32) {
        gl.device.uniform_matrix_4fv(location, false, &self.bits);
    }
}

} // verus!
