//! Values that can be written to a uniform of a shader program.

use vstd::prelude::*;
use crate::device::{Call, Device, Gl};

verus! {

/// A value that can write itself to a uniform location.
///
/// The spec function has a default so that a type outside the verifier can
/// implement the trait; such a type is taken on trust to keep the contract.
pub trait Uniform {
    /// The one request that writes the value at `location`.
    open spec fn request(&self, location: i32) -> Call {
        arbitrary()
    }

    /// Write the value at `location` of the current program.
    fn set_uniform<D: Device>(&self, gl: &mut Gl<D>, location: i32)
        ensures
            final(gl).issued() == old(gl).issued().push(self.request(location)),
    ;
}

} // verus!
