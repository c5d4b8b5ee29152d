//! Buffers and vertex arrays.

use vstd::prelude::*;
use core::marker::PhantomData;
use crate::device::{Call, Device, Gl};

verus! {

/// A buffer object of the device that holds values of one type.
///
/// The wrapper is the one owner of the object: it cannot be copied, and
/// `destroy` takes it.
pub struct Buffer<BufferType> {
    id: u32,
    _phantom: PhantomData<BufferType>,
}

impl<BufferType> View for Buffer<BufferType> {
    type V = u32;

    /// The handle of the buffer object.
    closed spec fn view(&self) -> u32 {
        self.id
    }
}

/// The requests by which `size` bytes are uploaded to a buffer through a
/// target: the upload alone, or the upload between binding the buffer to the
/// target and leaving the target unbound.
pub open spec fn upload_calls(buffer: u32, target: u32, usage: u32, size: nat, bind: bool) -> Seq<Call> {
    if bind {
        seq![
            Call::BindBuffer { target, buffer },
            Call::BufferData { target, size, usage },
            Call::BindBuffer { target, buffer: 0 },
        ]
    } else {
        seq![Call::BufferData { target, size, usage }]
    }
}

impl<BufferType> Buffer<BufferType> {
    /// Allocate one buffer object.
    pub fn new<D: Device>(gl: &mut Gl<D>) -> (buffer: Self)
        ensures
            final(gl).issued() == old(gl).issued().push(Call::GenBuffer { buffer: buffer@ }),
    {
        Buffer { id: gl.device.gen_buffer(), _phantom: PhantomData }
    }

    /// The handle of the buffer object.
    pub fn id(&self) -> (id: u32)
        ensures
            id == self@,
    {
        self.id
    }

    /// Bind the buffer to a target.
    pub fn bind<D: Device>(&self, gl: &mut Gl<D>, location: u32)
        ensures
            final(gl).issued() == old(gl).issued().push(
                Call::BindBuffer { target: location, buffer: self@ },
            ),
    {
        gl.device.bind_buffer(location, self.id);
    }

    /// Leave a target unbound.
    pub fn unbind_all<D: Device>(gl: &mut Gl<D>, location: u32)
        ensures
            final(gl).issued() == old(gl).issued().push(
                Call::BindBuffer { target: location, buffer: 0 },
            ),
    {
        gl.device.bind_buffer(location, 0);
    }

    /// Leave a target unbound, whichever buffer was bound to it.
    pub fn unbind<D: Device>(&self, gl: &mut Gl<D>, location: u32)
        ensures
            final(gl).issued() == old(gl).issued().push(
                Call::BindBuffer { target: location, buffer: 0 },
            ),
    {
        Self::unbind_all(gl, location);
    }

    /// Upload the bytes of `data` through a target, between binding and
    /// unbinding where `bind` is set.
    fn buffer_raw<D: Device>(&self, gl: &mut Gl<D>, location: u32, usage: u32, data: &[BufferType], bind: bool)
        ensures
            final(gl).issued() == old(gl).issued() + upload_calls(
                self@,
                location,
                usage,
                data@.len() * vstd::layout::size_of::<BufferType>(),
                bind,
            ),
    {
        if bind {
            self.bind(gl, location);
        }
        gl.device.buffer_data(location, data, usage);
        if bind {
            self.unbind(gl, location);
        }
        assert(gl.issued() =~= old(gl).issued() + upload_calls(
            self@,
            location,
            usage,
            data@.len() * vstd::layout::size_of::<BufferType>(),
            bind,
        ));
    }

    /// Upload `data` to the buffer through the target `location`: all of its
    /// values, `data.len()` times the size of one value in bytes, with the
    /// usage hint passed on as given.
    ///
    /// With `bind` set the buffer is bound to the target first and the
    /// target left unbound afterwards; without it the buffer must be bound
    /// to the target already.
    pub fn buffer<D: Device>(&mut self, gl: &mut Gl<D>, location: u32, usage: u32, data: Vec<BufferType>, bind: bool)
        ensures
            final(self)@ == old(self)@,
            final(gl).issued() == old(gl).issued() + upload_calls(
                old(self)@,
                location,
                usage,
                data@.len() * vstd::layout::size_of::<BufferType>(),
                bind,
            ),
    {
        self.buffer_raw(gl, location, usage, data.as_slice(), bind);
    }

    /// Release the buffer object.
    pub fn destroy<D: Device>(self, gl: &mut Gl<D>)
        ensures
            final(gl).issued() == old(gl).issued().push(Call::DeleteBuffer { buffer: self@ }),
    {
        gl.device.delete_buffer(self.id);
    }
}

/// A vertex array object of the device.
///
/// The wrapper is the one owner of the object: it cannot be copied, and
/// `destroy` takes it.
pub struct VertexArray {
    id: u32,
}

impl View for VertexArray {
    type V = u32;

    /// The handle of the vertex array object.
    closed spec fn view(&self) -> u32 {
        self.id
    }
}

impl VertexArray {
    /// Allocate one vertex array object.
    pub fn new<D: Device>(gl: &mut Gl<D>) -> (array: Self)
        ensures
            final(gl).issued() == old(gl).issued().push(Call::GenVertexArray { array: array@ }),
    {
        VertexArray { id: gl.device.gen_vertex_array() }
    }

    /// The handle of the vertex array object.
    pub fn id(&self) -> (id: u32)
        ensures
            id == self@,
    {
        self.id
    }

    /// Make the vertex array the current one.
    pub fn bind<D: Device>(&self, gl: &mut Gl<D>)
        ensures
            final(gl).issued() == old(gl).issued().push(Call::BindVertexArray { array: self@ }),
    {
        gl.device.bind_vertex_array(self.id);
    }

    /// Make no vertex array the current one.
    pub fn unbind_all<D: Device>(gl: &mut Gl<D>)
        ensures
            final(gl).issued() == old(gl).issued().push(Call::BindVertexArray { array: 0 }),
    {
        gl.device.bind_vertex_array(0);
    }

    /// Make no vertex array the current one, whichever was.
    pub fn unbind<D: Device>(&self, gl: &mut Gl<D>)
        ensures
            final(gl).issued() == old(gl).issued().push(Call::BindVertexArray { array: 0 }),
    {
        Self::unbind_all(gl);
    }

    /// Release the vertex array object.
    pub fn destroy<D: Device>(self, gl: &mut Gl<D>)
        ensures
            final(gl).issued() == old(gl).issued().push(Call::DeleteVertexArray { array: self@ }),
    {
        gl.device.delete_vertex_array(self.id);
    }
}

} // verus!
