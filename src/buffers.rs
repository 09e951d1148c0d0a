//! Vertex buffers and vertex arrays: what the library tracks of them, and the
//! byte layout of their attributes. Vertex data are 32-bit floats.

use vstd::prelude::*;

verus! {

/// Bytes in one vertex component (a 32-bit float).
pub const COMPONENT_SIZE: usize = 4;

/// A vertex buffer: its GL name and how many vertices it holds.
pub struct VertexBuffer {
    id: u32,
    num_vertices: usize,
}

impl VertexBuffer {
    /// An empty buffer that the driver created as GL object `id`.
    pub fn new(id: u32) -> (r: VertexBuffer)
        ensures
            r.spec_id() == id,
            r.spec_num_vertices() == 0,
    {
        VertexBuffer { id, num_vertices: 0 }
    }

    pub closed spec fn spec_id(&self) -> u32 {
        self.id
    }

    pub closed spec fn spec_num_vertices(&self) -> nat {
        self.num_vertices as nat
    }

    pub fn id(&self) -> (r: u32)
        ensures
            r == self.spec_id(),
    {
        self.id
    }

    pub fn num_vertices(&self) -> (r: usize)
        ensures
            r == self.spec_num_vertices(),
    {
        self.num_vertices
    }

    /// The buffer once it holds `data_len` components, `stride` to a vertex:
    /// as many whole vertices as fit.
    pub fn set_static_data(self, data_len: usize, stride: usize) -> (r: VertexBuffer)
        requires
            stride > 0,
        ensures
            r.spec_id() == self.spec_id(),
            r.spec_num_vertices() == data_len / stride,
    {
        let mut buffer = self;
        buffer.num_vertices = data_len / stride;
        buffer
    }

    /// The size in bytes of `data_len` components, where it fits in an `isize`.
    pub fn data_size(data_len: usize) -> (r: Option<isize>)
        ensures
            data_len * COMPONENT_SIZE <= isize::MAX ==> r == Some((data_len * COMPONENT_SIZE) as isize),
            data_len * COMPONENT_SIZE > isize::MAX ==> r is None,
    {
        if data_len > (isize::MAX as usize) / COMPONENT_SIZE {
            return None;
        }
        Some((data_len * COMPONENT_SIZE) as isize)
    }

    /// The vertex count of a draw call over the whole buffer, where it fits in
    /// an `i32`.
    pub fn draw_count(&self) -> (r: Option<i32>)
        ensures
            self.spec_num_vertices() <= i32::MAX ==> r == Some(self.spec_num_vertices() as i32),
            self.spec_num_vertices() > i32::MAX ==> r is None,
    {
        if self.num_vertices > i32::MAX as usize {
            return None;
        }
        Some(self.num_vertices as i32)
    }
}

/// Where one vertex attribute lies in a buffer, in the terms of
/// `glVertexAttribPointer`: `size` components of a vertex `stride_bytes`
/// long, starting `offset_bytes` into it.
#[derive(Clone, Copy, Debug, PartialEq, Eq, Structural)]
pub struct AttribPointer {
    pub location: u32,
    pub size: i32,
    pub stride_bytes: i32,
    pub offset_bytes: usize,
}

/// A vertex array object.
pub struct VertexArray {
    id: u32,
}

impl VertexArray {
    /// The vertex array that the driver created as GL object `id`.
    pub fn new(id: u32) -> (r: VertexArray)
        ensures
            r.spec_id() == id,
    {
        VertexArray { id }
    }

    pub closed spec fn spec_id(&self) -> u32 {
        self.id
    }

    pub fn id(&self) -> (r: u32)
        ensures
            r == self.spec_id(),
    {
        self.id
    }

    /// The layout of attribute `location`: `count` components, starting
    /// `offset` components into vertices of `stride` components; `None` where
    /// the byte stride does not fit in an `i32` or the byte offset in a `usize`.
    pub fn attrib_pointer(&self, location: u32, count: i32, stride: usize, offset: usize) -> (r: Option<AttribPointer>)
        ensures
            stride * COMPONENT_SIZE <= i32::MAX && offset * COMPONENT_SIZE <= usize::MAX ==> r == Some((AttribPointer {
                location,
                size: count,
                stride_bytes: (stride * COMPONENT_SIZE) as i32,
                offset_bytes: (offset * COMPONENT_SIZE) as usize,
            })),
            stride * COMPONENT_SIZE > i32::MAX || offset * COMPONENT_SIZE > usize::MAX ==> r is None,
    {
        if stride > (i32::MAX as usize) / COMPONENT_SIZE || offset > usize::MAX / COMPONENT_SIZE {
            return None;
        }
        Some(AttribPointer {
            location,
            size: count,
            stride_bytes: (stride * COMPONENT_SIZE) as i32,
            offset_bytes: offset * COMPONENT_SIZE,
        })
    }
}

} // verus!
