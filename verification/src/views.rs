//! Plain-value views over the engine's graph nodes.
//!
//! The engine's output is a graph of faces, ridges and vertices that live in
//! the engine's own storage.  A view records, as plain values, everything the
//! safety layer reads of one node: the node's address (its identity), the
//! ambient dimensionality the node was captured under, whether the node is
//! the sentinel that terminates its list, and the node's payload (a face's
//! vertex count, a vertex's coordinate address).  Views own nothing: the
//! caller that walks the engine's storage fills them in, and their validity
//! is bounded by the life of that storage.

use vstd::prelude::*;

verus! {

/// A view of one face node.
#[derive(Clone, Copy, Debug, PartialEq, Eq, Structural)]
pub struct Face {
    /// The node's address in the engine's storage: its identity.  Never zero.
    pub addr: usize,
    /// The ambient dimensionality the view was captured under.
    pub dim: usize,
    /// Whether this node is the sentinel that terminates the face list.
    pub sentinel: bool,
    /// How many vertices the face has.  A sentinel carries no usable data.
    pub vertex_count: usize,
    /// The address of the next node in the face list, or zero past the end.
    pub next_addr: usize,
    /// The address of the previous node in the face list, or zero before the
    /// start.
    pub prev_addr: usize,
}

/// A view of one ridge node.
#[derive(Clone, Copy, Debug, PartialEq, Eq, Structural)]
pub struct Ridge {
    /// The node's address in the engine's storage: its identity.  Never zero.
    pub addr: usize,
    /// The ambient dimensionality the view was captured under.
    pub dim: usize,
}

/// A view of one vertex node.
#[derive(Clone, Copy, Debug, PartialEq, Eq, Structural)]
pub struct Vertex {
    /// The node's address in the engine's storage: its identity.  Never zero.
    pub addr: usize,
    /// The ambient dimensionality the view was captured under.
    pub dim: usize,
    /// Whether this node is the sentinel that terminates the vertex list.
    pub sentinel: bool,
    /// The address of the vertex's first coordinate, or zero if the vertex
    /// carries no coordinate data.
    pub point_addr: usize,
    /// The address of the next node in the vertex list, or zero past the end.
    pub next_addr: usize,
    /// The address of the previous node in the vertex list, or zero before
    /// the start.
    pub prev_addr: usize,
}

impl Face {
    /// Wrap a possibly-absent node reference: absent (zero) yields no view.
    pub fn from_ptr(
        raw: usize,
        dim: usize,
        sentinel: bool,
        vertex_count: usize,
        next_addr: usize,
        prev_addr: usize,
    ) -> (r: Option<Face>)
        ensures
            raw == 0 ==> r is None,
            raw != 0 ==> r == Some(
                Face { addr: raw, dim, sentinel, vertex_count, next_addr, prev_addr },
            ),
    {
        if raw == 0 {
            None
        } else {
            Some(Face { addr: raw, dim, sentinel, vertex_count, next_addr, prev_addr })
        }
    }

    /// Whether this face is the sentinel terminating its list.
    pub fn is_sentinel(&self) -> (r: bool)
        ensures
            r == self.sentinel,
    {
        self.sentinel
    }

    /// Whether the face is simplicial: its vertex count equals the ambient
    /// dimensionality.
    pub fn simplicial(&self) -> (r: bool)
        ensures
            r == (self.vertex_count == self.dim),
    {
        self.vertex_count == self.dim
    }

    /// Two views denote the same logical node exactly when their underlying
    /// identities (addresses) are equal.
    pub fn same_node(&self, other: &Face) -> (r: bool)
        ensures
            r == (self.addr == other.addr),
    {
        self.addr == other.addr
    }
}

impl Ridge {
    /// Wrap a possibly-absent node reference: absent (zero) yields no view.
    pub fn from_ptr(raw: usize, dim: usize) -> (r: Option<Ridge>)
        ensures
            raw == 0 ==> r is None,
            raw != 0 ==> r == Some(Ridge { addr: raw, dim }),
    {
        if raw == 0 {
            None
        } else {
            Some(Ridge { addr: raw, dim })
        }
    }

    /// Two views denote the same logical node exactly when their underlying
    /// identities (addresses) are equal.
    pub fn same_node(&self, other: &Ridge) -> (r: bool)
        ensures
            r == (self.addr == other.addr),
    {
        self.addr == other.addr
    }
}

impl Vertex {
    /// Wrap a possibly-absent node reference: absent (zero) yields no view.
    pub fn from_ptr(
        raw: usize,
        dim: usize,
        sentinel: bool,
        point_addr: usize,
        next_addr: usize,
        prev_addr: usize,
    ) -> (r: Option<Vertex>)
        ensures
            raw == 0 ==> r is None,
            raw != 0 ==> r == Some(
                Vertex { addr: raw, dim, sentinel, point_addr, next_addr, prev_addr },
            ),
    {
        if raw == 0 {
            None
        } else {
            Some(Vertex { addr: raw, dim, sentinel, point_addr, next_addr, prev_addr })
        }
    }

    /// Whether this vertex is the sentinel terminating its list.
    pub fn is_sentinel(&self) -> (r: bool)
        ensures
            r == self.sentinel,
    {
        self.sentinel
    }

    /// The address of the vertex's coordinate data, if it has any.
    pub fn point(&self) -> (r: Option<usize>)
        ensures
            self.point_addr == 0 ==> r is None,
            self.point_addr != 0 ==> r == Some(self.point_addr),
    {
        if self.point_addr == 0 {
            None
        } else {
            Some(self.point_addr)
        }
    }

    /// Two views denote the same logical node exactly when their underlying
    /// identities (addresses) are equal.
    pub fn same_node(&self, other: &Vertex) -> (r: bool)
        ensures
            r == (self.addr == other.addr),
    {
        self.addr == other.addr
    }
}

} // verus!
