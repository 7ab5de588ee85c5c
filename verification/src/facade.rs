//! The facade: the safe model of one engine computation.
//!
//! A [`Qh`] records everything the safety layer knows of a built engine
//! instance: the input dimensionality, the lifecycle state, the two output
//! lists (faces and vertices, each ending in its sentinel), and the address
//! range of the input coordinate buffer.  The caller that owns the engine's
//! storage walks it once and hands the node views to [`Qh::from_lists`],
//! which admits them only in well-formed shape; every query is then proved
//! against that shape: visible iteration is exactly the full iteration with
//! the sentinel filtered out, counts agree with it, and the reverse vertex
//! lookup inverts the buffer's row-major layout.

use vstd::prelude::*;

use crate::builder::{default_options, QhBuilder};
use crate::views::{Face, Vertex};

verus! {

/// The lifecycle state of a facade.  Construction yields `Built`; the main
/// computation moves it to `Computed` on success and `ComputeFailed` on an
/// engine abort.  A failed facade must not be used for further computation.
#[derive(Clone, Copy, Debug, PartialEq, Eq, Structural)]
pub enum QhState {
    /// Constructed and initialized; the main computation has not run.
    Built,
    /// The main computation completed.
    Computed,
    /// The main computation aborted; the instance is not reusable.
    ComputeFailed,
}

/// The model of one built engine instance.
///
/// The fields are public so that contracts can speak of them; well-formedness
/// is the separate [`Qh::wf`] predicate, which [`Qh::from_lists`] establishes
/// and every other operation preserves.  All queries require it.
#[derive(Clone, Debug)]
pub struct Qh {
    /// The input dimensionality.
    pub dim: usize,
    /// The lifecycle state.
    pub state: QhState,
    /// The face list in forward order; its last node is the sentinel.
    pub faces_list: Vec<Face>,
    /// The vertex list in forward order; its last node is the sentinel.
    pub vertices_list: Vec<Vertex>,
    /// The address of the first coordinate of the input buffer.
    pub first_point_addr: usize,
    /// How many points the input buffer holds.
    pub num_points: usize,
}

/// Whether `faces` is a well-shaped face list of dimensionality `dim`:
/// nonempty, exactly one sentinel, the sentinel last, every node present
/// (nonzero address) and captured under `dim`.
pub open spec fn face_list_wf(faces: Seq<Face>, dim: int) -> bool {
    &&& faces.len() >= 1
    &&& faces.last().sentinel
    &&& forall|i: int| 0 <= i < faces.len() - 1 ==> !(#[trigger] faces[i]).sentinel
    &&& forall|i: int| 0 <= i < faces.len() ==> (#[trigger] faces[i]).addr != 0
    &&& forall|i: int| 0 <= i < faces.len() ==> (#[trigger] faces[i]).dim == dim
    &&& forall|i: int| 0 <= i < faces.len() - 1 ==> (#[trigger] faces[i]).next_addr == faces[
        i + 1
    ].addr
    &&& faces.last().next_addr == 0
    &&& faces.first().prev_addr == 0
    &&& forall|i: int| 1 <= i < faces.len() ==> (#[trigger] faces[i]).prev_addr == faces[i - 1].addr
    &&& forall|i: int, j: int|
        0 <= i < j < faces.len() ==> (#[trigger] faces[i]).addr != (#[trigger] faces[j]).addr
}

/// Whether `vertices` is a well-shaped vertex list of dimensionality `dim`:
/// the mirror of [`face_list_wf`].
pub open spec fn vertex_list_wf(vertices: Seq<Vertex>, dim: int) -> bool {
    &&& vertices.len() >= 1
    &&& vertices.last().sentinel
    &&& forall|i: int| 0 <= i < vertices.len() - 1 ==> !(#[trigger] vertices[i]).sentinel
    &&& forall|i: int| 0 <= i < vertices.len() ==> (#[trigger] vertices[i]).addr != 0
    &&& forall|i: int| 0 <= i < vertices.len() ==> (#[trigger] vertices[i]).dim == dim
    &&& forall|i: int| 0 <= i < vertices.len() - 1 ==> (#[trigger] vertices[i]).next_addr
        == vertices[i + 1].addr
    &&& vertices.last().next_addr == 0
    &&& vertices.first().prev_addr == 0
    &&& forall|i: int| 1 <= i < vertices.len() ==> (#[trigger] vertices[i]).prev_addr == vertices[
        i - 1
    ].addr
    &&& forall|i: int, j: int|
        0 <= i < j < vertices.len() ==> (#[trigger] vertices[i]).addr != (#[trigger] vertices[
            j
        ]).addr
}

/// Whether the recorded coordinate buffer bounds are consistent: a positive
/// dimensionality, and a byte range that fits in the address space.
pub open spec fn buffer_bounds_wf(dim: int, first_point_addr: int, num_points: int) -> bool {
    &&& dim >= 1
    &&& 8 * dim <= usize::MAX
    &&& first_point_addr + num_points * (8 * dim) <= usize::MAX
}

impl Qh {
    /// The storage size of one point, in bytes: eight bytes per coordinate.
    pub open spec fn spec_point_size(self) -> int {
        8 * self.dim
    }

    /// One past the last byte of the input coordinate buffer.
    pub open spec fn buffer_end(self) -> int {
        self.first_point_addr + self.num_points * self.spec_point_size()
    }

    /// Whether `addr` lies inside the input coordinate buffer.
    pub open spec fn in_buffer(self, addr: int) -> bool {
        self.first_point_addr <= addr < self.buffer_end()
    }

    /// Well-formedness: both lists are well shaped under `dim`, and the
    /// recorded buffer bounds are consistent.
    pub open spec fn wf(self) -> bool {
        &&& face_list_wf(self.faces_list@, self.dim as int)
        &&& vertex_list_wf(self.vertices_list@, self.dim as int)
        &&& buffer_bounds_wf(self.dim as int, self.first_point_addr as int, self.num_points as int)
    }

    /// Whether iteration and queries are permitted: the instance was built
    /// and its main computation has not failed.
    pub open spec fn queryable(self) -> bool {
        self.state == QhState::Built || self.state == QhState::Computed
    }

    /// The full face iteration, sentinel included.
    pub open spec fn spec_all_faces(self) -> Seq<Face> {
        self.faces_list@
    }

    /// The visible face iteration: the full iteration with the sentinel
    /// filtered out, nothing else.
    pub open spec fn spec_faces(self) -> Seq<Face> {
        self.faces_list@.filter(|f: Face| !f.sentinel)
    }

    /// The visible simplicial faces: the visible iteration filtered further.
    pub open spec fn spec_simplices(self) -> Seq<Face> {
        self.spec_faces().filter(|f: Face| f.vertex_count == f.dim)
    }

    /// The full vertex iteration, sentinel included.
    pub open spec fn spec_all_vertices(self) -> Seq<Vertex> {
        self.vertices_list@
    }

    /// The visible vertex iteration: the full iteration with the sentinel
    /// filtered out, nothing else.
    pub open spec fn spec_vertices(self) -> Seq<Vertex> {
        self.vertices_list@.filter(|v: Vertex| !v.sentinel)
    }

    /// Whether some node of the face list has the address `addr`.
    pub open spec fn has_face(self, addr: usize) -> bool {
        exists|i: int|
            0 <= i < self.faces_list@.len() && (#[trigger] self.faces_list@[i]).addr == addr
    }

    /// The position of the face-list node with address `addr`; by
    /// well-formedness, at most one exists.
    pub open spec fn face_pos(self, addr: usize) -> int {
        choose|i: int|
            0 <= i < self.faces_list@.len() && (#[trigger] self.faces_list@[i]).addr == addr
    }

    /// Whether some node of the vertex list has the address `addr`.
    pub open spec fn has_vertex(self, addr: usize) -> bool {
        exists|i: int|
            0 <= i < self.vertices_list@.len() && (#[trigger] self.vertices_list@[i]).addr == addr
    }

    /// The position of the vertex-list node with address `addr`; by
    /// well-formedness, at most one exists.
    pub open spec fn vertex_pos(self, addr: usize) -> int {
        choose|i: int|
            0 <= i < self.vertices_list@.len() && (#[trigger] self.vertices_list@[i]).addr == addr
    }

    /// Step forward along the face list: the node after the one `face`
    /// denotes, or nothing past the sentinel (whose successor is absent) or
    /// for a view that denotes no node of this instance.
    pub fn next_face(&self, face: &Face) -> (r: Option<Face>)
        requires
            self.wf(),
            self.queryable(),
        ensures
            !self.has_face(face.addr) ==> r is None,
            self.has_face(face.addr) ==> {
                let i = self.face_pos(face.addr);
                &&& (i == self.faces_list@.len() - 1 ==> r is None)
                &&& (i < self.faces_list@.len() - 1 ==> r == Some(self.faces_list@[i + 1]))
            },
    {
        let n = self.faces_list.len();
        let mut i: usize = 0;
        while i < n
            invariant
                self.wf(),
                n == self.faces_list@.len(),
                i <= n,
                forall|k: int| 0 <= k < i ==> (#[trigger] self.faces_list@[k]).addr != face.addr,
            decreases n - i,
        {
            if self.faces_list[i].addr == face.addr {
                proof {
                    lemma_unique_face_pos(*self, i as int);
                }
                if i == n - 1 {
                    return None;
                }
                return Some(self.faces_list[i + 1]);
            }
            i = i + 1;
        }
        None
    }

    /// Step backward along the face list: the node before the one `face`
    /// denotes, or nothing before the head or for a view that denotes no node
    /// of this instance.
    pub fn previous_face(&self, face: &Face) -> (r: Option<Face>)
        requires
            self.wf(),
            self.queryable(),
        ensures
            !self.has_face(face.addr) ==> r is None,
            self.has_face(face.addr) ==> {
                let i = self.face_pos(face.addr);
                &&& (i == 0 ==> r is None)
                &&& (i > 0 ==> r == Some(self.faces_list@[i - 1]))
            },
    {
        let n = self.faces_list.len();
        let mut i: usize = 0;
        while i < n
            invariant
                self.wf(),
                n == self.faces_list@.len(),
                i <= n,
                forall|k: int| 0 <= k < i ==> (#[trigger] self.faces_list@[k]).addr != face.addr,
            decreases n - i,
        {
            if self.faces_list[i].addr == face.addr {
                proof {
                    lemma_unique_face_pos(*self, i as int);
                }
                if i == 0 {
                    return None;
                }
                return Some(self.faces_list[i - 1]);
            }
            i = i + 1;
        }
        None
    }

    /// Step forward along the vertex list: the mirror of [`Qh::next_face`].
    pub fn next_vertex(&self, vertex: &Vertex) -> (r: Option<Vertex>)
        requires
            self.wf(),
            self.queryable(),
        ensures
            !self.has_vertex(vertex.addr) ==> r is None,
            self.has_vertex(vertex.addr) ==> {
                let i = self.vertex_pos(vertex.addr);
                &&& (i == self.vertices_list@.len() - 1 ==> r is None)
                &&& (i < self.vertices_list@.len() - 1 ==> r == Some(self.vertices_list@[i + 1]))
            },
    {
        let n = self.vertices_list.len();
        let mut i: usize = 0;
        while i < n
            invariant
                self.wf(),
                n == self.vertices_list@.len(),
                i <= n,
                forall|k: int|
                    0 <= k < i ==> (#[trigger] self.vertices_list@[k]).addr != vertex.addr,
            decreases n - i,
        {
            if self.vertices_list[i].addr == vertex.addr {
                proof {
                    lemma_unique_vertex_pos(*self, i as int);
                }
                if i == n - 1 {
                    return None;
                }
                return Some(self.vertices_list[i + 1]);
            }
            i = i + 1;
        }
        None
    }

    /// Step backward along the vertex list: the mirror of
    /// [`Qh::previous_face`].
    pub fn previous_vertex(&self, vertex: &Vertex) -> (r: Option<Vertex>)
        requires
            self.wf(),
            self.queryable(),
        ensures
            !self.has_vertex(vertex.addr) ==> r is None,
            self.has_vertex(vertex.addr) ==> {
                let i = self.vertex_pos(vertex.addr);
                &&& (i == 0 ==> r is None)
                &&& (i > 0 ==> r == Some(self.vertices_list@[i - 1]))
            },
    {
        let n = self.vertices_list.len();
        let mut i: usize = 0;
        while i < n
            invariant
                self.wf(),
                n == self.vertices_list@.len(),
                i <= n,
                forall|k: int|
                    0 <= k < i ==> (#[trigger] self.vertices_list@[k]).addr != vertex.addr,
            decreases n - i,
        {
            if self.vertices_list[i].addr == vertex.addr {
                proof {
                    lemma_unique_vertex_pos(*self, i as int);
                }
                if i == 0 {
                    return None;
                }
                return Some(self.vertices_list[i - 1]);
            }
            i = i + 1;
        }
        None
    }

    /// A fresh builder with every toggle off: the entry point of the
    /// construction surface.
    pub fn builder() -> (r: QhBuilder)
        ensures
            r == default_options(),
    {
        QhBuilder::default()
    }

    /// Admit walked node lists as a facade model.
    ///
    /// Returns the model exactly when the lists are well shaped and the
    /// buffer bounds are consistent; the admitted model is well formed and in
    /// state `Built`.
    pub fn from_lists(
        dim: usize,
        faces: Vec<Face>,
        vertices: Vec<Vertex>,
        first_point_addr: usize,
        num_points: usize,
    ) -> (r: Option<Qh>)
        ensures
            r is Some <==> {
                &&& face_list_wf(faces@, dim as int)
                &&& vertex_list_wf(vertices@, dim as int)
                &&& buffer_bounds_wf(dim as int, first_point_addr as int, num_points as int)
            },
            r is Some ==> r->0 == (Qh {
                dim,
                state: QhState::Built,
                faces_list: faces,
                vertices_list: vertices,
                first_point_addr,
                num_points,
            }),
            r is Some ==> r->0.wf() && r->0.state == QhState::Built,
    {
        if dim < 1 {
            return None;
        }
        if dim > usize::MAX / 8 {
            return None;
        }
        let point_size = 8 * dim;
        let total = match num_points.checked_mul(point_size) {
            Some(t) => t,
            None => {
                proof {
                    assert(num_points * (8 * dim) > usize::MAX) by (nonlinear_arith)
                        requires
                            (num_points as int) * (point_size as int) > usize::MAX as int,
                            point_size == 8 * dim,
                    ;
                }
                return None;
            },
        };
        if first_point_addr > usize::MAX - total {
            return None;
        }
        if !face_list_shape_ok(&faces, dim) {
            return None;
        }
        if !vertex_list_shape_ok(&vertices, dim) {
            return None;
        }
        Some(
            Qh {
                dim,
                state: QhState::Built,
                faces_list: faces,
                vertices_list: vertices,
                first_point_addr,
                num_points,
            },
        )
    }

    /// Record the outcome of the main computation, run by the caller through
    /// the error trap: success moves the facade to `Computed`, an abort to
    /// `ComputeFailed`.
    pub fn record_compute_outcome(&mut self, succeeded: bool)
        requires
            old(self).state == QhState::Built,
        ensures
            final(self).state == (if succeeded {
                QhState::Computed
            } else {
                QhState::ComputeFailed
            }),
            final(self).dim == old(self).dim,
            final(self).faces_list == old(self).faces_list,
            final(self).vertices_list == old(self).vertices_list,
            final(self).first_point_addr == old(self).first_point_addr,
            final(self).num_points == old(self).num_points,
            old(self).wf() ==> final(self).wf(),
    {
        if succeeded {
            self.state = QhState::Computed;
        } else {
            self.state = QhState::ComputeFailed;
        }
    }

    /// All faces in forward list order, the sentinel last.
    pub fn all_faces(&self) -> (r: Vec<Face>)
        requires
            self.wf(),
            self.queryable(),
        ensures
            r@ == self.spec_all_faces(),
    {
        copy_faces(&self.faces_list)
    }

    /// All faces in reverse list order, the sentinel first.
    pub fn all_faces_rev(&self) -> (r: Vec<Face>)
        requires
            self.wf(),
            self.queryable(),
        ensures
            r@ == self.spec_all_faces().reverse(),
    {
        reverse_faces(&self.faces_list)
    }

    /// The visible faces: all faces with the sentinel filtered out.
    pub fn faces(&self) -> (r: Vec<Face>)
        requires
            self.wf(),
            self.queryable(),
        ensures
            r@ == self.spec_faces(),
    {
        let n = self.faces_list.len();
        let mut out: Vec<Face> = Vec::new();
        let mut i: usize = 0;
        while i < n
            invariant
                n == self.faces_list@.len(),
                i <= n,
                out@ == self.faces_list@.subrange(0, i as int).filter(|f: Face| !f.sentinel),
            decreases n - i,
        {
            let f = self.faces_list[i];
            proof {
                let prefix = self.faces_list@.subrange(0, i as int);
                let x = self.faces_list@[i as int];
                assert(self.faces_list@.subrange(0, i + 1) =~= prefix.push(x));
                prefix.lemma_filter_push(x, |f: Face| !f.sentinel);
            }
            if !f.is_sentinel() {
                out.push(f);
            }
            i = i + 1;
        }
        proof {
            assert(self.faces_list@.subrange(0, n as int) =~= self.faces_list@);
        }
        out
    }

    /// All vertices in forward list order, the sentinel last.
    pub fn all_vertices(&self) -> (r: Vec<Vertex>)
        requires
            self.wf(),
            self.queryable(),
        ensures
            r@ == self.spec_all_vertices(),
    {
        copy_vertices(&self.vertices_list)
    }

    /// All vertices in reverse list order, the sentinel first.
    pub fn all_vertices_rev(&self) -> (r: Vec<Vertex>)
        requires
            self.wf(),
            self.queryable(),
        ensures
            r@ == self.spec_all_vertices().reverse(),
    {
        reverse_vertices(&self.vertices_list)
    }

    /// The visible vertices: all vertices with the sentinel filtered out.
    pub fn vertices(&self) -> (r: Vec<Vertex>)
        requires
            self.wf(),
            self.queryable(),
        ensures
            r@ == self.spec_vertices(),
    {
        let n = self.vertices_list.len();
        let mut out: Vec<Vertex> = Vec::new();
        let mut i: usize = 0;
        while i < n
            invariant
                n == self.vertices_list@.len(),
                i <= n,
                out@ == self.vertices_list@.subrange(0, i as int).filter(|v: Vertex| !v.sentinel),
            decreases n - i,
        {
            let v = self.vertices_list[i];
            proof {
                let prefix = self.vertices_list@.subrange(0, i as int);
                let x = self.vertices_list@[i as int];
                assert(self.vertices_list@.subrange(0, i + 1) =~= prefix.push(x));
                prefix.lemma_filter_push(x, |v: Vertex| !v.sentinel);
            }
            if !v.is_sentinel() {
                out.push(v);
            }
            i = i + 1;
        }
        proof {
            assert(self.vertices_list@.subrange(0, n as int) =~= self.vertices_list@);
        }
        out
    }

    /// The visible simplicial faces: the visible faces whose vertex count
    /// equals the ambient dimensionality.
    pub fn simplices(&self) -> (r: Vec<Face>)
        requires
            self.wf(),
            self.queryable(),
        ensures
            r@ == self.spec_simplices(),
    {
        let vis = self.faces();
        let n = vis.len();
        let mut out: Vec<Face> = Vec::new();
        let mut i: usize = 0;
        while i < n
            invariant
                n == vis@.len(),
                vis@ == self.spec_faces(),
                i <= n,
                out@ == vis@.subrange(0, i as int).filter(|f: Face| f.vertex_count == f.dim),
            decreases n - i,
        {
            let f = vis[i];
            proof {
                let prefix = vis@.subrange(0, i as int);
                let x = vis@[i as int];
                assert(vis@.subrange(0, i + 1) =~= prefix.push(x));
                prefix.lemma_filter_push(x, |f: Face| f.vertex_count == f.dim);
            }
            if f.simplicial() {
                out.push(f);
            }
            i = i + 1;
        }
        proof {
            assert(vis@.subrange(0, n as int) =~= vis@);
        }
        out
    }

    /// How many visible (non-sentinel) faces the instance has: equal, by
    /// construction, to the length of the visible iteration.
    pub fn num_faces(&self) -> (r: usize)
        requires
            self.wf(),
            self.queryable(),
        ensures
            r == self.spec_faces().len(),
    {
        let vis = self.faces();
        vis.len()
    }

    /// How many visible (non-sentinel) vertices the instance has: equal, by
    /// construction, to the length of the visible iteration.
    pub fn num_vertices(&self) -> (r: usize)
        requires
            self.wf(),
            self.queryable(),
        ensures
            r == self.spec_vertices().len(),
    {
        let vis = self.vertices();
        vis.len()
    }

    /// Map a vertex view back to the 0-based position of its point in the
    /// input coordinate buffer.
    ///
    /// Absent exactly when the vertex is the sentinel, carries no coordinate
    /// data, or its coordinate address falls outside the recorded buffer
    /// range.  A coordinate address inside the range whose offset is not an
    /// exact multiple of one point's storage size signals corrupted
    /// bookkeeping, not bad input; that fatal case is excluded by contract
    /// (see [`Qh::vertex_index_checked`] for the total form).
    pub fn vertex_index(&self, vertex: &Vertex) -> (r: Option<usize>)
        requires
            self.wf(),
            self.queryable(),
            !vertex.sentinel && vertex.point_addr != 0 && self.in_buffer(vertex.point_addr as int)
                ==> (vertex.point_addr - self.first_point_addr) % self.spec_point_size() == 0,
        ensures
            match r {
                Some(index) => {
                    &&& !vertex.sentinel
                    &&& vertex.point_addr != 0
                    &&& self.in_buffer(vertex.point_addr as int)
                    &&& index < self.num_points
                    &&& vertex.point_addr == self.first_point_addr + index * self.spec_point_size()
                },
                None => vertex.sentinel || vertex.point_addr == 0 || !self.in_buffer(
                    vertex.point_addr as int,
                ),
            },
    {
        match self.vertex_index_checked(vertex) {
            Ok(r) => r,
            Err(_) => None,  // unreachable: the contract excludes the misaligned case
        }
    }

    /// The total form of [`Qh::vertex_index`]: instead of excluding the
    /// misaligned case by contract, it reports it, as the fatal
    /// internal-consistency failure it is, in the error of the result.  The
    /// error carries the misaligned byte offset.
    pub fn vertex_index_checked(&self, vertex: &Vertex) -> (r: Result<Option<usize>, usize>)
        requires
            self.wf(),
            self.queryable(),
        ensures
            match r {
                Ok(Some(index)) => {
                    &&& !vertex.sentinel
                    &&& vertex.point_addr != 0
                    &&& self.in_buffer(vertex.point_addr as int)
                    &&& (vertex.point_addr - self.first_point_addr) % self.spec_point_size() == 0
                    &&& index < self.num_points
                    &&& vertex.point_addr == self.first_point_addr + index * self.spec_point_size()
                },
                Ok(None) => vertex.sentinel || vertex.point_addr == 0 || !self.in_buffer(
                    vertex.point_addr as int,
                ),
                Err(offset) => {
                    &&& !vertex.sentinel
                    &&& vertex.point_addr != 0
                    &&& self.in_buffer(vertex.point_addr as int)
                    &&& offset == vertex.point_addr - self.first_point_addr
                    &&& (offset as int) % self.spec_point_size() != 0
                },
            },
    {
        let point_size = 8 * self.dim;
        if vertex.is_sentinel() {
            return Ok(None);
        }
        let current = match vertex.point() {
            None => {
                return Ok(None);
            },
            Some(a) => a,
        };
        if current < self.first_point_addr {
            return Ok(None);
        }
        proof {
            assert(self.num_points * (8 * self.dim) <= usize::MAX);
        }
        let total = self.num_points * point_size;
        let end = self.first_point_addr + total;
        if current >= end {
            return Ok(None);
        }
        let offset = current - self.first_point_addr;
        if offset % point_size != 0 {
            return Err(offset);
        }
        let index = offset / point_size;
        proof {
            vstd::arithmetic::div_mod::lemma_fundamental_div_mod(
                offset as int,
                point_size as int,
            );
            assert(offset as int == point_size as int * (offset as int / point_size as int));
            assert(index as int == offset as int / point_size as int);
            assert(offset as int == (point_size as int) * (index as int));
            assert(offset as int == (index as int) * (point_size as int)) by (nonlinear_arith)
                requires
                    offset as int == (point_size as int) * (index as int),
            ;
            assert(point_size as int == self.spec_point_size());
            assert(vertex.point_addr as int == self.first_point_addr as int + (index as int)
                * self.spec_point_size());
            assert(index < self.num_points) by (nonlinear_arith)
                requires
                    offset as int == (point_size as int) * (index as int),
                    (offset as int) < (self.num_points as int) * (point_size as int),
                    point_size as int > 0,
            ;
        }
        Ok(Some(index))
    }
}

/// In a well-formed instance a face-list node is determined by its address:
/// if position `i` holds the address, `i` is the position the address denotes.
proof fn lemma_unique_face_pos(q: Qh, i: int)
    requires
        q.wf(),
        0 <= i < q.faces_list@.len(),
    ensures
        q.has_face(q.faces_list@[i].addr),
        q.face_pos(q.faces_list@[i].addr) == i,
{
    let addr = q.faces_list@[i].addr;
    assert(q.has_face(addr));
    let j = q.face_pos(addr);
    if j < i {
        assert(q.faces_list@[j].addr != q.faces_list@[i].addr);
    } else if j > i {
        assert(q.faces_list@[i].addr != q.faces_list@[j].addr);
    }
}

/// The vertex-list mirror of [`lemma_unique_face_pos`].
proof fn lemma_unique_vertex_pos(q: Qh, i: int)
    requires
        q.wf(),
        0 <= i < q.vertices_list@.len(),
    ensures
        q.has_vertex(q.vertices_list@[i].addr),
        q.vertex_pos(q.vertices_list@[i].addr) == i,
{
    let addr = q.vertices_list@[i].addr;
    assert(q.has_vertex(addr));
    let j = q.vertex_pos(addr);
    if j < i {
        assert(q.vertices_list@[j].addr != q.vertices_list@[i].addr);
    } else if j > i {
        assert(q.vertices_list@[i].addr != q.vertices_list@[j].addr);
    }
}

/// The buffer layout is injective: a coordinate address determines the point
/// position.  With a positive point size, two positions that map to the same
/// address are the same position, so the index [`Qh::vertex_index`] returns
/// for a vertex whose coordinate address equals point `i`'s storage address
/// is `i` itself.
pub proof fn lemma_vertex_index_inverts_layout(q: Qh, addr: int, i: int, j: int)
    requires
        q.wf(),
        addr == q.first_point_addr + i * q.spec_point_size(),
        addr == q.first_point_addr + j * q.spec_point_size(),
    ensures
        i == j,
{
    assert(i * q.spec_point_size() == j * q.spec_point_size());
    assert(i == j) by (nonlinear_arith)
        requires
            i * q.spec_point_size() == j * q.spec_point_size(),
            q.spec_point_size() > 0,
    ;
}

/// Visible iteration is the full iteration without its sentinel: for a
/// well-formed instance the sentinel appears exactly once in the full face
/// list, as its last element, and filtering it out leaves exactly the list
/// without that last element.  Counts therefore agree with filtered
/// iteration: there is one visible face fewer than listed nodes.
pub proof fn lemma_face_iteration(q: Qh)
    requires
        q.wf(),
    ensures
        q.spec_all_faces().len() >= 1,
        q.spec_all_faces().last().sentinel,
        forall|i: int|
            0 <= i < q.spec_all_faces().len() - 1 ==> !(#[trigger] q.spec_all_faces()[i]).sentinel,
        q.spec_faces() == q.spec_all_faces().drop_last(),
        q.spec_faces().len() == q.spec_all_faces().len() - 1,
        q.spec_all_faces().reverse().first().sentinel,
{
    let all = q.spec_all_faces();
    let pred = |f: Face| !f.sentinel;
    assert(all =~= all.drop_last().push(all.last()));
    lemma_filter_keeps_all_faces(all.drop_last());
    all.drop_last().lemma_filter_push(all.last(), pred);
    assert(q.spec_faces() == all.drop_last());
    assert(all.reverse().first() == all.last());
}

/// The vertex-list mirror of [`lemma_face_iteration`].
pub proof fn lemma_vertex_iteration(q: Qh)
    requires
        q.wf(),
    ensures
        q.spec_all_vertices().len() >= 1,
        q.spec_all_vertices().last().sentinel,
        forall|i: int|
            0 <= i < q.spec_all_vertices().len() - 1 ==> !(#[trigger] q.spec_all_vertices()[
                i
            ]).sentinel,
        q.spec_vertices() == q.spec_all_vertices().drop_last(),
        q.spec_vertices().len() == q.spec_all_vertices().len() - 1,
        q.spec_all_vertices().reverse().first().sentinel,
{
    let all = q.spec_all_vertices();
    let pred = |v: Vertex| !v.sentinel;
    assert(all =~= all.drop_last().push(all.last()));
    lemma_filter_keeps_all_vertices(all.drop_last());
    all.drop_last().lemma_filter_push(all.last(), pred);
    assert(q.spec_vertices() == all.drop_last());
    assert(all.reverse().first() == all.last());
}

/// Filtering out the sentinel keeps a sentinel-free face sequence whole.
proof fn lemma_filter_keeps_all_faces(s: Seq<Face>)
    requires
        forall|i: int| 0 <= i < s.len() ==> !(#[trigger] s[i]).sentinel,
    ensures
        s.filter(|f: Face| !f.sentinel) == s,
    decreases s.len(),
{
    reveal(Seq::filter);
    if s.len() > 0 {
        lemma_filter_keeps_all_faces(s.drop_last());
        assert(s.filter(|f: Face| !f.sentinel) =~= s);
    } else {
        assert(s.filter(|f: Face| !f.sentinel) =~= s);
    }
}

/// Filtering out the sentinel keeps a sentinel-free vertex sequence whole.
proof fn lemma_filter_keeps_all_vertices(s: Seq<Vertex>)
    requires
        forall|i: int| 0 <= i < s.len() ==> !(#[trigger] s[i]).sentinel,
    ensures
        s.filter(|v: Vertex| !v.sentinel) == s,
    decreases s.len(),
{
    reveal(Seq::filter);
    if s.len() > 0 {
        lemma_filter_keeps_all_vertices(s.drop_last());
        assert(s.filter(|v: Vertex| !v.sentinel) =~= s);
    } else {
        assert(s.filter(|v: Vertex| !v.sentinel) =~= s);
    }
}

/// Whether a face list has the well-formed shape, checked at run time.
fn face_list_shape_ok(faces: &Vec<Face>, dim: usize) -> (r: bool)
    ensures
        r == face_list_wf(faces@, dim as int),
{
    let n = faces.len();
    if n == 0 {
        return false;
    }
    if !faces[n - 1].is_sentinel() {
        return false;
    }
    if faces[n - 1].next_addr != 0 {
        return false;
    }
    if faces[0].prev_addr != 0 {
        return false;
    }
    let mut i: usize = 0;
    while i < n
        invariant
            n == faces@.len(),
            i <= n,
            forall|k: int| 0 <= k < i && k < n - 1 ==> !(#[trigger] faces@[k]).sentinel,
            forall|k: int| 0 <= k < i ==> (#[trigger] faces@[k]).addr != 0,
            forall|k: int| 0 <= k < i ==> (#[trigger] faces@[k]).dim == dim,
            forall|k: int|
                0 <= k < i && k < n - 1 ==> (#[trigger] faces@[k]).next_addr == faces@[k + 1].addr,
            forall|k: int| 1 <= k < i ==> (#[trigger] faces@[k]).prev_addr == faces@[k - 1].addr,
            forall|a: int, b: int|
                0 <= a < b < n && a < i ==> (#[trigger] faces@[a]).addr != (#[trigger] faces@[
                    b
                ]).addr,
        decreases n - i,
    {
        let f = &faces[i];
        if i < n - 1 && f.sentinel {
            return false;
        }
        if f.addr == 0 {
            return false;
        }
        if f.dim != dim {
            return false;
        }
        if i < n - 1 && f.next_addr != faces[i + 1].addr {
            return false;
        }
        if i >= 1 && f.prev_addr != faces[i - 1].addr {
            return false;
        }
        let mut j: usize = i + 1;
        while j < n
            invariant
                n == faces@.len(),
                i < n,
                i < j <= n,
                forall|b: int| i < b < j ==> (#[trigger] faces@[b]).addr != faces@[i as int].addr,
            decreases n - j,
        {
            if faces[j].addr == faces[i].addr {
                return false;
            }
            j = j + 1;
        }
        i = i + 1;
    }
    true
}

/// Whether a vertex list has the well-formed shape, checked at run time.
fn vertex_list_shape_ok(vertices: &Vec<Vertex>, dim: usize) -> (r: bool)
    ensures
        r == vertex_list_wf(vertices@, dim as int),
{
    let n = vertices.len();
    if n == 0 {
        return false;
    }
    if !vertices[n - 1].is_sentinel() {
        return false;
    }
    if vertices[n - 1].next_addr != 0 {
        return false;
    }
    if vertices[0].prev_addr != 0 {
        return false;
    }
    let mut i: usize = 0;
    while i < n
        invariant
            n == vertices@.len(),
            i <= n,
            forall|k: int| 0 <= k < i && k < n - 1 ==> !(#[trigger] vertices@[k]).sentinel,
            forall|k: int| 0 <= k < i ==> (#[trigger] vertices@[k]).addr != 0,
            forall|k: int| 0 <= k < i ==> (#[trigger] vertices@[k]).dim == dim,
            forall|k: int|
                0 <= k < i && k < n - 1 ==> (#[trigger] vertices@[k]).next_addr == vertices@[
                    k + 1
                ].addr,
            forall|k: int|
                1 <= k < i ==> (#[trigger] vertices@[k]).prev_addr == vertices@[k - 1].addr,
            forall|a: int, b: int|
                0 <= a < b < n && a < i ==> (#[trigger] vertices@[a]).addr != (#[trigger] vertices@[
                    b
                ]).addr,
        decreases n - i,
    {
        let v = &vertices[i];
        if i < n - 1 && v.sentinel {
            return false;
        }
        if v.addr == 0 {
            return false;
        }
        if v.dim != dim {
            return false;
        }
        if i < n - 1 && v.next_addr != vertices[i + 1].addr {
            return false;
        }
        if i >= 1 && v.prev_addr != vertices[i - 1].addr {
            return false;
        }
        let mut j: usize = i + 1;
        while j < n
            invariant
                n == vertices@.len(),
                i < n,
                i < j <= n,
                forall|b: int|
                    i < b < j ==> (#[trigger] vertices@[b]).addr != vertices@[i as int].addr,
            decreases n - j,
        {
            if vertices[j].addr == vertices[i].addr {
                return false;
            }
            j = j + 1;
        }
        i = i + 1;
    }
    true
}

/// Copy a face list in forward order.
fn copy_faces(faces: &Vec<Face>) -> (r: Vec<Face>)
    ensures
        r@ == faces@,
{
    let n = faces.len();
    let mut out: Vec<Face> = Vec::new();
    let mut i: usize = 0;
    while i < n
        invariant
            n == faces@.len(),
            i <= n,
            out@ == faces@.subrange(0, i as int),
        decreases n - i,
    {
        out.push(faces[i]);
        proof {
            assert(out@ =~= faces@.subrange(0, i + 1));
        }
        i = i + 1;
    }
    proof {
        assert(faces@.subrange(0, n as int) =~= faces@);
    }
    out
}

/// Copy a face list in reverse order.
fn reverse_faces(faces: &Vec<Face>) -> (r: Vec<Face>)
    ensures
        r@ == faces@.reverse(),
{
    let n = faces.len();
    let mut out: Vec<Face> = Vec::new();
    let mut i: usize = 0;
    while i < n
        invariant
            n == faces@.len(),
            i <= n,
            out@.len() == i,
            forall|k: int| 0 <= k < i ==> out@[k] == faces@[n - 1 - k],
        decreases n - i,
    {
        out.push(faces[n - 1 - i]);
        i = i + 1;
    }
    proof {
        assert(out@ =~= faces@.reverse());
    }
    out
}

/// Copy a vertex list in forward order.
fn copy_vertices(vertices: &Vec<Vertex>) -> (r: Vec<Vertex>)
    ensures
        r@ == vertices@,
{
    let n = vertices.len();
    let mut out: Vec<Vertex> = Vec::new();
    let mut i: usize = 0;
    while i < n
        invariant
            n == vertices@.len(),
            i <= n,
            out@ == vertices@.subrange(0, i as int),
        decreases n - i,
    {
        out.push(vertices[i]);
        proof {
            assert(out@ =~= vertices@.subrange(0, i + 1));
        }
        i = i + 1;
    }
    proof {
        assert(vertices@.subrange(0, n as int) =~= vertices@);
    }
    out
}

/// Copy a vertex list in reverse order.
fn reverse_vertices(vertices: &Vec<Vertex>) -> (r: Vec<Vertex>)
    ensures
        r@ == vertices@.reverse(),
{
    let n = vertices.len();
    let mut out: Vec<Vertex> = Vec::new();
    let mut i: usize = 0;
    while i < n
        invariant
            n == vertices@.len(),
            i <= n,
            out@.len() == i,
            forall|k: int| 0 <= k < i ==> out@[k] == vertices@[n - 1 - k],
        decreases n - i,
    {
        out.push(vertices[n - 1 - i]);
        i = i + 1;
    }
    proof {
        assert(out@ =~= vertices@.reverse());
    }
    out
}

} // verus!
