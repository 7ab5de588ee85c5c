//! The builder: configuration toggles and input validation.
//!
//! Before the engine sees any input, the builder checks that every point has
//! the same arity and flattens the points into one contiguous row-major
//! buffer.  Coordinates are opaque 64-bit encodings throughout: the builder
//! moves them, it never interprets them.  The Delaunay convenience path is
//! sugar over the same flattening: each point gains one trailing lifted
//! coordinate (supplied by the caller, who computes it from the point), and
//! five options are forced on.

use vstd::prelude::*;

verus! {

/// The recoverable failure of input validation: the point at position `at`
/// has arity `found`, while the first point fixed the arity `expected`.
#[derive(Clone, Copy, Debug, PartialEq, Eq, Structural)]
pub struct DimensionMismatch {
    /// The position of the first offending point.
    pub at: usize,
    /// The arity fixed by the first point.
    pub expected: usize,
    /// The offending point's arity.
    pub found: usize,
}

/// A validated, flattened coordinate buffer: `count` points of `dim`
/// coordinates each, row-major.
#[derive(Clone, Debug)]
pub struct CollectedCoords {
    /// The flattened coordinates: `count * dim` opaque 64-bit encodings.
    pub coords: Vec<u64>,
    /// How many points the buffer holds.
    pub count: usize,
    /// The arity of each point.
    pub dim: usize,
}

/// The configuration the builder accumulates: independent toggles the engine
/// is configured with before construction.
#[derive(Clone, Copy, Debug, PartialEq, Eq, Structural)]
pub struct QhBuilder {
    /// Lift the input and compute a Delaunay triangulation.
    pub delaunay: bool,
    /// Keep the upper envelope of the lifted hull as well.
    pub upper_delaunay: bool,
    /// Scale the last coordinate of every input point.
    pub scale_last: bool,
    /// Triangulate non-simplicial output faces.
    pub triangulate: bool,
    /// Keep coplanar input points with their nearest face.
    pub keep_coplanar: bool,
}

/// The configuration with every toggle off.
pub open spec fn default_options() -> QhBuilder {
    QhBuilder {
        delaunay: false,
        upper_delaunay: false,
        scale_last: false,
        triangulate: false,
        keep_coplanar: false,
    }
}

/// The configuration the Delaunay convenience path forces: the default with
/// delaunay, upper-delaunay, scale-last, triangulate and keep-coplanar on.
pub open spec fn delaunay_options() -> QhBuilder {
    QhBuilder {
        delaunay: true,
        upper_delaunay: true,
        scale_last: true,
        triangulate: true,
        keep_coplanar: true,
    }
}

impl Default for QhBuilder {
    /// A builder with every toggle off.
    fn default() -> (r: Self)
        ensures
            r == default_options(),
    {
        QhBuilder {
            delaunay: false,
            upper_delaunay: false,
            scale_last: false,
            triangulate: false,
            keep_coplanar: false,
        }
    }
}

impl QhBuilder {
    /// Set the delaunay toggle.
    pub fn delaunay(self, v: bool) -> (r: Self)
        ensures
            r == (QhBuilder { delaunay: v, ..self }),
    {
        QhBuilder { delaunay: v, ..self }
    }

    /// Set the upper-delaunay toggle.
    pub fn upper_delaunay(self, v: bool) -> (r: Self)
        ensures
            r == (QhBuilder { upper_delaunay: v, ..self }),
    {
        QhBuilder { upper_delaunay: v, ..self }
    }

    /// Set the scale-last toggle.
    pub fn scale_last(self, v: bool) -> (r: Self)
        ensures
            r == (QhBuilder { scale_last: v, ..self }),
    {
        QhBuilder { scale_last: v, ..self }
    }

    /// Set the triangulate toggle.
    pub fn triangulate(self, v: bool) -> (r: Self)
        ensures
            r == (QhBuilder { triangulate: v, ..self }),
    {
        QhBuilder { triangulate: v, ..self }
    }

    /// Set the keep-coplanar toggle.
    pub fn keep_coplanar(self, v: bool) -> (r: Self)
        ensures
            r == (QhBuilder { keep_coplanar: v, ..self }),
    {
        QhBuilder { keep_coplanar: v, ..self }
    }

    /// The configuration the Delaunay convenience path uses.
    pub fn for_delaunay() -> (r: Self)
        ensures
            r == delaunay_options(),
    {
        QhBuilder {
            delaunay: true,
            upper_delaunay: true,
            scale_last: true,
            triangulate: true,
            keep_coplanar: true,
        }
    }
}

/// The Delaunay convenience configuration is the default configuration with
/// exactly the five documented options forced on, nothing else: applying the
/// five setters to the default yields it.
pub proof fn lemma_delaunay_options_are_sugar()
    ensures
        delaunay_options() == (QhBuilder {
            delaunay: true,
            upper_delaunay: true,
            scale_last: true,
            triangulate: true,
            keep_coplanar: true,
            ..default_options()
        }),
{
}

/// Whether every point has the arity the first point fixed.
pub open spec fn arity_uniform(points: Seq<Seq<u64>>) -> bool {
    forall|i: int| 0 <= i < points.len() ==> #[trigger] points[i].len() == points[0].len()
}

/// The arity the input fixes: that of the first point, or zero if there are
/// no points.
pub open spec fn input_dim(points: Seq<Seq<u64>>) -> int {
    if points.len() == 0 {
        0
    } else {
        points[0].len() as int
    }
}

/// Whether `coords` is the row-major flattening of `points` with `dim`
/// coordinates per point.
pub open spec fn is_flattening(coords: Seq<u64>, points: Seq<Seq<u64>>, dim: int) -> bool {
    &&& coords.len() == points.len() * dim
    &&& forall|i: int, j: int|
        0 <= i < points.len() && 0 <= j < dim ==> coords[i * dim + j] == points[i][j]
}

/// Whether `coords` is the row-major flattening of `points` lifted by one
/// trailing coordinate per point, taken from `lift`.
pub open spec fn is_lifting(
    coords: Seq<u64>,
    points: Seq<Seq<u64>>,
    lift: Seq<u64>,
    dim: int,
) -> bool {
    &&& coords.len() == points.len() * (dim + 1)
    &&& forall|i: int, j: int|
        0 <= i < points.len() && 0 <= j < dim ==> coords[i * (dim + 1) + j] == points[i][j]
    &&& forall|i: int| 0 <= i < points.len() ==> coords[i * (dim + 1) + dim] == lift[i]
}

/// Validate that every point has the first point's arity and flatten the
/// points into one row-major buffer.  Fails, before any engine work could
/// start, on the first point whose arity differs.
pub fn collect_coords(points: &Vec<Vec<u64>>) -> (r: Result<CollectedCoords, DimensionMismatch>)
    ensures
        match r {
            Ok(c) => {
                &&& arity_uniform(points.deep_view())
                &&& c.count == points@.len()
                &&& c.dim == input_dim(points.deep_view())
                &&& is_flattening(c.coords@, points.deep_view(), c.dim as int)
            },
            Err(e) => {
                &&& !arity_uniform(points.deep_view())
                &&& 0 < e.at < points@.len()
                &&& e.expected == input_dim(points.deep_view())
                &&& e.found == points.deep_view()[e.at as int].len()
                &&& e.found != e.expected
                &&& forall|k: int|
                    0 <= k < e.at ==> points.deep_view()[k].len() == input_dim(points.deep_view())
            },
        },
{
    let ghost pts = points.deep_view();
    let n = points.len();
    let dim: usize = if n == 0 {
        0
    } else {
        points[0].len()
    };
    let mut coords: Vec<u64> = Vec::new();
    let mut i: usize = 0;
    while i < n
        invariant
            pts == points.deep_view(),
            pts.len() == n,
            n == points@.len(),
            dim as int == input_dim(pts),
            i <= n,
            coords@.len() == i * dim,
            forall|k: int| 0 <= k < i ==> pts[k].len() == dim,
            forall|k: int, j: int|
                0 <= k < i && 0 <= j < dim ==> coords@[k * dim + j] == pts[k][j],
        decreases n - i,
    {
        let p = &points[i];
        assert(p@ == pts[i as int]);
        if p.len() != dim {
            assert(!arity_uniform(pts)) by {
                assert(pts[i as int].len() != pts[0].len());
            }
            return Err(DimensionMismatch { at: i, expected: dim, found: p.len() });
        }
        let mut j: usize = 0;
        while j < dim
            invariant
                pts == points.deep_view(),
                i < n,
                n == points@.len(),
                pts.len() == n,
                j <= dim,
                p@ == pts[i as int],
                p@.len() == dim,
                coords@.len() == i * dim + j,
                forall|k: int, l: int|
                    0 <= k < i && 0 <= l < dim ==> coords@[k * dim + l] == pts[k][l],
                forall|l: int| 0 <= l < j ==> coords@[i * dim + l] == pts[i as int][l],
            decreases dim - j,
        {
            let ghost pre = coords@;
            coords.push(p[j]);
            proof {
                assert forall|k: int, l: int|
                    0 <= k < i && 0 <= l < dim implies coords@[k * dim + l] == pts[k][l] by {
                    assert(k * dim + l < i * dim) by (nonlinear_arith)
                        requires
                            0 <= k < i,
                            0 <= l < dim,
                    ;
                    assert(coords@[k * dim + l] == pre[k * dim + l]);
                }
            }
            j = j + 1;
        }
        i = i + 1;
        assert(coords@.len() == i * dim) by (nonlinear_arith)
            requires
                coords@.len() == (i - 1) * dim + dim,
        ;
    }
    Ok(CollectedCoords { coords, count: n, dim })
}

/// Validate the input as [`collect_coords`] does and flatten it in lifted
/// form: every point keeps its coordinates and gains one trailing lifted
/// coordinate taken from `lift` (the caller computes it from the point; for
/// the paraboloid lifting it is the point's sum of squared coordinates).
pub fn prepare_delaunay_points(points: &Vec<Vec<u64>>, lift: &Vec<u64>) -> (r: Result<
    CollectedCoords,
    DimensionMismatch,
>)
    requires
        lift@.len() == points@.len(),
        input_dim(points.deep_view()) < usize::MAX,
    ensures
        match r {
            Ok(c) => {
                &&& arity_uniform(points.deep_view())
                &&& c.count == points@.len()
                &&& c.dim == input_dim(points.deep_view()) + 1
                &&& is_lifting(c.coords@, points.deep_view(), lift@, input_dim(points.deep_view()))
            },
            Err(e) => {
                &&& !arity_uniform(points.deep_view())
                &&& 0 < e.at < points@.len()
                &&& e.expected == input_dim(points.deep_view())
                &&& e.found == points.deep_view()[e.at as int].len()
                &&& e.found != e.expected
            },
        },
{
    let ghost pts = points.deep_view();
    let n = points.len();
    let dim: usize = if n == 0 {
        0
    } else {
        points[0].len()
    };
    let lifted_dim = dim + 1;
    let mut coords: Vec<u64> = Vec::new();
    let mut i: usize = 0;
    while i < n
        invariant
            pts == points.deep_view(),
            pts.len() == n,
            n == points@.len(),
            lift@.len() == n,
            dim as int == input_dim(pts),
            lifted_dim == dim + 1,
            i <= n,
            coords@.len() == i * lifted_dim,
            forall|k: int| 0 <= k < i ==> pts[k].len() == dim,
            forall|k: int, j: int|
                0 <= k < i && 0 <= j < dim ==> coords@[k * lifted_dim + j] == pts[k][j],
            forall|k: int| 0 <= k < i ==> coords@[k * lifted_dim + dim] == lift@[k],
        decreases n - i,
    {
        let p = &points[i];
        assert(p@ == pts[i as int]);
        if p.len() != dim {
            assert(!arity_uniform(pts)) by {
                assert(pts[i as int].len() != pts[0].len());
            }
            return Err(DimensionMismatch { at: i, expected: dim, found: p.len() });
        }
        let mut j: usize = 0;
        while j < dim
            invariant
                pts == points.deep_view(),
                i < n,
                n == points@.len(),
                pts.len() == n,
                lift@.len() == n,
                lifted_dim == dim + 1,
                j <= dim,
                p@ == pts[i as int],
                p@.len() == dim,
                coords@.len() == i * lifted_dim + j,
                forall|k: int, l: int|
                    0 <= k < i && 0 <= l < dim ==> coords@[k * lifted_dim + l] == pts[k][l],
                forall|k: int| 0 <= k < i ==> coords@[k * lifted_dim + dim] == lift@[k],
                forall|l: int| 0 <= l < j ==> coords@[i * lifted_dim + l] == pts[i as int][l],
            decreases dim - j,
        {
            let ghost pre = coords@;
            coords.push(p[j]);
            proof {
                assert forall|k: int, l: int|
                    0 <= k < i && 0 <= l < dim implies coords@[k * lifted_dim + l] == pts[k][l] by {
                    assert(k * lifted_dim + l < i * lifted_dim) by (nonlinear_arith)
                        requires
                            0 <= k < i,
                            0 <= l < dim,
                            lifted_dim == dim + 1,
                    ;
                    assert(coords@[k * lifted_dim + l] == pre[k * lifted_dim + l]);
                }
                assert forall|k: int| 0 <= k < i implies coords@[k * lifted_dim + dim] == lift@[k] by {
                    assert(k * lifted_dim + dim < i * lifted_dim) by (nonlinear_arith)
                        requires
                            0 <= k < i,
                            0 <= dim,
                            lifted_dim == dim + 1,
                    ;
                    assert(coords@[k * lifted_dim + dim] == pre[k * lifted_dim + dim]);
                }
            }
            j = j + 1;
        }
        let ghost pre = coords@;
        coords.push(lift[i]);
        proof {
            assert forall|k: int, l: int|
                0 <= k < i && 0 <= l < dim implies coords@[k * lifted_dim + l] == pts[k][l] by {
                assert(k * lifted_dim + l < i * lifted_dim) by (nonlinear_arith)
                    requires
                        0 <= k < i,
                        0 <= l < dim,
                        lifted_dim == dim + 1,
                ;
                assert(coords@[k * lifted_dim + l] == pre[k * lifted_dim + l]);
            }
            assert forall|k: int| 0 <= k < i implies coords@[k * lifted_dim + dim] == lift@[k] by {
                assert(k * lifted_dim + dim < i * lifted_dim) by (nonlinear_arith)
                    requires
                        0 <= k < i,
                        0 <= dim,
                        lifted_dim == dim + 1,
                ;
                assert(coords@[k * lifted_dim + dim] == pre[k * lifted_dim + dim]);
            }
            assert(coords@[i * lifted_dim + dim] == lift@[i as int]);
        }
        i = i + 1;
        assert(coords@.len() == i * lifted_dim) by (nonlinear_arith)
            requires
                coords@.len() == (i - 1) * lifted_dim + lifted_dim,
        ;
    }
    Ok(CollectedCoords { coords, count: n, dim: lifted_dim })
}

} // verus!
