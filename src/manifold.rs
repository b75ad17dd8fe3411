//! The sphere mesh is closed: once the seam column is identified with column
//! 0, every directed edge of a triangle meets its reverse in exactly one
//! other triangle.
use crate::sphere::{
    bottom_start, hsegs_of, lemma_band_index, lemma_ring_site, next_col, num_triangles,
    num_vertices, ring_vertex, sphere_site, sphere_triangle, vsegs_of, welded,
};
use vstd::arithmetic::div_mod::{lemma_fundamental_div_mod, lemma_mod_pos_bound};
use vstd::prelude::*;

verus! {

/// Corner `k` (0, 1 or 2) of triangle `t`, as the point of the sphere it stands for.
pub open spec fn corner(segments: int, t: int, k: int) -> (int, int) {
    let tri = sphere_triangle(segments, t);
    let idx = if k == 0 {
        tri.0
    } else if k == 1 {
        tri.1
    } else {
        tri.2
    };
    welded(segments, sphere_site(segments, idx))
}

/// The corner after `k` in winding order.
pub open spec fn next_corner(k: int) -> int {
    if k == 2 {
        0
    } else {
        k + 1
    }
}

/// Directed edge `k` of triangle `t`, from corner `k` to the next one.
pub open spec fn edge(segments: int, t: int, k: int) -> ((int, int), (int, int)) {
    (corner(segments, t, k), corner(segments, t, next_corner(k)))
}

/// The column before `i` round a ring of `h` quads.
spec fn prev_col(h: int, i: int) -> int {
    if i == 0 {
        h - 1
    } else {
        i - 1
    }
}

/// Which face triangle `t` is, as (band, row, column, half): band 0 is the
/// top cap, band 1 the middle bands (quad at `row`, `column`; half 0 or 1),
/// band 2 the bottom cap.
spec fn face_of(segments: int, t: int) -> (int, int, int, int) {
    let v = vsegs_of(segments);
    let h = 2 * v;
    if t < h {
        (0, 1, t, 0)
    } else if t < bottom_start(segments) {
        let q = t - h;
        (1, q / (2 * h) + 1, (q % (2 * h)) / 2, (q % (2 * h)) % 2)
    } else {
        (2, v - 1, h - 1 - (t - bottom_start(segments)), 0)
    }
}

spec fn face_index(segments: int, f: (int, int, int, int)) -> int {
    let h = hsegs_of(segments);
    if f.0 == 0 {
        f.2
    } else if f.0 == 1 {
        h + 2 * ((f.1 - 1) * h + f.2) + f.3
    } else {
        bottom_start(segments) + (h - 1 - f.2)
    }
}

spec fn face_valid(segments: int, f: (int, int, int, int)) -> bool {
    let v = vsegs_of(segments);
    &&& 0 <= f.2 < 2 * v
    &&& {
        ||| (f.0 == 0 && f.1 == 1 && f.3 == 0)
        ||| (f.0 == 1 && 1 <= f.1 <= v - 2 && 0 <= f.3 < 2)
        ||| (f.0 == 2 && f.1 == v - 1 && f.3 == 0)
    }
}

spec fn face_corner(segments: int, f: (int, int, int, int), k: int) -> (int, int) {
    let v = vsegs_of(segments);
    let i1 = next_col(2 * v, f.2);
    if f.0 == 0 {
        if k == 0 {
            (0, 0)
        } else if k == 1 {
            (1, f.2)
        } else {
            (1, i1)
        }
    } else if f.0 == 1 {
        if f.3 == 0 {
            if k == 0 {
                (f.1, f.2)
            } else if k == 1 {
                (f.1 + 1, f.2)
            } else {
                (f.1, i1)
            }
        } else {
            if k == 0 {
                (f.1, i1)
            } else if k == 1 {
                (f.1 + 1, f.2)
            } else {
                (f.1 + 1, i1)
            }
        }
    } else {
        if k == 0 {
            (v, 0)
        } else if k == 1 {
            (f.1, i1)
        } else {
            (f.1, f.2)
        }
    }
}

spec fn face_edge(segments: int, f: (int, int, int, int), k: int) -> ((int, int), (int, int)) {
    (face_corner(segments, f, k), face_corner(segments, f, next_corner(k)))
}

/// The face and edge across edge `k` of face `f`.
spec fn twin(segments: int, f: (int, int, int, int), k: int) -> ((int, int, int, int), int) {
    let v = vsegs_of(segments);
    let h = 2 * v;
    let i = f.2;
    let lat = f.1;
    if f.0 == 0 {
        if k == 0 {
            ((0, 1, prev_col(h, i), 0), 2)
        } else if k == 1 {
            if v > 2 {
                ((1, 1, i, 0), 2)
            } else {
                ((2, v - 1, i, 0), 1)
            }
        } else {
            ((0, 1, next_col(h, i), 0), 0)
        }
    } else if f.0 == 1 && f.3 == 0 {
        if k == 0 {
            ((1, lat, prev_col(h, i), 1), 2)
        } else if k == 1 {
            ((1, lat, i, 1), 0)
        } else {
            if lat == 1 {
                ((0, 1, i, 0), 1)
            } else {
                ((1, lat - 1, i, 1), 1)
            }
        }
    } else if f.0 == 1 {
        if k == 0 {
            ((1, lat, i, 0), 1)
        } else if k == 1 {
            if lat == v - 2 {
                ((2, v - 1, i, 0), 1)
            } else {
                ((1, lat + 1, i, 0), 2)
            }
        } else {
            ((1, lat, next_col(h, i), 0), 0)
        }
    } else {
        if k == 0 {
            ((2, v - 1, next_col(h, i), 0), 2)
        } else if k == 1 {
            if v == 2 {
                ((0, 1, i, 0), 1)
            } else {
                ((1, v - 2, i, 1), 1)
            }
        } else {
            ((2, v - 1, prev_col(h, i), 0), 0)
        }
    }
}

proof fn lemma_bottom_start_bounds(segments: int)
    ensures
        hsegs_of(segments) <= bottom_start(segments),
        bottom_start(segments) + hsegs_of(segments) == num_triangles(segments),
{
    let v = vsegs_of(segments);
    let h = 2 * v;
    assert((v - 2) * h * 2 >= 0) by (nonlinear_arith)
        requires
            v >= 2,
            h >= 0,
    ;
}

/// Triangle `t` is a valid face, found again from that face.
proof fn lemma_face_decode(segments: int, t: int)
    requires
        0 <= t < num_triangles(segments),
    ensures
        face_valid(segments, face_of(segments, t)),
        face_index(segments, face_of(segments, t)) == t,
{
    let v = vsegs_of(segments);
    let h = 2 * v;
    lemma_bottom_start_bounds(segments);
    if h <= t < bottom_start(segments) {
        let q = t - h;
        let j = q / (2 * h);
        let rem = q % (2 * h);
        lemma_fundamental_div_mod(q, 2 * h);
        lemma_mod_pos_bound(q, 2 * h);
        assert(0 <= j <= v - 3) by (nonlinear_arith)
            requires
                q == (2 * h) * j + rem,
                0 <= rem < 2 * h,
                0 <= q < (v - 2) * h * 2,
                h > 0,
        ;
        assert(t == h + 2 * ((j + 1 - 1) * h + rem / 2) + rem % 2) by (nonlinear_arith)
            requires
                q == (2 * h) * j + rem,
                q == t - h,
                rem == 2 * (rem / 2) + rem % 2,
        ;
    }
}

/// A valid face is a triangle of the mesh, and that triangle is the face.
proof fn lemma_face_encode(segments: int, f: (int, int, int, int))
    requires
        face_valid(segments, f),
    ensures
        0 <= face_index(segments, f) < num_triangles(segments),
        face_of(segments, face_index(segments, f)) == f,
{
    lemma_bottom_start_bounds(segments);
    if f.0 == 1 {
        lemma_band_index(segments, f.1, f.2, f.3);
    }
}

/// The corners of triangle `t` are those of its face.
proof fn lemma_face_corners(segments: int, t: int)
    requires
        0 <= t < num_triangles(segments),
    ensures
        forall|k: int|
            0 <= k < 3 ==> #[trigger] corner(segments, t, k) == face_corner(
                segments,
                face_of(segments, t),
                k,
            ),
{
    let v = vsegs_of(segments);
    let h = 2 * v;
    let n = num_vertices(segments);
    lemma_face_decode(segments, t);
    lemma_bottom_start_bounds(segments);
    let f = face_of(segments, t);
    if t < h {
        assert(ring_vertex(h, 1, t) == 1 + t);
        assert(ring_vertex(h, 1, t + 1) == 2 + t);
        lemma_ring_site(segments, 1, t);
        lemma_ring_site(segments, 1, t + 1);
    } else if t < bottom_start(segments) {
        let i1 = next_col(h, f.2);
        lemma_ring_site(segments, f.1, f.2);
        lemma_ring_site(segments, f.1 + 1, f.2);
        lemma_ring_site(segments, f.1, i1);
        lemma_ring_site(segments, f.1 + 1, i1);
        assert(ring_vertex(h, f.1, h) + 1 == ring_vertex(h, f.1 + 1, 0)) by (nonlinear_arith);
    } else {
        let m = t - bottom_start(segments);
        assert(ring_vertex(h, v - 1, h) == n - 2) by (nonlinear_arith)
            requires
                n == 1 + (v - 1) * (2 * v + 1) + 1,
                h == 2 * v,
        ;
        lemma_ring_site(segments, v - 1, h - m);
        lemma_ring_site(segments, v - 1, h - 1 - m);
    }
}

/// Distinct edges of valid faces are distinct directed edges.
proof fn lemma_face_edges_distinct(
    segments: int,
    f: (int, int, int, int),
    k: int,
    g: (int, int, int, int),
    p: int,
)
    requires
        face_valid(segments, f),
        face_valid(segments, g),
        0 <= k < 3,
        0 <= p < 3,
        face_edge(segments, f, k) == face_edge(segments, g, p),
    ensures
        f == g,
        k == p,
{
}

/// Across every edge lies another valid face, whose edge runs the other way.
proof fn lemma_twin(segments: int, f: (int, int, int, int), k: int)
    requires
        face_valid(segments, f),
        0 <= k < 3,
    ensures
        face_valid(segments, twin(segments, f, k).0),
        0 <= twin(segments, f, k).1 < 3,
        twin(segments, f, k).0 != f,
        face_edge(segments, twin(segments, f, k).0, twin(segments, f, k).1) == (
            face_edge(segments, f, k).1,
            face_edge(segments, f, k).0,
        ),
{
}

/// Every index of every triangle points into the vertex list.
pub proof fn lemma_indices_in_range(segments: int, t: int)
    requires
        0 <= t < num_triangles(segments),
    ensures
        0 <= sphere_triangle(segments, t).0 < num_vertices(segments),
        0 <= sphere_triangle(segments, t).1 < num_vertices(segments),
        0 <= sphere_triangle(segments, t).2 < num_vertices(segments),
{
    let v = vsegs_of(segments);
    let h = 2 * v;
    let n = num_vertices(segments);
    lemma_face_decode(segments, t);
    lemma_bottom_start_bounds(segments);
    let f = face_of(segments, t);
    if t < h {
        assert(ring_vertex(h, 1, t + 1) == 2 + t);
        lemma_ring_site(segments, 1, t + 1);
    } else if t < bottom_start(segments) {
        lemma_ring_site(segments, f.1, f.2);
        lemma_ring_site(segments, f.1 + 1, f.2);
        lemma_ring_site(segments, f.1, next_col(h, f.2));
        lemma_ring_site(segments, f.1 + 1, next_col(h, f.2));
    } else {
        let m = t - bottom_start(segments);
        assert(ring_vertex(h, v - 1, h) == n - 2) by (nonlinear_arith)
            requires
                n == 1 + (v - 1) * (2 * v + 1) + 1,
                h == 2 * v,
        ;
        lemma_ring_site(segments, v - 1, h - 1 - m);
    }
}

/// No triangle is degenerate: its three corners are three distinct points of
/// the sphere, at the poles too.
pub proof fn lemma_triangles_nondegenerate(segments: int, t: int)
    requires
        0 <= t < num_triangles(segments),
    ensures
        corner(segments, t, 0) != corner(segments, t, 1),
        corner(segments, t, 1) != corner(segments, t, 2),
        corner(segments, t, 2) != corner(segments, t, 0),
{
    lemma_face_decode(segments, t);
    lemma_face_corners(segments, t);
}

/// Closed mesh: every directed edge of a triangle is met, reversed, by exactly
/// one edge of exactly one other triangle (with the seam column identified
/// with column 0).
pub proof fn lemma_mesh_closed(segments: int, t: int, k: int)
    requires
        0 <= t < num_triangles(segments),
        0 <= k < 3,
    ensures
        exists|u: int, m: int|
            {
                &&& 0 <= u < num_triangles(segments)
                &&& 0 <= m < 3
                &&& u != t
                &&& #[trigger] edge(segments, u, m) == (
                    edge(segments, t, k).1,
                    edge(segments, t, k).0,
                )
                &&& forall|w: int, p: int|
                    0 <= w < num_triangles(segments) && 0 <= p < 3 && #[trigger] edge(
                        segments,
                        w,
                        p,
                    ) == (edge(segments, t, k).1, edge(segments, t, k).0) ==> w == u && p == m
            },
{
    let f = face_of(segments, t);
    lemma_face_decode(segments, t);
    lemma_face_corners(segments, t);
    lemma_twin(segments, f, k);
    let (g, m) = twin(segments, f, k);
    lemma_face_encode(segments, g);
    let u = face_index(segments, g);
    lemma_face_corners(segments, u);
    assert(edge(segments, t, k) == face_edge(segments, f, k));
    assert(edge(segments, u, m) == face_edge(segments, g, m));
    assert forall|w: int, p: int|
        0 <= w < num_triangles(segments) && 0 <= p < 3 && #[trigger] edge(segments, w, p) == (
            edge(segments, t, k).1,
            edge(segments, t, k).0,
        ) implies w == u && p == m by {
        lemma_face_decode(segments, w);
        lemma_face_corners(segments, w);
        assert(edge(segments, w, p) == face_edge(segments, face_of(segments, w), p));
        lemma_face_edges_distinct(segments, face_of(segments, w), p, g, m);
    }
    assert(u != t);
}

} // verus!
