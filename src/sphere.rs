//! UV-sphere tessellation on an integer latitude/longitude grid.
//!
//! A vertex is named by its grid point: latitude row `lat` counted from the
//! north pole (0) to the south pole (`vsegs`), and longitude column `lon`
//! from 0 to `hsegs`, where column `hsegs` repeats column 0 so that texture
//! coordinates need not wrap. The polar angle of a point is
//! `lat / vsegs * pi`, its azimuth `lon / hsegs * 2 pi`, and its texture
//! coordinate `(lon / hsegs, 1 - lat / vsegs)`; the poles sit in column
//! `vsegs`, so that their `u` is one half.
use vstd::arithmetic::div_mod::lemma_fundamental_div_mod_converse;
use vstd::prelude::*;

verus! {

/// Vertical resolution actually used for a requested segment count.
pub open spec fn vsegs_of(segments: int) -> int {
    if segments < 2 {
        2
    } else {
        segments
    }
}

/// Horizontal resolution: twice the vertical one, so that quads are roughly square.
pub open spec fn hsegs_of(segments: int) -> int {
    2 * vsegs_of(segments)
}

/// Two poles and `vsegs - 1` rings of `hsegs + 1` vertices each.
pub open spec fn num_vertices(segments: int) -> int {
    let v = vsegs_of(segments);
    1 + (v - 1) * (2 * v + 1) + 1
}

/// A cap of `hsegs` triangles at each pole and two triangles per quad in between.
pub open spec fn num_triangles(segments: int) -> int {
    let v = vsegs_of(segments);
    let h = 2 * v;
    h + (v - 2) * h * 2 + h
}

/// Every vertex index fits in a `u32` index buffer, and both lists fit in memory.
pub open spec fn mesh_fits(segments: int) -> bool {
    &&& num_vertices(segments) <= 0x1_0000_0000
    &&& num_vertices(segments) <= usize::MAX
    &&& num_triangles(segments) <= usize::MAX
}

/// Index of the vertex in ring row `lat` (1 ..= vsegs-1) and column `lon` (0 ..= hsegs).
pub open spec fn ring_vertex(h: int, lat: int, lon: int) -> int {
    1 + (lat - 1) * (h + 1) + lon
}

/// Grid point `(lat, lon)` of vertex number `k`.
pub open spec fn sphere_site(segments: int, k: int) -> (int, int) {
    let v = vsegs_of(segments);
    let h = 2 * v;
    if k == 0 {
        (0, v)
    } else if k == num_vertices(segments) - 1 {
        (v, v)
    } else {
        ((k - 1) / (h + 1) + 1, (k - 1) % (h + 1))
    }
}

/// The point on the sphere that a grid point stands for: the seam column is
/// column 0 again, and each pole is a single point.
pub open spec fn welded(segments: int, site: (int, int)) -> (int, int) {
    let v = vsegs_of(segments);
    if site.0 == 0 || site.0 == v || site.1 == 2 * v {
        (site.0, 0)
    } else {
        site
    }
}

/// The next column round a ring of `h` quads.
pub open spec fn next_col(h: int, i: int) -> int {
    if i + 1 == h {
        0
    } else {
        i + 1
    }
}

/// First triangle after the middle bands.
pub open spec fn bottom_start(segments: int) -> int {
    let v = vsegs_of(segments);
    let h = 2 * v;
    h + (v - 2) * h * 2
}

/// Triangle number `t`, as three vertex indices. The top cap fans from the
/// north pole over the first ring; each middle band splits the quad between
/// rows `lat` and `lat + 1` at column `i` into two triangles, its last quad
/// closing onto column 0 of both rows; the bottom cap fans from the south
/// pole over the last ring.
pub open spec fn sphere_triangle(segments: int, t: int) -> (int, int, int) {
    let v = vsegs_of(segments);
    let h = 2 * v;
    let n = num_vertices(segments);
    if t < h {
        (0, 1 + t, 2 + t)
    } else if t < bottom_start(segments) {
        let q = t - h;
        let lat = q / (2 * h) + 1;
        let i = (q % (2 * h)) / 2;
        let i1 = next_col(h, i);
        if (q % (2 * h)) % 2 == 0 {
            (ring_vertex(h, lat, i), ring_vertex(h, lat + 1, i), ring_vertex(h, lat, i1))
        } else {
            (ring_vertex(h, lat, i1), ring_vertex(h, lat + 1, i), ring_vertex(h, lat + 1, i1))
        }
    } else {
        let i = t - bottom_start(segments);
        (n - 1, n - 2 - i, n - 3 - i)
    }
}

/// The first `len` triangles of `tris` are those of the sphere.
pub open spec fn triangles_prefix(segments: int, tris: Seq<Triangle>, len: int) -> bool {
    &&& tris.len() == len
    &&& forall|t: int| 0 <= t < len ==> #[trigger] tris[t]@ == sphere_triangle(segments, t)
}

/// Texture coordinate of a grid point as two fractions (numerator,
/// denominator): `u = lon / hsegs` and `v = (vsegs - lat) / vsegs`.
pub open spec fn tex_fraction(segments: int, site: (int, int)) -> ((int, int), (int, int)) {
    let v = vsegs_of(segments);
    ((site.1, 2 * v), (v - site.0, v))
}

/// A vertex of the sphere, named by its grid point.
#[derive(Clone, Copy, Debug, PartialEq, Eq, Structural)]
pub struct GridPoint {
    pub lat: usize,
    pub lon: usize,
}

impl View for GridPoint {
    type V = (int, int);

    open spec fn view(&self) -> (int, int) {
        (self.lat as int, self.lon as int)
    }
}

impl GridPoint {
    /// The grid point whose direction this vertex takes (see `welded`): use it
    /// for position and normal, and the vertex's own column for the texture.
    pub fn welded(&self, segments: usize) -> (r: (usize, usize))
        ensures
            (r.0 as int, r.1 as int) == welded(segments as int, self@),
    {
        let v = if segments < 2 {
            2
        } else {
            segments
        };
        if self.lat == 0 || self.lat == v || (self.lon % 2 == 0 && self.lon / 2 == v) {
            (self.lat, 0)
        } else {
            (self.lat, self.lon)
        }
    }

    /// Texture coordinate fractions of this vertex (see `tex_fraction`).
    pub fn tex_fraction(&self, segments: usize) -> (r: ((usize, usize), (usize, usize)))
        requires
            mesh_fits(segments as int),
            self.lat <= vsegs_of(segments as int),
        ensures
            ((r.0.0 as int, r.0.1 as int), (r.1.0 as int, r.1.1 as int)) == tex_fraction(
                segments as int,
                self@,
            ),
    {
        proof {
            lemma_fits_bound(segments as int);
        }
        let v = if segments < 2 {
            2
        } else {
            segments
        };
        ((self.lon, 2 * v), (v - self.lat, v))
    }
}

/// Three indices into the vertex list.
#[derive(Clone, Copy, Debug, PartialEq, Eq, Structural)]
pub struct Triangle {
    pub a: u32,
    pub b: u32,
    pub c: u32,
}

impl View for Triangle {
    type V = (int, int, int);

    open spec fn view(&self) -> (int, int, int) {
        (self.a as int, self.b as int, self.c as int)
    }
}

/// A mesh that fits has fewer than 2^16 rows.
proof fn lemma_fits_bound(segments: int)
    requires
        mesh_fits(segments),
    ensures
        2 <= vsegs_of(segments) < 0x10000,
{
    let v = vsegs_of(segments);
    if v >= 0x10000 {
        assert((v - 1) * (2 * v + 1) >= 0xffff * 0x20001) by (nonlinear_arith)
            requires
                v >= 0x10000,
        ;
    }
}

/// The grid point of a ring vertex is found again from its index.
pub(crate) proof fn lemma_ring_site(segments: int, lat: int, lon: int)
    requires
        1 <= lat <= vsegs_of(segments) - 1,
        0 <= lon <= hsegs_of(segments),
    ensures
        0 < ring_vertex(hsegs_of(segments), lat, lon) < num_vertices(segments) - 1,
        sphere_site(segments, ring_vertex(hsegs_of(segments), lat, lon)) == (lat, lon),
{
    let v = vsegs_of(segments);
    let h = 2 * v;
    assert((lat - 1) * (h + 1) <= (v - 2) * (h + 1)) by (nonlinear_arith)
        requires
            lat - 1 <= v - 2,
            h + 1 > 0,
    ;
    assert((lat - 1) * (h + 1) >= 0) by (nonlinear_arith)
        requires
            lat - 1 >= 0,
            h + 1 > 0,
    ;
    assert((v - 1) * (2 * v + 1) == (v - 2) * (h + 1) + (h + 1)) by (nonlinear_arith)
        requires
            h == 2 * v,
    ;
    lemma_fundamental_div_mod_converse(
        ring_vertex(h, lat, lon) - 1,
        h + 1,
        lat - 1,
        lon,
    );
}

/// Where the two triangles of quad `(lat, i)` of the middle bands stand.
pub(crate) proof fn lemma_band_index(segments: int, lat: int, i: int, half: int)
    requires
        1 <= lat <= vsegs_of(segments) - 2,
        0 <= i < hsegs_of(segments),
        0 <= half < 2,
    ensures
        ({
            let h = hsegs_of(segments);
            let t = h + 2 * ((lat - 1) * h + i) + half;
            &&& h <= t < bottom_start(segments)
            &&& (t - h) / (2 * h) + 1 == lat
            &&& (t - h) % (2 * h) == 2 * i + half
            &&& (2 * i + half) / 2 == i
            &&& (2 * i + half) % 2 == half
        }),
{
    let v = vsegs_of(segments);
    let h = 2 * v;
    let t = h + 2 * ((lat - 1) * h + i) + half;
    assert(t - h == (lat - 1) * (2 * h) + (2 * i + half)) by (nonlinear_arith)
        requires
            t == h + 2 * ((lat - 1) * h + i) + half,
    ;
    lemma_fundamental_div_mod_converse(t - h, 2 * h, lat - 1, 2 * i + half);
    assert((lat - 1) * h <= (v - 3) * h) by (nonlinear_arith)
        requires
            lat - 1 <= v - 3,
            h > 0,
    ;
    assert((lat - 1) * h >= 0) by (nonlinear_arith)
        requires
            lat - 1 >= 0,
            h > 0,
    ;
    assert((v - 3) * h + h == (v - 2) * h) by (nonlinear_arith);
}

/// Every vertex index of a mesh that fits is below the vertex count, which is
/// at least `hsegs + 3`.
proof fn lemma_vertex_bounds(segments: int)
    ensures
        num_vertices(segments) >= hsegs_of(segments) + 3,
{
    let v = vsegs_of(segments);
    assert((v - 1) * (2 * v + 1) >= 2 * v + 1) by (nonlinear_arith)
        requires
            v >= 2,
    ;
}

/// Appends the top cap: `hsegs` triangles fanning from the north pole.
fn push_top_cap(tris: &mut Vec<Triangle>, segments: usize)
    requires
        mesh_fits(segments as int),
        old(tris)@.len() == 0,
    ensures
        triangles_prefix(segments as int, final(tris)@, hsegs_of(segments as int)),
{
    let ghost s = segments as int;
    proof {
        lemma_fits_bound(s);
        lemma_vertex_bounds(s);
    }
    let v = if segments < 2 {
        2
    } else {
        segments
    };
    let h = 2 * v;
    let mut i: usize = 0;
    while i < h
        invariant
            v == vsegs_of(s),
            h == hsegs_of(s),
            mesh_fits(s),
            num_vertices(s) >= h + 3,
            0 <= i <= h,
            triangles_prefix(s, tris@, i as int),
        decreases h - i,
    {
        tris.push(Triangle { a: 0, b: (1 + i) as u32, c: (2 + i) as u32 });
        i = i + 1;
    }
}

/// Appends the middle bands: two triangles for each quad between consecutive rings.
fn push_middle_bands(tris: &mut Vec<Triangle>, segments: usize)
    requires
        mesh_fits(segments as int),
        triangles_prefix(segments as int, old(tris)@, hsegs_of(segments as int)),
    ensures
        triangles_prefix(segments as int, final(tris)@, bottom_start(segments as int)),
{
    let ghost s = segments as int;
    proof {
        lemma_fits_bound(s);
    }
    let v = if segments < 2 {
        2
    } else {
        segments
    };
    let h = 2 * v;
    let mut lat: usize = 1;
    let mut row: usize = 1;
    assert(ring_vertex(h as int, 1, 0) == 1) by (nonlinear_arith);
    assert(h + 2 * ((1 - 1) * h + 0) == h) by (nonlinear_arith);
    while lat + 1 < v
        invariant
            v == vsegs_of(s),
            h == hsegs_of(s),
            mesh_fits(s),
            1 <= lat <= v - 1,
            row == ring_vertex(h as int, lat as int, 0),
            triangles_prefix(s, tris@, h + 2 * ((lat - 1) * h + 0)),
        decreases v - lat,
    {
        let mut i: usize = 0;
        while i < h
            invariant
                v == vsegs_of(s),
                h == hsegs_of(s),
                mesh_fits(s),
                1 <= lat <= v - 2,
                0 <= i <= h,
                row == ring_vertex(h as int, lat as int, 0),
                triangles_prefix(s, tris@, h + 2 * ((lat - 1) * h + i)),
            decreases h - i,
        {
            proof {
                lemma_ring_site(s, lat as int, i as int);
                lemma_ring_site(s, lat + 1, i as int);
                lemma_ring_site(s, lat as int, next_col(h as int, i as int));
                lemma_ring_site(s, lat + 1, next_col(h as int, i as int));
                lemma_band_index(s, lat as int, i as int, 0);
                lemma_band_index(s, lat as int, i as int, 1);
                assert(ring_vertex(h as int, lat + 1, i as int) == ring_vertex(
                    h as int,
                    lat as int,
                    i as int,
                ) + h + 1) by (nonlinear_arith);
            }
            let a = row + i;
            let b = a + h + 1;
            let c = if i + 1 == h {
                row
            } else {
                a + 1
            };
            let d = c + h + 1;
            tris.push(Triangle { a: a as u32, b: b as u32, c: c as u32 });
            tris.push(Triangle { a: c as u32, b: b as u32, c: d as u32 });
            assert(h + 2 * ((lat - 1) * h + i) + 2 == h + 2 * ((lat - 1) * h + (i + 1)))
                by (nonlinear_arith);
            i = i + 1;
        }
        assert(h + 2 * ((lat - 1) * h + h) == h + 2 * ((lat + 1 - 1) * h + 0)) by (nonlinear_arith);
        assert(ring_vertex(h as int, lat + 1, 0) == ring_vertex(h as int, lat as int, 0) + h + 1)
            by (nonlinear_arith);
        proof {
            lemma_ring_site(s, lat + 1, 0);
        }
        row = row + h + 1;
        lat = lat + 1;
    }
    assert(h + 2 * ((lat - 1) * h + 0) == bottom_start(s)) by (nonlinear_arith)
        requires
            lat == v - 1,
            h == 2 * v,
            bottom_start(s) == h + (v - 2) * h * 2,
    ;
}

/// Appends the bottom cap: `hsegs` triangles fanning from the south pole.
fn push_bottom_cap(tris: &mut Vec<Triangle>, segments: usize)
    requires
        mesh_fits(segments as int),
        triangles_prefix(segments as int, old(tris)@, bottom_start(segments as int)),
    ensures
        triangles_prefix(segments as int, final(tris)@, num_triangles(segments as int)),
{
    let ghost s = segments as int;
    proof {
        lemma_fits_bound(s);
        lemma_vertex_bounds(s);
    }
    let n = vertex_count(segments);
    let v = if segments < 2 {
        2
    } else {
        segments
    };
    let h = 2 * v;
    let mut i: usize = 0;
    while i < h
        invariant
            v == vsegs_of(s),
            h == hsegs_of(s),
            n == num_vertices(s),
            mesh_fits(s),
            n >= h + 3,
            0 <= i <= h,
            triangles_prefix(s, tris@, bottom_start(s) + i),
            bottom_start(s) + h == num_triangles(s),
        decreases h - i,
    {
        tris.push(Triangle { a: (n - 1) as u32, b: (n - 2 - i) as u32, c: (n - 3 - i) as u32 });
        i = i + 1;
    }
}

/// The triangle list of the sphere, cap, bands and cap.
pub fn sphere_triangles(segments: usize) -> (r: Vec<Triangle>)
    requires
        mesh_fits(segments as int),
    ensures
        r@.len() == num_triangles(segments as int),
        forall|t: int|
            0 <= t < r@.len() ==> #[trigger] r@[t]@ == sphere_triangle(segments as int, t),
{
    let mut tris: Vec<Triangle> = Vec::new();
    push_top_cap(&mut tris, segments);
    push_middle_bands(&mut tris, segments);
    push_bottom_cap(&mut tris, segments);
    tris
}

/// Whether the mesh of `segments` fits (see `mesh_fits`).
pub fn sphere_fits(segments: usize) -> (r: bool)
    ensures
        r == mesh_fits(segments as int),
{
    if segments >= 0x10000 {
        assert((segments - 1) * (2 * segments + 1) >= 0xffff * 0x20001) by (nonlinear_arith)
            requires
                segments >= 0x10000,
        ;
        return false;
    }
    let v: u64 = if segments < 2 {
        2
    } else {
        segments as u64
    };
    let h = 2 * v;
    assert((v - 1) * (h + 1) <= 0x10000 * 0x20001) by (nonlinear_arith)
        requires
            2 <= v < 0x10000,
            h == 2 * v,
    ;
    let n = 2 + (v - 1) * (h + 1);
    assert((v - 2) * h * 2 <= 0x10000 * 0x20000 * 2) by (nonlinear_arith)
        requires
            2 <= v < 0x10000,
            h == 2 * v,
    ;
    let t = h + (v - 2) * h * 2 + h;
    n <= 0x1_0000_0000 && n as u128 <= usize::MAX as u128 && t as u128 <= usize::MAX as u128
}

/// The triangle list as a flat index buffer: three indices per triangle, in order.
pub fn index_list(tris: &Vec<Triangle>) -> (r: Vec<u32>)
    requires
        3 * tris@.len() <= usize::MAX,
    ensures
        r@.len() == 3 * tris@.len(),
        forall|t: int|
            0 <= t < tris@.len() ==> {
                &&& #[trigger] r@[3 * t] == tris@[t].a
                &&& r@[3 * t + 1] == tris@[t].b
                &&& r@[3 * t + 2] == tris@[t].c
            },
{
    let mut r: Vec<u32> = Vec::new();
    let mut i: usize = 0;
    while i < tris.len()
        invariant
            0 <= i <= tris@.len(),
            r@.len() == 3 * i,
            forall|t: int|
                0 <= t < i ==> {
                    &&& #[trigger] r@[3 * t] == tris@[t].a
                    &&& r@[3 * t + 1] == tris@[t].b
                    &&& r@[3 * t + 2] == tris@[t].c
                },
        decreases tris@.len() - i,
    {
        let tri = tris[i];
        let ghost prev = r@;
        r.push(tri.a);
        r.push(tri.b);
        r.push(tri.c);
        assert(r@ == prev + seq![tri.a, tri.b, tri.c]);
        assert forall|t: int| 0 <= t < i + 1 implies {
            &&& #[trigger] r@[3 * t] == tris@[t].a
            &&& r@[3 * t + 1] == tris@[t].b
            &&& r@[3 * t + 2] == tris@[t].c
        } by {
            if t < i {
                assert(r@[3 * t] == prev[3 * t]);
            }
        }
        i = i + 1;
    }
    r
}

/// The whole mesh: vertex list and triangle list.
pub fn create_sphere(segments: usize) -> (r: (Vec<GridPoint>, Vec<Triangle>))
    requires
        mesh_fits(segments as int),
    ensures
        r.0@.len() == num_vertices(segments as int),
        forall|k: int|
            0 <= k < r.0@.len() ==> #[trigger] r.0@[k]@ == sphere_site(segments as int, k),
        r.1@.len() == num_triangles(segments as int),
        forall|t: int|
            0 <= t < r.1@.len() ==> #[trigger] r.1@[t]@ == sphere_triangle(segments as int, t),
{
    (sphere_vertices(segments), sphere_triangles(segments))
}

/// Vertex count for a segment count.
pub fn vertex_count(segments: usize) -> (r: usize)
    requires
        mesh_fits(segments as int),
    ensures
        r == num_vertices(segments as int),
{
    proof {
        lemma_fits_bound(segments as int);
    }
    let v = if segments < 2 {
        2
    } else {
        segments
    };
    assert((v - 1) * (2 * v + 1) <= num_vertices(segments as int));
    2 + (v - 1) * (2 * v + 1)
}

/// Triangle count for a segment count.
pub fn triangle_count(segments: usize) -> (r: usize)
    requires
        mesh_fits(segments as int),
    ensures
        r == num_triangles(segments as int),
{
    proof {
        lemma_fits_bound(segments as int);
    }
    let v = if segments < 2 {
        2
    } else {
        segments
    };
    let h = 2 * v;
    assert((v - 2) * h * 2 <= num_triangles(segments as int));
    assert((v - 2) * h <= (v - 2) * h * 2) by (nonlinear_arith)
        requires
            (v - 2) * h >= 0,
    ;
    h + (v - 2) * h * 2 + h
}

/// The vertex list: north pole, then the rings from north to south, each
/// from column 0 to the seam column, then the south pole.
pub fn sphere_vertices(segments: usize) -> (r: Vec<GridPoint>)
    requires
        mesh_fits(segments as int),
    ensures
        r@.len() == num_vertices(segments as int),
        forall|k: int| 0 <= k < r@.len() ==> #[trigger] r@[k]@ == sphere_site(segments as int, k),
{
    let ghost s = segments as int;
    proof {
        lemma_fits_bound(s);
    }
    let v = if segments < 2 {
        2
    } else {
        segments
    };
    let h = 2 * v;
    let mut r: Vec<GridPoint> = Vec::new();
    r.push(GridPoint { lat: 0, lon: v });
    let mut lat: usize = 1;
    assert(ring_vertex(h as int, 1, 0) == 1) by (nonlinear_arith);
    while lat < v
        invariant
            v == vsegs_of(s),
            h == hsegs_of(s),
            mesh_fits(s),
            1 <= lat <= v,
            r@.len() == ring_vertex(h as int, lat as int, 0),
            forall|k: int| 0 <= k < r@.len() ==> #[trigger] r@[k]@ == sphere_site(s, k),
        decreases v - lat,
    {
        let mut lon: usize = 0;
        while lon <= h
            invariant
                v == vsegs_of(s),
                h == hsegs_of(s),
                mesh_fits(s),
                1 <= lat < v,
                0 <= lon <= h + 1,
                r@.len() == ring_vertex(h as int, lat as int, lon as int),
                forall|k: int| 0 <= k < r@.len() ==> #[trigger] r@[k]@ == sphere_site(s, k),
            decreases h + 1 - lon,
        {
            proof {
                lemma_ring_site(s, lat as int, lon as int);
            }
            r.push(GridPoint { lat, lon });
            lon = lon + 1;
        }
        assert(ring_vertex(h as int, lat as int, h + 1) == ring_vertex(h as int, lat + 1, 0))
            by (nonlinear_arith);
        lat = lat + 1;
    }
    assert(r@.len() == num_vertices(s) - 1) by (nonlinear_arith)
        requires
            r@.len() == ring_vertex(h as int, v as int, 0),
            v == vsegs_of(s),
            h == 2 * v,
            num_vertices(s) == 1 + (v - 1) * (2 * v + 1) + 1,
    ;
    r.push(GridPoint { lat: v, lon: v });
    r
}

/// With `s >= 2` segments the mesh has `1 + (s-1)(2s+1) + 1` vertices and
/// `4s + (s-2) * 2 * 2s` triangles: `2s` in each cap, `4s` in each middle band.
pub proof fn lemma_mesh_counts(segments: int)
    requires
        segments >= 2,
    ensures
        num_vertices(segments) == 1 + (segments - 1) * (2 * segments + 1) + 1,
        num_triangles(segments) == 4 * segments + (segments - 2) * 2 * (2 * segments),
{
    let s = segments;
    let h = 2 * s;
    assert(h + (s - 2) * h * 2 + h == 4 * s + (s - 2) * 2 * (2 * s)) by (nonlinear_arith)
        requires
            h == 2 * s,
    ;
}

/// Fewer than two segments give exactly the mesh of two segments.
pub proof fn lemma_segment_floor(segments: int)
    requires
        segments < 2,
    ensures
        num_vertices(segments) == num_vertices(2),
        num_triangles(segments) == num_triangles(2),
        forall|k: int| #[trigger] sphere_site(segments, k) == sphere_site(2, k),
        forall|t: int| #[trigger] sphere_triangle(segments, t) == sphere_triangle(2, t),
{
}

/// On every ring the vertex in column 0 and the one in the seam column stand
/// for the same point of the sphere, with texture columns 0 and `hsegs`
/// (`u` = 0 and 1).
pub proof fn lemma_seam_vertices(segments: int, lat: int)
    requires
        1 <= lat <= vsegs_of(segments) - 1,
    ensures
        ({
            let h = hsegs_of(segments);
            let first = sphere_site(segments, ring_vertex(h, lat, 0));
            let seam = sphere_site(segments, ring_vertex(h, lat, h));
            &&& first == (lat, 0int)
            &&& seam == (lat, h)
            &&& welded(segments, first) == welded(segments, seam)
            &&& tex_fraction(segments, first).0 == (0int, h)
            &&& tex_fraction(segments, seam).0 == (h, h)
            &&& tex_fraction(segments, first).1 == tex_fraction(segments, seam).1
        }),
{
    lemma_ring_site(segments, lat, 0);
    lemma_ring_site(segments, lat, hsegs_of(segments));
}

} // verus!
