use planet::sphere::{
    create_sphere, index_list, sphere_fits, triangle_count, vertex_count, GridPoint, Triangle,
};
use std::collections::HashMap;

fn tri(a: u32, b: u32, c: u32) -> Triangle {
    Triangle { a, b, c }
}

fn welded_edges(segments: usize) -> Vec<((usize, usize), (usize, usize))> {
    let (verts, tris) = create_sphere(segments);
    let key = |i: u32| verts[i as usize].welded(segments);
    let mut edges = Vec::new();
    for t in &tris {
        let c = [key(t.a), key(t.b), key(t.c)];
        for k in 0..3 {
            edges.push((c[k], c[(k + 1) % 3]));
        }
    }
    edges
}

fn assert_closed(segments: usize) {
    let edges = welded_edges(segments);
    let mut count: HashMap<((usize, usize), (usize, usize)), usize> = HashMap::new();
    for e in &edges {
        *count.entry(*e).or_insert(0) += 1;
    }
    for e in &edges {
        assert_eq!(count[e], 1, "directed edge {:?} repeated", e);
        assert_eq!(count.get(&(e.1, e.0)).copied(), Some(1), "edge {:?} has no twin", e);
    }
}

#[test]
fn two_segments_counts() {
    let (verts, tris) = create_sphere(2);
    assert_eq!(verts.len(), 7);
    assert_eq!(tris.len(), 8);
    assert_eq!(vertex_count(2), 7);
    assert_eq!(triangle_count(2), 8);
}

#[test]
fn three_segments_counts() {
    let (verts, tris) = create_sphere(3);
    assert_eq!(verts.len(), 1 + 2 * 7 + 1);
    assert_eq!(tris.len(), 6 + 12 + 6);
    assert_eq!(vertex_count(3), 16);
    assert_eq!(triangle_count(3), 24);
}

#[test]
fn thirty_two_segments_counts() {
    let (verts, tris) = create_sphere(32);
    assert_eq!(verts.len(), 1 + 31 * 65 + 1);
    assert_eq!(tris.len(), 64 + 30 * 128 + 64);
    assert_eq!(vertex_count(32), 2017);
    assert_eq!(triangle_count(32), 3968);
}

#[test]
fn degenerate_segments_clamp_to_two() {
    let two = create_sphere(2);
    assert_eq!(create_sphere(0), two);
    assert_eq!(create_sphere(1), two);
    assert_eq!(vertex_count(0), 7);
    assert_eq!(triangle_count(1), 8);
}

#[test]
fn two_segments_exact_mesh() {
    let (verts, tris) = create_sphere(2);
    let expected_verts = vec![
        GridPoint { lat: 0, lon: 2 },
        GridPoint { lat: 1, lon: 0 },
        GridPoint { lat: 1, lon: 1 },
        GridPoint { lat: 1, lon: 2 },
        GridPoint { lat: 1, lon: 3 },
        GridPoint { lat: 1, lon: 4 },
        GridPoint { lat: 2, lon: 2 },
    ];
    assert_eq!(verts, expected_verts);
    let expected_tris = vec![
        tri(0, 1, 2),
        tri(0, 2, 3),
        tri(0, 3, 4),
        tri(0, 4, 5),
        tri(6, 5, 4),
        tri(6, 4, 3),
        tri(6, 3, 2),
        tri(6, 2, 1),
    ];
    assert_eq!(tris, expected_tris);
}

#[test]
fn middle_band_wraps_to_column_zero() {
    // three segments: hsegs 6, rings of 7 vertices starting at 1 and 8
    let (_, tris) = create_sphere(3);
    assert_eq!(tris[6], tri(1, 8, 2));
    assert_eq!(tris[7], tri(2, 8, 9));
    assert_eq!(tris[16], tri(6, 13, 1));
    assert_eq!(tris[17], tri(1, 13, 8));
    assert_eq!(tris[18], tri(15, 14, 13));
    assert_eq!(tris[23], tri(15, 9, 8));
}

#[test]
fn indices_stay_in_range() {
    for s in [2usize, 3, 4, 7, 16] {
        let (verts, tris) = create_sphere(s);
        for t in &tris {
            for i in [t.a, t.b, t.c] {
                assert!((i as usize) < verts.len());
            }
        }
    }
}

#[test]
fn mesh_is_closed() {
    for s in [0usize, 2, 3, 4, 5, 8, 13] {
        assert_closed(s);
    }
}

#[test]
fn seam_vertices_share_their_point() {
    let s = 5;
    let (verts, _) = create_sphere(s);
    let h = 2 * s;
    for lat in 1..s {
        let first = verts[1 + (lat - 1) * (h + 1)];
        let seam = verts[1 + (lat - 1) * (h + 1) + h];
        assert_eq!(first, GridPoint { lat, lon: 0 });
        assert_eq!(seam, GridPoint { lat, lon: h });
        assert_eq!(first.welded(s), seam.welded(s));
        assert_eq!(seam.welded(s), (lat, 0));
    }
}

#[test]
fn poles_sit_at_half_texture_column() {
    let s = 4;
    let (verts, _) = create_sphere(s);
    assert_eq!(verts[0], GridPoint { lat: 0, lon: 4 });
    assert_eq!(verts[verts.len() - 1], GridPoint { lat: 4, lon: 4 });
    assert_eq!(verts[0].welded(s), (0, 0));
    assert_eq!(verts[verts.len() - 1].welded(s), (4, 0));
}

#[test]
fn rings_run_north_to_south_with_duplicate_seam() {
    let s = 3;
    let (verts, _) = create_sphere(s);
    let rings: Vec<GridPoint> = verts[1..verts.len() - 1].to_vec();
    assert_eq!(rings.len(), 14);
    for (k, p) in rings.iter().enumerate() {
        assert_eq!(p.lat, k / 7 + 1);
        assert_eq!(p.lon, k % 7);
    }
    assert_eq!(GridPoint { lat: 1, lon: 3 }.welded(s), (1, 3));
}

#[test]
fn fits_for_usual_sizes_only() {
    assert!(sphere_fits(0));
    assert!(sphere_fits(2));
    assert!(sphere_fits(512));
    assert!(sphere_fits(40000));
    // 46341 rows need 1 + 46340 * 92683 + 1 vertices, just under 2^32;
    // 46342 rows need 1 + 46341 * 92685 + 1, past it
    assert!(sphere_fits(46341));
    assert!(!sphere_fits(46342));
    assert!(!sphere_fits(70000));
    assert!(!sphere_fits(usize::MAX));
}

#[test]
fn index_list_is_flat_and_ordered() {
    let (_, tris) = create_sphere(2);
    let flat = index_list(&tris);
    assert_eq!(flat.len(), 24);
    assert_eq!(&flat[..6], &[0, 1, 2, 0, 2, 3]);
    assert_eq!(&flat[21..], &[6, 2, 1]);
    assert_eq!(index_list(&Vec::new()), Vec::<u32>::new());
}

#[test]
fn texture_fractions() {
    let s = 4;
    let (verts, _) = create_sphere(s);
    // north pole: u = 4/8, v = 4/4
    assert_eq!(verts[0].tex_fraction(s), ((4, 8), (4, 4)));
    // south pole: u = 4/8, v = 0/4
    assert_eq!(verts[verts.len() - 1].tex_fraction(s), ((4, 8), (0, 4)));
    // ring 2, column 0 and its seam copy
    assert_eq!(verts[1 + 9].tex_fraction(s), ((0, 8), (2, 4)));
    assert_eq!(verts[1 + 9 + 8].tex_fraction(s), ((8, 8), (2, 4)));
}

#[test]
fn no_triangle_is_degenerate() {
    for s in [2usize, 3, 6] {
        let (verts, tris) = create_sphere(s);
        for t in &tris {
            let a = verts[t.a as usize].welded(s);
            let b = verts[t.b as usize].welded(s);
            let c = verts[t.c as usize].welded(s);
            assert!(a != b && b != c && c != a, "degenerate triangle {:?}", t);
        }
    }
}
