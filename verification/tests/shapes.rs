//! Tessellation behavior: vertex/index counts, exact rectangle
//! corners, circle accuracy, quad diagonals, and the error cases.

use pumice::Color;
use pumice::GraphicsContext;
use pumice::Point;
use pumice::PumiceError;
use pumice::Size;

fn fx(v: f64) -> i32 {
    (v * 65536.0).round() as i32
}

fn red() -> Color {
    Color { r: 65536, g: 0, b: 0, a: 65536 }
}

fn blue() -> Color {
    Color { r: 0, g: 0, b: 65536, a: 65536 }
}

fn assert_triangles_in_bounds(ctx: &GraphicsContext, first_index: usize, vertex_count: usize) {
    let appended: usize = ctx.geometry.indices.len() - first_index;
    assert_eq!(appended % 3, 0);
    for i in first_index..ctx.geometry.indices.len() {
        assert!((ctx.geometry.indices[i] as usize) < vertex_count);
    }
}

#[test]
fn rectangle_mesh_is_exact() {
    let mut ctx = GraphicsContext::new();
    let x: i32 = fx(0.1);
    let y: i32 = fx(-0.05);
    let w: i32 = fx(0.5);
    let h: i32 = fx(0.25);
    let res = ctx.new_rectangle(Point { x, y }, Size { width: w, height: h }, red());
    assert!(res.is_ok());
    assert_eq!(ctx.geometry.vertices.len(), 4);
    assert_eq!(ctx.geometry.indices.len(), 6);
    let expect: [(i32, i32); 4] = [(x, y), (x + w, y), (x + w, y + h), (x, y + h)];
    for i in 0..4 {
        let v = ctx.geometry.vertices[i];
        assert_eq!((v.position.x, v.position.y), expect[i]);
        assert_eq!(v.color, red());
        assert_eq!((v.rot.degrees, v.rot.px, v.rot.py), (0, 0, 0));
    }
    let idx: Vec<u16> = ctx.geometry.indices.clone();
    assert_eq!(idx, vec![0, 1, 2, 0, 2, 3]);
    // the bounding box of the four corners is [x, x+w] x [y, y+h]
    let min_x: i32 = ctx.geometry.vertices.iter().map(|v| v.position.x).min().unwrap();
    let max_x: i32 = ctx.geometry.vertices.iter().map(|v| v.position.x).max().unwrap();
    let min_y: i32 = ctx.geometry.vertices.iter().map(|v| v.position.y).min().unwrap();
    let max_y: i32 = ctx.geometry.vertices.iter().map(|v| v.position.y).max().unwrap();
    assert_eq!((min_x, max_x, min_y, max_y), (x, x + w, y, y + h));
}

#[test]
fn rectangle_degenerate_appends_nothing() {
    let mut ctx = GraphicsContext::new();
    let res = ctx.new_rectangle(Point { x: 0, y: 0 }, Size { width: 0, height: 655 }, red());
    assert_eq!(res, Err(PumiceError::DegenerateGeometry));
    let res2 = ctx.new_rectangle(Point { x: 0, y: 0 }, Size { width: 655, height: -3 }, red());
    assert_eq!(res2, Err(PumiceError::DegenerateGeometry));
    assert!(ctx.geometry.vertices.is_empty());
    assert!(ctx.geometry.indices.is_empty());
}

#[test]
fn rotated_rectangle_shares_rotation_attributes() {
    let mut ctx = GraphicsContext::new();
    let x: i32 = fx(-0.2);
    let y: i32 = fx(0.1);
    let w: i32 = fx(0.4);
    let h: i32 = fx(0.2);
    let degrees: i32 = fx(30.0);
    let res = ctx.new_rectangle_rotcenter(Point { x, y }, Size { width: w, height: h }, degrees, blue());
    assert!(res.is_ok());
    assert_eq!(ctx.geometry.vertices.len(), 4);
    let first = ctx.geometry.vertices[0].rot;
    assert_eq!(first.degrees, degrees);
    assert_eq!(first.px, x + w / 2);
    assert_eq!(first.py, y + h / 2);
    for v in &ctx.geometry.vertices {
        assert_eq!(v.rot, first);
    }
}

#[test]
fn rectangle_full_without_rotation_matches_plain_rectangle() {
    let mut a = GraphicsContext::new();
    let mut b = GraphicsContext::new();
    let pos = Point { x: fx(0.3), y: fx(0.3) };
    let sides = Size { width: fx(0.1), height: fx(0.6) };
    a.new_rectangle(pos, sides, red()).unwrap();
    b.new_rectangle_full(pos, sides, red(), None).unwrap();
    assert_eq!(a.geometry.vertices.len(), b.geometry.vertices.len());
    for i in 0..a.geometry.vertices.len() {
        assert_eq!(a.geometry.vertices[i], b.geometry.vertices[i]);
    }
    assert_eq!(a.geometry.indices, b.geometry.indices);
}

#[test]
fn circle_counts_and_bounds() {
    let mut ctx = GraphicsContext::new();
    let res = ctx.new_circle(Point { x: 0, y: 0 }, fx(0.3), red());
    assert!(res.is_ok());
    assert_eq!(ctx.geometry.vertices.len(), 256);
    assert_eq!(ctx.geometry.indices.len(), 762);
    assert_triangles_in_bounds(&ctx, 0, 256);
    // fan triangles (0, t+1, t+2)
    for t in 0..254usize {
        assert_eq!(ctx.geometry.indices[3 * t], 0);
        assert_eq!(ctx.geometry.indices[3 * t + 1] as usize, t + 1);
        assert_eq!(ctx.geometry.indices[3 * t + 2] as usize, t + 2);
    }
}

#[test]
fn circle_vertices_lie_on_the_circle() {
    let mut ctx = GraphicsContext::new();
    let cx: i32 = fx(0.25);
    let cy: i32 = fx(-0.4);
    let rad: i32 = fx(0.3);
    ctx.new_circle(Point { x: cx, y: cy }, rad, red()).unwrap();
    // every vertex is within the tolerance (7 fixed-point units,
    // about 1.07e-4 of a normalized unit) of the true circle
    for v in &ctx.geometry.vertices {
        let dx: f64 = (v.position.x - cx) as f64;
        let dy: f64 = (v.position.y - cy) as f64;
        let dist: f64 = (dx * dx + dy * dy).sqrt();
        assert!(dist <= rad as f64 + 1e-9);
        assert!(dist >= (rad - 7) as f64 - 1e-9);
    }
    // the ring hits the circle's four cardinal points exactly
    let at = |i: usize| (ctx.geometry.vertices[i].position.x, ctx.geometry.vertices[i].position.y);
    assert_eq!(at(0), (cx + rad, cy));
    assert_eq!(at(64), (cx, cy + rad));
    assert_eq!(at(128), (cx - rad, cy));
    assert_eq!(at(192), (cx, cy - rad));
}

#[test]
fn tiny_circle_stays_within_radius() {
    let mut ctx = GraphicsContext::new();
    // a radius below the tolerance still never overshoots the circle
    ctx.new_circle(Point { x: 0, y: 0 }, 3, red()).unwrap();
    assert_eq!(ctx.geometry.vertices.len(), 256);
    for v in &ctx.geometry.vertices {
        let d2: i64 = (v.position.x as i64).pow(2) + (v.position.y as i64).pow(2);
        assert!(d2 <= 9);
    }
}

#[test]
fn circle_degenerate_appends_nothing() {
    let mut ctx = GraphicsContext::new();
    assert_eq!(ctx.new_circle(Point { x: 0, y: 0 }, 0, red()), Err(PumiceError::DegenerateGeometry));
    assert_eq!(
        ctx.new_circle(Point { x: 0, y: 0 }, -fx(0.1), red()),
        Err(PumiceError::DegenerateGeometry)
    );
    assert!(ctx.geometry.vertices.is_empty());
}

#[test]
fn quad_convex_uses_first_diagonal() {
    let mut ctx = GraphicsContext::new();
    let pts = [
        Point { x: 0, y: 0 },
        Point { x: fx(0.4), y: 0 },
        Point { x: fx(0.5), y: fx(0.4) },
        Point { x: fx(-0.1), y: fx(0.3) },
    ];
    let res = ctx.new_quad(pts, blue());
    assert!(res.is_ok());
    assert_eq!(ctx.geometry.vertices.len(), 4);
    for i in 0..4 {
        let v = ctx.geometry.vertices[i];
        assert_eq!(v.position, pts[i]);
        assert_eq!(v.color, blue());
    }
    assert_eq!(ctx.geometry.indices, vec![0, 1, 2, 0, 2, 3]);
}

#[test]
fn quad_nonconvex_uses_second_diagonal() {
    let mut ctx = GraphicsContext::new();
    // an arrowhead: the 0-2 diagonal lies outside the outline, the
    // 1-3 diagonal inside
    let pts = [
        Point { x: 0, y: 0 },
        Point { x: 2000, y: 1000 },
        Point { x: 4000, y: 0 },
        Point { x: 2000, y: 4000 },
    ];
    let res = ctx.new_quad(pts, red());
    assert!(res.is_ok());
    assert_eq!(ctx.geometry.vertices.len(), 4);
    assert_eq!(ctx.geometry.indices, vec![1, 2, 3, 1, 3, 0]);
    assert_triangles_in_bounds(&ctx, 0, 4);
}

#[test]
fn crossed_quad_fills_both_lobes() {
    let mut ctx = GraphicsContext::new();
    // a bowtie: edges 0-1 and 2-3 cross; the non-zero-winding rule
    // fills the two lobes around the crossing point
    let pts = [
        Point { x: 0, y: 0 },
        Point { x: 2000, y: 2000 },
        Point { x: 2000, y: 0 },
        Point { x: 0, y: 1000 },
    ];
    let res = ctx.new_quad(pts, blue());
    assert!(res.is_ok());
    assert_eq!(ctx.geometry.vertices.len(), 5);
    for i in 0..4 {
        assert_eq!(ctx.geometry.vertices[i].position, pts[i]);
    }
    // the crossing of y = x with the segment (2000,0)-(0,1000),
    // rounded to the lattice
    assert_eq!(ctx.geometry.vertices[4].position, Point { x: 667, y: 667 });
    for v in &ctx.geometry.vertices {
        assert_eq!(v.color, blue());
    }
    assert_eq!(ctx.geometry.indices, vec![4, 1, 2, 4, 3, 0]);
    assert_triangles_in_bounds(&ctx, 0, 5);
}

#[test]
fn crossed_quad_other_edge_pair() {
    let mut ctx = GraphicsContext::new();
    // the same bowtie with its labels rotated by one: now edges 1-2
    // and 3-0 cross
    let pts = [
        Point { x: 0, y: 1000 },
        Point { x: 0, y: 0 },
        Point { x: 2000, y: 2000 },
        Point { x: 2000, y: 0 },
    ];
    let res = ctx.new_quad(pts, red());
    assert!(res.is_ok());
    assert_eq!(ctx.geometry.vertices.len(), 5);
    assert_eq!(ctx.geometry.vertices[4].position, Point { x: 667, y: 667 });
    assert_eq!(ctx.geometry.indices, vec![4, 2, 3, 4, 0, 1]);
    assert_triangles_in_bounds(&ctx, 0, 5);
}

#[test]
fn quad_degenerate_appends_nothing() {
    let mut ctx = GraphicsContext::new();
    // four collinear points cannot be filled
    let pts = [
        Point { x: 0, y: 0 },
        Point { x: 1000, y: 1000 },
        Point { x: 2000, y: 2000 },
        Point { x: 3000, y: 3000 },
    ];
    assert_eq!(ctx.new_quad(pts, red()), Err(PumiceError::DegenerateGeometry));
    assert!(ctx.geometry.vertices.is_empty());
}

#[test]
fn triangle_mesh_is_exact() {
    let mut ctx = GraphicsContext::new();
    let pts = [
        Point { x: 0, y: 0 },
        Point { x: fx(0.2), y: 0 },
        Point { x: 0, y: fx(0.2) },
    ];
    let res = ctx.new_triangle(pts, blue());
    assert!(res.is_ok());
    assert_eq!(ctx.geometry.vertices.len(), 3);
    assert_eq!(ctx.geometry.indices, vec![0, 1, 2]);
    for i in 0..3 {
        assert_eq!(ctx.geometry.vertices[i].position, pts[i]);
    }
}

#[test]
fn triangle_degenerate_appends_nothing() {
    let mut ctx = GraphicsContext::new();
    let pts = [
        Point { x: 0, y: 0 },
        Point { x: 500, y: 500 },
        Point { x: 1000, y: 1000 },
    ];
    assert_eq!(ctx.new_triangle(pts, red()), Err(PumiceError::DegenerateGeometry));
    assert!(ctx.geometry.vertices.is_empty());
}

#[test]
fn geometry_buffer_fills_up() {
    let mut ctx = GraphicsContext::new();
    // each circle appends 256 vertices; 256 of them fill the 16-bit
    // index space exactly
    for _ in 0..256 {
        ctx.new_circle(Point { x: 0, y: 0 }, 655, red()).unwrap();
    }
    assert_eq!(ctx.geometry.vertices.len(), 65536);
    assert_eq!(ctx.new_circle(Point { x: 0, y: 0 }, 655, red()), Err(PumiceError::GeometryFull));
    assert_eq!(
        ctx.new_rectangle(Point { x: 0, y: 0 }, Size { width: 10, height: 10 }, red()),
        Err(PumiceError::GeometryFull)
    );
    assert_eq!(ctx.geometry.vertices.len(), 65536);
    assert_triangles_in_bounds(&ctx, 0, 65536);
}

#[test]
fn union_of_two_shapes_keeps_colors_apart() {
    let mut ctx = GraphicsContext::new();
    ctx.new_circle(Point { x: 0, y: 0 }, fx(0.3), red()).unwrap();
    let rx: i32 = fx(0.4);
    let ry: i32 = fx(-0.5);
    ctx.new_rectangle(Point { x: rx, y: ry }, Size { width: fx(0.5), height: fx(0.25) }, blue())
        .unwrap();
    // the buffer holds exactly the union of the two shapes
    assert_eq!(ctx.geometry.vertices.len(), 256 + 4);
    assert_eq!(ctx.geometry.indices.len(), 762 + 6);
    for i in 0..256 {
        assert_eq!(ctx.geometry.vertices[i].color, red());
    }
    for i in 256..260 {
        assert_eq!(ctx.geometry.vertices[i].color, blue());
    }
    // the rectangle's indices are rebased past the circle's vertices
    let rect_indices: Vec<u16> = ctx.geometry.indices[762..].to_vec();
    assert_eq!(rect_indices, vec![256, 257, 258, 256, 258, 259]);
    assert_triangles_in_bounds(&ctx, 0, 260);
}

#[test]
fn error_messages_name_the_failure() {
    assert_eq!(
        PumiceError::DegenerateGeometry.message(),
        "degenerate geometry cannot be filled"
    );
    assert_eq!(PumiceError::GeometryFull.message(), "geometry buffer is full");
}
