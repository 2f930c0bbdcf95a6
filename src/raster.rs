use vstd::prelude::*;

verus! {

/// Fixed-point scale of normalised device coordinates: `NDC_ONE` stands for 1.0.
pub const NDC_ONE: i32 = 4096;

/// Largest viewport extent, in pixels, on either axis.
pub const MAX_VIEWPORT: u32 = 16384;

/// A vertex position in normalised device coordinates, scaled by `NDC_ONE`;
/// (-1, -1) is the top-left corner of the viewport.
#[derive(Clone, Copy, Debug, PartialEq, Eq, Structural)]
pub struct Vertex {
    pub x: i32,
    pub y: i32,
}

#[derive(Clone, Copy, Debug, PartialEq, Eq, Structural)]
pub struct Triangle {
    pub a: Vertex,
    pub b: Vertex,
    pub c: Vertex,
}

/// A viewport anchored at the framebuffer's origin.
#[derive(Clone, Copy, Debug, PartialEq, Eq, Structural)]
pub struct Viewport {
    pub width: u32,
    pub height: u32,
}

/// A device coordinate mapped onto a viewport axis of `extent` pixels, in
/// units of `1 / (2 * NDC_ONE)` pixel.
pub open spec fn scaled(n: i32, extent: u32) -> int {
    (n as int + NDC_ONE as int) * extent as int
}

/// The centre of pixel `p` on one axis, in the same units as `scaled`.
pub open spec fn center(p: int) -> int {
    NDC_ONE as int * (2 * p + 1)
}

/// Twice the signed area of the triangle (a, b, p).
pub open spec fn edge(ax: int, ay: int, bx: int, by: int, px: int, py: int) -> int {
    (bx - ax) * (py - ay) - (by - ay) * (px - ax)
}

/// The centre of pixel (x, y) lies inside or on the border of the
/// non-degenerate triangle `t`, of either winding, after the viewport mapping.
pub open spec fn covered(t: Triangle, vp: Viewport, x: int, y: int) -> bool {
    let ax = scaled(t.a.x, vp.width);
    let ay = scaled(t.a.y, vp.height);
    let bx = scaled(t.b.x, vp.width);
    let by = scaled(t.b.y, vp.height);
    let cx = scaled(t.c.x, vp.width);
    let cy = scaled(t.c.y, vp.height);
    let px = center(x);
    let py = center(y);
    let e0 = edge(ax, ay, bx, by, px, py);
    let e1 = edge(bx, by, cx, cy, px, py);
    let e2 = edge(cx, cy, ax, ay, px, py);
    &&& edge(ax, ay, bx, by, cx, cy) != 0
    &&& ((e0 >= 0 && e1 >= 0 && e2 >= 0) || (e0 <= 0 && e1 <= 0 && e2 <= 0))
}

/// Bound on every coordinate that enters `edge`.
pub open spec fn coord_bound() -> int {
    0x1_0000_0000_0000
}

proof fn lemma_product_bound(a: int, b: int)
    requires
        -2 * coord_bound() <= a <= 2 * coord_bound(),
        -2 * coord_bound() <= b <= 2 * coord_bound(),
    ensures
        -0x4_0000_0000_0000_0000_0000_0000 <= a * b <= 0x4_0000_0000_0000_0000_0000_0000,
{
    assert(-0x4_0000_0000_0000_0000_0000_0000 <= a * b <= 0x4_0000_0000_0000_0000_0000_0000)
        by (nonlinear_arith)
        requires
            -0x2_0000_0000_0000 <= a <= 0x2_0000_0000_0000,
            -0x2_0000_0000_0000 <= b <= 0x2_0000_0000_0000,
    ;
}

fn edge_exec(ax: i128, ay: i128, bx: i128, by: i128, px: i128, py: i128) -> (r: i128)
    requires
        -coord_bound() <= ax <= coord_bound(),
        -coord_bound() <= ay <= coord_bound(),
        -coord_bound() <= bx <= coord_bound(),
        -coord_bound() <= by <= coord_bound(),
        -coord_bound() <= px <= coord_bound(),
        -coord_bound() <= py <= coord_bound(),
    ensures
        r == edge(ax as int, ay as int, bx as int, by as int, px as int, py as int),
{
    proof {
        lemma_product_bound(bx - ax, py - ay);
        lemma_product_bound(by - ay, px - ax);
    }
    (bx - ax) * (py - ay) - (by - ay) * (px - ax)
}

fn scaled_exec(n: i32, extent: u32) -> (r: i128)
    requires
        extent <= MAX_VIEWPORT,
    ensures
        r == scaled(n, extent),
        -coord_bound() <= r <= coord_bound(),
{
    proof {
        let s = n as int + NDC_ONE as int;
        assert(-coord_bound() <= s * extent as int <= coord_bound()) by (nonlinear_arith)
            requires
                -0x8000_0000 <= s <= 0x8000_1000,
                0 <= extent <= 16384,
        ;
    }
    (n as i128 + NDC_ONE as i128) * extent as i128
}

/// Whether pixel (x, y) is covered by `t` under viewport `vp`.
pub fn covers(t: &Triangle, vp: &Viewport, x: u32, y: u32) -> (r: bool)
    requires
        vp.width <= MAX_VIEWPORT,
        vp.height <= MAX_VIEWPORT,
    ensures
        r == covered(*t, *vp, x as int, y as int),
{
    let ax = scaled_exec(t.a.x, vp.width);
    let ay = scaled_exec(t.a.y, vp.height);
    let bx = scaled_exec(t.b.x, vp.width);
    let by = scaled_exec(t.b.y, vp.height);
    let cx = scaled_exec(t.c.x, vp.width);
    let cy = scaled_exec(t.c.y, vp.height);
    let px: i128 = NDC_ONE as i128 * (2 * x as i128 + 1);
    let py: i128 = NDC_ONE as i128 * (2 * y as i128 + 1);
    let area = edge_exec(ax, ay, bx, by, cx, cy);
    let e0 = edge_exec(ax, ay, bx, by, px, py);
    let e1 = edge_exec(bx, by, cx, cy, px, py);
    let e2 = edge_exec(cx, cy, ax, ay, px, py);
    area != 0 && ((e0 >= 0 && e1 >= 0 && e2 >= 0) || (e0 <= 0 && e1 <= 0 && e2 <= 0))
}

} // verus!
