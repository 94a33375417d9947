use vstd::prelude::*;
use crate::position::{imax, imin, sign, Position};

verus! {

// The box-drawing and marker glyphs that shapes are made of.
pub const HORIZONTAL_BAR: char = '─';

pub const VERTICAL_BAR: char = '│';

pub const CORNER_TOP_LEFT: char = '┌';

pub const CORNER_TOP_RIGHT: char = '┐';

pub const CORNER_BOTTOM_RIGHT: char = '┘';

pub const CORNER_BOTTOM_LEFT: char = '└';

pub const ARROW_RIGHT: char = '►';

pub const ARROW_LEFT: char = '◄';

pub const ARROW_DOWN: char = '▼';

pub const ARROW_UP: char = '▲';

pub const EXPLORE_MARKER: char = '*';

/// The four corners of an axis-aligned rectangle, clockwise from the
/// top-left corner.
#[derive(Clone, Copy, PartialEq, Eq, Structural, Debug)]
pub struct RectVertices {
    pub top_left: Position,
    pub top_right: Position,
    pub bottom_right: Position,
    pub bottom_left: Position,
}

/// The tagged points of an L-shaped (bent) path: the endpoint of the
/// vertical leg, the bend ("connector"), the endpoint of the horizontal
/// leg, and the reference point an arrowhead points toward.
#[derive(Clone, Copy, PartialEq, Eq, Structural, Debug)]
pub struct LineVertices {
    pub vertical: Position,
    pub connector: Position,
    pub horizontal: Position,
    pub direction: Position,
}

/// A glyph stamped at one grid cell.
pub type Glyph = (Position, char);

/// The rectangle spanned by two arbitrary corner points: its top-left
/// corner is the componentwise minimum and its bottom-right corner the
/// componentwise maximum of the two points.
pub open spec fn rect_vertices_spec(a: Position, b: Position) -> RectVertices {
    let left = imin(a.x as int, b.x as int);
    let right = imax(a.x as int, b.x as int);
    let top = imin(a.y as int, b.y as int);
    let bottom = imax(a.y as int, b.y as int);
    RectVertices {
        top_left: Position { x: left as i16, y: top as i16 },
        top_right: Position { x: right as i16, y: top as i16 },
        bottom_right: Position { x: right as i16, y: bottom as i16 },
        bottom_left: Position { x: left as i16, y: bottom as i16 },
    }
}

/// A rectangle is well formed when its corners are non-negative and
/// consistent: the top-left corner is componentwise at most the
/// bottom-right one, and the two remaining corners mix their coordinates.
pub open spec fn rect_wf(r: RectVertices) -> bool {
    &&& 0 <= r.top_left.x <= r.bottom_right.x
    &&& 0 <= r.top_left.y <= r.bottom_right.y
    &&& r.top_right == (Position { x: r.bottom_right.x, y: r.top_left.y })
    &&& r.bottom_left == (Position { x: r.top_left.x, y: r.bottom_right.y })
}

/// `n` horizontal-bar glyphs on row `y`, at columns `x0, x0+1, ...`.
pub open spec fn hbar_run(x0: int, y: int, n: nat) -> Seq<Glyph> {
    Seq::new(n, |i: int| (Position { x: (x0 + i) as i16, y: y as i16 }, HORIZONTAL_BAR))
}

/// `n` vertical-bar glyphs in column `x`, at rows `y0, y0+1, ...`.
pub open spec fn vbar_run(y0: int, x: int, n: nat) -> Seq<Glyph> {
    Seq::new(n, |i: int| (Position { x: x as i16, y: (y0 + i) as i16 }, VERTICAL_BAR))
}

/// All glyphs of a rectangle, in the order they are stamped: the top and
/// bottom bars over the half-open column range `[left, right)`, the left
/// and right bars over the half-open row range `[top, bottom)`, and then
/// the four corners (which overwrite the bars' first cells).
pub open spec fn rect_glyphs_spec(r: RectVertices) -> Seq<Glyph> {
    let width = (r.bottom_right.x - r.top_left.x) as nat;
    let height = (r.bottom_right.y - r.top_left.y) as nat;
    hbar_run(r.top_left.x as int, r.top_left.y as int, width)
        + hbar_run(r.top_left.x as int, r.bottom_right.y as int, width)
        + vbar_run(r.top_left.y as int, r.top_left.x as int, height)
        + vbar_run(r.top_left.y as int, r.bottom_right.x as int, height)
        + seq![
            (r.top_left, CORNER_TOP_LEFT),
            (r.top_right, CORNER_TOP_RIGHT),
            (r.bottom_right, CORNER_BOTTOM_RIGHT),
            (r.bottom_left, CORNER_BOTTOM_LEFT),
        ]
}

/// The tagged path points of a bent line from `vertex1` (the anchor) to
/// `vertex2` (the current point). With horizontal-first alignment the
/// bend sits at the anchor's row under the current point's column; with
/// vertical-first alignment at the anchor's column on the current
/// point's row. The direction reference is always the current point.
pub open spec fn line_vertices_spec(vertex1: Position, vertex2: Position, horizontal: bool) -> LineVertices {
    if horizontal {
        LineVertices {
            vertical: vertex2,
            connector: Position { x: vertex2.x, y: vertex1.y },
            horizontal: vertex1,
            direction: vertex2,
        }
    } else {
        LineVertices {
            vertical: vertex1,
            connector: Position { x: vertex1.x, y: vertex2.y },
            horizontal: vertex2,
            direction: vertex2,
        }
    }
}

/// Line vertices are well formed when every coordinate is non-negative
/// and the two legs share the connector's row and column.
pub open spec fn line_wf(v: LineVertices) -> bool {
    &&& 0 <= v.vertical.x && 0 <= v.vertical.y
    &&& 0 <= v.connector.x && 0 <= v.connector.y
    &&& 0 <= v.horizontal.x && 0 <= v.horizontal.y
    &&& 0 <= v.direction.x && 0 <= v.direction.y
    &&& v.horizontal.y == v.connector.y || v.vertical.x == v.connector.x
}

/// The corner glyph for a 90-degree bend, keyed by the signed direction
/// pair of the two legs leaving the connector. Only the four diagonal
/// sign pairs are mapped; any other pair (the legs are colinear, or the
/// path is a single point) selects no glyph.
pub open spec fn corner_glyph(sx: int, sy: int) -> Option<char> {
    if sx == 1 && sy == 1 {
        Some(CORNER_TOP_LEFT)
    } else if sx == -1 && sy == 1 {
        Some(CORNER_TOP_RIGHT)
    } else if sx == 1 && sy == -1 {
        Some(CORNER_BOTTOM_LEFT)
    } else if sx == -1 && sy == -1 {
        Some(CORNER_BOTTOM_RIGHT)
    } else {
        None
    }
}

/// The arrowhead glyph for an axis-aligned signed direction. Only the
/// four unit axis directions are mapped; a diagonal or zero direction
/// selects no glyph.
pub open spec fn arrow_glyph(sx: int, sy: int) -> Option<char> {
    if sx == 1 && sy == 0 {
        Some(ARROW_RIGHT)
    } else if sx == -1 && sy == 0 {
        Some(ARROW_LEFT)
    } else if sx == 0 && sy == 1 {
        Some(ARROW_DOWN)
    } else if sx == 0 && sy == -1 {
        Some(ARROW_UP)
    } else {
        None
    }
}

/// All glyphs of a bent line, in the order they are stamped: the
/// horizontal leg's bars over the half-open column range from the lower
/// to the higher of connector and horizontal endpoint, the vertical
/// leg's bars likewise, and then the corner glyph at the connector if
/// the bend's sign pair maps to one.
pub open spec fn line_glyphs_spec(v: LineVertices) -> Seq<Glyph> {
    let sx = sign(v.horizontal.x - v.connector.x);
    let sy = sign(v.vertical.y - v.connector.y);
    let cols = if sx > 0 {
        hbar_run(v.connector.x as int, v.connector.y as int, (v.horizontal.x - v.connector.x) as nat)
    } else {
        hbar_run(v.horizontal.x as int, v.connector.y as int, (v.connector.x - v.horizontal.x) as nat)
    };
    let rows = if sy > 0 {
        vbar_run(v.connector.y as int, v.connector.x as int, (v.vertical.y - v.connector.y) as nat)
    } else {
        vbar_run(v.vertical.y as int, v.connector.x as int, (v.connector.y - v.vertical.y) as nat)
    };
    let corner = match corner_glyph(sx, sy) {
        Some(c) => seq![(v.connector, c)],
        None => Seq::<Glyph>::empty(),
    };
    cols + rows + corner
}

/// All glyphs of an arrow: the bent line's glyphs, then an arrowhead at
/// the direction reference point if the signed direction from the
/// connector to that point is axis-aligned.
pub open spec fn arrow_glyphs_spec(v: LineVertices) -> Seq<Glyph> {
    let sx = sign(v.direction.x - v.connector.x);
    let sy = sign(v.direction.y - v.connector.y);
    let head = match arrow_glyph(sx, sy) {
        Some(c) => seq![(v.direction, c)],
        None => Seq::<Glyph>::empty(),
    };
    line_glyphs_spec(v) + head
}

/// The four corners of the rectangle spanned by two arbitrary points.
pub fn get_rect_vertices(vertex1: Position, vertex2: Position) -> (r: RectVertices)
    requires
        0 <= vertex1.x && 0 <= vertex1.y,
        0 <= vertex2.x && 0 <= vertex2.y,
    ensures
        r == rect_vertices_spec(vertex1, vertex2),
        rect_wf(r),
{
    let left = if vertex1.x <= vertex2.x { vertex1.x } else { vertex2.x };
    let right = if vertex1.x <= vertex2.x { vertex2.x } else { vertex1.x };
    let top = if vertex1.y <= vertex2.y { vertex1.y } else { vertex2.y };
    let bottom = if vertex1.y <= vertex2.y { vertex2.y } else { vertex1.y };
    RectVertices {
        top_left: Position { x: left, y: top },
        top_right: Position { x: right, y: top },
        bottom_right: Position { x: right, y: bottom },
        bottom_left: Position { x: left, y: bottom },
    }
}

/// The tagged path points of a bent line between the anchor `vertex1`
/// and the current point `vertex2` under the given alignment.
pub fn get_line_vertices(vertex1: Position, vertex2: Position, horizontal: bool) -> (v: LineVertices)
    ensures
        v == line_vertices_spec(vertex1, vertex2, horizontal),
{
    if horizontal {
        LineVertices {
            vertical: vertex2,
            connector: Position { x: vertex2.x, y: vertex1.y },
            horizontal: vertex1,
            direction: vertex2,
        }
    } else {
        LineVertices {
            vertical: vertex1,
            connector: Position { x: vertex1.x, y: vertex2.y },
            horizontal: vertex2,
            direction: vertex2,
        }
    }
}

/// A run of horizontal-bar glyphs on row `y` over the half-open column
/// range `[x0, x_end)`.
#[verifier::loop_isolation(false)]
fn hbar_vec(x0: i16, y: i16, x_end: i16) -> (v: Vec<Glyph>)
    requires
        x0 <= x_end,
    ensures
        v@ == hbar_run(x0 as int, y as int, (x_end - x0) as nat),
{
    let mut v: Vec<Glyph> = Vec::new();
    let mut col: i16 = x0;
    proof {
        assert(v@ =~= hbar_run(x0 as int, y as int, 0));
    }
    while col < x_end
        invariant
            x0 <= col <= x_end,
            v@ == hbar_run(x0 as int, y as int, (col - x0) as nat),
        decreases x_end - col,
    {
        v.push((Position { x: col, y }, HORIZONTAL_BAR));
        col = col + 1;
        proof {
            assert(v@ =~= hbar_run(x0 as int, y as int, (col - x0) as nat));
        }
    }
    v
}

/// A run of vertical-bar glyphs in column `x` over the half-open row
/// range `[y0, y_end)`.
#[verifier::loop_isolation(false)]
fn vbar_vec(y0: i16, x: i16, y_end: i16) -> (v: Vec<Glyph>)
    requires
        y0 <= y_end,
    ensures
        v@ == vbar_run(y0 as int, x as int, (y_end - y0) as nat),
{
    let mut v: Vec<Glyph> = Vec::new();
    let mut row: i16 = y0;
    proof {
        assert(v@ =~= vbar_run(y0 as int, x as int, 0));
    }
    while row < y_end
        invariant
            y0 <= row <= y_end,
            v@ == vbar_run(y0 as int, x as int, (row - y0) as nat),
        decreases y_end - row,
    {
        v.push((Position { x, y: row }, VERTICAL_BAR));
        row = row + 1;
        proof {
            assert(v@ =~= vbar_run(y0 as int, x as int, (row - y0) as nat));
        }
    }
    v
}

/// The glyphs that close a rectangle: bars along all four edges and a
/// distinct glyph at each corner, whatever the drag direction was.
pub fn write_rectangle(vertices: RectVertices) -> (glyphs: Vec<Glyph>)
    requires
        rect_wf(vertices),
    ensures
        glyphs@ == rect_glyphs_spec(vertices),
{
    let mut glyphs = hbar_vec(vertices.top_left.x, vertices.top_left.y, vertices.bottom_right.x);
    let mut bottom = hbar_vec(vertices.top_left.x, vertices.bottom_right.y, vertices.bottom_right.x);
    glyphs.append(&mut bottom);
    let mut left = vbar_vec(vertices.top_left.y, vertices.top_left.x, vertices.bottom_right.y);
    glyphs.append(&mut left);
    let mut right = vbar_vec(vertices.top_left.y, vertices.bottom_right.x, vertices.bottom_right.y);
    glyphs.append(&mut right);
    glyphs.push((vertices.top_left, CORNER_TOP_LEFT));
    glyphs.push((vertices.top_right, CORNER_TOP_RIGHT));
    glyphs.push((vertices.bottom_right, CORNER_BOTTOM_RIGHT));
    glyphs.push((vertices.bottom_left, CORNER_BOTTOM_LEFT));
    proof {
        assert(glyphs@ =~= rect_glyphs_spec(vertices));
    }
    glyphs
}

/// The glyphs of a bent line: direction-aware bars along each leg and,
/// where the bend turns through 90 degrees, the matching corner glyph at
/// the connector; colinear legs leave the connector's corner unwritten.
pub fn write_line(vertices: LineVertices) -> (glyphs: Vec<Glyph>)
    requires
        line_wf(vertices),
    ensures
        glyphs@ == line_glyphs_spec(vertices),
{
    let dx: i16 = vertices.horizontal.x - vertices.connector.x;
    let dy: i16 = vertices.vertical.y - vertices.connector.y;
    let sx: i16 = if dx > 0 { 1 } else if dx < 0 { -1 } else { 0 };
    let sy: i16 = if dy > 0 { 1 } else if dy < 0 { -1 } else { 0 };

    let mut glyphs = if sx > 0 {
        hbar_vec(vertices.connector.x, vertices.connector.y, vertices.horizontal.x)
    } else {
        hbar_vec(vertices.horizontal.x, vertices.connector.y, vertices.connector.x)
    };
    let mut rows = if sy > 0 {
        vbar_vec(vertices.connector.y, vertices.connector.x, vertices.vertical.y)
    } else {
        vbar_vec(vertices.vertical.y, vertices.connector.x, vertices.connector.y)
    };
    glyphs.append(&mut rows);

    if sx == 1 && sy == 1 {
        glyphs.push((vertices.connector, CORNER_TOP_LEFT));
    } else if sx == -1 && sy == 1 {
        glyphs.push((vertices.connector, CORNER_TOP_RIGHT));
    } else if sx == 1 && sy == -1 {
        glyphs.push((vertices.connector, CORNER_BOTTOM_LEFT));
    } else if sx == -1 && sy == -1 {
        glyphs.push((vertices.connector, CORNER_BOTTOM_RIGHT));
    }
    proof {
        assert(glyphs@ =~= line_glyphs_spec(vertices));
    }
    glyphs
}

/// The glyphs of an arrow: the bent line's glyphs and, where the
/// direction from the connector to the reference point is axis-aligned,
/// the matching arrowhead at the reference point; a diagonal or zero
/// direction leaves no arrowhead.
pub fn write_arrow(vertices: LineVertices) -> (glyphs: Vec<Glyph>)
    requires
        line_wf(vertices),
    ensures
        glyphs@ == arrow_glyphs_spec(vertices),
{
    let mut glyphs = write_line(vertices);
    let dx: i16 = vertices.direction.x - vertices.connector.x;
    let dy: i16 = vertices.direction.y - vertices.connector.y;
    let sx: i16 = if dx > 0 { 1 } else if dx < 0 { -1 } else { 0 };
    let sy: i16 = if dy > 0 { 1 } else if dy < 0 { -1 } else { 0 };
    if sx == 1 && sy == 0 {
        glyphs.push((vertices.direction, ARROW_RIGHT));
    } else if sx == -1 && sy == 0 {
        glyphs.push((vertices.direction, ARROW_LEFT));
    } else if sx == 0 && sy == 1 {
        glyphs.push((vertices.direction, ARROW_DOWN));
    } else if sx == 0 && sy == -1 {
        glyphs.push((vertices.direction, ARROW_UP));
    }
    proof {
        assert(glyphs@ =~= arrow_glyphs_spec(vertices));
    }
    glyphs
}

/// Swapping the two corner points leaves the rectangle unchanged: the
/// order in which the anchor and the current point are given does not
/// matter.
pub proof fn lemma_rect_vertices_symmetric(a: Position, b: Position)
    ensures
        rect_vertices_spec(a, b) == rect_vertices_spec(b, a),
{
}

/// A degenerate rectangle (anchor equals current point) has zero width
/// and height: its four corners coincide, no edge bars are produced, and
/// only the four corner glyphs are stamped at that one point.
pub proof fn lemma_degenerate_rectangle(p: Position)
    ensures
        rect_vertices_spec(p, p) == (RectVertices {
            top_left: p,
            top_right: p,
            bottom_right: p,
            bottom_left: p,
        }),
        rect_glyphs_spec(rect_vertices_spec(p, p)) == seq![
            (p, CORNER_TOP_LEFT),
            (p, CORNER_TOP_RIGHT),
            (p, CORNER_BOTTOM_RIGHT),
            (p, CORNER_BOTTOM_LEFT),
        ],
{
    assert(rect_glyphs_spec(rect_vertices_spec(p, p)) =~= seq![
        (p, CORNER_TOP_LEFT),
        (p, CORNER_TOP_RIGHT),
        (p, CORNER_BOTTOM_RIGHT),
        (p, CORNER_BOTTOM_LEFT),
    ]);
}

/// Every glyph of a rectangle lies on or inside its corners.
pub proof fn lemma_rect_glyphs_bounds(r: RectVertices)
    requires
        rect_wf(r),
    ensures
        forall|i: int|
            0 <= i < rect_glyphs_spec(r).len() ==> {
                let p = (#[trigger] rect_glyphs_spec(r)[i]).0;
                &&& r.top_left.x <= p.x <= r.bottom_right.x
                &&& r.top_left.y <= p.y <= r.bottom_right.y
            },
{
    let s = rect_glyphs_spec(r);
    let w = (r.bottom_right.x - r.top_left.x) as int;
    let h = (r.bottom_right.y - r.top_left.y) as int;
    assert forall|i: int| 0 <= i < s.len() implies {
        let p = (#[trigger] s[i]).0;
        &&& r.top_left.x <= p.x <= r.bottom_right.x
        &&& r.top_left.y <= p.y <= r.bottom_right.y
    } by {
        if i < w {
            assert(s[i] == hbar_run(r.top_left.x as int, r.top_left.y as int, w as nat)[i]);
        } else if i < 2 * w {
            assert(s[i] == hbar_run(r.top_left.x as int, r.bottom_right.y as int, w as nat)[i - w]);
        } else if i < 2 * w + h {
            assert(s[i] == vbar_run(r.top_left.y as int, r.top_left.x as int, h as nat)[i - 2 * w]);
        } else if i < 2 * w + 2 * h {
            assert(s[i] == vbar_run(r.top_left.y as int, r.bottom_right.x as int, h as nat)[i - 2 * w
                - h]);
        } else {
            assert(s.len() == 2 * w + 2 * h + 4);
        }
    }
}

/// Every glyph of a bent line between `vertex1` and `vertex2` lies in
/// the axis-aligned hull of the two points.
pub proof fn lemma_line_glyphs_in_hull(vertex1: Position, vertex2: Position, horizontal: bool)
    requires
        0 <= vertex1.x && 0 <= vertex1.y,
        0 <= vertex2.x && 0 <= vertex2.y,
    ensures
        forall|i: int|
            0 <= i < line_glyphs_spec(line_vertices_spec(vertex1, vertex2, horizontal)).len() ==> {
                let p = (#[trigger] line_glyphs_spec(
                    line_vertices_spec(vertex1, vertex2, horizontal),
                )[i]).0;
                &&& imin(vertex1.x as int, vertex2.x as int) <= p.x <= imax(
                    vertex1.x as int,
                    vertex2.x as int,
                )
                &&& imin(vertex1.y as int, vertex2.y as int) <= p.y <= imax(
                    vertex1.y as int,
                    vertex2.y as int,
                )
            },
{
    let v = line_vertices_spec(vertex1, vertex2, horizontal);
    let s = line_glyphs_spec(v);
    let sx = sign(v.horizontal.x - v.connector.x);
    let sy = sign(v.vertical.y - v.connector.y);
    let ncols = if sx > 0 {
        (v.horizontal.x - v.connector.x) as int
    } else {
        (v.connector.x - v.horizontal.x) as int
    };
    let nrows = if sy > 0 {
        (v.vertical.y - v.connector.y) as int
    } else {
        (v.connector.y - v.vertical.y) as int
    };
    assert forall|i: int| 0 <= i < s.len() implies {
        let p = (#[trigger] s[i]).0;
        &&& imin(vertex1.x as int, vertex2.x as int) <= p.x <= imax(
            vertex1.x as int,
            vertex2.x as int,
        )
        &&& imin(vertex1.y as int, vertex2.y as int) <= p.y <= imax(
            vertex1.y as int,
            vertex2.y as int,
        )
    } by {
        if i < ncols {
            if sx > 0 {
                assert(s[i] == hbar_run(v.connector.x as int, v.connector.y as int, ncols as nat)[i]);
            } else {
                assert(s[i] == hbar_run(v.horizontal.x as int, v.connector.y as int, ncols as nat)[i]);
            }
        } else if i < ncols + nrows {
            if sy > 0 {
                assert(s[i] == vbar_run(v.connector.y as int, v.connector.x as int, nrows as nat)[i
                    - ncols]);
            } else {
                assert(s[i] == vbar_run(v.vertical.y as int, v.connector.x as int, nrows as nat)[i
                    - ncols]);
            }
        } else {
            assert(s[i].0 == v.connector);
        }
    }
}

/// Every glyph of an arrow between `vertex1` and `vertex2` lies in the
/// axis-aligned hull of the two points: the arrowhead, when one is
/// written, sits at the current point itself.
pub proof fn lemma_arrow_glyphs_in_hull(vertex1: Position, vertex2: Position, horizontal: bool)
    requires
        0 <= vertex1.x && 0 <= vertex1.y,
        0 <= vertex2.x && 0 <= vertex2.y,
    ensures
        forall|i: int|
            0 <= i < arrow_glyphs_spec(line_vertices_spec(vertex1, vertex2, horizontal)).len() ==> {
                let p = (#[trigger] arrow_glyphs_spec(
                    line_vertices_spec(vertex1, vertex2, horizontal),
                )[i]).0;
                &&& imin(vertex1.x as int, vertex2.x as int) <= p.x <= imax(
                    vertex1.x as int,
                    vertex2.x as int,
                )
                &&& imin(vertex1.y as int, vertex2.y as int) <= p.y <= imax(
                    vertex1.y as int,
                    vertex2.y as int,
                )
            },
{
    let v = line_vertices_spec(vertex1, vertex2, horizontal);
    lemma_line_glyphs_in_hull(vertex1, vertex2, horizontal);
    let line = line_glyphs_spec(v);
    let s = arrow_glyphs_spec(v);
    assert forall|i: int| 0 <= i < s.len() implies {
        let p = (#[trigger] s[i]).0;
        &&& imin(vertex1.x as int, vertex2.x as int) <= p.x <= imax(
            vertex1.x as int,
            vertex2.x as int,
        )
        &&& imin(vertex1.y as int, vertex2.y as int) <= p.y <= imax(
            vertex1.y as int,
            vertex2.y as int,
        )
    } by {
        if i < line.len() {
            assert(s[i] == line[i]);
        } else {
            assert(s[i].0 == v.direction);
        }
    }
}

} // verus!
