//! Per-tick debug overlay buffers: free text, line segments, and short
//! positioned text annotations.
//!
//! Each buffer grows only while the owning agent runs one tick and is cleared
//! before the next tick begins; the host reads the buffers once per tick and
//! must not hold on to them across the clear. No pointers cross the isolation
//! boundary: the host sees owned sequences.
use vstd::prelude::*;
use crate::mathx::{clamp_i64, norm_angle, vec2, Vec2};
use crate::mathx::{clamp_spec, cos_fp_spec, div_trunc, norm_angle_spec, sin_fp_spec, COORD_LIMIT, SCALE, TAU_MRAD};
use crate::slots::{spec_write, StateSlotArray, SystemState};

verus! {

/// Newline appended after each text block.
pub const TEXT_NEWLINE: u8 = 10;

/// Byte budget of one positioned text annotation; longer text is truncated.
pub const DRAWN_TEXT_CAP: usize = 11;

/// One debug line segment in world coordinates, with a 24-bit RGB color.
#[allow(missing_docs)]
#[derive(Copy, Clone, PartialEq, Eq, Structural, Debug)]
pub struct Line {
    pub x0: i64,
    pub y0: i64,
    pub x1: i64,
    pub y1: i64,
    pub color: u32,
}

/// One positioned short text annotation in world coordinates.
pub struct Text {
    /// Horizontal position of the top-left corner.
    pub x: i64,
    /// Vertical position of the top-left corner.
    pub y: i64,
    /// 24-bit RGB color.
    pub color: u32,
    /// The annotation bytes, at most `DRAWN_TEXT_CAP` of them.
    pub text: Vec<u8>,
}

/// The three per-tick overlay buffers of one agent.
pub struct DebugState {
    text: Vec<u8>,
    lines: Vec<Line>,
    drawn_text: Vec<Text>,
}

impl DebugState {
    /// The free text buffer, as contracts speak of it.
    pub closed spec fn text_spec(&self) -> Seq<u8> {
        self.text@
    }

    /// The line buffer, as contracts speak of it.
    pub closed spec fn lines_spec(&self) -> Seq<Line> {
        self.lines@
    }

    /// The positioned text buffer, as contracts speak of it.
    pub closed spec fn drawn_text_spec(&self) -> Seq<Text> {
        self.drawn_text@
    }

    /// Every positioned annotation respects the byte budget.
    pub open spec fn wf(&self) -> bool {
        forall|i: int| 0 <= i < self.drawn_text_spec().len()
            ==> (#[trigger] self.drawn_text_spec()[i]).text@.len() <= DRAWN_TEXT_CAP
    }

    /// All three buffers are empty.
    pub open spec fn is_empty_spec(&self) -> bool {
        self.text_spec().len() == 0
            && self.lines_spec().len() == 0
            && self.drawn_text_spec().len() == 0
    }

    /// Fresh, empty buffers.
    pub fn new() -> (r: DebugState)
        ensures
            r.wf(),
            r.is_empty_spec(),
    {
        DebugState { text: Vec::new(), lines: Vec::new(), drawn_text: Vec::new() }
    }

    /// Clears all three buffers, as the host does before each tick begins.
    pub fn reset(&mut self)
        ensures
            final(self).wf(),
            final(self).is_empty_spec(),
    {
        self.text.clear();
        self.lines.clear();
        self.drawn_text.clear();
    }

    /// Appends a text block and a trailing newline to the free text buffer.
    pub fn write(&mut self, block: &Vec<u8>)
        requires
            old(self).wf(),
        ensures
            final(self).wf(),
            final(self).text_spec() == old(self).text_spec() + block@ + seq![TEXT_NEWLINE],
            final(self).lines_spec() == old(self).lines_spec(),
            final(self).drawn_text_spec() == old(self).drawn_text_spec(),
    {
        let mut i: usize = 0;
        while i < block.len()
            invariant
                0 <= i <= block@.len(),
                self.text@ =~= old(self).text@ + block@.take(i as int),
                self.lines@ == old(self).lines@,
                self.drawn_text@ == old(self).drawn_text@,
            decreases block@.len() - i,
        {
            self.text.push(block[i]);
            i = i + 1;
        }
        self.text.push(TEXT_NEWLINE);
        proof {
            assert(self.text@ =~= old(self).text@ + block@ + seq![TEXT_NEWLINE]);
            lemma_wf_unchanged(old(self).drawn_text_spec(), self.drawn_text_spec());
        }
    }

    /// Appends one line segment from `a` to `b`.
    pub fn draw_line(&mut self, a: Vec2, b: Vec2, color: u32)
        requires
            old(self).wf(),
        ensures
            final(self).wf(),
            final(self).lines_spec() == old(self).lines_spec().push(
                Line { x0: a.x, y0: a.y, x1: b.x, y1: b.y, color },
            ),
            final(self).text_spec() == old(self).text_spec(),
            final(self).drawn_text_spec() == old(self).drawn_text_spec(),
    {
        self.lines.push(Line { x0: a.x, y0: a.y, x1: b.x, y1: b.y, color });
        proof {
            lemma_wf_unchanged(old(self).drawn_text_spec(), self.drawn_text_spec());
        }
    }

    /// Compatibility alias for `draw_line`.
    pub fn debug_line(&mut self, a: Vec2, b: Vec2, color: u32)
        requires
            old(self).wf(),
        ensures
            final(self).wf(),
            final(self).lines_spec() == old(self).lines_spec().push(
                Line { x0: a.x, y0: a.y, x1: b.x, y1: b.y, color },
            ),
            final(self).text_spec() == old(self).text_spec(),
            final(self).drawn_text_spec() == old(self).drawn_text_spec(),
    {
        self.draw_line(a, b, color);
    }

    /// Appends a regular polygon as `sides` line segments at uniform angular
    /// spacing, starting from `angle`. The center and radius are saturated to
    /// the coordinate range, and the segment count is capped at
    /// `POLYGON_SIDES_CAP`.
    pub fn draw_polygon(&mut self, center: Vec2, radius: i64, sides: i64, angle: i64, color: u32)
        requires
            old(self).wf(),
        ensures
            final(self).wf(),
            final(self).lines_spec().len() == old(self).lines_spec().len()
                + polygon_sides_spec(sides as int),
            forall|k: int| 0 <= k < old(self).lines_spec().len()
                ==> final(self).lines_spec()[k] == old(self).lines_spec()[k],
            forall|k: int| 0 <= k < polygon_sides_spec(sides as int)
                ==> final(self).lines_spec()[old(self).lines_spec().len() + k]
                    == polygon_line_spec(center, radius as int, sides as int, angle as int, color, k),
            final(self).text_spec() == old(self).text_spec(),
            final(self).drawn_text_spec() == old(self).drawn_text_spec(),
    {
        let n: i64 = clamp_i64(sides, 0, POLYGON_SIDES_CAP);
        let c = center.clamped(COORD_LIMIT / 2);
        let r: i64 = clamp_i64(radius, 0, COORD_LIMIT / 2);
        let delta: i64 = if n > 0 { TAU_MRAD / n } else { 0 };
        let base: i64 = norm_angle(angle);
        let mut k: i64 = 0;
        while k < n
            invariant
                0 <= k <= n <= POLYGON_SIDES_CAP,
                n == polygon_sides_spec(sides as int),
                c.x == clamp_spec(center.x as int, -(COORD_LIMIT / 2) as int, (COORD_LIMIT / 2) as int),
                c.y == clamp_spec(center.y as int, -(COORD_LIMIT / 2) as int, (COORD_LIMIT / 2) as int),
                -COORD_LIMIT / 2 <= c.x <= COORD_LIMIT / 2,
                -COORD_LIMIT / 2 <= c.y <= COORD_LIMIT / 2,
                r == clamp_spec(radius as int, 0, (COORD_LIMIT / 2) as int),
                0 <= r <= COORD_LIMIT / 2,
                delta == polygon_delta_spec(sides as int),
                0 <= delta <= TAU_MRAD,
                base == norm_angle_spec(angle as int),
                0 <= base < TAU_MRAD,
                self.wf(),
                self.lines_spec().len() == old(self).lines_spec().len() + k,
                forall|j: int| 0 <= j < old(self).lines_spec().len()
                    ==> self.lines_spec()[j] == old(self).lines_spec()[j],
                forall|j: int| 0 <= j < k
                    ==> self.lines_spec()[old(self).lines_spec().len() + j]
                        == polygon_line_spec(center, radius as int, sides as int, angle as int, color, j),
                self.text_spec() == old(self).text_spec(),
                self.drawn_text_spec() == old(self).drawn_text_spec(),
            decreases n - k,
        {
            let a0: i64 = polygon_angle(base, delta, k);
            let a1: i64 = polygon_angle(base, delta, k + 1);
            let p = vec2(r, 0);
            let v0 = c.add(p.rotate(a0));
            let v1 = c.add(p.rotate(a1));
            self.draw_line(v0, v1, color);
            k = k + 1;
        }
    }

    /// Appends a triangle: a three-sided polygon starting a quarter turn up.
    pub fn draw_triangle(&mut self, center: Vec2, radius: i64, color: u32)
        requires
            old(self).wf(),
        ensures
            final(self).wf(),
            final(self).lines_spec().len() == old(self).lines_spec().len() + 3,
            final(self).text_spec() == old(self).text_spec(),
            final(self).drawn_text_spec() == old(self).drawn_text_spec(),
    {
        self.draw_polygon(center, radius, 3, TAU_MRAD / 4, color);
    }

    /// Appends a square: a four-sided polygon starting an eighth turn up.
    pub fn draw_square(&mut self, center: Vec2, radius: i64, color: u32)
        requires
            old(self).wf(),
        ensures
            final(self).wf(),
            final(self).lines_spec().len() == old(self).lines_spec().len() + 4,
            final(self).text_spec() == old(self).text_spec(),
            final(self).drawn_text_spec() == old(self).drawn_text_spec(),
    {
        self.draw_polygon(center, radius, 4, TAU_MRAD / 8, color);
    }

    /// Appends a diamond: a four-sided polygon with a corner on the axis.
    pub fn draw_diamond(&mut self, center: Vec2, radius: i64, color: u32)
        requires
            old(self).wf(),
        ensures
            final(self).wf(),
            final(self).lines_spec().len() == old(self).lines_spec().len() + 4,
            final(self).text_spec() == old(self).text_spec(),
            final(self).drawn_text_spec() == old(self).drawn_text_spec(),
    {
        self.draw_polygon(center, radius, 4, 0, color);
    }

    /// Appends one positioned text annotation, truncated to the byte budget.
    pub fn draw_text_internal(&mut self, topleft: Vec2, color: u32, text: &Vec<u8>)
        requires
            old(self).wf(),
        ensures
            final(self).wf(),
            final(self).drawn_text_spec().len() == old(self).drawn_text_spec().len() + 1,
            forall|j: int| 0 <= j < old(self).drawn_text_spec().len()
                ==> final(self).drawn_text_spec()[j] == old(self).drawn_text_spec()[j],
            ({
                let entry = final(self).drawn_text_spec().last();
                entry.x == topleft.x && entry.y == topleft.y && entry.color == color
                    && entry.text@ == text@.take(
                        if text@.len() <= DRAWN_TEXT_CAP { text@.len() as int } else { DRAWN_TEXT_CAP as int },
                    )
            }),
            final(self).text_spec() == old(self).text_spec(),
            final(self).lines_spec() == old(self).lines_spec(),
    {
        let n: usize = if text.len() <= DRAWN_TEXT_CAP { text.len() } else { DRAWN_TEXT_CAP };
        let mut kept: Vec<u8> = Vec::new();
        let mut i: usize = 0;
        while i < n
            invariant
                0 <= i <= n <= text@.len(),
                kept@ =~= text@.take(i as int),
            decreases n - i,
        {
            kept.push(text[i]);
            i = i + 1;
        }
        proof {
            assert(kept@ =~= text@.take(n as int));
        }
        self.drawn_text.push(Text { x: topleft.x, y: topleft.y, color, text: kept });
    }

    /// Publishes the buffer lengths into the owning agent's register file, as
    /// the host-visible summary at end of tick. The content itself crosses the
    /// boundary as owned sequences through the read accessors.
    pub fn update(&self, slots: &mut StateSlotArray)
        requires
            old(slots).wf(),
        ensures
            final(slots).wf(),
            final(slots)@ == spec_write(
                spec_write(
                    spec_write(old(slots)@, SystemState::DebugTextLength, len_as_slot(self.text_spec().len() as int)),
                    SystemState::DebugLinesLength,
                    len_as_slot(self.lines_spec().len() as int),
                ),
                SystemState::DrawnTextLength,
                len_as_slot(self.drawn_text_spec().len() as int),
            ),
    {
        slots.write(SystemState::DebugTextLength, len_to_slot(self.text.len()));
        slots.write(SystemState::DebugLinesLength, len_to_slot(self.lines.len()));
        slots.write(SystemState::DrawnTextLength, len_to_slot(self.drawn_text.len()));
    }

    /// The free text buffer, for the host renderer.
    pub fn text(&self) -> (r: &Vec<u8>)
        ensures
            r@ == self.text_spec(),
    {
        &self.text
    }

    /// The line buffer, for the host renderer.
    pub fn lines(&self) -> (r: &Vec<Line>)
        ensures
            r@ == self.lines_spec(),
    {
        &self.lines
    }

    /// The positioned text buffer, for the host renderer.
    pub fn drawn_text(&self) -> (r: &Vec<Text>)
        ensures
            r@ == self.drawn_text_spec(),
    {
        &self.drawn_text
    }
}

/// An untouched annotation buffer keeps its byte budget.
proof fn lemma_wf_unchanged(before: Seq<Text>, after: Seq<Text>)
    requires
        before == after,
        forall|i: int| 0 <= i < before.len()
            ==> (#[trigger] before[i]).text@.len() <= DRAWN_TEXT_CAP,
    ensures
        forall|i: int| 0 <= i < after.len()
            ==> (#[trigger] after[i]).text@.len() <= DRAWN_TEXT_CAP,
{
}

/// Cap on the number of segments of one polygon, so angle arithmetic stays in
/// range.
pub const POLYGON_SIDES_CAP: i64 = 65536;

/// The number of segments a polygon request actually emits.
pub open spec fn polygon_sides_spec(sides: int) -> int {
    clamp_spec(sides, 0, POLYGON_SIDES_CAP as int)
}

/// The angular spacing between successive polygon vertices.
pub open spec fn polygon_delta_spec(sides: int) -> int {
    if polygon_sides_spec(sides) > 0 { (TAU_MRAD as int) / polygon_sides_spec(sides) } else { 0 }
}

/// The saturated center and radius a polygon request draws with.
pub open spec fn polygon_center_spec(center: Vec2) -> Vec2 {
    Vec2 {
        x: clamp_spec(center.x as int, -(COORD_LIMIT / 2) as int, (COORD_LIMIT / 2) as int) as i64,
        y: clamp_spec(center.y as int, -(COORD_LIMIT / 2) as int, (COORD_LIMIT / 2) as int) as i64,
    }
}

/// A polygon vertex: the radius vector rotated by the `k`-th multiple of the
/// spacing, from the saturated center.
pub open spec fn polygon_vertex_spec(center: Vec2, radius: int, sides: int, angle: int, k: int) -> Vec2 {
    let c = polygon_center_spec(center);
    let r = clamp_spec(radius, 0, (COORD_LIMIT / 2) as int);
    let a = norm_angle_spec(angle) + polygon_delta_spec(sides) * k;
    let p = Vec2 { x: r as i64, y: 0 };
    Vec2 {
        x: (c.x + div_trunc(r * cos_fp_spec(a), SCALE as int)) as i64,
        y: (c.y + div_trunc(r * sin_fp_spec(a), SCALE as int)) as i64,
    }
}

/// The `k`-th segment of a polygon request.
pub open spec fn polygon_line_spec(center: Vec2, radius: int, sides: int, angle: int, color: u32, k: int) -> Line {
    let v0 = polygon_vertex_spec(center, radius, sides, angle, k);
    let v1 = polygon_vertex_spec(center, radius, sides, angle, k + 1);
    Line { x0: v0.x, y0: v0.y, x1: v1.x, y1: v1.y, color }
}

/// The angle of the `k`-th polygon vertex over a normalized base angle.
fn polygon_angle(base: i64, delta: i64, k: i64) -> (r: i64)
    requires
        0 <= base < TAU_MRAD,
        0 <= delta <= TAU_MRAD,
        0 <= k <= POLYGON_SIDES_CAP,
    ensures
        r == base + delta * k,
{
    proof {
        assert(0 <= delta * k <= 6283 * 65536) by (nonlinear_arith)
            requires 0 <= delta <= 6283 && 0 <= k <= 65536;
    }
    base + delta * k
}

/// A buffer length as a slot value, saturating at the slot range.
pub open spec fn len_as_slot(n: int) -> i64 {
    if n > i64::MAX { i64::MAX } else { n as i64 }
}

fn len_to_slot(n: usize) -> (r: i64)
    ensures
        r == len_as_slot(n as int),
{
    if (n as u64) > (i64::MAX as u64) { i64::MAX } else { n as i64 }
}

} // verus!
