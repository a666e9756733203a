//! Space divisions: the rectangular layout nodes of the engine.
//!
//! A div carries sizing units for width and height, optional min/max clamps,
//! a layout direction for its children, per-axis alignment and overflow
//! policies, an optional widget handle, an optional background color, and a
//! mutable scroll offset.

use vstd::prelude::*;

use crate::geom::{max_i32, min_i32, sat32, sat_add_i32, sat_sub_i32, tdiv, Point, Size};

verus! {

/// The axis along which a container stacks its children.
#[derive(Clone, Copy, PartialEq, Eq, Structural, Debug)]
pub enum Direction {
    Horizontal,
    Vertical,
}

/// Placement policy on one axis.
#[derive(Clone, Copy, PartialEq, Eq, Structural, Debug)]
pub enum Alignment {
    Min,
    Max,
    Center,
}

/// Per-axis policy for content that exceeds the parent's box.
#[derive(Clone, Copy, PartialEq, Eq, Structural, Debug)]
pub enum Overflow {
    /// Nothing happens, the content just overflows.
    Overflow,
    /// The content gets cut off where it overflows.
    Clip,
    /// The content is scrollable.
    Scroll,
}

/// An RGBA color with 8-bit channels.
#[derive(Clone, Copy, PartialEq, Eq, Structural, Debug)]
pub struct Color {
    pub r: u8,
    pub g: u8,
    pub b: u8,
    pub a: u8,
}

impl Color {
    pub fn rgba(r: u8, g: u8, b: u8, a: u8) -> (c: Color)
        ensures
            c == (Color { r, g, b, a }),
    {
        Color { r, g, b, a }
    }

    pub fn white() -> (c: Color)
        ensures
            c == (Color { r: 255u8, g: 255u8, b: 255u8, a: 255u8 }),
    {
        Color { r: 255, g: 255, b: 255, a: 255 }
    }

    pub fn red() -> (c: Color)
        ensures
            c == (Color { r: 255u8, g: 0u8, b: 0u8, a: 255u8 }),
    {
        Color { r: 255, g: 0, b: 0, a: 255 }
    }
}

/// A handle to a renderable widget owned by the caller. The engine never
/// looks inside a widget; it only reports, per frame, which widget to draw
/// into which box.
#[derive(Clone, Copy, PartialEq, Eq, Structural, Debug)]
pub struct WidgetId(pub u32);

/// The layout context handed to a `Unit::Calc` expression: the direction of
/// the div being sized, the parent's size, and the space remaining along the
/// parent's layout direction after the previous sibling.
#[derive(Clone, Copy, PartialEq, Eq, Structural, Debug)]
pub struct UnitCalcData {
    pub direction: Direction,
    pub parent_size: Size,
    pub remaining: i32,
}

/// A pure expression over the layout context, used by `Unit::Calc` to size a
/// div dynamically. All arithmetic saturates at the `i32` range.
#[derive(Debug)]
pub enum CalcExpr {
    /// A fixed number of pixels.
    Const(i32),
    /// The parent's width.
    ParentWidth,
    /// The parent's height.
    ParentHeight,
    /// The space left along the parent's layout direction.
    Remaining,
    /// Negation.
    Neg(Box<CalcExpr>),
    /// Saturating sum.
    Add(Box<CalcExpr>, Box<CalcExpr>),
    /// Saturating difference.
    Sub(Box<CalcExpr>, Box<CalcExpr>),
    /// The smaller of two values.
    Min(Box<CalcExpr>, Box<CalcExpr>),
    /// The larger of two values.
    Max(Box<CalcExpr>, Box<CalcExpr>),
}

/// The value of a calc expression under the given layout context.
pub open spec fn spec_calc_eval(e: CalcExpr, data: UnitCalcData) -> int
    decreases e,
{
    match e {
        CalcExpr::Const(c) => c as int,
        CalcExpr::ParentWidth => data.parent_size.x as int,
        CalcExpr::ParentHeight => data.parent_size.y as int,
        CalcExpr::Remaining => data.remaining as int,
        CalcExpr::Neg(a) => sat32(-spec_calc_eval(*a, data)),
        CalcExpr::Add(a, b) => sat32(spec_calc_eval(*a, data) + spec_calc_eval(*b, data)),
        CalcExpr::Sub(a, b) => sat32(spec_calc_eval(*a, data) - spec_calc_eval(*b, data)),
        CalcExpr::Min(a, b) => {
            let va = spec_calc_eval(*a, data);
            let vb = spec_calc_eval(*b, data);
            if va <= vb {
                va
            } else {
                vb
            }
        },
        CalcExpr::Max(a, b) => {
            let va = spec_calc_eval(*a, data);
            let vb = spec_calc_eval(*b, data);
            if va >= vb {
                va
            } else {
                vb
            }
        },
    }
}

impl CalcExpr {
    /// Evaluate the expression under the given layout context.
    pub fn eval(&self, data: UnitCalcData) -> (r: i32)
        ensures
            r as int == spec_calc_eval(*self, data),
        decreases *self,
    {
        match self {
            CalcExpr::Const(c) => *c,
            CalcExpr::ParentWidth => data.parent_size.x,
            CalcExpr::ParentHeight => data.parent_size.y,
            CalcExpr::Remaining => data.remaining,
            CalcExpr::Neg(a) => {
                let v = a.eval(data);
                if v == i32::MIN {
                    i32::MAX
                } else {
                    -v
                }
            },
            CalcExpr::Add(a, b) => sat_add_i32(a.eval(data), b.eval(data)),
            CalcExpr::Sub(a, b) => sat_sub_i32(a.eval(data), b.eval(data)),
            CalcExpr::Min(a, b) => min_i32(a.eval(data), b.eval(data)),
            CalcExpr::Max(a, b) => max_i32(a.eval(data), b.eval(data)),
        }
    }
}

/// A resolvable sizing scalar.
#[derive(Debug)]
pub enum Unit {
    /// Absolute pixels.
    Pixels(i32),
    /// A fraction `numerator / denominator` of the parent's size on the
    /// relevant axis, truncated toward zero. A denominator that is zero or
    /// negative resolves to 0 by policy (the engine is total).
    Relative(i32, i32),
    /// Pixels computed from the layout context through an expression.
    Calc(CalcExpr),
}

/// The resolved value of a unit against the parent's size on one axis.
pub open spec fn spec_resolve_unit(u: Unit, axis_size: i32, data: UnitCalcData) -> int {
    match u {
        Unit::Pixels(p) => p as int,
        Unit::Relative(num, den) => {
            if den <= 0 {
                0
            } else {
                sat32(tdiv(axis_size * num, den as int))
            }
        },
        Unit::Calc(e) => spec_calc_eval(e, data),
    }
}

/// Resolve a `Relative(num, den)` unit: `axis_size * num / den`, truncated
/// toward zero and saturated to the `i32` range.
fn resolve_relative(axis_size: i32, num: i32, den: i32) -> (r: i32)
    ensures
        r as int == if den <= 0 {
            0int
        } else {
            sat32(tdiv(axis_size as int * num as int, den as int))
        },
{
    if den <= 0 {
        return 0;
    }
    let a: i64 = axis_size as i64;
    let n: i64 = num as i64;
    proof {
        assert(a * n <= 0x4000_0000_0000_0000 && a * n >= -0x4000_0000_0000_0000)
            by (nonlinear_arith)
            requires
                -0x8000_0000 <= a <= 0x7fff_ffff,
                -0x8000_0000 <= n <= 0x7fff_ffff,
        ;
    }
    let prod: i64 = a * n;
    let q: i64 = match prod.checked_div(den as i64) {
        Some(q) => q,
        None => 0,
    };
    if q > (i32::MAX as i64) {
        i32::MAX
    } else if q < (i32::MIN as i64) {
        i32::MIN
    } else {
        q as i32
    }
}

/// Resolve a unit against the parent's size on one axis.
pub fn resolve_unit(u: &Unit, axis_size: i32, data: UnitCalcData) -> (r: i32)
    ensures
        r as int == spec_resolve_unit(*u, axis_size, data),
{
    match u {
        Unit::Pixels(p) => *p,
        Unit::Relative(num, den) => resolve_relative(axis_size, *num, *den),
        Unit::Calc(e) => e.eval(data),
    }
}

/// How a node behaves on one axis once classified against its parent's box.
#[derive(Clone, Copy, PartialEq, Eq, Structural, Debug)]
pub enum AxisOverflowBehaviour {
    /// Hard clip bounds on that axis.
    Clip { min: i32, max: i32 },
    /// Clip bounds plus the scrollable excess length on that axis.
    Scroll { min: i32, max: i32, scroll: i32 },
    /// No clipping at all.
    Overflow,
}

/// The clip bounds of a behaviour, if it has any.
pub open spec fn spec_min_max(b: AxisOverflowBehaviour) -> Option<(i32, i32)> {
    match b {
        AxisOverflowBehaviour::Clip { min, max } => Some((min, max)),
        AxisOverflowBehaviour::Scroll { min, max, scroll } => Some((min, max)),
        AxisOverflowBehaviour::Overflow => None,
    }
}

/// The scrollable excess of a behaviour, if it is scrollable.
pub open spec fn spec_scroll(b: AxisOverflowBehaviour) -> Option<i32> {
    match b {
        AxisOverflowBehaviour::Scroll { min, max, scroll } => Some(scroll),
        _ => None,
    }
}

impl AxisOverflowBehaviour {
    pub fn min_max(&self) -> (r: Option<(i32, i32)>)
        ensures
            r == spec_min_max(*self),
    {
        match *self {
            AxisOverflowBehaviour::Clip { min, max } => Some((min, max)),
            AxisOverflowBehaviour::Scroll { min, max, .. } => Some((min, max)),
            _ => None,
        }
    }

    pub fn scroll(&self) -> (r: Option<i32>)
        ensures
            r == spec_scroll(*self),
    {
        if let AxisOverflowBehaviour::Scroll { scroll, .. } = *self {
            Some(scroll)
        } else {
            None
        }
    }
}

/// The outcome of the layout pass for one node: either culled entirely, or
/// visible with a bounding box and a per-axis overflow behaviour.
#[derive(Clone, Copy, PartialEq, Eq, Structural, Debug)]
pub enum ComputedVisibility {
    Visible { bbox: crate::geom::Bbox, x: AxisOverflowBehaviour, y: AxisOverflowBehaviour },
    Invisible,
}

/// A space division: one rectangular node of the layout tree.
#[derive(Debug)]
pub struct SpaceDiv {
    pub width: Unit,
    pub height: Unit,
    pub min_width: Option<Unit>,
    pub min_height: Option<Unit>,
    pub max_width: Option<Unit>,
    pub max_height: Option<Unit>,
    pub layout_dir: Direction,
    pub hori_align: Alignment,
    pub vert_align: Alignment,
    pub hori_overflow: Overflow,
    pub vert_overflow: Overflow,
    pub widget: Option<WidgetId>,
    pub background_color: Option<Color>,
    pub scroll: Point,
}

/// The space left along the parent's layout direction after the previous
/// sibling, clamped to be nonnegative.
pub open spec fn spec_remaining(parent_size: Size, parent_dir: Direction, last_origin: Point) -> int {
    let diff = match parent_dir {
        Direction::Horizontal => sat32(parent_size.x - last_origin.x),
        Direction::Vertical => sat32(parent_size.y - last_origin.y),
    };
    if diff >= 0 {
        diff
    } else {
        0
    }
}

/// The layout context a div builds for its own unit resolution.
pub open spec fn spec_calc_data(
    div: SpaceDiv,
    parent_size: Size,
    parent_dir: Direction,
    last_origin: Point,
) -> UnitCalcData {
    UnitCalcData {
        direction: div.layout_dir,
        parent_size,
        remaining: spec_remaining(parent_size, parent_dir, last_origin) as i32,
    }
}

/// One axis of div sizing: resolve the base unit, clamp by the optional
/// maximum, then by the optional minimum — in that order, so an inconsistent
/// `min > max` configuration favors the minimum.
pub open spec fn spec_resolve_axis(
    base: Unit,
    max_unit: Option<Unit>,
    min_unit: Option<Unit>,
    axis_size: i32,
    data: UnitCalcData,
) -> int {
    let v0 = spec_resolve_unit(base, axis_size, data);
    let v1 = match max_unit {
        Some(mu) => {
            let mv = spec_resolve_unit(mu, axis_size, data);
            if v0 <= mv {
                v0
            } else {
                mv
            }
        },
        None => v0,
    };
    match min_unit {
        Some(mu) => {
            let mv = spec_resolve_unit(mu, axis_size, data);
            if v1 >= mv {
                v1
            } else {
                mv
            }
        },
        None => v1,
    }
}

/// The resolved size of a div in pixels.
pub open spec fn spec_size_pixels(
    div: SpaceDiv,
    parent_size: Size,
    parent_dir: Direction,
    last_origin: Point,
) -> Size {
    let data = spec_calc_data(div, parent_size, parent_dir, last_origin);
    Size {
        x: spec_resolve_axis(div.width, div.max_width, div.min_width, parent_size.x, data) as i32,
        y: spec_resolve_axis(div.height, div.max_height, div.min_height, parent_size.y, data) as i32,
    }
}

/// Resolve one sizing axis: base unit clamped by max, then by min.
fn resolve_axis(
    base: &Unit,
    max_unit: &Option<Unit>,
    min_unit: &Option<Unit>,
    axis_size: i32,
    data: UnitCalcData,
) -> (r: i32)
    ensures
        r as int == spec_resolve_axis(*base, *max_unit, *min_unit, axis_size, data),
{
    let mut v = resolve_unit(base, axis_size, data);
    if let Some(mu) = max_unit {
        let mv = resolve_unit(mu, axis_size, data);
        v = min_i32(v, mv);
    }
    if let Some(mu) = min_unit {
        let mv = resolve_unit(mu, axis_size, data);
        v = max_i32(v, mv);
    }
    v
}

impl SpaceDiv {
    /// A builder for a div that fills its parent on both axes.
    pub fn full() -> (r: SpaceDivBuilder)
        ensures
            r.current == (SpaceDiv {
                width: Unit::Relative(1, 1),
                height: Unit::Relative(1, 1),
                ..spec_div_default()
            }),
    {
        SpaceDivBuilder::new().width(Unit::Relative(1, 1)).height(Unit::Relative(1, 1))
    }

    /// Compute this div's size in pixels against its parent.
    ///
    /// `last_origin` is the end point of the previous sibling, which feeds
    /// the `remaining` component of the calc context.
    pub fn size_pixels(&self, parent_size: Size, parent_dir: Direction, last_origin: Point) -> (r:
        Size)
        ensures
            r == spec_size_pixels(*self, parent_size, parent_dir, last_origin),
    {
        let diff = match parent_dir {
            Direction::Horizontal => sat_sub_i32(parent_size.x, last_origin.x),
            Direction::Vertical => sat_sub_i32(parent_size.y, last_origin.y),
        };
        let data = UnitCalcData {
            direction: self.layout_dir,
            parent_size,
            remaining: max_i32(diff, 0),
        };
        let w = resolve_axis(&self.width, &self.max_width, &self.min_width, parent_size.x, data);
        let h = resolve_axis(&self.height, &self.max_height, &self.min_height, parent_size.y, data);
        Size { x: w, y: h }
    }
}

/// The default div: fills its parent, stacks horizontally, aligns to the
/// minimum corner, lets content overflow, carries no widget and no color.
pub open spec fn spec_div_default() -> SpaceDiv {
    SpaceDiv {
        width: Unit::Relative(1, 1),
        height: Unit::Relative(1, 1),
        min_width: None,
        min_height: None,
        max_width: None,
        max_height: None,
        layout_dir: Direction::Horizontal,
        hori_align: Alignment::Min,
        vert_align: Alignment::Min,
        hori_overflow: Overflow::Overflow,
        vert_overflow: Overflow::Overflow,
        widget: None,
        background_color: None,
        scroll: Point { x: 0, y: 0 },
    }
}

impl Default for SpaceDiv {
    fn default() -> (r: Self)
        ensures
            r == spec_div_default(),
    {
        SpaceDiv {
            width: Unit::Relative(1, 1),
            height: Unit::Relative(1, 1),
            min_width: None,
            min_height: None,
            max_width: None,
            max_height: None,
            layout_dir: Direction::Horizontal,
            hori_align: Alignment::Min,
            vert_align: Alignment::Min,
            hori_overflow: Overflow::Overflow,
            vert_overflow: Overflow::Overflow,
            widget: None,
            background_color: None,
            scroll: Point { x: 0, y: 0 },
        }
    }
}

/// Clamp precedence: the maximum clamp is applied before the minimum clamp,
/// so whenever the resolved minimum is at least the resolved maximum — in
/// particular for an inconsistent `min > max` configuration — the resolved
/// size is the minimum, whatever the base unit resolved to.
pub proof fn lemma_clamp_precedence(
    base: Unit,
    max_unit: Unit,
    min_unit: Unit,
    axis_size: i32,
    data: UnitCalcData,
)
    requires
        spec_resolve_unit(min_unit, axis_size, data) >= spec_resolve_unit(
            max_unit,
            axis_size,
            data,
        ),
    ensures
        spec_resolve_axis(base, Some(max_unit), Some(min_unit), axis_size, data)
            == spec_resolve_unit(min_unit, axis_size, data),
{
}

/// A fluent builder for `SpaceDiv`.
pub struct SpaceDivBuilder {
    pub current: SpaceDiv,
}

impl SpaceDivBuilder {
    pub fn new() -> (r: Self)
        ensures
            r.current == spec_div_default(),
    {
        SpaceDivBuilder { current: Default::default() }
    }

    pub fn width(self, width: Unit) -> (r: Self)
        ensures
            r.current == (SpaceDiv { width, ..self.current }),
    {
        let mut current = self.current;
        current.width = width;
        SpaceDivBuilder { current }
    }

    pub fn height(self, height: Unit) -> (r: Self)
        ensures
            r.current == (SpaceDiv { height, ..self.current }),
    {
        let mut current = self.current;
        current.height = height;
        SpaceDivBuilder { current }
    }

    pub fn min_width(self, min_width: Unit) -> (r: Self)
        ensures
            r.current == (SpaceDiv { min_width: Some(min_width), ..self.current }),
    {
        let mut current = self.current;
        current.min_width = Some(min_width);
        SpaceDivBuilder { current }
    }

    pub fn min_height(self, min_height: Unit) -> (r: Self)
        ensures
            r.current == (SpaceDiv { min_height: Some(min_height), ..self.current }),
    {
        let mut current = self.current;
        current.min_height = Some(min_height);
        SpaceDivBuilder { current }
    }

    pub fn max_width(self, max_width: Unit) -> (r: Self)
        ensures
            r.current == (SpaceDiv { max_width: Some(max_width), ..self.current }),
    {
        let mut current = self.current;
        current.max_width = Some(max_width);
        SpaceDivBuilder { current }
    }

    pub fn max_height(self, max_height: Unit) -> (r: Self)
        ensures
            r.current == (SpaceDiv { max_height: Some(max_height), ..self.current }),
    {
        let mut current = self.current;
        current.max_height = Some(max_height);
        SpaceDivBuilder { current }
    }

    pub fn horizontal(self) -> (r: Self)
        ensures
            r.current == (SpaceDiv { layout_dir: Direction::Horizontal, ..self.current }),
    {
        let mut current = self.current;
        current.layout_dir = Direction::Horizontal;
        SpaceDivBuilder { current }
    }

    pub fn vertical(self) -> (r: Self)
        ensures
            r.current == (SpaceDiv { layout_dir: Direction::Vertical, ..self.current }),
    {
        let mut current = self.current;
        current.layout_dir = Direction::Vertical;
        SpaceDivBuilder { current }
    }

    pub fn hori_align(self, hori_align: Alignment) -> (r: Self)
        ensures
            r.current == (SpaceDiv { hori_align, ..self.current }),
    {
        let mut current = self.current;
        current.hori_align = hori_align;
        SpaceDivBuilder { current }
    }

    pub fn vert_align(self, vert_align: Alignment) -> (r: Self)
        ensures
            r.current == (SpaceDiv { vert_align, ..self.current }),
    {
        let mut current = self.current;
        current.vert_align = vert_align;
        SpaceDivBuilder { current }
    }

    pub fn hori_overflow(self, hori_overflow: Overflow) -> (r: Self)
        ensures
            r.current == (SpaceDiv { hori_overflow, ..self.current }),
    {
        let mut current = self.current;
        current.hori_overflow = hori_overflow;
        SpaceDivBuilder { current }
    }

    pub fn vert_overflow(self, vert_overflow: Overflow) -> (r: Self)
        ensures
            r.current == (SpaceDiv { vert_overflow, ..self.current }),
    {
        let mut current = self.current;
        current.vert_overflow = vert_overflow;
        SpaceDivBuilder { current }
    }

    pub fn widget(self, widget: WidgetId) -> (r: Self)
        ensures
            r.current == (SpaceDiv { widget: Some(widget), ..self.current }),
    {
        let mut current = self.current;
        current.widget = Some(widget);
        SpaceDivBuilder { current }
    }

    pub fn background_color(self, color: Color) -> (r: Self)
        ensures
            r.current == (SpaceDiv { background_color: Some(color), ..self.current }),
    {
        let mut current = self.current;
        current.background_color = Some(color);
        SpaceDivBuilder { current }
    }

    pub fn build(self) -> (r: SpaceDiv)
        ensures
            r == self.current,
    {
        self.current
    }
}

} // verus!
