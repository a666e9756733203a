use chorus_ui::div::{
    Alignment, CalcExpr, Color, Direction, Overflow, SpaceDivBuilder, Unit, UnitCalcData, WidgetId,
};
use chorus_ui::{Point, Size};

fn size_of(builder: SpaceDivBuilder, parent: Size, dir: Direction, last: Point) -> Size {
    builder.build().size_pixels(parent, dir, last)
}

#[test]
fn relative_width_resolves_to_fraction_of_parent() {
    let s = size_of(
        SpaceDivBuilder::new().width(Unit::Relative(1, 2)),
        Point::new(200, 100),
        Direction::Vertical,
        Point::new(0, 0),
    );
    assert_eq!(s.x, 100);
}

#[test]
fn max_clamp_applies_before_min() {
    // Pixels(50) with max_width = one fifth of a 200-wide parent: min(50, 40).
    let s = size_of(
        SpaceDivBuilder::new()
            .width(Unit::Pixels(50))
            .max_width(Unit::Relative(1, 5)),
        Point::new(200, 100),
        Direction::Vertical,
        Point::new(0, 0),
    );
    assert_eq!(s.x, 40);
}

#[test]
fn min_clamp_wins_over_smaller_max() {
    let s = size_of(
        SpaceDivBuilder::new()
            .width(Unit::Pixels(10))
            .min_width(Unit::Pixels(30))
            .max_width(Unit::Pixels(20)),
        Point::new(200, 100),
        Direction::Vertical,
        Point::new(0, 0),
    );
    assert_eq!(s.x, 30);
}

#[test]
fn pixels_resolve_to_themselves() {
    let s = size_of(
        SpaceDivBuilder::new()
            .width(Unit::Pixels(123))
            .height(Unit::Pixels(-7)),
        Point::new(10, 10),
        Direction::Horizontal,
        Point::new(0, 0),
    );
    assert_eq!(s, Point::new(123, -7));
}

#[test]
fn relative_truncates_toward_zero() {
    // 25 * -1 / 2 = -12.5, truncated toward zero.
    let s = size_of(
        SpaceDivBuilder::new()
            .width(Unit::Relative(-1, 2))
            .height(Unit::Relative(1, 3)),
        Point::new(25, 100),
        Direction::Vertical,
        Point::new(0, 0),
    );
    assert_eq!(s.x, -12);
    assert_eq!(s.y, 33);
}

#[test]
fn relative_with_nonpositive_denominator_resolves_to_zero() {
    let s = size_of(
        SpaceDivBuilder::new().width(Unit::Relative(1, 0)),
        Point::new(200, 100),
        Direction::Vertical,
        Point::new(0, 0),
    );
    assert_eq!(s.x, 0);
}

#[test]
fn calc_remaining_uses_parent_direction_and_last_origin() {
    // Parent stacks vertically and is 300 tall; the previous sibling ended
    // at y = 120, so 180 remains.
    let s = size_of(
        SpaceDivBuilder::new().height(Unit::Calc(CalcExpr::Remaining)),
        Point::new(100, 300),
        Direction::Vertical,
        Point::new(0, 120),
    );
    assert_eq!(s.y, 180);
}

#[test]
fn calc_remaining_clamps_to_zero() {
    let s = size_of(
        SpaceDivBuilder::new().height(Unit::Calc(CalcExpr::Remaining)),
        Point::new(100, 300),
        Direction::Vertical,
        Point::new(0, 450),
    );
    assert_eq!(s.y, 0);
}

#[test]
fn calc_expressions_evaluate() {
    let data = UnitCalcData {
        direction: Direction::Horizontal,
        parent_size: Point::new(640, 480),
        remaining: 100,
    };
    assert_eq!(CalcExpr::Const(7).eval(data), 7);
    assert_eq!(CalcExpr::ParentWidth.eval(data), 640);
    assert_eq!(CalcExpr::ParentHeight.eval(data), 480);
    assert_eq!(CalcExpr::Remaining.eval(data), 100);
    let e = CalcExpr::Sub(
        Box::new(CalcExpr::ParentWidth),
        Box::new(CalcExpr::Const(40)),
    );
    assert_eq!(e.eval(data), 600);
    let m = CalcExpr::Min(
        Box::new(CalcExpr::Remaining),
        Box::new(CalcExpr::Const(64)),
    );
    assert_eq!(m.eval(data), 64);
    let n = CalcExpr::Max(
        Box::new(CalcExpr::Neg(Box::new(CalcExpr::Const(5)))),
        Box::new(CalcExpr::Const(-9)),
    );
    assert_eq!(n.eval(data), -5);
    let a = CalcExpr::Add(
        Box::new(CalcExpr::Const(i32::MAX)),
        Box::new(CalcExpr::Const(1)),
    );
    assert_eq!(a.eval(data), i32::MAX);
}

#[test]
fn builder_sets_every_field() {
    let d = SpaceDivBuilder::new()
        .width(Unit::Pixels(1))
        .height(Unit::Pixels(2))
        .min_width(Unit::Pixels(3))
        .min_height(Unit::Pixels(4))
        .max_width(Unit::Pixels(5))
        .max_height(Unit::Pixels(6))
        .vertical()
        .hori_align(Alignment::Center)
        .vert_align(Alignment::Max)
        .hori_overflow(Overflow::Clip)
        .vert_overflow(Overflow::Scroll)
        .widget(WidgetId(9))
        .background_color(Color::red())
        .build();
    assert!(matches!(d.width, Unit::Pixels(1)));
    assert!(matches!(d.height, Unit::Pixels(2)));
    assert!(matches!(d.min_width, Some(Unit::Pixels(3))));
    assert!(matches!(d.min_height, Some(Unit::Pixels(4))));
    assert!(matches!(d.max_width, Some(Unit::Pixels(5))));
    assert!(matches!(d.max_height, Some(Unit::Pixels(6))));
    assert_eq!(d.layout_dir, Direction::Vertical);
    assert_eq!(d.hori_align, Alignment::Center);
    assert_eq!(d.vert_align, Alignment::Max);
    assert_eq!(d.hori_overflow, Overflow::Clip);
    assert_eq!(d.vert_overflow, Overflow::Scroll);
    assert_eq!(d.widget, Some(WidgetId(9)));
    assert_eq!(d.background_color, Some(Color::red()));
    assert_eq!(d.scroll, Point::new(0, 0));
}

#[test]
fn full_fills_the_parent() {
    let d = chorus_ui::SpaceDiv::full().build();
    let s = d.size_pixels(Point::new(321, 87), Direction::Vertical, Point::new(0, 0));
    assert_eq!(s, Point::new(321, 87));
}
