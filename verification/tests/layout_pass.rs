use chorus_ui::div::{
    Alignment, AxisOverflowBehaviour, ComputedVisibility, Overflow, SpaceDiv, SpaceDivBuilder,
    Unit,
};
use chorus_ui::layout::{div_visibility, layout_children};
use chorus_ui::{Bbox, Point};

fn row(w: i32, h: i32) -> SpaceDiv {
    SpaceDivBuilder::new()
        .width(Unit::Pixels(w))
        .height(Unit::Pixels(h))
        .build()
}

fn visible_bbox(v: &ComputedVisibility) -> Bbox {
    match v {
        ComputedVisibility::Visible { bbox, .. } => *bbox,
        ComputedVisibility::Invisible => panic!("expected a visible node"),
    }
}

#[test]
fn centering_block_centers_the_run_of_siblings() {
    // Three children of widths 10, 20, 30 in a 100-wide parent: the whole
    // run is centered at offset (100 - 60) / 2 = 20.
    let divs = vec![row(10, 5), row(20, 5), row(30, 5)];
    let parent = SpaceDivBuilder::new()
        .horizontal()
        .hori_align(Alignment::Center)
        .build();
    let ids = vec![0, 1, 2];
    let bbox = Bbox::new(Point::new(0, 0), Point::new(100, 100));
    let r = layout_children(&divs, &parent, &ids, bbox);
    assert_eq!(r.len(), 3);
    assert_eq!(visible_bbox(&r[0].1).min.x, 20);
    assert_eq!(visible_bbox(&r[0].1).max.x, 30);
    assert_eq!(visible_bbox(&r[1].1).min.x, 30);
    assert_eq!(visible_bbox(&r[2].1).min.x, 50);
}

#[test]
fn max_alignment_advances_backwards() {
    let divs = vec![row(10, 5), row(20, 5)];
    let parent = SpaceDivBuilder::new()
        .horizontal()
        .hori_align(Alignment::Max)
        .build();
    let ids = vec![0, 1];
    let bbox = Bbox::new(Point::new(0, 0), Point::new(100, 100));
    let r = layout_children(&divs, &parent, &ids, bbox);
    assert_eq!(visible_bbox(&r[0].1).min.x, 90);
    assert_eq!(visible_bbox(&r[0].1).max.x, 100);
    assert_eq!(visible_bbox(&r[1].1).min.x, 70);
    assert_eq!(visible_bbox(&r[1].1).max.x, 90);
}

#[test]
fn clip_containment_culls_nonoverlapping_child() {
    // A child box entirely to the right of a clipping parent is invisible.
    let parent = SpaceDivBuilder::new()
        .hori_overflow(Overflow::Clip)
        .vert_overflow(Overflow::Clip)
        .build();
    let parent_box = Bbox::new(Point::new(0, 0), Point::new(100, 100));
    let child_box = Bbox::new(Point::new(150, 0), Point::new(160, 10));
    let v = div_visibility(
        &parent,
        Point::new(0, 0),
        Point::new(0, 0),
        parent_box,
        Point::new(0, 0),
        child_box,
    );
    assert!(matches!(v, ComputedVisibility::Invisible));
}

#[test]
fn overflowing_parent_never_culls() {
    let parent = SpaceDivBuilder::new().build();
    let parent_box = Bbox::new(Point::new(0, 0), Point::new(100, 100));
    let child_box = Bbox::new(Point::new(150, 0), Point::new(160, 10));
    let v = div_visibility(
        &parent,
        Point::new(0, 0),
        Point::new(0, 0),
        parent_box,
        Point::new(0, 0),
        child_box,
    );
    match v {
        ComputedVisibility::Visible { bbox, x, y } => {
            assert_eq!(bbox, child_box);
            assert!(matches!(x, AxisOverflowBehaviour::Overflow));
            assert!(matches!(y, AxisOverflowBehaviour::Overflow));
        }
        ComputedVisibility::Invisible => panic!("node must stay visible"),
    }
}

#[test]
fn culling_follows_the_scrolled_box() {
    // A vertical scroll container (0,40)-(800,600) scrolled down by 940.
    let parent = SpaceDivBuilder::new()
        .vertical()
        .vert_overflow(Overflow::Scroll)
        .build();
    let parent_box = Bbox::new(Point::new(0, 40), Point::new(800, 600));
    let scroll = Point::new(0, 940);
    let total = Point::new(40000, 1500);
    let max = Point::new(800, 30);

    // A row far below the unscrolled window, but scrolled into view
    // (1510..1540 shifts to 570..600): it must stay visible.
    let shown = Bbox::new(Point::new(0, 1510), Point::new(800, 1540));
    let v = div_visibility(&parent, total, max, parent_box, scroll, shown);
    match v {
        ComputedVisibility::Visible { bbox, y, .. } => {
            assert_eq!(bbox, shown);
            assert_eq!(y.scroll(), Some(940));
        }
        ComputedVisibility::Invisible => panic!("a row scrolled into view must stay visible"),
    }

    // The first row (40..70 shifts to -900..-870) leaves the window and is
    // culled.
    let gone = Bbox::new(Point::new(0, 40), Point::new(800, 70));
    let v = div_visibility(&parent, total, max, parent_box, scroll, gone);
    assert!(matches!(v, ComputedVisibility::Invisible));
}

#[test]
fn cross_axis_clip_shifts_by_that_axis_scroll() {
    // Vertical layout with a horizontal scroll policy: content 300 wide in
    // a 100-wide parent, scrolled right by 50. The horizontal clip bound
    // slides by that axis's scroll: [0, 50].
    let parent = SpaceDivBuilder::new()
        .vertical()
        .hori_overflow(Overflow::Scroll)
        .build();
    let parent_box = Bbox::new(Point::new(0, 0), Point::new(100, 100));
    let child_box = Bbox::new(Point::new(0, 0), Point::new(300, 30));
    let v = div_visibility(
        &parent,
        Point::new(300, 30),
        Point::new(300, 30),
        parent_box,
        Point::new(50, 0),
        child_box,
    );
    match v {
        ComputedVisibility::Visible { x, .. } => {
            assert_eq!(x.scroll(), Some(200));
            assert_eq!(x.min_max(), Some((0, 50)));
        }
        ComputedVisibility::Invisible => panic!("node must be visible"),
    }
}

#[test]
fn scroll_excess_reported_when_content_is_longer() {
    // Content of total length 300 along a 100-long vertical viewport.
    let parent = SpaceDivBuilder::new()
        .vertical()
        .vert_overflow(Overflow::Scroll)
        .build();
    let parent_box = Bbox::new(Point::new(0, 0), Point::new(50, 100));
    let child_box = Bbox::new(Point::new(0, 0), Point::new(50, 30));
    let v = div_visibility(
        &parent,
        Point::new(50, 300),
        Point::new(50, 30),
        parent_box,
        Point::new(0, 0),
        child_box,
    );
    match v {
        ComputedVisibility::Visible { y, .. } => {
            assert_eq!(y.scroll(), Some(200));
            assert_eq!(y.min_max(), Some((0, 30)));
        }
        ComputedVisibility::Invisible => panic!("node must be visible"),
    }
}

#[test]
fn scroll_degrades_to_clip_without_excess() {
    // Content of total length 80 along a 100-long viewport: nothing to
    // scroll, the axis clips.
    let parent = SpaceDivBuilder::new()
        .vertical()
        .vert_overflow(Overflow::Scroll)
        .build();
    let parent_box = Bbox::new(Point::new(0, 0), Point::new(50, 100));
    let child_box = Bbox::new(Point::new(0, 0), Point::new(50, 30));
    let v = div_visibility(
        &parent,
        Point::new(50, 80),
        Point::new(50, 30),
        parent_box,
        Point::new(0, 0),
        child_box,
    );
    match v {
        ComputedVisibility::Visible { y, .. } => {
            assert_eq!(y.scroll(), None);
            assert_eq!(y.min_max(), Some((0, 30)));
        }
        ComputedVisibility::Invisible => panic!("node must be visible"),
    }
}

#[test]
fn clip_bounds_are_the_intersection() {
    let parent = SpaceDivBuilder::new()
        .vertical()
        .vert_overflow(Overflow::Clip)
        .build();
    let parent_box = Bbox::new(Point::new(0, 10), Point::new(50, 100));
    let child_box = Bbox::new(Point::new(0, 0), Point::new(50, 30));
    let v = div_visibility(
        &parent,
        Point::new(50, 30),
        Point::new(50, 30),
        parent_box,
        Point::new(0, 0),
        child_box,
    );
    match v {
        ComputedVisibility::Visible { y, .. } => {
            assert_eq!(y.min_max(), Some((10, 30)));
        }
        ComputedVisibility::Invisible => panic!("node must be visible"),
    }
}

#[test]
fn empty_child_list_yields_nothing() {
    let divs: Vec<SpaceDiv> = Vec::new();
    let parent = SpaceDivBuilder::new().build();
    let ids: Vec<usize> = Vec::new();
    let bbox = Bbox::new(Point::new(0, 0), Point::new(10, 10));
    let r = layout_children(&divs, &parent, &ids, bbox);
    assert!(r.is_empty());
}
