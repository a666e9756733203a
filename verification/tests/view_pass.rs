use chorus_ui::div::{CalcExpr, Color, ComputedVisibility, Overflow, SpaceDiv, SpaceDivBuilder, Unit, WidgetId};
use chorus_ui::{Bbox, DrawCmd, Point, View};

fn viewport() -> Bbox {
    Bbox::new(Point::new(0, 0), Point::new(100, 100))
}

fn plain_row() -> SpaceDiv {
    SpaceDivBuilder::new()
        .width(Unit::Relative(1, 1))
        .height(Unit::Pixels(10))
        .build()
}

#[test]
fn cache_is_rebuilt_after_add_div() {
    let mut v = View::new(viewport());
    v.add_div(None, plain_row());
    v.add_div(None, plain_row());
    assert_eq!(v.cached_divs().len(), 0); // stale before the first draw
    v.draw();
    assert_eq!(v.cached_divs().len(), 3); // root + 2 children, all visible
    v.add_div(None, plain_row());
    assert_eq!(v.cached_divs().len(), 0); // mutation invalidates
    v.draw();
    assert_eq!(v.cached_divs().len(), 4);
}

#[test]
fn draw_twice_without_mutation_is_identical() {
    let mut v = View::new(viewport());
    v.add_div(
        None,
        SpaceDivBuilder::new()
            .width(Unit::Relative(1, 1))
            .height(Unit::Pixels(10))
            .background_color(Color::red())
            .build(),
    );
    let first = v.draw();
    let first_cache: Vec<_> = v.cached_divs();
    let second = v.draw();
    let second_cache: Vec<_> = v.cached_divs();
    assert_eq!(first, second);
    assert_eq!(first_cache, second_cache);
}

#[test]
fn set_bbox_invalidates_only_on_change() {
    let mut v = View::new(viewport());
    v.add_div(None, plain_row());
    v.draw();
    assert_eq!(v.cached_divs().len(), 2);
    v.set_bbox(viewport()); // the same box: the cache survives
    assert_eq!(v.cached_divs().len(), 2);
    v.set_bbox(Bbox::new(Point::new(0, 0), Point::new(50, 50)));
    assert_eq!(v.cached_divs().len(), 0);
}

#[test]
fn background_fill_is_scissored_to_the_parent() {
    let mut v = View::new(viewport());
    v.add_div(
        None,
        SpaceDivBuilder::new()
            .width(Unit::Pixels(30))
            .height(Unit::Pixels(20))
            .background_color(Color::white())
            .build(),
    );
    let cmds = v.draw();
    assert_eq!(cmds.len(), 1);
    assert_eq!(
        cmds[0],
        DrawCmd::FillRect {
            bbox: Bbox::new(Point::new(0, 0), Point::new(30, 20)),
            color: Color::white(),
            scissor: Some(viewport()),
        }
    );
}

#[test]
fn space_div_and_set_scroll_roundtrip() {
    let mut v = View::new(viewport());
    let id = v.add_div(None, plain_row());
    assert_eq!(v.space_div(id).scroll, Point::new(0, 0));
    v.set_scroll(id, Point::new(3, 7));
    assert_eq!(v.space_div(id).scroll, Point::new(3, 7));
    assert_eq!(v.num_divs(), 2);
}

#[test]
fn without_bbox_starts_zero_sized() {
    let v = View::without_bbox();
    assert_eq!(*v.bbox(), Bbox::new(Point::new(0, 0), Point::new(0, 0)));
}

/// The end-to-end scenario: an 800x600 viewport with a 40-pixel header and
/// a body that takes the remaining height and scrolls a list of 50 rows of
/// 30 pixels each (1500 > 560). Scrolled all the way down, the last row
/// draws with its bottom flush with the body's bottom edge.
#[test]
fn end_to_end_header_body_scroll() {
    let mut v = View::new(Bbox::new(Point::new(0, 0), Point::new(800, 600)));
    v.add_div(
        None,
        SpaceDivBuilder::new()
            .width(Unit::Relative(1, 1))
            .height(Unit::Pixels(40))
            .background_color(Color::red())
            .build(),
    );
    let body = v.add_div(
        None,
        SpaceDivBuilder::new()
            .width(Unit::Relative(1, 1))
            .height(Unit::Calc(CalcExpr::Remaining))
            .vertical()
            .vert_overflow(Overflow::Scroll)
            .build(),
    );
    let mut row_ids = Vec::new();
    for k in 0..50u32 {
        row_ids.push(v.add_div(
            Some(body),
            SpaceDivBuilder::new()
                .width(Unit::Relative(1, 1))
                .height(Unit::Pixels(30))
                .widget(WidgetId(k))
                .build(),
        ));
    }

    // Scroll the body all the way down (excess = 1500 - 560 = 940), then
    // draw: the rows that scrolling brings into the window are the cached
    // ones.
    v.set_scroll(body, Point::new(0, 940));
    let cmds = v.draw();

    // The cache holds the root, the header, the body, and the 19 rows
    // whose scrolled boxes overlap the body's box: rows 31..49. The first
    // 31 rows have scrolled out above the window and are culled.
    let cache = v.cached_divs();
    assert_eq!(cache.len(), 22);
    assert_eq!(cache[1].id.0, 1); // header
    assert_eq!(cache[2].id, body);
    assert_eq!(cache[3].id, row_ids[31]);
    assert_eq!(cache[21].id, row_ids[49]);

    // The header fills the top, the body the remaining 560 rows of pixels.
    let header_box = match cache[1].visibility {
        ComputedVisibility::Visible { bbox, .. } => bbox,
        ComputedVisibility::Invisible => panic!("header must be visible"),
    };
    assert_eq!(header_box, Bbox::new(Point::new(0, 0), Point::new(800, 40)));
    let body_box = match cache[2].visibility {
        ComputedVisibility::Visible { bbox, .. } => bbox,
        ComputedVisibility::Invisible => panic!("body must be visible"),
    };
    assert_eq!(body_box, Bbox::new(Point::new(0, 40), Point::new(800, 600)));

    // Every cached row reports the body's vertical scroll excess of 940.
    match cache[3].visibility {
        ComputedVisibility::Visible { y, .. } => assert_eq!(y.scroll(), Some(940)),
        ComputedVisibility::Invisible => panic!("first cached row must be visible"),
    }

    // One header fill, 19 row widgets, one vertical scrollbar.
    assert_eq!(cmds.len(), 21);
    assert_eq!(
        cmds[0],
        DrawCmd::FillRect {
            bbox: Bbox::new(Point::new(0, 0), Point::new(800, 40)),
            color: Color::red(),
            scissor: Some(Bbox::new(Point::new(0, 0), Point::new(800, 600))),
        }
    );
    // The first drawn row (row 31, laid out at y 970..1000) slides up by
    // 940 and pokes out above the body's top edge, so its clip window
    // starts at the body's top.
    match cmds[1] {
        DrawCmd::Widget { widget, bbox, clip } => {
            assert_eq!(widget, WidgetId(31));
            assert_eq!(bbox, Bbox::new(Point::new(0, 30), Point::new(800, 60)));
            assert_eq!(clip, Bbox::new(Point::new(0, 40), Point::new(800, 60)));
        }
        _ => panic!("expected the first cached row's widget command"),
    }
    // The last row (laid out at y 1510..1540) draws with its bottom flush
    // with the body's bottom edge.
    match cmds[19] {
        DrawCmd::Widget { widget, bbox, clip } => {
            assert_eq!(widget, WidgetId(49));
            assert_eq!(bbox, Bbox::new(Point::new(0, 570), Point::new(800, 600)));
            assert_eq!(clip, Bbox::new(Point::new(0, 570), Point::new(800, 600)));
        }
        _ => panic!("expected the last row's widget command"),
    }
    // The scrollbar slides with the current scroll offset, shrunk to the
    // minimal 8 pixels because the excess exceeds the body's height.
    assert_eq!(
        cmds[20],
        DrawCmd::FillRect {
            bbox: Bbox::new(Point::new(784, 980), Point::new(800, 988)),
            color: Color { r: 0, g: 255, b: 0, a: 102 },
            scissor: None,
        }
    );

    // Scrolled back to the top and redrawn from a fresh cache, the first
    // rows are the visible ones again.
    v.set_bbox(Bbox::new(Point::new(0, 0), Point::new(801, 600)));
    v.set_bbox(Bbox::new(Point::new(0, 0), Point::new(800, 600)));
    v.set_scroll(body, Point::new(0, 0));
    v.draw();
    let cache = v.cached_divs();
    assert_eq!(cache.len(), 22);
    assert_eq!(cache[3].id, row_ids[0]);
    assert_eq!(cache[21].id, row_ids[18]);
}

#[test]
fn one_scrollbar_per_scrolling_container() {
    // Several children sharing one scrollable parent contribute a single
    // scrollbar, keyed by the container.
    let mut v = View::new(viewport());
    let list = v.add_div(
        None,
        SpaceDivBuilder::new()
            .width(Unit::Relative(1, 1))
            .height(Unit::Relative(1, 1))
            .vertical()
            .vert_overflow(Overflow::Scroll)
            .build(),
    );
    for _ in 0..5 {
        v.add_div(Some(list), SpaceDivBuilder::new().width(Unit::Relative(1, 1)).height(Unit::Pixels(40)).build());
    }
    let cmds = v.draw();
    let bars: Vec<_> = cmds
        .iter()
        .filter(|c| {
            matches!(
                c,
                DrawCmd::FillRect { color: Color { r: 0, g: 255, b: 0, a: 102 }, .. }
            )
        })
        .collect();
    assert_eq!(bars.len(), 1);
}
