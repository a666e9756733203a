//! The children layout pass: positions and sizes of the divs inside one
//! parent bounding box, together with their per-axis overflow classification.
//!
//! This is the layout engine proper. Children are laid out in order along
//! the parent's layout direction; a running advance and the end point of the
//! previous sibling feed each next child's size resolution.

use vstd::prelude::*;

use crate::div::{
    spec_size_pixels, Alignment, AxisOverflowBehaviour, ComputedVisibility, Direction, Overflow,
    SpaceDiv,
};
use crate::geom::{
    half_i32, max_i32, min_i32, point_sat_add, point_sat_sub, sat32, sat_add_i32, sat_sub_i32,
    spec_contains_bbox, spec_normalize, spec_point_max, spec_size, tdiv, Bbox, Point, Size,
};

verus! {

/// Every child handle points into the div list.
pub open spec fn ids_in_bounds(divs: Seq<SpaceDiv>, ids: Seq<usize>) -> bool {
    forall|k: int| 0 <= k < ids.len() ==> (#[trigger] ids[k]) < divs.len()
}

/// The size a child reports in the pre-pass: resolved against the parent's
/// box with a vertical parent direction and a zero previous origin, so it
/// ignores the interplay of calc units with earlier siblings.
pub open spec fn spec_pre_size(divs: Seq<SpaceDiv>, bbox: Bbox, id: usize) -> Size {
    spec_size_pixels(divs[id as int], spec_size(bbox), Direction::Vertical, Point { x: 0, y: 0 })
}

/// The componentwise (saturating) sum of the first `n` children's pre-pass
/// sizes.
pub open spec fn spec_total_size(divs: Seq<SpaceDiv>, ids: Seq<usize>, bbox: Bbox, n: int) -> Size
    decreases n,
{
    if n <= 0 {
        Point { x: 0, y: 0 }
    } else {
        point_sat_add(
            spec_total_size(divs, ids, bbox, n - 1),
            spec_pre_size(divs, bbox, ids[n - 1]),
        )
    }
}

/// The componentwise maximum of the first `n` children's pre-pass sizes
/// (and zero), i.e. the widest and tallest child per axis.
pub open spec fn spec_max_size(divs: Seq<SpaceDiv>, ids: Seq<usize>, bbox: Bbox, n: int) -> Size
    decreases n,
{
    if n <= 0 {
        Point { x: 0, y: 0 }
    } else {
        spec_point_max(
            spec_max_size(divs, ids, bbox, n - 1),
            spec_pre_size(divs, bbox, ids[n - 1]),
        )
    }
}

/// Classification of one axis of a child box against the parent box.
///
/// * `Clip` policy bounds the child to the intersection of the two ranges.
/// * `Scroll` policy computes the scrollable excess (content length beyond
///   the parent's length); with no excess it degrades to `Clip`, otherwise
///   the clip bounds slide under the parent's current scroll offset but
///   never past the parent's own range.
/// * `Overflow` policy leaves the child unbounded.
pub open spec fn spec_axis_behaviour(
    overflow: Overflow,
    bbox_min: i32,
    bbox_max: i32,
    parent_min: i32,
    parent_max: i32,
    content_len: i32,
    clip_parent_scroll: i32,
) -> AxisOverflowBehaviour {
    let min_val = if bbox_min >= parent_min {
        bbox_min
    } else {
        parent_min
    };
    let max_val = if bbox_max <= parent_max {
        bbox_max
    } else {
        parent_max
    };
    match overflow {
        Overflow::Clip => AxisOverflowBehaviour::Clip { min: min_val, max: max_val },
        Overflow::Scroll => {
            let len = sat32(parent_max - parent_min);
            let excess = sat32(content_len - len);
            let scroll = if excess >= 0 {
                excess
            } else {
                0
            };
            if scroll > 0 {
                let smin = sat32(min_val - clip_parent_scroll);
                let smax = sat32(max_val - clip_parent_scroll);
                AxisOverflowBehaviour::Scroll {
                    min: (if smin >= parent_min as int {
                        smin
                    } else {
                        parent_min as int
                    }) as i32,
                    max: (if smax <= parent_max as int {
                        smax
                    } else {
                        parent_max as int
                    }) as i32,
                    scroll: scroll as i32,
                }
            } else {
                AxisOverflowBehaviour::Clip { min: min_val, max: max_val }
            }
        },
        Overflow::Overflow => AxisOverflowBehaviour::Overflow,
    }
}

/// The child box as it stands on screen under the parent's current scroll
/// offset: shifted by `-scroll` per component (saturating).
pub open spec fn spec_scrolled_bbox(div_bbox: Bbox, scroll: Point) -> Bbox {
    Bbox { min: point_sat_sub(div_bbox.min, scroll), max: point_sat_sub(div_bbox.max, scroll) }
}

/// Whole-node visibility of a child box laid out inside `bbox`.
///
/// If either axis policy is not pure `Overflow` and the child box, shifted
/// by the parent's current scroll offset, does not overlap the parent box
/// at all, the node (and its whole subtree) is culled — so content that
/// scrolling brings into the window stays visible. Otherwise each axis is
/// classified on its own; the content length on an axis is the children's
/// total size if that axis is the layout direction, else the largest child
/// size, and the clip bounds slide under the parent's scroll offset on
/// that axis.
pub open spec fn spec_div_visibility(
    parent: SpaceDiv,
    total_size: Size,
    max_size: Size,
    bbox: Bbox,
    scroll: Point,
    div_bbox: Bbox,
) -> ComputedVisibility {
    if (parent.hori_overflow != Overflow::Overflow || parent.vert_overflow != Overflow::Overflow)
        && !spec_contains_bbox(bbox, spec_scrolled_bbox(div_bbox, scroll)) {
        ComputedVisibility::Invisible
    } else {
        let x = spec_axis_behaviour(
            parent.hori_overflow,
            div_bbox.min.x,
            div_bbox.max.x,
            bbox.min.x,
            bbox.max.x,
            match parent.layout_dir {
                Direction::Horizontal => total_size.x,
                Direction::Vertical => max_size.x,
            },
            scroll.x,
        );
        let y = spec_axis_behaviour(
            parent.vert_overflow,
            div_bbox.min.y,
            div_bbox.max.y,
            bbox.min.y,
            bbox.max.y,
            match parent.layout_dir {
                Direction::Horizontal => max_size.y,
                Direction::Vertical => total_size.y,
            },
            scroll.y,
        );
        ComputedVisibility::Visible { bbox: div_bbox, x, y }
    }
}

/// One step of the layout pass: given the running state (`prev_end`, the
/// end point of the previous sibling, and `cur`, the signed advance along
/// the layout direction), the box of child `k` and the state for the next
/// sibling.
pub open spec fn spec_layout_step(
    divs: Seq<SpaceDiv>,
    parent: SpaceDiv,
    ids: Seq<usize>,
    bbox: Bbox,
    prev_end: Point,
    cur: int,
    k: int,
) -> (Bbox, Point, int) {
    let bsz = spec_size(bbox);
    let total = spec_total_size(divs, ids, bbox, ids.len() as int);
    let size = spec_size_pixels(divs[ids[k] as int], bsz, parent.layout_dir, prev_end);
    let offset_x = match parent.hori_align {
        Alignment::Min => 0int,
        Alignment::Max => sat32(bsz.x - size.x),
        Alignment::Center => match parent.layout_dir {
            Direction::Horizontal => sat32(tdiv(bsz.x as int, 2) - tdiv(total.x as int, 2)),
            Direction::Vertical => sat32(tdiv(bsz.x as int, 2) - tdiv(size.x as int, 2)),
        },
    };
    let offset_y = match parent.vert_align {
        Alignment::Min => 0int,
        Alignment::Max => sat32(bsz.y - size.y),
        Alignment::Center => match parent.layout_dir {
            Direction::Horizontal => sat32(tdiv(bsz.y as int, 2) - tdiv(size.y as int, 2)),
            Direction::Vertical => sat32(tdiv(bsz.y as int, 2) - tdiv(total.y as int, 2)),
        },
    };
    let origin = match parent.layout_dir {
        Direction::Horizontal => Point {
            x: sat32(sat32(bbox.min.x + cur) + offset_x) as i32,
            y: sat32(bbox.min.y + offset_y) as i32,
        },
        Direction::Vertical => Point {
            x: sat32(bbox.min.x + offset_x) as i32,
            y: sat32(sat32(bbox.min.y + cur) + offset_y) as i32,
        },
    };
    let new_prev_end = point_sat_add(origin, size);
    let child_bbox = spec_normalize(Bbox { min: origin, max: point_sat_add(origin, size) });
    let new_cur = match parent.layout_dir {
        Direction::Horizontal => if parent.hori_align is Max {
            sat32(cur - size.x)
        } else {
            sat32(cur + size.x)
        },
        Direction::Vertical => if parent.vert_align is Max {
            sat32(cur - size.y)
        } else {
            sat32(cur + size.y)
        },
    };
    (child_bbox, new_prev_end, new_cur)
}

/// The running layout state before child `i`: the end point of the previous
/// sibling and the signed advance along the layout direction.
pub open spec fn spec_layout_state(
    divs: Seq<SpaceDiv>,
    parent: SpaceDiv,
    ids: Seq<usize>,
    bbox: Bbox,
    i: int,
) -> (Point, int)
    decreases i,
{
    if i <= 0 {
        (Point { x: 0, y: 0 }, 0int)
    } else {
        let prev = spec_layout_state(divs, parent, ids, bbox, i - 1);
        let step = spec_layout_step(divs, parent, ids, bbox, prev.0, prev.1, i - 1);
        (step.1, step.2)
    }
}

/// The computed bounding box of child `k`.
pub open spec fn spec_child_bbox(
    divs: Seq<SpaceDiv>,
    parent: SpaceDiv,
    ids: Seq<usize>,
    bbox: Bbox,
    k: int,
) -> Bbox {
    let st = spec_layout_state(divs, parent, ids, bbox, k);
    spec_layout_step(divs, parent, ids, bbox, st.0, st.1, k).0
}

/// The computed visibility of child `k`.
pub open spec fn spec_child_vis(
    divs: Seq<SpaceDiv>,
    parent: SpaceDiv,
    ids: Seq<usize>,
    bbox: Bbox,
    k: int,
) -> ComputedVisibility {
    spec_div_visibility(
        parent,
        spec_total_size(divs, ids, bbox, ids.len() as int),
        spec_max_size(divs, ids, bbox, ids.len() as int),
        bbox,
        parent.scroll,
        spec_child_bbox(divs, parent, ids, bbox, k),
    )
}

/// Scroll excess: on an axis with `Scroll` policy, when the content length
/// exceeds the parent's length the axis is classified scrollable and the
/// reported excess is exactly the difference; otherwise the axis degrades
/// to hard clipping at the intersection of the child and parent ranges.
pub proof fn lemma_scroll_excess(
    bbox_min: i32,
    bbox_max: i32,
    parent_min: i32,
    parent_max: i32,
    content_len: i32,
    clip_parent_scroll: i32,
)
    ensures
        ({
            let r = spec_axis_behaviour(
                Overflow::Scroll,
                bbox_min,
                bbox_max,
                parent_min,
                parent_max,
                content_len,
                clip_parent_scroll,
            );
            let excess = sat32(content_len - sat32(parent_max - parent_min));
            &&& excess > 0 ==> (r matches AxisOverflowBehaviour::Scroll { scroll, .. }
                && scroll == excess)
            &&& excess <= 0 ==> r == (AxisOverflowBehaviour::Clip {
                min: (if bbox_min >= parent_min {
                    bbox_min
                } else {
                    parent_min
                }),
                max: (if bbox_max <= parent_max {
                    bbox_max
                } else {
                    parent_max
                }),
            })
        }),
{
}

/// Coarse culling: when at least one axis policy is not pure `Overflow`
/// and the child box — as the parent's current scroll places it on screen —
/// does not overlap the parent box at all, the node is classified
/// invisible and its whole subtree is skipped by the draw pass. Conversely,
/// a node whose scrolled box still overlaps the parent is never culled.
pub proof fn lemma_cull_outside(
    parent: SpaceDiv,
    total_size: Size,
    max_size: Size,
    bbox: Bbox,
    scroll: Point,
    div_bbox: Bbox,
)
    requires
        parent.hori_overflow != Overflow::Overflow || parent.vert_overflow != Overflow::Overflow,
    ensures
        !spec_contains_bbox(bbox, spec_scrolled_bbox(div_bbox, scroll))
            <==> spec_div_visibility(parent, total_size, max_size, bbox, scroll, div_bbox)
            == ComputedVisibility::Invisible,
{
}

/// Classify one axis of a child box (see `spec_axis_behaviour`).
fn axis_behaviour(
    overflow: Overflow,
    bbox_min: i32,
    bbox_max: i32,
    parent_min: i32,
    parent_max: i32,
    content_len: i32,
    clip_parent_scroll: i32,
) -> (r: AxisOverflowBehaviour)
    ensures
        r == spec_axis_behaviour(
            overflow,
            bbox_min,
            bbox_max,
            parent_min,
            parent_max,
            content_len,
            clip_parent_scroll,
        ),
{
    let min_val = max_i32(bbox_min, parent_min);
    let max_val = min_i32(bbox_max, parent_max);
    match overflow {
        Overflow::Clip => AxisOverflowBehaviour::Clip { min: min_val, max: max_val },
        Overflow::Scroll => {
            let len = sat_sub_i32(parent_max, parent_min);
            let scroll = max_i32(sat_sub_i32(content_len, len), 0);
            if scroll > 0 {
                AxisOverflowBehaviour::Scroll {
                    min: max_i32(sat_sub_i32(min_val, clip_parent_scroll), parent_min),
                    max: min_i32(sat_sub_i32(max_val, clip_parent_scroll), parent_max),
                    scroll,
                }
            } else {
                AxisOverflowBehaviour::Clip { min: min_val, max: max_val }
            }
        },
        Overflow::Overflow => AxisOverflowBehaviour::Overflow,
    }
}

/// Compute visibility, overflow and scroll information for a child box.
pub fn div_visibility(
    parent: &SpaceDiv,
    total_size: Size,
    max_size: Size,
    bbox: Bbox,
    scroll: Point,
    div_bbox: Bbox,
) -> (r: ComputedVisibility)
    ensures
        r == spec_div_visibility(*parent, total_size, max_size, bbox, scroll, div_bbox),
{
    let scrolled = Bbox { min: div_bbox.min.sat_sub(scroll), max: div_bbox.max.sat_sub(scroll) };
    if (!matches!(parent.hori_overflow, Overflow::Overflow) || !matches!(
        parent.vert_overflow,
        Overflow::Overflow,
    )) && !bbox.contains_bbox(scrolled) {
        return ComputedVisibility::Invisible;
    }
    let x = axis_behaviour(
        parent.hori_overflow,
        div_bbox.min.x,
        div_bbox.max.x,
        bbox.min.x,
        bbox.max.x,
        match parent.layout_dir {
            Direction::Horizontal => total_size.x,
            Direction::Vertical => max_size.x,
        },
        scroll.x,
    );
    let y = axis_behaviour(
        parent.vert_overflow,
        div_bbox.min.y,
        div_bbox.max.y,
        bbox.min.y,
        bbox.max.y,
        match parent.layout_dir {
            Direction::Horizontal => max_size.y,
            Direction::Vertical => total_size.y,
        },
        scroll.y,
    );
    ComputedVisibility::Visible { bbox: div_bbox, x, y }
}

/// Lay out all children of one parent: for each child handle, its computed
/// bounding box and visibility, in order.
pub fn layout_children(
    divs: &Vec<SpaceDiv>,
    parent: &SpaceDiv,
    ids: &Vec<usize>,
    bbox: Bbox,
) -> (r: Vec<(usize, ComputedVisibility)>)
    requires
        ids_in_bounds(divs@, ids@),
    ensures
        r@.len() == ids@.len(),
        forall|k: int|
            0 <= k < ids@.len() ==> (#[trigger] r@[k]).0 == ids@[k] && r@[k].1 == spec_child_vis(
                divs@,
                *parent,
                ids@,
                bbox,
                k,
            ),
{
    let bsz = bbox.size();
    let n = ids.len();

    // Pre-pass: the total and the largest child size per axis.
    let mut total_size = Point::new(0, 0);
    let mut max_size = Point::new(0, 0);
    let mut k: usize = 0;
    while k < n
        invariant
            ids_in_bounds(divs@, ids@),
            n == ids@.len(),
            bsz == spec_size(bbox),
            0 <= k <= n,
            total_size == spec_total_size(divs@, ids@, bbox, k as int),
            max_size == spec_max_size(divs@, ids@, bbox, k as int),
        decreases n - k,
    {
        let id = ids[k];
        let div_size = divs[id].size_pixels(bsz, Direction::Vertical, Point::new(0, 0));
        total_size = total_size.sat_add(div_size);
        max_size = crate::geom::point_max(max_size, div_size);
        k += 1;
    }

    // Main pass: place each child and classify it.
    let mut out: Vec<(usize, ComputedVisibility)> = Vec::new();
    let mut prev_end = Point::new(0, 0);
    let mut cur: i32 = 0;
    let mut k: usize = 0;
    while k < n
        invariant
            ids_in_bounds(divs@, ids@),
            n == ids@.len(),
            bsz == spec_size(bbox),
            total_size == spec_total_size(divs@, ids@, bbox, n as int),
            max_size == spec_max_size(divs@, ids@, bbox, n as int),
            0 <= k <= n,
            out@.len() == k,
            (prev_end, cur as int) == spec_layout_state(divs@, *parent, ids@, bbox, k as int),
            forall|j: int|
                0 <= j < k ==> (#[trigger] out@[j]).0 == ids@[j] && out@[j].1 == spec_child_vis(
                    divs@,
                    *parent,
                    ids@,
                    bbox,
                    j,
                ),
        decreases n - k,
    {
        let ghost step = spec_layout_step(divs@, *parent, ids@, bbox, prev_end, cur as int, k as int);
        let id = ids[k];
        let div = &divs[id];
        let size = div.size_pixels(bsz, parent.layout_dir, prev_end);

        // Offset coordinates from the parent's top-left corner.
        let offset_x = match parent.hori_align {
            Alignment::Min => 0,
            Alignment::Max => sat_sub_i32(bsz.x, size.x),
            Alignment::Center => match parent.layout_dir {
                Direction::Horizontal => sat_sub_i32(half_i32(bsz.x), half_i32(total_size.x)),
                Direction::Vertical => sat_sub_i32(half_i32(bsz.x), half_i32(size.x)),
            },
        };
        let offset_y = match parent.vert_align {
            Alignment::Min => 0,
            Alignment::Max => sat_sub_i32(bsz.y, size.y),
            Alignment::Center => match parent.layout_dir {
                Direction::Horizontal => sat_sub_i32(half_i32(bsz.y), half_i32(size.y)),
                Direction::Vertical => sat_sub_i32(half_i32(bsz.y), half_i32(total_size.y)),
            },
        };

        let origin = match parent.layout_dir {
            Direction::Horizontal => Point::new(
                sat_add_i32(sat_add_i32(bbox.min.x, cur), offset_x),
                sat_add_i32(bbox.min.y, offset_y),
            ),
            Direction::Vertical => Point::new(
                sat_add_i32(bbox.min.x, offset_x),
                sat_add_i32(sat_add_i32(bbox.min.y, cur), offset_y),
            ),
        };
        prev_end = origin.sat_add(size);

        let div_bbox = Bbox::with_size(origin, size);
        let visibility = div_visibility(parent, total_size, max_size, bbox, parent.scroll, div_bbox);
        proof {
            assert(div_bbox == step.0);
            assert(prev_end == step.1);
        }

        // Advance along the layout direction, reversed for `Max` alignment.
        let advance = match parent.layout_dir {
            Direction::Horizontal => size.x,
            Direction::Vertical => size.y,
        };
        let backwards = match parent.layout_dir {
            Direction::Horizontal => matches!(parent.hori_align, Alignment::Max),
            Direction::Vertical => matches!(parent.vert_align, Alignment::Max),
        };
        if backwards {
            cur = sat_sub_i32(cur, advance);
        } else {
            cur = sat_add_i32(cur, advance);
        }
        proof {
            assert(cur as int == step.2);
        }

        out.push((id, visibility));
        k += 1;
    }
    out
}

} // verus!
