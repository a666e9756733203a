//! The view: owner of the div tree, the visibility cache, and the draw pass.
//!
//! The tree is an arena: nodes live in a vector and are addressed by stable
//! integer handles. A node's children are kept in insertion order, which is
//! also the layout and paint order. Handles of children are always greater
//! than the handle of their parent, because a node is appended to the arena
//! when it is inserted under an existing parent; the recursive passes lean
//! on that for termination.
//!
//! Drawing is split from rendering: `draw` returns the ordered list of draw
//! commands for one frame, and the caller renders them however it likes.

use vstd::prelude::*;
use vstd::view::View as _;

use crate::div::{
    spec_div_default, Alignment, AxisOverflowBehaviour, Color, ComputedVisibility, Direction,
    Overflow, SpaceDiv, SpaceDivBuilder, WidgetId,
};
use crate::geom::{
    max_i32, min_i32, point_sat_add, sat32, sat_add_i32, sat_sub_i32, spec_normalize, spec_size,
    Bbox, Point,
};
use crate::layout::{layout_children, spec_child_vis};

verus! {

/// A stable handle to a div in a `View`'s tree.
#[derive(Clone, Copy, PartialEq, Eq, Structural, Debug)]
pub struct NodeId(pub usize);

/// One record of the visibility cache: a node found visible by the layout
/// pass, in depth-first pre-order, together with the handle and computed
/// box of its parent (`None` for the root).
#[derive(Clone, Copy, PartialEq, Eq, Debug)]
pub struct CachedDiv {
    pub id: NodeId,
    pub visibility: ComputedVisibility,
    pub parent: Option<(NodeId, Bbox)>,
}

/// One drawing operation of a frame, to be rendered by the caller in order.
#[derive(Clone, Copy, PartialEq, Eq, Debug)]
pub enum DrawCmd {
    /// Fill `bbox` with `color`, restricted to the `scissor` box when one
    /// is given.
    FillRect { bbox: Bbox, color: Color, scissor: Option<Bbox> },
    /// Update the widget's state, then draw it. `bbox` is the box the div
    /// would ideally occupy; the widget must not paint outside `clip`.
    Widget { widget: WidgetId, bbox: Bbox, clip: Bbox },
}

/// The tree invariant: one node per child list, at least the root, and
/// every child handle points past its parent into the arena.
pub open spec fn tree_wf(divs: Seq<SpaceDiv>, children: Seq<Seq<usize>>) -> bool {
    &&& divs.len() == children.len()
    &&& divs.len() >= 1
    &&& forall|i: int, k: int|
        0 <= i < children.len() && 0 <= k < children[i].len() ==> i < #[trigger] children[i][k]
            && (children[i][k] as int) < divs.len()
}

/// Every cache record points into the arena.
pub open spec fn cache_entries_bounded(cache: Seq<CachedDiv>, n: int) -> bool {
    forall|j: int|
        0 <= j < cache.len() ==> (#[trigger] cache[j]).id.0 < n && (match cache[j].parent {
            Some(p) => p.0.0 < n,
            None => true,
        })
}

/// A view: the div tree, the current viewport box, the visibility cache,
/// and the scrollbar boxes accumulated during the last draw.
pub struct View {
    bbox: Bbox,
    divs: Vec<SpaceDiv>,
    children: Vec<Vec<usize>>,
    cache: Option<Vec<CachedDiv>>,
    pending_hori_scrollbars: Vec<(usize, Bbox)>,
    pending_vert_scrollbars: Vec<(usize, Bbox)>,
}

impl View {
    /// The current viewport box.
    pub closed spec fn spec_bbox(&self) -> Bbox {
        self.bbox
    }

    /// The divs of the tree, indexed by handle.
    pub closed spec fn divs_seq(&self) -> Seq<SpaceDiv> {
        self.divs@
    }

    /// The child handles of each node, in insertion (= paint) order.
    pub closed spec fn kids(&self) -> Seq<Seq<usize>> {
        self.children@.map_values(|v: Vec<usize>| v@)
    }

    /// The visibility cache: `None` while stale.
    pub closed spec fn cache_seq(&self) -> Option<Seq<CachedDiv>> {
        match self.cache {
            Some(c) => Some(c@),
            None => None,
        }
    }

    /// The horizontal scrollbar boxes of the last draw, keyed by the handle
    /// of the scrolling container.
    pub closed spec fn hbars_seq(&self) -> Seq<(usize, Bbox)> {
        self.pending_hori_scrollbars@
    }

    /// The vertical scrollbar boxes of the last draw.
    pub closed spec fn vbars_seq(&self) -> Seq<(usize, Bbox)> {
        self.pending_vert_scrollbars@
    }

    /// Well-formedness: the tree invariant, and a cache (when present)
    /// whose records point into the arena.
    pub closed spec fn wf(&self) -> bool {
        &&& tree_wf(self.divs_seq(), self.kids())
        &&& match self.cache_seq() {
            Some(c) => cache_entries_bounded(c, self.divs_seq().len() as int),
            None => true,
        }
    }

    /// Create a view with the given viewport box and an empty tree: just
    /// the root div, which fills the viewport and stacks vertically.
    pub fn new(bbox: Bbox) -> (r: View)
        ensures
            r.wf(),
            r.spec_bbox() == bbox,
            r.divs_seq() =~= seq![spec_root_div()],
            r.kids() =~= seq![Seq::<usize>::empty()],
            r.cache_seq() is None,
            r.hbars_seq() =~= Seq::<(usize, Bbox)>::empty(),
            r.vbars_seq() =~= Seq::<(usize, Bbox)>::empty(),
    {
        let root = SpaceDiv::full().vertical().vert_align(Alignment::Min).build();
        let mut divs: Vec<SpaceDiv> = Vec::new();
        divs.push(root);
        let mut children: Vec<Vec<usize>> = Vec::new();
        children.push(Vec::new());
        View {
            bbox,
            divs,
            children,
            cache: None,
            pending_hori_scrollbars: Vec::new(),
            pending_vert_scrollbars: Vec::new(),
        }
    }

    /// Create a view with a zero-sized viewport box.
    pub fn without_bbox() -> (r: View)
        ensures
            r.wf(),
            r.spec_bbox() == (Bbox { min: Point { x: 0, y: 0 }, max: Point { x: 0, y: 0 } }),
            r.divs_seq() =~= seq![spec_root_div()],
            r.kids() =~= seq![Seq::<usize>::empty()],
            r.cache_seq() is None,
            r.hbars_seq() =~= Seq::<(usize, Bbox)>::empty(),
            r.vbars_seq() =~= Seq::<(usize, Bbox)>::empty(),
    {
        let zero = Point::new(0, 0);
        View::new(Bbox::new(zero, zero))
    }

    /// The number of divs in the tree, the root included.
    pub fn num_divs(&self) -> (r: usize)
        ensures
            r == self.divs_seq().len(),
    {
        self.divs.len()
    }

    /// Insert a div as the last child of `parent` (of the root when
    /// `parent` is `None`) and return its handle. Invalidates the
    /// visibility cache.
    pub fn add_div(&mut self, parent: Option<NodeId>, div: SpaceDiv) -> (id: NodeId)
        requires
            old(self).wf(),
            match parent {
                Some(p) => p.0 < old(self).divs_seq().len(),
                None => true,
            },
        ensures
            final(self).wf(),
            id.0 == old(self).divs_seq().len(),
            final(self).divs_seq() =~= old(self).divs_seq().push(div),
            final(self).kids() =~= old(self).kids().push(Seq::<usize>::empty()).update(
                spec_parent_index(parent),
                old(self).kids()[spec_parent_index(parent)].push(id.0),
            ),
            final(self).cache_seq() is None,
            final(self).spec_bbox() == old(self).spec_bbox(),
            final(self).hbars_seq() == old(self).hbars_seq(),
            final(self).vbars_seq() == old(self).vbars_seq(),
    {
        let id = self.divs.len();
        let p = match parent {
            Some(p) => p.0,
            None => 0,
        };
        self.divs.push(div);
        self.children.push(Vec::new());
        self.children[p].push(id);
        self.cache = None;
        proof {
            let oldk = old(self).kids();
            let newk = self.kids();
            let newd = self.divs_seq();
            assert(newk =~= oldk.push(Seq::<usize>::empty()).update(
                p as int,
                oldk[p as int].push(id),
            ));
            assert forall|i: int, k: int|
                0 <= i < newk.len() && 0 <= k < newk[i].len() implies i < #[trigger] newk[i][k]
                && (newk[i][k] as int) < newd.len() by {
                if i == p as int {
                    if k < oldk[i].len() {
                        assert(i < oldk[i][k] && (oldk[i][k] as int) < old(self).divs_seq().len());
                    } else {
                        assert(newk[i][k] == id);
                    }
                } else if i < oldk.len() {
                    assert(newk[i] == oldk[i]);
                    assert(i < oldk[i][k] && (oldk[i][k] as int) < old(self).divs_seq().len());
                }
            }
        }
        NodeId(id)
    }

    /// The current viewport box.
    pub fn bbox(&self) -> (r: &Bbox)
        ensures
            *r == self.spec_bbox(),
    {
        &self.bbox
    }

    /// Change the viewport box. Invalidates the visibility cache only if
    /// the box actually changed.
    pub fn set_bbox(&mut self, bbox: Bbox)
        requires
            old(self).wf(),
        ensures
            final(self).wf(),
            final(self).spec_bbox() == bbox,
            final(self).divs_seq() == old(self).divs_seq(),
            final(self).kids() == old(self).kids(),
            final(self).cache_seq() == if bbox == old(self).spec_bbox() {
                old(self).cache_seq()
            } else {
                None::<Seq<CachedDiv>>
            },
            final(self).hbars_seq() == old(self).hbars_seq(),
            final(self).vbars_seq() == old(self).vbars_seq(),
    {
        if !(bbox == self.bbox) {
            self.cache = None;
        }
        self.bbox = bbox;
    }

    /// The div behind a handle.
    pub fn space_div(&self, id: NodeId) -> (r: &SpaceDiv)
        requires
            id.0 < self.divs_seq().len(),
        ensures
            *r == self.divs_seq()[id.0 as int],
    {
        &self.divs[id.0]
    }

    /// Set a div's scroll offset. The caller is expected to keep it within
    /// `[0, excess]` per axis, with the excess reported by the axis
    /// behaviour of the last draw. Does not invalidate the cache: scroll is
    /// applied as a draw-time transform.
    pub fn set_scroll(&mut self, id: NodeId, scroll: Point)
        requires
            old(self).wf(),
            id.0 < old(self).divs_seq().len(),
        ensures
            final(self).wf(),
            final(self).divs_seq() =~= old(self).divs_seq().update(
                id.0 as int,
                (SpaceDiv { scroll, ..old(self).divs_seq()[id.0 as int] }),
            ),
            final(self).kids() == old(self).kids(),
            final(self).spec_bbox() == old(self).spec_bbox(),
            final(self).cache_seq() == old(self).cache_seq(),
            final(self).hbars_seq() == old(self).hbars_seq(),
            final(self).vbars_seq() == old(self).vbars_seq(),
    {
        self.divs[id.0].scroll = scroll;
    }
}

impl View {
    /// Visit `id` and its subtree in depth-first pre-order, appending one
    /// record per visible node to `out`. Children are laid out inside the
    /// visited node's own computed box; invisible nodes are skipped with
    /// their whole subtree.
    fn visit_divs(
        &self,
        id: usize,
        visibility: ComputedVisibility,
        parent: Option<(NodeId, Bbox)>,
        out: &mut Vec<CachedDiv>,
    )
        requires
            tree_wf(self.divs_seq(), self.kids()),
            id < self.divs_seq().len(),
            match parent {
                Some(p) => p.0.0 < self.divs_seq().len(),
                None => true,
            },
            cache_entries_bounded(old(out)@, self.divs_seq().len() as int),
        ensures
            final(out)@ == old(out)@ + spec_visit(
                self.divs_seq(),
                self.kids(),
                id as int,
                visibility,
                parent,
            ),
            cache_entries_bounded(final(out)@, self.divs_seq().len() as int),
        decreases self.divs_seq().len() - id,
    {
        match visibility {
            ComputedVisibility::Invisible => {},
            ComputedVisibility::Visible { bbox, x, y } => {
                out.push(CachedDiv { id: NodeId(id), visibility, parent });
                proof {
                    assert(self.kids()[id as int] == self.children@[id as int]@);
                }
                let pairs = layout_children(&self.divs, &self.divs[id], &self.children[id], bbox);
                let n = pairs.len();
                let mut k: usize = 0;
                while k < n
                    invariant
                        tree_wf(self.divs_seq(), self.kids()),
                        id < self.divs_seq().len(),
                        n == self.kids()[id as int].len(),
                        pairs@.len() == n,
                        forall|j: int|
                            0 <= j < n ==> (#[trigger] pairs@[j]).0 == self.kids()[id as int][j]
                                && pairs@[j].1 == spec_child_vis(
                                self.divs_seq(),
                                self.divs_seq()[id as int],
                                self.kids()[id as int],
                                bbox,
                                j,
                            ),
                        0 <= k <= n,
                        out@ + spec_visit_children(
                            self.divs_seq(),
                            self.kids(),
                            id as int,
                            bbox,
                            k as int,
                        ) == old(out)@ + spec_visit(
                            self.divs_seq(),
                            self.kids(),
                            id as int,
                            visibility,
                            parent,
                        ),
                        cache_entries_bounded(out@, self.divs_seq().len() as int),
                    decreases n - k,
                {
                    let (cid, vis) = pairs[k];
                    self.visit_divs(cid, vis, Some((NodeId(id), bbox)), out);
                    k += 1;
                }
            },
        }
    }

    /// Rebuild the visibility cache if it is stale; keep it if it is valid.
    fn ensure_cache(&mut self)
        requires
            old(self).wf(),
        ensures
            final(self).wf(),
            final(self).divs_seq() == old(self).divs_seq(),
            final(self).kids() == old(self).kids(),
            final(self).spec_bbox() == old(self).spec_bbox(),
            final(self).hbars_seq() == old(self).hbars_seq(),
            final(self).vbars_seq() == old(self).vbars_seq(),
            final(self).cache_seq() == Some(
                spec_effective_cache(
                    old(self).divs_seq(),
                    old(self).kids(),
                    old(self).spec_bbox(),
                    old(self).cache_seq(),
                ),
            ),
    {
        let stale = self.cache.is_none();
        if stale {
            let mut vec: Vec<CachedDiv> = Vec::new();
            let bbox = self.bbox;
            self.visit_divs(
                0,
                ComputedVisibility::Visible {
                    bbox,
                    x: AxisOverflowBehaviour::Overflow,
                    y: AxisOverflowBehaviour::Overflow,
                },
                None,
                &mut vec,
            );
            self.cache = Some(vec);
        }
    }

    /// Apply the parent's current scroll to one cached node (see
    /// `spec_handle_div_scroll`).
    fn handle_div_scroll(
        &self,
        db: Bbox,
        x: AxisOverflowBehaviour,
        y: AxisOverflowBehaviour,
        parent: Option<(NodeId, Bbox)>,
    ) -> (r: (Bbox, Bbox, Option<(usize, Bbox)>, Option<(usize, Bbox)>))
        requires
            match parent {
                Some(p) => p.0.0 < self.divs_seq().len(),
                None => true,
            },
        ensures
            r == spec_handle_div_scroll(self.divs_seq(), db, x, y, parent),
    {
        match parent {
            None => (db.normalize(), db.normalize(), None, None),
            Some((pid, pb)) => {
                let scroll = self.divs[pid.0].scroll;
                let mut bb = db;
                let mut clip = db;
                if x.scroll().is_some() {
                    bb.min.x = sat_sub_i32(bb.min.x, scroll.x);
                    bb.max.x = sat_sub_i32(bb.max.x, scroll.x);
                    clip.min.x = max_i32(sat_sub_i32(clip.min.x, scroll.x), pb.min.x);
                    clip.max.x = min_i32(sat_sub_i32(clip.max.x, scroll.x), pb.max.x);
                } else if let Some((mn, mx)) = x.min_max() {
                    clip.min.x = mn;
                    clip.max.x = mx;
                }
                if y.scroll().is_some() {
                    bb.min.y = sat_sub_i32(bb.min.y, scroll.y);
                    bb.max.y = sat_sub_i32(bb.max.y, scroll.y);
                    clip.min.y = max_i32(sat_sub_i32(clip.min.y, scroll.y), pb.min.y);
                    clip.max.y = min_i32(sat_sub_i32(clip.max.y, scroll.y), pb.max.y);
                } else if let Some((mn, mx)) = y.min_max() {
                    clip.min.y = mn;
                    clip.max.y = mx;
                }
                let hbar = match x.scroll() {
                    Some(sx) => {
                        let height: i32 = 16;
                        let width = max_i32(sat_sub_i32(pb.size().x, sx), 8);
                        let origin = Point::new(
                            sat_add_i32(pb.min.x, scroll.x),
                            sat_sub_i32(pb.max.y, height),
                        );
                        Some((pid.0, Bbox::with_size(origin, Point::new(width, height))))
                    },
                    None => None,
                };
                let vbar = match y.scroll() {
                    Some(sy) => {
                        let width: i32 = 16;
                        let height = max_i32(sat_sub_i32(pb.size().y, sy), 8);
                        let origin = Point::new(
                            sat_sub_i32(pb.max.x, width),
                            sat_add_i32(pb.min.y, scroll.y),
                        );
                        Some((pid.0, Bbox::with_size(origin, Point::new(width, height))))
                    },
                    None => None,
                };
                (bb.normalize(), clip.normalize(), hbar, vbar)
            },
        }
    }

    /// Emit the draw commands of one cached node and report its scrollbar
    /// entries (see `spec_draw_div`).
    fn draw_div(&self, cd: CachedDiv, out: &mut Vec<DrawCmd>) -> (bars: (
        Option<(usize, Bbox)>,
        Option<(usize, Bbox)>,
    ))
        requires
            cd.id.0 < self.divs_seq().len(),
            match cd.parent {
                Some(p) => p.0.0 < self.divs_seq().len(),
                None => true,
            },
        ensures
            final(out)@ == old(out)@ + spec_draw_div(self.divs_seq(), cd).0,
            bars.0 == spec_draw_div(self.divs_seq(), cd).1,
            bars.1 == spec_draw_div(self.divs_seq(), cd).2,
    {
        let (bbox, x, y) = match cd.visibility {
            ComputedVisibility::Invisible => {
                proof {
                    assert(out@ =~= out@ + spec_draw_div(self.divs_seq(), cd).0);
                }
                return (None, None);
            },
            ComputedVisibility::Visible { bbox, x, y } => (bbox, x, y),
        };
        let h = self.handle_div_scroll(bbox, x, y, cd.parent);
        let div = &self.divs[cd.id.0];
        if let Some(color) = div.background_color {
            let scissor = match cd.parent {
                Some(p) => Some(p.1),
                None => None,
            };
            out.push(DrawCmd::FillRect { bbox: h.1, color, scissor });
        }
        if let Some(w) = div.widget {
            out.push(DrawCmd::Widget { widget: w, bbox: h.0, clip: h.1 });
        }
        proof {
            assert(out@ =~= old(out)@ + spec_draw_div(self.divs_seq(), cd).0);
        }
        (h.2, h.3)
    }

    /// Produce the draw commands for one frame.
    ///
    /// Rebuilds the visibility cache if it is stale, then walks the cached
    /// records in visit order: each visible node contributes its background
    /// fill and widget command with the parent's current scroll applied,
    /// and the scrollbars collected along the way are appended at the end
    /// (horizontal first, then vertical).
    pub fn draw(&mut self) -> (cmds: Vec<DrawCmd>)
        requires
            old(self).wf(),
        ensures
            final(self).wf(),
            final(self).divs_seq() == old(self).divs_seq(),
            final(self).kids() == old(self).kids(),
            final(self).spec_bbox() == old(self).spec_bbox(),
            ({
                let c = spec_effective_cache(
                    old(self).divs_seq(),
                    old(self).kids(),
                    old(self).spec_bbox(),
                    old(self).cache_seq(),
                );
                let f = spec_draw_fold(old(self).divs_seq(), c, c.len() as int);
                &&& final(self).cache_seq() == Some(c)
                &&& cmds@ == f.0 + spec_bar_cmds(f.1) + spec_bar_cmds(f.2)
                &&& cmds@ == spec_draw_output(old(self).divs_seq(), c)
                &&& final(self).hbars_seq() == f.1
                &&& final(self).vbars_seq() == f.2
            }),
    {
        self.pending_hori_scrollbars.clear();
        self.pending_vert_scrollbars.clear();
        self.ensure_cache();
        let ghost divs0 = self.divs_seq();
        let ghost kids0 = self.kids();
        let ghost bbox0 = self.spec_bbox();
        let ghost cache0 = match self.cache_seq() {
            Some(c) => c,
            None => Seq::empty(),
        };
        let n = match &self.cache {
            Some(c) => c.len(),
            None => 0,
        };
        let mut cmds: Vec<DrawCmd> = Vec::new();
        let mut j: usize = 0;
        while j < n
            invariant
                self.wf(),
                self.divs_seq() == divs0,
                self.kids() == kids0,
                self.spec_bbox() == bbox0,
                self.cache_seq() == Some(cache0),
                n == cache0.len(),
                0 <= j <= n,
                cmds@ == spec_draw_fold(divs0, cache0, j as int).0,
                self.hbars_seq() == spec_draw_fold(divs0, cache0, j as int).1,
                self.vbars_seq() == spec_draw_fold(divs0, cache0, j as int).2,
            decreases n - j,
        {
            let cd = if let Some(c) = &self.cache {
                c[j]
            } else {
                vstd::pervasive::unreached()
            };
            let bars = self.draw_div(cd, &mut cmds);
            if let Some((key, bar)) = bars.0 {
                bar_insert(&mut self.pending_hori_scrollbars, key, bar);
            }
            if let Some((key, bar)) = bars.1 {
                bar_insert(&mut self.pending_vert_scrollbars, key, bar);
            }
            j += 1;
        }

        // Paint all queued scrollbars on top.
        let ghost fold = spec_draw_fold(divs0, cache0, n as int);
        let hn = self.pending_hori_scrollbars.len();
        let mut t: usize = 0;
        while t < hn
            invariant
                self.wf(),
                self.divs_seq() == divs0,
                self.kids() == kids0,
                self.spec_bbox() == bbox0,
                self.cache_seq() == Some(cache0),
                self.hbars_seq() == fold.1,
                self.vbars_seq() == fold.2,
                hn == fold.1.len(),
                0 <= t <= hn,
                cmds@ == fold.0 + spec_bar_cmds(fold.1.take(t as int)),
            decreases hn - t,
        {
            let kb = self.pending_hori_scrollbars[t];
            cmds.push(
                DrawCmd::FillRect {
                    bbox: kb.1,
                    color: Color { r: 0, g: 255, b: 0, a: 102 },
                    scissor: None,
                },
            );
            proof {
                assert(cmds@ =~= fold.0 + spec_bar_cmds(fold.1.take(t as int + 1)));
            }
            t += 1;
        }
        proof {
            assert(fold.1.take(hn as int) =~= fold.1);
            assert(cmds@ =~= fold.0 + spec_bar_cmds(fold.1));
        }
        let vn = self.pending_vert_scrollbars.len();
        let mut t: usize = 0;
        while t < vn
            invariant
                self.wf(),
                self.divs_seq() == divs0,
                self.kids() == kids0,
                self.spec_bbox() == bbox0,
                self.cache_seq() == Some(cache0),
                self.hbars_seq() == fold.1,
                self.vbars_seq() == fold.2,
                vn == fold.2.len(),
                0 <= t <= vn,
                cmds@ == fold.0 + spec_bar_cmds(fold.1) + spec_bar_cmds(fold.2.take(t as int)),
            decreases vn - t,
        {
            let kb = self.pending_vert_scrollbars[t];
            cmds.push(
                DrawCmd::FillRect {
                    bbox: kb.1,
                    color: Color { r: 0, g: 255, b: 0, a: 102 },
                    scissor: None,
                },
            );
            proof {
                assert(cmds@ =~= fold.0 + spec_bar_cmds(fold.1) + spec_bar_cmds(
                    fold.2.take(t as int + 1),
                ));
            }
            t += 1;
        }
        proof {
            assert(fold.2.take(vn as int) =~= fold.2);
            assert(cmds@ =~= fold.0 + spec_bar_cmds(fold.1) + spec_bar_cmds(fold.2));
        }
        cmds
    }

    /// The records of the visibility cache in visit order, or nothing
    /// while the cache is stale.
    pub fn cached_divs(&self) -> (r: Vec<CachedDiv>)
        ensures
            r@ == match self.cache_seq() {
                Some(c) => c,
                None => Seq::<CachedDiv>::empty(),
            },
    {
        let mut r: Vec<CachedDiv> = Vec::new();
        match &self.cache {
            None => {},
            Some(c) => {
                let n = c.len();
                let mut j: usize = 0;
                while j < n
                    invariant
                        n == c@.len(),
                        0 <= j <= n,
                        r@ == c@.take(j as int),
                    decreases n - j,
                {
                    r.push(c[j]);
                    proof {
                        assert(r@ =~= c@.take(j as int + 1));
                    }
                    j += 1;
                }
                proof {
                    assert(c@.take(n as int) =~= c@);
                }
            },
        }
        r
    }
}

/// The visibility cache that a draw pass computes for the subtree rooted at
/// `id`, given the visibility already computed for `id` itself: nothing if
/// `id` was culled, else `id`'s own record followed by the records of its
/// visible descendants in depth-first pre-order.
pub open spec fn spec_visit(
    divs: Seq<SpaceDiv>,
    children: Seq<Seq<usize>>,
    id: int,
    vis: ComputedVisibility,
    parent: Option<(NodeId, Bbox)>,
) -> Seq<CachedDiv>
    decreases divs.len() - id, 1int, 0int
        when tree_wf(divs, children) && 0 <= id < divs.len()
{
    match vis {
        ComputedVisibility::Invisible => Seq::empty(),
        ComputedVisibility::Visible { bbox, x, y } => seq![
            CachedDiv { id: NodeId(id as usize), visibility: vis, parent },
        ] + spec_visit_children(divs, children, id, bbox, 0),
    }
}

/// The concatenated visit records of children `k..` of node `id`, each laid
/// out inside `id`'s computed box `bbox`.
pub open spec fn spec_visit_children(
    divs: Seq<SpaceDiv>,
    children: Seq<Seq<usize>>,
    id: int,
    bbox: Bbox,
    k: int,
) -> Seq<CachedDiv>
    decreases divs.len() - id, 0int, children[id].len() - k
        when tree_wf(divs, children) && 0 <= id < divs.len() && 0 <= k
{
    if k >= children[id].len() {
        Seq::empty()
    } else {
        let cid = children[id][k] as int;
        let vis = spec_child_vis(divs, divs[id], children[id], bbox, k);
        spec_visit(divs, children, cid, vis, Some((NodeId(id as usize), bbox)))
            + spec_visit_children(divs, children, id, bbox, k + 1)
    }
}

/// The whole visibility cache of a view: the visit of the root, which is
/// never culled and fills the viewport box.
pub open spec fn spec_cache(divs: Seq<SpaceDiv>, children: Seq<Seq<usize>>, bbox: Bbox) -> Seq<
    CachedDiv,
> {
    spec_visit(
        divs,
        children,
        0,
        ComputedVisibility::Visible {
            bbox,
            x: AxisOverflowBehaviour::Overflow,
            y: AxisOverflowBehaviour::Overflow,
        },
        None,
    )
}

/// The cache a draw pass works from: the stored one when valid, else the
/// one rebuilt from the current tree and viewport.
pub open spec fn spec_effective_cache(
    divs: Seq<SpaceDiv>,
    children: Seq<Seq<usize>>,
    bbox: Bbox,
    cache: Option<Seq<CachedDiv>>,
) -> Seq<CachedDiv> {
    match cache {
        Some(c) => c,
        None => spec_cache(divs, children, bbox),
    }
}

/// The color of the scrollbar indicator rectangles: translucent green.
pub open spec fn spec_scrollbar_color() -> Color {
    Color { r: 0, g: 255, b: 0, a: 102 }
}

/// Scroll applied to one cached node at draw time.
///
/// When the node's axis was classified scrollable, the node's box and clip
/// bounds slide by the parent's *current* scroll offset (scroll is a
/// transform, not baked into cached geometry), and the clip bounds are
/// clamped back into the parent's own box so scrolled content never paints
/// outside the scroll container. A scrollable axis also yields a scrollbar
/// box, keyed by the parent's handle: a thin bar whose length shrinks with
/// the scrollable excess and which sits at the parent's far edge, shifted
/// by the current scroll.
///
/// Returns the node's effective box, its clip box (both corner-sorted),
/// and the optional horizontal and vertical scrollbar entries.
pub open spec fn spec_handle_div_scroll(
    divs: Seq<SpaceDiv>,
    db: Bbox,
    x: AxisOverflowBehaviour,
    y: AxisOverflowBehaviour,
    parent: Option<(NodeId, Bbox)>,
) -> (Bbox, Bbox, Option<(usize, Bbox)>, Option<(usize, Bbox)>) {
    match parent {
        None => (spec_normalize(db), spec_normalize(db), None, None),
        Some((pid, pb)) => {
            let scroll = divs[pid.0 as int].scroll;
            let bx = match crate::div::spec_scroll(x) {
                Some(sx) => (
                    sat32(db.min.x - scroll.x),
                    sat32(db.max.x - scroll.x),
                    spec_max2(sat32(db.min.x - scroll.x), pb.min.x as int),
                    spec_min2(sat32(db.max.x - scroll.x), pb.max.x as int),
                ),
                None => match crate::div::spec_min_max(x) {
                    Some(mm) => (db.min.x as int, db.max.x as int, mm.0 as int, mm.1 as int),
                    None => (db.min.x as int, db.max.x as int, db.min.x as int, db.max.x as int),
                },
            };
            let by = match crate::div::spec_scroll(y) {
                Some(sy) => (
                    sat32(db.min.y - scroll.y),
                    sat32(db.max.y - scroll.y),
                    spec_max2(sat32(db.min.y - scroll.y), pb.min.y as int),
                    spec_min2(sat32(db.max.y - scroll.y), pb.max.y as int),
                ),
                None => match crate::div::spec_min_max(y) {
                    Some(mm) => (db.min.y as int, db.max.y as int, mm.0 as int, mm.1 as int),
                    None => (db.min.y as int, db.max.y as int, db.min.y as int, db.max.y as int),
                },
            };
            let bb = Bbox {
                min: Point { x: bx.0 as i32, y: by.0 as i32 },
                max: Point { x: bx.1 as i32, y: by.1 as i32 },
            };
            let clip = Bbox {
                min: Point { x: bx.2 as i32, y: by.2 as i32 },
                max: Point { x: bx.3 as i32, y: by.3 as i32 },
            };
            let hbar = match crate::div::spec_scroll(x) {
                Some(sx) => {
                    let width = spec_max2(sat32(spec_size(pb).x - sx), 8);
                    let origin = Point {
                        x: sat32(pb.min.x + scroll.x) as i32,
                        y: sat32(pb.max.y - 16) as i32,
                    };
                    let size = Point { x: width as i32, y: 16 };
                    Some(
                        (
                            pid.0,
                            spec_normalize(
                                Bbox { min: origin, max: point_sat_add(origin, size) },
                            ),
                        ),
                    )
                },
                None => None,
            };
            let vbar = match crate::div::spec_scroll(y) {
                Some(sy) => {
                    let height = spec_max2(sat32(spec_size(pb).y - sy), 8);
                    let origin = Point {
                        x: sat32(pb.max.x - 16) as i32,
                        y: sat32(pb.min.y + scroll.y) as i32,
                    };
                    let size = Point { x: 16, y: height as i32 };
                    Some(
                        (
                            pid.0,
                            spec_normalize(
                                Bbox { min: origin, max: point_sat_add(origin, size) },
                            ),
                        ),
                    )
                },
                None => None,
            };
            (spec_normalize(bb), spec_normalize(clip), hbar, vbar)
        },
    }
}

/// The larger of two unbounded integers.
pub open spec fn spec_max2(a: int, b: int) -> int {
    if a >= b {
        a
    } else {
        b
    }
}

/// The smaller of two unbounded integers.
pub open spec fn spec_min2(a: int, b: int) -> int {
    if a <= b {
        a
    } else {
        b
    }
}

/// The draw commands of one cached node, plus its scrollbar entries: the
/// background fill (scissored to the parent's box) when the div has a
/// color, then the widget command when it has a widget.
pub open spec fn spec_draw_div(divs: Seq<SpaceDiv>, cd: CachedDiv) -> (
    Seq<DrawCmd>,
    Option<(usize, Bbox)>,
    Option<(usize, Bbox)>,
) {
    match cd.visibility {
        ComputedVisibility::Invisible => (Seq::empty(), None, None),
        ComputedVisibility::Visible { bbox, x, y } => {
            let h = spec_handle_div_scroll(divs, bbox, x, y, cd.parent);
            let div = divs[cd.id.0 as int];
            let scissor = match cd.parent {
                Some(p) => Some(p.1),
                None => None,
            };
            let bg: Seq<DrawCmd> = match div.background_color {
                Some(color) => seq![DrawCmd::FillRect { bbox: h.1, color, scissor }],
                None => Seq::empty(),
            };
            let wc: Seq<DrawCmd> = match div.widget {
                Some(w) => seq![DrawCmd::Widget { widget: w, bbox: h.0, clip: h.1 }],
                None => Seq::empty(),
            };
            (bg + wc, h.2, h.3)
        },
    }
}

/// Whether a scrollbar for the container `key` is already pending.
pub open spec fn spec_bars_contains(bars: Seq<(usize, Bbox)>, key: usize) -> bool {
    exists|j: int| 0 <= j < bars.len() && (#[trigger] bars[j]).0 == key
}

/// Queue a scrollbar box for container `key`; the first one queued per
/// container wins, so siblings sharing one scrollable parent contribute
/// just one scrollbar per axis.
pub open spec fn spec_bar_insert(bars: Seq<(usize, Bbox)>, key: usize, bar: Bbox) -> Seq<
    (usize, Bbox),
> {
    if spec_bars_contains(bars, key) {
        bars
    } else {
        bars.push((key, bar))
    }
}

/// The fold of the main draw pass over the first `j` cache records: the
/// concatenated draw commands and the pending scrollbar entries per axis.
pub open spec fn spec_draw_fold(divs: Seq<SpaceDiv>, cache: Seq<CachedDiv>, j: int) -> (
    Seq<DrawCmd>,
    Seq<(usize, Bbox)>,
    Seq<(usize, Bbox)>,
)
    decreases j,
{
    if j <= 0 {
        (Seq::empty(), Seq::empty(), Seq::empty())
    } else {
        let prev = spec_draw_fold(divs, cache, j - 1);
        let d = spec_draw_div(divs, cache[j - 1]);
        let hb = match d.1 {
            Some(kb) => spec_bar_insert(prev.1, kb.0, kb.1),
            None => prev.1,
        };
        let vb = match d.2 {
            Some(kb) => spec_bar_insert(prev.2, kb.0, kb.1),
            None => prev.2,
        };
        (prev.0 + d.0, hb, vb)
    }
}

/// The scrollbar rectangles drawn after the main pass.
pub open spec fn spec_bar_cmds(bars: Seq<(usize, Bbox)>) -> Seq<DrawCmd> {
    bars.map_values(
        |kb: (usize, Bbox)| DrawCmd::FillRect {
            bbox: kb.1,
            color: spec_scrollbar_color(),
            scissor: None,
        },
    )
}

/// Everything a draw pass emits for the given cache: the per-node commands
/// in visit order, then the horizontal scrollbars, then the vertical ones.
pub open spec fn spec_draw_output(divs: Seq<SpaceDiv>, cache: Seq<CachedDiv>) -> Seq<DrawCmd> {
    let f = spec_draw_fold(divs, cache, cache.len() as int);
    f.0 + spec_bar_cmds(f.1) + spec_bar_cmds(f.2)
}

/// Queue a scrollbar box for container `key` unless one is already pending.
fn bar_insert(bars: &mut Vec<(usize, Bbox)>, key: usize, bar: Bbox)
    ensures
        final(bars)@ == spec_bar_insert(old(bars)@, key, bar),
{
    let n = bars.len();
    let mut j: usize = 0;
    while j < n
        invariant
            n == bars@.len(),
            0 <= j <= n,
            *bars == *old(bars),
            forall|t: int| 0 <= t < j ==> (#[trigger] bars@[t]).0 != key,
        decreases n - j,
    {
        if bars[j].0 == key {
            return ;
        }
        j += 1;
    }
    bars.push((key, bar));
}

/// Drawing is deterministic and idempotent: the commands of a frame are a
/// function of the tree, the viewport and the cache alone, and a draw with
/// no mutation in between sees the cache its predecessor left behind and
/// produces the same commands in the same order.
pub proof fn lemma_draw_idempotent(
    divs: Seq<SpaceDiv>,
    children: Seq<Seq<usize>>,
    bbox: Bbox,
    cache: Option<Seq<CachedDiv>>,
)
    ensures
        ({
            let c1 = spec_effective_cache(divs, children, bbox, cache);
            let c2 = spec_effective_cache(divs, children, bbox, Some(c1));
            &&& c2 == c1
            &&& spec_draw_output(divs, c2) == spec_draw_output(divs, c1)
        }),
{
}

/// The arena index that `add_div` inserts under: the given parent, or the
/// root.
pub open spec fn spec_parent_index(parent: Option<NodeId>) -> int {
    match parent {
        Some(p) => p.0 as int,
        None => 0int,
    }
}

/// The root div of every view: fills the viewport, stacks vertically,
/// aligned to the top-left corner.
pub open spec fn spec_root_div() -> SpaceDiv {
    SpaceDiv { layout_dir: Direction::Vertical, ..spec_div_default() }
}

} // verus!
