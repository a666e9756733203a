//! A retained-mode layout engine for rectangular space divisions.
//!
//! The crate computes, for a tree of "divs" (rectangular layout nodes), each
//! node's on-screen bounding box from declarative sizing rules, alignment,
//! and per-axis overflow policies, and turns the visible nodes into an
//! ordered list of draw commands. Around the engine it carries the small
//! plain-data vocabulary of the client it serves: asset handles, a callback
//! registry, and the wire protocol's messages.

pub mod assets;
pub mod div;
pub mod event;
pub mod geom;
pub mod layout;
pub mod proto;
pub mod view;

pub use assets::{FontId, Fonts, ImageId, LoadFontError, TextureId};
pub use div::{
    Alignment, AxisOverflowBehaviour, CalcExpr, Color, ComputedVisibility, Direction, Overflow,
    SpaceDiv, SpaceDivBuilder, Unit, UnitCalcData, WidgetId,
};
pub use event::Event;
pub use geom::{Bbox, Point, Size};
pub use proto::{Command, Response, User, UserActivity};
pub use view::{CachedDiv, DrawCmd, NodeId, View};
