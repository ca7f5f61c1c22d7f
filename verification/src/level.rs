use vstd::prelude::*;
use crate::point::Point;

verus! {

/// The immutable layout of one level: its dimensions, the number of
/// switches it was built with, and the set of blocked tiles, kept as a
/// vector of coordinates.
///
/// A playable level has `width > 0` and `height > 0`; the all-zero value
/// produced by [`Level::new`] stands for a not-yet-loaded level and is
/// rejected by the transition engine. A loader is expected to keep every
/// entry of `blocks` inside `[0, width) x [0, height)`; nothing here
/// depends on that, since an out-of-range blocked tile can never be
/// reached anyway.
pub struct Level {
    pub width: i8,
    pub height: i8,
    pub switch_count: i8,
    pub blocks: Vec<Point>,
}

impl Level {
    /// An empty, not-yet-loaded level.
    pub fn new() -> (l: Level)
        ensures
            l.width == 0,
            l.height == 0,
            l.switch_count == 0,
            l.blocks@ == Seq::<Point>::empty(),
    {
        Level { width: 0, height: 0, switch_count: 0, blocks: Vec::new() }
    }
}

} // verus!
