use vstd::prelude::*;
use crate::point::Point;
use crate::utility::copy_points;
use crate::utility::point_vectors_equal;

verus! {

/// One snapshot of a play session: the player and exit positions, the
/// hazard actors, the switches still to collect, and the terminal-outcome
/// flags. The transition engine never mutates a `State` it is given; it
/// returns a fresh one each tick.
///
/// `enemies_origin` holds each enemy's spawn point, index for index with
/// `enemies`; the engine rejects a state in which the two lengths differ.
/// While `enemies_move` is set, each tick every enemy patrols one tile
/// back toward its origin. `did_win` and `did_lose` mark a terminal
/// state, which the engine treats as absorbing.
pub struct State {
    pub player: Point,
    pub exit: Point,
    pub enemies: Vec<Point>,
    pub enemies_origin: Vec<Point>,
    pub enemies_move: bool,
    pub spikes: Vec<Point>,
    pub switches: Vec<Point>,
    pub did_win: bool,
    pub did_lose: bool,
}

/// Field-wise equality of two states, with the point vectors compared
/// pairwise and order-sensitively.
pub open spec fn state_equiv(a: State, b: State) -> bool {
    &&& a.player == b.player
    &&& a.exit == b.exit
    &&& a.enemies@ == b.enemies@
    &&& a.enemies_origin@ == b.enemies_origin@
    &&& a.enemies_move == b.enemies_move
    &&& a.spikes@ == b.spikes@
    &&& a.switches@ == b.switches@
    &&& a.did_win == b.did_win
    &&& a.did_lose == b.did_lose
}

impl State {
    /// The initial snapshot of a session: the given player and exit
    /// positions, no actors, no switches, nothing decided yet. The actor
    /// collections are filled in by the loader.
    pub fn new(player: Point, exit: Point) -> (s: State)
        ensures
            s.player == player,
            s.exit == exit,
            s.enemies@ == Seq::<Point>::empty(),
            s.enemies_origin@ == Seq::<Point>::empty(),
            !s.enemies_move,
            s.spikes@ == Seq::<Point>::empty(),
            s.switches@ == Seq::<Point>::empty(),
            !s.did_win,
            !s.did_lose,
    {
        State {
            player,
            exit,
            enemies: Vec::new(),
            enemies_origin: Vec::new(),
            enemies_move: false,
            spikes: Vec::new(),
            switches: Vec::new(),
            did_win: false,
            did_lose: false,
        }
    }
}

impl Clone for State {
    fn clone(&self) -> (s: Self)
        ensures
            state_equiv(s, *self),
    {
        State {
            player: self.player,
            exit: self.exit,
            enemies: copy_points(&self.enemies),
            enemies_origin: copy_points(&self.enemies_origin),
            enemies_move: self.enemies_move,
            spikes: copy_points(&self.spikes),
            switches: copy_points(&self.switches),
            did_win: self.did_win,
            did_lose: self.did_lose,
        }
    }
}

impl PartialEq for State {
    fn eq(&self, other: &Self) -> (r: bool) {
        self.player == other.player && self.exit == other.exit
            && point_vectors_equal(&self.enemies, &other.enemies)
            && point_vectors_equal(&self.enemies_origin, &other.enemies_origin)
            && self.enemies_move == other.enemies_move
            && point_vectors_equal(&self.spikes, &other.spikes)
            && point_vectors_equal(&self.switches, &other.switches)
            && self.did_win == other.did_win
            && self.did_lose == other.did_lose
    }
}

impl vstd::std_specs::cmp::PartialEqSpecImpl for State {
    open spec fn obeys_eq_spec() -> bool {
        true
    }

    open spec fn eq_spec(&self, other: &State) -> bool {
        state_equiv(*self, *other)
    }
}

impl Eq for State {}

} // verus!
