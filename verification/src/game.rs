use vstd::prelude::*;
use crate::level::Level;
use crate::point::Point;
use crate::point::has_point;
use crate::state::State;
use crate::state::state_equiv;
use crate::utility::find_point_index;
use crate::utility::points_contain;

verus! {

/// Why a call into the transition engine was rejected.
///
/// `InvalidAction`: the action token is outside the recognized alphabet.
/// `IllegalConfiguration`: the level has a non-positive dimension, or the
/// enemy and enemy-origin collections differ in length.
#[derive(Clone, Copy, PartialEq, Eq, Structural, Debug)]
pub enum StepError {
    InvalidAction,
    IllegalConfiguration,
}

/// A session: the level being played and the current snapshot.
pub struct Game {
    pub loaded: bool,
    pub level: Level,
    pub state: State,
}

impl Game {
    /// A session with nothing loaded yet.
    pub fn new() -> (g: Game)
        ensures
            !g.loaded,
            g.level.width == 0,
            g.level.height == 0,
            !g.state.did_win,
            !g.state.did_lose,
    {
        Game { loaded: false, level: Level::new(), state: State::new(Point::new(0, 0), Point::new(0, 0)) }
    }
}

/// The action alphabet: the empty token stands still, `"w"` moves up,
/// `"s"` down, `"a"` left, `"d"` right.
pub open spec fn is_action_token(a: Seq<char>) -> bool {
    ||| a.len() == 0
    ||| (a.len() == 1 && (a[0] == 'w' || a[0] == 's' || a[0] == 'a' || a[0] == 'd'))
}

/// The horizontal component of the displacement an action token asks for.
/// `x` runs along the width of the level: `"a"` decreases it, `"d"`
/// increases it.
pub open spec fn action_dx(a: Seq<char>) -> int {
    if a.len() == 1 && a[0] == 'a' {
        -1
    } else if a.len() == 1 && a[0] == 'd' {
        1
    } else {
        0
    }
}

/// The vertical component of the displacement an action token asks for.
/// `y` runs along the height of the level: `"w"` decreases it, `"s"`
/// increases it.
pub open spec fn action_dy(a: Seq<char>) -> int {
    if a.len() == 1 && a[0] == 'w' {
        -1
    } else if a.len() == 1 && a[0] == 's' {
        1
    } else {
        0
    }
}

/// A level and state the engine is willing to step: positive dimensions
/// and index-correspondence between enemies and their origins.
pub open spec fn spec_config_ok(level: Level, s: State) -> bool {
    &&& level.width > 0
    &&& level.height > 0
    &&& s.enemies@.len() == s.enemies_origin@.len()
}

/// A state in which the session is already decided.
pub open spec fn spec_terminal(s: State) -> bool {
    s.did_win || s.did_lose
}

/// The player-position legality rule. A tile is a legal player position
/// iff it is not the exit while a switch remains uncollected, it lies
/// inside the level's bounds, and it is not blocked terrain.
pub open spec fn spec_player_move_ok(
    level: Level,
    exit: Point,
    switches: Seq<Point>,
    x: int,
    y: int,
) -> bool {
    &&& !(x == exit.x as int && y == exit.y as int && switches.len() > 0)
    &&& 0 <= x < level.width as int
    &&& 0 <= y < level.height as int
    &&& !has_point(level.blocks@, x, y)
}

/// An enemy standing on a spike: the tile is in both collections at once.
pub open spec fn spec_enemy_on_spike(
    enemies: Seq<Point>,
    spikes: Seq<Point>,
    x: int,
    y: int,
) -> bool {
    has_point(enemies, x, y) && has_point(spikes, x, y)
}

/// The player touching a hazard: the tile holds an enemy or a spike.
pub open spec fn spec_hazard(enemies: Seq<Point>, spikes: Seq<Point>, x: int, y: int) -> bool {
    has_point(enemies, x, y) || has_point(spikes, x, y)
}

/// The enemy-position legality rule. A tile is a legal enemy position iff
/// it is a legal player position, it is not the exit, it is not a tile
/// where an enemy already overlaps a spike, and it holds no switch —
/// the exit and switch tiles are reserved for player-triggered effects.
pub open spec fn spec_enemy_move_ok(
    level: Level,
    exit: Point,
    enemies: Seq<Point>,
    spikes: Seq<Point>,
    switches: Seq<Point>,
    x: int,
    y: int,
) -> bool {
    &&& spec_player_move_ok(level, exit, switches, x, y)
    &&& !(x == exit.x as int && y == exit.y as int)
    &&& !spec_enemy_on_spike(enemies, spikes, x, y)
    &&& !has_point(switches, x, y)
}

/// The player position after the move phase of a tick: the candidate
/// tile one displacement away if it is legal, the old position otherwise.
pub open spec fn spec_next_player(level: Level, s: State, dx: int, dy: int) -> (int, int) {
    let cx = s.player.x as int + dx;
    let cy = s.player.y as int + dy;
    if spec_player_move_ok(level, s.exit, s.switches@, cx, cy) {
        (cx, cy)
    } else {
        (s.player.x as int, s.player.y as int)
    }
}

/// `ps` with its first point equal to `(x, y)` removed; `ps` unchanged if
/// it has none.
pub open spec fn spec_remove_first(ps: Seq<Point>, x: int, y: int) -> Seq<Point>
    decreases ps.len(),
{
    if ps.len() == 0 {
        ps
    } else if ps[0].x == x && ps[0].y == y {
        ps.drop_first()
    } else {
        seq![ps[0]] + spec_remove_first(ps.drop_first(), x, y)
    }
}

/// The sign of a displacement component: the unit step that shrinks it.
pub open spec fn spec_sign(d: int) -> int {
    if d > 0 {
        1
    } else if d < 0 {
        -1
    } else {
        0
    }
}

/// The tile an enemy at `e` aims for while patrolling back to its origin
/// `o`: one unit along `x` until the column matches, then one unit along
/// `y`. An enemy already at its origin aims for its own tile.
pub open spec fn spec_enemy_candidate(e: Point, o: Point) -> (int, int) {
    if e.x != o.x {
        (e.x as int + spec_sign(o.x as int - e.x as int), e.y as int)
    } else if e.y != o.y {
        (e.x as int, e.y as int + spec_sign(o.y as int - e.y as int))
    } else {
        (e.x as int, e.y as int)
    }
}

/// Where an enemy at `e` with origin `o` stands after one tick of
/// patrolling: its candidate tile if that is a move and legal for an
/// enemy, its old tile otherwise. Every enemy's candidate is validated
/// against the same pre-movement enemy set, so the enemies move
/// simultaneously.
pub open spec fn spec_enemy_next(
    level: Level,
    exit: Point,
    enemies: Seq<Point>,
    spikes: Seq<Point>,
    switches: Seq<Point>,
    e: Point,
    o: Point,
) -> Point {
    let c = spec_enemy_candidate(e, o);
    if (c.0 != e.x as int || c.1 != e.y as int)
        && spec_enemy_move_ok(level, exit, enemies, spikes, switches, c.0, c.1) {
        Point { x: c.0 as i8, y: c.1 as i8 }
    } else {
        e
    }
}

/// The full transition relation of one tick on a steppable, undecided
/// state: `r` is the snapshot that stepping `s` by the displacement
/// `(dx, dy)` on `level` produces.
///
/// In order: the player moves to the candidate tile if legal; then, with
/// priority, the tick is lost if the player stands on a hazard, won if
/// the player stands on the (unlocked) exit, else a switch under the
/// player is collected; finally, if `enemies_move` is set and the tick is
/// still undecided, every enemy patrols one step — validated against the
/// post-collection switches and the pre-movement enemy set — and the tick
/// is lost if an enemy now stands on the player.
pub open spec fn spec_step_ok(level: Level, s: State, dx: int, dy: int, r: State) -> bool {
    let np = spec_next_player(level, s, dx, dy);
    let lose0 = spec_hazard(s.enemies@, s.spikes@, np.0, np.1);
    let win = !lose0 && np.0 == s.exit.x as int && np.1 == s.exit.y as int;
    let collect = !lose0 && !win && has_point(s.switches@, np.0, np.1);
    let switches1 = if collect {
        spec_remove_first(s.switches@, np.0, np.1)
    } else {
        s.switches@
    };
    let move_enemies = s.enemies_move && !lose0 && !win;
    let enemies1 = if move_enemies {
        Seq::new(
            s.enemies@.len(),
            |i: int|
                spec_enemy_next(
                    level,
                    s.exit,
                    s.enemies@,
                    s.spikes@,
                    switches1,
                    s.enemies@[i],
                    s.enemies_origin@[i],
                ),
        )
    } else {
        s.enemies@
    };
    let lose1 = lose0 || (move_enemies && has_point(enemies1, np.0, np.1));
    &&& r.player.x as int == np.0
    &&& r.player.y as int == np.1
    &&& r.exit == s.exit
    &&& r.enemies@ == enemies1
    &&& r.enemies_origin@ == s.enemies_origin@
    &&& r.enemies_move == s.enemies_move
    &&& r.spikes@ == s.spikes@
    &&& r.switches@ == switches1
    &&& r.did_win == win
    &&& r.did_lose == lose1
}

/// Removing the first occurrence by coordinates is the same as cutting
/// the sequence at the first matching index.
proof fn lemma_remove_first_at(ps: Seq<Point>, x: int, y: int, i: int)
    requires
        0 <= i < ps.len(),
        ps[i].x == x && ps[i].y == y,
        forall|j: int| 0 <= j < i ==> !(ps[j].x == x && ps[j].y == y),
    ensures
        spec_remove_first(ps, x, y) == ps.remove(i),
    decreases i,
{
    if i == 0 {
        assert(spec_remove_first(ps, x, y) == ps.drop_first());
        assert(ps.drop_first() =~= ps.remove(0));
    } else {
        assert(!(ps[0].x == x && ps[0].y == y));
        assert(forall|j: int| 0 <= j < i - 1 ==> !(ps.drop_first()[j].x == x
            && ps.drop_first()[j].y == y));
        assert(ps.drop_first()[i - 1] == ps[i]);
        lemma_remove_first_at(ps.drop_first(), x, y, i - 1);
        assert(seq![ps[0]] + ps.drop_first().remove(i - 1) =~= ps.remove(i));
    }
}

/// Collecting a switch removes exactly one entry.
pub proof fn lemma_remove_first_len(ps: Seq<Point>, x: int, y: int)
    requires
        has_point(ps, x, y),
    ensures
        spec_remove_first(ps, x, y).len() + 1 == ps.len(),
    decreases ps.len(),
{
    if ps.len() == 0 {
    } else if ps[0].x == x && ps[0].y == y {
    } else {
        let w = choose|i: int| 0 <= i < ps.len() && ps[i].x == x && ps[i].y == y;
        assert(w >= 1);
        assert(ps.drop_first()[w - 1] == ps[w]);
        assert(has_point(ps.drop_first(), x, y));
        lemma_remove_first_len(ps.drop_first(), x, y);
    }
}

/// True iff `point` is a tile the player may move onto, given the level's
/// bounds and blocked terrain and the exit lock.
pub fn valid_move_for_player(level: &Level, state: &State, new_position: &Point) -> (r: bool)
    ensures
        r == spec_player_move_ok(
            *level,
            state.exit,
            state.switches@,
            new_position.x as int,
            new_position.y as int,
        ),
{
    if new_position.x == state.exit.x && new_position.y == state.exit.y
        && state.switches.len() > 0 {
        return false;
    }
    new_position.x >= 0 && new_position.y >= 0 && new_position.x < level.width
        && new_position.y < level.height && !points_contain(&level.blocks, new_position)
}

/// True iff `point` holds an enemy or a spike of `state` — the contact
/// that loses the session when the player stands there.
pub fn collide_with_hazard(state: &State, point: &Point) -> (r: bool)
    ensures
        r == spec_hazard(state.enemies@, state.spikes@, point.x as int, point.y as int),
{
    points_contain(&state.enemies, point) || points_contain(&state.spikes, point)
}

/// True iff `point` is a tile an enemy may move onto.
pub fn valid_move_for_enemy(level: &Level, state: &State, new_position: &Point) -> (r: bool)
    ensures
        r == spec_enemy_move_ok(
            *level,
            state.exit,
            state.enemies@,
            state.spikes@,
            state.switches@,
            new_position.x as int,
            new_position.y as int,
        ),
{
    if !valid_move_for_player(level, state, new_position) {
        return false;
    }
    !(new_position.x == state.exit.x && new_position.y == state.exit.y)
        && !(points_contain(&state.enemies, new_position)
            && points_contain(&state.spikes, new_position))
        && !points_contain(&state.switches, new_position)
}

/// One tick of the simulation: apply `action` to `old_state` on `level`
/// and return the next snapshot. The input state is only read; a fresh
/// state is returned.
///
/// The call is rejected with `IllegalConfiguration` exactly when the
/// level has a non-positive dimension or the enemy collections differ in
/// length, and otherwise with `InvalidAction` exactly when the token is
/// not one of `""`, `"w"`, `"s"`, `"a"`, `"d"`. A terminal state is
/// absorbing: stepping it returns an equal state. On any other input the
/// result is the unique snapshot that [`spec_step_ok`] describes.
pub fn step(level: &Level, old_state: &State, action: &str) -> (r: Result<State, StepError>)
    ensures
        !spec_config_ok(*level, *old_state) <==> r == Err::<State, StepError>(
            StepError::IllegalConfiguration,
        ),
        (spec_config_ok(*level, *old_state) && !is_action_token(action@)) <==> r == Err::<
            State,
            StepError,
        >(StepError::InvalidAction),
        spec_config_ok(*level, *old_state) && is_action_token(action@) && spec_terminal(
            *old_state,
        ) ==> (r matches Ok(ns) && state_equiv(ns, *old_state)),
        spec_config_ok(*level, *old_state) && is_action_token(action@) && !spec_terminal(
            *old_state,
        ) ==> (r matches Ok(ns) && spec_step_ok(
            *level,
            *old_state,
            action_dx(action@),
            action_dy(action@),
            ns,
        )),
{
    if level.width <= 0 || level.height <= 0 || old_state.enemies.len()
        != old_state.enemies_origin.len() {
        return Err(StepError::IllegalConfiguration);
    }
    let mut dx: i8 = 0;
    let mut dy: i8 = 0;
    let n: usize = action.unicode_len();
    if n == 1 {
        let c = action.get_char(0);
        if c == 'w' {
            dy = -1;
        } else if c == 's' {
            dy = 1;
        } else if c == 'a' {
            dx = -1;
        } else if c == 'd' {
            dx = 1;
        } else {
            return Err(StepError::InvalidAction);
        }
    } else if n != 0 {
        return Err(StepError::InvalidAction);
    }
    proof {
        assert(is_action_token(action@));
        assert(dx as int == action_dx(action@));
        assert(dy as int == action_dy(action@));
    }
    if old_state.did_win || old_state.did_lose {
        return Ok(old_state.clone());
    }
    let mut next = old_state.clone();

    // Move phase: the player takes the candidate tile if it is legal.
    let cx: i16 = next.player.x as i16 + dx as i16;
    let cy: i16 = next.player.y as i16 + dy as i16;
    let mut legal: bool = false;
    if cx >= 0 && cx < level.width as i16 && cy >= 0 && cy < level.height as i16 {
        let cand = Point::new(cx as i8, cy as i8);
        legal = valid_move_for_player(level, &next, &cand);
    }
    if legal {
        next.player = Point::new(cx as i8, cy as i8);
    }
    proof {
        let np = spec_next_player(*level, *old_state, dx as int, dy as int);
        assert(next.player.x as int == np.0);
        assert(next.player.y as int == np.1);
    }

    // Effect phase, in priority order: lose on a hazard, else win on the
    // exit, else collect a switch under the player.
    let player = next.player;
    if collide_with_hazard(&next, &player) {
        next.did_lose = true;
    } else if player == next.exit {
        next.did_win = true;
    } else {
        match find_point_index(&next.switches, &player) {
            Some(i) => {
                proof {
                    lemma_remove_first_at(
                        next.switches@,
                        player.x as int,
                        player.y as int,
                        i as int,
                    );
                }
                next.switches.remove(i);
            },
            None => {},
        }
    }

    // Patrol phase: while the tick is undecided, each enemy steps back
    // toward its origin, all of them validated against the same
    // pre-movement enemy set, then player contact is re-checked.
    if next.enemies_move && !next.did_win && !next.did_lose {
        let ghost switches1 = next.switches@;
        let mut new_enemies: Vec<Point> = Vec::new();
        let mut i: usize = 0;
        while i < next.enemies.len()
            invariant
                i <= next.enemies@.len(),
                next.enemies@ == old_state.enemies@,
                next.enemies_origin@ == old_state.enemies_origin@,
                next.enemies@.len() == next.enemies_origin@.len(),
                next.exit == old_state.exit,
                next.spikes@ == old_state.spikes@,
                next.switches@ == switches1,
                new_enemies@.len() == i as int,
                forall|k: int|
                    0 <= k < i ==> new_enemies@[k] == spec_enemy_next(
                        *level,
                        old_state.exit,
                        old_state.enemies@,
                        old_state.spikes@,
                        switches1,
                        old_state.enemies@[k],
                        old_state.enemies_origin@[k],
                    ),
            decreases next.enemies@.len() - i,
        {
            let e = next.enemies[i];
            let o = next.enemies_origin[i];
            let ex: i16 = e.x as i16;
            let ey: i16 = e.y as i16;
            let ox: i16 = o.x as i16;
            let oy: i16 = o.y as i16;
            let mut cx2: i16 = ex;
            let mut cy2: i16 = ey;
            if e.x != o.x {
                if ox > ex {
                    cx2 = ex + 1;
                } else {
                    cx2 = ex - 1;
                }
            } else if e.y != o.y {
                if oy > ey {
                    cy2 = ey + 1;
                } else {
                    cy2 = ey - 1;
                }
            }
            proof {
                assert(cx2 as int == spec_enemy_candidate(e, o).0);
                assert(cy2 as int == spec_enemy_candidate(e, o).1);
                assert(-128 <= cx2 as int <= 127);
                assert(-128 <= cy2 as int <= 127);
            }
            let cand = Point::new(cx2 as i8, cy2 as i8);
            let mut ne = e;
            if (cand.x != e.x || cand.y != e.y) && valid_move_for_enemy(level, &next, &cand) {
                ne = cand;
            }
            proof {
                assert(ne == spec_enemy_next(
                    *level,
                    old_state.exit,
                    old_state.enemies@,
                    old_state.spikes@,
                    switches1,
                    old_state.enemies@[i as int],
                    old_state.enemies_origin@[i as int],
                ));
            }
            new_enemies.push(ne);
            i += 1;
        }
        proof {
            assert(new_enemies@ =~= Seq::new(
                old_state.enemies@.len(),
                |k: int|
                    spec_enemy_next(
                        *level,
                        old_state.exit,
                        old_state.enemies@,
                        old_state.spikes@,
                        switches1,
                        old_state.enemies@[k],
                        old_state.enemies_origin@[k],
                    ),
            ));
        }
        next.enemies = new_enemies;
        let player2 = next.player;
        if points_contain(&next.enemies, &player2) {
            next.did_lose = true;
        }
    }
    proof {
        assert(spec_step_ok(*level, *old_state, dx as int, dy as int, next));
    }
    Ok(next)
}

/// Illegal moves are absorbed: when the candidate tile of a tick is out
/// of bounds or blocked, the player of the produced state stands where
/// it stood.
pub proof fn lemma_illegal_move_keeps_player(level: Level, s: State, dx: int, dy: int, r: State)
    requires
        spec_step_ok(level, s, dx, dy, r),
        !(0 <= (s.player.x as int + dx) < (level.width as int) && 0 <= (s.player.y as int + dy) < (level.height as int)) || has_point(
            level.blocks@,
            s.player.x as int + dx,
            s.player.y as int + dy,
        ),
    ensures
        r.player == s.player,
{
}

/// A step keeps the player on the board: from a state whose player is in
/// bounds, the produced state's player is in bounds.
pub proof fn lemma_player_stays_in_bounds(level: Level, s: State, dx: int, dy: int, r: State)
    requires
        spec_step_ok(level, s, dx, dy, r),
        0 <= (s.player.x as int) < (level.width as int),
        0 <= (s.player.y as int) < (level.height as int),
    ensures
        0 <= (r.player.x as int) < (level.width as int),
        0 <= (r.player.y as int) < (level.height as int),
{
}

/// The exit is locked while a switch remains: a step from a state with
/// uncollected switches whose player is off the exit never puts the
/// player on the exit, and never wins. (A loader that starts the player
/// on the locked exit is the one way around this, which is why the
/// player is required off the exit at entry.)
pub proof fn lemma_exit_locked(level: Level, s: State, dx: int, dy: int, r: State)
    requires
        spec_step_ok(level, s, dx, dy, r),
        s.switches@.len() > 0,
        !(s.player.x == s.exit.x && s.player.y == s.exit.y),
    ensures
        !(r.player.x == r.exit.x && r.player.y == r.exit.y),
        !r.did_win,
{
}

/// Switch collection is monotonic: one step removes at most one switch
/// and never adds one.
pub proof fn lemma_switches_monotonic(level: Level, s: State, dx: int, dy: int, r: State)
    requires
        spec_step_ok(level, s, dx, dy, r),
    ensures
        r.switches@.len() == s.switches@.len() || r.switches@.len() + 1 == s.switches@.len(),
{
    let np = spec_next_player(level, s, dx, dy);
    if r.switches@ != s.switches@ {
        lemma_remove_first_len(s.switches@, np.0, np.1);
    }
}

/// A session is never both won and lost: a step from a state that is not
/// both keeps the two flags mutually exclusive.
pub proof fn lemma_win_lose_exclusive(level: Level, s: State, dx: int, dy: int, r: State)
    requires
        spec_step_ok(level, s, dx, dy, r),
    ensures
        !(r.did_win && r.did_lose),
{
}

/// A step preserves the index-correspondence of enemies and origins:
/// the two collections keep one common length.
pub proof fn lemma_enemy_origin_correspondence(level: Level, s: State, dx: int, dy: int, r: State)
    requires
        spec_step_ok(level, s, dx, dy, r),
        s.enemies@.len() == s.enemies_origin@.len(),
    ensures
        r.enemies@.len() == r.enemies_origin@.len(),
        r.enemies@.len() == s.enemies@.len(),
{
}

} // verus!
