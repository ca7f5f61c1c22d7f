use grid_puzzle::game::step;
use grid_puzzle::game::StepError;
use grid_puzzle::level::Level;
use grid_puzzle::point::Point;
use grid_puzzle::state::State;

fn open_level(width: i8, height: i8) -> Level {
    Level { width, height, switch_count: 0, blocks: Vec::new() }
}

#[test]
fn out_of_bounds_move_keeps_player() {
    let level = open_level(2, 2);
    let s0 = State::new(Point::new(0, 0), Point::new(1, 1));
    let s1 = step(&level, &s0, "a").unwrap();
    assert!(s1.player == Point::new(0, 0));
    let s2 = step(&level, &s0, "w").unwrap();
    assert!(s2.player == Point::new(0, 0));
}

#[test]
fn player_keeps_to_the_board() {
    let level = open_level(2, 2);
    let mut s = State::new(Point::new(0, 0), Point::new(1, 1));
    s.switches = vec![Point::new(0, 1)];
    for action in ["w", "a", "s", "s", "d", "d", "w", ""] {
        s = step(&level, &s, action).unwrap();
        assert!(0 <= s.player.x && s.player.x < level.width);
        assert!(0 <= s.player.y && s.player.y < level.height);
    }
}

#[test]
fn locked_exit_refuses_the_player() {
    let level = open_level(3, 1);
    let mut s0 = State::new(Point::new(1, 0), Point::new(2, 0));
    s0.switches = vec![Point::new(0, 0)];
    let s1 = step(&level, &s0, "d").unwrap();
    assert!(s1.player == Point::new(1, 0));
    assert!(!s1.did_win);
}

#[test]
fn switches_shrink_by_at_most_one() {
    let level = open_level(3, 1);
    let mut s = State::new(Point::new(0, 0), Point::new(2, 0));
    s.switches = vec![Point::new(1, 0), Point::new(2, 0)];
    let mut len = s.switches.len();
    for action in ["d", "", "d", "d"] {
        s = step(&level, &s, action).unwrap();
        assert!(s.switches.len() <= len);
        assert!(len - s.switches.len() <= 1);
        len = s.switches.len();
    }
}

#[test]
fn win_and_lose_stay_exclusive() {
    let level = open_level(1, 1);
    let mut s0 = State::new(Point::new(0, 0), Point::new(0, 0));
    s0.enemies = vec![Point::new(0, 0)];
    s0.enemies_origin = vec![Point::new(0, 0)];
    let s1 = step(&level, &s0, "").unwrap();
    assert!(!(s1.did_win && s1.did_lose));
    assert!(s1.did_lose && !s1.did_win);
}

#[test]
fn step_reads_but_never_mutates_its_input() {
    let level = Level { width: 3, height: 2, switch_count: 1, blocks: vec![Point::new(2, 0)] };
    let mut s0 = State::new(Point::new(0, 0), Point::new(2, 1));
    s0.switches = vec![Point::new(1, 0)];
    s0.enemies = vec![Point::new(2, 1)];
    s0.enemies_origin = vec![Point::new(0, 1)];
    s0.spikes = vec![Point::new(0, 1)];
    s0.enemies_move = true;
    let before = s0.clone();
    let _ = step(&level, &s0, "d").unwrap();
    assert!(s0 == before);
}

#[test]
fn unloaded_level_is_an_illegal_configuration() {
    let level = Level::new();
    let s0 = State::new(Point::new(0, 0), Point::new(0, 0));
    let r = step(&level, &s0, "");
    assert!(matches!(r, Err(StepError::IllegalConfiguration)));
}

#[test]
fn mismatched_enemy_origins_are_an_illegal_configuration() {
    let level = open_level(2, 2);
    let mut s0 = State::new(Point::new(0, 0), Point::new(1, 1));
    s0.enemies = vec![Point::new(1, 0)];
    let r = step(&level, &s0, "");
    assert!(matches!(r, Err(StepError::IllegalConfiguration)));
}

#[test]
fn terminal_state_is_absorbing() {
    let level = open_level(2, 2);
    let mut s0 = State::new(Point::new(0, 0), Point::new(1, 1));
    s0.did_win = true;
    let s1 = step(&level, &s0, "d").unwrap();
    assert!(s1 == s0);
    let mut s2 = State::new(Point::new(0, 0), Point::new(1, 1));
    s2.did_lose = true;
    let s3 = step(&level, &s2, "s").unwrap();
    assert!(s3 == s2);
}

#[test]
fn enemy_patrols_toward_its_origin() {
    let level = open_level(3, 2);
    let mut s0 = State::new(Point::new(0, 1), Point::new(2, 1));
    s0.enemies = vec![Point::new(2, 0)];
    s0.enemies_origin = vec![Point::new(0, 0)];
    s0.enemies_move = true;
    let s1 = step(&level, &s0, "").unwrap();
    assert!(s1.player == Point::new(0, 1));
    assert!(s1.enemies == vec![Point::new(1, 0)]);
    assert!(s1.enemies_origin == vec![Point::new(0, 0)]);
    assert!(!s1.did_lose);
}

#[test]
fn resting_enemies_stand_still() {
    let level = open_level(3, 2);
    let mut s0 = State::new(Point::new(0, 1), Point::new(2, 1));
    s0.enemies = vec![Point::new(2, 0)];
    s0.enemies_origin = vec![Point::new(0, 0)];
    let s1 = step(&level, &s0, "").unwrap();
    assert!(s1.enemies == vec![Point::new(2, 0)]);
}

#[test]
fn enemy_reaching_the_player_loses_the_game() {
    let level = open_level(3, 2);
    let mut s0 = State::new(Point::new(1, 0), Point::new(2, 1));
    s0.enemies = vec![Point::new(2, 0)];
    s0.enemies_origin = vec![Point::new(0, 0)];
    s0.enemies_move = true;
    let s1 = step(&level, &s0, "").unwrap();
    assert!(s1.enemies == vec![Point::new(1, 0)]);
    assert!(s1.did_lose);
    assert!(!s1.did_win);
}

#[test]
fn enemy_refuses_a_switch_tile() {
    let level = open_level(3, 2);
    let mut s0 = State::new(Point::new(0, 1), Point::new(2, 1));
    s0.enemies = vec![Point::new(2, 0)];
    s0.enemies_origin = vec![Point::new(0, 0)];
    s0.enemies_move = true;
    s0.switches = vec![Point::new(1, 0)];
    let s1 = step(&level, &s0, "").unwrap();
    assert!(s1.enemies == vec![Point::new(2, 0)]);
}

#[test]
fn enemy_refuses_the_exit_tile() {
    let level = open_level(3, 1);
    let mut s0 = State::new(Point::new(0, 0), Point::new(1, 0));
    s0.enemies = vec![Point::new(2, 0)];
    s0.enemies_origin = vec![Point::new(0, 0)];
    s0.enemies_move = true;
    let s1 = step(&level, &s0, "").unwrap();
    assert!(s1.enemies == vec![Point::new(2, 0)]);
}

#[test]
fn walking_onto_a_spike_loses() {
    let level = open_level(2, 1);
    let mut s0 = State::new(Point::new(0, 0), Point::new(1, 0));
    s0.spikes = vec![Point::new(1, 0)];
    let s1 = step(&level, &s0, "d").unwrap();
    assert!(s1.player == Point::new(1, 0));
    assert!(s1.did_lose);
    assert!(!s1.did_win);
}
