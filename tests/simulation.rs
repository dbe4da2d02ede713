use applecatcher::collision::catch_step;
use applecatcher::entities::{fall_one, fall_step, Falling, Input, Player};
use applecatcher::geometry::{Aabb, PlayArea, Vec2};
use applecatcher::session::{Session, PLAYER_SPEED};
use applecatcher::spawner::{make_falling, spawn_range, SpawnTimer, FALL_SPEED, SPAWN_INTERVAL};

const PX: i64 = 1_000_000;
const TENTH: u64 = 100_000;

fn idle() -> Input {
    Input { left: false, right: false, pause: false }
}

fn left() -> Input {
    Input { left: true, right: false, pause: false }
}

fn right() -> Input {
    Input { left: false, right: true, pause: false }
}

fn v(x: i64, y: i64) -> Vec2 {
    Vec2 { x: x * PX, y: y * PX }
}

fn area(w: i64, h: i64) -> PlayArea {
    PlayArea { width: w * PX, height: h * PX }
}

#[test]
fn fresh_session_starts_bottom_center() {
    let s = Session::new(area(800, 600), v(64, 32), SPAWN_INTERVAL);
    let p = s.player();
    assert_eq!(p.pos, v(0, -284));
    assert_eq!(p.half, v(32, 16));
    assert_eq!(p.speed, PLAYER_SPEED);
    assert!(s.falling().is_empty());
    assert_eq!(s.score(), 0);
    assert_eq!(s.timer(), SpawnTimer { interval: SPAWN_INTERVAL, elapsed: 0 });
}

#[test]
fn idle_player_keeps_position() {
    let a = area(800, 600);
    let mut s = Session::new(a, v(64, 32), SPAWN_INTERVAL);
    let before = s.player();
    for dt in [0u64, 1, TENTH, 5_000_000] {
        s.advance(dt, idle(), Some(a), Some(v(64, 64)));
        assert_eq!(s.player(), before);
    }
}

#[test]
fn both_keys_cancel_out() {
    let a = area(800, 600);
    let mut s = Session::new(a, v(64, 32), SPAWN_INTERVAL);
    let both = Input { left: true, right: true, pause: false };
    s.advance(TENTH, both, Some(a), None);
    assert_eq!(s.player().pos.x, 0);
}

#[test]
fn player_moves_speed_times_dt() {
    let a = area(800, 600);
    let mut s = Session::new(a, v(64, 32), SPAWN_INTERVAL);
    s.advance(TENTH, right(), Some(a), None);
    assert_eq!(s.player().pos.x, 30 * PX);
    s.advance(TENTH, left(), Some(a), None);
    s.advance(TENTH, left(), Some(a), None);
    assert_eq!(s.player().pos.x, -30 * PX);
}

#[test]
fn player_is_clamped_to_the_area() {
    let a = area(800, 600);
    let mut s = Session::new(a, v(64, 32), SPAWN_INTERVAL);
    s.advance(10_000_000, left(), Some(a), None);
    assert_eq!(s.player().pos.x, -368 * PX);
    s.advance(10_000_000, right(), Some(a), None);
    assert_eq!(s.player().pos.x, 368 * PX);
    for dt in [0u64, 3, TENTH, 999_999, u64::MAX] {
        for input in [idle(), left(), right()] {
            s.advance(dt, input, Some(a), None);
            let x = s.player().pos.x;
            assert!(-368 * PX <= x && x <= 368 * PX);
        }
    }
}

#[test]
fn player_clamp_direct() {
    let mut p = Player { pos: Vec2 { x: 0, y: 0 }, half: Vec2 { x: 10, y: 10 }, speed: 300 };
    p.advance(1_000_000, left(), PlayArea { width: 200, height: 100 });
    assert_eq!(p.pos, Vec2 { x: -90, y: 0 });
}

#[test]
fn no_play_area_skips_movement() {
    let a = area(800, 600);
    let mut s = Session::new(a, v(64, 32), SPAWN_INTERVAL);
    s.advance(TENTH, right(), None, Some(v(64, 64)));
    assert_eq!(s.player().pos.x, 0);
    assert_eq!(s.timer().elapsed, 0);
}

#[test]
fn spawn_after_eighteen_tenths() {
    let a = area(800, 600);
    let apple = v(64, 64);
    let mut s = Session::new(a, v(64, 32), 1_750_000);
    for _ in 0..17 {
        s.advance(TENTH, idle(), Some(a), Some(apple));
        assert!(s.falling().is_empty());
    }
    s.advance(TENTH, idle(), Some(a), Some(apple));
    assert_eq!(s.falling().len(), 1);
    let f = s.falling()[0];
    let reach = (800 * PX - 32 * PX) / 2;
    assert!(-reach <= f.pos.x && f.pos.x <= reach);
    assert_eq!(f.pos.y, 316 * PX);
    assert_eq!(f.half, v(16, 16));
    assert_eq!(f.fall_speed, FALL_SPEED);
    assert_eq!(s.timer().elapsed, 50_000);
}

#[test]
fn spawn_positions_stay_in_range() {
    let a = area(800, 600);
    let apple = v(64, 64);
    let reach = spawn_range(a, apple);
    assert_eq!(reach, 384 * PX);
    let mut seen_nonzero = false;
    for _ in 0..50 {
        let mut s = Session::new(a, v(64, 32), 1);
        s.advance(0, idle(), Some(a), Some(apple));
        assert!(s.falling().is_empty());
        s.advance(1, idle(), Some(a), Some(apple));
        assert_eq!(s.falling().len(), 1);
        let x = s.falling()[0].pos.x;
        assert!(-reach <= x && x <= reach);
        if x != -reach {
            seen_nonzero = true;
        }
    }
    assert!(seen_nonzero);
}

#[test]
fn one_spawn_per_tick_however_long() {
    let a = area(800, 600);
    let mut s = Session::new(a, v(64, 32), SPAWN_INTERVAL);
    s.advance(10 * SPAWN_INTERVAL + 7, idle(), Some(a), Some(v(64, 64)));
    assert_eq!(s.falling().len(), 1);
    assert_eq!(s.timer().elapsed, 7);
}

#[test]
fn spawn_skipped_without_size() {
    let a = area(800, 600);
    let mut s = Session::new(a, v(64, 32), SPAWN_INTERVAL);
    s.advance(SPAWN_INTERVAL, idle(), Some(a), None);
    assert!(s.falling().is_empty());
    assert_eq!(s.timer().elapsed, 0);
}

#[test]
fn spawn_skipped_when_range_is_empty() {
    let a = area(10, 600);
    let mut s = Session::new(a, v(4, 4), SPAWN_INTERVAL);
    s.advance(SPAWN_INTERVAL, idle(), Some(a), Some(v(64, 64)));
    assert!(s.falling().is_empty());
}

#[test]
fn timer_wraps_modulo_interval() {
    let mut t = SpawnTimer::new(1_750_000);
    assert!(!t.tick(1_700_000));
    assert_eq!(t.elapsed, 1_700_000);
    assert!(t.tick(100_000));
    assert_eq!(t.elapsed, 50_000);
    assert!(!t.will_fire(0));
    assert!(t.will_fire(1_700_000));
}

#[test]
fn make_falling_geometry() {
    let f = make_falling(7, 5 * PX, area(800, 600), v(64, 40));
    assert_eq!(f.id, 7);
    assert_eq!(f.pos, v(5, 310));
    assert_eq!(f.half, v(16, 10));
}

#[test]
fn boxes_touching_intersect() {
    let a = Aabb { center: v(0, -200), half: v(16, 16) };
    assert!(a.intersects(&Aabb { center: v(0, -200), half: v(16, 16) }));
    assert!(a.intersects(&Aabb { center: v(32, -200), half: v(16, 16) }));
    assert!(a.intersects(&Aabb { center: v(32, -232), half: v(16, 16) }));
    assert!(!a.intersects(&Aabb { center: v(33, -200), half: v(16, 16) }));
    assert!(!a.intersects(&Aabb { center: v(0, -167), half: v(16, 16) }));
}

#[test]
fn catch_at_player_position_scores_one() {
    let a = area(800, 432);
    let mut s = Session::new(a, v(32, 32), SPAWN_INTERVAL);
    assert_eq!(s.player().pos, v(0, -200));
    assert_eq!(s.player().half, v(16, 16));
    let id = s.insert_falling(v(0, -200), v(16, 16), FALL_SPEED);
    assert_eq!(id, Some(0));
    s.advance(0, idle(), Some(a), None);
    assert_eq!(s.score(), 1);
    assert!(s.falling().is_empty());
}

#[test]
fn two_catches_in_one_tick_score_two() {
    let a = area(800, 432);
    let mut s = Session::new(a, v(32, 32), SPAWN_INTERVAL);
    s.insert_falling(v(-10, -195), v(16, 16), FALL_SPEED);
    s.insert_falling(v(200, 0), v(16, 16), FALL_SPEED);
    s.insert_falling(v(12, -205), v(16, 16), FALL_SPEED);
    s.advance(0, idle(), Some(a), None);
    assert_eq!(s.score(), 2);
    assert_eq!(s.falling().len(), 1);
    assert_eq!(s.falling()[0].id, 1);
}

#[test]
fn catch_step_counts_and_keeps_order() {
    let p = Player { pos: v(0, 0), half: v(10, 10), speed: 0 };
    let store = vec![
        Falling { id: 0, pos: v(100, 0), half: v(5, 5), fall_speed: 0 },
        Falling { id: 1, pos: v(0, 14), half: v(5, 5), fall_speed: 0 },
        Falling { id: 2, pos: v(-100, 0), half: v(5, 5), fall_speed: 0 },
        Falling { id: 3, pos: v(15, 15), half: v(5, 5), fall_speed: 0 },
    ];
    let (kept, count) = catch_step(&p, &store);
    assert_eq!(count, 2);
    assert_eq!(kept.iter().map(|f| f.id).collect::<Vec<u64>>(), vec![0, 2]);
}

#[test]
fn handles_increase() {
    let a = area(800, 600);
    let mut s = Session::new(a, v(32, 32), SPAWN_INTERVAL);
    assert_eq!(s.insert_falling(v(0, 0), v(1, 1), 0), Some(0));
    assert_eq!(s.insert_falling(v(0, 0), v(1, 1), 0), Some(1));
    s.advance(SPAWN_INTERVAL, idle(), Some(a), Some(v(64, 64)));
    assert_eq!(s.falling().last().unwrap().id, 2);
}

#[test]
fn falling_object_moves_down() {
    let f = Falling { id: 0, pos: v(3, 100), half: v(16, 16), fall_speed: 150 };
    let g = fall_one(f, TENTH, area(800, 600)).unwrap();
    assert_eq!(g.pos, v(3, 85));
    assert_eq!(g.id, 0);
}

#[test]
fn falling_object_leaves_below_bottom() {
    let a = area(800, 600);
    let f = Falling { id: 0, pos: v(0, -310), half: v(16, 16), fall_speed: 150 };
    assert!(fall_one(f, 0, a).is_some());
    assert!(fall_one(f, 60_000, a).is_none());
    let edge = Falling { id: 1, pos: v(0, -316), half: v(16, 16), fall_speed: 150 };
    assert!(fall_one(edge, 0, a).is_some());
    assert!(fall_one(edge, 1, a).is_none());
}

#[test]
fn spawned_object_leaves_after_enough_ticks() {
    let a = area(800, 600);
    let apple = v(64, 64);
    let mut s = Session::new(a, v(32, 32), SPAWN_INTERVAL);
    s.advance(SPAWN_INTERVAL, idle(), Some(a), Some(apple));
    assert_eq!(s.falling().len(), 1);
    let start = s.falling()[0];
    assert_eq!(start.pos.y, 316 * PX);
    // the top passes the bottom edge after a drop of 632 px, i.e. 632 / 150 s
    let mut store = s.falling().clone();
    for _ in 0..42 {
        store = fall_step(&store, TENTH, a);
    }
    assert_eq!(store.len(), 1);
    assert_eq!(store[0].pos.y, 316 * PX - 630 * PX);
    store = fall_step(&store, TENTH, a);
    assert!(store.is_empty());
}

#[test]
fn session_despawns_without_scoring() {
    let a = area(800, 600);
    let mut s = Session::new(a, v(32, 32), SPAWN_INTERVAL);
    s.insert_falling(v(300, 0), v(16, 16), FALL_SPEED);
    s.advance(3_000_000, idle(), Some(a), None);
    assert!(s.falling().is_empty());
    assert_eq!(s.score(), 0);
}
