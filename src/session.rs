use vstd::prelude::*;
use crate::collision::{catch_step, caught_count, missed_by, uncaught};
use crate::entities::{all_wf, fall_all, fall_rule, fall_step, steer, Falling, Input, Player};
use crate::geometry::{extent_ok, position_ok, size_ok, PlayArea, Vec2, SIZE_LIMIT};
use crate::spawner::{
    make_falling, random_between, spawn_range, spawn_reach, spawnable, spawned, SpawnTimer,
};

verus! {

/// Horizontal speed of the player, pixels per second.
pub const PLAYER_SPEED: i64 = 300;

/// Handles strictly increase along the store, so each names one object.
pub open spec fn ids_increasing(s: Seq<Falling>) -> bool {
    forall|i: int, j: int| 0 <= i < j < s.len() ==> s[i].id < s[j].id
}

/// Every handle in the store is below `n`.
pub open spec fn ids_below(s: Seq<Falling>, n: int) -> bool {
    forall|i: int| 0 <= i < s.len() ==> s[i].id < n
}

/// Removing objects keeps the handles increasing and below any bound they were below.
proof fn lemma_filter_keeps_ids(s: Seq<Falling>, p: spec_fn(Falling) -> bool, n: int)
    requires
        ids_increasing(s),
        ids_below(s, n),
    ensures
        ids_increasing(s.filter(p)),
        ids_below(s.filter(p), n),
    decreases s.len(),
{
    reveal(Seq::filter);
    if s.len() > 0 {
        let rest = s.drop_last();
        lemma_filter_keeps_ids(rest, p, s.last().id as int);
    }
}

/// Falling keeps each handle, so the same holds of a falling step.
proof fn lemma_fall_keeps_ids(s: Seq<Falling>, dt: int, area: PlayArea, n: int)
    requires
        ids_increasing(s),
        ids_below(s, n),
    ensures
        ids_increasing(fall_all(s, dt, area)),
        ids_below(fall_all(s, dt, area), n),
    decreases s.len(),
{
    if s.len() > 0 {
        let rest = s.drop_last();
        lemma_fall_keeps_ids(rest, dt, area, s.last().id as int);
        assert(fall_all(s, dt, area) == match s.last().fallen(dt, area) {
            Some(g) => fall_all(rest, dt, area) + seq![g],
            None => fall_all(rest, dt, area),
        });
    }
}

/// The sum of the durations of a run of ticks.
pub open spec fn total(dts: Seq<int>) -> int
    decreases dts.len(),
{
    if dts.len() == 0 {
        0
    } else {
        total(dts.drop_last()) + dts.last()
    }
}

/// The store after falling through ticks of the given durations, in order.
pub open spec fn fall_through(s: Seq<Falling>, dts: Seq<int>, area: PlayArea) -> Seq<Falling>
    decreases dts.len(),
{
    if dts.len() == 0 {
        s
    } else {
        fall_all(fall_through(s, dts.drop_last(), area), dts.last(), area)
    }
}

/// The height of `e`'s center after a drop of `fall_speed * t`.
pub open spec fn lowered(e: Falling, t: int) -> int {
    e.pos.y - e.fall_speed * t
}

/// Whatever is left in the store under `e`'s handle is `e`, lowered by the
/// whole drop, and it has not yet passed the bottom edge.
proof fn lemma_fall_tracks(s: Seq<Falling>, e: Falling, dts: Seq<int>, area: PlayArea)
    requires
        area.wf(),
        e.wf(),
        forall|k: int| 0 <= k < dts.len() ==> dts[k] >= 0,
        forall|k: int| 0 <= k < s.len() && s[k].id == e.id ==> s[k] == e,
    ensures
        total(dts) >= 0,
        forall|j: int|
            0 <= j < fall_through(s, dts, area).len() && (#[trigger] fall_through(s, dts, area)[j]).id
                == e.id ==> {
                let f = fall_through(s, dts, area)[j];
                &&& f.pos.x == e.pos.x
                &&& f.pos.y == lowered(e, total(dts))
                &&& f.half == e.half
                &&& f.fall_speed == e.fall_speed
                &&& dts.len() > 0 ==> lowered(e, total(dts)) + e.half.y >= -area.half_height()
            },
    decreases dts.len(),
{
    if dts.len() > 0 {
        let rest = dts.drop_last();
        let d = dts.last();
        let prev = fall_through(s, rest, area);
        let r = fall_through(s, dts, area);
        lemma_fall_tracks(s, e, rest, area);
        let t0 = total(rest);
        assert(e.fall_speed * t0 >= 0 && e.fall_speed * d >= 0) by (nonlinear_arith)
            requires
                e.fall_speed >= 0,
                t0 >= 0,
                d >= 0,
        ;
        assert(lowered(e, total(dts)) == lowered(e, t0) - e.fall_speed * d) by (nonlinear_arith)
            requires
                total(dts) == t0 + d,
        ;
        assert forall|j: int| 0 <= j < r.len() && (#[trigger] r[j]).id == e.id implies {
            &&& r[j].pos.x == e.pos.x
            &&& r[j].pos.y == lowered(e, total(dts))
            &&& r[j].half == e.half
            &&& r[j].fall_speed == e.fall_speed
            &&& lowered(e, total(dts)) + e.half.y >= -area.half_height()
        } by {
            assert(r.contains(r[j]));
            prev.lemma_filter_map_contains(fall_rule(d, area), r[j]);
            let t = choose|t: Falling| #[trigger] prev.contains(t) && t.fallen(d, area) == Some(r[j]);
            let k = choose|k: int| 0 <= k < prev.len() && prev[k] == t;
            assert(prev[k].id == e.id);
        }
    }
}

/// An object that falls without being caught is gone from the store once
/// its accumulated drop, `fall_speed` times the summed tick durations,
/// exceeds the height from which the top of its box passes the bottom edge.
pub proof fn lemma_uncaught_object_leaves(s: Seq<Falling>, i: int, dts: Seq<int>, area: PlayArea)
    requires
        area.wf(),
        all_wf(s),
        ids_increasing(s),
        0 <= i < s.len(),
        dts.len() > 0,
        forall|k: int| 0 <= k < dts.len() ==> dts[k] >= 0,
        s[i].fall_speed * total(dts) > s[i].pos.y + s[i].half.y + area.half_height(),
    ensures
        forall|j: int|
            0 <= j < fall_through(s, dts, area).len() ==> (#[trigger] fall_through(
                s,
                dts,
                area,
            )[j]).id != s[i].id,
{
    let e = s[i];
    assert forall|k: int| 0 <= k < s.len() && s[k].id == e.id implies s[k] == e by {
        if k < i {
            assert(s[k].id < s[i].id);
        } else if k > i {
            assert(s[i].id < s[k].id);
        }
    }
    lemma_fall_tracks(s, e, dts, area);
}

/// What a session holds, as plain values.
pub struct SessionView {
    pub player: Player,
    pub falling: Seq<Falling>,
    pub timer: SpawnTimer,
    pub score: u64,
    /// The handle that the next object gets.
    pub next_id: u64,
}

impl SessionView {
    pub open spec fn wf(self) -> bool {
        &&& self.player.wf()
        &&& all_wf(self.falling)
        &&& self.timer.wf()
        &&& ids_increasing(self.falling)
        &&& ids_below(self.falling, self.next_id as int)
    }

    /// The player and the store after the movement system ran for `dt`.
    pub open spec fn moved(self, dt: int, input: Input, area: PlayArea) -> SessionView {
        SessionView {
            player: self.player.moved(dt, input, area),
            falling: fall_all(self.falling, dt, area),
            ..self
        }
    }

    /// Whether the spawner creates an object in this tick: the timer fires,
    /// the object's size is known, the spawn range is not empty and a handle is left.
    pub open spec fn spawn_due(self, dt: int, area: PlayArea, size: Option<Vec2>) -> bool {
        &&& self.timer.fires(dt)
        &&& size is Some
        &&& spawnable(area, size.unwrap())
        &&& self.next_id < u64::MAX
    }

    /// The session after the spawner ran for `dt`, a new object going to `x`.
    pub open spec fn spawned(self, dt: int, area: PlayArea, size: Option<Vec2>, x: int) -> SessionView {
        if self.spawn_due(dt, area, size) {
            SessionView {
                timer: self.timer.ticked(dt),
                falling: self.falling.push(spawned(self.next_id, x, area, size.unwrap())),
                next_id: (self.next_id + 1) as u64,
                ..self
            }
        } else {
            SessionView { timer: self.timer.ticked(dt), ..self }
        }
    }

    /// The session after the collision resolver ran: every caught object is
    /// gone and counted (the score stops at `u64::MAX`).
    pub open spec fn caught(self) -> SessionView {
        let total = self.score + caught_count(self.falling, self.player);
        SessionView {
            falling: uncaught(self.falling, self.player),
            score: (if total > u64::MAX { u64::MAX as int } else { total }) as u64,
            ..self
        }
    }

    /// One tick: movement, then spawning, then catching. Without a play area
    /// movement and spawning are skipped.
    pub open spec fn step(
        self,
        dt: int,
        input: Input,
        area: Option<PlayArea>,
        size: Option<Vec2>,
        x: int,
    ) -> SessionView {
        match area {
            Some(a) => self.moved(dt, input, a).spawned(dt, a, size, x).caught(),
            None => self.caught(),
        }
    }

    /// Whether `x` is a position the spawner may pick in this tick.
    pub open spec fn spawn_choice(
        self,
        dt: int,
        area: Option<PlayArea>,
        size: Option<Vec2>,
        x: int,
    ) -> bool {
        match area {
            Some(a) => self.spawn_due(dt, a, size) ==> -spawn_reach(a, size.unwrap()) <= x
                <= spawn_reach(a, size.unwrap()),
            None => true,
        }
    }
}

/// With neither direction key held (or both), a tick leaves the player where
/// it was, as long as it stood within the horizontal limits.
pub proof fn lemma_idle_player_stays(
    s: SessionView,
    dt: int,
    input: Input,
    area: Option<PlayArea>,
    size: Option<Vec2>,
    x: int,
)
    requires
        s.wf(),
        steer(input) == 0,
        area matches Some(a) ==> s.player.left_limit(a) <= s.player.pos.x <= s.player.right_limit(a),
    ensures
        s.step(dt, input, area, size, x).player == s.player,
{
    assert(steer(input) * s.player.speed * dt == 0) by (nonlinear_arith)
        requires
            steer(input) == 0,
    ;
}

/// Whatever the input and the duration, after a tick the player's box lies
/// within the horizontal bounds of the area (when the box fits in the area).
pub proof fn lemma_player_within_limits(
    s: SessionView,
    dt: int,
    input: Input,
    area: PlayArea,
    size: Option<Vec2>,
    x: int,
)
    requires
        s.wf(),
        area.wf(),
        s.player.half.x <= area.half_width(),
    ensures
        ({
            let p = s.step(dt, input, Some(area), size, x).player;
            p.left_limit(area) <= p.pos.x <= p.right_limit(area)
        }),
{
}

/// The player at the start of a game: bottom-center, resting on the bottom edge.
pub open spec fn start_player(area: PlayArea, size: Vec2) -> Player {
    Player {
        pos: Vec2 { x: 0, y: (-area.half_height() + size.y / 2) as i64 },
        half: Vec2 { x: (size.x / 2) as i64, y: (size.y / 2) as i64 },
        speed: PLAYER_SPEED,
    }
}

/// A fresh session: the start player, no objects, a fresh timer, score 0.
pub open spec fn fresh_session(area: PlayArea, size: Vec2, interval: u64) -> SessionView {
    SessionView {
        player: start_player(area, size),
        falling: Seq::empty(),
        timer: SpawnTimer { interval, elapsed: 0 },
        score: 0,
        next_id: 0,
    }
}

/// One game session: the entity store, the spawn timer and the score.
pub struct Session {
    player: Player,
    falling: Vec<Falling>,
    timer: SpawnTimer,
    score: u64,
    next_id: u64,
}

impl View for Session {
    type V = SessionView;

    closed spec fn view(&self) -> SessionView {
        SessionView {
            player: self.player,
            falling: self.falling@,
            timer: self.timer,
            score: self.score,
            next_id: self.next_id,
        }
    }
}

impl Session {
    /// Start a session in `area` for a player sprite of native size `player_size`,
    /// spawning every `interval` microseconds.
    pub fn new(area: PlayArea, player_size: Vec2, interval: u64) -> (r: Session)
        requires
            area.wf(),
            extent_ok(player_size),
            0 < interval,
        ensures
            r@ == fresh_session(area, player_size, interval),
            r@.wf(),
    {
        let player = Player {
            pos: Vec2 { x: 0, y: -(area.height / 2) + player_size.y / 2 },
            half: Vec2 { x: player_size.x / 2, y: player_size.y / 2 },
            speed: PLAYER_SPEED,
        };
        let r = Session {
            player,
            falling: Vec::new(),
            timer: SpawnTimer::new(interval),
            score: 0,
            next_id: 0,
        };
        assert(r@.falling =~= Seq::<Falling>::empty());
        r
    }

    pub fn player(&self) -> (r: Player)
        ensures
            r == self@.player,
    {
        self.player
    }

    pub fn falling(&self) -> (r: &Vec<Falling>)
        ensures
            r@ == self@.falling,
    {
        &self.falling
    }

    pub fn timer(&self) -> (r: SpawnTimer)
        ensures
            r == self@.timer,
    {
        self.timer
    }

    pub fn score(&self) -> (r: u64)
        ensures
            r == self@.score,
    {
        self.score
    }

    /// Put a new object into the store under the next free handle, which is
    /// returned; `None`, and nothing changes, once every handle is used.
    pub fn insert_falling(&mut self, pos: Vec2, half: Vec2, fall_speed: i64) -> (r: Option<u64>)
        requires
            old(self)@.wf(),
            position_ok(pos),
            extent_ok(half),
            size_ok(fall_speed as int),
        ensures
            final(self)@.wf(),
            old(self)@.next_id < u64::MAX ==> r == Some(old(self)@.next_id) && final(self)@ == (
            SessionView {
                falling: old(self)@.falling.push(
                    Falling { id: old(self)@.next_id, pos, half, fall_speed },
                ),
                next_id: (old(self)@.next_id + 1) as u64,
                ..old(self)@
            }),
            old(self)@.next_id == u64::MAX ==> r is None && final(self)@ == old(self)@,
    {
        if self.next_id == u64::MAX {
            return None;
        }
        let id = self.next_id;
        self.falling.push(Falling { id, pos, half, fall_speed });
        self.next_id = id + 1;
        Some(id)
    }

    /// The movement system: steer and clamp the player, lower every object and
    /// remove those that left the area. The score does not change.
    pub fn move_entities(&mut self, dt: u64, input: Input, area: PlayArea)
        requires
            old(self)@.wf(),
            area.wf(),
        ensures
            final(self)@ == old(self)@.moved(dt as int, input, area),
            final(self)@.wf(),
    {
        self.player.advance(dt, input, area);
        self.falling = fall_step(&self.falling, dt, area);
        proof {
            lemma_fall_keeps_ids(old(self)@.falling, dt as int, area, self.next_id as int);
        }
    }

    /// Whether the spawner creates an object in a tick of `dt`; if so, the
    /// half-width of the range it picks the position from.
    pub fn spawn_due(&self, dt: u64, area: PlayArea, size: Option<Vec2>) -> (r: Option<i64>)
        requires
            area.wf(),
            size matches Some(z) ==> extent_ok(z),
        ensures
            r is Some <==> self@.spawn_due(dt as int, area, size),
            r matches Some(reach) ==> reach == spawn_reach(area, size.unwrap()) && 0 <= reach
                <= SIZE_LIMIT / 2,
    {
        match size {
            Some(z) => {
                if self.timer.will_fire(dt) && z.x / 2 <= area.width && self.next_id < u64::MAX {
                    Some(spawn_range(area, z))
                } else {
                    None
                }
            },
            None => None,
        }
    }

    /// The spawner: advance the timer and, when a spawn is due, create an
    /// object at horizontal position `x`.
    pub fn run_spawner(&mut self, dt: u64, area: PlayArea, size: Option<Vec2>, x: i64)
        requires
            old(self)@.wf(),
            area.wf(),
            size matches Some(z) ==> extent_ok(z),
            -SIZE_LIMIT <= x <= SIZE_LIMIT,
        ensures
            final(self)@ == old(self)@.spawned(dt as int, area, size, x as int),
            final(self)@.wf(),
    {
        let due = self.spawn_due(dt, area, size);
        self.timer.tick(dt);
        match (due, size) {
            (Some(_), Some(z)) => {
                let id = self.next_id;
                self.falling.push(make_falling(id, x, area, z));
                self.next_id = id + 1;
            },
            _ => {},
        }
    }

    /// The collision resolver: every object that overlaps the player is
    /// removed and adds one to the score.
    pub fn resolve_catches(&mut self)
        requires
            old(self)@.wf(),
        ensures
            final(self)@ == old(self)@.caught(),
            final(self)@.wf(),
    {
        let (kept, count) = catch_step(&self.player, &self.falling);
        proof {
            lemma_filter_keeps_ids(self.falling@, missed_by(self.player), self.next_id as int);
        }
        self.falling = kept;
        let count = count as u64;
        if count > u64::MAX - self.score {
            self.score = u64::MAX;
        } else {
            self.score = self.score + count;
        }
    }

    /// One tick with the spawn position given: movement, spawning (a new object
    /// goes to `spawn_x`), catching. Without a play area only catching runs.
    pub fn advance_with(
        &mut self,
        dt: u64,
        input: Input,
        area: Option<PlayArea>,
        size: Option<Vec2>,
        spawn_x: i64,
    )
        requires
            old(self)@.wf(),
            area matches Some(a) ==> a.wf(),
            size matches Some(z) ==> extent_ok(z),
            -SIZE_LIMIT <= spawn_x <= SIZE_LIMIT,
        ensures
            final(self)@ == old(self)@.step(dt as int, input, area, size, spawn_x as int),
            final(self)@.wf(),
    {
        match area {
            Some(a) => {
                self.move_entities(dt, input, a);
                self.run_spawner(dt, a, size, spawn_x);
            },
            None => {},
        }
        self.resolve_catches();
    }

    /// One tick: as `advance_with`, the spawn position drawn uniformly from
    /// `[-spawn_reach, spawn_reach]` when a spawn is due.
    pub fn advance(&mut self, dt: u64, input: Input, area: Option<PlayArea>, size: Option<Vec2>)
        requires
            old(self)@.wf(),
            area matches Some(a) ==> a.wf(),
            size matches Some(z) ==> extent_ok(z),
        ensures
            exists|x: int|
                old(self)@.spawn_choice(dt as int, area, size, x) && final(self)@ == old(
                    self,
                )@.step(dt as int, input, area, size, x),
            final(self)@.wf(),
    {
        let due = match area {
            Some(a) => self.spawn_due(dt, a, size),
            None => None,
        };
        let x = match due {
            Some(reach) => random_between(-reach, reach),
            None => 0,
        };
        self.advance_with(dt, input, area, size, x);
        assert(old(self)@.spawn_choice(dt as int, area, size, x as int));
    }
}

} // verus!
