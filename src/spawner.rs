use vstd::prelude::*;
use rand::Rng;
use crate::entities::Falling;
use crate::geometry::{extent_ok, PlayArea, Vec2, SIZE_LIMIT};

verus! {

/// Time between two spawns at the start of a game, in microseconds.
pub const SPAWN_INTERVAL: u64 = 1_750_000;

/// Downward speed of a new object, pixels per second.
pub const FALL_SPEED: i64 = 150;

/// A repeating countdown. `elapsed` stays below `interval`.
#[derive(Clone, Copy, Debug, PartialEq, Eq, Structural)]
pub struct SpawnTimer {
    pub interval: u64,
    pub elapsed: u64,
}

impl SpawnTimer {
    pub open spec fn wf(self) -> bool {
        0 < self.interval && self.elapsed < self.interval
    }

    /// Whether the countdown expires during a tick of `dt`.
    pub open spec fn fires(self, dt: int) -> bool {
        self.elapsed + dt >= self.interval
    }

    /// The timer after a tick of `dt`: on expiry what is left over is kept
    /// modulo the interval, so one tick never owes more than one spawn.
    pub open spec fn ticked(self, dt: int) -> SpawnTimer {
        let total = self.elapsed + dt;
        SpawnTimer {
            interval: self.interval,
            elapsed: (if total >= self.interval { total % (self.interval as int) } else { total }) as u64,
        }
    }

    /// A fresh timer that fires every `interval` microseconds.
    pub fn new(interval: u64) -> (r: SpawnTimer)
        requires
            0 < interval,
        ensures
            r == (SpawnTimer { interval, elapsed: 0 }),
            r.wf(),
    {
        SpawnTimer { interval, elapsed: 0 }
    }

    /// Whether a tick of `dt` makes the timer fire, without advancing it.
    pub fn will_fire(&self, dt: u64) -> (r: bool)
        ensures
            r == self.fires(dt as int),
    {
        self.elapsed as u128 + dt as u128 >= self.interval as u128
    }

    /// Advance the timer by `dt`; returns whether it fired.
    pub fn tick(&mut self, dt: u64) -> (fired: bool)
        requires
            old(self).wf(),
        ensures
            fired == old(self).fires(dt as int),
            *final(self) == old(self).ticked(dt as int),
            final(self).wf(),
    {
        let total = self.elapsed as u128 + dt as u128;
        let interval = self.interval as u128;
        if total >= interval {
            self.elapsed = (total % interval) as u64;
            true
        } else {
            self.elapsed = total as u64;
            false
        }
    }
}

/// Whether an object of native size `size` can be spawned in `area`:
/// the spawn range below is not empty.
pub open spec fn spawnable(area: PlayArea, size: Vec2) -> bool {
    size.x / 2 <= area.width
}

/// Half the width of the range of spawn positions, `(width - size.x / 2) / 2`.
pub open spec fn spawn_reach(area: PlayArea, size: Vec2) -> int {
    (area.width - size.x / 2) / 2
}

/// A new object at horizontal position `x`: its top edge at the top of the
/// area, half-extent a quarter of the native size (display scale one half).
pub open spec fn spawned(id: u64, x: int, area: PlayArea, size: Vec2) -> Falling {
    Falling {
        id,
        pos: Vec2 { x: x as i64, y: (area.half_height() + size.y / 4) as i64 },
        half: Vec2 { x: (size.x / 4) as i64, y: (size.y / 4) as i64 },
        fall_speed: FALL_SPEED,
    }
}

/// `spawn_reach`, for a size that can be spawned.
pub fn spawn_range(area: PlayArea, size: Vec2) -> (r: i64)
    requires
        area.wf(),
        extent_ok(size),
        spawnable(area, size),
    ensures
        r == spawn_reach(area, size),
        0 <= r <= SIZE_LIMIT / 2,
{
    (area.width - size.x / 2) / 2
}

/// The object that a spawn at `x` creates.
pub fn make_falling(id: u64, x: i64, area: PlayArea, size: Vec2) -> (r: Falling)
    requires
        area.wf(),
        extent_ok(size),
        -SIZE_LIMIT <= x <= SIZE_LIMIT,
    ensures
        r == spawned(id, x as int, area, size),
        r.wf(),
{
    Falling {
        id,
        pos: Vec2 { x, y: area.height / 2 + size.y / 4 },
        half: Vec2 { x: size.x / 4, y: size.y / 4 },
        fall_speed: FALL_SPEED,
    }
}

/// Relies on rand's `thread_rng` and `Rng::gen_range` over an inclusive range:
/// the value lies in `[lo, hi]` (`gen_range` panics on an empty range).
#[verifier::external_body]
pub(crate) fn random_between(lo: i64, hi: i64) -> (r: i64)
    requires
        lo <= hi,
    ensures
        lo <= r <= hi,
{
    rand::thread_rng().gen_range(lo..=hi)
}

} // verus!
