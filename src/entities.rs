use vstd::prelude::*;
use crate::geometry::{extent_ok, position_ok, size_ok, Aabb, PlayArea, Vec2, SIZE_LIMIT};

verus! {

/// The input state sampled once per tick.
#[derive(Clone, Copy, Debug, PartialEq, Eq, Structural)]
pub struct Input {
    /// "move left" is held.
    pub left: bool,
    /// "move right" is held.
    pub right: bool,
    /// The pause key went down since the previous tick (an edge, not a level).
    pub pause: bool,
}

/// The player's basket.
#[derive(Clone, Copy, Debug, PartialEq, Eq, Structural)]
pub struct Player {
    pub pos: Vec2,
    pub half: Vec2,
    /// Horizontal speed, pixels per second.
    pub speed: i64,
}

/// A falling object. `id` is its stable handle in the store.
#[derive(Clone, Copy, Debug, PartialEq, Eq, Structural)]
pub struct Falling {
    pub id: u64,
    pub pos: Vec2,
    pub half: Vec2,
    /// Downward speed, pixels per second.
    pub fall_speed: i64,
}

/// -1 for left, 1 for right, 0 when both or neither direction is held.
pub open spec fn steer(input: Input) -> int {
    if input.left && !input.right {
        -1
    } else if input.right && !input.left {
        1
    } else {
        0
    }
}

/// Keep `v` at least `lo`, else at most `hi` (the lower limit is tested first).
pub open spec fn clamp(v: int, lo: int, hi: int) -> int {
    if v < lo {
        lo
    } else if v > hi {
        hi
    } else {
        v
    }
}

/// The distance covered at `speed` in `dt` microseconds, in micro-units.
fn travel(speed: i64, dt: u64) -> (r: i128)
    requires
        size_ok(speed as int),
    ensures
        r == speed * dt,
        0 <= r <= SIZE_LIMIT * 0x1_0000_0000_0000_0000,
{
    proof {
        assert(0 <= speed * dt <= SIZE_LIMIT * 0x1_0000_0000_0000_0000) by (nonlinear_arith)
            requires
                0 <= speed <= SIZE_LIMIT,
                0 <= dt < 0x1_0000_0000_0000_0000,
        ;
    }
    speed as i128 * dt as i128
}

impl Player {
    pub open spec fn wf(self) -> bool {
        position_ok(self.pos) && extent_ok(self.half) && size_ok(self.speed as int)
    }

    /// The smallest x that keeps the whole box inside the play area.
    pub open spec fn left_limit(self, area: PlayArea) -> int {
        -area.half_width() + self.half.x
    }

    /// The largest x that keeps the whole box inside the play area.
    pub open spec fn right_limit(self, area: PlayArea) -> int {
        area.half_width() - self.half.x
    }

    pub open spec fn bounds(self) -> Aabb {
        Aabb { center: self.pos, half: self.half }
    }

    /// The player's box.
    pub fn bounding_box(&self) -> (r: Aabb)
        ensures
            r == self.bounds(),
    {
        Aabb { center: self.pos, half: self.half }
    }

    /// The player after one tick of movement: moved by `speed * dt` in the
    /// steered direction, then clamped to the horizontal limits.
    pub open spec fn moved(self, dt: int, input: Input, area: PlayArea) -> Player {
        let x = clamp(
            self.pos.x + steer(input) * self.speed * dt,
            self.left_limit(area),
            self.right_limit(area),
        );
        Player { pos: Vec2 { x: x as i64, y: self.pos.y }, ..self }
    }

    /// Move the player for one tick of `dt` microseconds.
    pub fn advance(&mut self, dt: u64, input: Input, area: PlayArea)
        requires
            old(self).wf(),
            area.wf(),
        ensures
            *final(self) == old(self).moved(dt as int, input, area),
            final(self).wf(),
    {
        let step = travel(self.speed, dt);
        proof {
            let k = steer(input);
            assert(k * self.speed * dt == k * step) by (nonlinear_arith)
                requires
                    step == self.speed * dt,
            ;
        }
        let mut x = self.pos.x as i128;
        if input.left && !input.right {
            x = x - step;
        } else if input.right && !input.left {
            x = x + step;
        }
        let half_width = area.width / 2;
        let lo = -(half_width as i128) + self.half.x as i128;
        let hi = half_width as i128 - self.half.x as i128;
        if x < lo {
            x = lo;
        } else if x > hi {
            x = hi;
        }
        assert(x == clamp(
            self.pos.x + steer(input) * self.speed * dt,
            self.left_limit(area),
            self.right_limit(area),
        ));
        self.pos.x = x as i64;
    }
}

impl Falling {
    pub open spec fn wf(self) -> bool {
        position_ok(self.pos) && extent_ok(self.half) && size_ok(self.fall_speed as int)
    }

    pub open spec fn bounds(self) -> Aabb {
        Aabb { center: self.pos, half: self.half }
    }

    /// The object's box.
    pub fn bounding_box(&self) -> (r: Aabb)
        ensures
            r == self.bounds(),
    {
        Aabb { center: self.pos, half: self.half }
    }

    /// The height of the center after falling for `dt`.
    pub open spec fn dropped_y(self, dt: int) -> int {
        self.pos.y - self.fall_speed * dt
    }

    /// After falling for `dt` the top of the box is below the bottom edge.
    pub open spec fn leaves(self, dt: int, area: PlayArea) -> bool {
        self.dropped_y(dt) + self.half.y < -area.half_height()
    }

    /// The object after one tick: gone once it has left the area, else lowered.
    pub open spec fn fallen(self, dt: int, area: PlayArea) -> Option<Falling> {
        if self.leaves(dt, area) {
            None
        } else {
            Some(Falling { pos: Vec2 { x: self.pos.x, y: self.dropped_y(dt) as i64 }, ..self })
        }
    }
}

pub open spec fn fall_rule(dt: int, area: PlayArea) -> spec_fn(Falling) -> Option<Falling> {
    |f: Falling| f.fallen(dt, area)
}

/// The store after one tick of falling: each object lowered, those that left removed.
pub open spec fn fall_all(s: Seq<Falling>, dt: int, area: PlayArea) -> Seq<Falling> {
    s.filter_map(fall_rule(dt, area))
}

pub open spec fn all_wf(s: Seq<Falling>) -> bool {
    forall|i: int| 0 <= i < s.len() ==> #[trigger] s[i].wf()
}

/// One falling step of a single object; `None` once it has left the area.
pub fn fall_one(f: Falling, dt: u64, area: PlayArea) -> (r: Option<Falling>)
    requires
        f.wf(),
        area.wf(),
    ensures
        r == f.fallen(dt as int, area),
        r matches Some(g) ==> g.wf(),
{
    let drop = travel(f.fall_speed, dt);
    let y = f.pos.y as i128 - drop;
    let bottom = -((area.height / 2) as i128);
    if y + (f.half.y as i128) < bottom {
        None
    } else {
        Some(Falling { pos: Vec2 { x: f.pos.x, y: y as i64 }, ..f })
    }
}

/// Lower every object for one tick and drop those that left the area.
/// Objects are independent: each result depends on its own object only.
pub fn fall_step(store: &Vec<Falling>, dt: u64, area: PlayArea) -> (r: Vec<Falling>)
    requires
        all_wf(store@),
        area.wf(),
    ensures
        r@ == fall_all(store@, dt as int, area),
        all_wf(r@),
{
    let mut out: Vec<Falling> = Vec::new();
    let mut i: usize = 0;
    while i < store.len()
        invariant
            0 <= i <= store@.len(),
            all_wf(store@),
            area.wf(),
            out@ == store@.take(i as int).filter_map(fall_rule(dt as int, area)),
            all_wf(out@),
        decreases store@.len() - i,
    {
        let next = fall_one(store[i], dt, area);
        proof {
            store@.lemma_filter_map_take_succ(fall_rule(dt as int, area), i as int);
        }
        match next {
            Some(g) => {
                out.push(g);
            },
            None => {},
        }
        i = i + 1;
    }
    assert(store@.take(store@.len() as int) =~= store@);
    out
}

} // verus!
