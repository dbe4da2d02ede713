use vstd::prelude::*;
use crate::entities::{all_wf, Falling, Player};
use crate::geometry::overlaps;

verus! {

/// Whether the player's box overlaps the object's box.
pub open spec fn catches(p: Player, f: Falling) -> bool {
    overlaps(p.bounds(), f.bounds())
}

pub open spec fn caught_by(p: Player) -> spec_fn(Falling) -> bool {
    |f: Falling| catches(p, f)
}

pub open spec fn missed_by(p: Player) -> spec_fn(Falling) -> bool {
    |f: Falling| !catches(p, f)
}

/// The objects that the player does not catch, in their order.
pub open spec fn uncaught(s: Seq<Falling>, p: Player) -> Seq<Falling> {
    s.filter(missed_by(p))
}

/// How many objects the player catches.
pub open spec fn caught_count(s: Seq<Falling>, p: Player) -> nat {
    s.filter(caught_by(p)).len()
}

/// Every caught object leaves the store, every other one stays, in order:
/// returns the objects left and how many were caught.
pub fn catch_step(player: &Player, store: &Vec<Falling>) -> (r: (Vec<Falling>, usize))
    requires
        all_wf(store@),
    ensures
        r.0@ == uncaught(store@, *player),
        r.1 == caught_count(store@, *player),
        r.0@.len() + r.1 == store@.len(),
        all_wf(r.0@),
{
    let mut kept: Vec<Falling> = Vec::new();
    let mut count: usize = 0;
    let mut i: usize = 0;
    let bounds = player.bounding_box();
    while i < store.len()
        invariant
            0 <= i <= store@.len(),
            bounds == player.bounds(),
            all_wf(store@),
            kept@ == store@.take(i as int).filter(missed_by(*player)),
            count == store@.take(i as int).filter(caught_by(*player)).len(),
            kept@.len() + count == i,
            all_wf(kept@),
        decreases store@.len() - i,
    {
        let f = store[i];
        proof {
            assert(store@.take(i as int + 1) =~= store@.take(i as int).push(f));
            store@.take(i as int).lemma_filter_push(f, missed_by(*player));
            store@.take(i as int).lemma_filter_push(f, caught_by(*player));
        }
        if bounds.intersects(&f.bounding_box()) {
            count = count + 1;
        } else {
            kept.push(f);
        }
        i = i + 1;
    }
    assert(store@.take(store@.len() as int) =~= store@);
    (kept, count)
}

} // verus!
