//! Balancing energy between two links at fixed positions: the sending link
//! empties into the receiving one whenever it is full and the receiver is
//! empty.

use vstd::prelude::*;
use crate::creep_target::{EntityId, ObjectKind, Pos, WorldObject};

verus! {

/// Index of the first link at the given position.
pub open spec fn link_at(objs: Seq<WorldObject>, pos: Pos) -> Option<int>
    decreases objs.len(),
{
    if objs.len() == 0 {
        None
    } else {
        match link_at(objs.drop_last(), pos) {
            Some(i) => Some(i),
            None => if objs.last().kind == ObjectKind::Link && objs.last().pos == pos {
                Some(objs.len() - 1)
            } else {
                None
            },
        }
    }
}

/// The transfer to make, as (sender, receiver), if any.
pub open spec fn link_transfer(objs: Seq<WorldObject>, src: Pos, dst: Pos) -> Option<(EntityId, EntityId)> {
    match (link_at(objs, src), link_at(objs, dst)) {
        (Some(i), Some(j)) => if objs[i].free == 0 && objs[j].used == 0 {
            Some((objs[i].id, objs[j].id))
        } else {
            None
        },
        _ => None,
    }
}

fn find_link_at(objects: &Vec<WorldObject>, pos: Pos) -> (r: Option<usize>)
    ensures
        r matches Some(i) ==> link_at(objects@, pos) == Some(i as int) && i < objects@.len(),
        r is None ==> link_at(objects@, pos) is None,
{
    let mut i: usize = 0;
    while i < objects.len()
        invariant
            i <= objects@.len(),
            link_at(objects@.take(i as int), pos) is None,
        decreases objects@.len() - i,
    {
        assert(objects@.take(i + 1).drop_last() == objects@.take(i as int));
        if objects[i].kind == ObjectKind::Link && objects[i].pos == pos {
            proof {
                lemma_link_at_prefix(objects@, pos, i + 1);
            }
            return Some(i);
        }
        i = i + 1;
    }
    assert(objects@.take(objects@.len() as int) == objects@);
    None
}

proof fn lemma_link_at_prefix(objs: Seq<WorldObject>, pos: Pos, n: int)
    requires
        0 <= n <= objs.len(),
        link_at(objs.take(n), pos) is Some,
    ensures
        link_at(objs, pos) == link_at(objs.take(n), pos),
    decreases objs.len() - n,
{
    if n < objs.len() {
        assert(objs.take(n + 1).drop_last() == objs.take(n));
        lemma_link_at_prefix(objs, pos, n + 1);
    } else {
        assert(objs.take(n) == objs);
    }
}

/// Decides this tick's link transfer: see [`link_transfer`].
pub fn link_tx_from_mine(objects: &Vec<WorldObject>, src: Pos, dst: Pos) -> (r: Option<(EntityId, EntityId)>)
    ensures
        r == link_transfer(objects@, src, dst),
{
    let s = find_link_at(objects, src);
    let d = find_link_at(objects, dst);
    match (s, d) {
        (Some(i), Some(j)) => if objects[i].free == 0 && objects[j].used == 0 {
            Some((objects[i].id, objects[j].id))
        } else {
            None
        },
        _ => None,
    }
}

} // verus!
