//! Target resolution: for each role, an ordered chain of queries for
//! delivering and one for collecting; the first query of the chain that
//! finds something gives the target.

use vstd::prelude::*;
use crate::creep_composition::CreepType;
use crate::creep_target::{
    ActionCommand, CreepTarget, ObjectKind, Pos, Query, WorldObject, pick_exec, pick_target,
    range, range_between, snapshot_valid, source_query, container_query, storage_query,
    site_query, spawn_or_extension_query, controller_query, tower_query, link_query,
    source_query_exec, container_query_exec, storage_query_exec, site_query_exec,
    tower_query_exec, link_query_exec, spawn_or_extension_query_exec, controller_query_exec,
    WORLD_MIN, WORLD_END,
};

verus! {

/// Energy carried by one carry part.
pub const CARRY_UNIT: u16 = 50;

/// The energy a creep carries (`used`) and the room it has left (`free`).
#[derive(Clone, Copy, Debug, PartialEq, Eq, Structural)]
pub struct CarryState {
    pub used: u32,
    pub free: i32,
}

/// Where a miner works: the source it harvests and, for a miner that also
/// feeds a link, that link's position.
#[derive(Clone, Copy, Debug, PartialEq, Eq, Structural)]
pub struct MinerSite {
    pub source: Pos,
    pub link: Option<Pos>,
}

/// The creep delivers when it carries energy and its working flag is set
/// (an unknown flag counts as set).
pub open spec fn delivering(carried: CarryState, working: Option<bool>) -> bool {
    carried.used > 0 && match working {
        Some(w) => w,
        None => true,
    }
}

/// Capacity threshold of a role: what its carry parts hold when full.
pub open spec fn threshold(career: CreepType) -> u16 {
    (career.composition().carry() as u16 * CARRY_UNIT) as u16
}

/// The chain a delivering creep of this role searches, in priority order.
pub open spec fn delivery_chain(career: CreepType) -> Seq<Query> {
    let thr = Some(threshold(career));
    match career {
        CreepType::Builder(_) => seq![
            spawn_or_extension_query(),
            site_query(Some(ObjectKind::Container), None),
            site_query(None, None),
            controller_query(),
        ],
        CreepType::Carrier(_) => seq![
            spawn_or_extension_query(),
            tower_query(None, ActionCommand::Transfer, thr),
            storage_query(None, Some(ActionCommand::Transfer), None),
            controller_query(),
        ],
        CreepType::Upgrader(_) => seq![spawn_or_extension_query(), controller_query()],
        _ => Seq::empty(),
    }
}

/// The chain a collecting creep of this role searches, in priority order.
pub open spec fn collection_chain(career: CreepType) -> Seq<Query> {
    let thr = Some(threshold(career));
    match career {
        CreepType::Builder(_) => seq![
            container_query(None, ActionCommand::Fetch, thr),
            storage_query(None, Some(ActionCommand::Fetch), thr),
            source_query(None),
        ],
        CreepType::Carrier(_) => seq![
            container_query(None, ActionCommand::Fetch, thr),
            storage_query(None, Some(ActionCommand::Fetch), thr),
        ],
        CreepType::Upgrader(_) => seq![
            storage_query(None, Some(ActionCommand::Fetch), thr),
            container_query(None, ActionCommand::Fetch, thr),
            source_query(None),
        ],
        _ => Seq::empty(),
    }
}

/// The target of the first query of the chain that finds one.
pub open spec fn first_hit(objs: Seq<WorldObject>, at: Pos, chain: Seq<Query>) -> Option<CreepTarget>
    decreases chain.len(),
{
    if chain.len() == 0 {
        None
    } else {
        match pick_target(objs, at, chain[0]) {
            Some(t) => Some(t),
            None => first_hit(objs, at, chain.drop_first()),
        }
    }
}

/// The tile from which a miner of the given ordinal harvests: one step
/// north of its source for ordinal 0, one step west for ordinal 1.
pub open spec fn stand_spot(ordinal: u8, source: Pos) -> Option<Pos> {
    let spot = if ordinal == 0 {
        Some((source.x as int, source.y as int - 1))
    } else if ordinal == 1 {
        Some((source.x as int - 1, source.y as int))
    } else {
        None
    };
    match spot {
        Some((x, y)) => if WORLD_MIN <= x < WORLD_END && WORLD_MIN <= y < WORLD_END {
            Some(Pos { x: x as i32, y: y as i32 })
        } else {
            None
        },
        None => None,
    }
}

/// Computes [`stand_spot`].
pub fn miner_stand_spot(ordinal: u8, source: Pos) -> (r: Option<Pos>)
    ensures
        r == stand_spot(ordinal, source),
{
    let (dx, dy): (i64, i64) = if ordinal == 0 {
        (0, -1)
    } else if ordinal == 1 {
        (-1, 0)
    } else {
        return None;
    };
    let x: i64 = source.x as i64 + dx;
    let y: i64 = source.y as i64 + dy;
    if WORLD_MIN as i64 <= x && x < WORLD_END as i64 && WORLD_MIN as i64 <= y && y < WORLD_END as i64 {
        Some(Pos { x: x as i32, y: y as i32 })
    } else {
        None
    }
}

/// A miner harvests while the container on its stand spot has room. Once
/// that container is full, a miner with a link carries its load to the link
/// and goes back to harvesting when empty; a miner without one waits.
pub open spec fn miner_target(
    objs: Seq<WorldObject>,
    at: Pos,
    carried: CarryState,
    ordinal: u8,
    site: Option<MinerSite>,
) -> Option<CreepTarget> {
    match site {
        None => None,
        Some(s) => match stand_spot(ordinal, s.source) {
            None => None,
            Some(spot) => {
                let source = pick_target(objs, at, source_query(Some(s.source)));
                if pick_target(objs, at, container_query(Some(spot), ActionCommand::Transfer, None)) is Some {
                    source
                } else {
                    match s.link {
                        None => None,
                        Some(l) => if carried.used > 0 {
                            pick_target(objs, at, link_query(Some(l), Some(ActionCommand::Transfer), None))
                        } else {
                            source
                        },
                    }
                }
            },
        },
    }
}

/// The role's own choice, before falling back to parking.
pub open spec fn role_target(
    career: CreepType,
    ordinal: u8,
    carried: CarryState,
    working: Option<bool>,
    objs: Seq<WorldObject>,
    at: Pos,
    site: Option<MinerSite>,
) -> Option<CreepTarget> {
    if career is Miner {
        miner_target(objs, at, carried, ordinal, site)
    } else if delivering(carried, working) {
        first_hit(objs, at, delivery_chain(career))
    } else {
        first_hit(objs, at, collection_chain(career))
    }
}

/// The resolved target: the role's choice, or else the nearest storage as a
/// place to park, unless the creep already stands next to it.
pub open spec fn resolve_spec(
    career: CreepType,
    ordinal: u8,
    carried: CarryState,
    working: Option<bool>,
    objs: Seq<WorldObject>,
    at: Pos,
    site: Option<MinerSite>,
) -> Option<CreepTarget> {
    match role_target(career, ordinal, carried, working, objs, at, site) {
        Some(t) => Some(t),
        None => match crate::creep_target::pick(objs, at, storage_query(None, None, None)) {
            Some(i) => if range(at, objs[i].pos) <= 1 {
                None
            } else {
                Some(CreepTarget::Park(objs[i].id))
            },
            None => None,
        },
    }
}

/// Resolution clears the working flag of every role but the miner when the
/// creep is not delivering.
pub open spec fn clears_working(career: CreepType, carried: CarryState, working: Option<bool>) -> bool {
    !(career is Miner) && !delivering(carried, working)
}

/// The working flag goes from set (or unknown) to clear only for a creep
/// that carries nothing.
pub proof fn lemma_flag_cleared_only_when_empty(career: CreepType, carried: CarryState, working: Option<bool>)
    requires
        clears_working(career, carried, working),
        working != Some(false),
    ensures
        carried.used == 0,
{
}

/// Every position a resolution looks at lies inside the world.
pub open spec fn site_valid(site: Option<MinerSite>) -> bool {
    site matches Some(s) ==> s.source.valid() && (s.link matches Some(l) ==> l.valid())
}

/// No query that fetches (from a container, a storage or a source) yields a
/// build target.
proof fn lemma_fetch_pick_not_build(objs: Seq<WorldObject>, at: Pos, q: Query)
    requires
        q.act == Some(ActionCommand::Fetch),
        q.kind == q.alt_kind,
        q.kind == ObjectKind::Container || q.kind == ObjectKind::Storage || q.kind == ObjectKind::Source,
    ensures
        !(pick_target(objs, at, q) matches Some(CreepTarget::Build(_))),
{
    crate::creep_target::lemma_pick_eligible(objs, at, q);
}

/// A builder carrying no energy collects: its working flag is cleared before
/// the search, and what the search returns is never a build target.
pub proof fn lemma_empty_builder_collects(
    career: CreepType,
    ordinal: u8,
    carried: CarryState,
    working: Option<bool>,
    objs: Seq<WorldObject>,
    at: Pos,
    site: Option<MinerSite>,
)
    requires
        career is Builder,
        carried.used == 0,
    ensures
        clears_working(career, carried, working),
        role_target(career, ordinal, carried, working, objs, at, site) == first_hit(
            objs,
            at,
            collection_chain(career),
        ),
        !(resolve_spec(career, ordinal, carried, working, objs, at, site) matches Some(
            CreepTarget::Build(_),
        )),
{
    let chain = collection_chain(career);
    let thr = Some(threshold(career));
    lemma_fetch_pick_not_build(objs, at, chain[0]);
    lemma_fetch_pick_not_build(objs, at, chain[1]);
    lemma_fetch_pick_not_build(objs, at, chain[2]);
    assert(chain.drop_first().drop_first().drop_first().len() == 0);
    reveal_with_fuel(first_hit, 4);
    assert(chain.drop_first()[0] == chain[1]);
    assert(chain.drop_first().drop_first()[0] == chain[2]);
}

fn threshold_exec(career: &CreepType) -> (r: u16)
    ensures
        r == threshold(*career),
{
    let c = career.carry_cnt();
    c as u16 * CARRY_UNIT
}

fn delivery_chain_exec(career: &CreepType) -> (r: Vec<Query>)
    ensures
        r@ == delivery_chain(*career),
{
    let thr = Some(threshold_exec(career));
    let spawn_ext = spawn_or_extension_query_exec();
    let controller = controller_query_exec();
    let mut v: Vec<Query> = Vec::new();
    match career {
        CreepType::Builder(_) => {
            v.push(spawn_ext);
            v.push(site_query_exec(Some(ObjectKind::Container), None));
            v.push(site_query_exec(None, None));
            v.push(controller);
        },
        CreepType::Carrier(_) => {
            v.push(spawn_ext);
            v.push(tower_query_exec(None, ActionCommand::Transfer, thr));
            v.push(storage_query_exec(None, Some(ActionCommand::Transfer), None));
            v.push(controller);
        },
        CreepType::Upgrader(_) => {
            v.push(spawn_ext);
            v.push(controller);
        },
        _ => {},
    }
    assert(v@ =~= delivery_chain(*career));
    v
}

fn collection_chain_exec(career: &CreepType) -> (r: Vec<Query>)
    ensures
        r@ == collection_chain(*career),
{
    let thr = Some(threshold_exec(career));
    let mut v: Vec<Query> = Vec::new();
    match career {
        CreepType::Builder(_) => {
            v.push(container_query_exec(None, ActionCommand::Fetch, thr));
            v.push(storage_query_exec(None, Some(ActionCommand::Fetch), thr));
            v.push(source_query_exec(None));
        },
        CreepType::Carrier(_) => {
            v.push(container_query_exec(None, ActionCommand::Fetch, thr));
            v.push(storage_query_exec(None, Some(ActionCommand::Fetch), thr));
        },
        CreepType::Upgrader(_) => {
            v.push(storage_query_exec(None, Some(ActionCommand::Fetch), thr));
            v.push(container_query_exec(None, ActionCommand::Fetch, thr));
            v.push(source_query_exec(None));
        },
        _ => {},
    }
    assert(v@ =~= collection_chain(*career));
    v
}

/// Runs a chain: the target of the first query that finds one.
pub fn run_chain(objects: &Vec<WorldObject>, at: Pos, chain: &Vec<Query>) -> (r: Option<CreepTarget>)
    requires
        snapshot_valid(objects@),
        at.valid(),
    ensures
        r == first_hit(objects@, at, chain@),
{
    let mut k: usize = 0;
    assert(chain@.skip(0) =~= chain@);
    while k < chain.len()
        invariant
            k <= chain@.len(),
            snapshot_valid(objects@),
            at.valid(),
            first_hit(objects@, at, chain@) == first_hit(objects@, at, chain@.skip(k as int)),
        decreases chain@.len() - k,
    {
        assert(chain@.skip(k as int).drop_first() =~= chain@.skip(k + 1));
        assert(chain@.skip(k as int)[0] == chain@[k as int]);
        let t = pick_exec(objects, at, chain[k]);
        if t.is_some() {
            return t;
        }
        k = k + 1;
    }
    assert(chain@.skip(k as int).len() == 0);
    None
}

/// Computes [`miner_target`].
pub fn resolve_miner(
    objects: &Vec<WorldObject>,
    at: Pos,
    carried: CarryState,
    ordinal: u8,
    site: Option<MinerSite>,
) -> (r: Option<CreepTarget>)
    requires
        snapshot_valid(objects@),
        at.valid(),
    ensures
        r == miner_target(objects@, at, carried, ordinal, site),
{
    let s = match site {
        Some(s) => s,
        None => return None,
    };
    let spot = match miner_stand_spot(ordinal, s.source) {
        Some(p) => p,
        None => return None,
    };
    let room = pick_exec(objects, at, container_query_exec(Some(spot), ActionCommand::Transfer, None));
    if room.is_some() {
        pick_exec(objects, at, source_query_exec(Some(s.source)))
    } else {
        match s.link {
            None => None,
            Some(l) => if carried.used > 0 {
                pick_exec(objects, at, link_query_exec(Some(l), Some(ActionCommand::Transfer), None))
            } else {
                pick_exec(objects, at, source_query_exec(Some(s.source)))
            },
        }
    }
}

/// Resolves the creep's next target: see [`resolve_spec`]. The second
/// result says whether the working flag is to be cleared.
pub fn resolve(
    career: &CreepType,
    ordinal: u8,
    carried: CarryState,
    working: Option<bool>,
    objects: &Vec<WorldObject>,
    at: Pos,
    site: Option<MinerSite>,
) -> (r: (Option<CreepTarget>, bool))
    requires
        snapshot_valid(objects@),
        at.valid(),
    ensures
        r.0 == resolve_spec(*career, ordinal, carried, working, objects@, at, site),
        r.1 == clears_working(*career, carried, working),
{
    let is_miner = match career {
        CreepType::Miner(_) => true,
        _ => false,
    };
    let deliver = carried.used > 0 && match working {
        Some(w) => w,
        None => true,
    };
    let own = if is_miner {
        resolve_miner(objects, at, carried, ordinal, site)
    } else if deliver {
        let chain = delivery_chain_exec(career);
        run_chain(objects, at, &chain)
    } else {
        let chain = collection_chain_exec(career);
        run_chain(objects, at, &chain)
    };
    let clear = !is_miner && !deliver;
    if own.is_some() {
        return (own, clear);
    }
    let park = storage_query_exec(None, None, None);
    match crate::creep_target::nearest(objects, at, &park) {
        Some(i) => {
            let d = range_between(at, objects[i].pos);
            if d <= 1 {
                (None, clear)
            } else {
                (Some(CreepTarget::Park(objects[i].id)), clear)
            }
        },
        None => (None, clear),
    }
}

} // verus!
