//! Work executor: what acting on a target takes this tick, and when the
//! work on a target is done.

use vstd::prelude::*;
use crate::creep_composition::CreepType;
use crate::creep_target::{
    ActionCommand, CreepTarget, EntityId, ObjectKind, Pos, WorldObject, find_id, find_kind,
    lookup, lookup_kind, lemma_find_id_found, pick_exec, pick_target, snapshot_valid,
    container_query,
};
use crate::resolver::{CarryState, MinerSite, stand_spot, miner_stand_spot, threshold};

verus! {

/// Why an action could not progress this tick.
#[derive(Clone, Copy, Debug, PartialEq, Eq, Structural)]
pub enum ErrorCode {
    NotFound,
    Busy,
    NotEnough,
    NoPath,
    Full,
    InvalidArgs,
    InvalidTarget,
    NotInRange,
    Other,
}

/// The creep as seen this tick.
#[derive(Clone, Copy, Debug, PartialEq, Eq, Structural)]
pub struct CreepView {
    pub id: EntityId,
    pub pos: Pos,
    pub carried: CarryState,
}

/// What acting on the target takes: an optional repair of a structure
/// underfoot, then either the action on the target, or, with no action,
/// the error that is the outcome.
#[derive(Clone, Copy, Debug)]
pub struct WorkPlan {
    pub repair: Option<EntityId>,
    pub action: Result<CreepTarget, ErrorCode>,
}

/// What moving on takes: an optional repair of a road underfoot, which takes
/// the tick, or else a step toward a destination, or, with neither, the
/// error that is the outcome.
#[derive(Clone, Copy, Debug)]
pub struct MovePlan {
    pub repair: Option<EntityId>,
    pub dest: Result<Pos, ErrorCode>,
}

/// Energy spent per work part and tick on repairs, as hits.
pub const REPAIR_UNIT: u32 = 100;

/// The object of the snapshot with the given id.
pub open spec fn object_of(objs: Seq<WorldObject>, id: EntityId) -> Option<WorldObject> {
    match find_id(objs, id) {
        Some(i) => Some(objs[i]),
        None => None,
    }
}

/// The structure has lost at least `work * REPAIR_UNIT` hits, and the creep
/// carries more energy than it has work parts.
pub open spec fn worth_repairing(o: WorldObject, work: u8, carried: CarryState) -> bool {
    &&& o.hits_max >= o.hits
    &&& o.hits_max - o.hits >= work as int * REPAIR_UNIT
    &&& carried.used > work
}

fn worth_repairing_exec(o: &WorldObject, work: u8, carried: CarryState) -> (r: bool)
    ensures
        r == worth_repairing(*o, work, carried),
{
    o.hits_max >= o.hits && o.hits_max - o.hits >= work as u32 * REPAIR_UNIT && carried.used > work as u32
}

/// The first road underfoot, to repair instead of moving when it is worth it.
pub open spec fn road_repair(underfoot: Seq<WorldObject>, work: u8, carried: CarryState) -> Option<EntityId> {
    match find_kind(underfoot, ObjectKind::Road) {
        Some(i) => if worth_repairing(underfoot[i], work, carried) {
            Some(underfoot[i].id)
        } else {
            None
        },
        None => None,
    }
}

/// The first container underfoot: the repair to make, and the outcome for
/// harvesting: `Full` when the container is full, else `Busy` when it is
/// being repaired, else success.
pub open spec fn container_repair(underfoot: Seq<WorldObject>, work: u8, carried: CarryState) -> (
    Option<EntityId>,
    Result<(), ErrorCode>,
) {
    match find_kind(underfoot, ObjectKind::Container) {
        Some(i) => {
            let c = underfoot[i];
            let fix = worth_repairing(c, work, carried);
            (
                if fix {
                    Some(c.id)
                } else {
                    None
                },
                if c.free == 0 {
                    Err(ErrorCode::Full)
                } else if fix {
                    Err(ErrorCode::Busy)
                } else {
                    Ok(())
                },
            )
        },
        None => (None, Ok(())),
    }
}

/// Computes [`road_repair`].
pub fn repair_road(underfoot: &Vec<WorldObject>, work: u8, carried: CarryState) -> (r: Option<EntityId>)
    ensures
        r == road_repair(underfoot@, work, carried),
{
    match lookup_kind(underfoot, ObjectKind::Road) {
        Some(i) => if worth_repairing_exec(&underfoot[i], work, carried) {
            Some(underfoot[i].id)
        } else {
            None
        },
        None => None,
    }
}

/// Computes [`container_repair`].
pub fn repair_container(underfoot: &Vec<WorldObject>, work: u8, carried: CarryState) -> (r: (
    Option<EntityId>,
    Result<(), ErrorCode>,
))
    ensures
        r == container_repair(underfoot@, work, carried),
{
    match lookup_kind(underfoot, ObjectKind::Container) {
        Some(i) => {
            let c = underfoot[i];
            let fix = worth_repairing_exec(&c, work, carried);
            let repair = if fix {
                Some(c.id)
            } else {
                None
            };
            let outcome = if c.free == 0 {
                Err(ErrorCode::Full)
            } else if fix {
                Err(ErrorCode::Busy)
            } else {
                Ok(())
            };
            (repair, outcome)
        },
        None => (None, Ok(())),
    }
}

/// The plan for acting on the target. Every actionable target is acted on
/// directly, except that a miner harvests only from its stand spot next to
/// the source (`NoPath` anywhere else), where it first keeps the container
/// underfoot repaired and stops harvesting once that container and its own
/// store are both full.
pub open spec fn work_plan(
    career: CreepType,
    ordinal: u8,
    target: Option<CreepTarget>,
    creep: CreepView,
    objs: Seq<WorldObject>,
    underfoot: Seq<WorldObject>,
) -> WorkPlan {
    match target {
        None => WorkPlan { repair: None, action: Err(ErrorCode::InvalidArgs) },
        Some(t) => match t {
            CreepTarget::Park(_) => WorkPlan { repair: None, action: Err(ErrorCode::InvalidArgs) },
            CreepTarget::Default => WorkPlan { repair: None, action: Err(ErrorCode::InvalidArgs) },
            CreepTarget::FetchFromSource(id) => if career is Miner {
                match object_of(objs, id) {
                    None => WorkPlan { repair: None, action: Err(ErrorCode::InvalidTarget) },
                    Some(src) => if stand_spot(ordinal, src.pos) == Some(creep.pos) {
                        let (fix, outcome) = container_repair(
                            underfoot,
                            career.composition().work(),
                            creep.carried,
                        );
                        WorkPlan {
                            repair: fix,
                            action: match outcome {
                                Ok(()) => Ok(t),
                                Err(ErrorCode::Full) => if creep.carried.free > 0 {
                                    Ok(t)
                                } else {
                                    Err(ErrorCode::Full)
                                },
                                Err(_) => Err(ErrorCode::Busy),
                            },
                        }
                    } else {
                        WorkPlan { repair: None, action: Err(ErrorCode::NoPath) }
                    },
                }
            } else {
                WorkPlan { repair: None, action: Ok(t) }
            },
            _ => WorkPlan { repair: None, action: Ok(t) },
        },
    }
}

/// A miner's harvest goes ahead only from its stand spot next to the
/// source; anywhere else it fails with `NoPath`.
pub proof fn lemma_miner_harvests_at_stand_spot(
    career: CreepType,
    ordinal: u8,
    id: EntityId,
    creep: CreepView,
    objs: Seq<WorldObject>,
    underfoot: Seq<WorldObject>,
)
    requires
        career is Miner,
        object_of(objs, id) is Some,
    ensures
        ({
            let src = object_of(objs, id)->0;
            let plan = work_plan(career, ordinal, Some(CreepTarget::FetchFromSource(id)), creep, objs, underfoot);
            &&& plan.action is Ok ==> stand_spot(ordinal, src.pos) == Some(creep.pos)
            &&& stand_spot(ordinal, src.pos) != Some(creep.pos) ==> plan.action == Err::<CreepTarget, ErrorCode>(ErrorCode::NoPath)
        }),
{
}

/// Computes [`work_plan`].
pub fn do_work(
    career: &CreepType,
    ordinal: u8,
    target: Option<CreepTarget>,
    creep: CreepView,
    objects: &Vec<WorldObject>,
    underfoot: &Vec<WorldObject>,
) -> (r: WorkPlan)
    ensures
        r == work_plan(*career, ordinal, target, creep, objects@, underfoot@),
{
    let t = match target {
        None => return WorkPlan { repair: None, action: Err(ErrorCode::InvalidArgs) },
        Some(t) => t,
    };
    match t {
        CreepTarget::Park(_) => WorkPlan { repair: None, action: Err(ErrorCode::InvalidArgs) },
        CreepTarget::Default => WorkPlan { repair: None, action: Err(ErrorCode::InvalidArgs) },
        CreepTarget::FetchFromSource(id) => {
            let is_miner = match career {
                CreepType::Miner(_) => true,
                _ => false,
            };
            if !is_miner {
                return WorkPlan { repair: None, action: Ok(t) };
            }
            let src = match lookup(objects, id) {
                None => return WorkPlan { repair: None, action: Err(ErrorCode::InvalidTarget) },
                Some(i) => {
                    proof {
                        lemma_find_id_found(objects@, id);
                    }
                    objects[i]
                },
            };
            let at_spot = match miner_stand_spot(ordinal, src.pos) {
                Some(p) => p == creep.pos,
                None => false,
            };
            if !at_spot {
                return WorkPlan { repair: None, action: Err(ErrorCode::NoPath) };
            }
            let (fix, outcome) = repair_container(underfoot, career.work_cnt(), creep.carried);
            let action = match outcome {
                Ok(()) => Ok(t),
                Err(ErrorCode::Full) => if creep.carried.free > 0 {
                    Ok(t)
                } else {
                    Err(ErrorCode::Full)
                },
                Err(_) => Err(ErrorCode::Busy),
            };
            WorkPlan { repair: fix, action }
        },
        _ => WorkPlan { repair: None, action: Ok(t) },
    }
}

/// Whether the work on the target is done (`Ok`) or goes on (`Busy`), and
/// whether the creep's working flag is to be set because its store is full.
///
/// Building is done once the site is gone or the creep is empty; fetching,
/// once the creep is full (which sets the flag) or the source holds less
/// than the role's threshold (a resource node: none left); transferring,
/// once the destination is full or the creep is empty; upgrading, once the
/// creep is empty. A miner harvests until the container at its stand spot is
/// full and, when it feeds a link, until its own store is full too. An
/// object missing from the snapshot counts as done with.
pub open spec fn work_done(
    career: CreepType,
    ordinal: u8,
    target: Option<CreepTarget>,
    creep: CreepView,
    objs: Seq<WorldObject>,
    site: Option<MinerSite>,
) -> (Result<(), ErrorCode>, bool) {
    let empty = creep.carried.used == 0;
    let full = creep.carried.free == 0;
    let thr = threshold(career) as u32;
    let fetch_done = |id: EntityId|
        if full {
            (Ok(()), true)
        } else {
            match object_of(objs, id) {
                Some(o) => if o.used < thr {
                    (Ok(()), false)
                } else {
                    (Err(ErrorCode::Busy), false)
                },
                None => (Ok(()), false),
            }
        };
    let transfer_done = |id: EntityId|
        match object_of(objs, id) {
            Some(o) => if o.free <= 0 || empty {
                (Ok(()), false)
            } else {
                (Err(ErrorCode::Busy), false)
            },
            None => (Ok(()), false),
        };
    match target {
        None => (Ok(()), false),
        Some(t) => match t {
            CreepTarget::Build(id) => if object_of(objs, id) is None || empty {
                (Ok(()), false)
            } else {
                (Err(ErrorCode::Busy), false)
            },
            CreepTarget::FetchFromSource(id) => if career is Miner {
                (miner_done(ordinal, creep, objs, site), false)
            } else if full {
                (Ok(()), true)
            } else {
                match object_of(objs, id) {
                    Some(o) => if o.used == 0 {
                        (Ok(()), false)
                    } else {
                        (Err(ErrorCode::Busy), false)
                    },
                    None => (Ok(()), false),
                }
            },
            CreepTarget::FetchFromContainer(id) => fetch_done(id),
            CreepTarget::FetchFromStorage(id) => fetch_done(id),
            CreepTarget::FetchFromTower(id) => fetch_done(id),
            CreepTarget::FetchFromLink(id) => fetch_done(id),
            CreepTarget::TransferToSpawn(id) => transfer_done(id),
            CreepTarget::TransferToExtension(id) => transfer_done(id),
            CreepTarget::TransferToStorage(id) => transfer_done(id),
            CreepTarget::TransferToContainer(id) => transfer_done(id),
            CreepTarget::TransferToTower(id) => transfer_done(id),
            CreepTarget::TransferToLink(id) => transfer_done(id),
            CreepTarget::Upgrade(_) => if empty {
                (Ok(()), false)
            } else {
                (Err(ErrorCode::Busy), false)
            },
            _ => (Ok(()), false),
        },
    }
}

/// A miner's harvest is done once the container at its stand spot is full,
/// and, for a miner that feeds a link, once its own store is full as well.
pub open spec fn miner_done(ordinal: u8, creep: CreepView, objs: Seq<WorldObject>, site: Option<MinerSite>) -> Result<(), ErrorCode> {
    match site {
        None => Err(ErrorCode::Busy),
        Some(s) => match stand_spot(ordinal, s.source) {
            None => Err(ErrorCode::Busy),
            Some(spot) => if pick_target(objs, creep.pos, container_query(Some(spot), ActionCommand::Transfer, None)) is Some {
                Err(ErrorCode::Busy)
            } else if s.link is None || creep.carried.free == 0 {
                Ok(())
            } else {
                Err(ErrorCode::Busy)
            },
        },
    }
}

fn fetch_done_exec(full: bool, thr: u32, objects: &Vec<WorldObject>, id: EntityId) -> (r: (Result<(), ErrorCode>, bool))
    ensures
        r == (if full {
            (Ok::<(), ErrorCode>(()), true)
        } else {
            match object_of(objects@, id) {
                Some(o) => if o.used < thr {
                    (Ok(()), false)
                } else {
                    (Err(ErrorCode::Busy), false)
                },
                None => (Ok(()), false),
            }
        }),
{
    if full {
        return (Ok(()), true);
    }
    match lookup(objects, id) {
        Some(i) => {
            proof {
                lemma_find_id_found(objects@, id);
            }
            if objects[i].used < thr {
                (Ok(()), false)
            } else {
                (Err(ErrorCode::Busy), false)
            }
        },
        None => (Ok(()), false),
    }
}

fn transfer_done_exec(empty: bool, objects: &Vec<WorldObject>, id: EntityId) -> (r: (Result<(), ErrorCode>, bool))
    ensures
        r == (match object_of(objects@, id) {
            Some(o) => if o.free <= 0 || empty {
                (Ok::<(), ErrorCode>(()), false)
            } else {
                (Err(ErrorCode::Busy), false)
            },
            None => (Ok(()), false),
        }),
{
    match lookup(objects, id) {
        Some(i) => {
            proof {
                lemma_find_id_found(objects@, id);
            }
            if objects[i].free <= 0 || empty {
                (Ok(()), false)
            } else {
                (Err(ErrorCode::Busy), false)
            }
        },
        None => (Ok(()), false),
    }
}

/// Computes [`miner_done`].
pub fn miner_work_done(ordinal: u8, creep: CreepView, objects: &Vec<WorldObject>, site: Option<MinerSite>) -> (r: Result<(), ErrorCode>)
    requires
        snapshot_valid(objects@),
        creep.pos.valid(),
    ensures
        r == miner_done(ordinal, creep, objects@, site),
{
    let s = match site {
        None => return Err(ErrorCode::Busy),
        Some(s) => s,
    };
    let spot = match miner_stand_spot(ordinal, s.source) {
        None => return Err(ErrorCode::Busy),
        Some(p) => p,
    };
    let q = crate::creep_target::Query {
        kind: ObjectKind::Container,
        alt_kind: ObjectKind::Container,
        pos: Some(spot),
        site_kind: None,
        act: Some(ActionCommand::Transfer),
        amount: 1,
    };
    if pick_exec(objects, creep.pos, q).is_some() {
        Err(ErrorCode::Busy)
    } else if s.link.is_none() || creep.carried.free == 0 {
        Ok(())
    } else {
        Err(ErrorCode::Busy)
    }
}

/// Computes [`work_done`].
pub fn is_work_done(
    career: &CreepType,
    ordinal: u8,
    target: Option<CreepTarget>,
    creep: CreepView,
    objects: &Vec<WorldObject>,
    site: Option<MinerSite>,
) -> (r: (Result<(), ErrorCode>, bool))
    requires
        snapshot_valid(objects@),
        creep.pos.valid(),
    ensures
        r == work_done(*career, ordinal, target, creep, objects@, site),
{
    let empty = creep.carried.used == 0;
    let full = creep.carried.free == 0;
    let thr = career.carry_cnt() as u32 * 50;
    let t = match target {
        None => return (Ok(()), false),
        Some(t) => t,
    };
    match t {
        CreepTarget::Build(id) => {
            let gone = lookup(objects, id).is_none();
            if gone || empty {
                (Ok(()), false)
            } else {
                (Err(ErrorCode::Busy), false)
            }
        },
        CreepTarget::FetchFromSource(id) => {
            let is_miner = match career {
                CreepType::Miner(_) => true,
                _ => false,
            };
            if is_miner {
                (miner_work_done(ordinal, creep, objects, site), false)
            } else if full {
                (Ok(()), true)
            } else {
                match lookup(objects, id) {
                    Some(i) => {
                        proof {
                            lemma_find_id_found(objects@, id);
                        }
                        if objects[i].used == 0 {
                            (Ok(()), false)
                        } else {
                            (Err(ErrorCode::Busy), false)
                        }
                    },
                    None => (Ok(()), false),
                }
            }
        },
        CreepTarget::FetchFromContainer(id) => fetch_done_exec(full, thr, objects, id),
        CreepTarget::FetchFromStorage(id) => fetch_done_exec(full, thr, objects, id),
        CreepTarget::FetchFromTower(id) => fetch_done_exec(full, thr, objects, id),
        CreepTarget::FetchFromLink(id) => fetch_done_exec(full, thr, objects, id),
        CreepTarget::TransferToSpawn(id) => transfer_done_exec(empty, objects, id),
        CreepTarget::TransferToExtension(id) => transfer_done_exec(empty, objects, id),
        CreepTarget::TransferToStorage(id) => transfer_done_exec(empty, objects, id),
        CreepTarget::TransferToContainer(id) => transfer_done_exec(empty, objects, id),
        CreepTarget::TransferToTower(id) => transfer_done_exec(empty, objects, id),
        CreepTarget::TransferToLink(id) => transfer_done_exec(empty, objects, id),
        CreepTarget::Upgrade(_) => if empty {
            (Ok(()), false)
        } else {
            (Err(ErrorCode::Busy), false)
        },
        _ => (Ok(()), false),
    }
}

/// The plan for moving on: a miner walks to its stand spot (nothing to do
/// when it has none); any other creep repairs a damaged road underfoot
/// instead of moving (`Busy`), or else walks toward its target (`NotFound`
/// when the target has no position in the snapshot).
pub open spec fn move_plan(
    career: CreepType,
    ordinal: u8,
    target: Option<CreepTarget>,
    creep: CreepView,
    objs: Seq<WorldObject>,
    underfoot: Seq<WorldObject>,
    site: Option<MinerSite>,
) -> MovePlan {
    if career is Miner {
        match site {
            Some(s) => match stand_spot(ordinal, s.source) {
                Some(spot) => MovePlan { repair: None, dest: Ok(spot) },
                None => MovePlan { repair: None, dest: Err(ErrorCode::InvalidTarget) },
            },
            None => MovePlan { repair: None, dest: Err(ErrorCode::InvalidTarget) },
        }
    } else {
        match road_repair(underfoot, career.composition().work(), creep.carried) {
            Some(road) => MovePlan { repair: Some(road), dest: Err(ErrorCode::Busy) },
            None => {
                let dest = match target {
                    Some(t) => match crate::creep_target::target_id(t) {
                        Some(id) => match object_of(objs, id) {
                            Some(o) => Some(o.pos),
                            None => None,
                        },
                        None => None,
                    },
                    None => None,
                };
                match dest {
                    Some(p) => MovePlan { repair: None, dest: Ok(p) },
                    None => MovePlan { repair: None, dest: Err(ErrorCode::NotFound) },
                }
            },
        }
    }
}

/// Computes [`move_plan`].
pub fn go_ahead(
    career: &CreepType,
    ordinal: u8,
    target: Option<CreepTarget>,
    creep: CreepView,
    objects: &Vec<WorldObject>,
    underfoot: &Vec<WorldObject>,
    site: Option<MinerSite>,
) -> (r: MovePlan)
    ensures
        r == move_plan(*career, ordinal, target, creep, objects@, underfoot@, site),
{
    let is_miner = match career {
        CreepType::Miner(_) => true,
        _ => false,
    };
    if is_miner {
        return match site {
            Some(s) => match miner_stand_spot(ordinal, s.source) {
                Some(spot) => MovePlan { repair: None, dest: Ok(spot) },
                None => MovePlan { repair: None, dest: Err(ErrorCode::InvalidTarget) },
            },
            None => MovePlan { repair: None, dest: Err(ErrorCode::InvalidTarget) },
        };
    }
    if let Some(road) = repair_road(underfoot, career.work_cnt(), creep.carried) {
        return MovePlan { repair: Some(road), dest: Err(ErrorCode::Busy) };
    }
    let dest = match target {
        Some(t) => t.pos(objects),
        None => None,
    };
    match dest {
        Some(p) => MovePlan { repair: None, dest: Ok(p) },
        None => MovePlan { repair: None, dest: Err(ErrorCode::NotFound) },
    }
}

} // verus!
