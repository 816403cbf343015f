//! Target model and the candidate finders of target resolution.
//!
//! The world is seen through a snapshot: a list of [`WorldObject`]s of the
//! creep's home region. Each finder filters the snapshot by kind, position and
//! capacity, and picks the eligible object nearest to the creep, the earliest
//! in the snapshot among equally near ones.

use vstd::prelude::*;

verus! {

/// Lowest world coordinate a position may have.
pub const WORLD_MIN: i32 = -6400;

/// One past the highest world coordinate a position may have.
pub const WORLD_END: i32 = 6400;

/// A position in world coordinates.
#[derive(Clone, Copy, Debug, PartialEq, Eq, Structural)]
pub struct Pos {
    pub x: i32,
    pub y: i32,
}

impl Pos {
    /// Lies inside the world.
    pub open spec fn valid(self) -> bool {
        WORLD_MIN <= self.x < WORLD_END && WORLD_MIN <= self.y < WORLD_END
    }
}

pub open spec fn abs_diff(a: int, b: int) -> int {
    if a >= b {
        a - b
    } else {
        b - a
    }
}

/// Linear (Chebyshev) range between two positions: the larger of the
/// distances along the two axes.
pub open spec fn range(a: Pos, b: Pos) -> int {
    let dx = abs_diff(a.x as int, b.x as int);
    let dy = abs_diff(a.y as int, b.y as int);
    if dx >= dy {
        dx
    } else {
        dy
    }
}

/// Relies on screeps::Position::get_range_to (with Position::from_world_coords
/// to build its arguments): the linear range between two world positions.
#[verifier::external_body]
pub(crate) fn range_between(a: Pos, b: Pos) -> (r: u32)
    requires
        a.valid(),
        b.valid(),
    ensures
        r == range(a, b),
{
    let pa = screeps::Position::from_world_coords(a.x, a.y);
    let pb = screeps::Position::from_world_coords(b.x, b.y);
    pa.get_range_to(pb)
}

/// Reference to one world entity (a structure, source, site or creep).
#[derive(Clone, Copy, Debug, PartialEq, Eq, Structural)]
pub struct EntityId(pub u128);

/// What a world object is.
#[derive(Clone, Copy, Debug, PartialEq, Eq, Structural)]
pub enum ObjectKind {
    Controller,
    ConstructionSite,
    Spawn,
    Extension,
    Storage,
    Container,
    Tower,
    Link,
    Source,
    Road,
    Other,
}

/// One object of the snapshot, with the energy it holds (`used`; for a
/// source, the energy left in it) and the energy it can still take (`free`).
/// `site_kind` is the kind a construction site will become; other objects
/// carry `Other` there.
#[derive(Clone, Copy, Debug, PartialEq, Eq, Structural)]
pub struct WorldObject {
    pub kind: ObjectKind,
    pub id: EntityId,
    pub pos: Pos,
    pub used: u32,
    pub free: i32,
    pub hits: u32,
    pub hits_max: u32,
    pub site_kind: ObjectKind,
}

/// Every object of a snapshot lies inside the world.
pub open spec fn snapshot_valid(objs: Seq<WorldObject>) -> bool {
    forall|i: int| 0 <= i < objs.len() ==> (#[trigger] objs[i]).pos.valid()
}

/// What to interact with, and how.
#[derive(Clone, Copy, Debug, PartialEq, Eq, Structural)]
pub enum CreepTarget {
    Upgrade(EntityId),
    Build(EntityId),
    TransferToSpawn(EntityId),
    TransferToExtension(EntityId),
    TransferToStorage(EntityId),
    FetchFromStorage(EntityId),
    TransferToContainer(EntityId),
    FetchFromContainer(EntityId),
    TransferToTower(EntityId),
    FetchFromTower(EntityId),
    TransferToLink(EntityId),
    FetchFromLink(EntityId),
    FetchFromSource(EntityId),
    /// Travel toward the storage and wait there: nothing to act on.
    Park(EntityId),
    /// No meaningful pairing of object and action.
    Default,
}

/// Direction of a capacity interaction.
#[derive(Clone, Copy, Debug, PartialEq, Eq, Structural)]
pub enum ActionCommand {
    Fetch,
    Transfer,
}

/// The target that pairs an object with an action. Only pairings that the
/// object's kind allows give an actionable target; a storage with no action
/// is a place to park.
pub open spec fn target_for(o: WorldObject, act: Option<ActionCommand>) -> CreepTarget {
    match o.kind {
        ObjectKind::Controller => CreepTarget::Upgrade(o.id),
        ObjectKind::ConstructionSite => CreepTarget::Build(o.id),
        ObjectKind::Spawn => CreepTarget::TransferToSpawn(o.id),
        ObjectKind::Extension => CreepTarget::TransferToExtension(o.id),
        ObjectKind::Storage => match act {
            Some(ActionCommand::Fetch) => CreepTarget::FetchFromStorage(o.id),
            Some(ActionCommand::Transfer) => CreepTarget::TransferToStorage(o.id),
            None => CreepTarget::Park(o.id),
        },
        ObjectKind::Container => match act {
            Some(ActionCommand::Fetch) => CreepTarget::FetchFromContainer(o.id),
            Some(ActionCommand::Transfer) => CreepTarget::TransferToContainer(o.id),
            None => CreepTarget::Default,
        },
        ObjectKind::Tower => match act {
            Some(ActionCommand::Fetch) => CreepTarget::FetchFromTower(o.id),
            Some(ActionCommand::Transfer) => CreepTarget::TransferToTower(o.id),
            None => CreepTarget::Default,
        },
        ObjectKind::Link => match act {
            Some(ActionCommand::Fetch) => CreepTarget::FetchFromLink(o.id),
            Some(ActionCommand::Transfer) => CreepTarget::TransferToLink(o.id),
            None => CreepTarget::Default,
        },
        ObjectKind::Source => match act {
            Some(ActionCommand::Fetch) => CreepTarget::FetchFromSource(o.id),
            _ => CreepTarget::Default,
        },
        _ => CreepTarget::Default,
    }
}

/// The entity a target refers to, if any.
pub open spec fn target_id(t: CreepTarget) -> Option<EntityId> {
    match t {
        CreepTarget::Upgrade(id) => Some(id),
        CreepTarget::Build(id) => Some(id),
        CreepTarget::TransferToSpawn(id) => Some(id),
        CreepTarget::TransferToExtension(id) => Some(id),
        CreepTarget::TransferToStorage(id) => Some(id),
        CreepTarget::FetchFromStorage(id) => Some(id),
        CreepTarget::TransferToContainer(id) => Some(id),
        CreepTarget::FetchFromContainer(id) => Some(id),
        CreepTarget::TransferToTower(id) => Some(id),
        CreepTarget::FetchFromTower(id) => Some(id),
        CreepTarget::TransferToLink(id) => Some(id),
        CreepTarget::FetchFromLink(id) => Some(id),
        CreepTarget::FetchFromSource(id) => Some(id),
        CreepTarget::Park(id) => Some(id),
        CreepTarget::Default => None,
    }
}

/// Index of the first object of the snapshot with the given id.
pub open spec fn find_id(objs: Seq<WorldObject>, id: EntityId) -> Option<int>
    decreases objs.len(),
{
    if objs.len() == 0 {
        None
    } else {
        match find_id(objs.drop_last(), id) {
            Some(i) => Some(i),
            None => if objs.last().id == id {
                Some(objs.len() - 1)
            } else {
                None
            },
        }
    }
}

/// Looks up the object with the given id in the snapshot: the first one.
pub fn lookup(objects: &Vec<WorldObject>, id: EntityId) -> (r: Option<usize>)
    ensures
        r matches Some(i) ==> find_id(objects@, id) == Some(i as int),
        r is None ==> find_id(objects@, id) is None,
        r matches Some(i) ==> i < objects@.len() && objects@[i as int].id == id,
{
    proof {
        lemma_find_id_found(objects@, id);
    }
    let mut i: usize = 0;
    while i < objects.len()
        invariant
            i <= objects@.len(),
            find_id(objects@.take(i as int), id) is None,
        decreases objects@.len() - i,
    {
        assert(objects@.take(i + 1).drop_last() == objects@.take(i as int));
        if objects[i].id == id {
            proof {
                lemma_find_id_prefix(objects@, id, i + 1);
            }
            return Some(i);
        }
        i = i + 1;
    }
    assert(objects@.take(objects@.len() as int) == objects@);
    None
}

/// A match that `find_id` reports is an index of the snapshot holding the id.
pub proof fn lemma_find_id_found(objs: Seq<WorldObject>, id: EntityId)
    ensures
        find_id(objs, id) matches Some(i) ==> 0 <= i < objs.len() && objs[i].id == id,
    decreases objs.len(),
{
    if objs.len() > 0 {
        lemma_find_id_found(objs.drop_last(), id);
    }
}

/// Index of the first object of the given kind.
pub open spec fn find_kind(objs: Seq<WorldObject>, kind: ObjectKind) -> Option<int>
    decreases objs.len(),
{
    if objs.len() == 0 {
        None
    } else {
        match find_kind(objs.drop_last(), kind) {
            Some(i) => Some(i),
            None => if objs.last().kind == kind {
                Some(objs.len() - 1)
            } else {
                None
            },
        }
    }
}

/// Looks up the first object of the given kind.
pub fn lookup_kind(objects: &Vec<WorldObject>, kind: ObjectKind) -> (r: Option<usize>)
    ensures
        r matches Some(i) ==> find_kind(objects@, kind) == Some(i as int),
        r is None ==> find_kind(objects@, kind) is None,
        r matches Some(i) ==> i < objects@.len() && objects@[i as int].kind == kind,
{
    let mut i: usize = 0;
    while i < objects.len()
        invariant
            i <= objects@.len(),
            find_kind(objects@.take(i as int), kind) is None,
        decreases objects@.len() - i,
    {
        assert(objects@.take(i + 1).drop_last() == objects@.take(i as int));
        if objects[i].kind == kind {
            proof {
                lemma_find_kind_prefix(objects@, kind, i + 1);
            }
            return Some(i);
        }
        i = i + 1;
    }
    assert(objects@.take(objects@.len() as int) == objects@);
    None
}

proof fn lemma_find_kind_prefix(objs: Seq<WorldObject>, kind: ObjectKind, n: int)
    requires
        0 <= n <= objs.len(),
        find_kind(objs.take(n), kind) is Some,
    ensures
        find_kind(objs, kind) == find_kind(objs.take(n), kind),
    decreases objs.len() - n,
{
    if n < objs.len() {
        assert(objs.take(n + 1).drop_last() == objs.take(n));
        lemma_find_kind_prefix(objs, kind, n + 1);
    } else {
        assert(objs.take(n) == objs);
    }
}

/// Once the first match lies in a prefix, the whole snapshot gives that match.
proof fn lemma_find_id_prefix(objs: Seq<WorldObject>, id: EntityId, n: int)
    requires
        0 <= n <= objs.len(),
        find_id(objs.take(n), id) is Some,
    ensures
        find_id(objs, id) == find_id(objs.take(n), id),
    decreases objs.len() - n,
{
    if n < objs.len() {
        assert(objs.take(n + 1).drop_last() == objs.take(n));
        lemma_find_id_prefix(objs, id, n + 1);
    } else {
        assert(objs.take(n) == objs);
    }
}

impl CreepTarget {
    /// Pairs an object of the snapshot with an action.
    pub fn new(obj: &WorldObject, act: Option<ActionCommand>) -> (r: CreepTarget)
        ensures
            r == target_for(*obj, act),
    {
        match obj.kind {
            ObjectKind::Controller => CreepTarget::Upgrade(obj.id),
            ObjectKind::ConstructionSite => CreepTarget::Build(obj.id),
            ObjectKind::Spawn => CreepTarget::TransferToSpawn(obj.id),
            ObjectKind::Extension => CreepTarget::TransferToExtension(obj.id),
            ObjectKind::Storage => match act {
                Some(ActionCommand::Fetch) => CreepTarget::FetchFromStorage(obj.id),
                Some(ActionCommand::Transfer) => CreepTarget::TransferToStorage(obj.id),
                None => CreepTarget::Park(obj.id),
            },
            ObjectKind::Container => match act {
                Some(ActionCommand::Fetch) => CreepTarget::FetchFromContainer(obj.id),
                Some(ActionCommand::Transfer) => CreepTarget::TransferToContainer(obj.id),
                None => CreepTarget::Default,
            },
            ObjectKind::Tower => match act {
                Some(ActionCommand::Fetch) => CreepTarget::FetchFromTower(obj.id),
                Some(ActionCommand::Transfer) => CreepTarget::TransferToTower(obj.id),
                None => CreepTarget::Default,
            },
            ObjectKind::Link => match act {
                Some(ActionCommand::Fetch) => CreepTarget::FetchFromLink(obj.id),
                Some(ActionCommand::Transfer) => CreepTarget::TransferToLink(obj.id),
                None => CreepTarget::Default,
            },
            ObjectKind::Source => match act {
                Some(ActionCommand::Fetch) => CreepTarget::FetchFromSource(obj.id),
                _ => CreepTarget::Default,
            },
            _ => CreepTarget::Default,
        }
    }

    /// The entity this target refers to.
    pub fn id(&self) -> (r: Option<EntityId>)
        ensures
            r == target_id(*self),
    {
        match *self {
            CreepTarget::Upgrade(id) => Some(id),
            CreepTarget::Build(id) => Some(id),
            CreepTarget::TransferToSpawn(id) => Some(id),
            CreepTarget::TransferToExtension(id) => Some(id),
            CreepTarget::TransferToStorage(id) => Some(id),
            CreepTarget::FetchFromStorage(id) => Some(id),
            CreepTarget::TransferToContainer(id) => Some(id),
            CreepTarget::FetchFromContainer(id) => Some(id),
            CreepTarget::TransferToTower(id) => Some(id),
            CreepTarget::FetchFromTower(id) => Some(id),
            CreepTarget::TransferToLink(id) => Some(id),
            CreepTarget::FetchFromLink(id) => Some(id),
            CreepTarget::FetchFromSource(id) => Some(id),
            CreepTarget::Park(id) => Some(id),
            CreepTarget::Default => None,
        }
    }

    /// Where the target's entity stands, looked up in the snapshot; `None`
    /// for `Default` and for an entity the snapshot does not hold.
    pub fn pos(&self, objects: &Vec<WorldObject>) -> (r: Option<Pos>)
        ensures
            r == (match target_id(*self) {
                Some(id) => match find_id(objects@, id) {
                    Some(i) => Some(objects@[i].pos),
                    None => None::<Pos>,
                },
                None => None::<Pos>,
            }),
    {
        match self.id() {
            Some(id) => match lookup(objects, id) {
                Some(i) => {
                    proof {
                        lemma_find_id_found(objects@, id);
                    }
                    Some(objects[i].pos)
                },
                None => None,
            },
            None => None,
        }
    }
}

/// What a finder looks for: objects of one of two kinds (the same kind twice
/// for one), optionally at one position and, for a construction site, of
/// one site kind, holding (`Fetch`) or able to take (`Transfer`) at least
/// `amount`; the action is then paired with the chosen object.
#[derive(Clone, Copy, Debug, PartialEq, Eq, Structural)]
pub struct Query {
    pub kind: ObjectKind,
    pub alt_kind: ObjectKind,
    pub pos: Option<Pos>,
    pub site_kind: Option<ObjectKind>,
    pub act: Option<ActionCommand>,
    pub amount: u32,
}

/// The object passes every filter of the query.
pub open spec fn eligible(o: WorldObject, q: Query) -> bool {
    &&& (o.kind == q.kind || o.kind == q.alt_kind)
    &&& (q.pos matches Some(p) ==> o.pos == p)
    &&& (q.site_kind matches Some(k) ==> o.site_kind == k)
    &&& match q.act {
        Some(ActionCommand::Fetch) => o.used >= q.amount,
        Some(ActionCommand::Transfer) => o.free >= q.amount,
        None => true,
    }
}

/// Index `i` is the query's pick: eligible, no farther from `at` than any
/// eligible object, and strictly nearer than every eligible object before it.
pub open spec fn is_nearest(objs: Seq<WorldObject>, at: Pos, q: Query, i: int) -> bool {
    &&& 0 <= i < objs.len()
    &&& eligible(objs[i], q)
    &&& forall|j: int|
        0 <= j < objs.len() && eligible(#[trigger] objs[j], q) ==> range(at, objs[i].pos) <= range(
            at,
            objs[j].pos,
        )
    &&& forall|j: int|
        0 <= j < i && eligible(#[trigger] objs[j], q) ==> range(at, objs[j].pos) > range(
            at,
            objs[i].pos,
        )
}

pub open spec fn has_eligible(objs: Seq<WorldObject>, q: Query) -> bool {
    exists|j: int| 0 <= j < objs.len() && eligible(#[trigger] objs[j], q)
}

/// The index the query picks, if any object is eligible.
pub open spec fn pick(objs: Seq<WorldObject>, at: Pos, q: Query) -> Option<int> {
    if has_eligible(objs, q) {
        Some(choose|i: int| is_nearest(objs, at, q, i))
    } else {
        None
    }
}

/// The target a query yields on a snapshot.
pub open spec fn pick_target(objs: Seq<WorldObject>, at: Pos, q: Query) -> Option<CreepTarget> {
    match pick(objs, at, q) {
        Some(i) => Some(target_for(objs[i], q.act)),
        None => None,
    }
}

/// At most one index is the nearest eligible one.
pub proof fn lemma_nearest_unique(objs: Seq<WorldObject>, at: Pos, q: Query, i: int, k: int)
    requires
        is_nearest(objs, at, q, i),
        is_nearest(objs, at, q, k),
    ensures
        i == k,
{
    if i < k {
        assert(eligible(objs[i], q));
    } else if k < i {
        assert(eligible(objs[k], q));
    }
}

/// The nearest eligible index among the first `n` objects, if there is an
/// eligible one there.
proof fn lemma_best_in_prefix(objs: Seq<WorldObject>, at: Pos, q: Query, n: int) -> (b: Option<int>)
    requires
        0 <= n <= objs.len(),
    ensures
        b is None ==> forall|j: int| 0 <= j < n ==> !eligible(#[trigger] objs[j], q),
        b matches Some(i) ==> {
            &&& 0 <= i < n
            &&& eligible(objs[i], q)
            &&& forall|j: int|
                0 <= j < n && eligible(#[trigger] objs[j], q) ==> range(at, objs[i].pos) <= range(
                    at,
                    objs[j].pos,
                )
            &&& forall|j: int|
                0 <= j < i && eligible(#[trigger] objs[j], q) ==> range(at, objs[j].pos) > range(
                    at,
                    objs[i].pos,
                )
        },
    decreases n,
{
    if n == 0 {
        None
    } else {
        let prev = lemma_best_in_prefix(objs, at, q, n - 1);
        let k = n - 1;
        if !eligible(objs[k], q) {
            prev
        } else {
            match prev {
                None => Some(k),
                Some(i) => if range(at, objs[k].pos) < range(at, objs[i].pos) {
                    Some(k)
                } else {
                    prev
                },
            }
        }
    }
}

/// Whenever some object is eligible, a nearest eligible one exists.
pub proof fn lemma_nearest_exists(objs: Seq<WorldObject>, at: Pos, q: Query)
    requires
        has_eligible(objs, q),
    ensures
        exists|i: int| is_nearest(objs, at, q, i),
{
    let b = lemma_best_in_prefix(objs, at, q, objs.len() as int);
    let j = choose|j: int| 0 <= j < objs.len() && eligible(#[trigger] objs[j], q);
    assert(b is Some);
    assert(is_nearest(objs, at, q, b->0));
}

/// What a query picks is an eligible object, paired with the query's action.
pub proof fn lemma_pick_eligible(objs: Seq<WorldObject>, at: Pos, q: Query)
    ensures
        pick(objs, at, q) matches Some(i) ==> is_nearest(objs, at, q, i),
        pick_target(objs, at, q) is Some <==> has_eligible(objs, q),
        pick_target(objs, at, q) matches Some(t) ==> exists|i: int|
            0 <= i < objs.len() && eligible(objs[i], q) && t == target_for(#[trigger] objs[i], q.act),
{
    if has_eligible(objs, q) {
        lemma_nearest_exists(objs, at, q);
        let i = pick(objs, at, q)->0;
        assert(is_nearest(objs, at, q, i));
    }
}

/// Tie-break by distance: of two eligible candidates, the farther one is
/// never picked.
pub proof fn lemma_nearer_candidate_wins(objs: Seq<WorldObject>, at: Pos, q: Query, i: int, j: int)
    requires
        0 <= i < objs.len(),
        0 <= j < objs.len(),
        eligible(objs[i], q),
        eligible(objs[j], q),
        range(at, objs[i].pos) < range(at, objs[j].pos),
    ensures
        pick(objs, at, q) is Some,
        pick(objs, at, q) != Some(j),
{
    assert(has_eligible(objs, q));
    lemma_pick_eligible(objs, at, q);
}

/// Threshold filter: a container is a candidate to fetch `amount` from
/// exactly when it holds at least that much.
pub proof fn lemma_fetch_threshold(o: WorldObject, amount: u16)
    requires
        o.kind == ObjectKind::Container,
    ensures
        eligible(o, container_query(None, ActionCommand::Fetch, Some(amount))) <==> o.used >= amount,
{
}

fn eligible_exec(o: &WorldObject, q: &Query) -> (r: bool)
    ensures
        r == eligible(*o, *q),
{
    if o.kind != q.kind && o.kind != q.alt_kind {
        return false;
    }
    if let Some(p) = q.pos {
        if o.pos != p {
            return false;
        }
    }
    if let Some(k) = q.site_kind {
        if o.site_kind != k {
            return false;
        }
    }
    match q.act {
        Some(ActionCommand::Fetch) => o.used >= q.amount,
        Some(ActionCommand::Transfer) => o.free as i64 >= q.amount as i64,
        None => true,
    }
}

/// Index of the eligible object nearest to `at`; among equally near ones,
/// the earliest.
pub fn nearest(objects: &Vec<WorldObject>, at: Pos, q: &Query) -> (r: Option<usize>)
    requires
        snapshot_valid(objects@),
        at.valid(),
    ensures
        r == (match pick(objects@, at, *q) {
            Some(i) => Some(i as usize),
            None => None::<usize>,
        }),
        r matches Some(i) ==> is_nearest(objects@, at, *q, i as int),
        r is None <==> !has_eligible(objects@, *q),
{
    let mut best: Option<usize> = None;
    let mut best_d: u32 = 0;
    let mut i: usize = 0;
    while i < objects.len()
        invariant
            i <= objects@.len(),
            snapshot_valid(objects@),
            at.valid(),
            best is None ==> forall|j: int| 0 <= j < i ==> !eligible(#[trigger] objects@[j], *q),
            best matches Some(b) ==> {
                &&& b < i
                &&& eligible(objects@[b as int], *q)
                &&& best_d == range(at, objects@[b as int].pos)
                &&& forall|j: int|
                    0 <= j < i && eligible(#[trigger] objects@[j], *q) ==> range(
                        at,
                        objects@[b as int].pos,
                    ) <= range(at, objects@[j].pos)
                &&& forall|j: int|
                    0 <= j < b && eligible(#[trigger] objects@[j], *q) ==> range(at, objects@[j].pos)
                        > range(at, objects@[b as int].pos)
            },
        decreases objects@.len() - i,
    {
        if eligible_exec(&objects[i], q) {
            let d = range_between(at, objects[i].pos);
            let better = match best {
                None => true,
                Some(_) => d < best_d,
            };
            if better {
                best = Some(i);
                best_d = d;
            }
        }
        i = i + 1;
    }
    match best {
        Some(b) => {
            assert(is_nearest(objects@, at, *q, b as int));
            let ghost c = choose|k: int| is_nearest(objects@, at, *q, k);
            proof {
                lemma_nearest_unique(objects@, at, *q, b as int, c);
            }
        },
        None => {},
    }
    best
}

/// A finder's result: the query's pick paired with its action.
pub(crate) fn pick_exec(objects: &Vec<WorldObject>, at: Pos, q: Query) -> (r: Option<CreepTarget>)
    requires
        snapshot_valid(objects@),
        at.valid(),
    ensures
        r == pick_target(objects@, at, q),
{
    match nearest(objects, at, &q) {
        Some(i) => Some(CreepTarget::new(&objects[i], q.act)),
        None => None,
    }
}

/// Sources with energy left, at `pos` if given.
pub open spec fn source_query(pos: Option<Pos>) -> Query {
    Query {
        kind: ObjectKind::Source,
        alt_kind: ObjectKind::Source,
        pos,
        site_kind: None,
        act: Some(ActionCommand::Fetch),
        amount: 1,
    }
}

/// Containers with at least `amount` (1 when not given) to give or to take.
pub open spec fn container_query(pos: Option<Pos>, act: ActionCommand, amount: Option<u16>) -> Query {
    Query {
        kind: ObjectKind::Container,
        alt_kind: ObjectKind::Container,
        pos,
        site_kind: None,
        act: Some(act),
        amount: match amount {
            Some(a) => a as u32,
            None => 1,
        },
    }
}

/// Storages holding at least `amount` (0 when not given) to fetch from, or
/// with room for at least `amount` (1 when not given) to transfer to, or any
/// storage when no action is given.
pub open spec fn storage_query(pos: Option<Pos>, act: Option<ActionCommand>, amount: Option<u16>) -> Query {
    Query {
        kind: ObjectKind::Storage,
        alt_kind: ObjectKind::Storage,
        pos,
        site_kind: None,
        act,
        amount: match act {
            Some(ActionCommand::Fetch) => match amount {
                Some(a) => a as u32,
                None => 0,
            },
            Some(ActionCommand::Transfer) => match amount {
                Some(a) => a as u32,
                None => 1,
            },
            None => 1,
        },
    }
}

/// Construction sites, of one site kind and at one position when given.
pub open spec fn site_query(cs_type: Option<ObjectKind>, pos: Option<Pos>) -> Query {
    Query {
        kind: ObjectKind::ConstructionSite,
        alt_kind: ObjectKind::ConstructionSite,
        pos,
        site_kind: cs_type,
        act: None,
        amount: 0,
    }
}

/// Spawns and extensions that can take energy.
pub open spec fn spawn_or_extension_query() -> Query {
    Query {
        kind: ObjectKind::Spawn,
        alt_kind: ObjectKind::Extension,
        pos: None,
        site_kind: None,
        act: Some(ActionCommand::Transfer),
        amount: 1,
    }
}

/// The controller.
pub open spec fn controller_query() -> Query {
    Query {
        kind: ObjectKind::Controller,
        alt_kind: ObjectKind::Controller,
        pos: None,
        site_kind: None,
        act: None,
        amount: 0,
    }
}

/// Towers holding at least `amount` (0 when not given) to fetch from, or
/// with room for at least `amount` (1 when not given) to transfer to.
pub open spec fn tower_query(pos: Option<Pos>, act: ActionCommand, amount: Option<u16>) -> Query {
    Query {
        kind: ObjectKind::Tower,
        alt_kind: ObjectKind::Tower,
        pos,
        site_kind: None,
        act: Some(act),
        amount: match amount {
            Some(a) => a as u32,
            None => match act {
                ActionCommand::Fetch => 0,
                ActionCommand::Transfer => 1,
            },
        },
    }
}

/// Links with at least `amount` (1 when not given) to give or to take, or
/// any link when no action is given.
pub open spec fn link_query(pos: Option<Pos>, act: Option<ActionCommand>, amount: Option<u16>) -> Query {
    Query {
        kind: ObjectKind::Link,
        alt_kind: ObjectKind::Link,
        pos,
        site_kind: None,
        act,
        amount: match amount {
            Some(a) => a as u32,
            None => 1,
        },
    }
}

fn amount_or(amount: Option<u16>, default: u32) -> (r: u32)
    ensures
        r == (match amount {
            Some(a) => a as u32,
            None => default,
        }),
{
    match amount {
        Some(a) => a as u32,
        None => default,
    }
}

pub(crate) fn source_query_exec(pos: Option<Pos>) -> (r: Query)
    ensures
        r == source_query(pos),
{
    Query {
        kind: ObjectKind::Source,
        alt_kind: ObjectKind::Source,
        pos,
        site_kind: None,
        act: Some(ActionCommand::Fetch),
        amount: 1,
    }
}

pub(crate) fn container_query_exec(pos: Option<Pos>, act: ActionCommand, amount: Option<u16>) -> (r: Query)
    ensures
        r == container_query(pos, act, amount),
{
    Query {
        kind: ObjectKind::Container,
        alt_kind: ObjectKind::Container,
        pos,
        site_kind: None,
        act: Some(act),
        amount: amount_or(amount, 1),
    }
}

pub(crate) fn storage_query_exec(pos: Option<Pos>, act: Option<ActionCommand>, amount: Option<u16>) -> (r: Query)
    ensures
        r == storage_query(pos, act, amount),
{
    let threshold = match act {
        Some(ActionCommand::Fetch) => amount_or(amount, 0),
        Some(ActionCommand::Transfer) => amount_or(amount, 1),
        None => 1,
    };
    Query { kind: ObjectKind::Storage, alt_kind: ObjectKind::Storage, pos, site_kind: None, act, amount: threshold }
}

pub(crate) fn site_query_exec(cs_type: Option<ObjectKind>, pos: Option<Pos>) -> (r: Query)
    ensures
        r == site_query(cs_type, pos),
{
    Query {
        kind: ObjectKind::ConstructionSite,
        alt_kind: ObjectKind::ConstructionSite,
        pos,
        site_kind: cs_type,
        act: None,
        amount: 0,
    }
}

pub(crate) fn tower_query_exec(pos: Option<Pos>, act: ActionCommand, amount: Option<u16>) -> (r: Query)
    ensures
        r == tower_query(pos, act, amount),
{
    let threshold = match act {
        ActionCommand::Fetch => amount_or(amount, 0),
        ActionCommand::Transfer => amount_or(amount, 1),
    };
    Query { kind: ObjectKind::Tower, alt_kind: ObjectKind::Tower, pos, site_kind: None, act: Some(act), amount: threshold }
}

pub(crate) fn link_query_exec(pos: Option<Pos>, act: Option<ActionCommand>, amount: Option<u16>) -> (r: Query)
    ensures
        r == link_query(pos, act, amount),
{
    Query { kind: ObjectKind::Link, alt_kind: ObjectKind::Link, pos, site_kind: None, act, amount: amount_or(amount, 1) }
}

pub(crate) fn spawn_or_extension_query_exec() -> (r: Query)
    ensures
        r == spawn_or_extension_query(),
{
    Query {
        kind: ObjectKind::Spawn,
        alt_kind: ObjectKind::Extension,
        pos: None,
        site_kind: None,
        act: Some(ActionCommand::Transfer),
        amount: 1,
    }
}

pub(crate) fn controller_query_exec() -> (r: Query)
    ensures
        r == controller_query(),
{
    Query {
        kind: ObjectKind::Controller,
        alt_kind: ObjectKind::Controller,
        pos: None,
        site_kind: None,
        act: None,
        amount: 0,
    }
}

/// The source with energy left at `pos`, or else the nearest one.
pub fn find_source(objects: &Vec<WorldObject>, at: Pos, pos: Option<Pos>) -> (r: Option<CreepTarget>)
    requires
        snapshot_valid(objects@),
        at.valid(),
    ensures
        r == pick_target(objects@, at, source_query(pos)),
{
    pick_exec(objects, at, source_query_exec(pos))
}

/// The nearest container that meets the capacity threshold for `act`.
pub fn find_container(
    objects: &Vec<WorldObject>,
    at: Pos,
    pos: Option<Pos>,
    act: ActionCommand,
    amount: Option<u16>,
) -> (r: Option<CreepTarget>)
    requires
        snapshot_valid(objects@),
        at.valid(),
    ensures
        r == pick_target(objects@, at, container_query(pos, act, amount)),
{
    pick_exec(objects, at, container_query_exec(pos, act, amount))
}

/// The nearest storage that meets the capacity threshold for `act`; with no
/// action, the nearest storage as a place to park.
pub fn find_storage(
    objects: &Vec<WorldObject>,
    at: Pos,
    pos: Option<Pos>,
    act: Option<ActionCommand>,
    amount: Option<u16>,
) -> (r: Option<CreepTarget>)
    requires
        snapshot_valid(objects@),
        at.valid(),
    ensures
        r == pick_target(objects@, at, storage_query(pos, act, amount)),
{
    pick_exec(objects, at, storage_query_exec(pos, act, amount))
}

/// The nearest construction site of the given kind and position, if given.
pub fn find_construction_site(
    objects: &Vec<WorldObject>,
    at: Pos,
    cs_type: Option<ObjectKind>,
    pos: Option<Pos>,
) -> (r: Option<CreepTarget>)
    requires
        snapshot_valid(objects@),
        at.valid(),
    ensures
        r == pick_target(objects@, at, site_query(cs_type, pos)),
{
    pick_exec(objects, at, site_query_exec(cs_type, pos))
}

/// The nearest spawn or extension that can take energy.
pub fn find_notfull_spawn_or_extension(objects: &Vec<WorldObject>, at: Pos) -> (r: Option<CreepTarget>)
    requires
        snapshot_valid(objects@),
        at.valid(),
    ensures
        r == pick_target(objects@, at, spawn_or_extension_query()),
{
    pick_exec(objects, at, spawn_or_extension_query_exec())
}

/// The controller of the region.
pub fn find_controller(objects: &Vec<WorldObject>, at: Pos) -> (r: Option<CreepTarget>)
    requires
        snapshot_valid(objects@),
        at.valid(),
    ensures
        r == pick_target(objects@, at, controller_query()),
{
    pick_exec(objects, at, controller_query_exec())
}

/// The nearest tower that meets the capacity threshold for `act`; nothing
/// when no action is given.
pub fn find_tower(
    objects: &Vec<WorldObject>,
    at: Pos,
    pos: Option<Pos>,
    act: Option<ActionCommand>,
    amount: Option<u16>,
) -> (r: Option<CreepTarget>)
    requires
        snapshot_valid(objects@),
        at.valid(),
    ensures
        r == (match act {
            Some(a) => pick_target(objects@, at, tower_query(pos, a, amount)),
            None => None,
        }),
{
    match act {
        Some(a) => pick_exec(objects, at, tower_query_exec(pos, a, amount)),
        None => None,
    }
}

/// The nearest link that meets the capacity threshold for `act`.
pub fn find_link(
    objects: &Vec<WorldObject>,
    at: Pos,
    pos: Option<Pos>,
    act: Option<ActionCommand>,
    amount: Option<u16>,
) -> (r: Option<CreepTarget>)
    requires
        snapshot_valid(objects@),
        at.valid(),
    ensures
        r == pick_target(objects@, at, link_query(pos, act, amount)),
{
    pick_exec(objects, at, link_query_exec(pos, act, amount))
}

} // verus!
