use creep_brain::creep_composition::{BodyPart, CreepComposition, CreepType};
use creep_brain::creep_manager::{CreepMgr, CreepState, Observation, Order, SpawnView};
use creep_brain::creep_target::{
    find_construction_site, find_container, find_controller, find_link, find_notfull_spawn_or_extension,
    find_source, find_storage, find_tower, ActionCommand, CreepTarget, EntityId, ObjectKind, Pos,
    WorldObject,
};
use creep_brain::link_manager::link_tx_from_mine;
use creep_brain::naming::ordinal;
use creep_brain::resolver::{miner_stand_spot, resolve, CarryState, MinerSite};
use creep_brain::work::{do_work, go_ahead, is_work_done, CreepView, ErrorCode};

fn obj(kind: ObjectKind, id: u128, x: i32, y: i32, used: u32, free: i32) -> WorldObject {
    WorldObject {
        kind,
        id: EntityId(id),
        pos: Pos { x, y },
        used,
        free,
        hits: 100,
        hits_max: 100,
        site_kind: ObjectKind::Other,
    }
}

fn at(x: i32, y: i32) -> Pos {
    Pos { x, y }
}

fn view(id: u128, x: i32, y: i32, used: u32, free: i32) -> CreepView {
    CreepView { id: EntityId(id), pos: Pos { x, y }, carried: CarryState { used, free } }
}

fn observation(creep: Option<CreepView>, objects: Vec<WorldObject>) -> Observation {
    Observation {
        hostiles: Some(false),
        creep,
        spawn: None,
        objects,
        underfoot: Vec::new(),
        working: None,
        site: None,
    }
}

#[test]
fn standard_role_cost_is_sum_of_part_costs() {
    let t = CreepType::new("builder");
    let parts = t.part_vec().clone();
    assert_eq!(parts, vec![BodyPart::Work, BodyPart::Carry, BodyPart::Move, BodyPart::Move]);
    assert_eq!(t.cost(), 100 + 50 + 50 + 50);
    assert_eq!(t.carry_cnt(), 1);
    assert_eq!(t.work_cnt(), 1);
}

#[test]
fn composition_cost_uses_part_table() {
    let c = CreepComposition::new(&vec![(BodyPart::Claim, 1), (BodyPart::Tough, 3), (BodyPart::Heal, 2)]);
    assert_eq!(c.cost(), 600 + 30 + 500);
    let d = CreepComposition::new(&vec![(BodyPart::Attack, 2), (BodyPart::RangedAttack, 1), (BodyPart::Move, 1)]);
    assert_eq!(d.cost(), 160 + 150 + 50);
    let empty = CreepComposition::new(&Vec::new());
    assert_eq!(empty.cost(), 0);
}

#[test]
fn role_names() {
    assert!(matches!(CreepType::new("upgrader"), CreepType::Upgrader(_)));
    assert!(matches!(CreepType::new("builder"), CreepType::Builder(_)));
    assert!(matches!(CreepType::new("carrier"), CreepType::Carrier(_)));
    assert!(matches!(CreepType::new("miner"), CreepType::Miner(_)));
    assert!(matches!(CreepType::new("transfer"), CreepType::Normal(_)));
}

#[test]
fn names_give_role_and_ordinal() {
    let m = CreepMgr::new("builder-1", None);
    assert!(matches!(m.career(), CreepType::Builder(_)));
    assert_eq!(m.ordinal(), 1);
    assert_eq!(m.state(), CreepState::NotExist);
    let t = CreepMgr::new("transfer-0", Some(EntityId(9)));
    assert!(matches!(t.career(), CreepType::Normal(_)));
    assert_eq!(t.state(), CreepState::Idle);
    assert_eq!(t.id(), Some(EntityId(9)));
    assert_eq!(ordinal("miner".as_bytes()), 255);
    assert_eq!(ordinal("miner-300".as_bytes()), 255);
    assert_eq!(ordinal("miner-+7".as_bytes()), 7);
    assert_eq!(ordinal("miner-12-x".as_bytes()), 12);
    assert_eq!(ordinal("miner-a".as_bytes()), 255);
}

#[test]
fn tie_break_picks_nearer_candidate() {
    let far = obj(ObjectKind::Container, 1, 15, 10, 100, 0);
    let near = obj(ObjectKind::Container, 2, 13, 10, 100, 0);
    let here = at(10, 10);
    let r = find_container(&vec![far, near], here, None, ActionCommand::Fetch, Some(50));
    assert_eq!(r, Some(CreepTarget::FetchFromContainer(EntityId(2))));
    let r = find_container(&vec![near, far], here, None, ActionCommand::Fetch, Some(50));
    assert_eq!(r, Some(CreepTarget::FetchFromContainer(EntityId(2))));
}

#[test]
fn equal_distance_picks_earliest() {
    let a = obj(ObjectKind::Spawn, 1, 12, 10, 0, 300);
    let b = obj(ObjectKind::Extension, 2, 8, 10, 0, 50);
    let r = find_notfull_spawn_or_extension(&vec![a, b], at(10, 10));
    assert_eq!(r, Some(CreepTarget::TransferToSpawn(EntityId(1))));
    let r = find_notfull_spawn_or_extension(&vec![b, a], at(10, 10));
    assert_eq!(r, Some(CreepTarget::TransferToExtension(EntityId(2))));
}

#[test]
fn threshold_filter_on_containers() {
    let c = obj(ObjectKind::Container, 4, 20, 20, 30, 1970);
    let objs = vec![c];
    assert_eq!(find_container(&objs, at(0, 0), None, ActionCommand::Fetch, Some(50)), None);
    assert_eq!(
        find_container(&objs, at(0, 0), None, ActionCommand::Fetch, Some(20)),
        Some(CreepTarget::FetchFromContainer(EntityId(4)))
    );
}

#[test]
fn finders_by_kind() {
    let objs = vec![
        obj(ObjectKind::Controller, 1, 30, 30, 0, 0),
        obj(ObjectKind::Storage, 2, 25, 25, 1000, 5000),
        obj(ObjectKind::Tower, 3, 20, 20, 100, 900),
        obj(ObjectKind::Link, 4, 5, 5, 0, 800),
        obj(ObjectKind::Source, 5, 40, 40, 3000, 0),
        obj(ObjectKind::Source, 6, 41, 41, 0, 0),
    ];
    let here = at(0, 0);
    assert_eq!(find_controller(&objs, here), Some(CreepTarget::Upgrade(EntityId(1))));
    assert_eq!(find_storage(&objs, here, None, Some(ActionCommand::Fetch), Some(500)), Some(CreepTarget::FetchFromStorage(EntityId(2))));
    assert_eq!(find_storage(&objs, here, None, Some(ActionCommand::Fetch), Some(1500)), None);
    assert_eq!(find_storage(&objs, here, None, None, None), Some(CreepTarget::Park(EntityId(2))));
    assert_eq!(find_tower(&objs, here, None, Some(ActionCommand::Transfer), Some(50)), Some(CreepTarget::TransferToTower(EntityId(3))));
    assert_eq!(find_tower(&objs, here, None, Some(ActionCommand::Transfer), Some(950)), None);
    assert_eq!(find_tower(&objs, here, None, None, None), None);
    assert_eq!(find_link(&objs, here, Some(at(5, 5)), Some(ActionCommand::Transfer), None), Some(CreepTarget::TransferToLink(EntityId(4))));
    assert_eq!(find_link(&objs, here, Some(at(6, 5)), Some(ActionCommand::Transfer), None), None);
    assert_eq!(find_source(&objs, here, None), Some(CreepTarget::FetchFromSource(EntityId(5))));
    assert_eq!(find_source(&objs, here, Some(at(41, 41))), None);
}

#[test]
fn construction_sites_by_kind() {
    let mut road_site = obj(ObjectKind::ConstructionSite, 1, 11, 10, 0, 0);
    road_site.site_kind = ObjectKind::Road;
    let mut box_site = obj(ObjectKind::ConstructionSite, 2, 30, 10, 0, 0);
    box_site.site_kind = ObjectKind::Container;
    let objs = vec![road_site, box_site];
    assert_eq!(find_construction_site(&objs, at(10, 10), None, None), Some(CreepTarget::Build(EntityId(1))));
    assert_eq!(
        find_construction_site(&objs, at(10, 10), Some(ObjectKind::Container), None),
        Some(CreepTarget::Build(EntityId(2)))
    );
}

#[test]
fn target_new_and_position() {
    let s = obj(ObjectKind::Storage, 7, 3, 4, 0, 0);
    assert_eq!(CreepTarget::new(&s, None), CreepTarget::Park(EntityId(7)));
    assert_eq!(CreepTarget::new(&s, Some(ActionCommand::Transfer)), CreepTarget::TransferToStorage(EntityId(7)));
    let src = obj(ObjectKind::Source, 8, 1, 1, 10, 0);
    assert_eq!(CreepTarget::new(&src, Some(ActionCommand::Transfer)), CreepTarget::Default);
    let objs = vec![s, src];
    assert_eq!(CreepTarget::Park(EntityId(7)).pos(&objs), Some(at(3, 4)));
    assert_eq!(CreepTarget::Upgrade(EntityId(99)).pos(&objs), None);
    assert_eq!(CreepTarget::Default.pos(&objs), None);
}

#[test]
fn empty_creep_collects_from_resource_node() {
    let objs = vec![obj(ObjectKind::Source, 5, 20, 20, 3000, 0)];
    let carried = CarryState { used: 0, free: 50 };
    for role in ["builder", "upgrader"] {
        let career = CreepType::new(role);
        let (t, clear) = resolve(&career, 0, carried, None, &objs, at(10, 10), None);
        assert_eq!(t, Some(CreepTarget::FetchFromSource(EntityId(5))));
        assert!(clear);
    }
}

#[test]
fn empty_builder_clears_flag_and_does_not_build() {
    let objs = vec![
        obj(ObjectKind::ConstructionSite, 1, 11, 10, 0, 0),
        obj(ObjectKind::Storage, 2, 30, 30, 500, 100),
    ];
    let mut m = CreepMgr::new("builder-0", Some(EntityId(50)));
    let mut o = observation(Some(view(50, 10, 10, 0, 50)), objs);
    o.working = Some(true);
    let order = m.run(&o);
    assert_eq!(m.working_flag(), Some(false));
    assert_eq!(m.target(), Some(CreepTarget::FetchFromStorage(EntityId(2))));
    assert!(matches!(order, Order::Work(_)));
}

#[test]
fn delivering_builder_builds() {
    let objs = vec![obj(ObjectKind::ConstructionSite, 1, 11, 10, 0, 0), obj(ObjectKind::Controller, 3, 40, 40, 0, 0)];
    let career = CreepType::new("builder");
    let carried = CarryState { used: 50, free: 0 };
    let (t, clear) = resolve(&career, 0, carried, Some(true), &objs, at(10, 10), None);
    assert_eq!(t, Some(CreepTarget::Build(EntityId(1))));
    assert!(!clear);
}

#[test]
fn carrier_prefers_spawn_then_tower() {
    let career = CreepType::new("carrier");
    let carried = CarryState { used: 50, free: 0 };
    let objs = vec![obj(ObjectKind::Tower, 3, 20, 20, 100, 900), obj(ObjectKind::Spawn, 1, 40, 40, 0, 10)];
    let (t, _) = resolve(&career, 0, carried, Some(true), &objs, at(10, 10), None);
    assert_eq!(t, Some(CreepTarget::TransferToSpawn(EntityId(1))));
    let objs = vec![obj(ObjectKind::Tower, 3, 20, 20, 100, 900), obj(ObjectKind::Spawn, 1, 40, 40, 300, 0)];
    let (t, _) = resolve(&career, 0, carried, Some(true), &objs, at(10, 10), None);
    assert_eq!(t, Some(CreepTarget::TransferToTower(EntityId(3))));
}

#[test]
fn nothing_to_do_parks_at_storage() {
    let career = CreepType::new("transfer");
    let carried = CarryState { used: 0, free: 50 };
    let objs = vec![obj(ObjectKind::Storage, 2, 30, 30, 0, 0)];
    let (t, _) = resolve(&career, 0, carried, None, &objs, at(10, 10), None);
    assert_eq!(t, Some(CreepTarget::Park(EntityId(2))));
    let (t, _) = resolve(&career, 0, carried, None, &objs, at(29, 31), None);
    assert_eq!(t, None);
}

#[test]
fn spawn_refused_when_energy_short() {
    let mut m = CreepMgr::new("upgrader-0", None);
    let mut o = observation(None, Vec::new());
    o.spawn = Some(SpawnView { spawning: None, energy_available: 200 });
    assert_eq!(m.try_spawn(&o.spawn), Err(ErrorCode::NotEnough));
    let order = m.run(&o);
    assert!(matches!(order, Order::Rest));
    assert_eq!(m.state(), CreepState::NotExist);
}

#[test]
fn spawn_lifecycle() {
    let mut m = CreepMgr::new("upgrader-0", None);
    let mut o = observation(None, vec![obj(ObjectKind::Controller, 1, 20, 20, 0, 0)]);
    assert_eq!(m.try_spawn(&o.spawn), Err(ErrorCode::NotFound));
    o.spawn = Some(SpawnView { spawning: Some(String::from("builder-0")), energy_available: 900 });
    assert_eq!(m.try_spawn(&o.spawn), Err(ErrorCode::Busy));
    o.spawn = Some(SpawnView { spawning: None, energy_available: 250 });
    assert!(matches!(m.run(&o), Order::Spawn));
    assert_eq!(m.state(), CreepState::NotExist);
    o.spawn = Some(SpawnView { spawning: Some(String::from("upgrader-0")), energy_available: 0 });
    assert!(matches!(m.run(&o), Order::Rest));
    assert_eq!(m.state(), CreepState::Spawning);
    assert!(matches!(m.run(&o), Order::Rest));
    assert_eq!(m.state(), CreepState::Spawning);
    o.spawn = Some(SpawnView { spawning: None, energy_available: 0 });
    o.creep = Some(view(77, 10, 10, 50, 0));
    let order = m.run(&o);
    assert_eq!(m.id(), Some(EntityId(77)));
    assert_eq!(m.target(), Some(CreepTarget::Upgrade(EntityId(1))));
    assert!(matches!(order, Order::Work(_)));
    let next = m.resume(&o, Err(ErrorCode::NotInRange));
    assert_eq!(m.state(), CreepState::OnWay);
    match next {
        Order::Travel(plan) => assert_eq!(plan.dest, Ok(at(20, 20))),
        _ => panic!("expected a travel order"),
    }
    let order = m.run(&o);
    assert!(matches!(order, Order::Work(_)));
    assert!(matches!(m.resume(&o, Ok(())), Order::Rest));
    assert_eq!(m.state(), CreepState::Working);
    assert!(m.target().is_some());
}

#[test]
fn hostiles_send_creep_to_safety() {
    let mut m = CreepMgr::new("builder-0", Some(EntityId(5)));
    let mut o = observation(Some(view(5, 10, 10, 0, 50)), Vec::new());
    o.hostiles = Some(true);
    assert!(matches!(m.run(&o), Order::Suicide));
    assert_eq!(m.state(), CreepState::WaitingForSafe);
    o.creep = None;
    assert!(matches!(m.run(&o), Order::Rest));
    assert_eq!(m.state(), CreepState::WaitingForSafe);
    o.hostiles = Some(false);
    assert!(matches!(m.run(&o), Order::Rest));
    assert_eq!(m.state(), CreepState::NotExist);
    assert_eq!(m.id(), None);
}

#[test]
fn waiting_creep_still_alive_returns_to_idle() {
    let mut m = CreepMgr::new("builder-0", Some(EntityId(5)));
    let mut o = observation(Some(view(5, 10, 10, 0, 50)), Vec::new());
    o.hostiles = Some(true);
    m.run(&o);
    assert_eq!(m.state(), CreepState::WaitingForSafe);
    o.hostiles = Some(false);
    assert!(matches!(m.run(&o), Order::Rest));
    assert_eq!(m.state(), CreepState::Idle);
}

#[test]
fn carrier_stores_in_any_storage_with_room() {
    let career = CreepType::new("carrier");
    let carried = CarryState { used: 50, free: 0 };
    let objs = vec![obj(ObjectKind::Storage, 2, 25, 25, 990, 10), obj(ObjectKind::Controller, 1, 30, 30, 0, 0)];
    let (t, _) = resolve(&career, 0, carried, Some(true), &objs, at(10, 10), None);
    assert_eq!(t, Some(CreepTarget::TransferToStorage(EntityId(2))));
    let objs = vec![obj(ObjectKind::Storage, 2, 25, 25, 1000, 0), obj(ObjectKind::Controller, 1, 30, 30, 0, 0)];
    let (t, _) = resolve(&career, 0, carried, Some(true), &objs, at(10, 10), None);
    assert_eq!(t, Some(CreepTarget::Upgrade(EntityId(1))));
}

#[test]
fn miner_harvests_only_from_stand_spot() {
    let career = CreepType::new("miner");
    let src = obj(ObjectKind::Source, 9, 4, 46, 3000, 0);
    let objs = vec![src];
    let t = Some(CreepTarget::FetchFromSource(EntityId(9)));
    assert_eq!(miner_stand_spot(0, at(4, 46)), Some(at(4, 45)));
    assert_eq!(miner_stand_spot(1, at(42, 5)), Some(at(41, 5)));
    assert_eq!(miner_stand_spot(2, at(42, 5)), None);
    let off = do_work(&career, 0, t, view(1, 5, 45, 0, 50), &objs, &Vec::new());
    assert_eq!(off.action, Err(ErrorCode::NoPath));
    let on = do_work(&career, 0, t, view(1, 4, 45, 0, 50), &objs, &Vec::new());
    assert_eq!(on.action, t.ok_or(ErrorCode::Other));
    let missing = do_work(&career, 0, Some(CreepTarget::FetchFromSource(EntityId(3))), view(1, 4, 45, 0, 50), &objs, &Vec::new());
    assert_eq!(missing.action, Err(ErrorCode::InvalidTarget));
}

#[test]
fn miner_container_full_and_repair() {
    let career = CreepType::new("miner");
    let objs = vec![obj(ObjectKind::Source, 9, 4, 46, 3000, 0)];
    let t = Some(CreepTarget::FetchFromSource(EntityId(9)));
    let mut full_box = obj(ObjectKind::Container, 10, 4, 45, 2000, 0);
    let plan = do_work(&career, 0, t, view(1, 4, 45, 50, 0), &objs, &vec![full_box]);
    assert_eq!(plan.action, Err(ErrorCode::Full));
    let plan = do_work(&career, 0, t, view(1, 4, 45, 10, 40), &objs, &vec![full_box]);
    assert_eq!(plan.action, t.ok_or(ErrorCode::Other));
    full_box.free = 100;
    full_box.hits = 10;
    full_box.hits_max = 250000;
    let plan = do_work(&career, 0, t, view(1, 4, 45, 10, 40), &objs, &vec![full_box]);
    assert_eq!(plan.repair, Some(EntityId(10)));
    assert_eq!(plan.action, Err(ErrorCode::Busy));
}

#[test]
fn park_target_is_not_actionable() {
    let career = CreepType::new("builder");
    let plan = do_work(&career, 0, Some(CreepTarget::Park(EntityId(2))), view(1, 0, 0, 0, 50), &Vec::new(), &Vec::new());
    assert_eq!(plan.action, Err(ErrorCode::InvalidArgs));
    let plan = do_work(&career, 0, None, view(1, 0, 0, 0, 50), &Vec::new(), &Vec::new());
    assert_eq!(plan.action, Err(ErrorCode::InvalidArgs));
}

#[test]
fn work_completion_rules() {
    let career = CreepType::new("carrier");
    let objs = vec![
        obj(ObjectKind::Spawn, 1, 5, 5, 100, 200),
        obj(ObjectKind::Container, 2, 6, 6, 30, 1970),
        obj(ObjectKind::ConstructionSite, 3, 7, 7, 0, 0),
    ];
    let busy = is_work_done(&career, 0, Some(CreepTarget::TransferToSpawn(EntityId(1))), view(1, 0, 0, 50, 0), &objs, None);
    assert_eq!(busy, (Err(ErrorCode::Busy), false));
    let done = is_work_done(&career, 0, Some(CreepTarget::TransferToSpawn(EntityId(1))), view(1, 0, 0, 0, 50), &objs, None);
    assert_eq!(done, (Ok(()), false));
    let below = is_work_done(&career, 0, Some(CreepTarget::FetchFromContainer(EntityId(2))), view(1, 0, 0, 0, 50), &objs, None);
    assert_eq!(below, (Ok(()), false));
    let full = is_work_done(&career, 0, Some(CreepTarget::FetchFromContainer(EntityId(2))), view(1, 0, 0, 50, 0), &objs, None);
    assert_eq!(full, (Ok(()), true));
    let building = is_work_done(&career, 0, Some(CreepTarget::Build(EntityId(3))), view(1, 0, 0, 20, 30), &objs, None);
    assert_eq!(building, (Err(ErrorCode::Busy), false));
    let gone = is_work_done(&career, 0, Some(CreepTarget::Build(EntityId(4))), view(1, 0, 0, 20, 30), &objs, None);
    assert_eq!(gone, (Ok(()), false));
    let upgrading = is_work_done(&career, 0, Some(CreepTarget::Upgrade(EntityId(5))), view(1, 0, 0, 20, 30), &objs, None);
    assert_eq!(upgrading, (Err(ErrorCode::Busy), false));
}

#[test]
fn road_repair_takes_the_step() {
    let career = CreepType::new("builder");
    let mut road = obj(ObjectKind::Road, 20, 0, 0, 0, 0);
    road.hits = 1000;
    road.hits_max = 5000;
    let objs = vec![obj(ObjectKind::Controller, 1, 9, 9, 0, 0)];
    let t = Some(CreepTarget::Upgrade(EntityId(1)));
    let plan = go_ahead(&career, 0, t, view(1, 0, 0, 40, 10), &objs, &vec![road], None);
    assert_eq!(plan.repair, Some(EntityId(20)));
    assert_eq!(plan.dest, Err(ErrorCode::Busy));
    let plan = go_ahead(&career, 0, t, view(1, 0, 0, 1, 49), &objs, &vec![road], None);
    assert_eq!(plan.repair, None);
    assert_eq!(plan.dest, Ok(at(9, 9)));
    let miner = CreepType::new("miner");
    let site = Some(MinerSite { source: at(42, 5), link: Some(at(40, 4)) });
    let plan = go_ahead(&miner, 1, t, view(1, 0, 0, 1, 49), &objs, &Vec::new(), site);
    assert_eq!(plan.dest, Ok(at(41, 5)));
}

#[test]
fn miner_with_link_unloads_when_container_full() {
    let miner = CreepType::new("miner");
    let site = Some(MinerSite { source: at(42, 5), link: Some(at(40, 4)) });
    let objs = vec![
        obj(ObjectKind::Source, 9, 42, 5, 3000, 0),
        obj(ObjectKind::Container, 10, 41, 5, 2000, 0),
        obj(ObjectKind::Link, 11, 40, 4, 0, 800),
    ];
    let (t, clear) = resolve(&miner, 1, CarryState { used: 50, free: 0 }, None, &objs, at(41, 5), site);
    assert_eq!(t, Some(CreepTarget::TransferToLink(EntityId(11))));
    assert!(!clear);
    let (t, _) = resolve(&miner, 1, CarryState { used: 0, free: 50 }, None, &objs, at(41, 5), site);
    assert_eq!(t, Some(CreepTarget::FetchFromSource(EntityId(9))));
}

#[test]
fn link_balancing() {
    let src = obj(ObjectKind::Link, 1, 40, 4, 800, 0);
    let dst = obj(ObjectKind::Link, 2, 8, 31, 0, 800);
    assert_eq!(link_tx_from_mine(&vec![src, dst], at(40, 4), at(8, 31)), Some((EntityId(1), EntityId(2))));
    let mut half = src;
    half.free = 10;
    assert_eq!(link_tx_from_mine(&vec![half, dst], at(40, 4), at(8, 31)), None);
    assert_eq!(link_tx_from_mine(&vec![src], at(40, 4), at(8, 31)), None);
}

#[test]
fn repeated_entries_add_to_part_counts() {
    let c = CreepComposition::new(&vec![(BodyPart::Carry, 1), (BodyPart::Work, 2), (BodyPart::Carry, 1), (BodyPart::Work, 1)]);
    let t = CreepType::Carrier(c);
    assert_eq!(t.carry_cnt(), 2);
    assert_eq!(t.work_cnt(), 3);
    assert_eq!(t.part_vec().len(), 5);
    assert_eq!(t.cost(), 2 * 50 + 3 * 100);
}

#[test]
fn storage_transfer_honours_amount() {
    let objs = vec![obj(ObjectKind::Storage, 2, 25, 25, 990, 10)];
    let here = at(0, 0);
    assert_eq!(find_storage(&objs, here, None, Some(ActionCommand::Transfer), Some(50)), None);
    assert_eq!(
        find_storage(&objs, here, None, Some(ActionCommand::Transfer), Some(10)),
        Some(CreepTarget::TransferToStorage(EntityId(2)))
    );
    assert_eq!(
        find_storage(&objs, here, None, Some(ActionCommand::Transfer), None),
        Some(CreepTarget::TransferToStorage(EntityId(2)))
    );
}

#[test]
fn new_creep_has_standard_body() {
    let m = CreepMgr::new("upgrader-0", None);
    assert_eq!(m.career().cost(), 250);
    assert_eq!(m.career().carry_cnt(), 1);
    assert_eq!(m.career().work_cnt(), 1);
}

#[test]
fn waiting_creep_gone_in_unseen_room_starts_over() {
    let mut m = CreepMgr::new("builder-0", Some(EntityId(5)));
    let mut o = observation(Some(view(5, 10, 10, 0, 50)), Vec::new());
    o.hostiles = Some(true);
    m.run(&o);
    assert_eq!(m.state(), CreepState::WaitingForSafe);
    o.hostiles = None;
    m.run(&o);
    assert_eq!(m.state(), CreepState::WaitingForSafe);
    o.creep = None;
    m.run(&o);
    assert_eq!(m.state(), CreepState::NotExist);
    assert_eq!(m.id(), None);
}

#[test]
fn seek_target_for_empty_builder_collects() {
    let objs = vec![
        obj(ObjectKind::ConstructionSite, 1, 11, 10, 0, 0),
        obj(ObjectKind::Source, 3, 20, 20, 3000, 0),
    ];
    let mut m = CreepMgr::new("builder-0", Some(EntityId(50)));
    let c = view(50, 10, 10, 0, 50);
    let mut o = observation(Some(c), objs);
    o.working = Some(true);
    let order = m.seek_target(&o, c);
    assert_eq!(m.working_flag(), Some(false));
    assert_eq!(m.target(), Some(CreepTarget::FetchFromSource(EntityId(3))));
    assert!(matches!(order, Order::Work(_)));
}
