//! The per-creep lifecycle state machine.
//!
//! Each tick the host calls [`CreepMgr::run`] with an [`Observation`] of the
//! world and performs the [`Order`] that comes back. After performing a
//! `Work` order it reports the outcome through [`CreepMgr::resume`], which
//! may hand out a `Travel` order to finish the tick. The host persists the
//! working flag ([`CreepMgr::working_flag`]) under the creep's name.

use vstd::prelude::*;
use vstd::string::StringSliceAdditionalSpecFns;
use crate::creep_composition::{CreepType, parts_cost, expand, standard_entries};
use crate::creep_target::{CreepTarget, WorldObject, snapshot_valid};
use crate::naming::{role_prefix, ordinal_of, role_prefix_len, ordinal};
use crate::resolver::{MinerSite, resolve, resolve_spec, clears_working, site_valid};
use crate::work::{
    CreepView, ErrorCode, MovePlan, WorkPlan, do_work, go_ahead, is_work_done, move_plan,
    work_done, work_plan,
};

verus! {

/// Lifecycle state of a creep.
#[derive(Clone, Copy, Debug, PartialEq, Eq, Structural)]
pub enum CreepState {
    NotExist,
    Spawning,
    Idle,
    OnWay,
    Working,
    WaitingForSafe,
}

/// The spawn as seen this tick: the name of the creep it is spawning, if
/// any, and the energy available for spawning in its region.
pub struct SpawnView {
    pub spawning: Option<String>,
    pub energy_available: u32,
}

/// What the host observed this tick. `hostiles` is `None` when the home
/// region cannot be seen; `creep` is the creep of this name, if it exists;
/// `objects` is the snapshot of the home region and `underfoot` the
/// structures on the creep's tile; `working` is the persisted working flag.
pub struct Observation {
    pub hostiles: Option<bool>,
    pub creep: Option<CreepView>,
    pub spawn: Option<SpawnView>,
    pub objects: Vec<WorldObject>,
    pub underfoot: Vec<WorldObject>,
    pub working: Option<bool>,
    pub site: Option<MinerSite>,
}

impl Observation {
    /// Every position in the observation lies inside the world.
    pub open spec fn valid(&self) -> bool {
        &&& snapshot_valid(self.objects@)
        &&& (self.creep matches Some(c) ==> c.pos.valid())
        &&& site_valid(self.site)
    }
}

/// What the host is to do for the creep.
#[derive(Clone, Copy, Debug)]
pub enum Order {
    /// Nothing.
    Rest,
    /// Destroy the creep.
    Suicide,
    /// Request the spawn of this creep's body under its name.
    Spawn,
    /// Perform the plan, then report its outcome through `resume`.
    Work(WorkPlan),
    /// Perform the plan; the tick is over.
    Travel(MovePlan),
}

/// What the outcome of a `Work` order decides.
#[derive(Clone, Copy, Debug, PartialEq, Eq, Structural)]
pub enum Continuation {
    /// Success makes the creep `Working`; failure sends it on its way.
    Advance,
    /// The creep keeps working whatever the outcome.
    Repeat,
}

/// Whether a spawn request is to be made (`Ok(true)`), this creep is
/// already being spawned (`Ok(false)`), or why neither holds.
pub open spec fn spawn_check(name: Seq<char>, cost: int, spawn: Option<SpawnView>) -> Result<bool, ErrorCode> {
    match spawn {
        None => Err(ErrorCode::NotFound),
        Some(sv) => match sv.spawning {
            Some(n) => if n@ == name {
                Ok(false)
            } else {
                Err(ErrorCode::Busy)
            },
            None => if sv.energy_available >= cost {
                Ok(true)
            } else {
                Err(ErrorCode::NotEnough)
            },
        },
    }
}

/// Whether the spawn is busy with this creep.
pub open spec fn spawning_check(name: Seq<char>, spawn: Option<SpawnView>) -> Result<(), ErrorCode> {
    match spawn {
        None => Err(ErrorCode::NotFound),
        Some(sv) => match sv.spawning {
            None => Err(ErrorCode::NotFound),
            Some(n) => if n@ == name {
                Ok(())
            } else {
                Err(ErrorCode::Busy)
            },
        },
    }
}

/// Whether the spawn is no longer busy with this creep.
pub open spec fn spawn_done_check(name: Seq<char>, spawn: Option<SpawnView>) -> Result<(), ErrorCode> {
    match spawn {
        Some(sv) => match sv.spawning {
            Some(n) => if n@ == name {
                Err(ErrorCode::Busy)
            } else {
                Ok(())
            },
            None => Ok(()),
        },
        None => Ok(()),
    }
}

/// One worker creep: its name, role and ordinal, the entity it is bound to,
/// its lifecycle state and current target, the working flag as of this
/// tick, and what the outcome of a pending `Work` order decides.
pub struct CreepMgr {
    name: String,
    no: u8,
    id: Option<crate::creep_target::EntityId>,
    state: CreepState,
    target: Option<CreepTarget>,
    career: CreepType,
    working: Option<bool>,
    pending: Option<Continuation>,
}

impl CreepMgr {
    pub closed spec fn name_view(&self) -> Seq<char> {
        self.name@
    }

    pub closed spec fn ordinal_view(&self) -> u8 {
        self.no
    }

    pub closed spec fn id_view(&self) -> Option<crate::creep_target::EntityId> {
        self.id
    }

    pub closed spec fn state_view(&self) -> CreepState {
        self.state
    }

    pub closed spec fn target_view(&self) -> Option<CreepTarget> {
        self.target
    }

    pub closed spec fn career_view(&self) -> CreepType {
        self.career
    }

    pub closed spec fn working_view(&self) -> Option<bool> {
        self.working
    }

    pub closed spec fn pending_view(&self) -> Option<Continuation> {
        self.pending
    }

    /// The body's cost fits the spawn's energy counter, and a working creep
    /// always has a target.
    pub closed spec fn wf(&self) -> bool {
        &&& parts_cost(self.career.composition().parts()) <= u32::MAX
        &&& (self.state == CreepState::Working ==> self.target is Some)
    }

    /// A working creep always has a target: every well-formed creep, and
    /// `run` and `resume` keep creeps well-formed.
    pub proof fn lemma_working_has_target(&self)
        requires
            self.wf(),
        ensures
            self.state_view() == CreepState::Working ==> self.target_view() is Some,
    {
    }

    /// The bound creep, when it is the one observed.
    pub open spec fn present(&self, obs: &Observation) -> Option<CreepView> {
        match obs.creep {
            Some(c) => if self.id_view() == Some(c.id) {
                Some(c)
            } else {
                None
            },
            None => None,
        }
    }

    /// A creep for a name such as `builder-0`: the role comes from the name
    /// without its trailing digits and dashes, the ordinal from the text after
    /// the first dash. A creep of this name that already exists is bound and
    /// starts `Idle`; otherwise the creep starts `NotExist`.
    pub fn new(name: &str, existing: Option<crate::creep_target::EntityId>) -> (r: CreepMgr)
        ensures
            r.wf(),
            r.name_view() == name@,
            r.ordinal_view() == ordinal_of(name.spec_bytes()),
            (r.career_view() is Upgrader) == (role_prefix(name.spec_bytes()) == "upgrader".spec_bytes()),
            (r.career_view() is Builder) == (role_prefix(name.spec_bytes()) == "builder".spec_bytes()),
            (r.career_view() is Carrier) == (role_prefix(name.spec_bytes()) == "carrier".spec_bytes()),
            (r.career_view() is Miner) == (role_prefix(name.spec_bytes()) == "miner".spec_bytes()),
            r.career_view().composition().parts() == expand(standard_entries()),
            r.career_view().composition().carry() == 1,
            r.career_view().composition().work() == 1,
            r.id_view() == existing,
            r.state_view() == (if existing is Some {
                CreepState::Idle
            } else {
                CreepState::NotExist
            }),
            r.target_view() is None,
            r.working_view() is None,
            r.pending_view() is None,
    {
        let bytes = name.as_bytes();
        let no = ordinal(bytes);
        let n = role_prefix_len(bytes);
        let role = if bytes_match(bytes, n, "upgrader".as_bytes()) {
            "upgrader"
        } else if bytes_match(bytes, n, "builder".as_bytes()) {
            "builder"
        } else if bytes_match(bytes, n, "carrier".as_bytes()) {
            "carrier"
        } else if bytes_match(bytes, n, "miner".as_bytes()) {
            "miner"
        } else {
            ""
        };
        proof {
            reveal_strlit("");
            reveal_strlit("upgrader");
            reveal_strlit("builder");
            reveal_strlit("carrier");
            reveal_strlit("miner");
            lemma_role_names_distinct();
        }
        let career = CreepType::new(role);
        proof {
            crate::creep_composition::lemma_standard_body();
        }
        let state = if existing.is_some() {
            CreepState::Idle
        } else {
            CreepState::NotExist
        };
        CreepMgr {
            name: name.to_owned(),
            no,
            id: existing,
            state,
            target: None,
            career,
            working: None,
            pending: None,
        }
    }

    /// The state the tick starts from: hostiles send the creep to safety,
    /// and a live or waiting creep whose entity is gone starts over.
    pub open spec fn entry_state(&self, obs: &Observation) -> CreepState {
        if obs.hostiles == Some(true) {
            CreepState::WaitingForSafe
        } else if (self.state_view() == CreepState::Idle || self.state_view() == CreepState::OnWay
            || self.state_view() == CreepState::Working || self.state_view()
            == CreepState::WaitingForSafe) && self.present(obs) is None {
            CreepState::NotExist
        } else {
            self.state_view()
        }
    }

    /// The target search of this tick, from creep view `c` and working flag
    /// `flag`, and what it leaves behind: the new target and flag, and, when a
    /// target was found, the order to act on it; otherwise the creep idles.
    pub open spec fn sought(
        &self,
        next: &CreepMgr,
        obs: &Observation,
        c: CreepView,
        flag: Option<bool>,
        r: Order,
    ) -> bool {
        let t = resolve_spec(
            self.career_view(),
            self.ordinal_view(),
            c.carried,
            flag,
            obs.objects@,
            c.pos,
            obs.site,
        );
        &&& next.target_view() == t
        &&& next.working_view() == (if clears_working(self.career_view(), c.carried, flag) {
            Some(false)
        } else {
            flag
        })
        &&& match t {
            Some(_) => {
                &&& r == Order::Work(
                    work_plan(self.career_view(), self.ordinal_view(), t, c, obs.objects@, obs.underfoot@),
                )
                &&& next.pending_view() == Some(Continuation::Advance)
            },
            None => {
                &&& r == Order::Rest
                &&& next.state_view() == CreepState::Idle
                &&& next.pending_view() is None
            },
        }
    }

    fn get_creep(&self, obs: &Observation) -> (r: Option<CreepView>)
        ensures
            r == self.present(obs),
    {
        match obs.creep {
            Some(c) => if self.id == Some(c.id) {
                Some(c)
            } else {
                None
            },
            None => None,
        }
    }

    fn set_id(&mut self, c: CreepView)
        ensures
            final(self).id == Some(c.id),
            final(self).name == old(self).name,
            final(self).no == old(self).no,
            final(self).state == old(self).state,
            final(self).target == old(self).target,
            final(self).career == old(self).career,
            final(self).working == old(self).working,
            final(self).pending == old(self).pending,
    {
        self.id = Some(c.id);
    }

    fn setup_working_status(&mut self, is_working: bool)
        ensures
            final(self).working == Some(is_working),
            final(self).name == old(self).name,
            final(self).no == old(self).no,
            final(self).id == old(self).id,
            final(self).state == old(self).state,
            final(self).target == old(self).target,
            final(self).career == old(self).career,
            final(self).pending == old(self).pending,
    {
        self.working = Some(is_working);
    }

    fn is_creep_working(&self) -> (r: Option<bool>)
        ensures
            r == self.working,
    {
        self.working
    }

    /// Whether to request a spawn: see [`spawn_check`].
    pub fn try_spawn(&self, spawn: &Option<SpawnView>) -> (r: Result<bool, ErrorCode>)
        requires
            self.wf(),
        ensures
            r == spawn_check(self.name_view(), parts_cost(self.career_view().composition().parts()) as int, *spawn),
    {
        match spawn {
            None => Err(ErrorCode::NotFound),
            Some(sv) => match &sv.spawning {
                Some(n) => if *n == self.name {
                    Ok(false)
                } else {
                    Err(ErrorCode::Busy)
                },
                None => if sv.energy_available >= self.career.cost() {
                    Ok(true)
                } else {
                    Err(ErrorCode::NotEnough)
                },
            },
        }
    }

    /// Whether the spawn is busy with this creep: see [`spawning_check`].
    pub fn is_spawning(&self, spawn: &Option<SpawnView>) -> (r: Result<(), ErrorCode>)
        ensures
            r == spawning_check(self.name_view(), *spawn),
    {
        match spawn {
            None => Err(ErrorCode::NotFound),
            Some(sv) => match &sv.spawning {
                None => Err(ErrorCode::NotFound),
                Some(n) => if *n == self.name {
                    Ok(())
                } else {
                    Err(ErrorCode::Busy)
                },
            },
        }
    }

    /// Whether the spawn is done with this creep: see [`spawn_done_check`].
    pub fn is_spawn_done(&self, spawn: &Option<SpawnView>) -> (r: Result<(), ErrorCode>)
        ensures
            r == spawn_done_check(self.name_view(), *spawn),
    {
        match spawn {
            Some(sv) => match &sv.spawning {
                Some(n) => if *n == self.name {
                    Err(ErrorCode::Busy)
                } else {
                    Ok(())
                },
                None => Ok(()),
            },
            None => Ok(()),
        }
    }

    /// Searches a new target for the creep seen as `c`, clearing the working
    /// flag when the role collects, and hands out the order to act on it. The
    /// old target is dropped: the new one is the resolver's, or none. A
    /// builder carrying nothing has its flag cleared and never gets a build
    /// target.
    pub fn seek_target(&mut self, obs: &Observation, c: CreepView) -> (r: Order)
        requires
            old(self).wf(),
            obs.valid(),
            c.pos.valid(),
        ensures
            old(self).sought(final(self), obs, c, old(self).working_view(), r),
            final(self).wf(),
            final(self).name_view() == old(self).name_view(),
            final(self).ordinal_view() == old(self).ordinal_view(),
            final(self).id_view() == old(self).id_view(),
            final(self).career_view() == old(self).career_view(),
            final(self).target_view() is None ==> final(self).state_view() == CreepState::Idle,
            final(self).target_view() is Some ==> final(self).state_view() == old(self).state_view(),
            final(self).state_view() == CreepState::Working ==> final(self).target_view() is Some,
            (old(self).career_view() is Builder && c.carried.used == 0) ==> {
                &&& final(self).working_view() == Some(false)
                &&& !(final(self).target_view() matches Some(CreepTarget::Build(_)))
            },
    {
        proof {
            if self.career is Builder && c.carried.used == 0 {
                crate::resolver::lemma_empty_builder_collects(
                    self.career,
                    self.no,
                    c.carried,
                    self.working,
                    obs.objects@,
                    c.pos,
                    obs.site,
                );
            }
        }
        let (t, clear) = resolve(
            &self.career,
            self.no,
            c.carried,
            self.is_creep_working(),
            &obs.objects,
            c.pos,
            obs.site,
        );
        if clear {
            self.setup_working_status(false);
        }
        self.target = t;
        match t {
            Some(_) => {
                self.pending = Some(Continuation::Advance);
                Order::Work(do_work(&self.career, self.no, t, c, &obs.objects, &obs.underfoot))
            },
            None => {
                self.state = CreepState::Idle;
                self.pending = None;
                Order::Rest
            },
        }
    }

    /// Starts the tick: see the module documentation. The working flag is
    /// loaded from the observation.
    pub fn run(&mut self, obs: &Observation) -> (r: Order)
        requires
            old(self).wf(),
        ensures
            final(self).wf(),
            final(self).state_view() == CreepState::Working ==> final(self).target_view() is Some,
            final(self).name_view() == old(self).name_view(),
            final(self).ordinal_view() == old(self).ordinal_view(),
            final(self).career_view() == old(self).career_view(),
            // hostiles: take the creep out of harm's way at once
            obs.hostiles == Some(true) ==> {
                &&& final(self).state_view() == CreepState::WaitingForSafe
                &&& final(self).target_view() == old(self).target_view()
                &&& (r matches Order::Suicide) == (old(self).present(obs) is Some)
                &&& (r matches Order::Rest) == (old(self).present(obs) is None)
            },
            obs.hostiles != Some(true) && !obs.valid() ==> {
                &&& r matches Order::Rest
                &&& final(self).state_view() == old(self).state_view()
                &&& final(self).target_view() == old(self).target_view()
            },
            obs.hostiles != Some(true) && obs.valid() ==> match old(self).entry_state(obs) {
                CreepState::NotExist => {
                    let cost = parts_cost(old(self).career_view().composition().parts()) as int;
                    &&& final(self).id_view() == (if old(self).state_view() == CreepState::NotExist {
                        old(self).id_view()
                    } else {
                        None
                    })
                    &&& (r matches Order::Spawn) == (spawn_check(old(self).name_view(), cost, obs.spawn) == Ok::<bool, ErrorCode>(true))
                    &&& final(self).target_view() == (if old(self).state_view() == CreepState::NotExist {
                        old(self).target_view()
                    } else {
                        None
                    })
                    &&& (r matches Order::Spawn) || (r matches Order::Rest)
                    &&& final(self).state_view() == (if spawning_check(old(self).name_view(), obs.spawn) is Ok {
                        CreepState::Spawning
                    } else {
                        CreepState::NotExist
                    })
                },
                CreepState::Spawning => if spawn_done_check(old(self).name_view(), obs.spawn) is Err {
                    &&& r matches Order::Rest
                    &&& final(self).state_view() == CreepState::Spawning
                } else {
                    match obs.creep {
                        None => {
                            &&& r matches Order::Rest
                            &&& final(self).state_view() == CreepState::NotExist
                        },
                        Some(c) => {
                            &&& final(self).id_view() == Some(c.id)
                            &&& old(self).sought(final(self), obs, c, obs.working, r)
                        },
                    }
                },
                CreepState::Idle => {
                    &&& final(self).id_view() == old(self).id_view()
                    &&& old(self).sought(final(self), obs, old(self).present(obs)->0, obs.working, r)
                },
                CreepState::WaitingForSafe => {
                    &&& r matches Order::Rest
                    &&& final(self).state_view() == (if obs.hostiles == Some(false) {
                        CreepState::Idle
                    } else {
                        CreepState::WaitingForSafe
                    })
                },
                live => {
                    let c = old(self).present(obs)->0;
                    let (done, fill) = work_done(
                        old(self).career_view(),
                        old(self).ordinal_view(),
                        old(self).target_view(),
                        c,
                        obs.objects@,
                        obs.site,
                    );
                    let flag = if fill {
                        Some(true)
                    } else {
                        obs.working
                    };
                    &&& final(self).id_view() == old(self).id_view()
                    &&& if done is Ok {
                        old(self).sought(final(self), obs, c, flag, r)
                    } else {
                        &&& r == Order::Work(
                            work_plan(
                                old(self).career_view(),
                                old(self).ordinal_view(),
                                old(self).target_view(),
                                c,
                                obs.objects@,
                                obs.underfoot@,
                            ),
                        )
                        &&& final(self).target_view() == old(self).target_view()
                        &&& final(self).state_view() == live
                        &&& final(self).working_view() == flag
                        &&& final(self).pending_view() == Some(
                            if live == CreepState::Working {
                                Continuation::Repeat
                            } else {
                                Continuation::Advance
                            },
                        )
                    }
                },
            },
    {
        self.working = obs.working;
        self.pending = None;
        if obs.hostiles == Some(true) {
            self.state = CreepState::WaitingForSafe;
            return match self.get_creep(obs) {
                Some(_) => Order::Suicide,
                None => Order::Rest,
            };
        }
        if !observation_valid(obs) {
            return Order::Rest;
        }
        let live = match self.state {
            CreepState::Idle | CreepState::OnWay | CreepState::Working => true,
            CreepState::WaitingForSafe => true,
            _ => false,
        };
        let seen = self.get_creep(obs);
        if live && seen.is_none() {
            self.state = CreepState::NotExist;
            self.id = None;
            self.target = None;
        }
        match self.state {
            CreepState::NotExist => {
                let request = self.try_spawn(&obs.spawn);
                if self.is_spawning(&obs.spawn).is_ok() {
                    self.state = CreepState::Spawning;
                }
                match request {
                    Ok(true) => Order::Spawn,
                    _ => Order::Rest,
                }
            },
            CreepState::Spawning => {
                if self.is_spawn_done(&obs.spawn).is_err() {
                    return Order::Rest;
                }
                match obs.creep {
                    None => {
                        self.state = CreepState::NotExist;
                        Order::Rest
                    },
                    Some(c) => {
                        self.set_id(c);
                        self.seek_target(obs, c)
                    },
                }
            },
            CreepState::Idle => {
                let c = match seen {
                    Some(c) => c,
                    None => return Order::Rest,
                };
                self.seek_target(obs, c)
            },
            CreepState::OnWay | CreepState::Working => {
                let c = match seen {
                    Some(c) => c,
                    None => return Order::Rest,
                };
                let (done, fill) = is_work_done(&self.career, self.no, self.target, c, &obs.objects, obs.site);
                if fill {
                    self.setup_working_status(true);
                }
                if done.is_ok() {
                    self.seek_target(obs, c)
                } else {
                    self.pending = Some(
                        if self.state == CreepState::Working {
                            Continuation::Repeat
                        } else {
                            Continuation::Advance
                        },
                    );
                    Order::Work(do_work(&self.career, self.no, self.target, c, &obs.objects, &obs.underfoot))
                }
            },
            CreepState::WaitingForSafe => {
                if obs.hostiles == Some(false) {
                    self.state = CreepState::Idle;
                }
                Order::Rest
            },
        }
    }

    /// Finishes the tick after a `Work` order with the outcome of performing
    /// it. After a search, success makes the creep `Working` and failure
    /// sends it on its way (`OnWay`, with a `Travel` order); a creep that
    /// keeps working ignores the outcome.
    pub fn resume(&mut self, obs: &Observation, outcome: Result<(), ErrorCode>) -> (r: Order)
        requires
            old(self).wf(),
        ensures
            final(self).wf(),
            final(self).state_view() == CreepState::Working ==> final(self).target_view() is Some,
            final(self).pending_view() is None,
            final(self).name_view() == old(self).name_view(),
            final(self).ordinal_view() == old(self).ordinal_view(),
            final(self).career_view() == old(self).career_view(),
            final(self).id_view() == old(self).id_view(),
            final(self).target_view() == old(self).target_view(),
            final(self).working_view() == old(self).working_view(),
            old(self).pending_view() == Some(Continuation::Advance) ==> if outcome is Ok
                && old(self).target_view() is Some {
                &&& final(self).state_view() == CreepState::Working
                &&& r matches Order::Rest
            } else {
                &&& final(self).state_view() == CreepState::OnWay
                &&& r == match old(self).present(obs) {
                    Some(c) => Order::Travel(
                        move_plan(
                            old(self).career_view(),
                            old(self).ordinal_view(),
                            old(self).target_view(),
                            c,
                            obs.objects@,
                            obs.underfoot@,
                            obs.site,
                        ),
                    ),
                    None => Order::Rest,
                }
            },
            old(self).pending_view() != Some(Continuation::Advance) ==> {
                &&& final(self).state_view() == old(self).state_view()
                &&& r matches Order::Rest
            },
    {
        let pending = self.pending;
        self.pending = None;
        match pending {
            Some(Continuation::Advance) => {
                if outcome.is_ok() && self.target.is_some() {
                    self.state = CreepState::Working;
                    Order::Rest
                } else {
                    self.state = CreepState::OnWay;
                    match self.get_creep(obs) {
                        Some(c) => Order::Travel(
                            go_ahead(&self.career, self.no, self.target, c, &obs.objects, &obs.underfoot, obs.site),
                        ),
                        None => Order::Rest,
                    }
                }
            },
            _ => Order::Rest,
        }
    }

    /// The creep's name.
    pub fn name(&self) -> (r: &String)
        ensures
            r@ == self.name_view(),
    {
        &self.name
    }

    /// The creep's ordinal.
    pub fn ordinal(&self) -> (r: u8)
        ensures
            r == self.ordinal_view(),
    {
        self.no
    }

    /// The creep's role and body.
    pub fn career(&self) -> (r: &CreepType)
        ensures
            *r == self.career_view(),
    {
        &self.career
    }

    /// The lifecycle state.
    pub fn state(&self) -> (r: CreepState)
        ensures
            r == self.state_view(),
    {
        self.state
    }

    /// The current target.
    pub fn target(&self) -> (r: Option<CreepTarget>)
        ensures
            r == self.target_view(),
    {
        self.target
    }

    /// The entity the creep is bound to.
    pub fn id(&self) -> (r: Option<crate::creep_target::EntityId>)
        ensures
            r == self.id_view(),
    {
        self.id
    }

    /// The working flag as this tick left it, to persist.
    pub fn working_flag(&self) -> (r: Option<bool>)
        ensures
            r == self.working_view(),
    {
        self.working
    }
}

proof fn lemma_ascii_bytes(s: &str)
    requires
        vstd::utf8::is_ascii_chars(s@),
    ensures
        s.spec_bytes().len() == s@.len(),
        forall|i: int| 0 <= i < s@.len() ==> s.spec_bytes()[i] == s@[i] as u8,
{
    vstd::utf8::is_ascii_chars_encode_utf8(s@);
}

/// The role names differ as bytes.
proof fn lemma_role_names_distinct()
    ensures
        "upgrader".spec_bytes() != "builder".spec_bytes(),
        "upgrader".spec_bytes() != "carrier".spec_bytes(),
        "upgrader".spec_bytes() != "miner".spec_bytes(),
        "builder".spec_bytes() != "carrier".spec_bytes(),
        "builder".spec_bytes() != "miner".spec_bytes(),
        "carrier".spec_bytes() != "miner".spec_bytes(),
{
    reveal_strlit("upgrader");
    reveal_strlit("builder");
    reveal_strlit("carrier");
    reveal_strlit("miner");
    assert(vstd::utf8::is_ascii_chars("upgrader"@));
    assert(vstd::utf8::is_ascii_chars("builder"@));
    assert(vstd::utf8::is_ascii_chars("carrier"@));
    assert(vstd::utf8::is_ascii_chars("miner"@));
    lemma_ascii_bytes("upgrader");
    lemma_ascii_bytes("builder");
    lemma_ascii_bytes("carrier");
    lemma_ascii_bytes("miner");
    assert("builder".spec_bytes()[0] != "carrier".spec_bytes()[0]);
}

/// Checks [`Observation::valid`].
pub fn observation_valid(obs: &Observation) -> (r: bool)
    ensures
        r == obs.valid(),
{
    let mut i: usize = 0;
    while i < obs.objects.len()
        invariant
            i <= obs.objects@.len(),
            forall|j: int| 0 <= j < i ==> (#[trigger] obs.objects@[j]).pos.valid(),
        decreases obs.objects@.len() - i,
    {
        if !pos_valid(obs.objects[i].pos) {
            return false;
        }
        i = i + 1;
    }
    if let Some(c) = obs.creep {
        if !pos_valid(c.pos) {
            return false;
        }
    }
    if let Some(s) = obs.site {
        if !pos_valid(s.source) {
            return false;
        }
        if let Some(l) = s.link {
            if !pos_valid(l) {
                return false;
            }
        }
    }
    true
}

fn pos_valid(p: crate::creep_target::Pos) -> (r: bool)
    ensures
        r == p.valid(),
{
    crate::creep_target::WORLD_MIN <= p.x && p.x < crate::creep_target::WORLD_END
        && crate::creep_target::WORLD_MIN <= p.y && p.y < crate::creep_target::WORLD_END
}

/// The first `n` bytes of `s` are exactly `lit`.
fn bytes_match(s: &[u8], n: usize, lit: &[u8]) -> (r: bool)
    requires
        n <= s@.len(),
    ensures
        r == (s@.take(n as int) == lit@),
{
    if n != lit.len() {
        return false;
    }
    let mut i: usize = 0;
    while i < n
        invariant
            n == lit@.len(),
            n <= s@.len(),
            i <= n,
            forall|j: int| 0 <= j < i ==> s@[j] == lit@[j],
        decreases n - i,
    {
        if s[i] != lit[i] {
            assert(s@.take(n as int)[i as int] != lit@[i as int]);
            return false;
        }
        i = i + 1;
    }
    assert(s@.take(n as int) =~= lit@);
    true
}

} // verus!
