//! Decision engine for a population of worker creeps in a tick-based
//! resource economy: role catalog, target model, target resolution, work
//! completion rules and the per-creep lifecycle state machine.
//!
//! Everything here works on plain snapshots of the world; the host reads the
//! world, hands those snapshots in, and performs the orders that come back.

use vstd::prelude::*;

pub mod creep_composition;
pub mod creep_target;
pub mod resolver;
pub mod naming;
pub mod work;
pub mod creep_manager;
pub mod link_manager;
