//! Core of a quest tracker: quests are published by guild commanders and
//! carry a capacity-bounded roster of adventurers.  This crate verifies the
//! quest lifecycle and roster state machine: when a quest's status may
//! change, when adventurers may join or leave its roster, and how ownership
//! and capacity are enforced.  Every store operation is a single atomic
//! read-modify-write step on the store value, so the serialization demanded
//! of the persistence layer holds by construction.

pub mod config_model;
pub mod crew_switchboard;
pub mod errors;
pub mod journey_ledger;
pub mod laws;
pub mod quest_model;
pub mod quest_ops;
pub mod quest_statuses;
pub mod quest_viewing;
pub mod responses;
pub mod stage;
pub mod store;
pub mod strutil;
