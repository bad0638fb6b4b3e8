//! A verified model of the routing of a section-based network: the state machine of a
//! member of a section (accepting relocated candidates, relocating its own nodes,
//! keeping its elders) and that of a relocated node joining its new section, with the
//! driver that hands them events one at a time.
pub mod actions;
pub mod fixtures;
pub mod flows_dst;
pub mod flows_elder;
pub mod flows_node;
pub mod flows_src;
pub mod invariants;
pub mod laws;
pub mod record;
pub mod scenarios;
pub mod seq_tools;
pub mod state;
pub mod step_laws;
pub mod utilities;
