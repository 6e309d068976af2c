//! Code intelligence: the knowledge graph of learned facts and the bug
//! hunter that writes fuzzing harnesses, and the shadow mode that predicts
//! refactors.

pub mod memory_graph;
pub mod hunter;
pub mod shadow;
