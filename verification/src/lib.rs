//! Verified core of the IcyDwarf planetary interior evolution program:
//! input settings, command-line paths, integer tables and index logic.

pub mod text;
pub mod input;
pub mod args;
pub mod tropf;
pub mod compression;
pub mod orbit;
pub mod planet_system;
pub mod water_rock;
pub mod cryolava;
pub mod crack;
