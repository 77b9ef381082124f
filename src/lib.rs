//! Extraction of chip metadata (pins with their supply domain, peripheral
//! instances) from vendor pinout and memory-map tables.

pub mod number;
pub mod model;
pub mod rows;
pub mod table;
pub mod assemble;
pub mod laws;
