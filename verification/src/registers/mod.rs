//! xHCI registers

pub mod operational;
