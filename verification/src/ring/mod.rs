//! Rings, the queues that the software and the xHC exchange entries through.

pub mod trb;
