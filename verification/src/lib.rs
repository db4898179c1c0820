//! Data structures of the eXtensible Host Controller Interface (xHCI): the values of its
//! registers and the entries of its rings.

pub mod bits;
pub mod registers;
pub mod ring;
