//! The abstract semantic graph: the checked form of Leo programs that the compiler reads.

pub mod array_range_access;
