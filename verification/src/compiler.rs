//! The constraint-generating compiler of Leo programs: the values it computes with and the
//! checks it applies to them.

pub mod integer;
pub mod field_element;
pub mod options;
pub mod value;
pub mod circuit;
pub mod definition;
pub mod ir;
