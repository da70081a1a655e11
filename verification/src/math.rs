//! Mathematical core: fixed-point complex numbers and the catalog of
//! iteration formulas.

pub mod formula;
pub mod structs;
