//! Planning of shell activation: which script fragments put a tool's
//! directories on a shell's search path, and in what order.

pub mod activate;
pub mod laws;
pub mod path_set;
pub mod paths;
pub mod plan;
pub mod shell;
pub mod shims;
