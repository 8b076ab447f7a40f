//! Lowering of addressable places (a storage slot plus a chain of access
//! steps) into instruction sequences for a stack-based virtual machine.
pub mod ty;
pub mod instr;
pub mod step;
pub mod place;
pub mod laws;
