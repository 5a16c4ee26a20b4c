//! Synthesis of dispatch code for an enum whose variants each wrap one type
//! implementing a shared trait: the enum forwards every trait method to the
//! active variant's payload, without trait objects.
pub mod syntax;
pub mod normalize;
pub mod diagnostic;
pub mod forward;
pub mod convert;
pub mod config;
pub mod declare;
