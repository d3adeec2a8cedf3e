//! Deterministic fault injection and the control protocol that steers it.

pub mod chances;
pub mod control;
pub mod control_laws;
mod errno;
pub mod fault_injection;
pub mod fault_laws;
pub mod fault_type;
pub mod probability;
pub mod random;
pub mod schedule;
pub mod schedule_laws;
pub mod serving;
pub mod text;
