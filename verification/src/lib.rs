//! Exact, verified core of a hydrogen-orbital viewer.

pub mod factorial;
pub mod naming;
pub mod text;
pub mod quantum;
pub mod sampling;
pub mod controls;
