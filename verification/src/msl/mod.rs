//! Mars Science Laboratory Curiosity rover support.

pub mod ccam;
pub mod ecam;
pub mod fetch;
pub mod mahli;
pub mod mardi;
pub mod mcam;
pub mod remote;
