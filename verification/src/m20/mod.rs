//! Mars 2020 Perseverance rover and Ingenuity helicopter support.

pub mod assemble;
pub mod cachecam;
pub mod ecam;
pub mod fetch;
pub mod helinav;
pub mod ncamlevels;
pub mod ncamtile;
pub mod pixlmcc;
pub mod remote;
pub mod scam;
pub mod sherlocaci;
pub mod skycam;
pub mod watson;
pub mod zcam;
