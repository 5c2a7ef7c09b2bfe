//! Verified core of a toolkit for working with Mars rover raw images:
//! instrument identification, calibration data and calibration plans,
//! inpainting and destretching, NavCam tile bookkeeping, and the queries of
//! the remote raw image services.

pub mod caldata;
pub mod calibfile;
pub mod calibrate;
pub mod calprofile;
pub mod constants;
pub mod diffgif;
pub mod enums;
pub mod error;
pub mod httpfetch;
pub mod imagebuffer;
pub mod inpaint;
pub mod inpaintmask;
pub mod jsonfetch;
pub mod m20;
pub mod m20remote;
pub mod marsimage;
pub mod msl;
pub mod remotequery;
pub mod util;
