//! Verified core of the niri-sweaters compositor additions: the desktop zoom
//! lifecycle, region selection and region frames, configuration merging,
//! scoped texture sampling and knit border helpers.

pub mod zoom;
pub mod ipc;
pub mod region;
pub mod config;
pub mod cli;
pub mod sampling;
pub mod knit;
pub mod border;
