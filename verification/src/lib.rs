//! Verified core of a GPUI component kit: the click state machine that tells
//! single clicks from double clicks, the spinner's icon resolution, the
//! theme-independent surface colours and shadows, and the resolution of the
//! GPUI crate path for procedural macros.

pub mod click;
pub mod crate_path;
pub mod spinner;
pub mod style;
