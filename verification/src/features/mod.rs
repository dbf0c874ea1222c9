//! The feature slices that the composed application is built from.

pub mod counter;
pub mod ddp;
pub mod omni_themes;
