//! Slices that talk to the world outside the application: the operating
//! system's description of itself, and image files picked by the user.

pub mod instax_framer;
pub mod system_info;
