//! The radio co-processor drivers.

pub mod multimode;
pub mod subghz;
