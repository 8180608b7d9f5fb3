//! Core of an avatar render server: palette resolution, alpha-aware texture
//! recoloring, scene composition from equipped items, job validation, and
//! frame encoding. The graphics context, network ingress and persistence live
//! outside this library and hand it plain values.

pub mod compose;
pub mod encode;
pub mod job;
pub mod palette;
pub mod recolor;
