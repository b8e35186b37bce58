//! A focus-tracking camera engine for a screen-capture crop/zoom filter,
//! together with the typed surface of the host-facing wrapper layer.
//!
//! The engine watches reported window-geometry snapshots and smoothly pans
//! and zooms a virtual camera so the focused window stays centered and
//! magnified, falling back to the full, unzoomed view when focus leaves the
//! configured screen region. All camera arithmetic runs on a fixed-point
//! grid (see [`fixed`]), so every decision and every interpolation step is
//! verified exactly.

pub mod fixed;
pub mod camera;
pub mod channel;
pub mod context;
pub mod audio;
pub mod graphics;
pub mod info;
pub mod properties;
