//! Verified core of a set of OpenFX image-effect plugins and of their
//! bundling tool: status codes, action dispatch, plugin life cycle, image
//! layout arithmetic, the invert filter, and the bundle layout.

pub mod status;
pub mod text;
pub mod names;
pub mod image;
pub mod layout;
pub mod invert;
pub mod action;
pub mod lifecycle;
pub mod render;
pub mod describe;
pub mod helpers;
pub mod bundle;
pub mod circle;
