//! Binds the presentable surface of an existing window to an OpenGL rendering
//! context and keeps the two bound across presentation and resizing.
//!
//! The window comes from elsewhere, with its event loop; this library makes the
//! device, the context and the surface for it afterwards, and from then on
//! answers three requests: how large the back buffer is, show what was drawn,
//! and take a new size.
//!
//! * [`surface`] holds the session, [`SurfmanSurface`], whose methods are
//!   proved to leave the surface bound whenever they succeed.
//! * [`protocol`] holds the rule the session follows each time it takes the
//!   surface out of the context and puts it back.
//! * [`binding`] shows that the rule is safe with any device that keeps its
//!   word: the surface is never left out of its context.
//! * [`setup`] holds what a session asks for when it is made and what it owes
//!   the device when making it fails.
//! * [`pixels`] relates the sizes callers use to the extents the device keeps.
//! * [`error`] holds the errors.
//! * [`device`] is the boundary: the device calls, with the contracts that the
//!   proofs above rest on and that nothing here proves.
//!
//! Drawing itself, the graphics backend and the window are not this library's
//! business.

#![allow(unused_imports)]

pub mod binding;
pub mod device;
pub mod error;
pub mod pixels;
pub mod protocol;
pub mod setup;
pub mod surface;

pub use crate::error::{surface_err, SurfmanError};
pub use crate::surface::SurfmanSurface;
