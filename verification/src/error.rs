//! The errors a session reports.

use vstd::prelude::*;

use luminance::framebuffer::FramebufferError;
use luminance_glow::StateQueryError;
use surfman::Error;

use crate::device::{diagnostic, error_text};

verus! {

/// `luminance_glow::StateQueryError`, the reason the graphics backend could not
/// be initialised.
#[verifier::external_type_specification]
#[verifier::external_body]
pub struct ExStateQueryError(StateQueryError);

/// `luminance::framebuffer::FramebufferError`, the reason a drawable target
/// could not be made.
#[verifier::external_type_specification]
#[verifier::external_body]
pub struct ExFramebufferError(FramebufferError);

/// Why an operation on a session failed.
#[derive(Debug)]
pub enum SurfmanError {
    /// The device or the windowing system refused a call; the text describes
    /// the refusal.
    SurfaceError(String),
    /// The graphics backend could not be initialised on the context.
    GlError(StateQueryError),
    /// The back buffer could not be wrapped in a drawable target.
    FramebufferError(FramebufferError),
}

/// The description given when the context turns out to hold no surface.
pub open spec fn vacant_text() -> Seq<char> {
    "no surface is bound to the context"@
}

impl SurfmanError {
    /// The description carried by a surface error, and `None` for the other
    /// kinds.
    pub open spec fn description(self) -> Option<Seq<char>> {
        match self {
            SurfmanError::SurfaceError(text) => Some(text@),
            _ => None,
        }
    }

    /// A surface error carrying `text`.
    pub fn surface(text: String) -> (r: SurfmanError)
        ensures
            r == SurfmanError::SurfaceError(text),
    {
        SurfmanError::SurfaceError(text)
    }

    /// The surface error reported when the context holds no surface to work on.
    pub fn vacant() -> (r: SurfmanError)
        ensures
            r.description() == Some(vacant_text()),
    {
        SurfmanError::SurfaceError("no surface is bound to the context".to_owned())
    }
}

impl From<StateQueryError> for SurfmanError {
    fn from(cause: StateQueryError) -> (r: SurfmanError) {
        SurfmanError::GlError(cause)
    }
}

impl vstd::std_specs::convert::FromSpecImpl<StateQueryError> for SurfmanError {
    open spec fn obeys_from_spec() -> bool {
        true
    }

    open spec fn from_spec(cause: StateQueryError) -> SurfmanError {
        SurfmanError::GlError(cause)
    }
}

impl From<FramebufferError> for SurfmanError {
    fn from(cause: FramebufferError) -> (r: SurfmanError) {
        SurfmanError::FramebufferError(cause)
    }
}

impl vstd::std_specs::convert::FromSpecImpl<FramebufferError> for SurfmanError {
    open spec fn obeys_from_spec() -> bool {
        true
    }

    open spec fn from_spec(cause: FramebufferError) -> SurfmanError {
        SurfmanError::FramebufferError(cause)
    }
}

/// Wraps a device error as a surface error that carries its description.
pub fn surface_err(error: Error) -> (r: SurfmanError)
    ensures
        r.description() == Some(diagnostic(error)),
{
    SurfmanError::surface(error_text(&error))
}

/// Reports the outcome of a device call: what the device gave is passed on as
/// it is, and a refusal becomes the surface error that describes it.
pub fn surface_result<T>(outcome: Result<T, Error>) -> (r: Result<T, SurfmanError>)
    ensures
        match outcome {
            Ok(given) => r == Ok::<T, SurfmanError>(given),
            Err(refusal) => r matches Err(error) && error.description() == Some(
                diagnostic(refusal),
            ),
        },
{
    match outcome {
        Ok(given) => Ok(given),
        Err(refusal) => Err(surface_err(refusal)),
    }
}

} // verus!
