use luminance::framebuffer::FramebufferError;
use luminance_glow::StateQueryError;
use luminance_surfman::protocol::Fault;
use luminance_surfman::error::surface_result;
use luminance_surfman::surface::{fault_error, give_up_refused};
use luminance_surfman::{surface_err, SurfmanError};

fn description(error: SurfmanError) -> String {
    match error {
        SurfmanError::SurfaceError(text) => text,
        other => panic!("not a surface error: {:?}", other),
    }
}

#[test]
fn surface_error_carries_device_diagnostic() {
    assert_eq!(description(surface_err(surfman::Error::SurfaceAlreadyBound)), "SurfaceAlreadyBound");
    assert_eq!(description(surface_err(surfman::Error::NoWidgetAttached)), "NoWidgetAttached");
    assert_eq!(
        description(surface_err(surfman::Error::PresentFailed(
            surfman::WindowingApiError::BadSurface
        ))),
        "PresentFailed(BadSurface)"
    );
}

#[test]
fn surface_constructor_keeps_text() {
    assert_eq!(description(SurfmanError::surface("lost".to_string())), "lost");
    assert_eq!(description(SurfmanError::surface(String::new())), "");
}

#[test]
fn vacant_context_has_its_own_description() {
    assert_eq!(description(SurfmanError::vacant()), "no surface is bound to the context");
    assert_eq!(description(fault_error(Fault::Vacant)), "no surface is bound to the context");
}

#[test]
fn device_fault_becomes_surface_error() {
    assert_eq!(
        description(fault_error(Fault::Device(surfman::Error::IncompatibleSurface))),
        "IncompatibleSurface"
    );
}

#[test]
fn backend_failure_becomes_gl_error() {
    let error = SurfmanError::from(StateQueryError::UnknownViewportInitialState);
    assert!(matches!(
        error,
        SurfmanError::GlError(StateQueryError::UnknownViewportInitialState)
    ));
}

#[test]
fn target_failure_becomes_framebuffer_error() {
    let error = SurfmanError::from(FramebufferError::CannotCreate);
    assert!(matches!(
        error,
        SurfmanError::FramebufferError(FramebufferError::CannotCreate)
    ));
}

#[test]
fn device_outcome_is_passed_on_or_described() {
    assert!(matches!(surface_result::<u32>(Ok(7)), Ok(7)));
    assert!(matches!(surface_result(Ok(())), Ok(())));
    let refused = surface_result::<u32>(Err(surfman::Error::ContextCreationFailed(
        surfman::WindowingApiError::BadAlloc,
    )));
    assert_eq!(description(refused.unwrap_err()), "ContextCreationFailed(BadAlloc)");
}

#[test]
fn refused_handle_is_given_up_and_refusal_kept() {
    assert!(matches!(give_up_refused::<String>(Ok(())), Ok(())));
    let kept = give_up_refused(Err((surfman::Error::IncompatibleSurface, "handle".to_string())));
    assert!(matches!(kept, Err(surfman::Error::IncompatibleSurface)));
    let kept = give_up_refused(Err((surfman::Error::Failed, vec![1u8, 2, 3])));
    assert!(matches!(kept, Err(surfman::Error::Failed)));
}
