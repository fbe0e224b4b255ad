//! The graphics device as this library sees it.
//!
//! Everything here is taken on trust from `surfman` and `winit`: the handle
//! types are opaque, and each function below forwards to one device call, with
//! a contract that restates what the source of that call shows. The contracts
//! describe the Wayland backend, which is what `surfman::Device` names on Linux
//! unless the X11 feature is switched on.
//!
//! Several device calls assert on what the windowing system answers and panic
//! when it misbehaves. That depends on the machine and not on the arguments,
//! and no contract here rules it out.

use vstd::prelude::*;

use surfman::{
    Adapter, Connection, Context, ContextAttributeFlags, ContextAttributes, ContextDescriptor,
    Device, Error, GLVersion, NativeWidget, Surface, SurfaceAccess, SurfaceType,
};
use winit::window::Window;

use crate::setup::{Access, ContextRequest};

verus! {

/// `winit::window::Window`, the window whose surface is bound.
#[verifier::external_type_specification]
#[verifier::external_body]
pub struct ExWindow(Window);

/// `surfman::Connection`, a connection to the display server.
#[verifier::external_type_specification]
#[verifier::external_body]
pub struct ExConnection(Connection);

/// `surfman::NativeWidget`, the anchor of a surface inside a window.
#[verifier::external_type_specification]
#[verifier::external_body]
pub struct ExNativeWidget(NativeWidget);

/// `surfman::Adapter`, a display adapter.
#[verifier::external_type_specification]
#[verifier::external_body]
pub struct ExAdapter(Adapter);

/// `surfman::Device`, the handle through which contexts and surfaces are made.
#[verifier::external_type_specification]
#[verifier::external_body]
pub struct ExDevice(Device);

/// `surfman::ContextDescriptor`, the pixel format chosen for a context.
#[verifier::external_type_specification]
#[verifier::external_body]
pub struct ExContextDescriptor(ContextDescriptor);

/// `surfman::Context`, a rendering context, which owns the surface bound to it.
#[verifier::external_type_specification]
#[verifier::external_body]
pub struct ExContext(Context);

/// `surfman::Surface`, a presentable buffer of pixels.
#[verifier::external_type_specification]
#[verifier::external_body]
pub struct ExSurface(Surface);

/// `surfman::Error`, the reason a device call failed.
#[verifier::external_type_specification]
#[verifier::external_body]
pub struct ExError(Error);

/// What `context` holds: the extent, width first, of the surface bound to it,
/// or `None` while no surface is bound.
pub uninterp spec fn attached(context: Context) -> Option<(i32, i32)>;

/// The extent, width first, that the device records for `surface`: what
/// `Device::surface_info` reports as its size.
pub uninterp spec fn extent_of(surface: Surface) -> (i32, i32);

/// The description of a device error: the text that its `Debug` impl renders
/// it as.
pub uninterp spec fn diagnostic(error: Error) -> Seq<char>;

/// `Connection::from_winit_window`: opens the display connection of `window`.
/// Nothing is claimed of the outcome.
#[verifier::external_body]
pub(crate) fn connect(window: &Window) -> Result<Connection, Error> {
    Connection::from_winit_window(window)
}

/// `Connection::create_native_widget_from_winit_window`: the widget token that
/// anchors a surface to `window`. Nothing is claimed of the outcome.
#[verifier::external_body]
pub(crate) fn native_widget(connection: &Connection, window: &Window) -> Result<
    NativeWidget,
    Error,
> {
    connection.create_native_widget_from_winit_window(window)
}

/// `Connection::create_hardware_adapter`: the adapter the connection prefers.
/// Nothing is claimed of the outcome.
#[verifier::external_body]
pub(crate) fn hardware_adapter(connection: &Connection) -> Result<Adapter, Error> {
    connection.create_hardware_adapter()
}

/// `Connection::create_device`: opens a device on `adapter`. Nothing is claimed
/// of the outcome.
#[verifier::external_body]
pub(crate) fn open_device(connection: &Connection, adapter: &Adapter) -> Result<Device, Error> {
    connection.create_device(adapter)
}

/// `Device::create_context_descriptor`, asked for the version and the buffers
/// that `request` names. Nothing is claimed of the outcome.
#[verifier::external_body]
pub(crate) fn describe_context(device: &Device, request: &ContextRequest) -> Result<
    ContextDescriptor,
    Error,
> {
    let mut flags = ContextAttributeFlags::empty();
    flags.set(ContextAttributeFlags::ALPHA, request.alpha);
    flags.set(ContextAttributeFlags::DEPTH, request.depth);
    flags.set(ContextAttributeFlags::STENCIL, request.stencil);
    let version = GLVersion::new(request.major, request.minor);
    device.create_context_descriptor(&ContextAttributes { version, flags })
}

/// `Device::create_context`, sharing with no other context. A context that was
/// created holds no surface yet.
#[verifier::external_body]
pub(crate) fn create_context(device: &mut Device, descriptor: &ContextDescriptor) -> (r: Result<
    Context,
    Error,
>)
    ensures
        r matches Ok(context) ==> attached(context) is None,
{
    device.create_context(descriptor, None)
}

/// `Device::create_surface`, asked for a widget surface anchored to `widget`.
/// Nothing is claimed of the outcome.
#[verifier::external_body]
pub(crate) fn create_widget_surface(
    device: &mut Device,
    context: &Context,
    access: Access,
    widget: NativeWidget,
) -> Result<Surface, Error> {
    let access = match access {
        Access::GpuOnly => SurfaceAccess::GPUOnly,
        Access::GpuCpu => SurfaceAccess::GPUCPU,
    };
    device.create_surface(context, access, SurfaceType::Widget { native_widget: widget })
}

/// `Device::bind_surface_to_context`. On success the context holds the surface;
/// on failure the context holds what it held and the surface comes back, with
/// its extent, beside the error.
#[verifier::external_body]
pub(crate) fn bind(device: &Device, context: &mut Context, surface: Surface) -> (r: Result<
    (),
    (Error, Surface),
>)
    ensures
        r is Ok ==> attached(*final(context)) == Some(extent_of(surface)),
        r matches Err((_, returned)) ==> attached(*final(context)) == attached(*old(context))
            && extent_of(returned) == extent_of(surface),
{
    device.bind_surface_to_context(context, surface)
}

/// `Device::make_context_current`: makes `context` the thread's current
/// context. Nothing is claimed of the outcome.
#[verifier::external_body]
pub(crate) fn make_current(device: &Device, context: &Context) -> Result<(), Error> {
    device.make_context_current(context)
}

/// `Device::get_proc_address`: the address, as a plain number, of the OpenGL
/// function that `symbol` names in `context`. The lookup panics on a name that
/// holds a NUL character, which is why such names are kept out. Nothing is
/// claimed of the address.
#[verifier::external_body]
pub(crate) fn proc_address(device: &Device, context: &Context, symbol: &str) -> usize
    requires
        !symbol@.contains('\0'),
{
    device.get_proc_address(context, symbol) as usize
}

/// `Device::unbind_surface_from_context`. A surface that comes out is the one
/// the context held, and the context then holds none; no surface comes out only
/// of a context that held none; on failure the context holds what it held.
#[verifier::external_body]
pub(crate) fn unbind(device: &Device, context: &mut Context) -> (r: Result<Option<Surface>, Error>)
    ensures
        r matches Ok(Some(surface)) ==> attached(*old(context)) == Some(extent_of(surface))
            && attached(*final(context)) is None,
        r matches Ok(None) ==> attached(*old(context)) is None && attached(*final(context)) is None,
        r is Err ==> attached(*final(context)) == attached(*old(context)),
{
    device.unbind_surface_from_context(context)
}

/// `Device::surface_info`, of which only the size is kept: the extent that the
/// device records for the surface.
#[verifier::external_body]
pub(crate) fn surface_extent(device: &Device, surface: &Surface) -> (r: (i32, i32))
    ensures
        r == extent_of(*surface),
{
    let info = device.surface_info(surface);
    (info.size.width, info.size.height)
}

/// `Device::present_surface`: shows the surface's back buffer. Whether or not
/// it succeeds, the surface keeps its extent.
#[verifier::external_body]
pub(crate) fn present(device: &Device, context: &Context, surface: &mut Surface) -> (r: Result<
    (),
    Error,
>)
    ensures
        extent_of(*final(surface)) == extent_of(*old(surface)),
{
    device.present_surface(context, surface)
}

/// `Device::resize_surface`. On success the surface has exactly the extent
/// asked for; on failure it keeps the extent it had.
#[verifier::external_body]
pub(crate) fn resize(
    device: &Device,
    context: &Context,
    surface: &mut Surface,
    width: i32,
    height: i32,
) -> (r: Result<(), Error>)
    ensures
        r is Ok ==> extent_of(*final(surface)) == (width, height),
        r is Err ==> extent_of(*final(surface)) == extent_of(*old(surface)),
{
    device.resize_surface(context, surface, euclid::default::Size2D::new(width, height))
}

/// `Device::destroy_surface`: releases a surface that no context holds. The
/// surface is taken by value, so that no surface is destroyed twice; one that
/// the device refuses to destroy comes back beside the error. The context keeps
/// whatever it held.
#[verifier::external_body]
pub(crate) fn destroy_surface(device: &Device, context: &mut Context, surface: Surface) -> (r:
    Result<(), (Error, Surface)>)
    ensures
        attached(*final(context)) == attached(*old(context)),
{
    let mut surface = surface;
    match device.destroy_surface(context, &mut surface) {
        Ok(()) => Ok(()),
        Err(error) => Err((error, surface)),
    }
}

/// `Device::destroy_context`: releases the context together with any surface
/// bound to it. The context is taken by value, so that no context is destroyed
/// twice; one that the device refuses to destroy comes back beside the error.
/// Nothing is claimed of the outcome.
#[verifier::external_body]
pub(crate) fn destroy_context(device: &Device, context: Context) -> Result<(), (Error, Context)> {
    let mut context = context;
    match device.destroy_context(&mut context) {
        Ok(()) => Ok(()),
        Err(error) => Err((error, context)),
    }
}

/// `std::mem::forget`: gives a handle up without running its destructor.
#[verifier::external_body]
pub(crate) fn leak<T>(handle: T) {
    std::mem::forget(handle)
}

/// The `Debug` rendering of a device error, through `format!`. The impl is
/// derived, so the text depends on the error alone: it is the text that
/// [`diagnostic`] names.
#[verifier::external_body]
pub(crate) fn error_text(error: &Error) -> (text: String)
    ensures
        text@ == diagnostic(*error),
{
    format!("{:?}", error)
}

} // verus!
