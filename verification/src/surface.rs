//! The session: a device, a rendering context, and the surface bound to it.

use vstd::prelude::*;

use surfman::{Context, Device, Error, Surface};
use winit::window::Window;

use crate::binding::{on_course, step_stays_on_course, Binding};
use crate::device::{
    attached, bind, connect, create_context, create_widget_surface, describe_context,
    destroy_context, destroy_surface, diagnostic, extent_of, hardware_adapter, leak, make_current,
    native_widget, open_device, present, proc_address, resize, surface_extent, unbind,
};
use crate::error::{surface_err, surface_result, SurfmanError};
use crate::pixels::{report_extent, reported, requested, requested_size_is_reported};
use crate::protocol::{Fault, Operation, Phase, Report, Request, Run};
use crate::setup::{context_request, surface_access, Holdings, Release, Stage};

verus! {

/// A window's surface bound to a rendering context.
///
/// Between calls the surface is bound to the context. A call that works on the
/// surface takes it out, works on it and puts it back before it returns, on
/// success and on failure alike. Only if the device refuses to take the surface
/// back does the session end up without one; every later call then reports
/// that the context holds no surface.
///
/// A session does not notice its window being resized: whoever owns the window
/// calls [`SurfmanSurface::set_size`] when the drawable size changes.
///
/// The context is handed back to the device by [`SurfmanSurface::destroy`],
/// which consumes the session, so that it can happen only once.
pub struct SurfmanSurface {
    device: Device,
    context: Context,
}

/// The extent of the surface that is out of its context, if one is.
spec fn extent_in_hand(held: Option<Surface>) -> Option<(i32, i32)> {
    match held {
        Some(surface) => Some(extent_of(surface)),
        None => None,
    }
}

/// Whether `name` can be the name of a function: whether it is free of NUL
/// characters.
pub open spec fn names_function(name: Seq<char>) -> bool {
    !name.contains('\0')
}

/// Tells whether `name` can be the name of a function.
pub fn is_function_name(name: &str) -> (r: bool)
    ensures
        r == names_function(name@),
{
    let length = name.unicode_len();
    let mut index: usize = 0;
    while index < length
        invariant
            index <= length,
            length == name@.len(),
            forall|i: int| 0 <= i < index ==> name@[i] != '\0',
        decreases length - index,
    {
        if name.get_char(index) == '\0' {
            return false;
        }
        index += 1;
    }
    true
}

/// The error a failed run is reported as.
pub fn fault_error(fault: Fault<Error>) -> (error: SurfmanError)
    ensures
        error is SurfaceError,
        fault is Vacant ==> error.description() == Some(crate::error::vacant_text()),
        fault matches Fault::Device(refusal) ==> error.description() == Some(diagnostic(refusal)),
{
    match fault {
        Fault::Vacant => SurfmanError::vacant(),
        Fault::Device(refusal) => surface_err(refusal),
    }
}

/// Settles a request to destroy a handle, given what the device answered. A
/// handle that the device refused to destroy comes back beside the refusal; it
/// is given up without running its destructor, because a context or a surface
/// must not be dropped while it is alive, and the refusal is passed on.
pub fn give_up_refused<T>(outcome: Result<(), (Error, T)>) -> (r: Result<(), Error>)
    ensures
        r == match outcome {
            Ok(()) => Ok::<(), Error>(()),
            Err((refusal, _)) => Err::<(), Error>(refusal),
        },
{
    match outcome {
        Ok(()) => Ok(()),
        Err((refusal, handle)) => {
            leak(handle);
            Err(refusal)
        },
    }
}

/// Destroys a surface that no context holds. A surface that the device refuses
/// to destroy is given up, as [`give_up_refused`] says; the context keeps what
/// it held either way.
fn discard(device: &Device, context: &mut Context, surface: Surface) -> (r: Result<(), Error>)
    ensures
        attached(*final(context)) == attached(*old(context)),
{
    give_up_refused(destroy_surface(device, context, surface))
}

/// Destroys a context, and with it the surface it holds. A context that the
/// device refuses to destroy is given up, as [`give_up_refused`] says.
fn release(device: &Device, context: Context) -> Result<(), Error> {
    give_up_refused(destroy_context(device, context))
}

/// The error to report when setting up failed at `failed` for `cause`, before
/// anything was made that must be handed back: the surface error that
/// describes the cause.
fn refuse(Ghost(failed): Ghost<Stage>, cause: Error) -> (error: SurfmanError)
    requires
        failed.holdings_on_failure() == Holdings::nothing(),
        failed.owed() == (Release { surface: false, context: false }),
    ensures
        error.description() == Some(diagnostic(cause)),
{
    surface_err(cause)
}

/// Hands back what is owed when setting up failed at `failed` for `cause`, and
/// returns the error to report: the surface error that describes the cause,
/// whatever the device answers to the handing back. `loose` is the surface
/// that the failed binding handed back.
fn abandon(
    device: &Device,
    context: Context,
    loose: Option<Surface>,
    failed: Stage,
    cause: Error,
) -> (error: SurfmanError)
    requires
        failed.holdings_on_failure().context,
        failed.holdings_on_failure().loose_surface <==> loose is Some,
    ensures
        error.description() == Some(diagnostic(cause)),
{
    let mut context = context;
    let mut loose = loose;
    let owed = failed.release_on_failure();
    if owed.surface {
        let surface = loose.take().unwrap();
        let _ = discard(device, &mut context, surface);
    }
    assert(owed.context && loose is None);
    let _ = release(device, context);
    surface_err(cause)
}

impl SurfmanSurface {
    /// The extent, width first, of the surface bound to the context, or `None`
    /// when no surface is bound.
    pub closed spec fn bound(self) -> Option<(i32, i32)> {
        attached(self.context)
    }

    /// What a successful [`SurfmanSurface::back_buffer`] establishes: the
    /// surface is bound as it was, and `size` is its extent.
    pub open spec fn measured(before: SurfmanSurface, after: SurfmanSurface, size: [u32; 2]) -> bool {
        &&& before.bound() is Some
        &&& after.bound() == before.bound()
        &&& size@ == reported(before.bound().unwrap())
    }

    /// What a successful [`SurfmanSurface::swap_buffers`] establishes: the
    /// surface is bound as it was, with the extent it had.
    pub open spec fn presented(before: SurfmanSurface, after: SurfmanSurface) -> bool {
        &&& before.bound() is Some
        &&& after.bound() == before.bound()
    }

    /// What a successful [`SurfmanSurface::set_size`] establishes: the surface
    /// is bound, with the extent asked for.
    pub open spec fn resized(before: SurfmanSurface, size: [u32; 2], after: SurfmanSurface) -> bool {
        &&& before.bound() is Some
        &&& after.bound() == Some(requested(size))
    }

    /// What a failed call leaves behind: the surface bound as it was, or no
    /// surface at all.
    pub open spec fn undisturbed(before: SurfmanSurface, after: SurfmanSurface) -> bool {
        after.bound() == before.bound() || after.bound() is None
    }

    /// Binds the surface of `window` to a new rendering context and makes the
    /// context current on the calling thread.
    ///
    /// The stages run in the order of [`Stage`], up to and including
    /// [`Stage::Current`]. When one of them fails, what the earlier stages
    /// made is handed back to the device as [`Stage::release_on_failure`]
    /// says, and the failure is reported as a surface error.
    pub fn from_winit_window(window: &Window) -> (r: Result<SurfmanSurface, SurfmanError>)
        ensures
            r matches Ok(session) ==> session.bound() is Some,
            r matches Err(error) ==> error is SurfaceError,
    {
        let connection = match connect(window) {
            Ok(connection) => connection,
            Err(refusal) => return Err(refuse(Ghost(Stage::Connection), refusal)),
        };
        let widget = match native_widget(&connection, window) {
            Ok(widget) => widget,
            Err(refusal) => return Err(refuse(Ghost(Stage::Widget), refusal)),
        };
        let adapter = match hardware_adapter(&connection) {
            Ok(adapter) => adapter,
            Err(refusal) => return Err(refuse(Ghost(Stage::Adapter), refusal)),
        };
        let mut device = match open_device(&connection, &adapter) {
            Ok(device) => device,
            Err(refusal) => return Err(refuse(Ghost(Stage::Device), refusal)),
        };
        let request = context_request();
        let descriptor = match describe_context(&device, &request) {
            Ok(descriptor) => descriptor,
            Err(refusal) => return Err(refuse(Ghost(Stage::Descriptor), refusal)),
        };
        let mut context = match create_context(&mut device, &descriptor) {
            Ok(context) => context,
            Err(refusal) => return Err(refuse(Ghost(Stage::Context), refusal)),
        };
        let surface = match create_widget_surface(&mut device, &context, surface_access(), widget) {
            Ok(surface) => surface,
            Err(refusal) => return Err(abandon(&device, context, None, Stage::Surface, refusal)),
        };
        match bind(&device, &mut context, surface) {
            Ok(()) => {},
            Err((refusal, surface)) => {
                return Err(abandon(&device, context, Some(surface), Stage::Binding, refusal));
            },
        }
        match make_current(&device, &context) {
            Ok(()) => {},
            Err(refusal) => return Err(abandon(&device, context, None, Stage::Current, refusal)),
        }
        Ok(SurfmanSurface { device, context })
    }

    /// Drives one run of the binding protocol against the device: performs
    /// each request of the run and feeds the device's answer back, until the
    /// run is over. The run ends on course, with no surface out of the context.
    fn run(&mut self, operation: Operation) -> (verdict: Result<Option<(i32, i32)>, Fault<Error>>)
        ensures
            on_course(
                old(self).bound(),
                Run { operation, phase: Phase::Finished(verdict) },
                Binding::at_rest(final(self).bound()),
            ),
    {
        let ghost entry = attached(self.context);
        let ghost mut binding = Binding::at_rest(entry);
        let mut held: Option<Surface> = None;
        let mut run = Run::<Error>::start(operation);
        let mut request = run.request();
        while request.is_some()
            invariant
                request == run.pending(),
                run.operation == operation,
                on_course(entry, run, binding),
                binding.bound == attached(self.context),
                binding.loose == extent_in_hand(held),
            decreases run.requests_left(),
        {
            let report = match request.unwrap() {
                Request::Unbind => match unbind(&self.device, &mut self.context) {
                    Ok(Some(surface)) => {
                        held = Some(surface);
                        Report::Detached
                    },
                    Ok(None) => Report::Vacant,
                    Err(refusal) => Report::Failed(refusal),
                },
                Request::Inspect => {
                    let surface = held.take().unwrap();
                    let (width, height) = surface_extent(&self.device, &surface);
                    held = Some(surface);
                    Report::Measured { width, height }
                },
                Request::Present => {
                    let mut surface = held.take().unwrap();
                    let outcome = present(&self.device, &self.context, &mut surface);
                    held = Some(surface);
                    match outcome {
                        Ok(()) => Report::Done,
                        Err(refusal) => Report::Failed(refusal),
                    }
                },
                Request::Resize { width, height } => {
                    let mut surface = held.take().unwrap();
                    let outcome = resize(&self.device, &self.context, &mut surface, width, height);
                    held = Some(surface);
                    match outcome {
                        Ok(()) => Report::Done,
                        Err(refusal) => Report::Failed(refusal),
                    }
                },
                Request::Rebind => {
                    let surface = held.take().unwrap();
                    match bind(&self.device, &mut self.context, surface) {
                        Ok(()) => Report::Done,
                        Err((refusal, surface)) => {
                            held = Some(surface);
                            Report::Failed(refusal)
                        },
                    }
                },
                Request::Discard => {
                    let surface = held.take().unwrap();
                    match discard(&self.device, &mut self.context, surface) {
                        Ok(()) => Report::Done,
                        Err(refusal) => Report::Failed(refusal),
                    }
                },
            };
            proof {
                let next = Binding {
                    bound: attached(self.context),
                    loose: extent_in_hand(held),
                };
                step_stays_on_course(entry, run, binding, request.unwrap(), report, next);
                binding = next;
            }
            run = run.step(report);
            request = run.request();
        }
        assert(run.finished() && held is None);
        run.verdict().unwrap()
    }

    /// Reads the size of the back buffer: the extent of the bound surface, in
    /// pixels, width first.
    ///
    /// The surface is taken out of the context, measured and put back.
    pub fn back_buffer(&mut self) -> (r: Result<[u32; 2], SurfmanError>)
        ensures
            r is Ok ==> final(self).bound() is Some,
            r matches Ok(size) ==> Self::measured(*old(self), *final(self), size),
            r matches Err(error) ==> error is SurfaceError && Self::undisturbed(
                *old(self),
                *final(self),
            ),
    {
        match self.run(Operation::Measure) {
            Ok(measured) => {
                let (width, height) = measured.unwrap();
                Ok(report_extent(width, height))
            },
            Err(fault) => Err(fault_error(fault)),
        }
    }

    /// Shows what was drawn into the back buffer and makes the next back
    /// buffer available.
    ///
    /// The surface is taken out of the context, presented and put back. It is
    /// put back as well when presenting fails; the failure is then reported.
    pub fn swap_buffers(&mut self) -> (r: Result<(), SurfmanError>)
        ensures
            r is Ok ==> final(self).bound() is Some,
            r is Ok ==> Self::presented(*old(self), *final(self)),
            r matches Err(error) ==> error is SurfaceError && Self::undisturbed(
                *old(self),
                *final(self),
            ),
    {
        match self.run(Operation::Present) {
            Ok(_) => Ok(()),
            Err(fault) => Err(fault_error(fault)),
        }
    }

    /// Gives the surface a new size, in pixels, width first.
    ///
    /// The surface is taken out of the context, resized and put back. It is put
    /// back as well when resizing fails; the failure is then reported and the
    /// surface keeps the extent it had.
    pub fn set_size(&mut self, size: [u32; 2]) -> (r: Result<(), SurfmanError>)
        ensures
            r is Ok ==> final(self).bound() is Some,
            r is Ok ==> Self::resized(*old(self), size, *final(self)),
            r matches Err(error) ==> error is SurfaceError && Self::undisturbed(
                *old(self),
                *final(self),
            ),
    {
        let operation = Operation::Resize { width: size[0], height: size[1] };
        assert(requested([size[0], size[1]]) == requested(size));
        match self.run(operation) {
            Ok(_) => Ok(()),
            Err(fault) => Err(fault_error(fault)),
        }
    }

    /// Looks up the OpenGL function that `symbol` names in the context of the
    /// session and returns its address as a plain number. A name that holds a
    /// NUL character names no function, and zero is returned for it without
    /// asking the device. The address is good for calls while the context is
    /// current.
    pub fn proc_address(&self, symbol: &str) -> (address: usize)
        ensures
            !names_function(symbol@) ==> address == 0,
    {
        if is_function_name(symbol) {
            proc_address(&self.device, &self.context, symbol)
        } else {
            0
        }
    }

    /// Hands the context, and the surface bound to it, back to the device. What
    /// the device answers is reported as [`surface_result`] says.
    pub fn destroy(self) -> (r: Result<(), SurfmanError>)
        ensures
            r matches Err(error) ==> error is SurfaceError,
    {
        let SurfmanSurface { device, context } = self;
        surface_result(release(&device, context))
    }
}

/// A back buffer is reported with the extent of the bound surface: a surface of
/// `width` by `height` pixels gives exactly that size.
pub proof fn back_buffer_has_surface_size(
    before: SurfmanSurface,
    after: SurfmanSurface,
    size: [u32; 2],
    width: i32,
    height: i32,
)
    requires
        SurfmanSurface::measured(before, after, size),
        before.bound() == Some((width, height)),
        width >= 0,
        height >= 0,
    ensures
        size[0] == width,
        size[1] == height,
{
}

/// A size that was set is the size of the next back buffer.
pub proof fn resize_shows_in_back_buffer(
    before: SurfmanSurface,
    size: [u32; 2],
    resized: SurfmanSurface,
    after: SurfmanSurface,
    reported_size: [u32; 2],
)
    requires
        SurfmanSurface::resized(before, size, resized),
        SurfmanSurface::measured(resized, after, reported_size),
    ensures
        reported_size@ == size@,
{
    requested_size_is_reported(size);
}

/// Swapping buffers does not change the size of the back buffer.
pub proof fn swap_keeps_size(
    before: SurfmanSurface,
    measured_before: SurfmanSurface,
    swapped: SurfmanSurface,
    after: SurfmanSurface,
    size_before: [u32; 2],
    size_after: [u32; 2],
)
    requires
        SurfmanSurface::measured(before, measured_before, size_before),
        SurfmanSurface::presented(measured_before, swapped),
        SurfmanSurface::measured(swapped, after, size_after),
    ensures
        size_after@ == size_before@,
        after.bound() == before.bound(),
{
}

/// Whatever a session is asked to do, success leaves a surface bound to the
/// context, and is had only of a session that went in with one.
pub proof fn session_stays_bound(
    before: SurfmanSurface,
    after: SurfmanSurface,
    size: [u32; 2],
)
    requires
        SurfmanSurface::measured(before, after, size) || SurfmanSurface::presented(before, after)
            || SurfmanSurface::resized(before, size, after),
    ensures
        after.bound() is Some,
        before.bound() is Some,
{
}

/// A call that fails does not change the extent of a surface that stays bound.
pub proof fn failure_keeps_bound_extent(before: SurfmanSurface, after: SurfmanSurface)
    requires
        SurfmanSurface::undisturbed(before, after),
        after.bound() is Some,
    ensures
        after.bound() == before.bound(),
{
}

} // verus!
