//! What a session asks of the device when it is set up, and what it owes the
//! device when setting up fails part of the way.
//!
//! Setting up is a chain of stages, each of which needs what the stages before
//! it made. Two of the things made on the way, the context and the surface,
//! must be handed back to the device explicitly: a context or a surface that is
//! merely dropped is lost to the device for good. So a failure in a late stage
//! obliges the session to release what the earlier stages made, and a failure
//! in an early stage obliges it to nothing.

use vstd::prelude::*;

verus! {

/// The capabilities asked of a rendering context.
#[derive(Clone, Copy, Debug, PartialEq, Eq, Structural)]
pub struct ContextRequest {
    /// Major OpenGL version.
    pub major: u8,
    /// Minor OpenGL version.
    pub minor: u8,
    /// Whether surfaces carry an alpha channel.
    pub alpha: bool,
    /// Whether surfaces carry a depth buffer.
    pub depth: bool,
    /// Whether surfaces carry a stencil buffer.
    pub stencil: bool,
}

/// Who may touch the pixels of a surface directly.
#[derive(Clone, Copy, Debug, PartialEq, Eq, Structural)]
pub enum Access {
    /// The GPU alone.
    GpuOnly,
    /// The GPU and the CPU.
    GpuCpu,
}

/// The context a session asks for: OpenGL 3.3 with alpha, depth and stencil
/// buffers.
pub fn context_request() -> (request: ContextRequest)
    ensures
        request == (ContextRequest {
            major: 3,
            minor: 3,
            alpha: true,
            depth: true,
            stencil: true,
        }),
{
    ContextRequest { major: 3, minor: 3, alpha: true, depth: true, stencil: true }
}

/// The access a session asks for on its surface. The graphics backend reads
/// pixels back on the host, so the CPU is given access as well.
pub fn surface_access() -> (access: Access)
    ensures
        access == Access::GpuCpu,
{
    Access::GpuCpu
}

/// The stages of setting up a session, in the order in which they run.
#[derive(Clone, Copy, Debug, PartialEq, Eq, Structural)]
pub enum Stage {
    /// Connecting to the display server of the window.
    Connection,
    /// Making the widget token that anchors the surface to the window.
    Widget,
    /// Choosing the display adapter.
    Adapter,
    /// Opening the device.
    Device,
    /// Choosing the pixel format of the context.
    Descriptor,
    /// Creating the rendering context.
    Context,
    /// Creating the surface.
    Surface,
    /// Binding the surface to the context.
    Binding,
    /// Making the context current on the calling thread.
    Current,
    /// Initialising the graphics backend on the current context.
    Backend,
}

/// What a session holds, of the things that must be handed back explicitly.
#[derive(Clone, Copy, Debug, PartialEq, Eq, Structural)]
pub struct Holdings {
    /// A rendering context.
    pub context: bool,
    /// A surface that no context owns.
    pub loose_surface: bool,
    /// A surface that the context owns.
    pub bound_surface: bool,
}

/// What a session hands back to the device.
#[derive(Clone, Copy, Debug, PartialEq, Eq, Structural)]
pub struct Release {
    /// Destroy the surface that no context owns.
    pub surface: bool,
    /// Destroy the context, and with it the surface it owns.
    pub context: bool,
}

impl Holdings {
    /// Nothing that must be handed back.
    pub open spec fn nothing() -> Holdings {
        Holdings { context: false, loose_surface: false, bound_surface: false }
    }

    /// What is left of these holdings once `release` has been carried out. A
    /// context takes the surface it owns with it.
    pub open spec fn without(self, release: Release) -> Holdings {
        Holdings {
            context: self.context && !release.context,
            loose_surface: self.loose_surface && !release.surface,
            bound_surface: self.bound_surface && !release.context,
        }
    }
}

impl Stage {
    /// The stage that runs once this one has succeeded, and `None` after the
    /// last.
    pub open spec fn following(self) -> Option<Stage> {
        match self {
            Stage::Connection => Some(Stage::Widget),
            Stage::Widget => Some(Stage::Adapter),
            Stage::Adapter => Some(Stage::Device),
            Stage::Device => Some(Stage::Descriptor),
            Stage::Descriptor => Some(Stage::Context),
            Stage::Context => Some(Stage::Surface),
            Stage::Surface => Some(Stage::Binding),
            Stage::Binding => Some(Stage::Current),
            Stage::Current => Some(Stage::Backend),
            Stage::Backend => None,
        }
    }

    /// What the session holds once this stage has succeeded.
    pub open spec fn holdings_after(self) -> Holdings {
        match self {
            Stage::Connection | Stage::Widget | Stage::Adapter | Stage::Device
            | Stage::Descriptor => Holdings::nothing(),
            Stage::Context => Holdings { context: true, loose_surface: false, bound_surface: false },
            Stage::Surface => Holdings { context: true, loose_surface: true, bound_surface: false },
            Stage::Binding | Stage::Current | Stage::Backend => Holdings {
                context: true,
                loose_surface: false,
                bound_surface: true,
            },
        }
    }

    /// What the session holds when this stage has failed: what the stages
    /// before it made. A stage that fails makes nothing itself, and a binding
    /// that fails hands the surface back.
    pub open spec fn holdings_on_failure(self) -> Holdings {
        match self {
            Stage::Connection | Stage::Widget | Stage::Adapter | Stage::Device
            | Stage::Descriptor | Stage::Context => Holdings::nothing(),
            Stage::Surface => Holdings { context: true, loose_surface: false, bound_surface: false },
            Stage::Binding => Holdings { context: true, loose_surface: true, bound_surface: false },
            Stage::Current | Stage::Backend => Holdings {
                context: true,
                loose_surface: false,
                bound_surface: true,
            },
        }
    }

    /// What the session owes the device when this stage has failed.
    pub open spec fn owed(self) -> Release {
        match self {
            Stage::Connection | Stage::Widget | Stage::Adapter | Stage::Device
            | Stage::Descriptor | Stage::Context => Release { surface: false, context: false },
            Stage::Surface => Release { surface: false, context: true },
            Stage::Binding => Release { surface: true, context: true },
            Stage::Current | Stage::Backend => Release { surface: false, context: true },
        }
    }

    /// The first stage.
    pub fn first() -> (stage: Stage)
        ensures
            stage == Stage::Connection,
            forall|earlier: Stage| earlier.following() != Some(stage),
    {
        Stage::Connection
    }

    /// The stage to run once this one has succeeded, or `None` when the session
    /// is ready.
    pub fn next(self) -> (stage: Option<Stage>)
        ensures
            stage == self.following(),
    {
        match self {
            Stage::Connection => Some(Stage::Widget),
            Stage::Widget => Some(Stage::Adapter),
            Stage::Adapter => Some(Stage::Device),
            Stage::Device => Some(Stage::Descriptor),
            Stage::Descriptor => Some(Stage::Context),
            Stage::Context => Some(Stage::Surface),
            Stage::Surface => Some(Stage::Binding),
            Stage::Binding => Some(Stage::Current),
            Stage::Current => Some(Stage::Backend),
            Stage::Backend => None,
        }
    }

    /// What to hand back to the device when this stage has failed.
    pub fn release_on_failure(self) -> (release: Release)
        ensures
            release == self.owed(),
    {
        match self {
            Stage::Surface | Stage::Current | Stage::Backend => Release {
                surface: false,
                context: true,
            },
            Stage::Binding => Release { surface: true, context: true },
            _ => Release { surface: false, context: false },
        }
    }
}

/// Whatever stage fails, handing back what is owed leaves the session holding
/// nothing: no context and no surface outlives a failed set-up.
pub proof fn failure_leaves_nothing(stage: Stage)
    ensures
        stage.holdings_on_failure().without(stage.owed()) == Holdings::nothing(),
{
}

/// Nothing is handed back that was never made: a destroy is owed only for a
/// context or a surface that the session holds.
pub proof fn only_holdings_are_released(stage: Stage)
    ensures
        stage.owed().context ==> stage.holdings_on_failure().context,
        stage.owed().surface ==> stage.holdings_on_failure().loose_surface,
{
}

/// A stage that fails changes nothing: the session then holds what it held
/// after the stage before. In particular, a surface that could not be bound is
/// still loose.
pub proof fn failure_keeps_earlier_holdings(earlier: Stage, stage: Stage)
    requires
        earlier.following() == Some(stage),
    ensures
        stage.holdings_on_failure() == earlier.holdings_after(),
{
}

/// A session that is ready holds a context with a surface bound to it, and no
/// loose surface.
pub proof fn ready_session_is_bound(last: Stage)
    requires
        last.following() is None,
    ensures
        last.holdings_after() == (Holdings {
            context: true,
            loose_surface: false,
            bound_surface: true,
        }),
{
}

} // verus!
