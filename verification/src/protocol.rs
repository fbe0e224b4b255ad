//! The binding protocol: how a surface leaves its context, is worked on, and
//! goes back.
//!
//! A context owns the surface bound to it, and the device works on a surface
//! only while the context has let go of it. Every operation on a bound surface
//! is therefore one run of the same protocol: unbind the surface, do the one
//! thing the operation is for, bind the surface again. A [`Run`] decides what
//! to ask of the device next, given what the device answered last; it never
//! touches the device itself. Whoever drives a run performs each request and
//! feeds the report back, until the run is finished.
//!
//! The surface goes back to its context on every path on which the device
//! handed it out: also when the operation itself failed. Only when the device
//! refuses to take the surface back is the surface discarded, and the run then
//! ends in failure.

use vstd::prelude::*;

use crate::pixels::{signed_of, to_signed};

verus! {

/// What a run is for.
#[derive(Clone, Copy, Debug, PartialEq, Eq, Structural)]
pub enum Operation {
    /// Read the extent of the bound surface.
    Measure,
    /// Show the back buffer of the bound surface.
    Present,
    /// Give the bound surface a new size, in pixels.
    Resize { width: u32, height: u32 },
}

/// What a run asks of the device.
#[derive(Clone, Copy, Debug, PartialEq, Eq, Structural)]
pub enum Request {
    /// Take the surface out of the context.
    Unbind,
    /// Read the extent of the surface that was taken out.
    Inspect,
    /// Present the surface that was taken out.
    Present,
    /// Resize the surface that was taken out to this extent.
    Resize { width: i32, height: i32 },
    /// Put the surface back into the context.
    Rebind,
    /// Destroy the surface, which the context would not take back.
    Discard,
}

/// What the device answered.
#[derive(Debug, PartialEq, Eq)]
pub enum Report<E> {
    /// The context gave up its surface.
    Detached,
    /// The context held no surface to give up.
    Vacant,
    /// The surface has this extent.
    Measured { width: i32, height: i32 },
    /// The request was carried out.
    Done,
    /// The request was refused.
    Failed(E),
}

/// Why a run ended in failure.
#[derive(Debug, PartialEq, Eq)]
pub enum Fault<E> {
    /// The context held no surface.
    Vacant,
    /// The device refused a request.
    Device(E),
}

/// Where a run stands.
#[derive(Debug, PartialEq, Eq)]
pub enum Phase<E> {
    /// The surface is being taken out of the context.
    Detaching,
    /// The surface is out and the operation's own request is under way.
    Operating,
    /// The surface is out and is being put back. `measured` is the extent that
    /// was read, if one was; `failure` is the refusal the operation met, if it
    /// met one.
    Restoring { measured: Option<(i32, i32)>, failure: Option<E> },
    /// The context would not take the surface back, and the surface is being
    /// destroyed. `cause` is the first refusal of the run.
    Discarding { cause: E },
    /// The run is over, with the extent that was read, if one was.
    Finished(Result<Option<(i32, i32)>, Fault<E>>),
}

/// One run of the protocol.
#[derive(Debug, PartialEq, Eq)]
pub struct Run<E> {
    /// What the run is for.
    pub operation: Operation,
    /// Where the run stands.
    pub phase: Phase<E>,
}

impl<E> Run<E> {
    /// Whether the surface is out of its context, in the hands of whoever
    /// drives the run.
    pub open spec fn holds_surface(self) -> bool {
        self.phase is Operating || self.phase is Restoring || self.phase is Discarding
    }

    /// Whether the run is over.
    pub open spec fn finished(self) -> bool {
        self.phase is Finished
    }

    /// The request the device has yet to answer, and `None` once the run is
    /// over.
    pub open spec fn pending(self) -> Option<Request> {
        match self.phase {
            Phase::Detaching => Some(Request::Unbind),
            Phase::Operating => Some(
                match self.operation {
                    Operation::Measure => Request::Inspect,
                    Operation::Present => Request::Present,
                    Operation::Resize { width, height } => Request::Resize {
                        width: signed_of(width),
                        height: signed_of(height),
                    },
                },
            ),
            Phase::Restoring { .. } => Some(Request::Rebind),
            Phase::Discarding { .. } => Some(Request::Discard),
            Phase::Finished(_) => None,
        }
    }

    /// Whether `report` is an answer to the pending request.
    pub open spec fn answers(self, report: Report<E>) -> bool {
        match self.phase {
            Phase::Detaching => report is Detached || report is Vacant || report is Failed,
            Phase::Operating => report is Failed || if self.operation is Measure {
                report is Measured
            } else {
                report is Done
            },
            Phase::Restoring { .. } => report is Done || report is Failed,
            Phase::Discarding { .. } => report is Done || report is Failed,
            Phase::Finished(_) => false,
        }
    }

    /// The phase that follows when the device answers the pending request with
    /// `report`. A report that answers nothing leaves the phase as it is.
    pub open spec fn phase_after(self, report: Report<E>) -> Phase<E> {
        match self.phase {
            Phase::Detaching => match report {
                Report::Detached => Phase::Operating,
                Report::Vacant => Phase::Finished(Err(Fault::Vacant)),
                Report::Failed(refusal) => Phase::Finished(Err(Fault::Device(refusal))),
                _ => self.phase,
            },
            Phase::Operating => match report {
                Report::Failed(refusal) => Phase::Restoring {
                    measured: None,
                    failure: Some(refusal),
                },
                Report::Measured { width, height } => if self.operation is Measure {
                    Phase::Restoring { measured: Some((width, height)), failure: None }
                } else {
                    self.phase
                },
                Report::Done => if self.operation is Measure {
                    self.phase
                } else {
                    Phase::Restoring { measured: None, failure: None }
                },
                _ => self.phase,
            },
            Phase::Restoring { measured, failure } => match report {
                Report::Done => match failure {
                    None => Phase::Finished(Ok(measured)),
                    Some(refusal) => Phase::Finished(Err(Fault::Device(refusal))),
                },
                Report::Failed(refusal) => Phase::Discarding {
                    cause: match failure {
                        Some(first) => first,
                        None => refusal,
                    },
                },
                _ => self.phase,
            },
            Phase::Discarding { cause } => match report {
                Report::Done => Phase::Finished(Err(Fault::Device(cause))),
                Report::Failed(_) => Phase::Finished(Err(Fault::Device(cause))),
                _ => self.phase,
            },
            Phase::Finished(_) => self.phase,
        }
    }

    /// The run as it stands once the device has answered with `report`.
    pub open spec fn after(self, report: Report<E>) -> Run<E> {
        Run { operation: self.operation, phase: self.phase_after(report) }
    }

    /// How the run ended, and `None` while it is under way.
    pub open spec fn outcome(self) -> Option<Result<Option<(i32, i32)>, Fault<E>>> {
        match self.phase {
            Phase::Finished(verdict) => Some(verdict),
            _ => None,
        }
    }

    /// A run for `operation` of which nothing has been asked yet.
    pub open spec fn started(operation: Operation) -> Run<E> {
        Run { operation, phase: Phase::Detaching }
    }

    /// A bound on the number of requests the run may still make.
    pub open spec fn requests_left(self) -> nat {
        match self.phase {
            Phase::Detaching => 4,
            Phase::Operating => 3,
            Phase::Restoring { .. } => 2,
            Phase::Discarding { .. } => 1,
            Phase::Finished(_) => 0,
        }
    }

    /// A run for `operation`, with nothing asked of the device yet.
    pub fn start(operation: Operation) -> (run: Run<E>)
        ensures
            run == Run::<E>::started(operation),
    {
        Run { operation, phase: Phase::Detaching }
    }

    /// What to ask of the device now, or `None` when the run is over.
    pub fn request(&self) -> (request: Option<Request>)
        ensures
            request == self.pending(),
    {
        match &self.phase {
            Phase::Detaching => Some(Request::Unbind),
            Phase::Operating => match self.operation {
                Operation::Measure => Some(Request::Inspect),
                Operation::Present => Some(Request::Present),
                Operation::Resize { width, height } => Some(
                    Request::Resize { width: to_signed(width), height: to_signed(height) },
                ),
            },
            Phase::Restoring { .. } => Some(Request::Rebind),
            Phase::Discarding { .. } => Some(Request::Discard),
            Phase::Finished(_) => None,
        }
    }

    /// How the run ended, or `None` while it is under way.
    pub fn verdict(self) -> (verdict: Option<Result<Option<(i32, i32)>, Fault<E>>>)
        ensures
            verdict == self.outcome(),
    {
        match self.phase {
            Phase::Finished(verdict) => Some(verdict),
            _ => None,
        }
    }

    /// Takes the device's answer to the pending request and moves the run on.
    pub fn step(self, report: Report<E>) -> (run: Run<E>)
        ensures
            run == self.after(report),
    {
        let operation = self.operation;
        let measuring = match operation {
            Operation::Measure => true,
            _ => false,
        };
        let phase = match self.phase {
            Phase::Detaching => match report {
                Report::Detached => Phase::Operating,
                Report::Vacant => Phase::Finished(Err(Fault::Vacant)),
                Report::Failed(refusal) => Phase::Finished(Err(Fault::Device(refusal))),
                _ => Phase::Detaching,
            },
            Phase::Operating => match report {
                Report::Failed(refusal) => Phase::Restoring {
                    measured: None,
                    failure: Some(refusal),
                },
                Report::Measured { width, height } => if measuring {
                    Phase::Restoring { measured: Some((width, height)), failure: None }
                } else {
                    Phase::Operating
                },
                Report::Done => if measuring {
                    Phase::Operating
                } else {
                    Phase::Restoring { measured: None, failure: None }
                },
                _ => Phase::Operating,
            },
            Phase::Restoring { measured, failure } => match report {
                Report::Done => match failure {
                    None => Phase::Finished(Ok(measured)),
                    Some(refusal) => Phase::Finished(Err(Fault::Device(refusal))),
                },
                Report::Failed(refusal) => match failure {
                    Some(first) => Phase::Discarding { cause: first },
                    None => Phase::Discarding { cause: refusal },
                },
                _ => Phase::Restoring { measured, failure },
            },
            Phase::Discarding { cause } => match report {
                Report::Done => Phase::Finished(Err(Fault::Device(cause))),
                Report::Failed(_) => Phase::Finished(Err(Fault::Device(cause))),
                _ => Phase::Discarding { cause },
            },
            Phase::Finished(verdict) => Phase::Finished(verdict),
        };
        Run { operation, phase }
    }
}

/// Every answered request brings the run nearer its end, so a run makes at
/// most four requests.
pub proof fn answers_make_progress<E>(run: Run<E>, report: Report<E>)
    requires
        run.answers(report),
    ensures
        run.after(report).requests_left() < run.requests_left(),
        run.requests_left() <= 4,
{
}

/// A report that does not answer the pending request changes nothing.
pub proof fn stray_reports_are_ignored<E>(run: Run<E>, report: Report<E>)
    requires
        !run.answers(report),
    ensures
        run.after(report) == run,
{
}

/// A run asks something of the device exactly until it is over.
pub proof fn requests_until_finished<E>(run: Run<E>)
    ensures
        run.pending() is None <==> run.finished(),
        run.finished() <==> run.requests_left() == 0,
{
}

/// A run succeeds on exactly one course of events: the context gives up its
/// surface, the operation is carried out, and the context takes the surface
/// back.
pub proof fn success_is_three_good_answers<E>(
    operation: Operation,
    first: Report<E>,
    second: Report<E>,
    third: Report<E>,
)
    ensures
        Run::<E>::started(operation).after(first).after(second).after(third).outcome() matches Some(
            Ok(_),
        ) <==> {
            &&& first is Detached
            &&& if operation is Measure {
                second is Measured
            } else {
                second is Done
            }
            &&& third is Done
        },
        !(Run::<E>::started(operation).after(first).after(second).outcome() matches Some(Ok(_))),
{
}

/// A run ends in success only on the report that the surface is bound again,
/// and only if no request of the run was refused.
pub proof fn success_follows_rebinding<E>(run: Run<E>, report: Report<E>)
    requires
        !run.finished(),
        run.after(report).phase matches Phase::Finished(Ok(_)),
    ensures
        run.pending() == Some(Request::Rebind),
        report is Done,
        run.phase matches Phase::Restoring { failure: None, .. },
{
}

/// A run that holds the surface does not end before the device has answered a
/// request to put the surface back or, failing that, to destroy it.
pub proof fn held_surface_is_returned<E>(run: Run<E>, report: Report<E>)
    requires
        run.holds_surface(),
        run.after(report).finished(),
    ensures
        run.pending() == Some(Request::Rebind) || run.pending() == Some(Request::Discard),
{
}

/// While the surface is out, the request that follows the operation's own is
/// always the request to put the surface back, whether the operation was
/// carried out or refused.
pub proof fn operation_is_followed_by_rebinding<E>(run: Run<E>, report: Report<E>)
    requires
        run.phase is Operating,
        run.answers(report),
    ensures
        run.after(report).pending() == Some(Request::Rebind),
{
}

/// The surface is destroyed only after the context has refused to take it back.
pub proof fn discard_follows_refused_rebinding<E>(run: Run<E>, report: Report<E>)
    requires
        !(run.phase is Discarding),
        run.after(report).pending() == Some(Request::Discard),
    ensures
        run.pending() == Some(Request::Rebind),
        report is Failed,
{
}

/// A failed run reports the first refusal it met: a refusal of the operation
/// is not displaced by a later refusal to rebind or to destroy.
pub proof fn first_refusal_is_reported<E>(run: Run<E>, first: E, later: Report<E>)
    requires
        run.phase matches Phase::Restoring { failure: Some(refusal), .. } && refusal == first,
        later is Done || later is Failed,
    ensures
        later is Done ==> run.after(later).phase == Phase::<E>::Finished(
            Err(Fault::Device(first)),
        ),
        later is Failed ==> run.after(later).phase == (Phase::<E>::Discarding { cause: first }),
{
}

/// The extent a measuring run ends with is the extent the device reported.
pub proof fn measured_extent_is_kept<E>(run: Run<E>, width: i32, height: i32)
    requires
        run.operation is Measure,
        run.phase is Operating,
    ensures
        run.after(Report::Measured { width, height }).after(Report::Done).phase == Phase::<
            E,
        >::Finished(Ok(Some((width, height)))),
{
}

} // verus!
