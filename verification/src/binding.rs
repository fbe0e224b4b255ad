//! Where the surface is while a run goes on, and why a run may be trusted with
//! it.
//!
//! A surface is in one of two places: in its context, or out of it, in the
//! hands of whoever drives the run. [`reacts`] says how a device that keeps
//! its word moves the surface when it answers a request. [`on_course`] says
//! where the surface must be in each phase of a run. The laws below show that
//! a run stays on course whatever such a device answers, and what follows for
//! a run that is over: the surface is never left out of its context, success
//! means that it is bound with the extent the operation calls for, and failure
//! never changes the extent of a surface that stays bound.

use vstd::prelude::*;

use crate::pixels::{reported, requested, requested_size_is_reported};
use crate::protocol::{Fault, Operation, Phase, Report, Request, Run};

verus! {

/// Where the surface is, by its extent, width first.
pub struct Binding {
    /// The surface in the context, if the context holds one.
    pub bound: Option<(i32, i32)>,
    /// The surface out of the context, if one was taken out.
    pub loose: Option<(i32, i32)>,
}

impl Binding {
    /// The binding between runs: nothing is out of the context.
    pub open spec fn at_rest(bound: Option<(i32, i32)>) -> Binding {
        Binding { bound, loose: None }
    }
}

/// Whether a device that keeps its word may answer `request` with `report`,
/// taking the binding from `before` to `after`.
///
/// Unbinding moves the surface out and binding moves it in; resizing gives the
/// surface that is out the extent asked for; a refusal changes nothing; and a
/// surface that was to be destroyed is gone either way.
pub open spec fn reacts<E>(before: Binding, request: Request, report: Report<E>, after: Binding) -> bool {
    match request {
        Request::Unbind => match report {
            Report::Detached => before.bound is Some && after == (Binding {
                bound: None,
                loose: before.bound,
            }),
            Report::Vacant => before.bound is None && after == before,
            Report::Failed(_) => after == before,
            _ => false,
        },
        Request::Inspect => match report {
            Report::Measured { width, height } => before.loose == Some((width, height)) && after
                == before,
            Report::Failed(_) => after == before,
            _ => false,
        },
        Request::Present => match report {
            Report::Done => after == before,
            Report::Failed(_) => after == before,
            _ => false,
        },
        Request::Resize { width, height } => match report {
            Report::Done => after == (Binding { bound: before.bound, loose: Some((width, height)) }),
            Report::Failed(_) => after == before,
            _ => false,
        },
        Request::Rebind => match report {
            Report::Done => after == (Binding { bound: before.loose, loose: None }),
            Report::Failed(_) => after == before,
            _ => false,
        },
        Request::Discard => match report {
            Report::Done => after == (Binding { bound: before.bound, loose: None }),
            Report::Failed(_) => after == (Binding { bound: before.bound, loose: None }),
            _ => false,
        },
    }
}

/// The extent a surface of extent `before` has once `operation` has been
/// carried out on it.
pub open spec fn extent_after(operation: Operation, before: (i32, i32)) -> (i32, i32) {
    match operation {
        Operation::Resize { width, height } => requested([width, height]),
        _ => before,
    }
}

/// What a successful run of `operation` reports of a surface that went in with
/// extent `entry`: the extent it read, if reading is what it was for.
pub open spec fn reading(operation: Operation, entry: (i32, i32)) -> Option<(i32, i32)> {
    if operation is Measure {
        Some(entry)
    } else {
        None
    }
}

/// Whether `run` has the surface where it belongs. `entry` is what the context
/// held when the run began, and `now` is the binding as it stands.
pub open spec fn on_course<E>(entry: Option<(i32, i32)>, run: Run<E>, now: Binding) -> bool {
    match run.phase {
        Phase::Detaching => now == Binding::at_rest(entry),
        Phase::Operating => entry is Some && now == (Binding { bound: None, loose: entry }),
        Phase::Restoring { measured, failure } => {
            &&& entry is Some
            &&& now.bound is None
            &&& failure is Some ==> now.loose == entry
            &&& failure is None ==> now.loose == Some(extent_after(run.operation, entry.unwrap()))
            &&& failure is None ==> measured == reading(run.operation, entry.unwrap())
        },
        Phase::Discarding { .. } => now.bound is None && now.loose is Some,
        Phase::Finished(verdict) => now.loose is None && match verdict {
            Ok(measured) => {
                &&& entry is Some
                &&& now.bound == Some(extent_after(run.operation, entry.unwrap()))
                &&& measured == reading(run.operation, entry.unwrap())
            },
            Err(Fault::Vacant) => entry is None && now.bound is None,
            Err(Fault::Device(_)) => now.bound == entry || now.bound is None,
        },
    }
}

/// A run that begins while nothing is out of the context begins on course.
pub proof fn start_is_on_course<E>(operation: Operation, entry: Option<(i32, i32)>)
    ensures
        on_course(entry, Run::<E>::started(operation), Binding::at_rest(entry)),
{
}

/// Whatever a device that keeps its word answers to the pending request, the
/// answer is one the run expects, and the run stays on course.
pub proof fn step_stays_on_course<E>(
    entry: Option<(i32, i32)>,
    run: Run<E>,
    now: Binding,
    request: Request,
    report: Report<E>,
    next: Binding,
)
    requires
        on_course(entry, run, now),
        run.pending() == Some(request),
        reacts(now, request, report, next),
    ensures
        run.answers(report),
        on_course(entry, run.after(report), next),
{
}

/// The run as it stands once the device has given `reports`, one after the
/// other.
pub open spec fn replayed<E>(run: Run<E>, reports: Seq<Report<E>>) -> Run<E>
    decreases reports.len(),
{
    if reports.len() == 0 {
        run
    } else {
        replayed(run.after(reports[0]), reports.drop_first())
    }
}

/// Whether a device that keeps its word may give `reports`, one after the
/// other, in answer to the requests of `run`, beginning with the binding `now`
/// and leaving the binding `bindings[i]` behind report `i`.
pub open spec fn faithful<E>(
    run: Run<E>,
    now: Binding,
    reports: Seq<Report<E>>,
    bindings: Seq<Binding>,
) -> bool
    decreases reports.len(),
{
    if reports.len() == 0 {
        bindings.len() == 0
    } else {
        &&& bindings.len() == reports.len()
        &&& run.pending() is Some
        &&& reacts(now, run.pending().unwrap(), reports[0], bindings[0])
        &&& faithful(run.after(reports[0]), bindings[0], reports.drop_first(), bindings.drop_first())
    }
}

/// The binding that `bindings` ends with, and `now` when nothing happened.
pub open spec fn last_binding(now: Binding, bindings: Seq<Binding>) -> Binding {
    if bindings.len() == 0 {
        now
    } else {
        bindings.last()
    }
}

/// A run that is on course stays on course through any number of answers of a
/// device that keeps its word, and is given no more answers than it has
/// requests left.
pub proof fn run_stays_on_course<E>(
    entry: Option<(i32, i32)>,
    run: Run<E>,
    now: Binding,
    reports: Seq<Report<E>>,
    bindings: Seq<Binding>,
)
    requires
        on_course(entry, run, now),
        faithful(run, now, reports, bindings),
    ensures
        on_course(entry, replayed(run, reports), last_binding(now, bindings)),
        reports.len() <= run.requests_left(),
    decreases reports.len(),
{
    if reports.len() > 0 {
        let request = run.pending().unwrap();
        step_stays_on_course(entry, run, now, request, reports[0], bindings[0]);
        run_stays_on_course(
            entry,
            run.after(reports[0]),
            bindings[0],
            reports.drop_first(),
            bindings.drop_first(),
        );
        if bindings.len() > 1 {
            assert(bindings.drop_first().last() == bindings.last());
        }
    }
}

/// Every run, begun while nothing is out of the context and carried through to
/// its end against a device that keeps its word, puts the surface back or
/// disposes of it: no surface is out of the context when the run is over. If
/// the run succeeded, the surface is bound with the extent the operation calls
/// for; if it failed, the surface is bound as it was or no surface is bound.
pub proof fn finished_run_returns_surface<E>(
    operation: Operation,
    entry: Option<(i32, i32)>,
    reports: Seq<Report<E>>,
    bindings: Seq<Binding>,
)
    requires
        faithful(Run::<E>::started(operation), Binding::at_rest(entry), reports, bindings),
        replayed(Run::<E>::started(operation), reports).finished(),
    ensures
        last_binding(Binding::at_rest(entry), bindings).loose is None,
        reports.len() <= 4,
        match replayed(Run::<E>::started(operation), reports).outcome() {
            Some(Ok(_)) => entry is Some && last_binding(Binding::at_rest(entry), bindings).bound
                == Some(extent_after(operation, entry.unwrap())),
            _ => last_binding(Binding::at_rest(entry), bindings).bound == entry || last_binding(
                Binding::at_rest(entry),
                bindings,
            ).bound is None,
        },
{
    start_is_on_course::<E>(operation, entry);
    run_stays_on_course(
        entry,
        Run::<E>::started(operation),
        Binding::at_rest(entry),
        reports,
        bindings,
    );
    assert(replayed(Run::<E>::started(operation), reports).operation == operation) by {
        replay_keeps_operation(Run::<E>::started(operation), reports);
    }
}

/// A run is for the same operation from beginning to end.
pub proof fn replay_keeps_operation<E>(run: Run<E>, reports: Seq<Report<E>>)
    ensures
        replayed(run, reports).operation == run.operation,
    decreases reports.len(),
{
    if reports.len() > 0 {
        replay_keeps_operation(run.after(reports[0]), reports.drop_first());
    }
}

/// The surface is out of its context exactly while the run holds it: a run
/// that is over has left no surface out.
pub proof fn surface_is_out_only_while_held<E>(
    entry: Option<(i32, i32)>,
    run: Run<E>,
    now: Binding,
)
    requires
        on_course(entry, run, now),
    ensures
        now.loose is Some <==> run.holds_surface(),
        run.finished() ==> now.loose is None,
{
}

/// A run that succeeds leaves the surface bound, whatever it was for. The
/// surface has the extent the operation calls for: the extent asked for after
/// a resize, and otherwise the extent it went in with.
pub proof fn success_leaves_surface_bound<E>(
    entry: Option<(i32, i32)>,
    run: Run<E>,
    now: Binding,
    measured: Option<(i32, i32)>,
)
    requires
        on_course(entry, run, now),
        run.outcome() == Some(Ok::<Option<(i32, i32)>, Fault<E>>(measured)),
    ensures
        entry is Some,
        now.bound is Some,
        now.bound == Some(extent_after(run.operation, entry.unwrap())),
        now.loose is None,
{
}

/// A measuring run that succeeds reports the extent of the bound surface, and
/// leaves the surface bound as it was.
pub proof fn measuring_reports_bound_extent<E>(
    entry: Option<(i32, i32)>,
    run: Run<E>,
    now: Binding,
    measured: Option<(i32, i32)>,
)
    requires
        run.operation is Measure,
        on_course(entry, run, now),
        run.outcome() == Some(Ok::<Option<(i32, i32)>, Fault<E>>(measured)),
    ensures
        measured is Some,
        measured == entry,
        now == Binding::at_rest(entry),
{
}

/// A presenting run that succeeds leaves the surface bound with the extent it
/// had.
pub proof fn presenting_keeps_extent<E>(
    entry: Option<(i32, i32)>,
    run: Run<E>,
    now: Binding,
    measured: Option<(i32, i32)>,
)
    requires
        run.operation is Present,
        on_course(entry, run, now),
        run.outcome() == Some(Ok::<Option<(i32, i32)>, Fault<E>>(measured)),
    ensures
        entry is Some,
        now == Binding::at_rest(entry),
{
}

/// After a resizing run that succeeds, a measuring run that succeeds reports
/// the size that was asked for.
pub proof fn resizing_shows_in_next_measurement<E>(
    size: [u32; 2],
    entry: Option<(i32, i32)>,
    resizing: Run<E>,
    between: Binding,
    measuring: Run<E>,
    now: Binding,
    resized: Option<(i32, i32)>,
    measured: Option<(i32, i32)>,
)
    requires
        resizing.operation == (Operation::Resize { width: size[0], height: size[1] }),
        on_course(entry, resizing, between),
        resizing.outcome() == Some(Ok::<Option<(i32, i32)>, Fault<E>>(resized)),
        measuring.operation is Measure,
        on_course(between.bound, measuring, now),
        measuring.outcome() == Some(Ok::<Option<(i32, i32)>, Fault<E>>(measured)),
    ensures
        measured == Some(requested(size)),
        reported(measured.unwrap()) == size@,
{
    assert(requested([size[0], size[1]]) == requested(size));
    requested_size_is_reported(size);
}

/// A run that fails leaves the surface bound as it was, or leaves no surface
/// bound; it never leaves a surface bound with another extent. It reports a
/// context without a surface only when the context had none.
pub proof fn failure_leaves_surface_unchanged<E>(
    entry: Option<(i32, i32)>,
    run: Run<E>,
    now: Binding,
    fault: Fault<E>,
)
    requires
        on_course(entry, run, now),
        run.outcome() == Some(Err::<Option<(i32, i32)>, Fault<E>>(fault)),
    ensures
        now.loose is None,
        now.bound == entry || now.bound is None,
        fault is Vacant ==> entry is None,
{
}

/// A run on a context that holds no surface does not succeed.
pub proof fn vacant_context_fails<E>(run: Run<E>, now: Binding)
    requires
        on_course(None, run, now),
        run.finished(),
    ensures
        run.outcome() matches Some(Err(_)),
        now.bound is None,
{
}

} // verus!
