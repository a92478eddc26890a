use crate::chain::{ContextHandle, DriverHandle};
use crate::error::{DriverError, ResourceKind, EXIT_CLEAN, EXIT_FAILURE};
use crate::supervisor::{
    exit_code, replay, spec_step, trace, warn, Action, Event, Model, Phase, Slot,
};
use vstd::prelude::*;

verus! {

/// The kind of an action: what it asks for, whatever the handle.
pub enum ActionKind {
    InitContext,
    ReportConfig,
    InitDriver,
    StartDriver,
    ReadStopSignal,
    DoWork,
    CloseDriver,
    CloseContext,
    Exit,
    Wait,
}

/// The kind of `action`.
pub open spec fn kind_of(action: Action) -> ActionKind {
    match action {
        Action::InitContext => ActionKind::InitContext,
        Action::ReportConfig { .. } => ActionKind::ReportConfig,
        Action::InitDriver { .. } => ActionKind::InitDriver,
        Action::StartDriver { .. } => ActionKind::StartDriver,
        Action::ReadStopSignal => ActionKind::ReadStopSignal,
        Action::DoWork { .. } => ActionKind::DoWork,
        Action::CloseDriver { .. } => ActionKind::CloseDriver,
        Action::CloseContext { .. } => ActionKind::CloseContext,
        Action::Exit { .. } => ActionKind::Exit,
        Action::Wait => ActionKind::Wait,
    }
}

/// Whether a run in `phase` takes `event`: it is the outcome that the run waits for
/// there, or the run is given up before it is done.
pub open spec fn awaited(phase: Phase, event: Event) -> bool {
    phase != Phase::Done && (event is Abandoned || awaited_outcome(phase, event))
}

/// Whether `event` is the outcome that a run in `phase` waits for.
pub open spec fn awaited_outcome(phase: Phase, event: Event) -> bool {
    match phase {
        Phase::AwaitContextInit => event is ContextInitialized,
        Phase::AwaitConfigReport => event is ConfigReported,
        Phase::AwaitDriverInit => event is DriverInitialized,
        Phase::AwaitStart => event is DriverStarted,
        Phase::AwaitStopCheck => event is StopSignalRead,
        Phase::AwaitWork => event is WorkDone,
        Phase::AwaitDriverClose => event is DriverClosed,
        Phase::AwaitContextClose => event is ContextClosed,
        Phase::Done => false,
    }
}

/// How many actions of `kind` stand in `actions`.
pub open spec fn count(actions: Seq<Action>, kind: ActionKind) -> nat
    decreases actions.len(),
{
    if actions.len() == 0 {
        0
    } else {
        count(actions.drop_last(), kind) + if kind_of(actions.last()) == kind {
            1nat
        } else {
            0nat
        }
    }
}

/// The last outcome that the run `events` took while it stood in `phase`: the event that
/// it waited for there, if one has come.
pub open spec fn outcome_in(events: Seq<Event>, phase: Phase) -> Option<Event>
    decreases events.len(),
{
    if events.len() == 0 {
        None
    } else if replay(events.drop_last()).phase == phase && awaited(phase, events.last()) {
        Some(events.last())
    } else {
        outcome_in(events.drop_last(), phase)
    }
}

/// The handle of the configuration, once its initializer has reported success.
pub open spec fn context_acquired(events: Seq<Event>) -> Option<ContextHandle> {
    match outcome_in(events, Phase::AwaitContextInit) {
        Some(Event::ContextInitialized { status, context }) => if status >= 0 {
            Some(context)
        } else {
            None
        },
        _ => None,
    }
}

/// The status of the configuration's initializer, once it has reported a failure.
pub open spec fn context_failed(events: Seq<Event>) -> Option<i32> {
    match outcome_in(events, Phase::AwaitContextInit) {
        Some(Event::ContextInitialized { status, context }) => if status < 0 {
            Some(status)
        } else {
            None
        },
        _ => None,
    }
}

/// The handle of the service, once its initializer has reported success.
pub open spec fn driver_acquired(events: Seq<Event>) -> Option<DriverHandle> {
    match outcome_in(events, Phase::AwaitDriverInit) {
        Some(Event::DriverInitialized { status, driver }) => if status >= 0 {
            Some(driver)
        } else {
            None
        },
        _ => None,
    }
}

/// The status of the service's initializer, once it has reported a failure.
pub open spec fn driver_failed(events: Seq<Event>) -> Option<i32> {
    match outcome_in(events, Phase::AwaitDriverInit) {
        Some(Event::DriverInitialized { status, driver }) => if status < 0 {
            Some(status)
        } else {
            None
        },
        _ => None,
    }
}

/// Whether the start call has reported success.
pub open spec fn start_succeeded(events: Seq<Event>) -> bool {
    match outcome_in(events, Phase::AwaitStart) {
        Some(Event::DriverStarted { status }) => status >= 0,
        _ => false,
    }
}

/// The status of the start call, once it has reported a failure.
pub open spec fn start_failed(events: Seq<Event>) -> Option<i32> {
    match outcome_in(events, Phase::AwaitStart) {
        Some(Event::DriverStarted { status }) => if status < 0 {
            Some(status)
        } else {
            None
        },
        _ => None,
    }
}

/// Whether the work loop has read the stop signal and found a stop requested.
pub open spec fn stop_observed(events: Seq<Event>) -> bool {
    outcome_in(events, Phase::AwaitStopCheck) == Some(Event::StopSignalRead { running: false })
}

/// Whether the caller has given the run up before it was done.
pub open spec fn was_abandoned(events: Seq<Event>) -> bool
    decreases events.len(),
{
    if events.len() == 0 {
        false
    } else {
        was_abandoned(events.drop_last()) || (events.last() is Abandoned && replay(
            events.drop_last(),
        ).phase != Phase::Done)
    }
}

/// The failure that the outcomes of the run `events` amount to, if any did fail.
pub open spec fn failure_of(events: Seq<Event>) -> Option<DriverError> {
    if context_failed(events) is Some {
        Some(
            DriverError::InitializationError {
                resource: ResourceKind::Context,
                code: context_failed(events)->0,
            },
        )
    } else if driver_failed(events) is Some {
        Some(
            DriverError::InitializationError {
                resource: ResourceKind::Driver,
                code: driver_failed(events)->0,
            },
        )
    } else if start_failed(events) is Some {
        Some(DriverError::StartError { code: start_failed(events)->0 })
    } else {
        None
    }
}

/// Whether `action` names the handle that was acquired for the resource it is about,
/// and, for an exit, the code of the run.
pub open spec fn well_addressed(
    action: Action,
    context: Option<ContextHandle>,
    driver: Option<DriverHandle>,
    code: i32,
) -> bool {
    match action {
        Action::ReportConfig { context: named } => context == Some(named),
        Action::InitDriver { context: named } => context == Some(named),
        Action::CloseContext { context: named } => context == Some(named),
        Action::StartDriver { driver: named } => driver == Some(named),
        Action::DoWork { driver: named } => driver == Some(named),
        Action::CloseDriver { driver: named } => driver == Some(named),
        Action::Exit { code: named } => named == code,
        _ => true,
    }
}

spec fn closing(phase: Phase) -> bool {
    phase == Phase::AwaitDriverClose || phase == Phase::AwaitContextClose || phase == Phase::Done
}

spec fn coherent(events: Seq<Event>) -> bool {
    let m = replay(events);
    let t = trace(events);
    let ca = context_acquired(events);
    let cf = context_failed(events);
    let da = driver_acquired(events);
    let df = driver_failed(events);
    let ss = start_succeeded(events);
    let sf = start_failed(events);
    let so = stop_observed(events);
    &&& t.len() == events.len() + 1
    &&& count(t, ActionKind::InitContext) == 1
    &&& count(t, ActionKind::CloseContext) == if m.context is Released {
        1nat
    } else {
        0nat
    }
    &&& count(t, ActionKind::CloseDriver) == if m.driver is Released {
        1nat
    } else {
        0nat
    }
    &&& count(t, ActionKind::Exit) > 0 ==> m.phase == Phase::Done
    &&& count(t, ActionKind::InitDriver) > 0 ==> ca is Some
    &&& count(t, ActionKind::DoWork) > 0 ==> ss
    &&& count(t, ActionKind::ReadStopSignal) > 0 ==> ss
    &&& forall|i: int| 0 <= i < t.len() ==> well_addressed(#[trigger] t[i], ca, da, exit_code(m))
    &&& m.context is Vacant <==> ca is None
    &&& m.context is Live ==> ca == Some(m.context->Live_0)
    &&& m.driver is Vacant <==> da is None
    &&& m.driver is Live ==> da == Some(m.driver->Live_0)
    &&& m.driver is Live ==> m.context is Live
    &&& m.started == ss
    &&& m.failure == failure_of(events)
    &&& m.abandoned == was_abandoned(events)
    &&& closing(m.phase) <==> (m.failure is Some || so || m.abandoned)
    &&& m.failure is Some ==> !so
    &&& outcome_in(events, Phase::AwaitDriverInit) is Some ==> ca is Some
    &&& outcome_in(events, Phase::AwaitStart) is Some ==> da is Some
    &&& outcome_in(events, Phase::AwaitStopCheck) is Some ==> ss
    &&& match m.phase {
        Phase::AwaitContextInit => {
            &&& outcome_in(events, Phase::AwaitContextInit) is None
            &&& outcome_in(events, Phase::AwaitDriverInit) is None
            &&& outcome_in(events, Phase::AwaitStart) is None
            &&& outcome_in(events, Phase::AwaitStopCheck) is None
        },
        Phase::AwaitConfigReport => {
            &&& m.context is Live
            &&& outcome_in(events, Phase::AwaitDriverInit) is None
            &&& outcome_in(events, Phase::AwaitStart) is None
            &&& outcome_in(events, Phase::AwaitStopCheck) is None
        },
        Phase::AwaitDriverInit => {
            &&& m.context is Live
            &&& outcome_in(events, Phase::AwaitDriverInit) is None
            &&& outcome_in(events, Phase::AwaitStart) is None
            &&& outcome_in(events, Phase::AwaitStopCheck) is None
        },
        Phase::AwaitStart => {
            &&& m.driver is Live
            &&& outcome_in(events, Phase::AwaitStart) is None
            &&& outcome_in(events, Phase::AwaitStopCheck) is None
        },
        Phase::AwaitStopCheck => {
            &&& m.driver is Live
            &&& ss
        },
        Phase::AwaitWork => {
            &&& m.driver is Live
            &&& ss
        },
        Phase::AwaitDriverClose => {
            &&& m.context is Live
            &&& m.driver is Released
        },
        Phase::AwaitContextClose => {
            &&& m.context is Released
            &&& !(m.driver is Live)
        },
        Phase::Done => {
            &&& !(m.context is Live)
            &&& !(m.driver is Live)
        },
    }
}

/// Counting over a sequence that grew by one action.
pub proof fn lemma_count_push(actions: Seq<Action>, action: Action, kind: ActionKind)
    ensures
        count(actions.push(action), kind) == count(actions, kind) + if kind_of(action) == kind {
            1nat
        } else {
            0nat
        },
{
    assert(actions.push(action).drop_last() =~= actions);
}

/// A kind is counted as often as it occurs: never, where no action is of it, and at
/// least once, where one is.
pub proof fn lemma_count_occurs(actions: Seq<Action>, kind: ActionKind)
    ensures
        count(actions, kind) == 0 <==> forall|i: int|
            0 <= i < actions.len() ==> kind_of(#[trigger] actions[i]) != kind,
        count(actions, kind) <= actions.len(),
    decreases actions.len(),
{
    if actions.len() > 0 {
        let rest = actions.drop_last();
        lemma_count_occurs(rest, kind);
        if count(actions, kind) == 0 {
            assert forall|i: int| 0 <= i < actions.len() implies kind_of(#[trigger] actions[i])
                != kind by {
                if i < rest.len() {
                    assert(actions[i] == rest[i]);
                }
            }
        } else {
            if kind_of(actions.last()) != kind {
                let i = choose|i: int| 0 <= i < rest.len() && kind_of(#[trigger] rest[i]) == kind;
                assert(actions[i] == rest[i]);
            }
        }
    }
}

proof fn lemma_counts_after_step(
    actions: Seq<Action>,
    action: Action,
)
    ensures
        forall|kind: ActionKind|
            #[trigger] count(actions.push(action), kind) == count(actions, kind) + if kind_of(action)
                == kind {
                1nat
            } else {
                0nat
            },
{
    assert forall|kind: ActionKind|
        #[trigger] count(actions.push(action), kind) == count(actions, kind) + if kind_of(action)
            == kind {
            1nat
        } else {
            0nat
        } by {
        lemma_count_push(actions, action, kind);
    }
}

proof fn lemma_coherent(events: Seq<Event>)
    ensures
        coherent(events),
    decreases events.len(),
{
    if events.len() == 0 {
        assert(trace(events) =~= seq![Action::InitContext]);
        lemma_counts_after_step(Seq::empty(), Action::InitContext);
        assert(Seq::<Action>::empty().push(Action::InitContext) =~= seq![Action::InitContext]);
    } else {
        let before = events.drop_last();
        let event = events.last();
        lemma_coherent(before);
        lemma_counts_after_step(trace(before), spec_step(replay(before), event).1);
        lemma_count_occurs(trace(before), ActionKind::Exit);
        assert forall|i: int| 0 <= i < trace(events).len() implies well_addressed(
            #[trigger] trace(events)[i],
            context_acquired(events),
            driver_acquired(events),
            exit_code(replay(events)),
        ) by {
            if i < trace(before).len() {
                assert(trace(events)[i] == trace(before)[i]);
            }
        }
    }
}

/// Whether every action of kind `first` in `actions` stands before every action of kind
/// `then`.
pub open spec fn precedes(actions: Seq<Action>, first: ActionKind, then: ActionKind) -> bool {
    forall|i: int, j: int|
        0 <= i < actions.len() && 0 <= j < actions.len() && kind_of(#[trigger] actions[i]) == then
            && kind_of(#[trigger] actions[j]) == first ==> j < i
}

proof fn lemma_order(events: Seq<Event>)
    ensures
        precedes(trace(events), ActionKind::CloseDriver, ActionKind::CloseContext),
        precedes(trace(events), ActionKind::CloseDriver, ActionKind::Exit),
        precedes(trace(events), ActionKind::CloseContext, ActionKind::Exit),
    decreases events.len(),
{
    if events.len() > 0 {
        let before = events.drop_last();
        let old_trace = trace(before);
        let action = spec_step(replay(before), events.last()).1;
        lemma_order(before);
        lemma_coherent(before);
        lemma_count_occurs(old_trace, ActionKind::CloseContext);
        lemma_count_occurs(old_trace, ActionKind::Exit);
        assert forall|i: int| 0 <= i < old_trace.len() implies trace(events)[i] == old_trace[i] by {}
        assert(trace(events)[old_trace.len() as int] == action);
        if kind_of(action) == ActionKind::CloseDriver {
            assert(count(old_trace, ActionKind::CloseContext) == 0);
            assert(count(old_trace, ActionKind::Exit) == 0);
        }
        if kind_of(action) == ActionKind::CloseContext {
            assert(count(old_trace, ActionKind::Exit) == 0);
        }
    }
}

proof fn lemma_stop_is_final(events: Seq<Event>, seen: int)
    requires
        0 <= seen <= events.len(),
        stop_observed(events.take(seen)),
    ensures
        stop_observed(events),
        closing(replay(events).phase),
    decreases events.len() - seen,
{
    if seen == events.len() {
        assert(events.take(seen) =~= events);
        lemma_coherent(events);
    } else {
        let before = events.drop_last();
        assert(before.take(seen) =~= events.take(seen));
        lemma_stop_is_final(before, seen);
        lemma_coherent(before);
        lemma_coherent(events);
    }
}

/// The finalizer of each resource is asked for at most once, only for a handle whose
/// initializer reported success, and with that handle. A run that is done has asked for
/// the finalizer of every handle that it acquired, once.
pub proof fn law_finalizers_run_exactly_once(events: Seq<Event>)
    ensures
        count(trace(events), ActionKind::CloseContext) <= 1,
        count(trace(events), ActionKind::CloseDriver) <= 1,
        count(trace(events), ActionKind::CloseContext) == 1 ==> context_acquired(events) is Some,
        count(trace(events), ActionKind::CloseDriver) == 1 ==> driver_acquired(events) is Some,
        forall|i: int|
            0 <= i < trace(events).len() ==> match #[trigger] trace(events)[i] {
                Action::CloseContext { context } => context_acquired(events) == Some(context),
                Action::CloseDriver { driver } => driver_acquired(events) == Some(driver),
                _ => true,
            },
        replay(events).phase == Phase::Done ==> {
            &&& count(trace(events), ActionKind::CloseContext) == 1 <==> context_acquired(events)
                is Some
            &&& count(trace(events), ActionKind::CloseDriver) == 1 <==> driver_acquired(events)
                is Some
        },
{
    lemma_coherent(events);
    assert forall|i: int| 0 <= i < trace(events).len() implies match #[trigger] trace(events)[i] {
        Action::CloseContext { context } => context_acquired(events) == Some(context),
        Action::CloseDriver { driver } => driver_acquired(events) == Some(driver),
        _ => true,
    } by {
        assert(well_addressed(
            trace(events)[i],
            context_acquired(events),
            driver_acquired(events),
            exit_code(replay(events)),
        ));
    }
}

/// Every action names the handle that was acquired for the resource that it is about:
/// no native call is ever asked for on a handle that no initializer produced.
pub proof fn law_actions_name_acquired_handles(events: Seq<Event>, i: int)
    requires
        0 <= i < trace(events).len(),
    ensures
        well_addressed(
            trace(events)[i],
            context_acquired(events),
            driver_acquired(events),
            exit_code(replay(events)),
        ),
{
    lemma_coherent(events);
}

/// Where the initializer of the configuration fails, the run is over: the service's
/// initializer is never asked for, no finalizer is, and the exit code reports the
/// failure with its status.
pub proof fn law_failed_context_builds_nothing(events: Seq<Event>)
    requires
        context_failed(events) is Some,
    ensures
        count(trace(events), ActionKind::InitDriver) == 0,
        count(trace(events), ActionKind::CloseDriver) == 0,
        count(trace(events), ActionKind::CloseContext) == 0,
        context_acquired(events) is None,
        driver_acquired(events) is None,
        replay(events).phase == Phase::Done,
        replay(events).failure == Some(
            DriverError::InitializationError {
                resource: ResourceKind::Context,
                code: context_failed(events)->0,
            },
        ),
        exit_code(replay(events)) == EXIT_FAILURE,
{
    lemma_coherent(events);
}

/// Where the initializer of the service fails, or its start, the configuration was
/// acquired and its finalizer is asked for before the process is told to exit: a run
/// that is done has asked for it once, and no exit stands before it in the trace.
pub proof fn law_context_is_finalized_after_failure(events: Seq<Event>)
    requires
        driver_failed(events) is Some || start_failed(events) is Some,
    ensures
        context_acquired(events) is Some,
        replay(events).failure is Some,
        replay(events).phase == Phase::Done ==> count(trace(events), ActionKind::CloseContext) == 1,
        count(trace(events), ActionKind::Exit) > 0 ==> count(trace(events), ActionKind::CloseContext)
            == 1,
        precedes(trace(events), ActionKind::CloseContext, ActionKind::Exit),
        exit_code(replay(events)) == EXIT_FAILURE,
{
    lemma_coherent(events);
    lemma_order(events);
}

/// The teardown runs in the order of dependency, on every path: the finalizer of the
/// service is asked for before that of the configuration and both before the exit, and
/// the configuration of a service that was acquired is not finalized unless the service
/// was.
pub proof fn law_teardown_order(events: Seq<Event>)
    ensures
        precedes(trace(events), ActionKind::CloseDriver, ActionKind::CloseContext),
        precedes(trace(events), ActionKind::CloseDriver, ActionKind::Exit),
        precedes(trace(events), ActionKind::CloseContext, ActionKind::Exit),
        driver_acquired(events) is Some && count(trace(events), ActionKind::CloseContext) == 1
            ==> count(trace(events), ActionKind::CloseDriver) == 1,
{
    lemma_coherent(events);
    lemma_order(events);
}

/// A service never outlives its configuration: while the service is live, so is the
/// configuration that it was built from.
pub proof fn law_service_never_outlives_configuration(events: Seq<Event>)
    ensures
        replay(events).driver is Live ==> replay(events).context is Live,
        context_acquired(events) is None ==> driver_acquired(events) is None,
{
    lemma_coherent(events);
}

/// An initializer's outcome always finds the run as it should be: nothing is owned when
/// the configuration's comes, and a live configuration and no service when the
/// service's comes. So no handle that an initializer produced is ever refused.
pub proof fn law_initializers_find_their_place(events: Seq<Event>)
    ensures
        replay(events).phase == Phase::AwaitContextInit ==> replay(events).context is Vacant
            && replay(events).driver is Vacant,
        replay(events).phase == Phase::AwaitConfigReport || replay(events).phase
            == Phase::AwaitDriverInit ==> replay(events).context is Live && replay(
            events,
        ).driver is Vacant,
{
    lemma_coherent(events);
}

/// Once the work loop has read the stop signal and found a stop requested, no further
/// unit of work is asked for and the signal is not read again: `seen` is the number of
/// events after which the stop had been observed.
pub proof fn law_no_work_after_stop(events: Seq<Event>, seen: int)
    requires
        0 <= seen <= events.len(),
        stop_observed(events.take(seen)),
    ensures
        stop_observed(events),
        forall|j: int|
            seen < j < trace(events).len() ==> {
                &&& kind_of(#[trigger] trace(events)[j]) != ActionKind::DoWork
                &&& kind_of(trace(events)[j]) != ActionKind::ReadStopSignal
            },
    decreases events.len() - seen,
{
    lemma_stop_is_final(events, seen);
    lemma_coherent(events);
    if seen < events.len() {
        let before = events.drop_last();
        assert(before.take(seen) =~= events.take(seen));
        law_no_work_after_stop(before, seen);
        lemma_stop_is_final(before, seen);
        lemma_coherent(before);
        assert forall|j: int| seen < j < trace(events).len() implies {
            &&& kind_of(#[trigger] trace(events)[j]) != ActionKind::DoWork
            &&& kind_of(trace(events)[j]) != ActionKind::ReadStopSignal
        } by {
            if j < trace(before).len() {
                assert(trace(events)[j] == trace(before)[j]);
            }
        }
    }
}

proof fn lemma_abandon_is_final(events: Seq<Event>, seen: int)
    requires
        0 <= seen <= events.len(),
        was_abandoned(events.take(seen)),
    ensures
        was_abandoned(events),
        closing(replay(events).phase),
    decreases events.len() - seen,
{
    if seen == events.len() {
        assert(events.take(seen) =~= events);
        lemma_coherent(events);
    } else {
        let before = events.drop_last();
        assert(before.take(seen) =~= events.take(seen));
        lemma_abandon_is_final(before, seen);
        lemma_coherent(events);
    }
}

/// A run that was given up only tears down: from then on every action is a finalizer, the
/// exit, or nothing, in the order of every teardown, and the run ends with the failure
/// code. `seen` is the number of events after which the run had been given up.
pub proof fn law_abandoned_run_only_tears_down(events: Seq<Event>, seen: int)
    requires
        0 <= seen <= events.len(),
        was_abandoned(events.take(seen)),
    ensures
        was_abandoned(events),
        forall|j: int|
            seen < j < trace(events).len() ==> {
                ||| kind_of(#[trigger] trace(events)[j]) == ActionKind::CloseDriver
                ||| kind_of(trace(events)[j]) == ActionKind::CloseContext
                ||| kind_of(trace(events)[j]) == ActionKind::Exit
                ||| kind_of(trace(events)[j]) == ActionKind::Wait
            },
        precedes(trace(events), ActionKind::CloseDriver, ActionKind::CloseContext),
        precedes(trace(events), ActionKind::CloseContext, ActionKind::Exit),
        replay(events).phase == Phase::Done ==> exit_code(replay(events)) == EXIT_FAILURE,
    decreases events.len() - seen,
{
    lemma_abandon_is_final(events, seen);
    lemma_coherent(events);
    lemma_order(events);
    if seen < events.len() {
        let before = events.drop_last();
        assert(before.take(seen) =~= events.take(seen));
        law_abandoned_run_only_tears_down(before, seen);
        lemma_abandon_is_final(before, seen);
        lemma_coherent(before);
        assert forall|j: int| seen < j < trace(events).len() implies {
            ||| kind_of(#[trigger] trace(events)[j]) == ActionKind::CloseDriver
            ||| kind_of(trace(events)[j]) == ActionKind::CloseContext
            ||| kind_of(trace(events)[j]) == ActionKind::Exit
            ||| kind_of(trace(events)[j]) == ActionKind::Wait
        } by {
            if j < trace(before).len() {
                assert(trace(events)[j] == trace(before)[j]);
            }
        }
    }
}

/// The work loop polls without a pause while work is done: a unit of work that returned
/// a count other than zero is followed by the next one at once, whatever the stop signal
/// holds by then, and only an idle one is followed by a reading of the signal. A reading
/// that finds no stop requested begins the next round of work.
pub proof fn law_busy_polling(m: Model, driver: DriverHandle, count: i32)
    requires
        m.driver == Slot::Live(driver),
        m.started,
    ensures
        m.phase == Phase::AwaitWork && count != 0 ==> spec_step(m, Event::WorkDone { count }) == (
            m,
            Action::DoWork { driver },
        ),
        m.phase == Phase::AwaitWork && count == 0 ==> spec_step(m, Event::WorkDone { count }) == (
            Model { phase: Phase::AwaitStopCheck, ..m },
            Action::ReadStopSignal,
        ),
        m.phase == Phase::AwaitStopCheck ==> spec_step(m, Event::StopSignalRead { running: true })
            == (Model { phase: Phase::AwaitWork, ..m }, Action::DoWork { driver }),
        m.phase == Phase::AwaitStopCheck ==> spec_step(m, Event::StopSignalRead { running: false })
            == (
            Model { phase: Phase::AwaitDriverClose, driver: Slot::Released, ..m },
            Action::CloseDriver { driver },
        ),
{
}

/// A finalizer that fails stops nothing: its status adds a warning and changes neither
/// the failure of the run nor what is done next.
pub proof fn law_teardown_failures_are_absorbed(m: Model, status: i32)
    ensures
        m.phase == Phase::AwaitDriverClose ==> {
            let next = spec_step(m, Event::DriverClosed { status });
            let clean = spec_step(m, Event::DriverClosed { status: 0 });
            &&& next.1 == clean.1
            &&& next.0 == Model { warnings: warn(m, ResourceKind::Driver, status).warnings, ..clean.0 }
            &&& next.0.failure == m.failure
        },
        m.phase == Phase::AwaitContextClose ==> {
            let next = spec_step(m, Event::ContextClosed { status });
            let clean = spec_step(m, Event::ContextClosed { status: 0 });
            &&& next.1 == clean.1
            &&& next.0 == Model {
                warnings: warn(m, ResourceKind::Context, status).warnings,
                ..clean.0
            }
            &&& next.0.failure == m.failure
        },
{
}

/// An event that a run does not take changes nothing and asks for nothing.
pub proof fn law_unawaited_events_change_nothing(m: Model, event: Event)
    requires
        m.phase != Phase::Done,
        !awaited(m.phase, event),
    ensures
        spec_step(m, event) == (m, Action::Wait),
{
}

/// An access error never ends a run: the supervisor asks a wrapper for its handle only
/// while the wrapper is live. The failure of a run is the first outcome that failed.
pub proof fn law_failure_is_the_failed_outcome(events: Seq<Event>)
    ensures
        replay(events).failure == failure_of(events),
        replay(events).failure != Some(DriverError::AccessError),
{
    lemma_coherent(events);
}

/// A run that is done exits cleanly if and only if a stop was observed and the run was
/// not given up, and with the failure code if and only if an initializer or the start
/// failed or the run was given up.
pub proof fn law_exit_code(events: Seq<Event>)
    requires
        replay(events).phase == Phase::Done,
    ensures
        exit_code(replay(events)) == EXIT_CLEAN <==> stop_observed(events) && !was_abandoned(
            events,
        ),
        exit_code(replay(events)) == EXIT_FAILURE <==> (context_failed(events) is Some
            || driver_failed(events) is Some || start_failed(events) is Some || was_abandoned(
            events,
        )),
        forall|i: int|
            0 <= i < trace(events).len() ==> match #[trigger] trace(events)[i] {
                Action::Exit { code } => code == exit_code(replay(events)),
                _ => true,
            },
{
    lemma_coherent(events);
    assert forall|i: int| 0 <= i < trace(events).len() implies match #[trigger] trace(events)[i] {
        Action::Exit { code } => code == exit_code(replay(events)),
        _ => true,
    } by {
        assert(well_addressed(
            trace(events)[i],
            context_acquired(events),
            driver_acquired(events),
            exit_code(replay(events)),
        ));
    }
}

} // verus!
