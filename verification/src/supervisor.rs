use crate::chain::{
    driver_build_error, start_outcome, work_outcome, AeronContext, AeronDriver, ContextHandle,
    DriverHandle, DriverState,
};
use crate::error::{
    teardown_warning, DriverError, ResourceKind, TeardownWarning, EXIT_CLEAN, EXIT_FAILURE,
};
use vstd::prelude::*;

verus! {

/// Where the supervised run stands: which outcome it is waiting for.
#[derive(Clone, Copy, Debug, PartialEq, Eq, Structural)]
pub enum Phase {
    /// The configuration's initializer is running.
    AwaitContextInit,
    /// The configuration snapshot is being reported.
    AwaitConfigReport,
    /// The service's initializer is running.
    AwaitDriverInit,
    /// The service is being started.
    AwaitStart,
    /// The stop signal is being read, between two outer iterations of the work loop.
    AwaitStopCheck,
    /// A unit-of-work call is running.
    AwaitWork,
    /// The service's finalizer is running.
    AwaitDriverClose,
    /// The configuration's finalizer is running.
    AwaitContextClose,
    /// Nothing is owned any more; the process is to exit.
    Done,
}

/// What the caller reports back: the outcome of the native call, or of the other outside
/// work, that the last action asked for.
#[derive(Clone, Copy, Debug, PartialEq, Eq, Structural)]
pub enum Event {
    /// The configuration's initializer returned `status` and left `context` in its slot.
    ContextInitialized { status: i32, context: ContextHandle },
    /// The configuration snapshot was read and shown.
    ConfigReported,
    /// The service's initializer returned `status` and left `driver` in its slot.
    DriverInitialized { status: i32, driver: DriverHandle },
    /// The start call returned `status`.
    DriverStarted { status: i32 },
    /// The stop signal was read: `running` is false once a stop was requested.
    StopSignalRead { running: bool },
    /// A unit-of-work call returned `count`.
    WorkDone { count: i32 },
    /// The service's finalizer returned `status`.
    DriverClosed { status: i32 },
    /// The configuration's finalizer returned `status`.
    ContextClosed { status: i32 },
    /// The caller gives the run up where it stands, whatever it was waiting for: what is
    /// owned is to be finalized, in order, and the process is to leave with a failure.
    Abandoned,
}

/// What the caller is to do next.
#[derive(Clone, Copy, Debug, PartialEq, Eq, Structural)]
pub enum Action {
    /// Call the configuration's initializer.
    InitContext,
    /// Read the configuration through `context` and show the snapshot.
    ReportConfig { context: ContextHandle },
    /// Call the service's initializer with `context`.
    InitDriver { context: ContextHandle },
    /// Start `driver`.
    StartDriver { driver: DriverHandle },
    /// Read the stop signal.
    ReadStopSignal,
    /// Call the unit-of-work entry point of `driver`, once.
    DoWork { driver: DriverHandle },
    /// Call the finalizer of `driver`.
    CloseDriver { driver: DriverHandle },
    /// Call the finalizer of `context`.
    CloseContext { context: ContextHandle },
    /// Leave the process with `code`.
    Exit { code: i32 },
    /// Nothing new: the event was not the outcome that is awaited, and changed nothing.
    Wait,
}

/// The life of one native resource as the supervisor sees it.
pub enum Slot<T> {
    /// No handle was ever acquired.
    Vacant,
    /// The handle is owned.
    Live(T),
    /// The handle was given up to its finalizer.
    Released,
}

impl<T> Slot<T> {
    /// The handle, while it is owned.
    pub open spec fn live(self) -> Option<T> {
        match self {
            Slot::Live(handle) => Some(handle),
            _ => None,
        }
    }

    /// Whether a handle was ever acquired.
    pub open spec fn acquired(self) -> bool {
        !(self is Vacant)
    }
}

/// The state of a supervised run.
pub struct Model {
    pub phase: Phase,
    pub context: Slot<ContextHandle>,
    pub driver: Slot<DriverHandle>,
    pub started: bool,
    pub failure: Option<DriverError>,
    pub abandoned: bool,
    pub warnings: Seq<TeardownWarning>,
}

/// The state in which every run begins: nothing is owned, and the configuration's
/// initializer has just been asked for.
pub open spec fn initial() -> Model {
    Model {
        phase: Phase::AwaitContextInit,
        context: Slot::Vacant,
        driver: Slot::Vacant,
        started: false,
        failure: None,
        abandoned: false,
        warnings: Seq::empty(),
    }
}

/// The exit code of a run in state `m`: clean unless a failure was recorded or the run
/// was given up.
pub open spec fn exit_code(m: Model) -> i32 {
    if m.failure is Some || m.abandoned {
        EXIT_FAILURE
    } else {
        EXIT_CLEAN
    }
}

/// What the supervisor knows of the service, in the terms of [`AeronDriver`].
pub open spec fn driver_state(m: Model) -> DriverState {
    DriverState { handle: m.driver.live(), started: m.started, context: m.context.live() }
}

/// The next step of the teardown: the service goes first, the configuration follows
/// once no service is live, and the process exits once nothing is.
pub open spec fn teardown(m: Model) -> (Model, Action) {
    match m.driver {
        Slot::Live(driver) => (
            Model { phase: Phase::AwaitDriverClose, driver: Slot::Released, ..m },
            Action::CloseDriver { driver },
        ),
        _ => match m.context {
            Slot::Live(context) => (
                Model { phase: Phase::AwaitContextClose, context: Slot::Released, ..m },
                Action::CloseContext { context },
            ),
            _ => (Model { phase: Phase::Done, ..m }, Action::Exit { code: exit_code(m) }),
        },
    }
}

/// Records `error` as the failure of the run and begins the teardown.
pub open spec fn fail(m: Model, error: DriverError) -> (Model, Action) {
    teardown(Model { failure: Some(error), ..m })
}

/// Records the status of a finalizer: a negative one adds a warning, nothing else
/// changes.
pub open spec fn warn(m: Model, resource: ResourceKind, status: i32) -> Model {
    match teardown_warning(resource, status) {
        Some(warning) => Model { warnings: m.warnings.push(warning), ..m },
        None => m,
    }
}

/// One step of the run: the state and the action that follow `event` in state `m`. An
/// event that is not the awaited outcome changes nothing and asks for nothing. An
/// initializer's outcome is taken only where nothing is yet owned of that kind; where
/// something is, the run fails with an access error and tears down what it owns.
pub open spec fn spec_step(m: Model, event: Event) -> (Model, Action) {
    if event is Abandoned && m.phase != Phase::Done {
        teardown(Model { abandoned: true, ..m })
    } else {
        spec_step_awaited(m, event)
    }
}

/// The step of a run that was not given up: what follows the awaited outcome.
pub open spec fn spec_step_awaited(m: Model, event: Event) -> (Model, Action) {
    match m.phase {
        Phase::AwaitContextInit => match event {
            Event::ContextInitialized { status, context } => if !(m.driver is Vacant) {
                fail(m, DriverError::AccessError)
            } else if status < 0 {
                fail(
                    m,
                    DriverError::InitializationError {
                        resource: ResourceKind::Context,
                        code: status,
                    },
                )
            } else {
                (
                    Model { phase: Phase::AwaitConfigReport, context: Slot::Live(context), ..m },
                    Action::ReportConfig { context },
                )
            },
            _ => (m, Action::Wait),
        },
        Phase::AwaitConfigReport => match event {
            Event::ConfigReported => match m.context.live() {
                Some(context) => (
                    Model { phase: Phase::AwaitDriverInit, ..m },
                    Action::InitDriver { context },
                ),
                None => fail(m, DriverError::AccessError),
            },
            _ => (m, Action::Wait),
        },
        Phase::AwaitDriverInit => match event {
            Event::DriverInitialized { status, driver } => if m.context is Vacant || !(m.driver
                is Vacant) {
                fail(m, DriverError::AccessError)
            } else {
                match driver_build_error(m.context.live(), status) {
                    Some(error) => fail(m, error),
                    None => (
                        Model {
                            phase: Phase::AwaitStart,
                            driver: Slot::Live(driver),
                            started: false,
                            ..m
                        },
                        Action::StartDriver { driver },
                    ),
                }
            },
            _ => (m, Action::Wait),
        },
        Phase::AwaitStart => match event {
            Event::DriverStarted { status } => match start_outcome(driver_state(m), status) {
                Ok(_) => (
                    Model { phase: Phase::AwaitStopCheck, started: true, ..m },
                    Action::ReadStopSignal,
                ),
                Err(error) => fail(m, error),
            },
            _ => (m, Action::Wait),
        },
        Phase::AwaitStopCheck => match event {
            Event::StopSignalRead { running } => if !running {
                teardown(m)
            } else if m.started && m.driver.live() is Some {
                (Model { phase: Phase::AwaitWork, ..m }, Action::DoWork { driver: m.driver.live()->0 })
            } else {
                fail(m, DriverError::AccessError)
            },
            _ => (m, Action::Wait),
        },
        Phase::AwaitWork => match event {
            Event::WorkDone { count } => match work_outcome(driver_state(m), count) {
                Ok(more) => if more {
                    (m, Action::DoWork { driver: m.driver.live()->0 })
                } else {
                    (Model { phase: Phase::AwaitStopCheck, ..m }, Action::ReadStopSignal)
                },
                Err(error) => fail(m, error),
            },
            _ => (m, Action::Wait),
        },
        Phase::AwaitDriverClose => match event {
            Event::DriverClosed { status } => teardown(warn(m, ResourceKind::Driver, status)),
            _ => (m, Action::Wait),
        },
        Phase::AwaitContextClose => match event {
            Event::ContextClosed { status } => teardown(warn(m, ResourceKind::Context, status)),
            _ => (m, Action::Wait),
        },
        Phase::Done => (m, Action::Exit { code: exit_code(m) }),
    }
}

/// The state of a run after the caller has reported `events`, in their order.
pub open spec fn replay(events: Seq<Event>) -> Model
    decreases events.len(),
{
    if events.len() == 0 {
        initial()
    } else {
        spec_step(replay(events.drop_last()), events.last()).0
    }
}

/// The actions that the supervisor has asked for in the run `events`: the first one,
/// which begins the run, and then one in answer to every event.
pub open spec fn trace(events: Seq<Event>) -> Seq<Action>
    decreases events.len(),
{
    if events.len() == 0 {
        seq![Action::InitContext]
    } else {
        trace(events.drop_last()).push(spec_step(replay(events.drop_last()), events.last()).1)
    }
}

/// The supervisor of one run of the driver. It owns the two resources, decides at every
/// step what is to be done next, and never performs a native call itself: the caller
/// performs the action and reports its outcome as the next event.
pub struct Supervisor {
    phase: Phase,
    /// The configuration, until a service takes it over.
    context: Option<AeronContext>,
    /// The service, which owns the configuration that it was built from.
    driver: Option<AeronDriver>,
    failure: Option<DriverError>,
    abandoned: bool,
    warnings: Vec<TeardownWarning>,
}

impl View for Supervisor {
    type V = Model;

    closed spec fn view(&self) -> Model {
        Model {
            phase: self.phase,
            context: match self.driver {
                Some(driver) => match driver@.context {
                    Some(handle) => Slot::Live(handle),
                    None => Slot::Released,
                },
                None => match self.context {
                    None => Slot::Vacant,
                    Some(context) => match context@ {
                        Some(handle) => Slot::Live(handle),
                        None => Slot::Released,
                    },
                },
            },
            driver: match self.driver {
                None => Slot::Vacant,
                Some(driver) => match driver@.handle {
                    Some(handle) => Slot::Live(handle),
                    None => Slot::Released,
                },
            },
            started: match self.driver {
                None => false,
                Some(driver) => driver@.started,
            },
            failure: self.failure,
            abandoned: self.abandoned,
            warnings: self.warnings@,
        }
    }
}

impl Supervisor {
    /// Begins a run. Nothing is owned yet; the first action asks for the configuration's
    /// initializer.
    pub fn new() -> (begun: (Supervisor, Action))
        ensures
            begun.0@ == initial(),
            begun.1 == Action::InitContext,
    {
        let supervisor = Supervisor {
            phase: Phase::AwaitContextInit,
            context: None,
            driver: None,
            failure: None,
            abandoned: false,
            warnings: Vec::new(),
        };
        (supervisor, Action::InitContext)
    }

    /// Takes the outcome of the last action and decides the next one.
    pub fn step(&mut self, event: Event) -> (action: Action)
        ensures
            (final(self)@, action) == spec_step(old(self)@, event),
    {
        if event == Event::Abandoned && self.phase != Phase::Done {
            self.abandoned = true;
            return self.teardown();
        }
        match self.phase {
            Phase::AwaitContextInit => match event {
                Event::ContextInitialized { status, context } => {
                    if self.driver.is_some() {
                        self.fail(DriverError::AccessError)
                    } else {
                        match AeronContext::new(status, context) {
                            Ok(built) => {
                                self.context = Some(built);
                                self.phase = Phase::AwaitConfigReport;
                                Action::ReportConfig { context }
                            },
                            Err(error) => self.fail(error),
                        }
                    }
                },
                _ => Action::Wait,
            },
            Phase::AwaitConfigReport => match event {
                Event::ConfigReported => {
                    let target = match self.context() {
                        Some(context) => context.get(),
                        None => Err(DriverError::AccessError),
                    };
                    match target {
                        Ok(context) => {
                            self.phase = Phase::AwaitDriverInit;
                            Action::InitDriver { context }
                        },
                        Err(error) => self.fail(error),
                    }
                },
                _ => Action::Wait,
            },
            Phase::AwaitDriverInit => match event {
                Event::DriverInitialized { status, driver } => {
                    if self.driver.is_some() {
                        self.fail(DriverError::AccessError)
                    } else {
                        match self.context.take() {
                            Some(context) => match AeronDriver::new(context, status, driver) {
                                Ok(built) => {
                                    self.driver = Some(built);
                                    self.phase = Phase::AwaitStart;
                                    Action::StartDriver { driver }
                                },
                                Err(rejected) => {
                                    self.context = Some(rejected.context);
                                    self.fail(rejected.error)
                                },
                            },
                            None => self.fail(DriverError::AccessError),
                        }
                    }
                },
                _ => Action::Wait,
            },
            Phase::AwaitStart => match event {
                Event::DriverStarted { status } => {
                    let outcome = match &mut self.driver {
                        Some(driver) => driver.start(status),
                        None => Err(DriverError::AccessError),
                    };
                    match outcome {
                        Ok(_) => {
                            self.phase = Phase::AwaitStopCheck;
                            Action::ReadStopSignal
                        },
                        Err(error) => self.fail(error),
                    }
                },
                _ => Action::Wait,
            },
            Phase::AwaitStopCheck => match event {
                Event::StopSignalRead { running } => {
                    if !running {
                        self.teardown()
                    } else {
                        let target = match &self.driver {
                            Some(driver) => if driver.is_started() {
                                driver.get()
                            } else {
                                Err(DriverError::AccessError)
                            },
                            None => Err(DriverError::AccessError),
                        };
                        match target {
                            Ok(driver) => {
                                self.phase = Phase::AwaitWork;
                                Action::DoWork { driver }
                            },
                            Err(error) => self.fail(error),
                        }
                    }
                },
                _ => Action::Wait,
            },
            Phase::AwaitWork => match event {
                Event::WorkDone { count } => {
                    let verdict = match &self.driver {
                        Some(driver) => match driver.do_work(count) {
                            Ok(more) => match driver.get() {
                                Ok(handle) => Ok((more, handle)),
                                Err(error) => Err(error),
                            },
                            Err(error) => Err(error),
                        },
                        None => Err(DriverError::AccessError),
                    };
                    match verdict {
                        Ok((more, driver)) => {
                            if more {
                                Action::DoWork { driver }
                            } else {
                                self.phase = Phase::AwaitStopCheck;
                                Action::ReadStopSignal
                            }
                        },
                        Err(error) => self.fail(error),
                    }
                },
                _ => Action::Wait,
            },
            Phase::AwaitDriverClose => match event {
                Event::DriverClosed { status } => {
                    self.warn(ResourceKind::Driver, status);
                    self.teardown()
                },
                _ => Action::Wait,
            },
            Phase::AwaitContextClose => match event {
                Event::ContextClosed { status } => {
                    self.warn(ResourceKind::Context, status);
                    self.teardown()
                },
                _ => Action::Wait,
            },
            Phase::Done => Action::Exit { code: self.code() },
        }
    }

    /// Rehearses a run: begins it and reports `events` in their order, as a caller would
    /// that performed each action. Gives the supervisor as the run left it, and every
    /// action that it asked for.
    pub fn rehearse(events: &Vec<Event>) -> (run: (Supervisor, Vec<Action>))
        ensures
            run.0@ == replay(events@),
            run.1@ == trace(events@),
    {
        let (mut supervisor, first) = Supervisor::new();
        let mut actions: Vec<Action> = Vec::new();
        actions.push(first);
        let mut i: usize = 0;
        assert(events@.take(0) =~= Seq::<Event>::empty());
        assert(actions@ =~= seq![Action::InitContext]);
        while i < events.len()
            invariant
                i <= events.len(),
                supervisor@ == replay(events@.take(i as int)),
                actions@ == trace(events@.take(i as int)),
            decreases events.len() - i,
        {
            assert(events@.take(i + 1).drop_last() =~= events@.take(i as int));
            let action = supervisor.step(events[i]);
            actions.push(action);
            i = i + 1;
        }
        assert(events@.take(i as int) =~= events@);
        (supervisor, actions)
    }

    /// The phase of the run.
    pub fn phase(&self) -> (phase: Phase)
        ensures
            phase == self@.phase,
    {
        self.phase
    }

    /// The failure that ended the startup sequence, if there was one.
    pub fn failure(&self) -> (failure: Option<DriverError>)
        ensures
            failure == self@.failure,
    {
        self.failure
    }

    /// Whether the caller gave the run up.
    pub fn was_abandoned(&self) -> (abandoned: bool)
        ensures
            abandoned == self@.abandoned,
    {
        self.abandoned
    }

    /// The warnings of the finalizers that failed, in the order in which they ran.
    pub fn warnings(&self) -> (warnings: &Vec<TeardownWarning>)
        ensures
            warnings@ == self@.warnings,
    {
        &self.warnings
    }

    /// The exit code, once the run is done.
    pub fn exit_code(&self) -> (code: Option<i32>)
        ensures
            code == if self@.phase == Phase::Done {
                Some(exit_code(self@))
            } else {
                None
            },
    {
        match self.phase {
            Phase::Done => Some(self.code()),
            _ => None,
        }
    }

    /// The configuration, once it was built, for the snapshot report.
    pub fn context(&self) -> (context: Option<&AeronContext>)
        ensures
            context is Some <==> self@.context.acquired(),
            context is Some ==> context->0@ == self@.context.live(),
    {
        match &self.driver {
            Some(driver) => Some(driver.context()),
            None => self.context.as_ref(),
        }
    }

    /// The service, once it was built.
    pub fn driver(&self) -> (driver: Option<&AeronDriver>)
        ensures
            driver is Some <==> self@.driver.acquired(),
            driver is Some ==> driver->0@ == driver_state(self@),
    {
        self.driver.as_ref()
    }

    fn code(&self) -> (code: i32)
        ensures
            code == exit_code(self@),
    {
        if self.failure.is_some() || self.abandoned {
            EXIT_FAILURE
        } else {
            EXIT_CLEAN
        }
    }

    fn warn(&mut self, resource: ResourceKind, status: i32)
        ensures
            final(self)@ == warn(old(self)@, resource, status),
    {
        match TeardownWarning::from_status(resource, status) {
            Some(warning) => {
                self.warnings.push(warning);
            },
            None => {},
        }
    }

    fn fail(&mut self, error: DriverError) -> (action: Action)
        ensures
            (final(self)@, action) == fail(old(self)@, error),
    {
        self.failure = Some(error);
        self.teardown()
    }

    fn teardown(&mut self) -> (action: Action)
        ensures
            (final(self)@, action) == teardown(old(self)@),
    {
        let driver = match &mut self.driver {
            Some(driver) => driver.close(),
            None => None,
        };
        match driver {
            Some(driver) => {
                self.phase = Phase::AwaitDriverClose;
                Action::CloseDriver { driver }
            },
            None => {
                let context = match &mut self.driver {
                    Some(driver) => driver.close_context(),
                    None => match &mut self.context {
                        Some(context) => context.close(),
                        None => None,
                    },
                };
                match context {
                    Some(context) => {
                        self.phase = Phase::AwaitContextClose;
                        Action::CloseContext { context }
                    },
                    None => {
                        self.phase = Phase::Done;
                        Action::Exit { code: self.code() }
                    },
                }
            },
        }
    }
}

} // verus!
