use crate::config::{render_config, report_text, ConfigEntry};
use crate::error::{DriverError, ResourceKind};
use crate::resource::ManagedCResource;
use vstd::prelude::*;

verus! {

/// The handle of a native configuration resource: the address that its initializer left
/// in the output slot.
#[derive(Clone, Copy, Debug, PartialEq, Eq, Structural)]
pub struct ContextHandle {
    pub address: usize,
}

/// The handle of a native service resource.
#[derive(Clone, Copy, Debug, PartialEq, Eq, Structural)]
pub struct DriverHandle {
    pub address: usize,
}

/// The status that stands for a service initializer that was never given a live
/// configuration: the one that the native layer reports for any failure.
pub const STATUS_NOT_LIVE: i32 = -1;

/// The configuration resource. It depends on nothing. Whoever holds it may release it:
/// a service that is built from it takes it over, so that from then on it can only be
/// released through the service, after the service itself.
pub struct AeronContext {
    resource: ManagedCResource<ContextHandle>,
}

impl View for AeronContext {
    type V = Option<ContextHandle>;

    /// The handle of the configuration while it is live.
    closed spec fn view(&self) -> Option<ContextHandle> {
        self.resource@
    }
}

impl AeronContext {
    /// Builds the configuration from the outcome of its native initializer. A negative
    /// status is an initialization error that carries it, and owns nothing.
    pub fn new(status: i32, handle: ContextHandle) -> (built: Result<Self, DriverError>)
        ensures
            status < 0 ==> built == Err::<Self, DriverError>(
                DriverError::InitializationError { resource: ResourceKind::Context, code: status },
            ),
            status >= 0 ==> built is Ok && built->Ok_0@ == Some(handle),
    {
        match ManagedCResource::new(status, handle) {
            Ok(resource) => Ok(AeronContext { resource }),
            Err(code) => Err(
                DriverError::InitializationError { resource: ResourceKind::Context, code },
            ),
        }
    }

    /// The handle, for the native calls that read the configuration.
    pub fn get(&self) -> (handle: Result<ContextHandle, DriverError>)
        ensures
            handle == match self@ {
                Some(context) => Ok::<ContextHandle, DriverError>(context),
                None => Err::<ContextHandle, DriverError>(DriverError::AccessError),
            },
    {
        self.resource.get()
    }

    /// Whether the configuration is still live.
    pub fn is_live(&self) -> (live: bool)
        ensures
            live == self@.is_some(),
    {
        self.resource.is_live()
    }

    /// The report of the values in `entries`, which were read through the handle of this
    /// configuration. A configuration that is no longer live has no values to report.
    pub fn print_config(&self, entries: &Vec<ConfigEntry>) -> (report: Result<String, DriverError>)
        ensures
            self@ is Some ==> report is Ok && report->Ok_0@ == report_text(entries@),
            self@ is None ==> report == Err::<String, DriverError>(DriverError::AccessError),
    {
        if self.resource.is_live() {
            Ok(render_config(entries))
        } else {
            Err(DriverError::AccessError)
        }
    }

    /// Gives the handle up for finalization; see [`ManagedCResource::release`]. Only the
    /// holder of the configuration can call this, and no service holds on to a
    /// configuration that someone else holds.
    pub fn close(&mut self) -> (handle: Option<ContextHandle>)
        ensures
            handle == old(self)@,
            final(self)@ == None::<ContextHandle>,
    {
        self.resource.release()
    }
}

/// What is known of a service resource: its handle while it is live, whether it was
/// started, and the handle of the configuration that it was built from, while that is
/// live.
pub struct DriverState {
    pub handle: Option<DriverHandle>,
    pub started: bool,
    pub context: Option<ContextHandle>,
}

/// The service resource, together with the configuration that it was built from. The
/// service owns its configuration: nobody else can release it, and the service releases
/// it only once its own handle is given up.
pub struct AeronDriver {
    resource: ManagedCResource<DriverHandle>,
    started: bool,
    context: AeronContext,
}

impl View for AeronDriver {
    type V = DriverState;

    closed spec fn view(&self) -> DriverState {
        DriverState { handle: self.resource@, started: self.started, context: self.context@ }
    }
}

/// A service build that failed. Nothing is lost with it: the configuration comes back to
/// the caller, and so does a handle that the initializer produced but that the build
/// could not take, which the caller has to finalize.
pub struct Rejected {
    /// Why the build failed.
    pub error: DriverError,
    /// The configuration that the build was given.
    pub context: AeronContext,
    /// The handle of a service that was initialized against a configuration that is not
    /// live.
    pub orphan: Option<DriverHandle>,
}

/// The error of a service build, if it has one: the status of a failed initializer, or
/// the stand-in status where the configuration was not live.
pub open spec fn driver_build_error(context: Option<ContextHandle>, status: i32) -> Option<
    DriverError,
> {
    if status < 0 {
        Some(DriverError::InitializationError { resource: ResourceKind::Driver, code: status })
    } else if context is None {
        Some(
            DriverError::InitializationError {
                resource: ResourceKind::Driver,
                code: STATUS_NOT_LIVE,
            },
        )
    } else {
        None
    }
}

/// The handle that a failed build gives back for finalization: the one that a
/// successful initializer produced.
pub open spec fn orphan_of(status: i32, handle: DriverHandle) -> Option<DriverHandle> {
    if status >= 0 {
        Some(handle)
    } else {
        None
    }
}

impl AeronDriver {
    /// Builds the service from the outcome of its native initializer, which was given the
    /// handle of `context`, and takes the configuration over. The build fails where the
    /// initializer reported a negative status, and where `context` is not live; it then
    /// gives back the configuration, and the handle if the initializer produced one. A
    /// service that was built is not started.
    pub fn new(context: AeronContext, status: i32, handle: DriverHandle) -> (built: Result<
        Self,
        Rejected,
    >)
        ensures
            match driver_build_error(context@, status) {
                Some(error) => built is Err && built->Err_0.error == error
                    && built->Err_0.context@ == context@ && built->Err_0.orphan == orphan_of(
                    status,
                    handle,
                ),
                None => built is Ok && built->Ok_0@ == (DriverState {
                    handle: Some(handle),
                    started: false,
                    context: context@,
                }),
            },
    {
        match ManagedCResource::new(status, handle) {
            Ok(resource) => {
                if context.is_live() {
                    Ok(AeronDriver { resource, started: false, context })
                } else {
                    let mut resource = resource;
                    let orphan = resource.release();
                    Err(
                        Rejected {
                            error: DriverError::InitializationError {
                                resource: ResourceKind::Driver,
                                code: STATUS_NOT_LIVE,
                            },
                            context,
                            orphan,
                        },
                    )
                }
            },
            Err(code) => Err(
                Rejected {
                    error: DriverError::InitializationError {
                        resource: ResourceKind::Driver,
                        code,
                    },
                    context,
                    orphan: None,
                },
            ),
        }
    }

    /// The handle, for the native calls that start and drive the service.
    pub fn get(&self) -> (handle: Result<DriverHandle, DriverError>)
        ensures
            handle == match self@.handle {
                Some(driver) => Ok::<DriverHandle, DriverError>(driver),
                None => Err::<DriverHandle, DriverError>(DriverError::AccessError),
            },
    {
        self.resource.get()
    }

    /// The configuration that the service was built from, for reading.
    pub fn context(&self) -> (context: &AeronContext)
        ensures
            context@ == self@.context,
    {
        &self.context
    }

    /// Whether the service was started.
    pub fn is_started(&self) -> (started: bool)
        ensures
            started == self@.started,
    {
        self.started
    }

    /// Records the outcome of the native start call. A negative status is a start error
    /// that carries it; the service stays owned and still has to be torn down. Any other
    /// status starts the service, after which work may be polled.
    pub fn start(&mut self, status: i32) -> (outcome: Result<(), DriverError>)
        ensures
            final(self)@.handle == old(self)@.handle,
            final(self)@.context == old(self)@.context,
            outcome == start_outcome(old(self)@, status),
            final(self)@.started == (old(self)@.started || outcome is Ok),
    {
        if !self.resource.is_live() {
            return Err(DriverError::AccessError);
        }
        if status < 0 {
            return Err(DriverError::StartError { code: status });
        }
        self.started = true;
        Ok(())
    }

    /// Judges what one unit-of-work call returned: `true` where it did work (`count` is
    /// not zero), so that the next call follows at once; `false` where it was idle. Work
    /// may only be polled on a live service that was started.
    pub fn do_work(&self, count: i32) -> (more: Result<bool, DriverError>)
        ensures
            more == work_outcome(self@, count),
    {
        if !self.resource.is_live() || !self.started {
            return Err(DriverError::AccessError);
        }
        Ok(count != 0)
    }

    /// Gives the handle of the service up for finalization; see
    /// [`ManagedCResource::release`]. The configuration stays as it is.
    pub fn close(&mut self) -> (handle: Option<DriverHandle>)
        ensures
            handle == old(self)@.handle,
            final(self)@ == (DriverState { handle: None, ..old(self)@ }),
    {
        self.resource.release()
    }

    /// Gives the handle of the configuration up for finalization, once the service's own
    /// handle has been given up. While the service is live this hands out nothing and
    /// changes nothing: the configuration is never released before its service.
    pub fn close_context(&mut self) -> (handle: Option<ContextHandle>)
        ensures
            old(self)@.handle is Some ==> handle is None && final(self)@ == old(self)@,
            old(self)@.handle is None ==> handle == old(self)@.context && final(self)@ == (
            DriverState { context: None, ..old(self)@ }),
    {
        if self.resource.is_live() {
            None
        } else {
            self.context.close()
        }
    }
}

/// What a start call that reported `status` means for a service in state `driver`.
pub open spec fn start_outcome(driver: DriverState, status: i32) -> Result<(), DriverError> {
    if driver.handle is None {
        Err(DriverError::AccessError)
    } else if status < 0 {
        Err(DriverError::StartError { code: status })
    } else {
        Ok(())
    }
}

/// What a unit-of-work call that returned `count` means for a service in state `driver`.
pub open spec fn work_outcome(driver: DriverState, count: i32) -> Result<bool, DriverError> {
    if driver.handle is None || !driver.started {
        Err(DriverError::AccessError)
    } else {
        Ok(count != 0)
    }
}

} // verus!
