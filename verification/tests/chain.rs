use aeron_rs_media_driver::chain::{
    AeronContext, AeronDriver, ContextHandle, DriverHandle, STATUS_NOT_LIVE,
};
use aeron_rs_media_driver::config::{ConfigEntry, ConfigValue};
use aeron_rs_media_driver::error::{DriverError, ResourceKind};
use aeron_rs_media_driver::fields::ConfigField;

fn live_context() -> AeronContext {
    match AeronContext::new(0, ContextHandle { address: 0x10 }) {
        Ok(context) => context,
        Err(error) => panic!("the context should build: {:?}", error),
    }
}

fn live_driver() -> AeronDriver {
    match AeronDriver::new(live_context(), 0, DriverHandle { address: 0x20 }) {
        Ok(driver) => driver,
        Err(rejected) => panic!("the driver should build: {:?}", rejected.error),
    }
}

#[test]
fn context_new_reports_the_status_of_a_failed_initializer() {
    let built = AeronContext::new(-1, ContextHandle { address: 0 });
    match built {
        Ok(_) => panic!("a negative status must not build a context"),
        Err(error) => {
            assert_eq!(
                error,
                DriverError::InitializationError { resource: ResourceKind::Context, code: -1 }
            );
            assert_eq!(error.message(), "failed to initialise aeron context error code -1");
        }
    }
}

#[test]
fn context_new_owns_the_handle() {
    let context = live_context();
    assert!(context.is_live());
    assert_eq!(context.get(), Ok(ContextHandle { address: 0x10 }));
}

#[test]
fn context_close_hands_the_handle_out_once() {
    let mut context = live_context();
    assert_eq!(context.close(), Some(ContextHandle { address: 0x10 }));
    assert_eq!(context.close(), None);
    assert_eq!(context.get(), Err(DriverError::AccessError));
}

#[test]
fn driver_new_reports_the_status_of_a_failed_initializer() {
    match AeronDriver::new(live_context(), -12, DriverHandle { address: 0 }) {
        Ok(_) => panic!("a negative status must not build a driver"),
        Err(mut rejected) => {
            assert_eq!(
                rejected.error,
                DriverError::InitializationError { resource: ResourceKind::Driver, code: -12 }
            );
            assert_eq!(
                rejected.error.message(),
                "failed to initialise aeron driver error code -12"
            );
            assert_eq!(rejected.orphan, None);
            assert!(rejected.context.is_live());
            assert_eq!(rejected.context.close(), Some(ContextHandle { address: 0x10 }));
        }
    }
}

#[test]
fn driver_new_needs_a_live_context() {
    let mut context = live_context();
    context.close();
    match AeronDriver::new(context, 0, DriverHandle { address: 0x20 }) {
        Ok(_) => panic!("a driver must not be built from a context that is not live"),
        Err(rejected) => {
            assert_eq!(
                rejected.error,
                DriverError::InitializationError {
                    resource: ResourceKind::Driver,
                    code: STATUS_NOT_LIVE
                }
            );
            assert_eq!(rejected.orphan, Some(DriverHandle { address: 0x20 }));
            assert!(!rejected.context.is_live());
        }
    }
}

#[test]
fn failed_initializer_on_a_dead_context_leaves_no_orphan() {
    let mut context = live_context();
    context.close();
    match AeronDriver::new(context, -4, DriverHandle { address: 0 }) {
        Ok(_) => panic!("a negative status must not build a driver"),
        Err(rejected) => {
            assert_eq!(
                rejected.error,
                DriverError::InitializationError { resource: ResourceKind::Driver, code: -4 }
            );
            assert_eq!(rejected.orphan, None);
        }
    }
}

#[test]
fn context_is_not_released_before_its_service() {
    let mut driver = live_driver();
    assert_eq!(driver.close_context(), None);
    assert_eq!(driver.close_context(), None);
    assert_eq!(driver.get(), Ok(DriverHandle { address: 0x20 }));
    assert!(driver.context().is_live());
    assert_eq!(driver.context().get(), Ok(ContextHandle { address: 0x10 }));
    assert_eq!(driver.close(), Some(DriverHandle { address: 0x20 }));
    assert!(driver.context().is_live());
    assert_eq!(driver.close_context(), Some(ContextHandle { address: 0x10 }));
    assert!(!driver.context().is_live());
    assert_eq!(driver.close_context(), None);
    assert_eq!(driver.close(), None);
}

#[test]
fn service_reports_the_snapshot_of_its_configuration() {
    let mut driver = live_driver();
    let entries = vec![ConfigEntry {
        field: ConfigField::MtuLength,
        value: ConfigValue::Number(1408),
    }];
    assert_eq!(driver.context().print_config(&entries), Ok(String::from("mtu_length  : 1408\n\n")));
    driver.close();
    driver.close_context();
    assert_eq!(driver.context().print_config(&entries), Err(DriverError::AccessError));
}

#[test]
fn driver_new_is_not_started() {
    let driver = live_driver();
    assert!(!driver.is_started());
    assert_eq!(driver.get(), Ok(DriverHandle { address: 0x20 }));
    assert_eq!(driver.do_work(1), Err(DriverError::AccessError));
}

#[test]
fn start_failure_keeps_the_driver_owned() {
    let mut driver = live_driver();
    let outcome = driver.start(-3);
    assert_eq!(outcome, Err(DriverError::StartError { code: -3 }));
    assert_eq!(
        DriverError::StartError { code: -3 }.message(),
        "failed to start aeron driver error code -3"
    );
    assert!(!driver.is_started());
    assert_eq!(driver.get(), Ok(DriverHandle { address: 0x20 }));
    assert_eq!(driver.close(), Some(DriverHandle { address: 0x20 }));
}

#[test]
fn start_success_allows_work() {
    let mut driver = live_driver();
    assert_eq!(driver.start(0), Ok(()));
    assert!(driver.is_started());
    assert_eq!(driver.do_work(3), Ok(true));
    assert_eq!(driver.do_work(1), Ok(true));
    assert_eq!(driver.do_work(0), Ok(false));
    assert_eq!(driver.do_work(-1), Ok(true));
}

#[test]
fn start_on_a_released_driver_is_an_access_error() {
    let mut driver = live_driver();
    driver.close();
    assert_eq!(driver.start(0), Err(DriverError::AccessError));
    assert!(!driver.is_started());
    assert_eq!(driver.do_work(0), Err(DriverError::AccessError));
}

#[test]
fn driver_close_hands_the_handle_out_once() {
    let mut driver = live_driver();
    assert_eq!(driver.start(0), Ok(()));
    assert_eq!(driver.close(), Some(DriverHandle { address: 0x20 }));
    assert_eq!(driver.close(), None);
    assert!(driver.is_started());
    assert_eq!(driver.get(), Err(DriverError::AccessError));
    assert_eq!(driver.do_work(4), Err(DriverError::AccessError));
}

#[test]
fn print_config_renders_the_snapshot_of_a_live_context() {
    let context = live_context();
    let entries = vec![ConfigEntry {
        field: ConfigField::MtuLength,
        value: ConfigValue::Number(1408),
    }];
    assert_eq!(context.print_config(&entries), Ok(String::from("mtu_length  : 1408\n\n")));
}

#[test]
fn print_config_on_a_released_context_is_an_access_error() {
    let mut context = live_context();
    context.close();
    let entries = vec![ConfigEntry {
        field: ConfigField::MtuLength,
        value: ConfigValue::Number(1408),
    }];
    assert_eq!(context.print_config(&entries), Err(DriverError::AccessError));
}

#[test]
fn access_error_has_a_message() {
    assert_eq!(DriverError::AccessError.message(), "resource handle is not live");
}
