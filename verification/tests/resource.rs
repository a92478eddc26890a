use aeron_rs_media_driver::error::DriverError;
use aeron_rs_media_driver::resource::ManagedCResource;

#[test]
fn new_owns_the_handle_of_a_successful_initializer() {
    let resource = ManagedCResource::new(0, 0x1000usize).expect("status 0 is a success");
    assert!(resource.is_live());
    assert_eq!(resource.get(), Ok(0x1000usize));
}

#[test]
fn new_accepts_a_positive_status() {
    let resource = ManagedCResource::new(7, 42u64).expect("a positive status is a success");
    assert_eq!(resource.get(), Ok(42u64));
}

#[test]
fn new_returns_the_negative_status_as_the_error() {
    assert!(matches!(ManagedCResource::new(-1, 0x1000usize), Err(-1)));
    assert!(matches!(ManagedCResource::new(i32::MIN, 0usize), Err(i32::MIN)));
}

#[test]
fn get_can_be_repeated_while_the_wrapper_is_live() {
    let resource = ManagedCResource::new(0, 9u32).expect("status 0 is a success");
    assert_eq!(resource.get(), Ok(9u32));
    assert_eq!(resource.get(), Ok(9u32));
}

#[test]
fn release_hands_the_handle_out_exactly_once() {
    let mut resource = ManagedCResource::new(0, 0x2000usize).expect("status 0 is a success");
    assert_eq!(resource.release(), Some(0x2000usize));
    assert!(!resource.is_live());
    assert_eq!(resource.release(), None);
    assert_eq!(resource.release(), None);
}

#[test]
fn get_on_an_empty_wrapper_is_an_access_error() {
    let mut resource = ManagedCResource::new(0, 5u8).expect("status 0 is a success");
    resource.release();
    assert_eq!(resource.get(), Err(DriverError::AccessError));
    assert!(!resource.is_live());
}
