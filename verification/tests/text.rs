use aeron_rs_media_driver::error::{teardown_message, ResourceKind, TeardownWarning};
use aeron_rs_media_driver::text::{
    append_decimal, append_hex_digits, append_hexadecimal, append_signed_decimal, append_spaces,
};

fn decimal(n: u64) -> String {
    let mut out = String::new();
    append_decimal(&mut out, n);
    out
}

fn signed(i: i32) -> String {
    let mut out = String::new();
    append_signed_decimal(&mut out, i);
    out
}

fn hexadecimal(n: u64) -> String {
    let mut out = String::new();
    append_hexadecimal(&mut out, n);
    out
}

#[test]
fn decimal_of_small_and_large_numbers() {
    assert_eq!(decimal(0), "0");
    assert_eq!(decimal(7), "7");
    assert_eq!(decimal(10), "10");
    assert_eq!(decimal(1408), "1408");
    assert_eq!(decimal(5_000_000_000), "5000000000");
    assert_eq!(decimal(u64::MAX), "18446744073709551615");
}

#[test]
fn decimal_is_appended_after_what_is_there() {
    let mut out = String::from("code ");
    append_decimal(&mut out, 65536);
    assert_eq!(out, "code 65536");
}

#[test]
fn signed_decimal_carries_the_sign() {
    assert_eq!(signed(0), "0");
    assert_eq!(signed(12), "12");
    assert_eq!(signed(-1), "-1");
    assert_eq!(signed(i32::MAX), "2147483647");
    assert_eq!(signed(i32::MIN), "-2147483648");
}

#[test]
fn hexadecimal_is_lower_case_with_a_prefix() {
    assert_eq!(hexadecimal(0), "0x0");
    assert_eq!(hexadecimal(15), "0xf");
    assert_eq!(hexadecimal(16), "0x10");
    assert_eq!(hexadecimal(0xdead_beef), "0xdeadbeef");
    assert_eq!(hexadecimal(u64::MAX), "0xffffffffffffffff");
}

#[test]
fn hex_digits_have_no_prefix() {
    let mut out = String::new();
    append_hex_digits(&mut out, 0x7f00_abcd);
    assert_eq!(out, "7f00abcd");
}

#[test]
fn spaces_are_appended() {
    let mut out = String::from("ab");
    append_spaces(&mut out, 0);
    assert_eq!(out, "ab");
    append_spaces(&mut out, 3);
    assert_eq!(out, "ab   ");
}

#[test]
fn teardown_message_tells_failure_from_success() {
    assert_eq!(
        teardown_message(ResourceKind::Driver, -1),
        "Failed to close resource of type aeron_driver_t with error code -1"
    );
    assert_eq!(
        teardown_message(ResourceKind::Context, 0),
        "Closed resource of type aeron_driver_context_t with success code 0"
    );
    assert_eq!(
        teardown_message(ResourceKind::Context, 3),
        "Closed resource of type aeron_driver_context_t with success code 3"
    );
}

#[test]
fn teardown_warning_comes_from_a_negative_status_only() {
    assert_eq!(TeardownWarning::from_status(ResourceKind::Driver, 0), None);
    assert_eq!(TeardownWarning::from_status(ResourceKind::Driver, 5), None);
    let warning = TeardownWarning::from_status(ResourceKind::Context, -4);
    assert_eq!(warning, Some(TeardownWarning { resource: ResourceKind::Context, code: -4 }));
    assert_eq!(
        TeardownWarning { resource: ResourceKind::Context, code: -4 }.message(),
        "Failed to close resource of type aeron_driver_context_t with error code -4"
    );
}

#[test]
fn resource_kinds_have_labels_and_native_names() {
    assert_eq!(ResourceKind::Context.label(), "context");
    assert_eq!(ResourceKind::Driver.label(), "driver");
    assert_eq!(ResourceKind::Context.native_name(), "aeron_driver_context_t");
    assert_eq!(ResourceKind::Driver.native_name(), "aeron_driver_t");
}
