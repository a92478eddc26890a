use crate::text::{append_signed_decimal, signed_decimal};
use vstd::prelude::*;
use vstd::string::*;

verus! {

/// The two kinds of native resource that the driver's lifecycle is made of.
#[derive(Clone, Copy, Debug, PartialEq, Eq, Structural)]
pub enum ResourceKind {
    /// The configuration resource, which depends on nothing.
    Context,
    /// The service resource, which is built from a live configuration.
    Driver,
}

/// A failure that ends the startup sequence, or a misuse of an empty wrapper.
#[derive(Clone, Copy, Debug, PartialEq, Eq, Structural)]
pub enum DriverError {
    /// The initializer of `resource` reported the negative status `code`.
    InitializationError { resource: ResourceKind, code: i32 },
    /// The service failed to start and reported the negative status `code`.
    StartError { code: i32 },
    /// A handle was asked of a wrapper that holds none.
    AccessError,
}

/// A finalizer that reported the negative status `code`. It is recorded, never raised.
#[derive(Clone, Copy, Debug, PartialEq, Eq, Structural)]
pub struct TeardownWarning {
    pub resource: ResourceKind,
    pub code: i32,
}

/// The exit code of a run that stopped cleanly.
pub const EXIT_CLEAN: i32 = 0;

/// The exit code of a run that an initialization or start failure ended.
pub const EXIT_FAILURE: i32 = 1;

impl ResourceKind {
    /// The word that messages use for this kind of resource.
    pub open spec fn label_text(self) -> Seq<char> {
        match self {
            ResourceKind::Context => "context"@,
            ResourceKind::Driver => "driver"@,
        }
    }

    /// The name of the native type that a handle of this kind points to.
    pub open spec fn native_name_text(self) -> Seq<char> {
        match self {
            ResourceKind::Context => "aeron_driver_context_t"@,
            ResourceKind::Driver => "aeron_driver_t"@,
        }
    }

    /// The name of the native type that a handle of this kind points to.
    pub fn native_name(self) -> (name: &'static str)
        ensures
            name@ == self.native_name_text(),
    {
        match self {
            ResourceKind::Context => "aeron_driver_context_t",
            ResourceKind::Driver => "aeron_driver_t",
        }
    }

    /// The word that messages use for this kind of resource.
    pub fn label(self) -> (word: &'static str)
        ensures
            word@ == self.label_text(),
    {
        match self {
            ResourceKind::Context => "context",
            ResourceKind::Driver => "driver",
        }
    }
}

impl DriverError {
    /// The text of the message: what failed, and the status code where there is one.
    pub open spec fn message_text(self) -> Seq<char> {
        match self {
            DriverError::InitializationError { resource, code } => "failed to initialise aeron "@
                + resource.label_text() + " error code "@ + signed_decimal(code as int),
            DriverError::StartError { code } => "failed to start aeron driver error code "@
                + signed_decimal(code as int),
            DriverError::AccessError => "resource handle is not live"@,
        }
    }

    /// Describes the failure, with the status code that the native layer reported.
    pub fn message(&self) -> (text: String)
        ensures
            text@ == self.message_text(),
    {
        match self {
            DriverError::InitializationError { resource, code } => {
                let mut text = String::from_str("failed to initialise aeron ");
                text.append(resource.label());
                text.append(" error code ");
                append_signed_decimal(&mut text, *code);
                text
            },
            DriverError::StartError { code } => {
                let mut text = String::from_str("failed to start aeron driver error code ");
                append_signed_decimal(&mut text, *code);
                text
            },
            DriverError::AccessError => String::from_str("resource handle is not live"),
        }
    }
}

/// What a finalizer's status amounts to: a warning where it is negative, nothing else.
pub open spec fn teardown_warning(resource: ResourceKind, status: i32) -> Option<TeardownWarning> {
    if status < 0 {
        Some(TeardownWarning { resource, code: status })
    } else {
        None
    }
}

/// The diagnostic line for a finalizer of `resource` that reported `status`.
pub open spec fn teardown_message_text(resource: ResourceKind, status: i32) -> Seq<char> {
    if status < 0 {
        "Failed to close resource of type "@ + resource.native_name_text() + " with error code "@
            + signed_decimal(status as int)
    } else {
        "Closed resource of type "@ + resource.native_name_text() + " with success code "@
            + signed_decimal(status as int)
    }
}

impl TeardownWarning {
    /// Judges the status that the finalizer of `resource` reported: a negative status is
    /// a warning, any other is none.
    pub fn from_status(resource: ResourceKind, status: i32) -> (warning: Option<TeardownWarning>)
        ensures
            warning == teardown_warning(resource, status),
    {
        if status < 0 {
            Some(TeardownWarning { resource, code: status })
        } else {
            None
        }
    }

    /// The diagnostic line for this warning.
    pub fn message(&self) -> (text: String)
        ensures
            text@ == teardown_message_text(self.resource, self.code),
    {
        teardown_message(self.resource, self.code)
    }
}

/// Writes the diagnostic line for a finalizer of `resource` that reported `status`: a
/// failure where the status is negative, a success otherwise.
pub fn teardown_message(resource: ResourceKind, status: i32) -> (text: String)
    ensures
        text@ == teardown_message_text(resource, status),
{
    if status < 0 {
        let mut text = String::from_str("Failed to close resource of type ");
        text.append(resource.native_name());
        text.append(" with error code ");
        append_signed_decimal(&mut text, status);
        text
    } else {
        let mut text = String::from_str("Closed resource of type ");
        text.append(resource.native_name());
        text.append(" with success code ");
        append_signed_decimal(&mut text, status);
        text
    }
}

} // verus!
