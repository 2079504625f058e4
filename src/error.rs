use vstd::prelude::*;

verus! {

/// Why bringing up the context failed. Every one of these aborts start-up.
#[derive(Clone, Copy, Debug, PartialEq, Eq, Structural)]
pub enum BootstrapError {
    /// A query of the runtime (layers, version, devices) failed with this code.
    RuntimeQuery(i32),
    /// Validation was asked for but the validation layer is not installed.
    MissingValidationLayer,
    /// The native instance-creation call failed with this code.
    InstanceCreation(i32),
    /// Registering the debug messenger failed with this code.
    DebugMessengerCreation(i32),
    /// No enumerated physical device passed the suitability check.
    NoSuitableDevice,
}

/// The description of each error kind.
pub open spec fn error_text(e: BootstrapError) -> Seq<char> {
    match e {
        BootstrapError::RuntimeQuery(_) => "Runtime query failed."@,
        BootstrapError::MissingValidationLayer => "Validation layer requested but not supported."@,
        BootstrapError::InstanceCreation(_) => "Failed to create instance."@,
        BootstrapError::DebugMessengerCreation(_) => "Failed to create debug messenger."@,
        BootstrapError::NoSuitableDevice => "Failed to find suitable physical device."@,
    }
}

impl BootstrapError {
    /// A fixed, human-readable description of the error kind.
    pub fn description(&self) -> (r: &'static str)
        ensures
            r@ == error_text(*self),
    {
        match self {
            BootstrapError::RuntimeQuery(_) => "Runtime query failed.",
            BootstrapError::MissingValidationLayer => "Validation layer requested but not supported.",
            BootstrapError::InstanceCreation(_) => "Failed to create instance.",
            BootstrapError::DebugMessengerCreation(_) => "Failed to create debug messenger.",
            BootstrapError::NoSuitableDevice => "Failed to find suitable physical device.",
        }
    }
}

} // verus!
