//! Error kinds surfaced by the provisioning run, and the single-line
//! diagnostic each of them renders to.

use vstd::prelude::*;
use vstd::string::StringExecFns;

verus! {

/// Every failure the system can report: the configuration resource could not
/// be read, it could not be parsed into a valid description, or one
/// provisioning step's external command could not be dispatched.
#[derive(Debug)]
pub enum ProvisionError {
    ConfigUnreadable { cause: String },
    ConfigMalformed { cause: String },
    StepDispatchFailure { step: String, cause: String },
}

/// The single-line diagnostic text for an error.
pub open spec fn message_spec(e: ProvisionError) -> Seq<char> {
    match e {
        ProvisionError::ConfigUnreadable { cause } => "Failed to read the config file: "@ + cause@,
        ProvisionError::ConfigMalformed { cause } => "Failed to parse TOML: "@ + cause@,
        ProvisionError::StepDispatchFailure { step, cause } => "Failed to "@ + step@ + ": "@
            + cause@,
    }
}

impl ProvisionError {
    /// Renders the error as the one-line diagnostic that the run prints.
    pub fn message(&self) -> (r: String)
        ensures
            r@ == message_spec(*self),
    {
        match self {
            ProvisionError::ConfigUnreadable { cause } => {
                let mut r = String::from_str("Failed to read the config file: ");
                r.append(cause.as_str());
                r
            },
            ProvisionError::ConfigMalformed { cause } => {
                let mut r = String::from_str("Failed to parse TOML: ");
                r.append(cause.as_str());
                r
            },
            ProvisionError::StepDispatchFailure { step, cause } => {
                let mut r = String::from_str("Failed to ");
                r.append(step.as_str());
                r.append(": ");
                r.append(cause.as_str());
                r
            },
        }
    }
}

} // verus!
