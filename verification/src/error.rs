//! Mission error types.

use vstd::prelude::*;

verus! {

#[verifier::external_type_specification]
#[verifier::external_body]
pub struct ExIoError(std::io::Error);

/// Mission-critical error types.
#[derive(Debug)]
pub enum HermesError {
    /// Orbital mechanics failure
    OrbitalMechanics(String),
    /// Communications failure
    Communications(String),
    /// Bundle protocol error
    BundleProtocol(String),
    /// Routing failure
    Routing(String),
    /// Telemetry subsystem error
    Telemetry(String),
    /// Configuration error
    Configuration(String),
    /// I/O error
    Io(std::io::Error),
}

pub type Result<T> = std::result::Result<T, HermesError>;

impl From<std::io::Error> for HermesError {
    fn from(err: std::io::Error) -> (e: HermesError) {
        HermesError::Io(err)
    }
}

impl vstd::std_specs::convert::FromSpecImpl<std::io::Error> for HermesError {
    open spec fn obeys_from_spec() -> bool {
        true
    }

    open spec fn from_spec(err: std::io::Error) -> HermesError {
        HermesError::Io(err)
    }
}

/// Converting an I/O error keeps it, unchanged, in the `Io` variant.
pub proof fn lemma_io_error_converts_to_io_variant(err: std::io::Error)
    ensures
        <HermesError as vstd::std_specs::convert::FromSpec<std::io::Error>>::obeys_from_spec(),
        <HermesError as vstd::std_specs::convert::FromSpec<std::io::Error>>::from_spec(err) == HermesError::Io(err),
{
}

} // verus!
