use vstd::prelude::*;

verus! {

/// The kinds of failure an operation can report. Each variant carries the
/// human-readable description that is surfaced to the caller: the broker
/// returns either a success payload or such an error, never both, and no
/// failure is ever retried or escalated.
#[derive(Debug)]
pub enum BrokerError {
    /// A parameter fell outside its closed set of accepted values; the
    /// request was rejected before any OS facility was touched.
    InvalidArgument(String),
    /// The OS could not start the requested process at all.
    SpawnError(String),
    /// The process ran but reported failure together with diagnostic text.
    ExecutionFailure(String),
    /// A filesystem read, write or list failed.
    IoError(String),
    /// A transport-level network fetch failed.
    NetworkError(String),
    /// The OS input subsystem could not be opened or rejected an action.
    DeviceError(String),
}

impl BrokerError {
    /// The descriptive text carried by the error, whatever its kind.
    pub open spec fn text(&self) -> Seq<char> {
        match self {
            BrokerError::InvalidArgument(s) => s@,
            BrokerError::SpawnError(s) => s@,
            BrokerError::ExecutionFailure(s) => s@,
            BrokerError::IoError(s) => s@,
            BrokerError::NetworkError(s) => s@,
            BrokerError::DeviceError(s) => s@,
        }
    }

    /// The string shown to the caller at the boundary.
    pub fn message(&self) -> (r: String)
        ensures
            r@ == self.text(),
    {
        match self {
            BrokerError::InvalidArgument(s) => s.clone(),
            BrokerError::SpawnError(s) => s.clone(),
            BrokerError::ExecutionFailure(s) => s.clone(),
            BrokerError::IoError(s) => s.clone(),
            BrokerError::NetworkError(s) => s.clone(),
            BrokerError::DeviceError(s) => s.clone(),
        }
    }
}

} // verus!
