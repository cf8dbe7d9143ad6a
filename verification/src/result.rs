use vstd::prelude::*;
use crate::value::U256;

verus! {

/// One log record emitted during an execution: the address that emitted it,
/// its indexed topics, and its data bytes.
#[derive(Clone, Debug, PartialEq, Eq)]
pub struct LogEntry {
    pub address: Vec<u8>,
    pub topics: Vec<U256>,
    pub data: Vec<u8>,
}

/// What the execution engine reports for one call: whether the call itself
/// succeeded at the application level, the bytes it returned, the gas it
/// consumed, and the logs it emitted. An application-level revert is a
/// `CallResult` with `succeeded == false`, not an engine fault.
#[derive(Clone, Debug, PartialEq, Eq)]
pub struct CallResult {
    pub succeeded: bool,
    pub return_data: Vec<u8>,
    pub gas_used: u64,
    pub logs: Vec<LogEntry>,
}

/// The ways a session operation can fail. Every failure is returned to the
/// caller as a value; none is swallowed.
#[derive(Debug)]
pub enum ForkCallError {
    /// A supplied address is not exactly 20 bytes; raised before any engine
    /// interaction.
    InvalidAddress,
    /// Materializing a new snapshot failed; the registry and the active
    /// snapshot are left exactly as they were.
    ProvisionError(String),
    /// The engine refused to activate a handle that the registry resolved.
    SelectError(String),
    /// Execution itself faulted at the engine level, as opposed to an
    /// application-level revert reported inside a `CallResult`.
    EngineError(String),
    /// The returned bytes could not be decoded into the requested return
    /// shape; the raw result is kept for diagnosis.
    TypedDecodeError { signature: String, detail: String, raw: CallResult },
}

impl ForkCallError {
    /// The message this failure shows: the detail it carries, or a fixed
    /// message for an invalid address.
    pub open spec fn message(self) -> Seq<char> {
        match self {
            ForkCallError::InvalidAddress => "invalid address!"@,
            ForkCallError::ProvisionError(s) => s@,
            ForkCallError::SelectError(s) => s@,
            ForkCallError::EngineError(s) => s@,
            ForkCallError::TypedDecodeError { signature: _, detail, raw: _ } => detail@,
        }
    }

    /// Renders the failure as text.
    pub fn describe(&self) -> (r: String)
        ensures
            r@ == self.message(),
    {
        match self {
            ForkCallError::InvalidAddress => "invalid address!".to_owned(),
            ForkCallError::ProvisionError(s) => s.clone(),
            ForkCallError::SelectError(s) => s.clone(),
            ForkCallError::EngineError(s) => s.clone(),
            ForkCallError::TypedDecodeError { signature: _, detail, raw: _ } => detail.clone(),
        }
    }
}

} // verus!
