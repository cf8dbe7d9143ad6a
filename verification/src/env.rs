use vstd::prelude::*;
use vstd::slice::slice_to_vec;
use crate::result::ForkCallError;
use crate::value::U256;

verus! {

/// The number of bytes in a chain address.
pub const ADDRESS_LEN: usize = 20;

/// A fully-formed call environment, ready to be carried out by the execution
/// engine against the currently active snapshot. `committing` tells the
/// engine whether state changes made during execution persist in the
/// snapshot (a write) or are discarded when the call returns (a read).
#[derive(Clone, Debug, PartialEq, Eq)]
pub struct ExecutionEnvironment {
    pub caller: Vec<u8>,
    pub callee: Vec<u8>,
    pub payload: Vec<u8>,
    pub value: U256,
    pub committing: bool,
}

impl ExecutionEnvironment {
    /// A well-formed environment carries exactly 20 bytes in each address.
    pub open spec fn wf(self) -> bool {
        self.caller@.len() == ADDRESS_LEN && self.callee@.len() == ADDRESS_LEN
    }
}

/// Whether a byte string is a valid address, that is, exactly 20 bytes long.
pub fn address_len_valid(addr: &[u8]) -> (r: bool)
    ensures
        r == (addr@.len() == ADDRESS_LEN),
{
    addr.len() == ADDRESS_LEN
}

/// Builds the environment for one execution: both addresses are validated
/// to be exactly 20 bytes — anything else fails with `InvalidAddress`
/// before the engine is ever involved — and the payload, value and
/// committing flag are carried through unchanged.
pub fn build_environment(
    from: &[u8],
    to: &[u8],
    payload: &[u8],
    value: U256,
    committing: bool,
) -> (r: Result<ExecutionEnvironment, ForkCallError>)
    ensures
        r is Ok <==> (from@.len() == ADDRESS_LEN && to@.len() == ADDRESS_LEN),
        r matches Ok(env) ==> {
            &&& env.wf()
            &&& env.caller@ == from@
            &&& env.callee@ == to@
            &&& env.payload@ == payload@
            &&& env.value == value
            &&& env.committing == committing
        },
        r matches Err(e) ==> e is InvalidAddress,
{
    if !address_len_valid(from) || !address_len_valid(to) {
        return Err(ForkCallError::InvalidAddress);
    }
    Ok(ExecutionEnvironment {
        caller: slice_to_vec(from),
        callee: slice_to_vec(to),
        payload: slice_to_vec(payload),
        value,
        committing,
    })
}

} // verus!
