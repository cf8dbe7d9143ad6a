use vstd::prelude::*;
use crate::result::{CallResult, ForkCallError};

verus! {

/// The result of a typed call: the raw engine result together with the
/// value decoded from its return bytes, of the call's declared return
/// shape.
#[derive(Debug)]
pub struct TypedCallResult<T> {
    pub raw: CallResult,
    pub decoded: T,
}

/// Classifies the decode step that closes a typed call or write. A typed
/// dispatch is encode, then raw dispatch, then decode; the codec itself is
/// external, so its verdict arrives here as a value: either the decoded
/// return, or the decoder's failure detail. A successful decode pairs the
/// decoded value with the untouched raw result; a failed decode is reported
/// as `TypedDecodeError` — never as a successful call — carrying the
/// signature name, the failure detail, and the raw result for diagnosis.
/// One shape serves reads and writes alike, so the two paths cannot drift
/// apart.
pub fn typed_outcome<T>(signature: String, raw: CallResult, decoded: Result<T, String>) -> (r:
    Result<TypedCallResult<T>, ForkCallError>)
    ensures
        r is Ok <==> decoded is Ok,
        decoded matches Ok(v) ==> (r matches Ok(t) && t.raw == raw && t.decoded == v),
        decoded matches Err(d) ==> (r matches Err(e) && (e matches ForkCallError::TypedDecodeError {
            signature: s,
            detail: dd,
            raw: rr,
        } && s == signature && dd == d && rr == raw)),
{
    match decoded {
        Ok(value) => Ok(TypedCallResult { raw, decoded: value }),
        Err(detail) => Err(ForkCallError::TypedDecodeError { signature, detail, raw }),
    }
}

} // verus!
