use vstd::prelude::*;
use crate::types::{Signature, Value, args_match, check_args};
use crate::instance::{CallError, Trap, check_result, result_matches};

verus! {

/// Host logic that implements the operations of one imported interface.
/// A failure is reported as a message, never by panicking.
pub trait Capability {
    fn invoke(&mut self, operation: &String, args: &Vec<Value>) -> Result<Option<Value>, String>;
}

/// What a guest's call into the host becomes, given what the capability
/// returned: a value of the declared result type comes back unchanged, one
/// of another type is `TypeMismatch`, and a failure is a trap carrying its
/// message, so a host fault never escapes as a crash.
pub fn settle_host_result(sig: &Signature, returned: Result<Option<Value>, String>) -> (r: Result<
    Option<Value>,
    CallError,
>)
    ensures
        match returned {
            Ok(v) => if result_matches(v, sig.result) {
                r == Ok::<Option<Value>, CallError>(v)
            } else {
                r matches Err(CallError::TypeMismatch)
            },
            Err(m) => r == Err::<Option<Value>, CallError>(CallError::Trapped(Trap::Fault(m))),
        },
{
    match returned {
        Ok(v) => {
            if check_result(&v, &sig.result) {
                Ok(v)
            } else {
                Err(CallError::TypeMismatch)
            }
        },
        Err(m) => Err(CallError::Trapped(Trap::Fault(m))),
    }
}

/// Dispatches a guest's call of the imported operation `sig` to the host
/// capability. Arguments that do not match the signature are refused with
/// `TypeMismatch` before the capability runs, and leave it unchanged; what
/// the capability returns is settled by `settle_host_result`.
pub fn call_host<C: Capability>(cap: &mut C, sig: &Signature, args: &Vec<Value>) -> (r: Result<
    Option<Value>,
    CallError,
>)
    ensures
        !args_match(args@, sig.params@) ==> (r matches Err(CallError::TypeMismatch)),
        !args_match(args@, sig.params@) ==> *final(cap) == *old(cap),
        r matches Ok(v) ==> args_match(args@, sig.params@) && result_matches(v, sig.result),
{
    if !check_args(args, &sig.params) {
        return Err(CallError::TypeMismatch);
    }
    let returned = cap.invoke(&sig.name, args);
    settle_host_result(sig, returned)
}

} // verus!
