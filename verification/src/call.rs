use vstd::prelude::*;
use crate::errors::{CallError, CallOutcome, ConversionReason};
use crate::instance::{invoke, resolve_function, InstanceResource};
use crate::marshal::{arg_to_vm, args_convertible, convert_args, from_vm, spec_encode_value};
use crate::values::{value_has_type, HostValue, TypedValue, WasmType};

verus! {

/// Encodes the machine results of a successful invocation: the "no
/// value" marker when there are none, the first result otherwise,
/// unless that result is a vector, which cannot be represented to
/// the host and is reported instead of being truncated.
pub fn encode_results(results: &Vec<TypedValue>) -> (r: Result<CallOutcome, CallError>)
    ensures
        results@.len() == 0 ==> r == Ok::<CallOutcome, CallError>(CallOutcome::NoValue),
        results@.len() > 0 && results@[0] is V128 ==> r == Err::<CallOutcome, CallError>(
            CallError::UnsupportedReturnType,
        ),
        results@.len() > 0 && !(results@[0] is V128) ==> match r {
            Ok(out) => out matches CallOutcome::Value(h) && Some(h) == spec_encode_value(
                results@[0],
            ),
            Err(_) => false,
        },
{
    if results.len() == 0 {
        Ok(CallOutcome::NoValue)
    } else {
        let first = results[0];
        match first {
            TypedValue::V128(_) => Err(CallError::UnsupportedReturnType),
            _ => Ok(CallOutcome::Value(from_vm(&first))),
        }
    }
}

/// Everything the bridge promises of one call's outcome, over the
/// instance's export table, the requested name, and the given
/// values:
/// - the name misses the table exactly when the outcome is
///   `NotFound`;
/// - on a hit, the outcome is `ArityMismatch` exactly when the count
///   of given values differs from the declared parameter count;
/// - with matching arity, a conversion failure reports the 1-based
///   position of the first argument that does not convert, and why;
/// - only when every argument converts can the call succeed, trap,
///   or report an unrepresentable result; a success carries the "no
///   value" marker exactly for a no-result function, and otherwise
///   the lossless encoding of a first result of the declared type,
///   never of a vector.
pub open spec fn call_post(
    table: Map<Seq<char>, (Seq<WasmType>, Seq<WasmType>)>,
    name: Seq<char>,
    given: Seq<HostValue>,
    r: Result<CallOutcome, CallError>,
) -> bool {
    &&& (r == Err::<CallOutcome, CallError>(CallError::NotFound) <==> !table.contains_key(name))
    &&& (table.contains_key(name) ==> {
        let params = table[name].0;
        let rets = table[name].1;
        &&& (r == Err::<CallOutcome, CallError>(CallError::ArityMismatch) <==> params.len()
            != given.len())
        &&& (params.len() == given.len() ==> match r {
            Ok(out) => args_convertible(params, given) && match out {
                CallOutcome::NoValue => rets.len() == 0,
                CallOutcome::Value(h) => rets.len() > 0 && rets[0] != WasmType::V128 && (exists|
                    tv: TypedValue,
                |
                    value_has_type(tv, rets[0]) && Some(h) == #[trigger] spec_encode_value(tv)),
            },
            Err(e) => match e {
                CallError::Conversion(ce) => 1 <= ce.position <= params.len() && (forall|j: int|
                    0 <= j < ce.position - 1 ==> (#[trigger] arg_to_vm(params[j], given[j]))
                        is Ok) && arg_to_vm(params[ce.position - 1], given[ce.position - 1])
                    == Err::<TypedValue, ConversionReason>(ce.reason),
                CallError::RuntimeTrap(_) => args_convertible(params, given),
                CallError::UnsupportedReturnType => args_convertible(params, given),
                _ => false,
            },
        })
    })
}

/// Calls an exported function with dynamically-typed host values:
/// resolves the export by name, checks arity, converts the given
/// values left to right against the declared parameter types,
/// invokes under the instance's exclusive lock, and encodes the
/// first result. The first failure at any stage is the call's
/// outcome; no failure ever escapes as a panic.
pub fn call_exported_function(res: &InstanceResource, name: &str, given: &Vec<HostValue>) -> (r:
    Result<CallOutcome, CallError>)
    ensures
        call_post(res.export_table(), name@, given@, r),
{
    let sig = match resolve_function(res, name) {
        Some(sig) => sig,
        None => {
            return Err(CallError::NotFound);
        },
    };
    let args = match convert_args(&sig.params, given) {
        Ok(args) => args,
        Err(e) => {
            return Err(e);
        },
    };
    match invoke(res, name, &args) {
        Ok(Some(results)) => encode_results(&results),
        Ok(None) => Err(CallError::UnsupportedReturnType),
        Err(diag) => Err(CallError::RuntimeTrap(diag)),
    }
}

/// With the export found and the count of given values differing
/// from the declared parameter count, the outcome is always
/// `ArityMismatch`, whatever the values hold.
pub proof fn lemma_arity_mismatch_reported(
    table: Map<Seq<char>, (Seq<WasmType>, Seq<WasmType>)>,
    name: Seq<char>,
    given: Seq<HostValue>,
    r: Result<CallOutcome, CallError>,
)
    requires
        call_post(table, name, given, r),
        table.contains_key(name),
        table[name].0.len() != given.len(),
    ensures
        r == Err::<CallOutcome, CallError>(CallError::ArityMismatch),
{
}

/// A call to a function with zero declared results can only succeed
/// with the "no value" marker, never with a numeric placeholder.
pub proof fn lemma_no_result_returns_marker(
    table: Map<Seq<char>, (Seq<WasmType>, Seq<WasmType>)>,
    name: Seq<char>,
    given: Seq<HostValue>,
    r: Result<CallOutcome, CallError>,
)
    requires
        call_post(table, name, given, r),
        table.contains_key(name),
        table[name].0.len() == given.len(),
        table[name].1.len() == 0,
        r is Ok,
    ensures
        r == Ok::<CallOutcome, CallError>(CallOutcome::NoValue),
{
}

/// A call to a function whose first declared result is a 128-bit
/// vector, on arguments that all convert, never succeeds: it is
/// reported as unsupported (or as the trap the execution hit), never
/// truncated or reinterpreted into a scalar.
pub proof fn lemma_vector_result_unsupported(
    table: Map<Seq<char>, (Seq<WasmType>, Seq<WasmType>)>,
    name: Seq<char>,
    given: Seq<HostValue>,
    r: Result<CallOutcome, CallError>,
)
    requires
        call_post(table, name, given, r),
        table.contains_key(name),
        table[name].0.len() == given.len(),
        args_convertible(table[name].0, given),
        table[name].1.len() > 0,
        table[name].1[0] == WasmType::V128,
    ensures
        r == Err::<CallOutcome, CallError>(CallError::UnsupportedReturnType) || r matches Err(
            CallError::RuntimeTrap(_),
        ),
{
}

} // verus!
