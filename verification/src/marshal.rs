use vstd::prelude::*;
use crate::errors::{CallError, ConversionError, ConversionReason};
use crate::floatbits::{demote_f64_bits_exact, lemma_demote_promote_roundtrip,
    lemma_promote_demote_roundtrip, promote_f32_bits, spec_demote_exact, spec_promote};
use crate::values::{spec_category_of, category_of, HostValue, NumberValue, TypedValue, WasmType};

verus! {

// Argument conversion is strict and type-directed: a host value is
// decoded against the declared parameter type, never guessed at from
// its own shape. Only the number category converts at all, and only
// when it decodes exactly at the declared width and representation.

/// What converting one host value against one expected parameter
/// type yields: the machine value, or the reason it cannot be made.
pub open spec fn arg_to_vm(t: WasmType, v: HostValue) -> Result<TypedValue, ConversionReason> {
    match (t, v) {
        (WasmType::I32, HostValue::Number(NumberValue::Int(n))) => if i32::MIN <= n
            <= i32::MAX {
            Ok(TypedValue::I32(n as i32))
        } else {
            Err(ConversionReason::NumericDecodeFailed { expected: WasmType::I32 })
        },
        (WasmType::I32, HostValue::Number(NumberValue::FloatBits(_))) => Err(
            ConversionReason::NumericDecodeFailed { expected: WasmType::I32 },
        ),
        (WasmType::I64, HostValue::Number(NumberValue::Int(n))) => if i64::MIN <= n
            <= i64::MAX {
            Ok(TypedValue::I64(n as i64))
        } else {
            Err(ConversionReason::NumericDecodeFailed { expected: WasmType::I64 })
        },
        (WasmType::I64, HostValue::Number(NumberValue::FloatBits(_))) => Err(
            ConversionReason::NumericDecodeFailed { expected: WasmType::I64 },
        ),
        (WasmType::F32, HostValue::Number(NumberValue::FloatBits(b))) => match spec_demote_exact(
            b,
        ) {
            Some(x) => Ok(TypedValue::F32Bits(x)),
            None => Err(ConversionReason::NumericDecodeFailed { expected: WasmType::F32 }),
        },
        (WasmType::F32, HostValue::Number(NumberValue::Int(_))) => Err(
            ConversionReason::NumericDecodeFailed { expected: WasmType::F32 },
        ),
        (WasmType::F64, HostValue::Number(NumberValue::FloatBits(b))) => Ok(
            TypedValue::F64Bits(b),
        ),
        (WasmType::F64, HostValue::Number(NumberValue::Int(_))) => Err(
            ConversionReason::NumericDecodeFailed { expected: WasmType::F64 },
        ),
        _ => Err(ConversionReason::UnsupportedPairing { observed: spec_category_of(v) }),
    }
}

/// Whether every argument in `given` converts against `params`.
pub open spec fn args_convertible(params: Seq<WasmType>, given: Seq<HostValue>) -> bool {
    forall|i: int| 0 <= i < params.len() ==> (#[trigger] arg_to_vm(params[i], given[i])) is Ok
}

/// How a machine result encodes back into a host value: a lossless
/// widening for the four numeric types, and nothing for a vector,
/// which the bridge cannot represent to the host.
pub open spec fn spec_encode_value(v: TypedValue) -> Option<HostValue> {
    match v {
        TypedValue::I32(n) => Some(HostValue::Number(NumberValue::Int(n as i128))),
        TypedValue::I64(n) => Some(HostValue::Number(NumberValue::Int(n as i128))),
        TypedValue::F32Bits(b) => Some(HostValue::Number(NumberValue::FloatBits(spec_promote(b)))),
        TypedValue::F64Bits(b) => Some(HostValue::Number(NumberValue::FloatBits(b))),
        TypedValue::V128(_) => None,
    }
}

/// Converts one host value against the expected parameter type at
/// the given 1-based position, as `arg_to_vm` says.
pub fn to_vm(expected: WasmType, given: &HostValue, position: usize) -> (r: Result<
    TypedValue,
    ConversionError,
>)
    ensures
        match arg_to_vm(expected, *given) {
            Ok(tv) => r == Ok::<TypedValue, ConversionError>(tv),
            Err(reason) => r == Err::<TypedValue, ConversionError>(
                ConversionError { position, reason },
            ),
        },
{
    match (expected, given) {
        (WasmType::I32, HostValue::Number(NumberValue::Int(n))) => {
            let n = *n;
            if -0x8000_0000i128 <= n && n <= 0x7FFF_FFFFi128 {
                Ok(TypedValue::I32(n as i32))
            } else {
                Err(ConversionError {
                    position,
                    reason: ConversionReason::NumericDecodeFailed { expected: WasmType::I32 },
                })
            }
        },
        (WasmType::I64, HostValue::Number(NumberValue::Int(n))) => {
            let n = *n;
            if -0x8000_0000_0000_0000i128 <= n && n <= 0x7FFF_FFFF_FFFF_FFFFi128 {
                Ok(TypedValue::I64(n as i64))
            } else {
                Err(ConversionError {
                    position,
                    reason: ConversionReason::NumericDecodeFailed { expected: WasmType::I64 },
                })
            }
        },
        (WasmType::F32, HostValue::Number(NumberValue::FloatBits(b))) => {
            match demote_f64_bits_exact(*b) {
                Some(x) => Ok(TypedValue::F32Bits(x)),
                None => Err(ConversionError {
                    position,
                    reason: ConversionReason::NumericDecodeFailed { expected: WasmType::F32 },
                }),
            }
        },
        (WasmType::F64, HostValue::Number(NumberValue::FloatBits(b))) => Ok(
            TypedValue::F64Bits(*b),
        ),
        (WasmType::I32, HostValue::Number(NumberValue::FloatBits(_))) => Err(ConversionError {
            position,
            reason: ConversionReason::NumericDecodeFailed { expected: WasmType::I32 },
        }),
        (WasmType::I64, HostValue::Number(NumberValue::FloatBits(_))) => Err(ConversionError {
            position,
            reason: ConversionReason::NumericDecodeFailed { expected: WasmType::I64 },
        }),
        (WasmType::F32, HostValue::Number(NumberValue::Int(_))) => Err(ConversionError {
            position,
            reason: ConversionReason::NumericDecodeFailed { expected: WasmType::F32 },
        }),
        (WasmType::F64, HostValue::Number(NumberValue::Int(_))) => Err(ConversionError {
            position,
            reason: ConversionReason::NumericDecodeFailed { expected: WasmType::F64 },
        }),
        _ => Err(ConversionError {
            position,
            reason: ConversionReason::UnsupportedPairing { observed: category_of(given) },
        }),
    }
}

/// Encodes a machine result as a host value. Vector results never
/// reach this function: the dispatcher intercepts them first.
pub fn from_vm(v: &TypedValue) -> (r: HostValue)
    requires
        !(*v is V128),
    ensures
        Some(r) == spec_encode_value(*v),
{
    match v {
        TypedValue::I32(n) => HostValue::Number(NumberValue::Int(*n as i128)),
        TypedValue::I64(n) => HostValue::Number(NumberValue::Int(*n as i128)),
        TypedValue::F32Bits(b) => HostValue::Number(NumberValue::FloatBits(promote_f32_bits(*b))),
        TypedValue::F64Bits(b) => HostValue::Number(NumberValue::FloatBits(*b)),
        TypedValue::V128(_) => HostValue::Unknown,
    }
}

/// Checks arity, then converts the given values left to right,
/// stopping at the first failure. The error, if any, carries the
/// 1-based position of the first argument that does not convert.
pub fn convert_args(params: &Vec<WasmType>, given: &Vec<HostValue>) -> (r: Result<
    Vec<TypedValue>,
    CallError,
>)
    ensures
        params@.len() != given@.len() ==> r == Err::<Vec<TypedValue>, CallError>(
            CallError::ArityMismatch,
        ),
        params@.len() == given@.len() ==> match r {
            Ok(vals) => vals@.len() == params@.len() && (forall|i: int|
                0 <= i < params@.len() ==> (#[trigger] arg_to_vm(params@[i], given@[i]))
                    == Ok::<TypedValue, ConversionReason>(vals@[i])),
            Err(e) => match e {
                CallError::Conversion(ce) => 1 <= ce.position <= params@.len() && (forall|j: int|
                    0 <= j < ce.position - 1 ==> (#[trigger] arg_to_vm(params@[j], given@[j]))
                        is Ok) && arg_to_vm(params@[ce.position - 1], given@[ce.position - 1])
                    == Err::<TypedValue, ConversionReason>(ce.reason),
                _ => false,
            },
        },
{
    let n = params.len();
    if n != given.len() {
        return Err(CallError::ArityMismatch);
    }
    let mut vals: Vec<TypedValue> = Vec::new();
    let mut i: usize = 0;
    while i < n
        invariant
            n == params@.len(),
            n == given@.len(),
            vals@.len() == i,
            i <= n,
            forall|k: int|
                0 <= k < i ==> (#[trigger] arg_to_vm(params@[k], given@[k])) == Ok::<
                    TypedValue,
                    ConversionReason,
                >(vals@[k]),
        decreases n - i,
    {
        match to_vm(params[i], &given[i], i + 1) {
            Ok(tv) => vals.push(tv),
            Err(ce) => {
                return Err(CallError::Conversion(ce));
            },
        }
        i = i + 1;
    }
    Ok(vals)
}

/// Against a 32-bit integer parameter, a number-category value
/// converts exactly when it is an integer representable in 32 bits;
/// every out-of-range or non-integral number is refused.
pub proof fn lemma_i32_conversion_exact(v: NumberValue)
    ensures
        arg_to_vm(WasmType::I32, HostValue::Number(v)) is Ok <==> (v matches NumberValue::Int(n)
            && i32::MIN <= n <= i32::MAX),
{
}

/// A host double that converts exactly against a 32-bit float
/// parameter comes back to the host unchanged when the machine value
/// is encoded again: the demotion loses nothing.
pub proof fn lemma_f32_roundtrip(b: u64)
    ensures
        match arg_to_vm(WasmType::F32, HostValue::Number(NumberValue::FloatBits(b))) {
            Ok(tv) => spec_encode_value(tv) == Some(
                HostValue::Number(NumberValue::FloatBits(b)),
            ),
            Err(_) => true,
        },
{
    match spec_demote_exact(b) {
        Some(c) => lemma_demote_promote_roundtrip(b, c),
        None => (),
    }
}

/// A 32-bit float result, encoded to the host and handed back
/// against a 32-bit float parameter, converts to the same machine
/// value: the widening is an exact embedding.
pub proof fn lemma_f32_result_roundtrip(c: u32)
    ensures
        match spec_encode_value(TypedValue::F32Bits(c)) {
            Some(h) => arg_to_vm(WasmType::F32, h) == Ok::<TypedValue, ConversionReason>(
                TypedValue::F32Bits(c),
            ),
            None => false,
        },
{
    lemma_promote_demote_roundtrip(c);
}

} // verus!
