use wasmex::encode_results;
use wasmex::floatbits::{demote_f64_bits_exact, promote_f32_bits};
use wasmex::marshal::{convert_args, to_vm};
use wasmex::reporter::{category_name, value_type_name};
use wasmex::{
    describe, CallError, CallOutcome, ConversionError, ConversionReason, HostCategory, HostValue,
    NumberValue, TypedValue, WasmType,
};

#[test]
fn promotion_agrees_with_hardware_widening() {
    for bits in [
        0u32,
        0x8000_0000,          // -0.0
        1,                    // smallest subnormal
        0x0000_0007,          // subnormal
        0x007F_FFFF,          // largest subnormal
        0x0080_0000,          // smallest normal
        0x3FC0_0000,          // 1.5
        0x7F7F_FFFF,          // largest finite
        0x7F80_0000,          // infinity
        0xFF80_0000,          // -infinity
        0x7FC0_0001,          // NaN with payload
        0xC000_0000,          // -2.0
    ] {
        let expected = (f32::from_bits(bits) as f64).to_bits();
        assert_eq!(promote_f32_bits(bits), expected, "bits {bits:#x}");
    }
}

#[test]
fn demotion_agrees_with_hardware_on_exact_values() {
    for bits in [
        0u32, 0x8000_0000, 1, 0x0000_0007, 0x007F_FFFF, 0x0080_0000, 0x3FC0_0000, 0x7F7F_FFFF,
        0x7F80_0000, 0xFF80_0000, 0xC000_0000,
    ] {
        let wide = (f32::from_bits(bits) as f64).to_bits();
        assert_eq!(demote_f64_bits_exact(wide), Some(bits), "bits {bits:#x}");
    }
}

#[test]
fn demotion_refuses_inexact_values() {
    assert_eq!(demote_f64_bits_exact(0.1f64.to_bits()), None);
    assert_eq!(demote_f64_bits_exact(1e300f64.to_bits()), None);
    assert_eq!(demote_f64_bits_exact(1e-300f64.to_bits()), None);
    assert_eq!(demote_f64_bits_exact(f64::MIN_POSITIVE.to_bits()), None);
}

#[test]
fn to_vm_is_type_directed() {
    let five = HostValue::Number(NumberValue::Int(5));
    assert_eq!(
        to_vm(WasmType::I32, &five, 1),
        Ok(TypedValue::I32(5))
    );
    assert_eq!(
        to_vm(WasmType::I64, &five, 1),
        Ok(TypedValue::I64(5))
    );
    assert_eq!(
        to_vm(WasmType::F64, &five, 3),
        Err(ConversionError {
            position: 3,
            reason: ConversionReason::NumericDecodeFailed {
                expected: WasmType::F64,
            },
        })
    );
    let half = HostValue::Number(NumberValue::FloatBits(0.5f64.to_bits()));
    assert_eq!(
        to_vm(WasmType::F32, &half, 1),
        Ok(TypedValue::F32Bits(0.5f32.to_bits()))
    );
    assert_eq!(
        to_vm(WasmType::F64, &half, 1),
        Ok(TypedValue::F64Bits(0.5f64.to_bits()))
    );
    assert_eq!(
        to_vm(WasmType::V128, &five, 2),
        Err(ConversionError {
            position: 2,
            reason: ConversionReason::UnsupportedPairing {
                observed: HostCategory::Number,
            },
        })
    );
    assert_eq!(
        to_vm(WasmType::I32, &HostValue::MapTerm, 4),
        Err(ConversionError {
            position: 4,
            reason: ConversionReason::UnsupportedPairing {
                observed: HostCategory::MapTerm,
            },
        })
    );
}

#[test]
fn convert_args_stops_at_first_failure() {
    let params = vec![WasmType::I32, WasmType::I32, WasmType::I32];
    let given = vec![
        HostValue::Number(NumberValue::Int(1)),
        HostValue::Atom,
        HostValue::Tuple,
    ];
    assert_eq!(
        convert_args(&params, &given),
        Err(CallError::Conversion(ConversionError {
            position: 2,
            reason: ConversionReason::UnsupportedPairing {
                observed: HostCategory::Atom,
            },
        }))
    );
    assert_eq!(
        convert_args(&params, &vec![]),
        Err(CallError::ArityMismatch)
    );
    let ok = vec![
        HostValue::Number(NumberValue::Int(1)),
        HostValue::Number(NumberValue::Int(2)),
        HostValue::Number(NumberValue::Int(3)),
    ];
    assert_eq!(
        convert_args(&params, &ok),
        Ok(vec![
            TypedValue::I32(1),
            TypedValue::I32(2),
            TypedValue::I32(3)
        ])
    );
}

#[test]
fn encode_results_marks_no_value_and_vectors() {
    assert_eq!(encode_results(&vec![]), Ok(CallOutcome::NoValue));
    assert_eq!(
        encode_results(&vec![TypedValue::V128(7)]),
        Err(CallError::UnsupportedReturnType)
    );
    assert_eq!(
        encode_results(&vec![TypedValue::I32(-3)]),
        Ok(CallOutcome::Value(HostValue::Number(NumberValue::Int(-3))))
    );
    assert_eq!(
        encode_results(&vec![TypedValue::I64(10), TypedValue::I64(11)]),
        Ok(CallOutcome::Value(HostValue::Number(NumberValue::Int(10))))
    );
    assert_eq!(
        encode_results(&vec![TypedValue::F32Bits(1.5f32.to_bits())]),
        Ok(CallOutcome::Value(HostValue::Number(NumberValue::FloatBits(
            1.5f64.to_bits()
        ))))
    );
}

#[test]
fn every_failure_has_one_message() {
    assert_eq!(describe(&CallError::NotFound), "function not found");
    assert_eq!(
        describe(&CallError::ArityMismatch),
        "number of params does not match"
    );
    assert_eq!(
        describe(&CallError::Conversion(ConversionError {
            position: 1,
            reason: ConversionReason::NumericDecodeFailed {
                expected: WasmType::I32,
            },
        })),
        "Cannot convert argument #1 to a WebAssembly i32 value."
    );
    assert_eq!(
        describe(&CallError::Conversion(ConversionError {
            position: 12,
            reason: ConversionReason::UnsupportedPairing {
                observed: HostCategory::MapTerm,
            },
        })),
        "Cannot convert argument #12 to a WebAssembly value. Given `Map`."
    );
    assert_eq!(
        describe(&CallError::RuntimeTrap(String::from("out of bounds"))),
        "Runtime Error `out of bounds`."
    );
    assert_eq!(
        describe(&CallError::UnsupportedReturnType),
        "unable_to_return_v128_type"
    );
}

#[test]
fn reported_names_match_the_host_tags() {
    assert_eq!(category_name(&HostCategory::RefTerm), "Ref");
    assert_eq!(category_name(&HostCategory::MapTerm), "Map");
    assert_eq!(category_name(&HostCategory::EmptyList), "EmptyList");
    assert_eq!(value_type_name(&WasmType::V128), "v128");
}
