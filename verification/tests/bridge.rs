use wasmex::{
    call_exported_function, describe, function_export_exists, new_from_bytes, CallError,
    CallOutcome, ConversionError, ConversionReason, HostCategory, HostValue, InstantiationError,
    NumberValue, WasmType,
};

/// `(module (func (export "add") (param i32 i32) (result i32)
///    local.get 0 local.get 1 i32.add))`
fn add_module() -> Vec<u8> {
    vec![
        0x00, 0x61, 0x73, 0x6D, 0x01, 0x00, 0x00, 0x00, // magic, version
        0x01, 0x07, 0x01, 0x60, 0x02, 0x7F, 0x7F, 0x01, 0x7F, // type (i32,i32)->i32
        0x03, 0x02, 0x01, 0x00, // one function of type 0
        0x07, 0x07, 0x01, 0x03, 0x61, 0x64, 0x64, 0x00, 0x00, // export "add"
        0x0A, 0x09, 0x01, 0x07, 0x00, 0x20, 0x00, 0x20, 0x01, 0x6A, 0x0B, // body
    ]
}

/// `(module (func (export "run")))`
fn no_result_module() -> Vec<u8> {
    vec![
        0x00, 0x61, 0x73, 0x6D, 0x01, 0x00, 0x00, 0x00, //
        0x01, 0x04, 0x01, 0x60, 0x00, 0x00, // type ()->()
        0x03, 0x02, 0x01, 0x00, //
        0x07, 0x07, 0x01, 0x03, 0x72, 0x75, 0x6E, 0x00, 0x00, // export "run"
        0x0A, 0x04, 0x01, 0x02, 0x00, 0x0B, // empty body
    ]
}

/// `(module (func (export "boom") unreachable))`
fn trapping_module() -> Vec<u8> {
    vec![
        0x00, 0x61, 0x73, 0x6D, 0x01, 0x00, 0x00, 0x00, //
        0x01, 0x04, 0x01, 0x60, 0x00, 0x00, //
        0x03, 0x02, 0x01, 0x00, //
        0x07, 0x08, 0x01, 0x04, 0x62, 0x6F, 0x6F, 0x6D, 0x00, 0x00, // export "boom"
        0x0A, 0x05, 0x01, 0x03, 0x00, 0x00, 0x0B, // unreachable
    ]
}

/// `(module (func (export "a") (param i64) (result i64) local.get 0)
///    (func (export "b") (param f32) (result f32) local.get 0)
///    (func (export "c") (param f64) (result f64) local.get 0))`
fn echo_module() -> Vec<u8> {
    vec![
        0x00, 0x61, 0x73, 0x6D, 0x01, 0x00, 0x00, 0x00, //
        0x01, 0x10, 0x03, 0x60, 0x01, 0x7E, 0x01, 0x7E, 0x60, 0x01, 0x7D, 0x01, 0x7D, 0x60, 0x01,
        0x7C, 0x01, 0x7C, // three echo types
        0x03, 0x04, 0x03, 0x00, 0x01, 0x02, //
        0x07, 0x0D, 0x03, 0x01, 0x61, 0x00, 0x00, 0x01, 0x62, 0x00, 0x01, 0x01, 0x63, 0x00,
        0x02, // exports "a" "b" "c"
        0x0A, 0x10, 0x03, 0x04, 0x00, 0x20, 0x00, 0x0B, 0x04, 0x00, 0x20, 0x00, 0x0B, 0x04, 0x00,
        0x20, 0x00, 0x0B, // bodies: local.get 0
    ]
}

/// `(module (func (export "vec") (result v128) v128.const i32x4 0 0 0 0))`
fn vector_result_module() -> Vec<u8> {
    let mut m = vec![
        0x00, 0x61, 0x73, 0x6D, 0x01, 0x00, 0x00, 0x00, //
        0x01, 0x05, 0x01, 0x60, 0x00, 0x01, 0x7B, // type ()->v128
        0x03, 0x02, 0x01, 0x00, //
        0x07, 0x07, 0x01, 0x03, 0x76, 0x65, 0x63, 0x00, 0x00, // export "vec"
        0x0A, 0x16, 0x01, 0x14, 0x00, 0xFD, 0x0C, // v128.const
    ];
    m.extend([0u8; 16]);
    m.push(0x0B);
    m
}

fn num(n: i128) -> HostValue {
    HostValue::Number(NumberValue::Int(n))
}

fn float(x: f64) -> HostValue {
    HostValue::Number(NumberValue::FloatBits(x.to_bits()))
}

#[test]
fn add_scenario_returns_sum() {
    let res = new_from_bytes(&add_module()).unwrap();
    let r = call_exported_function(&res, "add", &vec![num(2), num(3)]);
    assert_eq!(r, Ok(CallOutcome::Value(num(5))));
}

#[test]
fn add_scenario_non_number_argument() {
    let res = new_from_bytes(&add_module()).unwrap();
    let r = call_exported_function(&res, "add", &vec![HostValue::Binary, num(3)]);
    assert_eq!(
        r,
        Err(CallError::Conversion(ConversionError {
            position: 1,
            reason: ConversionReason::UnsupportedPairing {
                observed: HostCategory::Binary,
            },
        }))
    );
}

#[test]
fn add_scenario_arity_mismatch() {
    let res = new_from_bytes(&add_module()).unwrap();
    let r = call_exported_function(&res, "add", &vec![num(2)]);
    assert_eq!(r, Err(CallError::ArityMismatch));
    let r = call_exported_function(&res, "add", &vec![num(1), num(2), num(3)]);
    assert_eq!(r, Err(CallError::ArityMismatch));
    // the arity check comes before any conversion
    let r = call_exported_function(&res, "add", &vec![HostValue::Atom]);
    assert_eq!(r, Err(CallError::ArityMismatch));
}

#[test]
fn add_scenario_missing_function() {
    let res = new_from_bytes(&add_module()).unwrap();
    let r = call_exported_function(&res, "missing_fn", &vec![]);
    assert_eq!(r, Err(CallError::NotFound));
}

#[test]
fn export_exists_iff_exported() {
    let res = new_from_bytes(&add_module()).unwrap();
    assert!(function_export_exists(&res, "add"));
    assert!(!function_export_exists(&res, "missing_fn"));
    assert!(!function_export_exists(&res, ""));
}

#[test]
fn i32_boundaries_convert_exactly() {
    let res = new_from_bytes(&add_module()).unwrap();
    let r = call_exported_function(&res, "add", &vec![num(2147483647), num(0)]);
    assert_eq!(r, Ok(CallOutcome::Value(num(2147483647))));
    let r = call_exported_function(&res, "add", &vec![num(-2147483648), num(0)]);
    assert_eq!(r, Ok(CallOutcome::Value(num(-2147483648))));
    let r = call_exported_function(&res, "add", &vec![num(2147483648), num(0)]);
    assert_eq!(
        r,
        Err(CallError::Conversion(ConversionError {
            position: 1,
            reason: ConversionReason::NumericDecodeFailed {
                expected: WasmType::I32,
            },
        }))
    );
    let r = call_exported_function(&res, "add", &vec![num(0), num(-2147483649)]);
    assert_eq!(
        r,
        Err(CallError::Conversion(ConversionError {
            position: 2,
            reason: ConversionReason::NumericDecodeFailed {
                expected: WasmType::I32,
            },
        }))
    );
}

#[test]
fn i32_rejects_floats() {
    let res = new_from_bytes(&add_module()).unwrap();
    let r = call_exported_function(&res, "add", &vec![num(2), float(3.0)]);
    assert_eq!(
        r,
        Err(CallError::Conversion(ConversionError {
            position: 2,
            reason: ConversionReason::NumericDecodeFailed {
                expected: WasmType::I32,
            },
        }))
    );
}

#[test]
fn no_result_returns_marker() {
    let res = new_from_bytes(&no_result_module()).unwrap();
    let r = call_exported_function(&res, "run", &vec![]);
    assert_eq!(r, Ok(CallOutcome::NoValue));
}

#[test]
fn trap_is_reported_not_propagated() {
    let res = new_from_bytes(&trapping_module()).unwrap();
    let r = call_exported_function(&res, "boom", &vec![]);
    match r {
        Err(CallError::RuntimeTrap(diag)) => {
            let msg = describe(&CallError::RuntimeTrap(diag));
            assert!(msg.starts_with("Runtime Error `"));
            assert!(msg.ends_with("`."));
        }
        other => panic!("expected a runtime trap, got {:?}", other),
    }
}

#[test]
fn i64_roundtrip_through_vm() {
    let res = new_from_bytes(&echo_module()).unwrap();
    let r = call_exported_function(&res, "a", &vec![num(9007199254740993)]);
    assert_eq!(r, Ok(CallOutcome::Value(num(9007199254740993))));
    let r = call_exported_function(&res, "a", &vec![num(i128::from(i64::MAX) + 1)]);
    assert_eq!(
        r,
        Err(CallError::Conversion(ConversionError {
            position: 1,
            reason: ConversionReason::NumericDecodeFailed {
                expected: WasmType::I64,
            },
        }))
    );
}

#[test]
fn f32_exact_roundtrip_through_vm() {
    let res = new_from_bytes(&echo_module()).unwrap();
    let r = call_exported_function(&res, "b", &vec![float(1.5)]);
    assert_eq!(r, Ok(CallOutcome::Value(float(1.5))));
    // a double whose value is a subnormal 32-bit float
    let tiny = f32::from_bits(1) as f64;
    let r = call_exported_function(&res, "b", &vec![float(tiny)]);
    assert_eq!(r, Ok(CallOutcome::Value(float(tiny))));
}

#[test]
fn f32_inexact_double_is_refused() {
    let res = new_from_bytes(&echo_module()).unwrap();
    let r = call_exported_function(&res, "b", &vec![float(0.1)]);
    assert_eq!(
        r,
        Err(CallError::Conversion(ConversionError {
            position: 1,
            reason: ConversionReason::NumericDecodeFailed {
                expected: WasmType::F32,
            },
        }))
    );
}

#[test]
fn f64_roundtrip_through_vm() {
    let res = new_from_bytes(&echo_module()).unwrap();
    let r = call_exported_function(&res, "c", &vec![float(0.1)]);
    assert_eq!(r, Ok(CallOutcome::Value(float(0.1))));
    let r = call_exported_function(&res, "c", &vec![num(1)]);
    assert_eq!(
        r,
        Err(CallError::Conversion(ConversionError {
            position: 1,
            reason: ConversionReason::NumericDecodeFailed {
                expected: WasmType::F64,
            },
        }))
    );
}

#[test]
fn vector_result_is_unsupported() {
    let res = new_from_bytes(&vector_result_module()).unwrap();
    let r = call_exported_function(&res, "vec", &vec![]);
    assert_eq!(r, Err(CallError::UnsupportedReturnType));
}

#[test]
fn invalid_module_is_refused() {
    assert_eq!(
        new_from_bytes(&[0x00, 0x01, 0x02, 0x03]).err(),
        Some(InstantiationError::CouldNotInstantiate)
    );
    assert_eq!(
        new_from_bytes(&[]).err(),
        Some(InstantiationError::CouldNotInstantiate)
    );
    // only the binary encoding is accepted, never text
    assert_eq!(
        new_from_bytes(b"(module)").err(),
        Some(InstantiationError::CouldNotInstantiate)
    );
}
