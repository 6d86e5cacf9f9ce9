use vstd::prelude::*;
use vstd::string::StringExecFns;
use crate::errors::{CallError, ConversionReason};
use crate::values::{HostCategory, WasmType};

verus! {

// Every failure variant renders to exactly one stable, human-readable
// message. Control flow everywhere else stays on structured values;
// text is produced only here, at the reporting boundary.

/// The decimal digit character for one digit value.
pub open spec fn spec_digit_char(d: nat) -> char {
    if d == 0 {
        '0'
    } else if d == 1 {
        '1'
    } else if d == 2 {
        '2'
    } else if d == 3 {
        '3'
    } else if d == 4 {
        '4'
    } else if d == 5 {
        '5'
    } else if d == 6 {
        '6'
    } else if d == 7 {
        '7'
    } else if d == 8 {
        '8'
    } else {
        '9'
    }
}

/// The decimal rendering of a number, most significant digit first,
/// without leading zeros (a lone zero renders as "0").
pub open spec fn spec_decimal(n: nat) -> Seq<char>
    decreases n,
{
    if n < 10 {
        seq![spec_digit_char(n)]
    } else {
        spec_decimal(n / 10).push(spec_digit_char(n % 10))
    }
}

/// One decimal digit as text.
fn digit_str(d: usize) -> (r: &'static str)
    requires
        d < 10,
    ensures
        r@ == seq![spec_digit_char(d as nat)],
{
    proof {
        reveal_strlit("0");
        reveal_strlit("1");
        reveal_strlit("2");
        reveal_strlit("3");
        reveal_strlit("4");
        reveal_strlit("5");
        reveal_strlit("6");
        reveal_strlit("7");
        reveal_strlit("8");
        reveal_strlit("9");
    }
    let r: &'static str = match d {
        0 => "0",
        1 => "1",
        2 => "2",
        3 => "3",
        4 => "4",
        5 => "5",
        6 => "6",
        7 => "7",
        8 => "8",
        _ => "9",
    };
    proof {
        assert(r@ =~= seq![spec_digit_char(d as nat)]);
    }
    r
}

/// Appends the decimal rendering of `n`.
fn push_decimal(out: &mut String, n: usize)
    ensures
        final(out)@ == old(out)@ + spec_decimal(n as nat),
    decreases n,
{
    if n < 10 {
        out.append(digit_str(n));
    } else {
        push_decimal(out, n / 10);
        out.append(digit_str(n % 10));
        proof {
            assert(out@ =~= old(out)@ + spec_decimal(n as nat));
        }
    }
}

/// The name under which a host category is reported.
pub open spec fn spec_category_name(c: HostCategory) -> Seq<char> {
    match c {
        HostCategory::Number => "Number"@,
        HostCategory::Atom => "Atom"@,
        HostCategory::Binary => "Binary"@,
        HostCategory::EmptyList => "EmptyList"@,
        HostCategory::Exception => "Exception"@,
        HostCategory::Fun => "Fun"@,
        HostCategory::List => "List"@,
        HostCategory::MapTerm => "Map"@,
        HostCategory::Pid => "Pid"@,
        HostCategory::Port => "Port"@,
        HostCategory::RefTerm => "Ref"@,
        HostCategory::Tuple => "Tuple"@,
        HostCategory::Unknown => "Unknown"@,
    }
}

/// The name under which a host category is reported.
pub fn category_name(c: &HostCategory) -> (r: &'static str)
    ensures
        r@ == spec_category_name(*c),
{
    match c {
        HostCategory::Number => "Number",
        HostCategory::Atom => "Atom",
        HostCategory::Binary => "Binary",
        HostCategory::EmptyList => "EmptyList",
        HostCategory::Exception => "Exception",
        HostCategory::Fun => "Fun",
        HostCategory::List => "List",
        HostCategory::MapTerm => "Map",
        HostCategory::Pid => "Pid",
        HostCategory::Port => "Port",
        HostCategory::RefTerm => "Ref",
        HostCategory::Tuple => "Tuple",
        HostCategory::Unknown => "Unknown",
    }
}

/// The name under which a machine value type is reported.
pub open spec fn spec_type_name(t: WasmType) -> Seq<char> {
    match t {
        WasmType::I32 => "i32"@,
        WasmType::I64 => "i64"@,
        WasmType::F32 => "f32"@,
        WasmType::F64 => "f64"@,
        WasmType::V128 => "v128"@,
        WasmType::FuncRef => "funcref"@,
        WasmType::ExternRef => "externref"@,
    }
}

/// The name under which a machine value type is reported.
pub fn value_type_name(t: &WasmType) -> (r: &'static str)
    ensures
        r@ == spec_type_name(*t),
{
    match t {
        WasmType::I32 => "i32",
        WasmType::I64 => "i64",
        WasmType::F32 => "f32",
        WasmType::F64 => "f64",
        WasmType::V128 => "v128",
        WasmType::FuncRef => "funcref",
        WasmType::ExternRef => "externref",
    }
}

/// The one message each failure renders to.
pub open spec fn spec_describe(e: CallError) -> Seq<char> {
    match e {
        CallError::NotFound => "function not found"@,
        CallError::ArityMismatch => "number of params does not match"@,
        CallError::Conversion(ce) => match ce.reason {
            ConversionReason::NumericDecodeFailed { expected } => "Cannot convert argument #"@
                + spec_decimal(ce.position as nat) + " to a WebAssembly "@ + spec_type_name(
                expected,
            ) + " value."@,
            ConversionReason::UnsupportedPairing { observed } => "Cannot convert argument #"@
                + spec_decimal(ce.position as nat) + " to a WebAssembly value. Given `"@
                + spec_category_name(observed) + "`."@,
        },
        CallError::RuntimeTrap(diag) => "Runtime Error `"@ + diag@ + "`."@,
        CallError::UnsupportedReturnType => "unable_to_return_v128_type"@,
    }
}

/// Renders a call failure as its stable, human-readable message.
/// The mapping is total: every variant has exactly one rendering.
pub fn describe(e: &CallError) -> (r: String)
    ensures
        r@ == spec_describe(*e),
{
    match e {
        CallError::NotFound => String::from_str("function not found"),
        CallError::ArityMismatch => String::from_str("number of params does not match"),
        CallError::Conversion(ce) => {
            let mut s = String::from_str("Cannot convert argument #");
            push_decimal(&mut s, ce.position);
            match &ce.reason {
                ConversionReason::NumericDecodeFailed { expected } => {
                    s.append(" to a WebAssembly ");
                    s.append(value_type_name(expected));
                    s.append(" value.");
                },
                ConversionReason::UnsupportedPairing { observed } => {
                    s.append(" to a WebAssembly value. Given `");
                    s.append(category_name(observed));
                    s.append("`.");
                },
            }
            s
        },
        CallError::RuntimeTrap(diag) => {
            let mut s = String::from_str("Runtime Error `");
            s.append(diag.as_str());
            s.append("`.");
            s
        },
        CallError::UnsupportedReturnType => String::from_str("unable_to_return_v128_type"),
    }
}

} // verus!
