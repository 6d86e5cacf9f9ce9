use vstd::prelude::*;

verus! {

/// The type of a WebAssembly value, as it appears in an exported
/// function's signature.
#[derive(Debug, Clone, Copy, PartialEq, Eq)]
pub enum WasmType {
    I32,
    I64,
    F32,
    F64,
    V128,
    FuncRef,
    ExternRef,
}

/// A value in the virtual machine's value domain: the tag tells the
/// type. Floating-point values are carried as their IEEE 754 bit
/// patterns, so that every variant is a plain integer the contracts
/// can speak about.
#[derive(Debug, Clone, Copy, PartialEq, Eq)]
pub enum TypedValue {
    I32(i32),
    I64(i64),
    F32Bits(u32),
    F64Bits(u64),
    V128(u128),
}

/// A number handed in by the host: either an integer, or a
/// double-precision float carried as its IEEE 754 bit pattern.
/// Integers beyond the range of `i128` cannot be represented; a host
/// boundary maps them to the nearest extreme, which converts to the
/// same outcomes, since every conversion target is narrower.
#[derive(Debug, Clone, Copy, PartialEq, Eq)]
pub enum NumberValue {
    Int(i128),
    FloatBits(u64),
}

/// A dynamically-typed value from the host environment. Only the
/// number category carries data the bridge reads; every other
/// category is opaque and can never convert to a machine value.
/// The set mirrors the host's runtime term tags.
#[derive(Debug, Clone, Copy, PartialEq, Eq)]
pub enum HostValue {
    Number(NumberValue),
    Atom,
    Binary,
    EmptyList,
    Exception,
    Fun,
    List,
    MapTerm,
    Pid,
    Port,
    RefTerm,
    Tuple,
    Unknown,
}

/// The runtime category of a host value, carried inside conversion
/// errors so the reporter can say what was observed.
#[derive(Debug, Clone, Copy, PartialEq, Eq)]
pub enum HostCategory {
    Number,
    Atom,
    Binary,
    EmptyList,
    Exception,
    Fun,
    List,
    MapTerm,
    Pid,
    Port,
    RefTerm,
    Tuple,
    Unknown,
}

/// The signature of an exported function: its ordered parameter types
/// and its ordered result types.
#[derive(Debug, Clone)]
pub struct FuncSig {
    pub params: Vec<WasmType>,
    pub results: Vec<WasmType>,
}

/// Whether a machine value carries exactly the given type.
pub open spec fn value_has_type(v: TypedValue, t: WasmType) -> bool {
    match v {
        TypedValue::I32(_) => t == WasmType::I32,
        TypedValue::I64(_) => t == WasmType::I64,
        TypedValue::F32Bits(_) => t == WasmType::F32,
        TypedValue::F64Bits(_) => t == WasmType::F64,
        TypedValue::V128(_) => t == WasmType::V128,
    }
}

/// The category a host value falls under.
pub open spec fn spec_category_of(v: HostValue) -> HostCategory {
    match v {
        HostValue::Number(_) => HostCategory::Number,
        HostValue::Atom => HostCategory::Atom,
        HostValue::Binary => HostCategory::Binary,
        HostValue::EmptyList => HostCategory::EmptyList,
        HostValue::Exception => HostCategory::Exception,
        HostValue::Fun => HostCategory::Fun,
        HostValue::List => HostCategory::List,
        HostValue::MapTerm => HostCategory::MapTerm,
        HostValue::Pid => HostCategory::Pid,
        HostValue::Port => HostCategory::Port,
        HostValue::RefTerm => HostCategory::RefTerm,
        HostValue::Tuple => HostCategory::Tuple,
        HostValue::Unknown => HostCategory::Unknown,
    }
}

/// Classifies a host value into its marshaling category.
pub fn category_of(v: &HostValue) -> (r: HostCategory)
    ensures
        r == spec_category_of(*v),
{
    match v {
        HostValue::Number(_) => HostCategory::Number,
        HostValue::Atom => HostCategory::Atom,
        HostValue::Binary => HostCategory::Binary,
        HostValue::EmptyList => HostCategory::EmptyList,
        HostValue::Exception => HostCategory::Exception,
        HostValue::Fun => HostCategory::Fun,
        HostValue::List => HostCategory::List,
        HostValue::MapTerm => HostCategory::MapTerm,
        HostValue::Pid => HostCategory::Pid,
        HostValue::Port => HostCategory::Port,
        HostValue::RefTerm => HostCategory::RefTerm,
        HostValue::Tuple => HostCategory::Tuple,
        HostValue::Unknown => HostCategory::Unknown,
    }
}

} // verus!
