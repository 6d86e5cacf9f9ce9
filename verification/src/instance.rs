use vstd::prelude::*;
use vstd::pervasive::arbitrary;
use crate::errors::InstantiationError;
use crate::values::{value_has_type, FuncSig, TypedValue, WasmType};

verus! {

// The live virtual machine sits behind this module. The engine, its
// store and the instantiated module are opaque to the verifier;
// every operation on them is a small trusted wrapper whose contract
// states what the engine's own documentation and source promise.
// The export table of an instance is fixed at instantiation, so it
// can be modeled as one ghost map from export name to signature:
// every wrapper speaks about that same map.

/// Declares `std::sync::Mutex`, the exclusive-access guard around
/// the execution context; its value is opaque to the verifier.
#[verifier::external_type_specification]
#[verifier::external_body]
#[verifier::reject_recursive_types(T)]
pub struct ExMutex<T: ?Sized>(std::sync::Mutex<T>);

/// Declares `wasmi::Store`, the engine's runtime state; opaque.
#[verifier::external_type_specification]
#[verifier::external_body]
#[verifier::reject_recursive_types(T)]
pub struct ExStore<T>(wasmi::Store<T>);

/// Declares `wasmi::Instance`, the handle to an instantiated
/// module; opaque.
#[verifier::external_type_specification]
#[verifier::external_body]
pub struct ExInstance(wasmi::Instance);

/// Declares `wasmi::Val`, the engine's own tagged value; opaque, so
/// it can only be carried through, never inspected here.
#[verifier::external_type_specification]
#[verifier::external_body]
pub struct ExVal(wasmi::Val);

/// The mutable execution context: the store carries all runtime
/// state of the virtual machine, the instance is the handle to the
/// instantiated module inside it.
struct VmState {
    store: wasmi::Store<()>,
    instance: wasmi::Instance,
}

/// An exclusively-owned, live module execution context. At most one
/// caller at a time executes against it: every operation that
/// touches the virtual machine first takes the lock, and releases it
/// on every exit path.
pub struct InstanceResource {
    cell: std::sync::Mutex<VmState>,
    exports: Ghost<Map<Seq<char>, (Seq<WasmType>, Seq<WasmType>)>>,
}

impl InstanceResource {
    /// The instance's function export table: for each exported
    /// function name, its parameter types and its result types, in
    /// declaration order. Fixed at instantiation.
    pub closed spec fn export_table(self) -> Map<Seq<char>, (Seq<WasmType>, Seq<WasmType>)> {
        self.exports@
    }
}

/// Relies on wasmi: `Module::new` decodes and validates the bytes,
/// `Linker::instantiate_and_start` links with an empty import set
/// and runs the start function; each failure of either becomes the
/// one opaque instantiation error. Which byte strings are accepted
/// is the engine's decision, so nothing is promised about the
/// outcome.
#[verifier::external_body]
fn vm_instantiate(bytes: &[u8]) -> (r: Result<std::sync::Mutex<VmState>, InstantiationError>) {
    let mut config = wasmi::Config::default();
    config.wasm_reference_types(false);
    let engine = wasmi::Engine::new(&config);
    let module = match wasmi::Module::new(&engine, bytes) {
        Ok(m) => m,
        Err(_) => return Err(InstantiationError::CouldNotInstantiate),
    };
    let mut store = wasmi::Store::new(&engine, ());
    let linker: wasmi::Linker<()> = wasmi::Linker::new(&engine);
    match linker.instantiate_and_start(&mut store, &module) {
        Ok(instance) => Ok(std::sync::Mutex::new(VmState { store, instance })),
        Err(_) => Err(InstantiationError::CouldNotInstantiate),
    }
}

/// Compiles, validates and instantiates a binary module with an
/// empty import set, and wraps the result as a lockable resource
/// whose export table is fixed from here on.
pub fn new_from_bytes(bytes: &[u8]) -> (r: Result<InstanceResource, InstantiationError>) {
    match vm_instantiate(bytes) {
        Ok(cell) => Ok(InstanceResource { cell, exports: Ghost(arbitrary()) }),
        Err(e) => Err(e),
    }
}

/// Relies on wasmi's `Instance::get_func`: it returns a function for
/// exactly the names that the instantiated module exports as
/// functions, and the export table never changes after
/// instantiation.
#[verifier::external_body]
fn vm_exists(res: &InstanceResource, name: &str) -> (r: bool)
    ensures
        r == res.export_table().contains_key(name@),
{
    let g = match res.cell.lock() {
        Ok(g) => g,
        Err(p) => p.into_inner(),
    };
    g.instance.get_func(&g.store, name).is_some()
}

/// Relies on wasmi's `Instance::get_func` and `Func::ty`: the
/// returned type lists the export's declared parameter and result
/// types in order, and the lookup succeeds for exactly the exported
/// function names.
#[verifier::external_body]
fn vm_lookup(res: &InstanceResource, name: &str) -> (r: Option<FuncSig>)
    ensures
        match r {
            Some(sig) => res.export_table().contains_key(name@) && sig.params@
                == res.export_table()[name@].0 && sig.results@ == res.export_table()[name@].1,
            None => !res.export_table().contains_key(name@),
        },
{
    let g = match res.cell.lock() {
        Ok(g) => g,
        Err(p) => p.into_inner(),
    };
    let f = match g.instance.get_func(&g.store, name) {
        Some(f) => f,
        None => return None,
    };
    let ty = f.ty(&g.store);
    let params: Vec<WasmType> = ty.params().iter().map(|t| wasm_type_of(t)).collect();
    let results: Vec<WasmType> = ty.results().iter().map(|t| wasm_type_of(t)).collect();
    Some(FuncSig { params, results })
}

/// Relies on wasmi's value constructors: integers carry over
/// directly, floats are rebuilt from their bit patterns
/// (`F32::from_bits`, `F64::from_bits`), vectors from their 128-bit
/// pattern.
#[verifier::external_body]
fn to_val(v: &TypedValue) -> wasmi::Val {
    match v {
        TypedValue::I32(x) => wasmi::Val::I32(*x),
        TypedValue::I64(x) => wasmi::Val::I64(*x),
        TypedValue::F32Bits(b) => wasmi::Val::F32(wasmi::F32::from_bits(*b)),
        TypedValue::F64Bits(b) => wasmi::Val::F64(wasmi::F64::from_bits(*b)),
        TypedValue::V128(b) => wasmi::Val::V128(wasmi::V128::from(*b)),
    }
}

/// Relies on wasmi's value accessors, inverses of the constructors
/// above: integers and bit patterns carry over one for one. A
/// reference value has no representation on the host side, so a
/// sequence holding one maps to nothing.
#[verifier::external_body]
fn vals_from(outs: Vec<wasmi::Val>) -> Option<Vec<TypedValue>> {
    let mut vals: Vec<TypedValue> = Vec::new();
    for v in outs {
        vals.push(match v {
            wasmi::Val::I32(x) => TypedValue::I32(x),
            wasmi::Val::I64(x) => TypedValue::I64(x),
            wasmi::Val::F32(x) => TypedValue::F32Bits(x.to_bits()),
            wasmi::Val::F64(x) => TypedValue::F64Bits(x.to_bits()),
            wasmi::Val::V128(x) => TypedValue::V128(x.as_u128()),
            _ => return None,
        });
    }
    Some(vals)
}

/// Invokes the named export under the instance's lock.
///
/// Relies on wasmi's `Func::call`: on success it fills the output
/// buffer with exactly one value per declared result, each of its
/// declared type; on a trap or any other engine failure it reports
/// an error instead. Success or failure may depend on the module's
/// own state, so no outcome is promised, only the shape of each.
/// A result value outside the bridge's value domain comes back as
/// `Ok(None)`.
#[verifier::external_body]
fn vm_invoke(res: &InstanceResource, name: &str, inputs: &Vec<wasmi::Val>) -> (r: Result<
    Option<Vec<TypedValue>>,
    String,
>)
    ensures
        match r {
            Ok(opt) => match opt {
                Some(vals) => res.export_table().contains_key(name@) && vals@.len()
                    == res.export_table()[name@].1.len() && forall|i: int|
                    0 <= i < vals@.len() ==> value_has_type(
                        #[trigger] vals@[i],
                        res.export_table()[name@].1[i],
                    ),
                None => true,
            },
            Err(_) => true,
        },
{
    let mut g = match res.cell.lock() { Ok(g) => g, Err(p) => p.into_inner() };
    let vm = &mut *g;
    let f = match vm.instance.get_func(&vm.store, name) {
        Some(f) => f,
        None => return Err(String::from("function not found")),
    };
    let mut outs: Vec<wasmi::Val> = f.ty(&vm.store).results().iter().map(
        |t| wasmi::Val::default_for_ty(*t),
    ).collect();
    if let Err(e) = f.call(&mut vm.store, inputs.as_slice(), outs.as_mut_slice()) {
        return Err(format!("{}", e));
    }
    Ok(vals_from(outs))
}

/// True exactly when the instance exports a function of the given
/// name. Never mutates any state, and never fails: a miss is just
/// `false`.
pub fn function_export_exists(res: &InstanceResource, name: &str) -> (r: bool)
    ensures
        r == res.export_table().contains_key(name@),
{
    vm_exists(res, name)
}

/// Resolves an exported function by exact name and reports its
/// signature; a miss is an ordinary `None`, never an error.
pub fn resolve_function(res: &InstanceResource, name: &str) -> (r: Option<FuncSig>)
    ensures
        match r {
            Some(sig) => res.export_table().contains_key(name@) && sig.params@
                == res.export_table()[name@].0 && sig.results@ == res.export_table()[name@].1,
            None => !res.export_table().contains_key(name@),
        },
{
    vm_lookup(res, name)
}

/// Converts already-typed machine arguments into engine values.
fn build_inputs(args: &Vec<TypedValue>) -> Vec<wasmi::Val> {
    let mut inputs: Vec<wasmi::Val> = Vec::new();
    let mut i: usize = 0;
    while i < args.len()
        decreases args.len() - i,
    {
        inputs.push(to_val(&args[i]));
        i = i + 1;
    }
    inputs
}

/// Runs the named export on the given machine arguments, reporting
/// the machine results, `None` for a result outside the bridge's
/// value domain, or the engine's diagnostic text.
pub(crate) fn invoke(res: &InstanceResource, name: &str, args: &Vec<TypedValue>) -> (r: Result<
    Option<Vec<TypedValue>>,
    String,
>)
    ensures
        match r {
            Ok(opt) => match opt {
                Some(vals) => res.export_table().contains_key(name@) && vals@.len()
                    == res.export_table()[name@].1.len() && forall|i: int|
                    0 <= i < vals@.len() ==> value_has_type(
                        #[trigger] vals@[i],
                        res.export_table()[name@].1[i],
                    ),
                None => true,
            },
            Err(_) => true,
        },
{
    let inputs = build_inputs(args);
    vm_invoke(res, name, &inputs)
}

/// The library's own view of one engine-level value type.
pub open spec fn spec_wasm_type_of(t: wasmi::ValType) -> WasmType {
    match t {
        wasmi::ValType::I32 => WasmType::I32,
        wasmi::ValType::I64 => WasmType::I64,
        wasmi::ValType::F32 => WasmType::F32,
        wasmi::ValType::F64 => WasmType::F64,
        wasmi::ValType::V128 => WasmType::V128,
        wasmi::ValType::FuncRef => WasmType::FuncRef,
        wasmi::ValType::ExternRef => WasmType::ExternRef,
    }
}

/// Declares `wasmi::ValType` with its variants visible, so verified
/// code can case on the engine's value types directly.
#[verifier::external_type_specification]
pub struct ExValType(wasmi::ValType);

/// Maps an engine-level value type to the library's own model of it.
pub fn wasm_type_of(t: &wasmi::ValType) -> (r: WasmType)
    ensures
        r == spec_wasm_type_of(*t),
{
    match t {
        wasmi::ValType::I32 => WasmType::I32,
        wasmi::ValType::I64 => WasmType::I64,
        wasmi::ValType::F32 => WasmType::F32,
        wasmi::ValType::F64 => WasmType::F64,
        wasmi::ValType::V128 => WasmType::V128,
        wasmi::ValType::FuncRef => WasmType::FuncRef,
        wasmi::ValType::ExternRef => WasmType::ExternRef,
    }
}

} // verus!
