//! A call bridge between a dynamically-typed host and a WebAssembly
//! virtual machine: it instantiates a binary module, resolves
//! exported functions by name, validates arity, converts host values
//! against the declared parameter types, invokes under an exclusive
//! lock, and hands a typed result (or a structured failure) back.
//! Every rule of the bridge is stated in contracts and verified; the
//! engine itself is reached only through small trusted wrappers.

pub mod call;
pub mod errors;
pub mod floatbits;
pub mod instance;
pub mod marshal;
pub mod reporter;
pub mod values;

pub use call::{call_exported_function, call_post, encode_results};
pub use instance::{function_export_exists, new_from_bytes, resolve_function, InstanceResource};
pub use errors::{CallError, CallOutcome, ConversionError, ConversionReason, InstantiationError};
pub use reporter::describe;
pub use values::{FuncSig, HostCategory, HostValue, NumberValue, TypedValue, WasmType};
