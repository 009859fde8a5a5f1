//! The execution driver: builds a fresh, isolated execution context for one
//! byte buffer and runs the designated entry-point export to completion.
//!
//! Parsing, validation, instantiation and interpretation are the work of the
//! embedded `wasmi` interpreter. Each call into it stands behind a trusted
//! wrapper whose contract states what the interpreter's source shows; the
//! driver's own logic — phase ordering and failure classification — is
//! verified against those contracts.
use vstd::prelude::*;

verus! {

use crate::errors::ExecError;
use vstd::string::StringExecFns;

/// The fixed, well-known name of the designated entry-point export.
pub open spec fn entry_point_name() -> Seq<char> {
    "_run"@
}

#[verifier::external_type_specification]
#[verifier::external_body]
pub struct ExEngine(wasmi::Engine);

#[verifier::external_type_specification]
#[verifier::external_body]
pub struct ExModule(wasmi::Module);

#[verifier::external_type_specification]
#[verifier::external_body]
#[verifier::reject_recursive_types(T)]
pub struct ExStore<T>(wasmi::Store<T>);

#[verifier::external_type_specification]
#[verifier::external_body]
pub struct ExInstance(wasmi::Instance);

#[verifier::external_type_specification]
#[verifier::external_body]
pub struct ExFunc(wasmi::Func);

#[verifier::external_type_specification]
#[verifier::external_body]
#[verifier::reject_recursive_types(Params)]
#[verifier::reject_recursive_types(Results)]
pub struct ExTypedFunc<Params, Results>(wasmi::TypedFunc<Params, Results>);

#[verifier::external_type_specification]
#[verifier::external_body]
pub struct ExError(wasmi::Error);

/// Whether `wasmi::Module::new`, on a default-configured engine, accepts the
/// buffer as a well-formed, valid module. Validation is a pure function of
/// the bytes and the engine's configuration, and every engine this crate
/// creates carries the default configuration.
pub uninterp spec fn module_valid(wasm: Seq<u8>) -> bool;

/// Whether the instance of a module compiled from `wasm` has a function
/// export named `name`. An instance's exports are determined by the module's
/// bytes alone.
pub uninterp spec fn has_func_export(wasm: Seq<u8>, name: Seq<char>) -> bool;

/// Whether the function export named `name` of a module compiled from `wasm`
/// takes no parameters and returns exactly one 32-bit integer. An export's
/// type is determined by the module's bytes alone.
pub uninterp spec fn func_export_type_ok(wasm: Seq<u8>, name: Seq<char>) -> bool;

/// Whether the module compiled from `wasm` declares at least one import. A
/// module's import section is a function of its bytes alone, and no declared
/// import can ever be satisfied by the empty import environment this crate
/// instantiates with.
pub uninterp spec fn module_declares_imports(wasm: Seq<u8>) -> bool;

/// A compiled module, tied to the bytes it was compiled from: `module` was
/// accepted by `module_new` on a buffer whose view is `wasm@`. The driver
/// below is the only place where values of this type are built.
struct LoadedModule {
    module: wasmi::Module,
    wasm: Ghost<Seq<u8>>,
}

/// An instantiated module together with the store that owns it: `instance`
/// was instantiated inside `store`, with an empty import list, from a module
/// compiled from a buffer whose view is `wasm@`. Keeping the pair in one
/// value guarantees that lookups and calls are made against the owning
/// store. The driver below is the only place where values of this type are
/// built.
struct LiveInstance {
    store: wasmi::Store<()>,
    instance: wasmi::Instance,
    wasm: Ghost<Seq<u8>>,
}

/// A function export resolved from a live instance of a module compiled from
/// a buffer whose view is `wasm@`, looked up under `name@`. The driver below
/// is the only place where values of this type are built.
struct FuncHandle {
    func: wasmi::Func,
    wasm: Ghost<Seq<u8>>,
    name: Ghost<Seq<char>>,
}

/// The same export, checked against the required no-argument, one-`i32`
/// signature. The driver below is the only place where values of this type
/// are built.
struct TypedEntry {
    func: wasmi::TypedFunc<(), i32>,
    wasm: Ghost<Seq<u8>>,
    name: Ghost<Seq<char>>,
}

/// Relies on `wasmi::Engine::default`: a fresh engine carrying the default
/// configuration.
#[verifier::external_body]
fn engine_default() -> wasmi::Engine {
    wasmi::Engine::default()
}

/// Relies on `wasmi::Store::new`: a fresh store for the engine, carrying a
/// unit host-state value.
#[verifier::external_body]
fn store_new(engine: &wasmi::Engine) -> wasmi::Store<()> {
    wasmi::Store::new(engine, ())
}

/// Relies on `wasmi::Module::new`: parses, validates and translates the
/// buffer, returning `Ok` exactly when the bytes are acceptable to the
/// engine's configuration. The engine handed in is always one made by
/// `engine_default`, so acceptance is a function of the bytes alone.
#[verifier::external_body]
fn module_new(engine: &wasmi::Engine, wasm: &[u8]) -> (r: Result<wasmi::Module, wasmi::Error>)
    ensures
        r is Ok <==> module_valid(wasm@),
{
    wasmi::Module::new(engine, wasm)
}

/// Relies on `wasmi::Instance::new` with an empty import list: the first
/// step of instantiation checks the module's declared import count against
/// the externals handed in, so success implies the module declares no
/// imports. Beyond that, instantiation runs the module's start routine and
/// fails on a trap in it or on an exceeded resource limit, outcomes that may
/// depend on machine resources, so nothing more is assumed. With no
/// externals handed in, the documented panic cannot occur.
#[verifier::external_body]
fn instance_new(store: &mut wasmi::Store<()>, module: &LoadedModule) -> (r: Result<
    wasmi::Instance,
    wasmi::Error,
>)
    ensures
        r is Ok ==> !module_declares_imports(module.wasm@),
{
    wasmi::Instance::new(&mut *store, &module.module, &[])
}

/// Relies on `wasmi::Instance::get_func`: `Some` exactly when the instance
/// has a function export named `name`. The store inside `inst` owns the
/// instance, so the documented panic cannot occur.
#[verifier::external_body]
fn instance_get_func(inst: &LiveInstance, name: &str) -> (r: Option<wasmi::Func>)
    ensures
        r is Some <==> has_func_export(inst.wasm@, name@),
{
    inst.instance.get_func(&inst.store, name)
}

/// Relies on `wasmi::Func::typed::<(), i32>`: `Ok` exactly when the
/// function's type takes no parameters and returns one `i32`. The handle was
/// resolved from `inst`, so `inst.store` owns the function and the type
/// lookup cannot panic.
#[verifier::external_body]
fn func_typed(inst: &LiveInstance, f: &FuncHandle) -> (r: Result<
    wasmi::TypedFunc<(), i32>,
    wasmi::Error,
>)
    requires
        f.wasm@ == inst.wasm@,
    ensures
        r is Ok <==> func_export_type_ok(f.wasm@, f.name@),
{
    f.func.typed::<(), i32>(&inst.store)
}

/// Relies on `wasmi::TypedFunc::call`: runs the function to completion with
/// no arguments, returning its `i32` result, or `Err` when execution raises
/// a runtime trap (or when the engine's deferred translation of the
/// function fails). Whether a run traps may depend on machine resources, so
/// nothing is assumed of the outcome. The entry came from `inst`, so
/// `inst.store` owns it and the documented panic cannot occur.
#[verifier::external_body]
fn typed_call(inst: &mut LiveInstance, entry: &TypedEntry) -> (r: Result<i32, wasmi::Error>)
    requires
        entry.wasm@ == old(inst).wasm@,
{
    entry.func.call(&mut inst.store, ())
}

/// Relies on the `Display` rendering of `wasmi::Error` via `ToString`: the
/// human-readable description of the error. Nothing is assumed of its
/// contents.
#[verifier::external_body]
fn error_text(e: &wasmi::Error) -> String {
    e.to_string()
}

/// Runs one execution attempt: builds a fresh engine, store, compiled module
/// and instance for the buffer, resolves the entry-point export with the
/// required no-argument, one-`i32` signature, and invokes it. The context is
/// single-use and fully discarded when the call returns.
pub fn execute(wasm: &[u8]) -> (r: Result<i32, ExecError>)
    ensures
        (r matches Err(e) && e is Parse) <==> !module_valid(wasm@),
        (r matches Err(e) && e is Instantiate) ==> module_valid(wasm@),
        r matches Err(e) ==> (e is ExportNotFound ==> module_valid(wasm@) && !module_declares_imports(
            wasm@,
        ) && !has_func_export(wasm@, entry_point_name()) && crate::errors::detail_of(e)
            == "no function export under this name"@),
        (r matches Err(e) && e is TypeMismatch) ==> module_valid(wasm@)
            && !module_declares_imports(wasm@) && has_func_export(wasm@, entry_point_name())
            && !func_export_type_ok(wasm@, entry_point_name()),
        (r is Ok || (r matches Err(e) && e is Trap)) ==> module_valid(wasm@)
            && !module_declares_imports(wasm@) && has_func_export(wasm@, entry_point_name())
            && func_export_type_ok(wasm@, entry_point_name()),
        module_valid(wasm@) && module_declares_imports(wasm@) ==> (r matches Err(e)
            && e is Instantiate),
        module_valid(wasm@) && !has_func_export(wasm@, entry_point_name()) ==> (r matches Err(e)
            && (e is Instantiate || e is ExportNotFound)),
        module_valid(wasm@) && !func_export_type_ok(wasm@, entry_point_name()) ==> (r matches Err(
            e,
        ) && (e is Instantiate || e is ExportNotFound || e is TypeMismatch)),
{
    let engine = engine_default();
    let module = match module_new(&engine, wasm) {
        Ok(m) => LoadedModule { module: m, wasm: Ghost(wasm@) },
        Err(e) => {
            return Err(ExecError::Parse(error_text(&e)));
        },
    };
    let mut store = store_new(&engine);
    let mut inst = match instance_new(&mut store, &module) {
        Ok(i) => LiveInstance { store, instance: i, wasm: module.wasm },
        Err(e) => {
            return Err(ExecError::Instantiate(error_text(&e)));
        },
    };
    let func = match instance_get_func(&inst, "_run") {
        Some(f) => FuncHandle { func: f, wasm: inst.wasm, name: Ghost("_run"@) },
        None => {
            return Err(
                ExecError::ExportNotFound(String::from_str("no function export under this name")),
            );
        },
    };
    let entry = match func_typed(&inst, &func) {
        Ok(t) => TypedEntry { func: t, wasm: func.wasm, name: func.name },
        Err(e) => {
            return Err(ExecError::TypeMismatch(error_text(&e)));
        },
    };
    match typed_call(&mut inst, &entry) {
        Ok(v) => Ok(v),
        Err(e) => Err(ExecError::Trap(error_text(&e))),
    }
}

} // verus!
