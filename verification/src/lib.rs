//! A minimal execution shim for WebAssembly modules: given a raw byte
//! buffer, the shim parses, instantiates and runs the module's designated
//! entry point, and reports either success or a human-readable diagnostic
//! that a C-style caller can own and later release.
use vstd::prelude::*;

pub mod driver;
pub mod errors;
pub mod marshal;

verus! {

use crate::driver::entry_point_name;
use crate::driver::execute;
use crate::driver::func_export_type_ok;
use crate::driver::has_func_export;
use crate::driver::module_declares_imports;
use crate::driver::module_valid;
use crate::errors::export_label;
use crate::errors::instantiate_label;
use crate::errors::labeled;
use crate::errors::lemma_message_wellformed;
use crate::errors::parse_label;
use crate::errors::trap_label;
use crate::errors::type_label;
use crate::marshal::marshal;

/// Everything one call of `wasm_interp` promises of its result for one
/// buffer: a success verdict certifies the phases whose outcome is a
/// function of the bytes alone, and every failure is a non-empty,
/// NUL-free message opening with the tag of a phase that can fail there.
pub open spec fn interp_post(wasm: Seq<u8>, r: Option<Vec<u8>>) -> bool {
    &&& r is None ==> module_valid(wasm) && !module_declares_imports(wasm) && has_func_export(
        wasm,
        entry_point_name(),
    ) && func_export_type_ok(wasm, entry_point_name())
    &&& r matches Some(m) ==> (m@.len() > 0 && (forall|i: int| 0 <= i < m@.len() ==> m@[i] != 0))
    &&& !module_valid(wasm) ==> (r matches Some(m) && labeled(m@, parse_label()))
    &&& module_valid(wasm) && module_declares_imports(wasm) ==> (r matches Some(m) && labeled(
        m@,
        instantiate_label(),
    ))
    &&& module_valid(wasm) && !has_func_export(wasm, entry_point_name()) ==> (r matches Some(m)
        && (labeled(m@, instantiate_label()) || labeled(m@, export_label())))
    &&& module_valid(wasm) && !func_export_type_ok(wasm, entry_point_name()) ==> (r matches Some(m)
        && (labeled(m@, instantiate_label()) || labeled(m@, export_label()) || labeled(
        m@,
        type_label(),
    )))
    &&& module_valid(wasm) && has_func_export(wasm, entry_point_name()) && func_export_type_ok(
        wasm,
        entry_point_name(),
    ) ==> (r is None || (r matches Some(m) && (labeled(m@, instantiate_label()) || labeled(
        m@,
        trap_label(),
    ))))
}

/// An input that once ran to a success verdict passes parsing, export
/// resolution and the signature check, all functions of the bytes alone; a
/// repeated call on the same bytes therefore reports none of those
/// failures: it either succeeds again or reports instantiation or a runtime
/// trap, the two phases whose outcome may also depend on machine resources.
pub proof fn lemma_success_reproducible(
    wasm: Seq<u8>,
    first: Option<Vec<u8>>,
    second: Option<Vec<u8>>,
)
    requires
        interp_post(wasm, first),
        interp_post(wasm, second),
        first is None,
    ensures
        second is None || (second matches Some(m) && (labeled(m@, instantiate_label()) || labeled(
            m@,
            trap_label(),
        ))),
{
}

/// Interprets the buffer as a WebAssembly module and runs its designated
/// entry point to completion.
///
/// Returns nothing on success, and otherwise an owned diagnostic message:
/// never empty, free of NUL bytes, and opening with a tag that names the
/// phase that failed.
pub fn wasm_interp(wasm: &[u8]) -> (r: Option<Vec<u8>>)
    ensures
        interp_post(wasm@, r),
{
    let outcome = execute(wasm);
    proof {
        if outcome is Err {
            lemma_message_wellformed(outcome->Err_0);
        }
    }
    marshal(outcome)
}

} // verus!
