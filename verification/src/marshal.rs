//! The result marshaler: converts the driver's outcome into the value that
//! crosses the boundary — nothing for success, or an owned diagnostic
//! message for failure.
//!
//! The message is rendered as bytes that are safe to hand to a C-style
//! caller as a NUL-terminated string: it is never empty and never contains a
//! NUL byte, because the detail text is filtered and a non-empty phase tag
//! is always prepended.
use vstd::prelude::*;

verus! {

use crate::errors::ExecError;
use crate::errors::detail_of;
use crate::errors::lemma_message_wellformed;
use crate::errors::message_of;
use crate::errors::phase_label;
use crate::errors::strip_nul;
use vstd::string::StrSliceExecFns;

/// The phase tag that opens this failure's message.
fn phase_label_of(e: &ExecError) -> (r: &'static str)
    ensures
        r@ == phase_label(*e),
{
    match e {
        ExecError::Parse(_) => "module parsing or validation failed: ",
        ExecError::Instantiate(_) => "module instantiation failed: ",
        ExecError::ExportNotFound(_) => "export resolution failed: ",
        ExecError::TypeMismatch(_) => "export type mismatch: ",
        ExecError::Trap(_) => "runtime trap: ",
    }
}

/// The detail text this failure carries.
fn detail_str(e: &ExecError) -> (r: &String)
    ensures
        r@ == detail_of(*e),
{
    match e {
        ExecError::Parse(d) => d,
        ExecError::Instantiate(d) => d,
        ExecError::ExportNotFound(d) => d,
        ExecError::TypeMismatch(d) => d,
        ExecError::Trap(d) => d,
    }
}

/// Renders the failure's diagnostic message: the phase tag followed by the
/// detail text's UTF-8 bytes with every NUL byte removed.
pub fn render_message(e: &ExecError) -> (r: Vec<u8>)
    ensures
        r@ == message_of(*e),
        r@.len() > 0,
        forall|i: int| 0 <= i < r@.len() ==> r@[i] != 0,
{
    let label = phase_label_of(e);
    let mut out = label.as_bytes_vec();
    let detail = detail_str(e).as_str().as_bytes_vec();
    let mut i: usize = 0;
    while i < detail.len()
        invariant
            i <= detail.len(),
            detail@ == vstd::utf8::encode_utf8(detail_of(*e)),
            out@ == vstd::utf8::encode_utf8(phase_label(*e)) + strip_nul(detail@.take(i as int)),
        decreases detail.len() - i,
    {
        let b = detail[i];
        proof {
            assert(detail@.take(i + 1 as int).drop_last() =~= detail@.take(i as int));
            assert(detail@.take(i + 1 as int).last() == detail@[i as int]);
        }
        if b != 0 {
            out.push(b);
        }
        i = i + 1;
    }
    proof {
        assert(detail@.take(detail@.len() as int) =~= detail@);
        lemma_message_wellformed(*e);
    }
    out
}

/// Marshals the driver's outcome into the boundary-level result: no message
/// for success, or the owned diagnostic message for failure.
pub fn marshal(outcome: Result<i32, ExecError>) -> (r: Option<Vec<u8>>)
    ensures
        (outcome is Ok) <==> (r is None),
        outcome matches Err(e) ==> (r matches Some(m) && m@ == message_of(e)),
{
    match outcome {
        Ok(_) => None,
        Err(e) => Some(render_message(&e)),
    }
}

} // verus!
