//! The structured outcome of one execution attempt, and the model of the
//! diagnostic message that is handed back across the boundary on failure.
use vstd::prelude::*;

verus! {

use vstd::utf8::encode_utf8;
use vstd::utf8::is_ascii_chars;
use vstd::utf8::is_ascii_chars_encode_utf8;

/// A failure of one execution attempt, tagged with the phase that failed and
/// carrying the interpreter's human-readable detail text.
pub enum ExecError {
    /// The input bytes are not a well-formed, valid module.
    Parse(String),
    /// The module could not be instantiated: it declares imports that the
    /// empty import environment cannot satisfy, its start routine trapped,
    /// or a resource limit was exceeded.
    Instantiate(String),
    /// The instance has no function export under the entry-point name.
    ExportNotFound(String),
    /// The entry-point export does not take no arguments and return one
    /// 32-bit integer.
    TypeMismatch(String),
    /// Execution of the entry point failed: a runtime trap was raised, or
    /// the engine could not complete its deferred translation of the
    /// function.
    Trap(String),
}

pub open spec fn parse_label() -> Seq<char> {
    "module parsing or validation failed: "@
}

pub open spec fn instantiate_label() -> Seq<char> {
    "module instantiation failed: "@
}

pub open spec fn export_label() -> Seq<char> {
    "export resolution failed: "@
}

pub open spec fn type_label() -> Seq<char> {
    "export type mismatch: "@
}

pub open spec fn trap_label() -> Seq<char> {
    "runtime trap: "@
}

/// The phase tag that opens the diagnostic message for this failure.
pub open spec fn phase_label(e: ExecError) -> Seq<char> {
    match e {
        ExecError::Parse(_) => parse_label(),
        ExecError::Instantiate(_) => instantiate_label(),
        ExecError::ExportNotFound(_) => export_label(),
        ExecError::TypeMismatch(_) => type_label(),
        ExecError::Trap(_) => trap_label(),
    }
}

/// The detail text carried by this failure.
pub open spec fn detail_of(e: ExecError) -> Seq<char> {
    match e {
        ExecError::Parse(d) => d@,
        ExecError::Instantiate(d) => d@,
        ExecError::ExportNotFound(d) => d@,
        ExecError::TypeMismatch(d) => d@,
        ExecError::Trap(d) => d@,
    }
}

/// The byte sequence with every NUL byte removed, so that the result can be
/// carried as a C-style, NUL-terminated string without truncation.
pub open spec fn strip_nul(s: Seq<u8>) -> Seq<u8>
    decreases s.len(),
{
    if s.len() == 0 {
        Seq::empty()
    } else {
        let rest = strip_nul(s.drop_last());
        if s.last() == 0 {
            rest
        } else {
            rest.push(s.last())
        }
    }
}

/// The diagnostic message for a failure: the phase tag, followed by the
/// UTF-8 encoding of the detail text with NUL bytes removed.
pub open spec fn message_of(e: ExecError) -> Seq<u8> {
    encode_utf8(phase_label(e)) + strip_nul(encode_utf8(detail_of(e)))
}

/// The message opens with the UTF-8 encoding of the given label.
pub open spec fn labeled(m: Seq<u8>, label: Seq<char>) -> bool {
    &&& m.len() >= encode_utf8(label).len()
    &&& m.take(encode_utf8(label).len() as int) == encode_utf8(label)
}

pub proof fn lemma_strip_nul_no_nul(s: Seq<u8>)
    ensures
        forall|i: int| 0 <= i < strip_nul(s).len() ==> strip_nul(s)[i] != 0,
    decreases s.len(),
{
    if s.len() > 0 {
        lemma_strip_nul_no_nul(s.drop_last());
        let rest = strip_nul(s.drop_last());
        assert forall|i: int| 0 <= i < strip_nul(s).len() implies strip_nul(s)[i] != 0 by {
            if s.last() != 0 && i == strip_nul(s).len() - 1 {
                assert(strip_nul(s)[i] == s.last());
            } else {
                assert(strip_nul(s)[i] == rest[i]);
            }
        }
    }
}

pub proof fn lemma_strip_nul_keeps_nonzero(s: Seq<u8>, i: int)
    requires
        0 <= i < s.len(),
        s[i] != 0,
    ensures
        strip_nul(s).len() > 0,
    decreases s.len(),
{
    if i == s.len() - 1 {
    } else {
        lemma_strip_nul_keeps_nonzero(s.drop_last(), i);
    }
}

/// The bytes of an ASCII label without NUL characters: one byte per
/// character, none of them zero.
proof fn lemma_ascii_label_bytes(label: Seq<char>)
    requires
        is_ascii_chars(label),
        forall|i: int| 0 <= i < label.len() ==> label[i] != '\0',
    ensures
        encode_utf8(label).len() == label.len(),
        forall|i: int| 0 <= i < encode_utf8(label).len() ==> encode_utf8(label)[i] != 0,
{
    is_ascii_chars_encode_utf8(label);
    assert forall|i: int| 0 <= i < encode_utf8(label).len() implies encode_utf8(label)[i] != 0 by {
        assert(encode_utf8(label)[i] == label[i] as u8);
        assert(label[i] != '\0');
    }
}

/// Every phase label is a non-empty ASCII text without NUL characters.
proof fn lemma_phase_label_wellformed(e: ExecError)
    ensures
        phase_label(e).len() > 0,
        encode_utf8(phase_label(e)).len() == phase_label(e).len(),
        forall|i: int|
            0 <= i < encode_utf8(phase_label(e)).len() ==> encode_utf8(phase_label(e))[i] != 0,
{
    match e {
        ExecError::Parse(_) => {
            reveal_strlit("module parsing or validation failed: ");
        },
        ExecError::Instantiate(_) => {
            reveal_strlit("module instantiation failed: ");
        },
        ExecError::ExportNotFound(_) => {
            reveal_strlit("export resolution failed: ");
        },
        ExecError::TypeMismatch(_) => {
            reveal_strlit("export type mismatch: ");
        },
        ExecError::Trap(_) => {
            reveal_strlit("runtime trap: ");
        },
    }
    lemma_ascii_label_bytes(phase_label(e));
}

/// Every diagnostic message is non-empty, free of NUL bytes, and opens with
/// the label of the phase that failed.
pub proof fn lemma_message_wellformed(e: ExecError)
    ensures
        message_of(e).len() > 0,
        forall|i: int| 0 <= i < message_of(e).len() ==> message_of(e)[i] != 0,
        labeled(message_of(e), phase_label(e)),
{
    lemma_phase_label_wellformed(e);
    lemma_strip_nul_no_nul(encode_utf8(detail_of(e)));
    let lab = encode_utf8(phase_label(e));
    let rest = strip_nul(encode_utf8(detail_of(e)));
    assert(message_of(e).take(lab.len() as int) =~= lab);
    assert forall|i: int| 0 <= i < message_of(e).len() implies message_of(e)[i] != 0 by {
        if i < lab.len() {
            assert(message_of(e)[i] == lab[i]);
        } else {
            assert(message_of(e)[i] == rest[i - lab.len()]);
        }
    }
}

/// A failure to find the entry-point export is reported with a message that
/// names export resolution.
pub proof fn lemma_missing_export_message_names_resolution(e: ExecError)
    requires
        e is ExportNotFound,
    ensures
        labeled(message_of(e), export_label()),
{
    lemma_message_wellformed(e);
}

} // verus!
