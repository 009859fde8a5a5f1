//! End-to-end tests of the execution shim on hand-assembled module binaries.
use wasm_shim::driver::execute;
use wasm_shim::errors::ExecError;
use wasm_shim::marshal::marshal;
use wasm_shim::wasm_interp;

/// A minimal valid module exporting `_run: () -> i32` that returns 7.
fn module_returning_seven() -> Vec<u8> {
    vec![
        0x00, 0x61, 0x73, 0x6d, 0x01, 0x00, 0x00, 0x00, // magic + version
        0x01, 0x05, 0x01, 0x60, 0x00, 0x01, 0x7f, // type section: () -> i32
        0x03, 0x02, 0x01, 0x00, // function section: one func of type 0
        0x07, 0x08, 0x01, 0x04, 0x5f, 0x72, 0x75, 0x6e, 0x00, 0x00, // export "_run" func 0
        0x0a, 0x06, 0x01, 0x04, 0x00, 0x41, 0x07, 0x0b, // code: i32.const 7; end
    ]
}

/// The same module, but the body is a single `unreachable` instruction.
fn module_trapping() -> Vec<u8> {
    vec![
        0x00, 0x61, 0x73, 0x6d, 0x01, 0x00, 0x00, 0x00, // magic + version
        0x01, 0x05, 0x01, 0x60, 0x00, 0x01, 0x7f, // type section: () -> i32
        0x03, 0x02, 0x01, 0x00, // function section: one func of type 0
        0x07, 0x08, 0x01, 0x04, 0x5f, 0x72, 0x75, 0x6e, 0x00, 0x00, // export "_run" func 0
        0x0a, 0x05, 0x01, 0x03, 0x00, 0x00, 0x0b, // code: unreachable; end
    ]
}

/// A valid module with no exports at all.
fn module_without_exports() -> Vec<u8> {
    vec![
        0x00, 0x61, 0x73, 0x6d, 0x01, 0x00, 0x00, 0x00, // magic + version
        0x01, 0x05, 0x01, 0x60, 0x00, 0x01, 0x7f, // type section: () -> i32
        0x03, 0x02, 0x01, 0x00, // function section: one func of type 0
        0x0a, 0x06, 0x01, 0x04, 0x00, 0x41, 0x07, 0x0b, // code: i32.const 7; end
    ]
}

/// A valid module exporting `_run` with the wrong signature `() -> ()`.
fn module_with_wrong_signature() -> Vec<u8> {
    vec![
        0x00, 0x61, 0x73, 0x6d, 0x01, 0x00, 0x00, 0x00, // magic + version
        0x01, 0x04, 0x01, 0x60, 0x00, 0x00, // type section: () -> ()
        0x03, 0x02, 0x01, 0x00, // function section: one func of type 0
        0x07, 0x08, 0x01, 0x04, 0x5f, 0x72, 0x75, 0x6e, 0x00, 0x00, // export "_run" func 0
        0x0a, 0x04, 0x01, 0x02, 0x00, 0x0b, // code: end
    ]
}

/// A valid module importing `env.f` and re-exporting it as `_run`; the
/// empty import environment cannot satisfy it.
fn module_requiring_import() -> Vec<u8> {
    vec![
        0x00, 0x61, 0x73, 0x6d, 0x01, 0x00, 0x00, 0x00, // magic + version
        0x01, 0x05, 0x01, 0x60, 0x00, 0x01, 0x7f, // type section: () -> i32
        0x02, 0x09, 0x01, 0x03, 0x65, 0x6e, 0x76, 0x01, 0x66, 0x00,
        0x00, // import func "env" "f" of type 0
        0x07, 0x08, 0x01, 0x04, 0x5f, 0x72, 0x75, 0x6e, 0x00, 0x00, // export "_run" func 0
    ]
}

fn assert_starts_with(message: &[u8], label: &str) {
    assert!(
        message.len() >= label.len() && &message[..label.len()] == label.as_bytes(),
        "message {:?} does not open with {:?}",
        String::from_utf8_lossy(message),
        label
    );
}

#[test]
fn run_returning_seven_reports_success() {
    let wasm = module_returning_seven();
    assert_eq!(wasm_interp(&wasm), None);
}

#[test]
fn execute_returns_the_entry_point_value() {
    let wasm = module_returning_seven();
    assert!(matches!(execute(&wasm), Ok(7)));
}

#[test]
fn success_repeats_on_the_same_input() {
    let wasm = module_returning_seven();
    assert_eq!(wasm_interp(&wasm), None);
    assert_eq!(wasm_interp(&wasm), None);
}

#[test]
fn invalid_magic_reports_parse_failure() {
    let wasm: Vec<u8> = vec![0x00, 0x01, 0x02];
    let message = wasm_interp(&wasm).expect("invalid bytes must yield a message");
    assert!(!message.is_empty());
    assert!(!message.contains(&0));
    assert_starts_with(&message, "module parsing or validation failed: ");
}

#[test]
fn empty_input_reports_parse_failure() {
    let wasm: Vec<u8> = vec![];
    let message = wasm_interp(&wasm).expect("empty input must yield a message");
    assert_starts_with(&message, "module parsing or validation failed: ");
}

#[test]
fn execute_classifies_parse_failure() {
    let wasm: Vec<u8> = vec![0x00, 0x01, 0x02];
    assert!(matches!(execute(&wasm), Err(ExecError::Parse(_))));
}

#[test]
fn missing_export_reports_export_resolution() {
    let wasm = module_without_exports();
    let message = wasm_interp(&wasm).expect("a module without the entry export must yield a message");
    assert_starts_with(&message, "export resolution failed: ");
}

#[test]
fn wrong_signature_reports_type_mismatch() {
    let wasm = module_with_wrong_signature();
    let message = wasm_interp(&wasm).expect("a wrongly typed entry export must yield a message");
    assert_starts_with(&message, "export type mismatch: ");
}

#[test]
fn unsatisfied_import_reports_instantiation_failure() {
    let wasm = module_requiring_import();
    assert!(matches!(execute(&wasm), Err(ExecError::Instantiate(_))));
    let message = wasm_interp(&wasm).expect("an unsatisfiable import must yield a message");
    assert_starts_with(&message, "module instantiation failed: ");
}

#[test]
fn trap_reports_error_and_process_continues() {
    let wasm = module_trapping();
    let message = wasm_interp(&wasm).expect("a trapping entry point must yield a message");
    assert!(!message.is_empty());
    assert_starts_with(&message, "runtime trap: ");
    // A trap aborts only the one call: the next call still succeeds.
    let ok = module_returning_seven();
    assert_eq!(wasm_interp(&ok), None);
}

#[test]
fn marshal_reports_success_without_a_message() {
    assert_eq!(marshal(Ok(7)), None);
}

#[test]
fn marshal_strips_nul_bytes_from_the_detail() {
    let outcome: Result<i32, ExecError> = Err(ExecError::Trap(String::from("a\0b")));
    let message = marshal(outcome).expect("a failure must yield a message");
    assert!(!message.contains(&0));
    let mut expected = b"runtime trap: ".to_vec();
    expected.extend_from_slice(b"ab");
    assert_eq!(message, expected);
}

#[test]
fn marshaled_messages_are_never_empty() {
    let failures = vec![
        ExecError::Parse(String::new()),
        ExecError::Instantiate(String::new()),
        ExecError::ExportNotFound(String::new()),
        ExecError::TypeMismatch(String::new()),
        ExecError::Trap(String::new()),
    ];
    for failure in failures {
        let message = marshal(Err(failure)).expect("a failure must yield a message");
        assert!(!message.is_empty());
        assert!(!message.contains(&0));
    }
}
