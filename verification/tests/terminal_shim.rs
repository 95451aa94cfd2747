use codex_plus_core::shim::{
    proof_from_bytes, serialize_hello, terminal_options_from_environment,
    terminal_shim_auth_response, AuthError, CliError, Mode, Options, ProofError, MAX_PROOF_BYTES,
};

/// Reads the terminal shim's authentication reply the way the shim does
/// before handing its fields to the library.
fn terminal_shim_reply(bytes: &[u8]) -> Result<u32, AuthError> {
    let value: serde_json::Value = serde_json::from_slice(bytes).expect("valid JSON");
    let accepted = value["accepted"].as_bool().expect("accepted flag");
    let process_id = value.get("processId").map(|v| v.as_u64().expect("process id") as u32);
    terminal_shim_auth_response(accepted, process_id)
}

#[test]
fn terminal_hello_preserves_cwd_and_shell_arguments() {
    let options = Options {
        mode: Mode::Terminal,
        pipe: r"\\.\pipe\terminal-test".into(),
        session: "session".into(),
        proof_file: "proof".into(),
        helper_args: vec![r"C:\work".into(), "-NoLogo".into()],
    };
    let hello: serde_json::Value =
        serde_json::from_slice(&serialize_hello(&options, "secret", 77).unwrap()).unwrap();
    assert_eq!(hello["protocol"], 1);
    assert_eq!(hello["mode"], "terminal");
    assert_eq!(hello["sessionId"], "session");
    assert_eq!(hello["helperArgs"][0], r"C:\work");
    assert_eq!(hello["helperArgs"][1], "-NoLogo");
}

#[test]
fn terminal_auth_requires_a_nonzero_broker_host_process() {
    assert_eq!(terminal_shim_reply(br#"{"accepted":true,"processId":42}"#).unwrap(), 42);
    assert!(terminal_shim_reply(br#"{"accepted":true}"#).is_err());
    assert!(terminal_shim_reply(br#"{"accepted":true,"processId":0}"#).is_err());
    assert!(terminal_shim_reply(br#"{"accepted":false}"#).is_err());
}

#[test]
fn terminal_auth_errors_name_their_cause() {
    assert_eq!(terminal_shim_auth_response(false, Some(42)), Err(AuthError::Rejected));
    assert_eq!(terminal_shim_auth_response(true, None), Err(AuthError::MissingProcessId));
    assert_eq!(terminal_shim_auth_response(true, Some(0)), Err(AuthError::InvalidProcessId));
}

#[test]
fn proof_file_is_size_bounded() {
    let mut bytes = vec![b'x'; MAX_PROOF_BYTES + 1];
    assert_eq!(proof_from_bytes(&mut bytes), Err(ProofError::TooLarge));
    assert!(bytes.iter().all(|byte| *byte == 0));
}

#[test]
fn proof_bytes_become_the_proof_and_leave_the_buffer_empty() {
    let mut bytes = b"proof-token".to_vec();
    let proof = proof_from_bytes(&mut bytes).expect("valid proof");
    assert_eq!(proof, "proof-token");
    assert!(bytes.is_empty());
}

#[test]
fn proof_bytes_must_be_utf8_and_nonempty() {
    let mut invalid = vec![0xffu8, 0xfe];
    assert_eq!(proof_from_bytes(&mut invalid), Err(ProofError::NotUtf8));
    let mut blank: Vec<u8> = Vec::new();
    assert_eq!(proof_from_bytes(&mut blank), Err(ProofError::Empty));
}

#[test]
fn terminal_shim_options_start_with_the_working_directory() {
    let options = terminal_options_from_environment(
        r"C:\work".to_owned(),
        vec!["-NoLogo".to_owned()],
        Some(r"\\.\pipe\terminal".to_owned()),
        Some("session".to_owned()),
        Some("proof".to_owned()),
    )
    .expect("options");
    assert_eq!(options.mode, Mode::Terminal);
    assert_eq!(options.pipe, r"\\.\pipe\terminal");
    assert_eq!(options.helper_args, vec![r"C:\work".to_owned(), "-NoLogo".to_owned()]);
    assert_eq!(
        terminal_options_from_environment(String::new(), Vec::new(), None, None, None),
        Err(CliError::MissingTerminalPipe)
    );
    assert_eq!(
        terminal_options_from_environment(String::new(), Vec::new(), Some("p".to_owned()), None, None),
        Err(CliError::MissingTerminalSession)
    );
    assert_eq!(
        terminal_options_from_environment(
            String::new(),
            Vec::new(),
            Some("p".to_owned()),
            Some("s".to_owned()),
            None,
        ),
        Err(CliError::MissingTerminalProofFile)
    );
}
