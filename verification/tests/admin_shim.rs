use codex_plus_core::shim::{
    clear_secret, format_identity_probe_record, is_supported_terminal_shell, parse_args,
    parse_invocation_with_env, parse_terminal_auth_response, serialize_hello, check_auth_response,
    AuthError, Invocation, Mode, Options, ShimEnvironment, TerminalAuthorization,
};

fn strings(values: &[&str]) -> Vec<String> {
    values.iter().map(|value| (*value).to_owned()).collect()
}

fn no_environment() -> ShimEnvironment {
    ShimEnvironment {
        terminal_pipe: None,
        terminal_session: None,
        terminal_proof_file: None,
        app_server_pipe: None,
        app_server_session: None,
        app_server_proof_file: None,
        official_executable: None,
    }
}

fn terminal_environment() -> ShimEnvironment {
    ShimEnvironment {
        terminal_pipe: Some(r"\\.\pipe\codex-plus-terminal".to_string()),
        terminal_session: Some("session-123".to_string()),
        terminal_proof_file: Some("terminal.proof".to_string()),
        ..no_environment()
    }
}

fn json(bytes: &[u8]) -> serde_json::Value {
    serde_json::from_slice(bytes).expect("valid JSON")
}

fn json_strings(values: &[&str]) -> serde_json::Value {
    serde_json::Value::Array(values.iter().map(|v| serde_json::Value::from(*v)).collect())
}

/// Reads a terminal authentication reply the way the shim does before
/// handing its fields to the library.
fn terminal_reply(bytes: &[u8]) -> Result<TerminalAuthorization, AuthError> {
    let value = json(bytes);
    let accepted = value["accepted"].as_bool().expect("accepted flag");
    let process_id = value.get("processId").map(|v| v.as_u64().expect("process id") as u32);
    let token_handle = value.get("tokenHandle").map(|v| v.as_u64().expect("token handle"));
    let shell = value.get("shell").map(|v| v.as_str().expect("shell").to_owned());
    parse_terminal_auth_response(accepted, process_id, token_handle, shell)
}

#[test]
fn parses_identity_probe_only_when_it_is_the_exact_invocation() {
    assert_eq!(
        parse_invocation_with_env(strings(&["identity-probe"]), &no_environment()).unwrap(),
        Invocation::IdentityProbe
    );
    assert!(parse_invocation_with_env(strings(&["identity-probe", "extra"]), &no_environment()).is_err());
    assert!(parse_invocation_with_env(strings(&["--identity-probe"]), &no_environment()).is_err());
}

#[test]
fn parses_terminal_host_exactly() {
    assert_eq!(
        parse_invocation_with_env(
            strings(&[
                "terminal-host",
                "--client-pid",
                "1234",
                "--cwd",
                r"C:\workspace",
                "--shell",
                r"C:\Program Files\PowerShell\7\pwsh.exe",
            ]),
            &no_environment(),
        )
        .unwrap(),
        Invocation::TerminalHost {
            client_pid: 1234,
            cwd: r"C:\workspace".to_string(),
            shell: r"C:\Program Files\PowerShell\7\pwsh.exe".to_string(),
            shell_args: Vec::new(),
        }
    );
}

#[test]
fn parses_terminal_host_and_preserves_shell_arguments() {
    assert_eq!(
        parse_invocation_with_env(
            strings(&[
                "terminal-host",
                "--client-pid",
                "1234",
                "--cwd",
                r"C:\workspace",
                "--shell",
                r"C:\Program Files\PowerShell\7\pwsh.exe",
                "--",
                "-NoLogo",
                "-NoProfile",
            ]),
            &no_environment(),
        )
        .unwrap(),
        Invocation::TerminalHost {
            client_pid: 1234,
            cwd: r"C:\workspace".to_string(),
            shell: r"C:\Program Files\PowerShell\7\pwsh.exe".to_string(),
            shell_args: vec!["-NoLogo".to_string(), "-NoProfile".to_string()],
        }
    );
}

#[test]
fn accepts_power_shell_7_and_windows_power_shell_5_1_shells() {
    assert!(is_supported_terminal_shell(r"C:\Program Files\PowerShell\7\pwsh.exe"));
    assert!(is_supported_terminal_shell(
        r"C:\Windows\System32\WindowsPowerShell\v1.0\powershell.exe"
    ));
    assert!(!is_supported_terminal_shell(r"C:\Windows\System32\cmd.exe"));
}

#[test]
fn empty_shell_invocation_uses_administrator_terminal_environment() {
    let invocation = parse_invocation_with_env(Vec::<String>::new(), &terminal_environment()).unwrap();
    let Invocation::Client(options) = invocation else {
        panic!("expected terminal client")
    };
    assert_eq!(options.mode, Mode::Terminal);
    assert_eq!(options.pipe, r"\\.\pipe\codex-plus-terminal");
    assert_eq!(options.session, "session-123");
    assert_eq!(options.proof_file, "terminal.proof");
}

#[test]
fn shell_arguments_still_use_administrator_terminal_environment() {
    let invocation =
        parse_invocation_with_env(strings(&["-NoLogo", "-NoProfile"]), &terminal_environment()).unwrap();
    let Invocation::Client(options) = invocation else {
        panic!("expected terminal client")
    };
    assert_eq!(options.mode, Mode::Terminal);
    assert_eq!(options.helper_args, ["-NoLogo", "-NoProfile"]);
}

#[test]
fn identity_probe_record_matches_exec_readiness_protocol() {
    assert_eq!(
        format_identity_probe_record("S-1-5-21-1", "S-1-5-5-10-20", 0x3000),
        "SID=S-1-5-21-1;LOGON=S-1-5-5-10-20;RID=12288\n"
    );
}

#[test]
fn parses_exec_client_exactly() {
    let options = parse_args(strings(&[
        "exec-client",
        "--pipe",
        r"\\.\pipe\codex-plus-admin-session",
        "--session",
        "session-123",
        "--proof-file",
        "proof.bin",
    ]))
    .expect("parse exec client");

    assert_eq!(options.mode, Mode::Exec);
    assert_eq!(options.pipe, r"\\.\pipe\codex-plus-admin-session");
    assert_eq!(options.session, "session-123");
    assert_eq!(options.proof_file, "proof.bin");
    assert!(options.helper_args.is_empty());
}

#[test]
fn parses_computer_use_and_preserves_every_argument_after_separator() {
    let helper_args = ["--flag", "value with spaces", "--", "", r"C:\literal\path"];
    let mut args = strings(&[
        "computer-use-client",
        "--pipe",
        "pipe-name",
        "--session",
        "session-123",
        "--proof-file",
        "proof.bin",
        "--",
    ]);
    args.extend(strings(&helper_args));

    let options = parse_args(args).expect("parse computer-use client");

    assert_eq!(options.mode, Mode::ComputerUse);
    assert_eq!(options.helper_args, strings(&helper_args));
}

#[test]
fn app_server_invocation_uses_ephemeral_environment_and_preserves_cli_args() {
    let args = strings(&[
        "-c",
        "features.code_mode_host=true",
        "app-server",
        "--analytics-default-enabled",
    ]);
    let environment = ShimEnvironment {
        app_server_pipe: Some(r"\\.\pipe\codex-plus-admin-app-server".to_owned()),
        app_server_session: Some("session-123".to_owned()),
        app_server_proof_file: Some("proof.bin".to_owned()),
        official_executable: Some(r"C:\Program Files\WindowsApps\Codex\codex.exe".to_owned()),
        ..no_environment()
    };
    let invocation = parse_invocation_with_env(args.clone(), &environment)
        .expect("parse administrator app-server invocation");

    let Invocation::Client(options) = invocation else {
        panic!("expected app-server client")
    };
    assert_eq!(options.mode, Mode::AppServer);
    assert_eq!(options.pipe, r"\\.\pipe\codex-plus-admin-app-server");
    assert_eq!(options.session, "session-123");
    assert_eq!(options.proof_file, "proof.bin");
    assert_eq!(options.helper_args, args);
}

#[test]
fn non_app_server_cli_invocation_runs_the_official_binary_directly() {
    let args = strings(&["--version"]);
    let environment = ShimEnvironment {
        official_executable: Some(r"C:\Codex\codex.exe".to_owned()),
        ..no_environment()
    };
    let invocation = parse_invocation_with_env(args.clone(), &environment).expect("parse direct invocation");

    assert_eq!(
        invocation,
        Invocation::Direct {
            executable: r"C:\Codex\codex.exe".to_owned(),
            args,
        }
    );
}

#[test]
fn app_server_invocation_fails_closed_when_bootstrap_is_incomplete() {
    assert!(
        parse_invocation_with_env(strings(&["app-server"]), &no_environment()).is_err(),
        "app-server must never fall back to standard-integrity direct execution"
    );
}

#[test]
fn rejects_missing_values_and_nonempty_requirements() {
    for args in [
        strings(&["exec-client"]),
        strings(&["exec-client", "--pipe", "", "--session", "session", "--proof-file", "proof"]),
        strings(&["exec-client", "--pipe", "pipe", "--session", "", "--proof-file", "proof"]),
        strings(&["exec-client", "--pipe", "pipe", "--session", "session", "--proof-file"]),
    ] {
        assert!(parse_args(args).is_err());
    }
}

#[test]
fn rejects_unknown_or_misplaced_arguments() {
    assert!(parse_args(strings(&[
        "exec-client",
        "--pipe",
        "pipe",
        "--session",
        "session",
        "--proof-file",
        "proof",
        "extra",
    ]))
    .is_err());
    assert!(parse_args(strings(&[
        "computer-use-client",
        "--pipe",
        "pipe",
        "--session",
        "session",
        "--proof-file",
        "proof",
        "helper-without-separator",
    ]))
    .is_err());
}

#[test]
fn hello_serialization_has_only_authenticated_protocol_fields() {
    let options = Options {
        mode: Mode::Exec,
        pipe: "pipe".to_owned(),
        session: "session-123".to_owned(),
        proof_file: "secret-path".to_owned(),
        helper_args: Vec::new(),
    };

    let encoded = serialize_hello(&options, "proof-token", 1234).expect("serialize hello");
    let value = json(&encoded);
    let object = value.as_object().expect("JSON object");

    assert_eq!(object.len(), 5);
    assert_eq!(value["protocol"], 1);
    assert_eq!(value["sessionId"], "session-123");
    assert_eq!(value["mode"], "exec");
    assert_eq!(value["clientPid"], 1234);
    assert_eq!(value["proof"], "proof-token");
    assert!(value.get("proofFile").is_none());
    assert!(value.get("environment").is_none());
    assert!(value.get("env").is_none());
}

#[test]
fn computer_use_hello_includes_exact_helper_arguments() {
    let options = Options {
        mode: Mode::ComputerUse,
        pipe: "pipe".to_owned(),
        session: "session-123".to_owned(),
        proof_file: "proof".to_owned(),
        helper_args: strings(&["--flag", "value with spaces", "--", ""]),
    };

    let encoded = serialize_hello(&options, "proof-token", 7).expect("serialize hello");
    let value = json(&encoded);

    assert_eq!(value["helperArgs"], json_strings(&["--flag", "value with spaces", "--", ""]));
}

#[test]
fn app_server_hello_includes_exact_official_cli_arguments() {
    let options = Options {
        mode: Mode::AppServer,
        pipe: "pipe".to_owned(),
        session: "session-123".to_owned(),
        proof_file: "proof".to_owned(),
        helper_args: strings(&["-c", "features.code_mode_host=true", "app-server"]),
    };

    let encoded = serialize_hello(&options, "proof-token", 9).expect("serialize hello");
    let value = json(&encoded);

    assert_eq!(value["mode"], "app-server");
    assert_eq!(
        value["helperArgs"],
        json_strings(&["-c", "features.code_mode_host=true", "app-server"])
    );
}

#[test]
fn rejects_hello_larger_than_64_kib() {
    let options = Options {
        mode: Mode::ComputerUse,
        pipe: "pipe".to_owned(),
        session: "session".to_owned(),
        proof_file: "proof".to_owned(),
        helper_args: vec!["x".repeat(65 * 1024)],
    };

    assert!(serialize_hello(&options, "proof", 1).is_err());
}

#[test]
fn authentication_response_rejects_stale_session() {
    let value = json(br#"{"accepted":false}"#);
    let error = check_auth_response(value["accepted"].as_bool().unwrap())
        .expect_err("rejected session must fail");
    assert_eq!(error, AuthError::Rejected);
}

#[test]
fn terminal_authentication_requires_the_verified_host_process() {
    let response = terminal_reply(br#"{"accepted":true,"processId":4660}"#).unwrap();
    assert!(matches!(
        response,
        TerminalAuthorization::BrokerHost { process_id: 4660 }
    ));
    assert!(terminal_reply(br#"{"accepted":true,"processId":0}"#).is_err());
}

#[test]
fn legacy_terminal_authentication_is_parsed_without_weakening_new_protocol() {
    let response = terminal_reply(
        br#"{"accepted":true,"tokenHandle":4660,"shell":"C:\\\\Program Files\\\\PowerShell\\\\7\\\\pwsh.exe"}"#,
    )
    .unwrap();
    assert!(matches!(
        response,
        TerminalAuthorization::LegacyToken {
            token_handle: 4660,
            ..
        }
    ));
    assert!(terminal_reply(br#"{"accepted":true,"processId":1,"tokenHandle":2,"shell":"pwsh.exe"}"#).is_err());
}

#[test]
fn proof_reader_zeroes_partial_bytes_before_returning_read_error() {
    // What a failed read had already placed in the buffer is wiped before
    // the error is reported.
    let mut observed_buffer = b"sensitive-partial-proof".to_vec();

    clear_secret(&mut observed_buffer);

    assert!(!observed_buffer.is_empty());
    assert!(observed_buffer.iter().all(|byte| *byte == 0));
}
