use base64::Engine;
use codex_plus_core::exec::{
    authenticate, constant_time_proof_eq, first_existing_terminal_shell,
    is_windows_app_execution_alias, merge_primary_and_cleanup, official_package_query_outcome,
    parse_official_package_query, parse_terminal_shell_preference, readiness_cwd_uri,
    readiness_process_request, select_terminal_shell, ReadinessRequestError,
    official_package_query_command, store_powershell_query_command, CREATE_NO_WINDOW,
    store_powershell7_query_outcome, validate_package_record_structure,
    validate_store_powershell7_record, BrokerHello, ClientRequest, MergedError,
    OfficialPackageRecord, PackageError, ProbeError, ProbeMessage, ProbeResponseState,
    ShellCandidate, TerminalShellPreference, PROBE_PROCESS_ID,
};
use codex_plus_core::exec::{
    accepts_another_client, reject_reason_text, relay_outcome, terminal_end_action, ClientOutcome,
    RejectReason, RelayEnd, RelayFailure, TerminalEnd, TerminalEndAction, MAX_CONCURRENT_CLIENTS,
};
use codex_plus_core::shim::terminal_host_args;
use codex_plus_core::windows::{
    exec_pipe_sddl, trusted_client_identity, IdentityError, WindowsIdentity,
};

fn current_identity() -> WindowsIdentity {
    WindowsIdentity {
        user_sid: "S-1-5-21-1004336348-1177238915-682003330-1001".to_owned(),
        logon_sid: "S-1-5-5-0-123456".to_owned(),
        elevated: true,
        integrity_rid: 0x3000,
    }
}

fn base64(bytes: &[u8]) -> String {
    base64::engine::general_purpose::STANDARD.encode(bytes)
}

fn start_response() -> ProbeMessage {
    ProbeMessage::StartResponse { has_error: false, process_id: Some(PROBE_PROCESS_ID.to_owned()) }
}

fn output(process_id: &str, stream: &str, chunk: String) -> ProbeMessage {
    ProbeMessage::Notification {
        method: Some("process/output".to_owned()),
        process_id: Some(process_id.to_owned()),
        stream: Some(stream.to_owned()),
        chunk: Some(chunk),
        exit_code: None,
        sandbox_denied: None,
    }
}

fn exited(exit_code: i64, sandbox_denied: bool) -> ProbeMessage {
    ProbeMessage::Notification {
        method: Some("process/exited".to_owned()),
        process_id: Some(PROBE_PROCESS_ID.to_owned()),
        stream: None,
        chunk: None,
        exit_code: Some(exit_code),
        sandbox_denied: Some(sandbox_denied),
    }
}

fn candidate(path: &str, is_file: bool) -> ShellCandidate {
    ShellCandidate { path: path.to_owned(), is_file }
}

fn official_record() -> OfficialPackageRecord {
    OfficialPackageRecord {
        name: "OpenAI.Codex".to_owned(),
        package_full_name: "OpenAI.Codex_26.707.3748.0_x64__2p2nqsd0c76g0".to_owned(),
        package_family_name: "OpenAI.Codex_2p2nqsd0c76g0".to_owned(),
        version: "26.707.3748.0".to_owned(),
        signature_kind: "Store".to_owned(),
        is_development_mode: false,
        install_location: r"C:\Program Files\WindowsApps\OpenAI.Codex_26.707.3748.0_x64__2p2nqsd0c76g0"
            .to_owned(),
    }
}

fn hello(mode: &str, helper_args: Option<Vec<String>>) -> BrokerHello {
    BrokerHello {
        protocol: 1,
        session_id: "session".to_owned(),
        mode: mode.to_owned(),
        client_pid: 77,
        proof: "proof".to_owned(),
        helper_args,
    }
}

#[test]
fn exec_client_identity_accepts_same_account_and_logon_session() {
    let identity = current_identity();
    assert!(trusted_client_identity(
        Ok(identity.clone()),
        &identity.user_sid,
        &identity.logon_sid,
    ));
}

#[test]
fn exec_client_identity_rejects_same_account_from_wrong_logon_session() {
    let identity = current_identity();
    let mut wrong_logon = identity.clone();
    wrong_logon.logon_sid = "S-1-5-5-999-999".to_owned();
    assert!(!trusted_client_identity(
        Ok(wrong_logon),
        &identity.user_sid,
        &identity.logon_sid,
    ));
}

#[test]
fn exec_client_identity_rejects_missing_logon_sid() {
    let identity = current_identity();
    assert!(!trusted_client_identity(
        Err(IdentityError::MissingLogonSid),
        &identity.user_sid,
        &identity.logon_sid,
    ));
}

#[test]
fn client_identity_compares_sids_without_ascii_case() {
    let identity = current_identity();
    assert!(trusted_client_identity(
        Ok(identity.clone()),
        &identity.user_sid.to_ascii_lowercase(),
        &identity.logon_sid.to_ascii_lowercase(),
    ));
}

#[test]
fn app_execution_alias_is_not_a_terminal_shell_candidate() {
    assert!(is_windows_app_execution_alias(
        r"C:\Users\test\AppData\Local\Microsoft\WindowsApps\pwsh.exe"
    ));
    assert!(!is_windows_app_execution_alias(
        r"C:\Program Files\WindowsApps\Microsoft.PowerShell_7.6.3.0_x64__8wekyb3d8bbwe\pwsh.exe"
    ));
}

#[test]
fn terminal_shell_selection_honors_installer_preference_and_legacy_auto_mode() {
    let system = r"C:\fixture\system\pwsh.exe";
    let legacy = r"C:\fixture\system32\powershell.exe";
    assert_eq!(
        select_terminal_shell(
            Some(TerminalShellPreference::PowerShell7),
            vec![candidate(system, true)],
            candidate(legacy, true),
        ),
        Some(system.to_owned())
    );
    assert_eq!(
        select_terminal_shell(
            Some(TerminalShellPreference::WindowsPowerShell),
            vec![candidate(system, true)],
            candidate(legacy, true),
        ),
        Some(legacy.to_owned())
    );
    assert_eq!(
        select_terminal_shell(None, vec![candidate(system, true)], candidate(legacy, true)),
        Some(system.to_owned())
    );
    assert_eq!(
        select_terminal_shell(
            None,
            vec![candidate(r"C:\fixture\missing-pwsh.exe", false)],
            candidate(legacy, true),
        ),
        Some(legacy.to_owned())
    );
}

#[test]
fn terminal_shell_preference_parser_accepts_only_installer_values() {
    assert_eq!(
        parse_terminal_shell_preference("powershell7\r\n"),
        Some(TerminalShellPreference::PowerShell7)
    );
    assert_eq!(
        parse_terminal_shell_preference("windows-powershell\n"),
        Some(TerminalShellPreference::WindowsPowerShell)
    );
    assert_eq!(parse_terminal_shell_preference("auto"), None);
    assert_eq!(parse_terminal_shell_preference("cmd"), None);
}

#[test]
fn terminal_shell_selection_rejects_unknown_executables() {
    assert_eq!(first_existing_terminal_shell(&vec![candidate(r"C:\fixture\cmd.exe", true)]), None);
}

#[test]
fn store_powershell_is_passed_to_the_elevated_terminal_host() {
    let cwd = r"D:\workspace with spaces";
    let shell = r"C:\Program Files\WindowsApps\Microsoft.PowerShell_7.6.3.0_x64__8wekyb3d8bbwe\pwsh.exe";

    let args = terminal_host_args(
        4242,
        cwd,
        shell,
        &vec!["-NoLogo".to_string(), "-NoProfile".to_string()],
    );

    assert_eq!(args[0], "terminal-host");
    assert_eq!(args[1], "--client-pid");
    assert_eq!(args[2], "4242");
    assert_eq!(args[3], "--cwd");
    assert_eq!(args[4], cwd);
    assert_eq!(args[5], "--shell");
    assert_eq!(args[6], shell);
    assert_eq!(args[7], "--");
    assert_eq!(args[8], "-NoLogo");
    assert_eq!(args[9], "-NoProfile");
    assert_eq!(args.len(), 10);
}

#[test]
fn exec_pipe_acl_allows_client_io_without_pipe_instance_creation() {
    let identity = current_identity();
    let sddl = exec_pipe_sddl(&identity.user_sid).expect("exec pipe SDDL");
    assert!(sddl.contains("0x0012019B"));
    assert!(!sddl.contains(&format!("GA;;;{}", identity.user_sid)));
    assert_eq!(0x0012_019b_u32 & 0x4, 0);
}

#[test]
fn official_package_record_requires_exact_codex_identity_version_and_location() {
    let record = official_record();
    validate_package_record_structure(&record).expect("official package");

    for mut invalid in [
        OfficialPackageRecord { name: "Other.Codex".to_owned(), ..record.clone() },
        OfficialPackageRecord {
            package_full_name: "OpenAI.Codex_1.0.0.0_x64__wrongpublisher".to_owned(),
            ..record.clone()
        },
        OfficialPackageRecord { version: "1.0.0.0".to_owned(), ..record.clone() },
        OfficialPackageRecord { signature_kind: "Developer".to_owned(), ..record.clone() },
        OfficialPackageRecord { is_development_mode: true, ..record.clone() },
        OfficialPackageRecord {
            install_location: r"C:\Users\me\OpenAI.Codex_26.707.3748.0_x64__2p2nqsd0c76g0".to_owned(),
            ..record.clone()
        },
    ] {
        assert!(validate_package_record_structure(&invalid).is_err());
        invalid.name.clear();
    }
}

#[test]
fn official_package_errors_name_the_failed_check() {
    let record = official_record();
    assert_eq!(
        validate_package_record_structure(&OfficialPackageRecord { name: "Other.Codex".to_owned(), ..record.clone() }),
        Err(PackageError::WrongName)
    );
    assert_eq!(
        validate_package_record_structure(&OfficialPackageRecord { is_development_mode: true, ..record.clone() }),
        Err(PackageError::DevelopmentMode)
    );
    assert_eq!(
        validate_package_record_structure(&OfficialPackageRecord { signature_kind: "store".to_owned(), ..record }),
        Ok(())
    );
}

#[test]
fn package_query_output_becomes_the_package_record() {
    let output = "OpenAI.Codex\tOpenAI.Codex_26.707.3748.0_x64__2p2nqsd0c76g0\tOpenAI.Codex_2p2nqsd0c76g0\t26.707.3748.0\tStore\tFalse\tC:\\Program Files\\WindowsApps\\OpenAI.Codex_26.707.3748.0_x64__2p2nqsd0c76g0\r\n";
    assert_eq!(parse_official_package_query(output), Ok(official_record()));
    assert_eq!(
        official_package_query_outcome(Some(0), output.as_bytes().to_vec()),
        Ok(Some(official_record()))
    );
}

#[test]
fn package_query_reports_missing_package_failure_and_malformed_output() {
    assert_eq!(official_package_query_outcome(Some(3), b"ignored".to_vec()), Ok(None));
    assert_eq!(
        official_package_query_outcome(Some(1), Vec::new()),
        Err(PackageError::QueryFailed)
    );
    assert_eq!(
        official_package_query_outcome(None, Vec::new()),
        Err(PackageError::QueryFailed)
    );
    assert_eq!(
        official_package_query_outcome(Some(0), vec![0xff, 0xfe]),
        Err(PackageError::NotUtf8)
    );
    assert_eq!(
        parse_official_package_query("OpenAI.Codex\tonly\tthree"),
        Err(PackageError::InvalidQueryOutput)
    );
    assert_eq!(
        parse_official_package_query("a\tb\tc\td\te\tmaybe\tg"),
        Err(PackageError::InvalidDevelopmentMode)
    );
}

#[test]
fn store_powershell_record_gives_its_pwsh_path() {
    let location = r"C:\Program Files\WindowsApps\Microsoft.PowerShell_7.6.3.0_x64__8wekyb3d8bbwe";
    assert_eq!(
        validate_store_powershell7_record(
            "Microsoft.PowerShell",
            "Microsoft.PowerShell_7.6.3.0_x64__8wekyb3d8bbwe",
            "7.6.3.0",
            "X64",
            location,
        ),
        Ok(format!(r"{location}\pwsh.exe"))
    );
    assert_eq!(
        validate_store_powershell7_record(
            "Microsoft.PowerShell",
            "Microsoft.PowerShell_6.2.0.0_x64__8wekyb3d8bbwe",
            "6.2.0.0",
            "x64",
            location,
        ),
        Err(PackageError::InvalidVersion)
    );
    assert_eq!(
        validate_store_powershell7_record(
            "Microsoft.PowerShell",
            "Microsoft.PowerShell_7.6.3.0_mips__8wekyb3d8bbwe",
            "7.6.3.0",
            "mips",
            location,
        ),
        Err(PackageError::InvalidArchitecture)
    );
    assert_eq!(
        validate_store_powershell7_record(
            "Microsoft.PowerShell",
            "Microsoft.PowerShell_7.6.3.0_x64__8wekyb3d8bbwe",
            "7.6.3.0",
            "x64",
            r"C:\Users\me\Microsoft.PowerShell_7.6.3.0_x64__8wekyb3d8bbwe",
        ),
        Err(PackageError::NotUnderWindowsApps)
    );
}

#[test]
fn store_powershell_query_outcome_follows_the_query_status() {
    let location = r"C:\Program Files\WindowsApps\Microsoft.PowerShell_7.6.3.0_x64__8wekyb3d8bbwe";
    let output = format!(
        "Microsoft.PowerShell\tMicrosoft.PowerShell_7.6.3.0_x64__8wekyb3d8bbwe\t7.6.3.0\tX64\t{location}\n"
    );
    assert_eq!(
        store_powershell7_query_outcome(Some(0), output.into_bytes()),
        Ok(Some(format!(r"{location}\pwsh.exe")))
    );
    assert_eq!(store_powershell7_query_outcome(Some(3), Vec::new()), Ok(None));
    assert_eq!(
        store_powershell7_query_outcome(Some(0), b"too\tfew".to_vec()),
        Err(PackageError::InvalidQueryOutput)
    );
}

#[test]
fn cleanup_error_is_returned_without_hiding_primary_error() {
    let both = merge_primary_and_cleanup::<(), &str>(Err("primary"), Err("cleanup"))
        .expect_err("both errors must fail");
    assert_eq!(both, MergedError::Both { primary: "primary", cleanup: "cleanup" });
    let cleanup = merge_primary_and_cleanup::<(), &str>(Ok(()), Err("cleanup-only"))
        .expect_err("cleanup error must fail");
    assert_eq!(cleanup, MergedError::Cleanup("cleanup-only"));
    assert_eq!(
        merge_primary_and_cleanup::<u8, &str>(Err("primary"), Ok(())),
        Err(MergedError::Primary("primary"))
    );
    assert_eq!(merge_primary_and_cleanup::<u8, &str>(Ok(5), Ok(())), Ok(5));
}

#[test]
fn readiness_rejects_output_before_start_response() {
    let identity = current_identity();
    let mut state = ProbeResponseState::default();
    assert!(state.consume(output(PROBE_PROCESS_ID, "stdout", String::new())).is_err());
    assert!(state.finish(&identity.user_sid, &identity.logon_sid).is_err());
}

#[test]
fn readiness_rejects_wrong_process_id() {
    let mut state = ProbeResponseState::default();
    state.consume(start_response()).expect("start response");
    assert_eq!(
        state.consume(output("wrong", "stdout", String::new())),
        Err(ProbeError::WrongProcessId)
    );
}

#[test]
fn readiness_rejects_sandbox_denied_exit() {
    let mut state = ProbeResponseState::default();
    state.consume(start_response()).expect("start response");
    assert_eq!(state.consume(exited(0, true)), Err(ProbeError::SandboxDenied));
}

#[test]
fn readiness_stderr_cannot_contribute_identity() {
    let identity = current_identity();
    let mut state = ProbeResponseState::default();
    state.consume(start_response()).expect("start response");
    let chunk = base64(format!("SID={};RID=12288", identity.user_sid).as_bytes());
    state.consume(output(PROBE_PROCESS_ID, "stderr", chunk)).expect("stderr ignored");
    state.consume(exited(0, false)).expect("exit");
    assert!(state.finish(&identity.user_sid, &identity.logon_sid).is_err());
}

#[test]
fn readiness_failure_reports_bounded_stderr_context() {
    let mut state = ProbeResponseState::default();
    state.consume(start_response()).expect("start response");
    let chunk = base64(b"diagnostic failure");
    state.consume(output(PROBE_PROCESS_ID, "stderr", chunk)).expect("stderr collection");
    let error = state.consume(exited(1, false)).expect_err("nonzero readiness exit must fail");
    match error {
        ProbeError::ProcessFailed(text) => assert!(text.contains("diagnostic failure")),
        other => panic!("unexpected error {other:?}"),
    }
}

#[test]
fn readiness_rejects_wrong_logon_session_from_actual_command_output() {
    let identity = current_identity();
    let mut state = ProbeResponseState::default();
    state.consume(start_response()).expect("start response");
    let chunk = base64(format!("SID={};LOGON=S-1-5-5-999-999;RID=12288", identity.user_sid).as_bytes());
    state.consume(output(PROBE_PROCESS_ID, "stdout", chunk)).expect("stdout");
    state.consume(exited(0, false)).expect("exit");
    assert!(state.finish(&identity.user_sid, &identity.logon_sid).is_err());
}

#[test]
fn readiness_rejects_missing_logon_session_from_actual_command_output() {
    let identity = current_identity();
    let mut state = ProbeResponseState::default();
    state.consume(start_response()).expect("start response");
    let chunk = base64(format!("SID={};LOGON=;RID=12288", identity.user_sid).as_bytes());
    state.consume(output(PROBE_PROCESS_ID, "stdout", chunk)).expect("stdout");
    state.consume(exited(0, false)).expect("exit");
    assert!(state.finish(&identity.user_sid, &identity.logon_sid).is_err());
}

#[test]
fn readiness_accepts_utf16_windows_powershell_identity_output() {
    let identity = current_identity();
    let mut state = ProbeResponseState::default();
    state.consume(start_response()).expect("start response");
    let text = format!("SID={};LOGON={};RID=12288\r\n", identity.user_sid, identity.logon_sid);
    let bytes = text.encode_utf16().flat_map(u16::to_le_bytes).collect::<Vec<_>>();
    state.consume(output(PROBE_PROCESS_ID, "stdout", base64(&bytes))).expect("stdout");
    state.consume(exited(0, false)).expect("exit");
    state.finish(&identity.user_sid, &identity.logon_sid).expect("UTF-16 identity output");
}

#[test]
fn readiness_accepts_utf8_identity_output_and_requires_high_integrity() {
    let identity = current_identity();
    let mut state = ProbeResponseState::default();
    state.consume(start_response()).expect("start response");
    let text = format!("SID={};LOGON={};RID=12288\n", identity.user_sid, identity.logon_sid);
    state.consume(output(PROBE_PROCESS_ID, "stdout", base64(text.as_bytes()))).expect("stdout");
    state.consume(exited(0, false)).expect("exit");
    assert_eq!(state.clone().finish(&identity.user_sid, &identity.logon_sid), Ok(()));

    let mut medium = ProbeResponseState::default();
    medium.consume(start_response()).expect("start response");
    let text = format!("SID={};LOGON={};RID=8192\n", identity.user_sid, identity.logon_sid);
    medium.consume(output(PROBE_PROCESS_ID, "stdout", base64(text.as_bytes()))).expect("stdout");
    medium.consume(exited(0, false)).expect("exit");
    assert_eq!(
        medium.finish(&identity.user_sid, &identity.logon_sid),
        Err(ProbeError::NotHighIntegrity)
    );
}

#[test]
fn readiness_rejects_duplicate_start_and_invalid_chunks() {
    let mut state = ProbeResponseState::default();
    state.consume(start_response()).expect("start response");
    assert_eq!(state.consume(start_response()), Err(ProbeError::DuplicateStart));
    assert_eq!(
        state.consume(output(PROBE_PROCESS_ID, "stdout", "%%%".to_owned())),
        Err(ProbeError::InvalidChunk)
    );
    assert_eq!(
        state.consume(output(PROBE_PROCESS_ID, "console", String::new())),
        Err(ProbeError::UnexpectedStream)
    );
}

#[test]
fn proof_digest_comparison_handles_different_lengths() {
    assert!(constant_time_proof_eq(b"same", b"same"));
    assert!(!constant_time_proof_eq(b"short", b"a much longer proof"));
    assert!(!constant_time_proof_eq(b"a much longer proof", b"short"));
}

#[test]
fn authenticated_hellos_become_client_requests() {
    let identity = current_identity();
    let accept_hello = |hello: &BrokerHello, pid: u32| {
        authenticate(
            hello,
            pid,
            Ok(identity.clone()),
            "session",
            "proof",
            &identity.user_sid,
            &identity.logon_sid,
        )
    };
    assert_eq!(accept_hello(&hello("exec", None), 77), Some(ClientRequest::Exec));
    assert_eq!(
        accept_hello(&hello("app-server", Some(vec!["app-server".to_owned()])), 77),
        Some(ClientRequest::AppServer(vec!["app-server".to_owned()]))
    );
    assert_eq!(
        accept_hello(&hello("terminal", Some(vec![r"C:\work".to_owned(), "-NoLogo".to_owned()])), 77),
        Some(ClientRequest::Terminal {
            client_pid: 77,
            cwd: r"C:\work".to_owned(),
            shell_args: vec!["-NoLogo".to_owned()],
        })
    );
    assert_eq!(accept_hello(&hello("exec", None), 78), None);
    assert_eq!(accept_hello(&hello("exec", Some(Vec::new())), 77), None);
    assert_eq!(accept_hello(&hello("app-server", Some(vec!["--version".to_owned()])), 77), None);
    let mut wrong_proof = hello("exec", None);
    wrong_proof.proof = "guess".to_owned();
    assert_eq!(accept_hello(&wrong_proof, 77), None);
}

#[test]
fn readiness_working_directory_is_a_file_uri() {
    assert_eq!(readiness_cwd_uri(r"C:\Users\me\work"), "file:///C:/Users/me/work");
    assert_eq!(readiness_cwd_uri(""), "file:///");
}

#[test]
fn readiness_request_uses_windowless_shim_and_empty_environment() {
    let shim = r"C:\Program Files\Codex++\codex-plus-admin-shim.exe";
    let request = readiness_process_request(shim, r"C:\work").expect("build readiness request");
    let request: serde_json::Value = serde_json::from_str(&request).expect("valid JSON");
    request["params"]["argv"].as_array().expect("argv");
    assert_eq!(
        request["params"]["argv"],
        serde_json::Value::Array(vec![shim.into(), "identity-probe".into()])
    );
    let environment = request["params"]["env"].as_object().expect("environment");
    assert!(environment.is_empty());
    assert_eq!(request["id"], 2);
    assert_eq!(request["method"], "process/start");
    assert_eq!(request["params"]["processId"], PROBE_PROCESS_ID);
    assert_eq!(request["params"]["cwd"], "file:///C:/work");
    assert_eq!(request["params"]["tty"], false);
    assert!(request["params"]["arg0"].is_null());
    let serialized = request.to_string().to_ascii_lowercase();
    assert!(!serialized.contains("powershell"));
    assert!(!serialized.contains("whoami"));
}

#[test]
fn readiness_request_needs_an_absolute_probe_path() {
    assert_eq!(
        readiness_process_request(r"codex-plus-admin-shim.exe", r"C:\work"),
        Err(ReadinessRequestError::ProbeNotAbsolute)
    );
}

#[test]
fn store_package_discovery_hides_its_powershell_process() {
    let command = official_package_query_command(r"C:\Windows\System32");
    assert_eq!(command.creation_flags, CREATE_NO_WINDOW);
    assert_eq!(command.program, r"C:\Windows\System32\WindowsPowerShell\v1.0\powershell.exe");
    assert_eq!(&command.args[..5], ["-NoProfile", "-NonInteractive", "-ExecutionPolicy", "Bypass", "-Command"]);
    let script = &command.args[5];
    assert!(script.contains(
        r"Import-Module -Name 'C:\Windows\System32\WindowsPowerShell\v1.0\Modules\Appx\Appx.psd1' -Force"
    ));
    assert!(script.contains("Get-AppxPackage -Name OpenAI.Codex"));
    assert!(script.contains("{exit 3}"));

    let store = store_powershell_query_command(r"D:\Win's\System32");
    assert_eq!(store.creation_flags, CREATE_NO_WINDOW);
    assert_eq!(store.args[0], "-NoLogo");
    assert!(store.args[6].contains(r"Import-Module -Name 'D:\Win''s\System32\WindowsPowerShell\v1.0\Modules\Appx\Appx.psd1'"));
    assert!(store.args[6].contains("Get-AppxPackage -Name Microsoft.PowerShell"));
}

#[test]
fn broker_listens_until_eight_clients_are_served() {
    assert_eq!(MAX_CONCURRENT_CLIENTS, 8);
    assert!(accepts_another_client(0));
    assert!(accepts_another_client(7));
    assert!(!accepts_another_client(8));
    assert!(!accepts_another_client(9));
}

#[test]
fn rejection_reasons_name_the_stage() {
    assert_eq!(reject_reason_text(RejectReason::AuthenticationRejected), "authentication-rejected");
    assert_eq!(reject_reason_text(RejectReason::ProductionStartRejected), "production-start-rejected");
    assert_eq!(reject_reason_text(RejectReason::TerminalStartRejected), "terminal-start-rejected");
}

#[test]
fn exec_server_closing_its_output_is_a_failure_but_app_server_is_done() {
    let exec = ClientRequest::Exec;
    let app = ClientRequest::AppServer(vec!["app-server".to_owned()]);
    assert_eq!(relay_outcome(&exec, RelayEnd::ServerOutputClosed), Err(RelayFailure::ExecOutputClosed));
    assert_eq!(relay_outcome(&app, RelayEnd::ServerOutputClosed), Ok(ClientOutcome::Disconnected));
    assert_eq!(relay_outcome(&exec, RelayEnd::ClientClosed), Ok(ClientOutcome::Disconnected));
    assert_eq!(relay_outcome(&app, RelayEnd::Shutdown), Ok(ClientOutcome::Shutdown));
    assert_eq!(relay_outcome(&exec, RelayEnd::ServerExited), Err(RelayFailure::ExecExited));
    assert_eq!(relay_outcome(&app, RelayEnd::ServerExited), Ok(ClientOutcome::Disconnected));
}

#[test]
fn terminal_session_end_reports_exit_or_terminates_host() {
    assert_eq!(
        terminal_end_action(TerminalEnd::Exited(Some(7))),
        TerminalEndAction { report_exit_code: Some(7), terminate_host: false, outcome: ClientOutcome::Disconnected }
    );
    assert_eq!(
        terminal_end_action(TerminalEnd::Exited(None)),
        TerminalEndAction { report_exit_code: Some(1), terminate_host: false, outcome: ClientOutcome::Disconnected }
    );
    assert_eq!(
        terminal_end_action(TerminalEnd::Shutdown),
        TerminalEndAction { report_exit_code: None, terminate_host: true, outcome: ClientOutcome::Shutdown }
    );
    assert_eq!(
        terminal_end_action(TerminalEnd::ClientClosed),
        TerminalEndAction { report_exit_code: None, terminate_host: true, outcome: ClientOutcome::Disconnected }
    );
}
