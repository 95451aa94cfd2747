use base64::Engine;
use codex_plus_core::admin_mode::{
    app_server_bootstrap, closed_channel_failure, computer_use_descriptor_path, generate_proof,
    launcher_is_elevated, merged_failure, recover_stale_admin_mode,
    recover_stale_admin_mode_for_shutdown, session_id_prefix, shutdown_result, startup_layout,
    new_session_id, startup_rollback, StartupPart, status, AdminModeConfig, AdminModeError, AdminModeRecoveryStep, HealthSource, ShutdownFailure,
};
use codex_plus_core::admin_mode::{
    startup_begin, startup_step, StartupProgress, StartupStage, StartupStep,
};
use codex_plus_core::admin_mode::{
    admin_recovery_step, AdminRecoveryAction, AdminRecoveryEvent, AdminRecoveryFailure,
};
use codex_plus_core::computer_use::ComputerUseRecoveryOutcome;
use codex_plus_core::environment::EnvironmentRestoreOutcome;
use codex_plus_core::windows::WindowsIdentity;

fn config() -> AdminModeConfig {
    AdminModeConfig {
        codex_home: r"C:\Users\me\.codex".to_owned(),
        state_dir: r"C:\Users\me\AppData\Local\CodexPlus\state".to_owned(),
        app_dir: r"C:\Program Files\WindowsApps\OpenAI.Codex_26.707.3748.0_x64__2p2nqsd0c76g0\app".to_owned(),
        shim_path: r"C:\Program Files\Codex++\codex-plus-admin-shim.exe".to_owned(),
        terminal_shim_path: r"C:\Program Files\Codex++\admin-terminal\pwsh.exe".to_owned(),
    }
}

#[test]
fn startup_layout_names_every_session_resource() {
    let layout = startup_layout(&config(), "0123456789abcdef");
    assert_eq!(layout.job_name, "codex-plus-admin-0123456789abcdef");
    assert_eq!(layout.exec_pipe, r"\\.\pipe\codex-plus-admin-0123456789abcdef-exec");
    assert_eq!(layout.computer_use_pipe, r"\\.\pipe\codex-plus-admin-0123456789abcdef-computer-use");
    assert_eq!(
        layout.codex_exe,
        r"C:\Program Files\WindowsApps\OpenAI.Codex_26.707.3748.0_x64__2p2nqsd0c76g0\app\resources\codex.exe"
    );
    assert_eq!(
        layout.descriptor_path,
        r"C:\Users\me\AppData\Local\CodexPlus\state\administrator-mode-computer-use.v1.json"
    );
    assert_eq!(
        layout.proof_path,
        r"C:\Users\me\AppData\Local\CodexPlus\state\administrator-mode-computer-use.v1.proof"
    );
    assert_eq!(computer_use_descriptor_path(&config().state_dir), layout.descriptor_path);

    let bootstrap = app_server_bootstrap(
        layout.codex_exe.clone(),
        config().terminal_shim_path,
        &layout,
        "0123456789abcdef",
    );
    assert_eq!(bootstrap.terminal_pipe_name, layout.exec_pipe);
    assert_eq!(bootstrap.terminal_session_id, "0123456789abcdef");
    assert_eq!(bootstrap.terminal_proof_path, layout.proof_path);
}

#[test]
fn startup_recovery_leaves_an_active_broker_alone() {
    assert_eq!(
        recover_stale_admin_mode(ComputerUseRecoveryOutcome::ActiveBroker),
        AdminModeRecoveryStep::LeaveActiveBroker
    );
    assert_eq!(
        recover_stale_admin_mode(ComputerUseRecoveryOutcome::Recovered),
        AdminModeRecoveryStep::RecoverTransactions
    );
    assert_eq!(
        recover_stale_admin_mode_for_shutdown(ComputerUseRecoveryOutcome::ActiveBroker),
        Err(AdminModeError::BrokerStillActive)
    );
    assert_eq!(
        recover_stale_admin_mode_for_shutdown(ComputerUseRecoveryOutcome::NothingToRecover),
        Ok(AdminModeRecoveryStep::RecoverTransactions)
    );
}

#[test]
fn only_an_elevated_high_integrity_launcher_may_start() {
    let identity = WindowsIdentity {
        user_sid: "S-1-5-21-1004336348-1177238915-682003330-1001".to_owned(),
        logon_sid: "S-1-5-5-0-123456".to_owned(),
        elevated: true,
        integrity_rid: 0x3000,
    };
    assert!(launcher_is_elevated(&identity));
    assert!(!launcher_is_elevated(&WindowsIdentity { elevated: false, ..identity.clone() }));
    assert!(!launcher_is_elevated(&WindowsIdentity { integrity_rid: 0x2000, ..identity }));
}

#[test]
fn proofs_are_32_random_bytes_in_url_safe_base64() {
    let first = generate_proof().expect("proof");
    let second = generate_proof().expect("proof");
    assert_eq!(first.len(), 43);
    assert!(!first.contains('='));
    let bytes = base64::engine::general_purpose::URL_SAFE_NO_PAD.decode(&first).expect("base64");
    assert_eq!(bytes.len(), 32);
    assert_ne!(first, second);
}

#[test]
fn status_reports_exec_only_when_every_part_is_installed() {
    let all = status(true, true, true, false);
    assert!(all.requested);
    assert_eq!(all.state, "active");
    assert!(all.exec_elevated);
    assert!(!all.computer_use_elevated);
    assert_eq!(all.error_component, None);
    assert!(!status(true, false, true, true).exec_elevated);
    assert!(status(false, true, true, true).computer_use_elevated);
}

#[test]
fn shutdown_attempts_everything_and_reports_the_first_failure() {
    assert_eq!(
        shutdown_result(Err(()), false, false, false),
        Err(ShutdownFailure::EnvironmentCleanup)
    );
    assert_eq!(
        shutdown_result(Ok(EnvironmentRestoreOutcome::Restored), false, false, false),
        Err(ShutdownFailure::UnifiedExecCleanup)
    );
    assert_eq!(
        shutdown_result(Ok(EnvironmentRestoreOutcome::Restored), true, false, false),
        Err(ShutdownFailure::ComputerUseCleanup)
    );
    assert_eq!(
        shutdown_result(Ok(EnvironmentRestoreOutcome::Restored), true, true, false),
        Err(ShutdownFailure::ExecCleanup)
    );
    assert_eq!(
        shutdown_result(Ok(EnvironmentRestoreOutcome::NoJournal), true, true, true),
        Ok(EnvironmentRestoreOutcome::NoJournal)
    );
}

#[test]
fn merged_health_reports_the_exec_broker_first() {
    assert_eq!(merged_failure(Some("exec".to_owned()), Some("cu".to_owned())), Some("exec".to_owned()));
    assert_eq!(merged_failure(None, Some("cu".to_owned())), Some("cu".to_owned()));
    assert_eq!(merged_failure(None, None), None);
    assert_eq!(
        closed_channel_failure(HealthSource::Exec),
        "administrator exec broker health channel closed"
    );
    assert_eq!(
        closed_channel_failure(HealthSource::ComputerUse),
        "administrator Computer Use broker health channel closed"
    );
}

#[test]
fn session_prefix_is_at_most_eight_characters() {
    assert_eq!(session_id_prefix("0123456789abcdef"), "01234567");
    assert_eq!(session_id_prefix("abc"), "abc");
}

#[test]
fn session_ids_are_fresh_lowercase_uuids() {
    let first = new_session_id().expect("system random source");
    let second = new_session_id().expect("system random source");
    assert_eq!(first.len(), 32);
    assert_eq!(&first[12..13], "4");
    assert!(matches!(&first[16..17], "8" | "9" | "a" | "b"));
    assert!(first.chars().all(|c| c.is_ascii_digit() || ('a'..='f').contains(&c)));
    assert_ne!(first, second);
}

#[test]
fn failed_startup_undoes_what_came_up_last_first() {
    assert_eq!(
        startup_rollback(true, true, true, true),
        vec![StartupPart::UnifiedExec, StartupPart::Environment, StartupPart::ComputerUse, StartupPart::Exec]
    );
    assert_eq!(startup_rollback(true, false, false, false), vec![StartupPart::Exec]);
    assert_eq!(
        startup_rollback(true, true, false, false),
        vec![StartupPart::ComputerUse, StartupPart::Exec]
    );
    assert!(startup_rollback(false, false, false, false).is_empty());
}

#[test]
fn recovery_runs_computer_use_then_unified_exec_then_environment() {
    for at_shutdown in [false, true] {
        assert_eq!(
            admin_recovery_step(at_shutdown, AdminRecoveryEvent::ComputerUse(Some(ComputerUseRecoveryOutcome::Recovered))),
            AdminRecoveryAction::RecoverUnifiedExec
        );
        assert_eq!(
            admin_recovery_step(at_shutdown, AdminRecoveryEvent::ComputerUse(Some(ComputerUseRecoveryOutcome::NothingToRecover))),
            AdminRecoveryAction::RecoverUnifiedExec
        );
        assert_eq!(
            admin_recovery_step(at_shutdown, AdminRecoveryEvent::UnifiedExec(true)),
            AdminRecoveryAction::RecoverEnvironment
        );
        assert_eq!(
            admin_recovery_step(at_shutdown, AdminRecoveryEvent::Environment(Some(EnvironmentRestoreOutcome::Restored))),
            AdminRecoveryAction::Finish(Ok(EnvironmentRestoreOutcome::Restored))
        );
        assert_eq!(
            admin_recovery_step(at_shutdown, AdminRecoveryEvent::ComputerUse(None)),
            AdminRecoveryAction::Finish(Err(AdminRecoveryFailure::ComputerUse))
        );
        assert_eq!(
            admin_recovery_step(at_shutdown, AdminRecoveryEvent::UnifiedExec(false)),
            AdminRecoveryAction::Finish(Err(AdminRecoveryFailure::UnifiedExec))
        );
        assert_eq!(
            admin_recovery_step(at_shutdown, AdminRecoveryEvent::Environment(None)),
            AdminRecoveryAction::Finish(Err(AdminRecoveryFailure::Environment))
        );
    }
    assert_eq!(
        admin_recovery_step(false, AdminRecoveryEvent::ComputerUse(Some(ComputerUseRecoveryOutcome::ActiveBroker))),
        AdminRecoveryAction::Finish(Ok(EnvironmentRestoreOutcome::NoJournal))
    );
    assert_eq!(
        admin_recovery_step(true, AdminRecoveryEvent::ComputerUse(Some(ComputerUseRecoveryOutcome::ActiveBroker))),
        AdminRecoveryAction::Finish(Err(AdminRecoveryFailure::BrokerStillActive))
    );
}

fn run_startup(fail_at: Option<StartupStage>) -> (Vec<StartupStage>, StartupStep) {
    let mut progress: StartupProgress = startup_begin();
    let mut stages = Vec::new();
    loop {
        stages.push(progress.stage);
        let ok = fail_at != Some(progress.stage);
        match startup_step(progress, ok) {
            StartupStep::Continue(next) => progress = next,
            other => return (stages, other),
        }
    }
}

#[test]
fn startup_checks_before_the_job_and_brings_brokers_up_before_transactions() {
    let (stages, end) = run_startup(None);
    assert_eq!(
        stages,
        vec![
            StartupStage::Recover,
            StartupStage::CheckShims,
            StartupStage::CheckIdentity,
            StartupStage::CreateSession,
            StartupStage::CreateJob,
            StartupStage::StartExec,
            StartupStage::VerifyExec,
            StartupStage::PrepareComputerUse,
            StartupStage::StartComputerUse,
            StartupStage::VerifyComputerUse,
            StartupStage::InstallEnvironment,
            StartupStage::InstallUnifiedExec,
        ]
    );
    assert_eq!(end, StartupStep::Ready);
}

#[test]
fn failed_startup_stage_undoes_what_is_up() {
    assert_eq!(run_startup(Some(StartupStage::CheckIdentity)).1, StartupStep::Abort(Vec::new()));
    assert_eq!(run_startup(Some(StartupStage::VerifyExec)).1, StartupStep::Abort(vec![StartupPart::Exec]));
    assert_eq!(
        run_startup(Some(StartupStage::InstallUnifiedExec)).1,
        StartupStep::Abort(vec![StartupPart::Environment, StartupPart::ComputerUse, StartupPart::Exec])
    );
}
