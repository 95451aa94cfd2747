use codex_plus_core::computer_use::{helper_admission, HelperAdmission};
use codex_plus_core::computer_use::{
    admit_helper_image, computer_use_start_begin, computer_use_start_step, ComputerUseStartProgress,
    ComputerUseStartStage, ComputerUseStartStep, ComputerUseUndo,
};
use codex_plus_core::computer_use::{
    acl_listing_has_expected_entries, authenticate_computer_use_client, file_protection_args,
    ComputerUseHello, check_descriptor_and_proof, client_failure_policy,
    is_recovery_evidence, proof_path_for, readiness_probe_args, recovery_evidence_path,
    recover_stale_admin_computer_use, recover_stale_admin_computer_use_for_shutdown,
    ClientFailurePolicy, ClientFailureStage, ComputerUseAdminDescriptor, ComputerUseRecoveryOutcome, DescriptorError, RecoveryAction, RecoveryError, RecoveryEvent,
    RECOVERY_EVIDENCE_TEXT,
};
use codex_plus_core::encoding::sha256_hex_of;
use codex_plus_core::windows::{
    computer_use_pipe_sddl, trusted_client_identity, IdentityError, WindowsIdentity,
};

const STATE_DIR: &str = r"C:\Users\me\AppData\Local\CodexPlus\state";
const DESCRIPTOR: &str = r"C:\Users\me\AppData\Local\CodexPlus\state\computer-use-admin.json";

fn current_identity() -> WindowsIdentity {
    WindowsIdentity {
        user_sid: "S-1-5-21-1004336348-1177238915-682003330-1001".to_owned(),
        logon_sid: "S-1-5-5-0-123456".to_owned(),
        elevated: false,
        integrity_rid: 0x2000,
    }
}

fn descriptor() -> ComputerUseAdminDescriptor {
    ComputerUseAdminDescriptor {
        broker_pid: 4242,
        broker_creation_time: 99,
        shim_path: r"C:\Program Files\Codex++\codex-plus-admin-shim.exe".to_owned(),
        pipe_name: "pipe".to_owned(),
        session_id: "session".to_owned(),
        proof_path: proof_path_for(DESCRIPTOR),
        proof_hash: sha256_hex_of(b"proof"),
        transport_path: r"C:\Users\me\transport.js".to_owned(),
        backup_path: r"C:\Users\me\transport.backup.js".to_owned(),
        original_hash: "original".to_owned(),
        patched_hash: "patched".to_owned(),
    }
}

#[test]
fn acl_verification_accepts_non_utf8_localized_account_names() {
    let listing = b"\x81:(R,D)\r\nBUILTIN\\Administrators:(F)\r\nSYSTEM:(F)\r\n";
    assert!(acl_listing_has_expected_entries(listing));
}

#[test]
fn acl_verification_rejects_inherited_or_extra_entries() {
    let inherited = b"\x81:(I)(R,D)\r\nBUILTIN\\Administrators:(F)\r\nSYSTEM:(F)\r\n";
    assert!(!acl_listing_has_expected_entries(inherited));
    let extra = b"\x81:(R,D)\r\nEveryone:(R)\r\nBUILTIN\\Administrators:(F)\r\nSYSTEM:(F)\r\n";
    assert!(!acl_listing_has_expected_entries(extra));
}

#[test]
fn computer_use_client_identity_accepts_same_account_and_logon_session() {
    let identity = current_identity();
    assert!(trusted_client_identity(
        Ok(identity.clone()),
        &identity.user_sid,
        &identity.logon_sid,
    ));
}

#[test]
fn computer_use_client_identity_rejects_same_account_from_wrong_logon_session() {
    let identity = current_identity();
    let mut wrong_logon = identity.clone();
    wrong_logon.logon_sid = "S-1-5-5-999-999".to_owned();
    assert!(!trusted_client_identity(
        Ok(wrong_logon),
        &identity.user_sid,
        &identity.logon_sid,
    ));
}

#[test]
fn computer_use_client_identity_rejects_missing_logon_sid() {
    let identity = current_identity();
    assert!(!trusted_client_identity(
        Err(IdentityError::MissingLogonSid),
        &identity.user_sid,
        &identity.logon_sid,
    ));
}

#[test]
fn computer_use_pipe_acl_allows_client_io_without_pipe_instance_creation() {
    let identity = current_identity();
    let sddl = computer_use_pipe_sddl(&identity.user_sid).expect("Computer Use pipe SDDL");
    assert!(sddl.contains("0x0012019B"));
    assert!(!sddl.contains(&format!("GA;;;{}", identity.user_sid)));
    assert_eq!(0x0012_019b_u32 & 0x4, 0);
}

#[test]
fn readiness_probe_uses_official_parent_pid_argument_shape() {
    assert_eq!(
        readiness_probe_args(4242),
        ["--parent-pid".to_owned(), "4242".to_owned()]
    );
}

#[test]
fn client_failure_policy_only_recovers_protocol_and_relay_failures() {
    assert_eq!(
        client_failure_policy(ClientFailureStage::Accept),
        ClientFailurePolicy::Fatal
    );
    assert_eq!(
        client_failure_policy(ClientFailureStage::HelperStart),
        ClientFailurePolicy::Fatal
    );
    assert_eq!(
        client_failure_policy(ClientFailureStage::HelperIntegrity),
        ClientFailurePolicy::Fatal
    );
    assert_eq!(
        client_failure_policy(ClientFailureStage::Authentication),
        ClientFailurePolicy::Recoverable
    );
    assert_eq!(
        client_failure_policy(ClientFailureStage::Relay),
        ClientFailurePolicy::Recoverable
    );
}

#[test]
fn cleanup_evidence_recovers_an_orphaned_proof_after_descriptor_deletion() {
    // The descriptor was deleted before its proof; the recovery evidence
    // left behind makes startup recovery remove the orphaned proof.
    let (mut recovery, action) =
        recover_stale_admin_computer_use(STATE_DIR, DESCRIPTOR);
    assert_eq!(action, RecoveryAction::CheckStateFile(DESCRIPTOR.to_owned()));
    assert_eq!(recovery.step(RecoveryEvent::Completed), RecoveryAction::OpenDescriptor);
    assert_eq!(
        recovery.step(RecoveryEvent::DescriptorMissing),
        RecoveryAction::ReadEvidence
    );
    assert_eq!(
        recovery.step(RecoveryEvent::Evidence(true)),
        RecoveryAction::RecoverRenameWindow(true)
    );
    assert_eq!(
        recovery.step(RecoveryEvent::Completed),
        RecoveryAction::RemoveUnpublishedProof
    );
    assert_eq!(recovery.step(RecoveryEvent::Completed), RecoveryAction::RemoveEvidence);
    assert_eq!(
        recovery.step(RecoveryEvent::Completed),
        RecoveryAction::Finish(ComputerUseRecoveryOutcome::NothingToRecover)
    );
}

#[test]
fn missing_descriptor_without_evidence_needs_no_recovery() {
    let (mut recovery, _) =
        recover_stale_admin_computer_use(STATE_DIR, DESCRIPTOR);
    recovery.step(RecoveryEvent::Completed);
    recovery.step(RecoveryEvent::DescriptorMissing);
    assert_eq!(
        recovery.step(RecoveryEvent::Evidence(false)),
        RecoveryAction::RecoverRenameWindow(false)
    );
    assert_eq!(
        recovery.step(RecoveryEvent::Completed),
        RecoveryAction::Finish(ComputerUseRecoveryOutcome::NothingToRecover)
    );
}

#[test]
fn stale_session_of_a_dead_broker_is_restored_in_order() {
    let (mut recovery, _) =
        recover_stale_admin_computer_use(STATE_DIR, DESCRIPTOR);
    recovery.step(RecoveryEvent::Completed);
    assert_eq!(
        recovery.step(RecoveryEvent::Descriptor(descriptor())),
        RecoveryAction::CheckStateFile(proof_path_for(DESCRIPTOR))
    );
    assert_eq!(
        recovery.step(RecoveryEvent::Completed),
        RecoveryAction::OpenProof(proof_path_for(DESCRIPTOR))
    );
    assert_eq!(
        recovery.step(RecoveryEvent::Proof(b"proof".to_vec())),
        RecoveryAction::LookupBroker(4242)
    );
    assert_eq!(
        recovery.step(RecoveryEvent::BrokerCreationTime(Some(7))),
        RecoveryAction::ReadUserSid
    );
    let sid = current_identity().user_sid;
    assert_eq!(
        recovery.step(RecoveryEvent::UserSid(sid.clone())),
        RecoveryAction::EnsureEvidence(sid)
    );
    assert_eq!(recovery.step(RecoveryEvent::Completed), RecoveryAction::RestoreHook);
    assert_eq!(recovery.step(RecoveryEvent::Completed), RecoveryAction::DeleteDescriptor);
    assert_eq!(recovery.step(RecoveryEvent::Completed), RecoveryAction::DeleteProof);
    assert_eq!(recovery.step(RecoveryEvent::Completed), RecoveryAction::RemoveEvidence);
    assert_eq!(recovery.step(RecoveryEvent::Completed), RecoveryAction::ReadEvidence);
    assert_eq!(
        recovery.step(RecoveryEvent::Evidence(false)),
        RecoveryAction::Finish(ComputerUseRecoveryOutcome::Recovered)
    );
}

#[test]
fn startup_recovery_leaves_a_live_broker_running() {
    let (mut recovery, _) =
        recover_stale_admin_computer_use(STATE_DIR, DESCRIPTOR);
    recovery.step(RecoveryEvent::Completed);
    recovery.step(RecoveryEvent::Descriptor(descriptor()));
    recovery.step(RecoveryEvent::Completed);
    recovery.step(RecoveryEvent::Proof(b"proof".to_vec()));
    assert_eq!(
        recovery.step(RecoveryEvent::BrokerCreationTime(Some(99))),
        RecoveryAction::VerifyHook
    );
    assert_eq!(
        recovery.step(RecoveryEvent::Completed),
        RecoveryAction::Finish(ComputerUseRecoveryOutcome::ActiveBroker)
    );
}

#[test]
fn shutdown_recovery_terminates_a_live_broker_and_fails_if_it_survives() {
    let (mut recovery, _) =
        recover_stale_admin_computer_use_for_shutdown(STATE_DIR, DESCRIPTOR);
    recovery.step(RecoveryEvent::Completed);
    recovery.step(RecoveryEvent::Descriptor(descriptor()));
    recovery.step(RecoveryEvent::Completed);
    recovery.step(RecoveryEvent::Proof(b"proof".to_vec()));
    recovery.step(RecoveryEvent::BrokerCreationTime(Some(99)));
    assert_eq!(
        recovery.step(RecoveryEvent::Completed),
        RecoveryAction::TerminateBroker { pid: 4242, creation_time: 99 }
    );
    assert_eq!(recovery.step(RecoveryEvent::Completed), RecoveryAction::LookupBroker(4242));
    assert_eq!(
        recovery.step(RecoveryEvent::BrokerCreationTime(Some(99))),
        RecoveryAction::Fail(RecoveryError::BrokerStillActive)
    );
}

#[test]
fn recovery_refuses_a_changed_proof_and_files_outside_the_state_directory() {
    let (mut recovery, _) =
        recover_stale_admin_computer_use(STATE_DIR, DESCRIPTOR);
    recovery.step(RecoveryEvent::Completed);
    recovery.step(RecoveryEvent::Descriptor(descriptor()));
    recovery.step(RecoveryEvent::Completed);
    assert_eq!(
        recovery.step(RecoveryEvent::Proof(b"other".to_vec())),
        RecoveryAction::Fail(RecoveryError::ProofOwnershipChanged)
    );

    let (_, action) = recover_stale_admin_computer_use(
        STATE_DIR,
        r"C:\Users\me\elsewhere\computer-use-admin.json",
    );
    assert_eq!(action, RecoveryAction::Fail(RecoveryError::OutsideStateDirectory));

    let (mut recovery, _) =
        recover_stale_admin_computer_use(STATE_DIR, DESCRIPTOR);
    recovery.step(RecoveryEvent::Completed);
    recovery.step(RecoveryEvent::DescriptorUnparsable);
    assert_eq!(
        recovery.step(RecoveryEvent::Evidence(false)),
        RecoveryAction::Fail(RecoveryError::UnparsableDescriptor)
    );
}

#[test]
fn recovery_reports_failed_actions_and_unexpected_events() {
    let (mut recovery, _) =
        recover_stale_admin_computer_use(STATE_DIR, DESCRIPTOR);
    assert_eq!(
        recovery.step(RecoveryEvent::Failed),
        RecoveryAction::Fail(RecoveryError::ActionFailed)
    );
    let (mut recovery, _) =
        recover_stale_admin_computer_use(STATE_DIR, DESCRIPTOR);
    assert_eq!(
        recovery.step(RecoveryEvent::Evidence(true)),
        RecoveryAction::Fail(RecoveryError::UnexpectedEvent)
    );
}

#[test]
fn descriptor_must_own_its_proof() {
    let good = descriptor();
    assert_eq!(check_descriptor_and_proof(DESCRIPTOR, &good, "proof"), Ok(()));
    assert_eq!(
        check_descriptor_and_proof(DESCRIPTOR, &good, ""),
        Err(DescriptorError::EmptyProof)
    );
    let mut elsewhere = descriptor();
    elsewhere.proof_path = r"C:\Users\me\other.proof".to_owned();
    assert_eq!(
        check_descriptor_and_proof(DESCRIPTOR, &elsewhere, "proof"),
        Err(DescriptorError::ProofPathNotOwned)
    );
    assert_eq!(
        check_descriptor_and_proof(DESCRIPTOR, &good, "another proof"),
        Err(DescriptorError::ProofHashMismatch)
    );
}

#[test]
fn recovery_evidence_lives_next_to_the_descriptor() {
    assert_eq!(
        recovery_evidence_path(DESCRIPTOR).unwrap(),
        r"C:\Users\me\AppData\Local\CodexPlus\state\administrator-mode-computer-use-recovery.required"
    );
    assert!(is_recovery_evidence(RECOVERY_EVIDENCE_TEXT.as_bytes()));
    assert!(!is_recovery_evidence(b"codex-plus-admin-computer-use-recovery-v1"));
}

#[test]
fn proof_path_replaces_the_descriptor_extension() {
    assert_eq!(
        proof_path_for(DESCRIPTOR),
        r"C:\Users\me\AppData\Local\CodexPlus\state\computer-use-admin.proof"
    );
}

#[test]
fn computer_use_hello_must_name_the_configured_helper() {
    let identity = current_identity();
    let helper = r"C:\Program Files\WindowsApps\OpenAI.Codex\app\resources\codex-computer-use.exe";
    let hello = ComputerUseHello {
        protocol: 1,
        session_id: "session".to_owned(),
        mode: "computer-use".to_owned(),
        client_pid: 31,
        proof: "proof".to_owned(),
        helper_args: vec![helper.to_owned(), "--expected".to_owned(), "value with spaces".to_owned()],
    };
    let decide = |hello: &ComputerUseHello, provided: Option<&str>| {
        authenticate_computer_use_client(
            hello,
            31,
            Ok(identity.clone()),
            "session",
            "proof",
            &identity.user_sid,
            &identity.logon_sid,
            provided,
            helper,
        )
    };
    assert_eq!(
        decide(&hello, Some(helper)),
        Some(vec!["--expected".to_owned(), "value with spaces".to_owned()])
    );
    assert_eq!(decide(&hello, None), None);
    assert_eq!(decide(&hello, Some(r"C:\elsewhere\codex-computer-use.exe")), None);
    let exec_mode = ComputerUseHello { mode: "exec".to_owned(), ..hello.clone() };
    assert_eq!(decide(&exec_mode, Some(helper)), None);
    let no_args = ComputerUseHello { helper_args: Vec::new(), ..hello.clone() };
    assert_eq!(decide(&no_args, Some(helper)), None);
    let stale = ComputerUseHello { session_id: "old".to_owned(), ..hello };
    assert_eq!(decide(&stale, Some(helper)), None);
}

#[test]
fn session_files_are_restricted_to_the_account_system_and_administrators() {
    let sid = current_identity().user_sid;
    let steps = file_protection_args(r"C:\state\descriptor.json", &sid);
    assert_eq!(steps.len(), 3);
    assert_eq!(steps[0], vec![r"C:\state\descriptor.json".to_owned(), "/reset".to_owned()]);
    assert_eq!(steps[1], vec![r"C:\state\descriptor.json".to_owned(), "/inheritance:r".to_owned()]);
    assert_eq!(
        steps[2],
        vec![
            r"C:\state\descriptor.json".to_owned(),
            "/grant:r".to_owned(),
            format!("*{sid}:(R,D)"),
            "*S-1-5-32-544:F".to_owned(),
            "*S-1-5-18:F".to_owned(),
        ]
    );
}

#[test]
fn helper_is_relayed_only_in_job_at_high_integrity_with_trusted_identity() {
    assert_eq!(helper_admission(true, Some(true), true), HelperAdmission::Admit);
    assert_eq!(helper_admission(true, Some(false), true), HelperAdmission::RejectIntegrity);
    assert_eq!(helper_admission(true, Some(false), false), HelperAdmission::RejectIntegrity);
    assert_eq!(
        helper_admission(false, Some(true), true),
        HelperAdmission::Fail(ClientFailureStage::HelperIntegrity)
    );
    assert_eq!(
        helper_admission(true, None, true),
        HelperAdmission::Fail(ClientFailureStage::HelperIntegrity)
    );
    assert_eq!(
        helper_admission(true, Some(true), false),
        HelperAdmission::Fail(ClientFailureStage::HelperIntegrity)
    );
}

#[test]
fn helper_is_admitted_by_a_supported_hash_in_any_case() {
    let bytes = b"trusted-helper";
    let hash = sha256_hex_of(bytes);
    let supported = vec!["00".repeat(32), hash.to_ascii_uppercase()];
    assert_eq!(admit_helper_image(bytes, &supported), Some(hash.clone()));
    assert_eq!(admit_helper_image(b"other", &supported), None);
    assert_eq!(admit_helper_image(bytes, &Vec::new()), None);
}

fn run_computer_use_start(fail_at: Option<ComputerUseStartStage>) -> (Vec<ComputerUseStartStage>, ComputerUseStartStep) {
    let mut progress: ComputerUseStartProgress = computer_use_start_begin();
    let mut stages = Vec::new();
    loop {
        stages.push(progress.stage);
        match computer_use_start_step(progress, fail_at != Some(progress.stage)) {
            ComputerUseStartStep::Continue(next) => progress = next,
            other => return (stages, other),
        }
    }
}

#[test]
fn computer_use_start_admits_the_helper_first_and_undoes_in_reverse() {
    let (stages, end) = run_computer_use_start(None);
    assert_eq!(stages.first(), Some(&ComputerUseStartStage::ResolveArtifacts));
    assert_eq!(stages[1], ComputerUseStartStage::AdmitHelper);
    assert_eq!(stages.last(), Some(&ComputerUseStartStage::CompleteEvidence));
    assert_eq!(stages.len(), 10);
    assert_eq!(end, ComputerUseStartStep::Ready);
    assert_eq!(run_computer_use_start(Some(ComputerUseStartStage::AdmitHelper)).1, ComputerUseStartStep::Abort(Vec::new()));
    assert_eq!(
        run_computer_use_start(Some(ComputerUseStartStage::Preflight)).1,
        ComputerUseStartStep::Abort(vec![ComputerUseUndo::RemoveRuntimeCopy])
    );
    assert_eq!(
        run_computer_use_start(Some(ComputerUseStartStage::WriteDescriptor)).1,
        ComputerUseStartStep::Abort(vec![
            ComputerUseUndo::RemoveProof,
            ComputerUseUndo::RollBackHook,
            ComputerUseUndo::RemoveEvidence,
            ComputerUseUndo::RemoveRuntimeCopy,
        ])
    );
    assert_eq!(
        run_computer_use_start(Some(ComputerUseStartStage::CompleteEvidence)).1,
        ComputerUseStartStep::Abort(vec![
            ComputerUseUndo::RemoveDescriptorAndProof,
            ComputerUseUndo::RollBackHook,
            ComputerUseUndo::RemoveEvidence,
            ComputerUseUndo::RemoveRuntimeCopy,
        ])
    );
}
