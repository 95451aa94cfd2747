use codex_plus_core::encoding::sha256_hex_of;
use codex_plus_core::environment::{
    conflict_outcome, managed_environment_bytes, plan_environment_restore,
    recover_stale_environment, toml_basic_string, transaction_paths, validate_journal,
    AdminEnvironmentSpec, AdminEnvironmentTransaction, EnvironmentError, EnvironmentJournal,
    EnvironmentRecovery, EnvironmentRestoreOutcome, EnvironmentRestorePlan,
};

const CODEX_HOME: &str = r"C:\Users\me\.codex";
const STATE_DIR: &str = r"C:\Users\me\AppData\Local\CodexPlus\state";

fn spec() -> AdminEnvironmentSpec {
    AdminEnvironmentSpec {
        shim_path: r"C:\Program Files\Codex++\codex-plus-admin-shim.exe".to_owned(),
        pipe_name: r"\\.\pipe\codex-plus-admin-session-exec".to_owned(),
        session_id: "session-123".to_owned(),
        proof_path: r"C:\state\exec.proof".to_owned(),
    }
}

const MANAGED_TEXT: &str = "default = \"codex-plus-admin\"\ninclude_local = false\n\n[[environments]]\nid = \"codex-plus-admin\"\nprogram = \"C:\\\\Program Files\\\\Codex++\\\\codex-plus-admin-shim.exe\"\nargs = [\"exec-client\", \"--pipe\", \"\\\\\\\\.\\\\pipe\\\\codex-plus-admin-session-exec\", \"--session\", \"session-123\", \"--proof-file\", \"C:\\\\state\\\\exec.proof\"]\n";

#[test]
fn managed_environment_runs_the_exec_client_of_this_session() {
    let bytes = managed_environment_bytes(&spec()).expect("managed environment");
    assert_eq!(String::from_utf8(bytes).unwrap(), MANAGED_TEXT);
    let parsed: toml::Value = toml::from_str(MANAGED_TEXT).expect("valid TOML");
    assert_eq!(parsed["environments"][0]["args"][2].as_str(), Some(r"\\.\pipe\codex-plus-admin-session-exec"));
}

#[test]
fn toml_strings_escape_quotes_and_backslashes() {
    assert_eq!(toml_basic_string(r#"a"b\c"#).unwrap(), r#""a\"b\\c""#);
    assert_eq!(toml_basic_string("\u{1}\t\u{1f}é").unwrap(), "\"\\u0001\\t\\u001fé\"");
}

#[test]
fn install_then_restore_removes_only_the_managed_file() {
    let plan = AdminEnvironmentTransaction::install(CODEX_HOME, STATE_DIR, &spec(), false, None).expect("install");
    assert_eq!(plan.managed_bytes, MANAGED_TEXT.as_bytes());
    assert_eq!(plan.journal.target_path, format!(r"{CODEX_HOME}\environments.toml"));
    assert!(!plan.journal.original_existed);
    assert_eq!(plan.transaction.transaction_id.len(), 32);
    assert_eq!(plan.transaction.managed_sha256, sha256_hex_of(MANAGED_TEXT.as_bytes()));

    let (paths, restore) = plan
        .transaction
        .restore(&plan.journal, None, Some(&plan.managed_bytes))
        .expect("restore plan");
    assert_eq!(paths, plan.paths);
    assert_eq!(
        restore,
        EnvironmentRestorePlan::RestoreOwned { original_existed: false, original_bytes: Vec::new() }
    );
}

#[test]
fn install_over_an_original_file_restores_it_from_the_backup() {
    let original = b"default = \"mine\"\n".to_vec();
    let plan = AdminEnvironmentTransaction::install(CODEX_HOME, STATE_DIR, &spec(), false, Some(&original))
        .expect("install");
    assert!(plan.journal.original_existed);
    assert_eq!(plan.journal.original_sha256, Some(sha256_hex_of(&original)));
    assert_eq!(
        plan.journal.backup_path,
        format!(
            r"{CODEX_HOME}\.administrator-mode-environment.{}.backup",
            plan.transaction.transaction_id
        )
    );

    let (_, restore) = plan
        .transaction
        .restore(&plan.journal, Some(&original), Some(&plan.managed_bytes))
        .expect("restore plan");
    assert_eq!(
        restore,
        EnvironmentRestorePlan::RestoreOwned { original_existed: true, original_bytes: original.clone() }
    );

    // The user's own file is back in place: nothing more to restore.
    let (_, already) = plan
        .transaction
        .restore(&plan.journal, Some(&original), Some(&original))
        .expect("restore plan");
    assert_eq!(already, EnvironmentRestorePlan::AlreadyRestored);

    // Only the backup remains: it is moved back.
    let (_, moved) =
        plan.transaction.restore(&plan.journal, Some(&original), None).expect("restore plan");
    assert_eq!(moved, EnvironmentRestorePlan::MoveBackup);
}

#[test]
fn restore_preserves_a_file_changed_since_install() {
    let plan = AdminEnvironmentTransaction::install(CODEX_HOME, STATE_DIR, &spec(), false, None).expect("install");
    let edited = b"default = \"edited\"\n".to_vec();
    let (_, restore) = plan
        .transaction
        .restore(&plan.journal, None, Some(&edited))
        .expect("restore plan");
    assert_eq!(
        restore,
        EnvironmentRestorePlan::PreserveConflict { original_bytes: Vec::new(), current: Some(edited) }
    );
}

#[test]
fn restore_refuses_another_transaction_and_a_replaced_backup() {
    let plan = AdminEnvironmentTransaction::install(CODEX_HOME, STATE_DIR, &spec(), false, Some(b"mine"))
        .expect("install");
    let other = AdminEnvironmentTransaction { managed_sha256: "0".repeat(64), ..plan.transaction.clone() };
    assert_eq!(
        other.restore(&plan.journal, Some(b"mine"), Some(&plan.managed_bytes)).unwrap_err(),
        EnvironmentError::TransactionMismatch
    );
    assert_eq!(
        plan.transaction
            .restore(&plan.journal, Some(b"someone else's"), Some(&plan.managed_bytes))
            .unwrap_err(),
        EnvironmentError::BackupOwnershipChanged
    );
    assert_eq!(
        plan.transaction.restore(&plan.journal, None, Some(&plan.managed_bytes)).unwrap_err(),
        EnvironmentError::BackupMissingOrReplaced
    );
    // The original file itself is already back: the journal just goes.
    assert_eq!(
        plan.transaction.restore(&plan.journal, None, Some(b"mine")).unwrap().1,
        EnvironmentRestorePlan::DropJournal
    );
}

#[test]
fn journal_validation_names_the_failed_check() {
    let plan = AdminEnvironmentTransaction::install(CODEX_HOME, STATE_DIR, &spec(), false, None).expect("install");
    assert_eq!(validate_journal(CODEX_HOME, STATE_DIR, &plan.journal), Ok(plan.paths.clone()));

    let old_schema = EnvironmentJournal { schema_version: 1, ..plan.journal.clone() };
    assert_eq!(
        validate_journal(CODEX_HOME, STATE_DIR, &old_schema),
        Err(EnvironmentError::UnsupportedJournalVersion)
    );
    let bad_id = EnvironmentJournal { transaction_id: "not-a-uuid".to_owned(), ..plan.journal.clone() };
    assert_eq!(
        validate_journal(CODEX_HOME, STATE_DIR, &bad_id),
        Err(EnvironmentError::InvalidTransactionId)
    );
    let upper_id = EnvironmentJournal {
        transaction_id: plan.journal.transaction_id.to_ascii_uppercase(),
        ..plan.journal.clone()
    };
    if upper_id.transaction_id != plan.journal.transaction_id {
        assert_eq!(
            validate_journal(CODEX_HOME, STATE_DIR, &upper_id),
            Err(EnvironmentError::NonCanonicalTransactionId)
        );
    }
    let moved = EnvironmentJournal { target_path: r"C:\elsewhere\environments.toml".to_owned(), ..plan.journal.clone() };
    assert_eq!(
        validate_journal(CODEX_HOME, STATE_DIR, &moved),
        Err(EnvironmentError::UnexpectedJournalPath)
    );
}

#[test]
fn stale_recovery_without_a_journal_does_nothing() {
    assert_eq!(
        recover_stale_environment(CODEX_HOME, STATE_DIR, None, None, None),
        Ok(EnvironmentRecovery::NoJournal)
    );
    let plan = AdminEnvironmentTransaction::install(CODEX_HOME, STATE_DIR, &spec(), false, None).expect("install");
    assert_eq!(
        recover_stale_environment(CODEX_HOME, STATE_DIR, Some(&plan.journal), None, None),
        Ok(EnvironmentRecovery::Restore {
            paths: plan.paths.clone(),
            plan: EnvironmentRestorePlan::AlreadyRestored,
        })
    );
}

#[test]
fn restore_plan_decodes_a_legacy_inline_original() {
    let plan = AdminEnvironmentTransaction::install(CODEX_HOME, STATE_DIR, &spec(), false, None).expect("install");
    let legacy = EnvironmentJournal { original_bytes: "bWluZQ==".to_owned(), ..plan.journal.clone() };
    assert_eq!(
        plan_environment_restore(&legacy, None, None, Some(&plan.managed_bytes)),
        Ok(EnvironmentRestorePlan::RestoreOwned { original_existed: false, original_bytes: b"mine".to_vec() })
    );
    let broken = EnvironmentJournal { original_bytes: "%%".to_owned(), ..plan.journal };
    assert_eq!(
        plan_environment_restore(&broken, None, None, Some(&plan.managed_bytes)),
        Err(EnvironmentError::InvalidBackupBytes)
    );
}

#[test]
fn conflicts_keep_every_recovered_file() {
    let paths = transaction_paths(CODEX_HOME, STATE_DIR, "0123456789abcdef0123456789abcdef");
    assert_eq!(
        paths.conflicting_recovery,
        format!(r"{STATE_DIR}\administrator-mode-environment.0123456789abcdef0123456789abcdef.conflicting.toml")
    );
    assert_eq!(
        conflict_outcome(&paths, true, false),
        EnvironmentRestoreOutcome::Conflict {
            original_path: paths.original_recovery.clone(),
            managed_path: paths.managed_snapshot.clone(),
            conflicting_paths: vec![paths.conflicting_recovery.clone()],
        }
    );
    assert_eq!(
        conflict_outcome(&paths, false, true),
        EnvironmentRestoreOutcome::Conflict {
            original_path: paths.original_recovery.clone(),
            managed_path: paths.managed_snapshot.clone(),
            conflicting_paths: vec![paths.captured_conflicting_recovery.clone()],
        }
    );
}

#[test]
fn environment_install_refuses_while_a_recovery_is_pending() {
    assert_eq!(
        AdminEnvironmentTransaction::install(CODEX_HOME, STATE_DIR, &spec(), true, None),
        Err(EnvironmentError::RecoveryPending)
    );
    assert_eq!(
        codex_plus_core::environment::require_missing_journal(true),
        Err(EnvironmentError::RecoveryPending)
    );
    assert_eq!(codex_plus_core::environment::require_missing_journal(false), Ok(()));
}

#[test]
fn environment_install_with_a_drawn_id_names_the_transaction_after_it() {
    let id: Vec<u8> = (0u8..16).collect();
    let plan = AdminEnvironmentTransaction::install_with_id(CODEX_HOME, STATE_DIR, &spec(), Some(b"mine"), &id)
        .expect("install");
    assert_eq!(plan.transaction.transaction_id, "000102030405060708090a0b0c0d0e0f");
    assert_eq!(plan.journal.transaction_id, plan.transaction.transaction_id);
    assert_eq!(plan.managed_bytes, MANAGED_TEXT.as_bytes());
    assert!(plan.journal.original_existed);
    assert_eq!(plan.journal.original_sha256, Some(sha256_hex_of(b"mine")));
}
