use codex_plus_core::encoding::sha256_hex_of;
use codex_plus_core::feature::{
    interrupted_replace_source, load_document, parse_document, plan_unified_exec_restore, read_unified_exec,
    recover_stale_unified_exec, remove_unified_exec, restore_semantically, serialize_document,
    set_unified_exec, split_bom, validate_feature_journal, with_bom, AdminUnifiedExecTransaction,
    FeatureError, FeatureJournal, InterruptedReplaceSource, OriginalFeatureState,
    UnifiedExecRestoreAction,
};

const CODEX_HOME: &str = r"C:\Users\me\.codex";
const STATE_DIR: &str = r"C:\Users\me\AppData\Local\CodexPlus\state";

fn flag_of(bytes: &[u8]) -> Option<bool> {
    let (text, _) = parse_document(bytes).expect("document");
    let doc = load_document(&text).expect("toml");
    read_unified_exec(&doc).expect("flag")
}

#[test]
fn install_enables_unified_exec_and_restore_deletes_a_created_config() {
    let plan = AdminUnifiedExecTransaction::install(CODEX_HOME, STATE_DIR, false, None).expect("install");
    let (journal, managed, paths) = plan.change.clone().expect("a change");
    assert!(plan.transaction.holds_journal);
    assert_eq!(journal.target_path, format!(r"{CODEX_HOME}\config.toml"));
    assert!(!journal.original_existed);
    assert_eq!(journal.original_feature_state, OriginalFeatureState::Missing);
    assert_eq!(journal.managed_sha256, sha256_hex_of(&managed));
    assert_eq!(flag_of(&managed), Some(true));

    let (restore_paths, action) =
        plan.transaction.restore(&journal, Some(&managed)).expect("restore").expect("a journal");
    assert_eq!(restore_paths, paths);
    assert_eq!(action, UnifiedExecRestoreAction::DeleteTarget);
}

#[test]
fn restore_after_install_writes_back_the_exact_original() {
    let original = b"\xef\xbb\xbfmodel = \"gpt\"\n\n[features]\nunified_exec = false # mine\n".to_vec();
    let plan =
        AdminUnifiedExecTransaction::install(CODEX_HOME, STATE_DIR, false, Some(&original)).expect("install");
    let (journal, managed, _) = plan.change.clone().expect("a change");
    assert_eq!(journal.original_feature_state, OriginalFeatureState::False);
    assert!(managed.starts_with(b"\xef\xbb\xbf"));
    assert_eq!(flag_of(&managed), Some(true));

    let (_, action) =
        plan.transaction.restore(&journal, Some(&managed)).expect("restore").expect("a journal");
    assert_eq!(action, UnifiedExecRestoreAction::Replace(original));
}

#[test]
fn install_over_an_enabled_flag_changes_nothing() {
    let original = b"[features]\nunified_exec = true\n".to_vec();
    let plan =
        AdminUnifiedExecTransaction::install(CODEX_HOME, STATE_DIR, false, Some(&original)).expect("install");
    assert!(plan.change.is_none());
    assert!(!plan.transaction.holds_journal);
    let journal = FeatureJournal {
        schema_version: 1,
        target_path: String::new(),
        original_existed: true,
        original_feature_state: OriginalFeatureState::Missing,
        managed_sha256: String::new(),
        transaction_id: String::new(),
        install_stage_path: String::new(),
        install_original_path: String::new(),
        restore_stage_path: String::new(),
        restore_rollback_path: String::new(),
    };
    assert_eq!(plan.transaction.restore(&journal, Some(&original)), Ok(None));
}

#[test]
fn install_refuses_configs_it_cannot_read() {
    assert_eq!(
        AdminUnifiedExecTransaction::install(CODEX_HOME, STATE_DIR, false, Some(&[0xff, 0xfe])).unwrap_err(),
        FeatureError::NotUtf8
    );
    assert_eq!(
        AdminUnifiedExecTransaction::install(CODEX_HOME, STATE_DIR, false, Some(b"features = 1\n")).unwrap_err(),
        FeatureError::FeaturesNotTable
    );
    assert_eq!(
        AdminUnifiedExecTransaction::install(CODEX_HOME, STATE_DIR, false, Some(b"[features]\nunified_exec = \"yes\"\n"))
            .unwrap_err(),
        FeatureError::FlagNotBoolean
    );
    assert_eq!(
        AdminUnifiedExecTransaction::install(CODEX_HOME, STATE_DIR, false, Some(b"[features\n")).unwrap_err(),
        FeatureError::InvalidToml
    );
}

#[test]
fn restore_after_user_edits_only_turns_the_flag_back() {
    let plan = AdminUnifiedExecTransaction::install(CODEX_HOME, STATE_DIR, false, Some(b"model = \"gpt\"\n"))
        .expect("install");
    let (journal, _, _) = plan.change.clone().expect("a change");
    let edited = b"model = \"other\"\n\n[features]\nunified_exec = true\n".to_vec();
    let (_, action) =
        plan.transaction.restore(&journal, Some(&edited)).expect("restore").expect("a journal");
    let UnifiedExecRestoreAction::Replace(bytes) = action else {
        panic!("expected a rewrite")
    };
    assert_eq!(flag_of(&bytes), None);
    assert!(String::from_utf8(bytes).unwrap().contains("model = \"other\""));

    let disabled = b"[features]\nunified_exec = false\n".to_vec();
    let (_, keep) =
        plan.transaction.restore(&journal, Some(&disabled)).expect("restore").expect("a journal");
    assert_eq!(keep, UnifiedExecRestoreAction::Keep);

    assert_eq!(
        plan.transaction.restore(&journal, None),
        Err(FeatureError::ConfigDisappeared)
    );
}

#[test]
fn semantic_restore_sets_the_flag_false_when_it_was_false() {
    let action = restore_semantically(OriginalFeatureState::False, b"[features]\nunified_exec = true\n")
        .expect("restore");
    let UnifiedExecRestoreAction::Replace(bytes) = action else {
        panic!("expected a rewrite")
    };
    assert_eq!(flag_of(&bytes), Some(false));
}

#[test]
fn stale_recovery_plans_from_the_journal_alone() {
    assert_eq!(recover_stale_unified_exec(CODEX_HOME, STATE_DIR, None, None), Ok(None));
    let plan = AdminUnifiedExecTransaction::install(CODEX_HOME, STATE_DIR, false, None).expect("install");
    let (journal, managed, paths) = plan.change.expect("a change");
    let (recovered_paths, action) = recover_stale_unified_exec(CODEX_HOME, STATE_DIR, Some(&journal), Some(&managed))
        .expect("recover")
        .expect("a journal");
    assert_eq!(recovered_paths, paths);
    let UnifiedExecRestoreAction::Replace(bytes) = action else {
        panic!("expected a semantic rewrite")
    };
    assert_eq!(flag_of(&bytes), None);
    assert_eq!(
        plan_unified_exec_restore(&journal, None, None),
        Ok(UnifiedExecRestoreAction::Keep)
    );
}

#[test]
fn journal_validation_checks_every_staged_path() {
    let plan = AdminUnifiedExecTransaction::install(CODEX_HOME, STATE_DIR, false, None).expect("install");
    let (journal, _, paths) = plan.change.expect("a change");
    assert_eq!(validate_feature_journal(CODEX_HOME, STATE_DIR, &journal), Ok(paths));
    let moved = FeatureJournal { restore_rollback_path: r"C:\elsewhere".to_owned(), ..journal.clone() };
    assert_eq!(
        validate_feature_journal(CODEX_HOME, STATE_DIR, &moved),
        Err(FeatureError::InvalidRollback)
    );
    let newer = FeatureJournal { schema_version: 2, ..journal.clone() };
    assert_eq!(
        validate_feature_journal(CODEX_HOME, STATE_DIR, &newer),
        Err(FeatureError::UnsupportedJournalVersion)
    );
    let bad_hash = FeatureJournal { managed_sha256: "ABC".to_owned(), ..journal };
    assert_eq!(
        validate_feature_journal(CODEX_HOME, STATE_DIR, &bad_hash),
        Err(FeatureError::InvalidHash)
    );
}

#[test]
fn byte_order_mark_is_kept_across_a_rewrite() {
    let (had_bom, body) = split_bom(b"\xef\xbb\xbfa = 1\n");
    assert!(had_bom);
    assert_eq!(body, b"a = 1\n");
    assert_eq!(with_bom(true, body.clone()), b"\xef\xbb\xbfa = 1\n");
    assert_eq!(split_bom(b"a = 1\n"), (false, b"a = 1\n".to_vec()));
    let doc = load_document("a = 1\n").expect("toml");
    assert_eq!(serialize_document(&doc, true), b"\xef\xbb\xbfa = 1\n");
}

#[test]
fn flag_edits_keep_the_rest_of_the_document() {
    let mut doc = load_document("model = \"gpt\" # keep\n").expect("toml");
    set_unified_exec(&mut doc, true).expect("set");
    let enabled = String::from_utf8(serialize_document(&doc, false)).expect("utf-8");
    assert!(enabled.contains("model = \"gpt\" # keep"));
    assert_eq!(read_unified_exec(&load_document(&enabled).expect("toml")), Ok(Some(true)));
    remove_unified_exec(&mut doc).expect("remove");
    let removed = String::from_utf8(serialize_document(&doc, false)).expect("utf-8");
    assert_eq!(read_unified_exec(&load_document(&removed).expect("toml")), Ok(None));
    assert!(!removed.contains("[features]"));
    let mut scalar = load_document("features = 3\n").expect("toml");
    assert_eq!(set_unified_exec(&mut scalar, true), Err(FeatureError::FeaturesNotTable));
    assert_eq!(remove_unified_exec(&mut scalar), Err(FeatureError::FeaturesNotTable));
    assert_eq!(read_unified_exec(&scalar), Err(FeatureError::FeaturesNotTable));
}

#[test]
fn blank_config_reads_as_an_empty_document() {
    assert_eq!(parse_document(b"  \r\n"), Ok((String::new(), false)));
    assert_eq!(parse_document(&[0xc3]), Err(FeatureError::NotUtf8));
    assert_eq!(load_document("a = ").err(), Some(FeatureError::InvalidToml));
    let inline = load_document("features = { unified_exec = false, other = 1 }\n").expect("toml");
    assert_eq!(read_unified_exec(&inline), Ok(Some(false)));
}

#[test]
fn interrupted_replace_restores_from_the_newest_copy() {
    assert_eq!(interrupted_replace_source(true, true, true), InterruptedReplaceSource::Nothing);
    assert_eq!(
        interrupted_replace_source(false, true, true),
        InterruptedReplaceSource::RestoreRollback
    );
    assert_eq!(
        interrupted_replace_source(false, false, true),
        InterruptedReplaceSource::InstallOriginal
    );
    assert_eq!(interrupted_replace_source(false, false, false), InterruptedReplaceSource::Nothing);
}

#[test]
fn restoring_again_after_a_restore_keeps_the_original() {
    let original = b"model = \"gpt\"\n\n[features]\nunified_exec = false\n".to_vec();
    let plan =
        AdminUnifiedExecTransaction::install(CODEX_HOME, STATE_DIR, false, Some(&original)).expect("install");
    let (journal, managed, _) = plan.change.clone().expect("a change");
    let (_, action) =
        plan.transaction.restore(&journal, Some(&managed)).expect("restore").expect("a journal");
    assert_eq!(action, UnifiedExecRestoreAction::Replace(original.clone()));
    let (_, again) =
        plan.transaction.restore(&journal, Some(&original)).expect("restore").expect("a journal");
    assert_eq!(again, UnifiedExecRestoreAction::Keep);
    assert_eq!(
        plan_unified_exec_restore(&journal, None, Some(&original)),
        Ok(UnifiedExecRestoreAction::Keep)
    );
}

#[test]
fn unified_exec_install_refuses_while_a_recovery_is_pending() {
    assert_eq!(
        AdminUnifiedExecTransaction::install(CODEX_HOME, STATE_DIR, true, None),
        Err(FeatureError::RecoveryPending)
    );
}

#[test]
fn unified_exec_install_with_a_drawn_id_names_the_transaction_after_it() {
    let id: Vec<u8> = (0u8..16).map(|b| b * 17).collect();
    let plan = AdminUnifiedExecTransaction::install_with_id(CODEX_HOME, STATE_DIR, Some(b"model = 1\n"), &id)
        .expect("install");
    let (journal, managed, paths) = plan.change.expect("a change");
    assert_eq!(journal.transaction_id, "00112233445566778899aabbccddeeff");
    assert_eq!(
        paths.install_stage,
        format!(r"{CODEX_HOME}\.administrator-mode-unified-exec.00112233445566778899aabbccddeeff.managed")
    );
    assert_eq!(flag_of(&managed), Some(true));
    assert_eq!(journal.original_feature_state, OriginalFeatureState::Missing);
}

#[test]
fn flag_edits_keep_every_other_entry() {
    let mut doc = load_document("model = \"gpt\" # keep\n\n[features]\nunified_exec = true\nother = 1 # mine\n")
        .expect("toml");
    remove_unified_exec(&mut doc).expect("remove");
    let text = String::from_utf8(serialize_document(&doc, false)).expect("utf-8");
    assert!(text.contains("model = \"gpt\" # keep"));
    assert!(text.contains("other = 1 # mine"));
    assert!(!text.contains("unified_exec"));
}
