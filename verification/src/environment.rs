//! The administrator environment transaction: the managed
//! `environments.toml` that routes Codex exec through the administrator
//! shim, the journal that makes its installation recoverable, and the
//! decision how a journal is restored.
use vstd::prelude::*;
use vstd::utf8::encode_utf8;
use crate::text::chars_of;
use crate::text::string_of;
use crate::text::push_str;
use crate::text::push_chars;
use crate::text::str_eq;
use crate::text::join;
use crate::text::join_str;
use crate::text::utf8_bytes;
use crate::encoding::json_quoted;
use crate::encoding::json_string_literal;
use crate::encoding::toml_accepts;
use crate::encoding::toml_parses;
use crate::encoding::sha256_hex;
use crate::encoding::sha256_hex_of;
use crate::encoding::hex_lower;
use crate::encoding::to_hex_lower;
use crate::encoding::uuid_parsed;
use crate::encoding::uuid_parse_bytes;
use crate::encoding::fresh_uuid_bytes;
use crate::encoding::base64_standard_decoded;
use crate::encoding::base64_standard_decode;

verus! {

/// The environment journal's file name in the state directory.
pub const ENVIRONMENT_JOURNAL_FILE_NAME: &'static str = "administrator-mode-environment.v1.json";

/// The environment transaction guard's file name in the state directory.
pub const ENVIRONMENT_GUARD_FILE_NAME: &'static str = "administrator-mode-environment.guard";

/// The id of the managed environment.
pub const MANAGED_ENVIRONMENT_ID: &'static str = "codex-plus-admin";

/// What the managed environment runs: the administrator shim as an exec
/// client of one session.
#[derive(Debug, Clone, PartialEq, Eq)]
pub struct AdminEnvironmentSpec {
    pub shim_path: String,
    pub pipe_name: String,
    pub session_id: String,
    pub proof_path: String,
}

/// The environment journal (schema 2).
#[derive(Debug, Clone, PartialEq, Eq)]
pub struct EnvironmentJournal {
    pub schema_version: u32,
    pub target_path: String,
    pub original_existed: bool,
    pub original_bytes: String,
    pub original_sha256: Option<String>,
    pub managed_sha256: String,
    pub transaction_id: String,
    pub backup_path: String,
    pub managed_snapshot_path: String,
    pub managed_stage_path: String,
}

/// The files of one environment transaction.
#[derive(Debug, Clone, PartialEq, Eq)]
pub struct EnvironmentTransactionPaths {
    pub journal: String,
    pub journal_stage: String,
    pub backup: String,
    pub managed_snapshot: String,
    pub managed_stage: String,
    pub restoring: String,
    pub original_stage: String,
    pub intervening: String,
    pub original_recovery: String,
    pub conflicting_recovery: String,
    pub captured_conflicting_recovery: String,
}

/// How restoring the environment ended.
#[derive(Debug, Clone, PartialEq, Eq)]
pub enum EnvironmentRestoreOutcome {
    NoJournal,
    Restored,
    Conflict { original_path: String, managed_path: String, conflicting_paths: Vec<String> },
}

/// Why the environment transaction refuses to go on.
#[derive(Debug, Clone, Copy, PartialEq, Eq, Structural)]
pub enum EnvironmentError {
    /// The JSON encoder reported an error.
    Encoding,
    /// The generated file is not valid TOML.
    InvalidToml,
    /// The journal's schema version is not 2.
    UnsupportedJournalVersion,
    /// The journal's transaction id is no UUID.
    InvalidTransactionId,
    /// The journal's transaction id is not in canonical simple form.
    NonCanonicalTransactionId,
    /// The journal names a path the transaction does not own.
    UnexpectedJournalPath,
    /// The journal belongs to another transaction.
    TransactionMismatch,
    /// The journal lacks the original file's fingerprint.
    MissingOriginalFingerprint,
    /// The backup is gone and the target is not the original either.
    BackupMissingOrReplaced,
    /// The backup no longer has the original's fingerprint.
    BackupOwnershipChanged,
    /// The journal's inline original bytes are not base64.
    InvalidBackupBytes,
    /// The managed snapshot no longer has the managed fingerprint.
    SnapshotMismatch,
    /// The system random source failed to give a transaction id.
    RandomSourceFailed,
    /// An earlier transaction's recovery journal is still pending.
    RecoveryPending,
}

/// The environment journal's path.
pub open spec fn journal_path_spec(state_dir: Seq<char>) -> Seq<char> {
    join(state_dir, ENVIRONMENT_JOURNAL_FILE_NAME@)
}

/// The environment journal's path.
pub fn journal_path(state_dir: &str) -> (r: String)
    ensures
        r@ == journal_path_spec(state_dir@),
{
    join_str(state_dir, ENVIRONMENT_JOURNAL_FILE_NAME)
}

/// The environment target file in `CODEX_HOME`.
pub open spec fn target_path_spec(codex_home: Seq<char>) -> Seq<char> {
    join(codex_home, "environments.toml"@)
}

/// `dir` joined with `prefix`, the transaction id and `suffix`.
pub open spec fn tx_file(dir: Seq<char>, prefix: Seq<char>, id: Seq<char>, suffix: Seq<char>) -> Seq<char> {
    join(dir, prefix + id + suffix)
}

fn tx_file_exec(dir: &str, prefix: &str, id: &str, suffix: &str) -> (r: String)
    ensures
        r@ == tx_file(dir@, prefix@, id@, suffix@),
{
    let mut name: Vec<char> = Vec::new();
    push_str(&mut name, prefix);
    push_str(&mut name, id);
    push_str(&mut name, suffix);
    let n = string_of(&name);
    join_str(dir, n.as_str())
}

/// The files of the environment transaction with id `id`.
pub open spec fn transaction_paths_spec(codex_home: Seq<char>, state_dir: Seq<char>, id: Seq<char>) -> EnvironmentPathsModel {
    EnvironmentPathsModel {
        journal: journal_path_spec(state_dir),
        journal_stage: tx_file(state_dir, ".administrator-mode-environment."@, id, ".journal"@),
        backup: tx_file(codex_home, ".administrator-mode-environment."@, id, ".backup"@),
        managed_snapshot: tx_file(
            state_dir,
            "administrator-mode-environment."@,
            id,
            ".managed.toml"@,
        ),
        managed_stage: tx_file(codex_home, ".administrator-mode-environment."@, id, ".managed"@),
        restoring: tx_file(codex_home, ".administrator-mode-environment."@, id, ".restoring"@),
        original_stage: tx_file(codex_home, ".administrator-mode-environment."@, id, ".original"@),
        intervening: tx_file(codex_home, ".administrator-mode-environment."@, id, ".intervening"@),
        original_recovery: tx_file(
            state_dir,
            "administrator-mode-environment."@,
            id,
            ".original.toml"@,
        ),
        conflicting_recovery: tx_file(
            state_dir,
            "administrator-mode-environment."@,
            id,
            ".conflicting.toml"@,
        ),
        captured_conflicting_recovery: tx_file(
            state_dir,
            "administrator-mode-environment."@,
            id,
            ".captured-conflicting.toml"@,
        ),
    }
}

/// The model of [`EnvironmentTransactionPaths`].
pub struct EnvironmentPathsModel {
    pub journal: Seq<char>,
    pub journal_stage: Seq<char>,
    pub backup: Seq<char>,
    pub managed_snapshot: Seq<char>,
    pub managed_stage: Seq<char>,
    pub restoring: Seq<char>,
    pub original_stage: Seq<char>,
    pub intervening: Seq<char>,
    pub original_recovery: Seq<char>,
    pub conflicting_recovery: Seq<char>,
    pub captured_conflicting_recovery: Seq<char>,
}

impl View for EnvironmentTransactionPaths {
    type V = EnvironmentPathsModel;

    open spec fn view(&self) -> EnvironmentPathsModel {
        EnvironmentPathsModel {
            journal: self.journal@,
            journal_stage: self.journal_stage@,
            backup: self.backup@,
            managed_snapshot: self.managed_snapshot@,
            managed_stage: self.managed_stage@,
            restoring: self.restoring@,
            original_stage: self.original_stage@,
            intervening: self.intervening@,
            original_recovery: self.original_recovery@,
            conflicting_recovery: self.conflicting_recovery@,
            captured_conflicting_recovery: self.captured_conflicting_recovery@,
        }
    }
}

/// The files of the environment transaction with id `id`.
pub fn transaction_paths(codex_home: &str, state_dir: &str, transaction_id: &str) -> (r:
    EnvironmentTransactionPaths)
    ensures
        r@ == transaction_paths_spec(codex_home@, state_dir@, transaction_id@),
{
    let h = codex_home;
    let s = state_dir;
    let id = transaction_id;
    EnvironmentTransactionPaths {
        journal: journal_path(s),
        journal_stage: tx_file_exec(s, ".administrator-mode-environment.", id, ".journal"),
        backup: tx_file_exec(h, ".administrator-mode-environment.", id, ".backup"),
        managed_snapshot: tx_file_exec(s, "administrator-mode-environment.", id, ".managed.toml"),
        managed_stage: tx_file_exec(h, ".administrator-mode-environment.", id, ".managed"),
        restoring: tx_file_exec(h, ".administrator-mode-environment.", id, ".restoring"),
        original_stage: tx_file_exec(h, ".administrator-mode-environment.", id, ".original"),
        intervening: tx_file_exec(h, ".administrator-mode-environment.", id, ".intervening"),
        original_recovery: tx_file_exec(s, "administrator-mode-environment.", id, ".original.toml"),
        conflicting_recovery: tx_file_exec(
            s,
            "administrator-mode-environment.",
            id,
            ".conflicting.toml",
        ),
        captured_conflicting_recovery: tx_file_exec(
            s,
            "administrator-mode-environment.",
            id,
            ".captured-conflicting.toml",
        ),
    }
}

/// Whether a transaction id is the canonical simple form of a UUID: it
/// parses, and its sixteen bytes in lowercase hexadecimal give it back.
pub open spec fn canonical_transaction_id(id: Seq<char>) -> Result<(), EnvironmentError> {
    match uuid_parsed(id) {
        None => Err(EnvironmentError::InvalidTransactionId),
        Some(bytes) => if hex_lower(bytes) != id {
            Err(EnvironmentError::NonCanonicalTransactionId)
        } else {
            Ok(())
        },
    }
}

fn check_transaction_id(id: &str) -> (r: Result<(), EnvironmentError>)
    ensures
        r == canonical_transaction_id(id@),
{
    match uuid_parse_bytes(id) {
        None => Err(EnvironmentError::InvalidTransactionId),
        Some(bytes) => {
            let canonical = to_hex_lower(bytes.as_slice());
            if !str_eq(canonical.as_str(), id) {
                Err(EnvironmentError::NonCanonicalTransactionId)
            } else {
                Ok(())
            }
        },
    }
}

/// The journal checks: schema 2, a canonical transaction id, and exactly
/// the target, backup and managed paths of that transaction (compared as
/// text).
pub open spec fn journal_check(codex_home: Seq<char>, state_dir: Seq<char>, journal: EnvironmentJournal) -> Result<
    (),
    EnvironmentError,
> {
    if journal.schema_version != 2 {
        Err(EnvironmentError::UnsupportedJournalVersion)
    } else {
        match canonical_transaction_id(journal.transaction_id@) {
            Err(e) => Err(e),
            Ok(_) => {
                let paths = transaction_paths_spec(codex_home, state_dir, journal.transaction_id@);
                if journal.target_path@ != target_path_spec(codex_home) || journal.backup_path@
                    != paths.backup || journal.managed_stage_path@ != paths.managed_stage
                    || journal.managed_snapshot_path@ != paths.managed_snapshot {
                    Err(EnvironmentError::UnexpectedJournalPath)
                } else {
                    Ok(())
                }
            },
        }
    }
}

/// Validates a journal and gives the transaction's files.
pub fn validate_journal(codex_home: &str, state_dir: &str, journal: &EnvironmentJournal) -> (r:
    Result<EnvironmentTransactionPaths, EnvironmentError>)
    ensures
        r matches Err(e) ==> journal_check(codex_home@, state_dir@, *journal) == Err::<
            (),
            EnvironmentError,
        >(e),
        r matches Ok(p) ==> journal_check(codex_home@, state_dir@, *journal) is Ok && p@
            == transaction_paths_spec(codex_home@, state_dir@, journal.transaction_id@),
{
    if journal.schema_version != 2 {
        return Err(EnvironmentError::UnsupportedJournalVersion);
    }
    check_transaction_id(journal.transaction_id.as_str())?;
    let paths = transaction_paths(codex_home, state_dir, journal.transaction_id.as_str());
    let target = join_str(codex_home, "environments.toml");
    if !str_eq(journal.target_path.as_str(), target.as_str()) || !str_eq(
        journal.backup_path.as_str(),
        paths.backup.as_str(),
    ) || !str_eq(journal.managed_stage_path.as_str(), paths.managed_stage.as_str()) || !str_eq(
        journal.managed_snapshot_path.as_str(),
        paths.managed_snapshot.as_str(),
    ) {
        return Err(EnvironmentError::UnexpectedJournalPath);
    }
    Ok(paths)
}

/// A TOML basic string holding `value` (written as a JSON string literal,
/// which TOML reads the same).
pub fn toml_basic_string(value: &str) -> (r: Result<String, EnvironmentError>)
    ensures
        r matches Ok(s) ==> json_quoted(value@) == Some(s@),
        r is Err ==> json_quoted(value@) is None && r == Err::<String, EnvironmentError>(
            EnvironmentError::Encoding,
        ),
        r is Ok,
{
    match json_string_literal(value) {
        Some(s) => Ok(s),
        None => Err(EnvironmentError::Encoding),
    }
}

/// The managed `environments.toml`, given the TOML strings of the shim
/// path and of the seven exec-client arguments.
pub open spec fn managed_environment_text(program: Seq<char>, args: Seq<Seq<char>>) -> Seq<char> {
    "default = \"codex-plus-admin\"\ninclude_local = false\n\n[[environments]]\nid = \"codex-plus-admin\"\nprogram = "@
        + program + "\nargs = ["@ + join_comma_space(args) + "]\n"@
}

/// Strings joined by `, `.
pub open spec fn join_comma_space(parts: Seq<Seq<char>>) -> Seq<char>
    decreases parts.len(),
{
    if parts.len() == 0 {
        Seq::empty()
    } else if parts.len() == 1 {
        parts[0]
    } else {
        join_comma_space(parts.drop_last()) + ", "@ + parts.last()
    }
}

/// The exec-client arguments of the managed environment.
pub open spec fn managed_args(spec: AdminEnvironmentSpec) -> Seq<Seq<char>> {
    seq![
        "exec-client"@,
        "--pipe"@,
        spec.pipe_name@,
        "--session"@,
        spec.session_id@,
        "--proof-file"@,
        spec.proof_path@,
    ]
}

/// The TOML strings of every argument, or `None` where one fails.
pub open spec fn quoted_args(args: Seq<Seq<char>>) -> Option<Seq<Seq<char>>>
    decreases args.len(),
{
    if args.len() == 0 {
        Some(seq![])
    } else {
        match (quoted_args(args.drop_last()), json_quoted(args.last())) {
            (Some(q), Some(t)) => Some(q.push(t)),
            _ => None,
        }
    }
}

/// The bytes of the managed environment file, or why it cannot be made.
pub open spec fn managed_environment_spec(spec: AdminEnvironmentSpec) -> Result<Seq<u8>, EnvironmentError> {
    match (json_quoted(spec.shim_path@), quoted_args(managed_args(spec))) {
        (Some(program), Some(args)) => {
            let text = managed_environment_text(program, args);
            if !toml_accepts(text) {
                Err(EnvironmentError::InvalidToml)
            } else {
                Ok(encode_utf8(text))
            }
        },
        _ => Err(EnvironmentError::Encoding),
    }
}

/// Builds the managed `environments.toml` and checks that it is TOML.
pub fn managed_environment_bytes(spec: &AdminEnvironmentSpec) -> (r: Result<Vec<u8>, EnvironmentError>)
    ensures
        r matches Ok(b) ==> managed_environment_spec(*spec) == Ok::<Seq<u8>, EnvironmentError>(
            b@,
        ),
        r matches Err(e) ==> managed_environment_spec(*spec) == Err::<Seq<u8>, EnvironmentError>(
            e,
        ),
        r is Err ==> r == Err::<Vec<u8>, EnvironmentError>(EnvironmentError::InvalidToml),
{
    let program = toml_basic_string(spec.shim_path.as_str())?;
    let raw: [&str; 7] = [
        "exec-client",
        "--pipe",
        spec.pipe_name.as_str(),
        "--session",
        spec.session_id.as_str(),
        "--proof-file",
        spec.proof_path.as_str(),
    ];
    let ghost args = managed_args(*spec);
    assert(forall|k: int| 0 <= k < 7 ==> (#[trigger] raw@[k])@ == args[k]);
    let mut quoted: Vec<Vec<char>> = Vec::new();
    let mut i: usize = 0;
    while i < 7
        invariant
            i <= 7,
            raw@.len() == 7,
            args == managed_args(*spec),
            args.len() == 7,
            forall|k: int| 0 <= k < 7 ==> (#[trigger] raw@[k])@ == args[k],
            quoted_args(args.take(i as int)) matches Some(q) && q.len() == i && forall|k: int|
                0 <= k < i ==> #[trigger] quoted@[k]@ == q[k],
            quoted@.len() == i,
        decreases 7 - i,
    {
        assert(args.take(i + 1).drop_last() =~= args.take(i as int));
        match json_string_literal(raw[i]) {
            Some(t) => {
                quoted.push(chars_of(t.as_str()));
            },
            None => {
                proof {
                    assert(quoted_args(args.take(i + 1)) is None);
                    lemma_quoted_args_none(args, i + 1);
                }
                return Err(EnvironmentError::Encoding);
            },
        }
        i += 1;
    }
    assert(args.take(7) =~= args);
    let ghost q = quoted_args(args)->0;
    let mut v: Vec<char> = Vec::new();
    push_str(
        &mut v,
        "default = \"codex-plus-admin\"\ninclude_local = false\n\n[[environments]]\nid = \"codex-plus-admin\"\nprogram = ",
    );
    push_str(&mut v, program.as_str());
    push_str(&mut v, "\nargs = [");
    let ghost head = v@;
    let mut k: usize = 0;
    while k < 7
        invariant
            k <= 7,
            quoted@.len() == 7,
            q.len() == 7,
            forall|j: int| 0 <= j < 7 ==> #[trigger] quoted@[j]@ == q[j],
            v@ == head + join_comma_space(q.take(k as int)),
        decreases 7 - k,
    {
        if k > 0 {
            push_str(&mut v, ", ");
        }
        push_chars(&mut v, &quoted[k]);
        assert(q.take(k + 1).drop_last() =~= q.take(k as int));
        k += 1;
    }
    assert(q.take(7) =~= q);
    push_str(&mut v, "]\n");
    let text = string_of(&v);
    if !toml_parses(text.as_str()) {
        return Err(EnvironmentError::InvalidToml);
    }
    Ok(utf8_bytes(&text))
}

proof fn lemma_quoted_args_none(args: Seq<Seq<char>>, k: int)
    requires
        0 <= k <= args.len(),
        quoted_args(args.take(k)) is None,
    ensures
        quoted_args(args) is None,
    decreases args.len() - k,
{
    if k < args.len() {
        assert(args.take(k + 1).drop_last() =~= args.take(k));
        lemma_quoted_args_none(args, k + 1);
    } else {
        assert(args.take(k) =~= args);
    }
}

/// What restoring an environment journal does, once its files are read.
#[derive(Debug, Clone, PartialEq, Eq)]
pub enum EnvironmentRestorePlan {
    /// The original is already back without its backup: drop the journal
    /// and the snapshot, then clean up.
    DropJournal,
    /// The target is gone and the backup holds the original: move the
    /// backup back, then drop the journal.
    MoveBackup,
    /// The target already holds the original (or is rightly absent): drop
    /// journal, backup and snapshot.
    AlreadyRestored,
    /// The target still holds the managed file: put the original back.
    RestoreOwned { original_existed: bool, original_bytes: Vec<u8> },
    /// The target was edited since: keep every version for the user.
    PreserveConflict { original_bytes: Vec<u8>, current: Option<Vec<u8>> },
}

/// The model of a restore plan.
pub enum RestorePlanModel {
    DropJournal,
    MoveBackup,
    AlreadyRestored,
    RestoreOwned { original_existed: bool, original_bytes: Seq<u8> },
    PreserveConflict { original_bytes: Seq<u8>, current: Option<Seq<u8>> },
}

/// The model of a restore plan.
pub open spec fn plan_model(p: EnvironmentRestorePlan) -> RestorePlanModel {
    match p {
        EnvironmentRestorePlan::DropJournal => RestorePlanModel::DropJournal,
        EnvironmentRestorePlan::MoveBackup => RestorePlanModel::MoveBackup,
        EnvironmentRestorePlan::AlreadyRestored => RestorePlanModel::AlreadyRestored,
        EnvironmentRestorePlan::RestoreOwned { original_existed, original_bytes } => {
            RestorePlanModel::RestoreOwned { original_existed, original_bytes: original_bytes@ }
        },
        EnvironmentRestorePlan::PreserveConflict { original_bytes, current } => {
            RestorePlanModel::PreserveConflict {
                original_bytes: original_bytes@,
                current: match current {
                    Some(c) => Some(c@),
                    None => None,
                },
            }
        },
    }
}

/// The view of optional bytes.
pub open spec fn opt_bytes(o: Option<&[u8]>) -> Option<Seq<u8>> {
    match o {
        Some(b) => Some(b@),
        None => None,
    }
}

/// The view of an optional `String`.
pub open spec fn opt_text(o: Option<String>) -> Option<Seq<char>> {
    match o {
        Some(s) => Some(s@),
        None => None,
    }
}

/// The original file as the journal and backup state it: from the backup
/// (which must carry the original fingerprint), else from the journal's
/// inline copy.
pub open spec fn original_state_spec(journal: EnvironmentJournal, backup: Option<Seq<u8>>) -> Result<
    (bool, Seq<u8>),
    EnvironmentError,
> {
    match backup {
        Some(b) => match opt_text(journal.original_sha256) {
            None => Err(EnvironmentError::MissingOriginalFingerprint),
            Some(h) => if sha256_hex(b) != h {
                Err(EnvironmentError::BackupOwnershipChanged)
            } else {
                Ok((true, b))
            },
        },
        None => match base64_standard_decoded(journal.original_bytes@) {
            None => Err(EnvironmentError::InvalidBackupBytes),
            Some(bytes) => Ok((journal.original_existed, bytes)),
        },
    }
}

/// How a journal is restored, given the owning transaction's fingerprint
/// and id (when restoring one's own transaction), the backup and the
/// current target.
pub open spec fn restore_plan_spec(
    journal: EnvironmentJournal,
    expected: Option<(Seq<char>, Seq<char>)>,
    backup: Option<Seq<u8>>,
    current: Option<Seq<u8>>,
) -> Result<RestorePlanModel, EnvironmentError> {
    if expected matches Some((sha, id)) && (sha != journal.managed_sha256@ || id
        != journal.transaction_id@) {
        Err(EnvironmentError::TransactionMismatch)
    } else if journal.original_existed && backup is None {
        match opt_text(journal.original_sha256) {
            None => Err(EnvironmentError::MissingOriginalFingerprint),
            Some(h) => if current matches Some(c) && sha256_hex(c) == h {
                Ok(RestorePlanModel::DropJournal)
            } else {
                Err(EnvironmentError::BackupMissingOrReplaced)
            },
        }
    } else {
        match original_state_spec(journal, backup) {
            Err(e) => Err(e),
            Ok((original_existed, original_bytes)) => if original_existed && current is None
                && backup is Some {
                Ok(RestorePlanModel::MoveBackup)
            } else if (original_existed && current == Some(original_bytes)) || (!original_existed
                && current is None) {
                Ok(RestorePlanModel::AlreadyRestored)
            } else if current matches Some(c) && sha256_hex(c) == journal.managed_sha256@ {
                Ok(RestorePlanModel::RestoreOwned { original_existed, original_bytes })
            } else {
                Ok(RestorePlanModel::PreserveConflict { original_bytes, current })
            },
        }
    }
}

fn copy_bytes(b: &[u8]) -> (r: Vec<u8>)
    ensures
        r@ == b@,
{
    let mut r: Vec<u8> = Vec::new();
    let mut i: usize = 0;
    while i < b.len()
        invariant
            i <= b.len(),
            r@ == b@.take(i as int),
        decreases b.len() - i,
    {
        r.push(b[i]);
        i += 1;
        assert(r@ =~= b@.take(i as int));
    }
    assert(b@.take(b.len() as int) =~= b@);
    r
}

fn bytes_eq(a: &[u8], b: &[u8]) -> (r: bool)
    ensures
        r == (a@ == b@),
{
    if a.len() != b.len() {
        return false;
    }
    let mut i: usize = 0;
    while i < a.len()
        invariant
            i <= a.len(),
            a@.len() == b@.len(),
            forall|j: int| 0 <= j < i ==> a@[j] == b@[j],
        decreases a.len() - i,
    {
        if a[i] != b[i] {
            return false;
        }
        i += 1;
    }
    assert(a@ =~= b@);
    true
}

fn opt_str_eq(o: &Option<String>, s: &str) -> (r: bool)
    ensures
        r == (opt_text(*o) == Some(s@)),
{
    match o {
        Some(t) => str_eq(t.as_str(), s),
        None => false,
    }
}

/// Decides how a journal is restored (see [`restore_plan_spec`]).
pub fn plan_environment_restore(
    journal: &EnvironmentJournal,
    expected: Option<(&str, &str)>,
    backup: Option<&[u8]>,
    current: Option<&[u8]>,
) -> (r: Result<EnvironmentRestorePlan, EnvironmentError>)
    ensures
        r matches Ok(p) ==> restore_plan_spec(
            *journal,
            match expected {
                Some((a, b)) => Some((a@, b@)),
                None => None,
            },
            opt_bytes(backup),
            opt_bytes(current),
        ) == Ok::<RestorePlanModel, EnvironmentError>(plan_model(p)),
        r matches Err(e) ==> restore_plan_spec(
            *journal,
            match expected {
                Some((a, b)) => Some((a@, b@)),
                None => None,
            },
            opt_bytes(backup),
            opt_bytes(current),
        ) == Err::<RestorePlanModel, EnvironmentError>(e),
{
    if let Some((sha, id)) = expected {
        if !str_eq(sha, journal.managed_sha256.as_str()) || !str_eq(id, journal.transaction_id.as_str()) {
            return Err(EnvironmentError::TransactionMismatch);
        }
    }
    if journal.original_existed && backup.is_none() {
        let h = match &journal.original_sha256 {
            None => {
                return Err(EnvironmentError::MissingOriginalFingerprint);
            },
            Some(h) => h,
        };
        return match current {
            Some(c) => {
                let actual = sha256_hex_of(c);
                if str_eq(actual.as_str(), h.as_str()) {
                    Ok(EnvironmentRestorePlan::DropJournal)
                } else {
                    Err(EnvironmentError::BackupMissingOrReplaced)
                }
            },
            None => Err(EnvironmentError::BackupMissingOrReplaced),
        };
    }
    let (original_existed, original_bytes) = match backup {
        Some(b) => {
            let h = match &journal.original_sha256 {
                None => {
                    return Err(EnvironmentError::MissingOriginalFingerprint);
                },
                Some(h) => h,
            };
            let actual = sha256_hex_of(b);
            if !str_eq(actual.as_str(), h.as_str()) {
                return Err(EnvironmentError::BackupOwnershipChanged);
            }
            (true, copy_bytes(b))
        },
        None => match base64_standard_decode(journal.original_bytes.as_str()) {
            None => {
                return Err(EnvironmentError::InvalidBackupBytes);
            },
            Some(bytes) => (journal.original_existed, bytes),
        },
    };
    if original_existed && current.is_none() && backup.is_some() {
        return Ok(EnvironmentRestorePlan::MoveBackup);
    }
    let already = match current {
        Some(c) => original_existed && bytes_eq(c, original_bytes.as_slice()),
        None => !original_existed,
    };
    if already {
        return Ok(EnvironmentRestorePlan::AlreadyRestored);
    }
    match current {
        Some(c) => {
            let actual = sha256_hex_of(c);
            if str_eq(actual.as_str(), journal.managed_sha256.as_str()) {
                Ok(EnvironmentRestorePlan::RestoreOwned { original_existed, original_bytes })
            } else {
                Ok(
                    EnvironmentRestorePlan::PreserveConflict {
                        original_bytes,
                        current: Some(copy_bytes(c)),
                    },
                )
            }
        },
        None => Ok(EnvironmentRestorePlan::PreserveConflict { original_bytes, current: None }),
    }
}

/// Whether a file still holds exactly the managed environment the journal
/// records (by fingerprint).
pub fn holds_managed(bytes: &[u8], journal: &EnvironmentJournal) -> (r: bool)
    ensures
        r == (sha256_hex(bytes@) == journal.managed_sha256@),
{
    let actual = sha256_hex_of(bytes);
    str_eq(actual.as_str(), journal.managed_sha256.as_str())
}

/// The outcome that preserves a conflict: the original's recovery copy, the
/// managed snapshot, and the recovery copies of what conflicted (the current
/// target, then a captured edit that differs from the managed file).
pub fn conflict_outcome(
    paths: &EnvironmentTransactionPaths,
    current_present: bool,
    captured_conflict: bool,
) -> (r: EnvironmentRestoreOutcome)
    ensures
        r matches EnvironmentRestoreOutcome::Conflict { original_path, managed_path, conflicting_paths } && original_path@
            == paths.original_recovery@ && managed_path@ == paths.managed_snapshot@
            && crate::text::str_views(conflicting_paths@) == (if current_present {
            seq![paths.conflicting_recovery@]
        } else {
            seq![]
        }) + (if captured_conflict {
            seq![paths.captured_conflicting_recovery@]
        } else {
            seq![]
        }),
{
    let mut conflicting: Vec<String> = Vec::new();
    let ghost empty = crate::text::str_views(conflicting@);
    assert(empty =~= Seq::<Seq<char>>::empty());
    if current_present {
        let ghost before = conflicting@;
        let p = paths.conflicting_recovery.clone();
        conflicting.push(p);
        proof {
            crate::text::lemma_str_views_push(before, p);
        }
    }
    if captured_conflict {
        let ghost before = conflicting@;
        let p = paths.captured_conflicting_recovery.clone();
        conflicting.push(p);
        proof {
            crate::text::lemma_str_views_push(before, p);
        }
    }
    assert(crate::text::str_views(conflicting@) =~= (if current_present {
        seq![paths.conflicting_recovery@]
    } else {
        seq![]
    }) + (if captured_conflict {
        seq![paths.captured_conflicting_recovery@]
    } else {
        seq![]
    }));
    EnvironmentRestoreOutcome::Conflict {
        original_path: paths.original_recovery.clone(),
        managed_path: paths.managed_snapshot.clone(),
        conflicting_paths: conflicting,
    }
}

/// What recovering a stale environment journal does.
#[derive(Debug, Clone, PartialEq, Eq)]
pub enum EnvironmentRecovery {
    /// There is no journal: nothing to restore.
    NoJournal,
    /// Restore with these files as planned.
    Restore { paths: EnvironmentTransactionPaths, plan: EnvironmentRestorePlan },
}

/// Recovers a journal left by an earlier run: no journal means nothing to
/// do; otherwise the journal must validate, and the plan follows.
pub fn recover_stale_environment(
    codex_home: &str,
    state_dir: &str,
    journal: Option<&EnvironmentJournal>,
    backup: Option<&[u8]>,
    current: Option<&[u8]>,
) -> (r: Result<EnvironmentRecovery, EnvironmentError>)
    ensures
        journal is None ==> r == Ok::<EnvironmentRecovery, EnvironmentError>(
            EnvironmentRecovery::NoJournal,
        ),
        journal matches Some(j) ==> match r {
            Ok(EnvironmentRecovery::Restore { paths, plan }) => journal_check(
                codex_home@,
                state_dir@,
                *j,
            ) is Ok && paths@ == transaction_paths_spec(codex_home@, state_dir@, j.transaction_id@)
                && restore_plan_spec(*j, None, opt_bytes(backup), opt_bytes(current)) == Ok::<
                RestorePlanModel,
                EnvironmentError,
            >(plan_model(plan)),
            Ok(EnvironmentRecovery::NoJournal) => false,
            Err(e) => journal_check(codex_home@, state_dir@, *j) == Err::<(), EnvironmentError>(e)
                || (journal_check(codex_home@, state_dir@, *j) is Ok && restore_plan_spec(
                *j,
                None,
                opt_bytes(backup),
                opt_bytes(current),
            ) == Err::<RestorePlanModel, EnvironmentError>(e)),
        },
{
    match journal {
        None => Ok(EnvironmentRecovery::NoJournal),
        Some(j) => {
            let paths = validate_journal(codex_home, state_dir, j)?;
            let plan = plan_environment_restore(j, None, backup, current)?;
            Ok(EnvironmentRecovery::Restore { paths, plan })
        },
    }
}

/// The library's part of an installed environment transaction: where it
/// lives and which managed file and id it owns.
#[derive(Debug, Clone, PartialEq, Eq)]
pub struct AdminEnvironmentTransaction {
    pub codex_home: String,
    pub state_dir: String,
    pub managed_sha256: String,
    pub transaction_id: String,
}

/// What installing the environment writes.
#[derive(Debug, Clone, PartialEq, Eq)]
pub struct EnvironmentInstallPlan {
    pub transaction: AdminEnvironmentTransaction,
    pub journal: EnvironmentJournal,
    pub managed_bytes: Vec<u8>,
    pub paths: EnvironmentTransactionPaths,
}

/// Refuses a new transaction while an earlier one's recovery journal is
/// still pending.
pub fn require_missing_journal(journal_exists: bool) -> (r: Result<(), EnvironmentError>)
    ensures
        journal_exists ==> r == Err::<(), EnvironmentError>(EnvironmentError::RecoveryPending),
        !journal_exists ==> r is Ok,
{
    if journal_exists {
        Err(EnvironmentError::RecoveryPending)
    } else {
        Ok(())
    }
}

impl AdminEnvironmentTransaction {
    /// Prepares installing the managed environment over the current
    /// `environments.toml` (its bytes, if it exists) as the transaction with
    /// the sixteen id bytes `id`: the managed file, the transaction's files,
    /// and the schema 2 journal that records the original's fingerprint. It
    /// fails exactly where the managed file cannot be made.
    pub fn install_with_id(
        codex_home: &str,
        state_dir: &str,
        spec: &AdminEnvironmentSpec,
        original: Option<&[u8]>,
        id: &[u8],
    ) -> (r: Result<EnvironmentInstallPlan, EnvironmentError>)
        requires
            id@.len() == 16,
        ensures
            managed_environment_spec(*spec) is Err ==> r == Err::<EnvironmentInstallPlan, EnvironmentError>(
                managed_environment_spec(*spec)->Err_0,
            ),
            managed_environment_spec(*spec) is Ok ==> r is Ok,
            r matches Ok(p) ==> {
                &&& p.transaction.transaction_id@ == hex_lower(id@)
                &&& managed_environment_spec(*spec) == Ok::<Seq<u8>, EnvironmentError>(
                    p.managed_bytes@,
                )
                &&& p.transaction.codex_home@ == codex_home@
                &&& p.transaction.state_dir@ == state_dir@
                &&& p.transaction.managed_sha256@ == sha256_hex(p.managed_bytes@)
                &&& p.journal.schema_version == 2
                &&& p.journal.target_path@ == target_path_spec(codex_home@)
                &&& p.journal.original_existed == original is Some
                &&& p.journal.original_bytes@.len() == 0
                &&& opt_text(p.journal.original_sha256) == match original {
                    Some(o) => Some(sha256_hex(o@)),
                    None => None,
                }
                &&& p.journal.managed_sha256 == p.transaction.managed_sha256
                &&& p.journal.transaction_id == p.transaction.transaction_id
                &&& p.paths@ == transaction_paths_spec(
                    codex_home@,
                    state_dir@,
                    p.transaction.transaction_id@,
                )
                &&& p.journal.backup_path@ == p.paths.backup@
                &&& p.journal.managed_snapshot_path@ == p.paths.managed_snapshot@
                &&& p.journal.managed_stage_path@ == p.paths.managed_stage@
            },
    {
        let managed_bytes = managed_environment_bytes(spec)?;
        let managed_sha256 = sha256_hex_of(managed_bytes.as_slice());
        let transaction_id = to_hex_lower(id);
        let paths = transaction_paths(codex_home, state_dir, transaction_id.as_str());
        let original_sha256 = match original {
            Some(o) => Some(sha256_hex_of(o)),
            None => None,
        };
        let journal = EnvironmentJournal {
            schema_version: 2,
            target_path: join_str(codex_home, "environments.toml"),
            original_existed: original.is_some(),
            original_bytes: String::new(),
            original_sha256,
            managed_sha256: managed_sha256.clone(),
            transaction_id: transaction_id.clone(),
            backup_path: paths.backup.clone(),
            managed_snapshot_path: paths.managed_snapshot.clone(),
            managed_stage_path: paths.managed_stage.clone(),
        };
        Ok(
            EnvironmentInstallPlan {
                transaction: AdminEnvironmentTransaction {
                    codex_home: codex_home.to_owned(),
                    state_dir: state_dir.to_owned(),
                    managed_sha256,
                    transaction_id,
                },
                journal,
                managed_bytes,
                paths,
            },
        )
    }

    /// Installs the managed environment over the current `environments.toml`
    /// (its bytes, if it exists) unless an earlier transaction's recovery
    /// journal is still pending (`pending_journal`): the managed file must be
    /// made, then a fresh transaction id is drawn from the system random
    /// source and the plan is that of [`Self::install_with_id`] for it.
    pub fn install(
        codex_home: &str,
        state_dir: &str,
        spec: &AdminEnvironmentSpec,
        pending_journal: bool,
        original: Option<&[u8]>,
    ) -> (r: Result<EnvironmentInstallPlan, EnvironmentError>)
        ensures
            pending_journal ==> r == Err::<EnvironmentInstallPlan, EnvironmentError>(
                EnvironmentError::RecoveryPending,
            ),
            !pending_journal && managed_environment_spec(*spec) is Err ==> r == Err::<
                EnvironmentInstallPlan,
                EnvironmentError,
            >(managed_environment_spec(*spec)->Err_0),
            !pending_journal && managed_environment_spec(*spec) is Ok ==> (r is Ok || r == Err::<
                EnvironmentInstallPlan,
                EnvironmentError,
            >(EnvironmentError::RandomSourceFailed)),
            r matches Ok(p) ==> {
                &&& !pending_journal
                &&& managed_environment_spec(*spec) == Ok::<Seq<u8>, EnvironmentError>(
                    p.managed_bytes@,
                )
                &&& exists|id: Seq<u8>|
                    id.len() == 16 && p.transaction.transaction_id@ == #[trigger] hex_lower(id)
                &&& p.transaction.codex_home@ == codex_home@
                &&& p.transaction.state_dir@ == state_dir@
                &&& p.transaction.managed_sha256@ == sha256_hex(p.managed_bytes@)
                &&& p.journal.schema_version == 2
                &&& p.journal.target_path@ == target_path_spec(codex_home@)
                &&& p.journal.original_existed == original is Some
                &&& p.journal.original_bytes@.len() == 0
                &&& opt_text(p.journal.original_sha256) == match original {
                    Some(o) => Some(sha256_hex(o@)),
                    None => None,
                }
                &&& p.journal.managed_sha256 == p.transaction.managed_sha256
                &&& p.journal.transaction_id == p.transaction.transaction_id
                &&& p.paths@ == transaction_paths_spec(
                    codex_home@,
                    state_dir@,
                    p.transaction.transaction_id@,
                )
                &&& p.journal.backup_path@ == p.paths.backup@
                &&& p.journal.managed_snapshot_path@ == p.paths.managed_snapshot@
                &&& p.journal.managed_stage_path@ == p.paths.managed_stage@
            },
    {
        require_missing_journal(pending_journal)?;
        managed_environment_bytes(spec)?;
        match fresh_uuid_bytes() {
            None => Err(EnvironmentError::RandomSourceFailed),
            Some(id) => Self::install_with_id(codex_home, state_dir, spec, original, id.as_slice()),
        }
    }

    /// Plans restoring this transaction from its journal: the journal must
    /// validate and belong to this transaction (same managed fingerprint and
    /// id).
    pub fn restore(&self, journal: &EnvironmentJournal, backup: Option<&[u8]>, current: Option<&[u8]>) -> (r:
        Result<(EnvironmentTransactionPaths, EnvironmentRestorePlan), EnvironmentError>)
        ensures
            r matches Ok((paths, plan)) ==> journal_check(
                self.codex_home@,
                self.state_dir@,
                *journal,
            ) is Ok && paths@ == transaction_paths_spec(
                self.codex_home@,
                self.state_dir@,
                journal.transaction_id@,
            ) && restore_plan_spec(
                *journal,
                Some((self.managed_sha256@, self.transaction_id@)),
                opt_bytes(backup),
                opt_bytes(current),
            ) == Ok::<RestorePlanModel, EnvironmentError>(plan_model(plan)),
            r matches Err(e) ==> journal_check(self.codex_home@, self.state_dir@, *journal) == Err::<
                (),
                EnvironmentError,
            >(e) || (journal_check(self.codex_home@, self.state_dir@, *journal) is Ok
                && restore_plan_spec(
                *journal,
                Some((self.managed_sha256@, self.transaction_id@)),
                opt_bytes(backup),
                opt_bytes(current),
            ) == Err::<RestorePlanModel, EnvironmentError>(e)),
    {
        let paths = validate_journal(self.codex_home.as_str(), self.state_dir.as_str(), journal)?;
        let plan = plan_environment_restore(
            journal,
            Some((self.managed_sha256.as_str(), self.transaction_id.as_str())),
            backup,
            current,
        )?;
        Ok((paths, plan))
    }
}

/// Law: a journal written by `install` passes the journal checks whenever
/// its transaction id is read back as the same UUID, and restoring it with
/// the managed file still in place puts the user's original back: the
/// backup's bytes where a file existed (nothing to do if they equal the
/// managed file), or no file where none existed.
pub proof fn lemma_installed_journal_restores_owned(
    codex_home: Seq<char>,
    state_dir: Seq<char>,
    journal: EnvironmentJournal,
    managed: Seq<u8>,
    backup: Option<Seq<u8>>,
    original_bytes: Seq<u8>,
)
    requires
        journal.schema_version == 2,
        canonical_transaction_id(journal.transaction_id@) is Ok,
        journal.target_path@ == target_path_spec(codex_home),
        journal.backup_path@ == transaction_paths_spec(codex_home, state_dir, journal.transaction_id@).backup,
        journal.managed_stage_path@ == transaction_paths_spec(
            codex_home,
            state_dir,
            journal.transaction_id@,
        ).managed_stage,
        journal.managed_snapshot_path@ == transaction_paths_spec(
            codex_home,
            state_dir,
            journal.transaction_id@,
        ).managed_snapshot,
        journal.original_existed ==> backup == Some(original_bytes) && opt_text(journal.original_sha256)
            == Some(sha256_hex(original_bytes)),
        !journal.original_existed ==> backup is None && base64_standard_decoded(journal.original_bytes@)
            == Some(original_bytes),
        journal.managed_sha256@ == sha256_hex(managed),
    ensures
        journal_check(codex_home, state_dir, journal) is Ok,
        restore_plan_spec(
            journal,
            Some((journal.managed_sha256@, journal.transaction_id@)),
            backup,
            Some(managed),
        ) == Ok::<RestorePlanModel, EnvironmentError>(
            if journal.original_existed && managed == original_bytes {
                RestorePlanModel::AlreadyRestored
            } else {
                RestorePlanModel::RestoreOwned {
                    original_existed: journal.original_existed,
                    original_bytes,
                }
            },
        ),
{
}

/// Law: a restore, once carried out, is finished. When the plan was to put
/// the owned original back, planning again with the target holding that
/// original (or absent, where there was none) finds nothing left to do: it
/// is already restored while the backup is still there, and, for a journal
/// that recorded an original file, only the journal has to go once the
/// backup is gone too.
pub proof fn lemma_restore_is_idempotent(
    journal: EnvironmentJournal,
    expected: Option<(Seq<char>, Seq<char>)>,
    backup: Option<Seq<u8>>,
    current: Option<Seq<u8>>,
    original_existed: bool,
    original_bytes: Seq<u8>,
)
    requires
        restore_plan_spec(journal, expected, backup, current) == Ok::<RestorePlanModel, EnvironmentError>(
            RestorePlanModel::RestoreOwned { original_existed, original_bytes },
        ),
    ensures
        restore_plan_spec(
            journal,
            expected,
            backup,
            if original_existed { Some(original_bytes) } else { None },
        ) == Ok::<RestorePlanModel, EnvironmentError>(RestorePlanModel::AlreadyRestored),
        journal.original_existed ==> restore_plan_spec(journal, expected, None, Some(original_bytes))
            == Ok::<RestorePlanModel, EnvironmentError>(RestorePlanModel::DropJournal),
        !original_existed ==> restore_plan_spec(journal, expected, None, None) == Ok::<
            RestorePlanModel,
            EnvironmentError,
        >(RestorePlanModel::AlreadyRestored),
{
}

} // verus!
