//! The administrator Computer Use broker's rules: its session descriptor
//! and proof files, the ACL it expects on them, which client failures it
//! survives, and the recovery of a stale session as a state machine whose
//! file and process work the caller performs.
use vstd::prelude::*;
use crate::text::chars_of;
use crate::text::string_of;
use crate::text::str_eq;
use crate::text::decimal;
use crate::text::decimal_chars;
use crate::text::parent;
use crate::text::parent_chars;
use crate::text::join;
use crate::text::join_chars;
use crate::text::with_extension;
use crate::text::with_extension_chars;
use crate::text::chars_eq;
use crate::encoding::sha256_hex;
use crate::encoding::sha256_hex_of;
use crate::text::eq_ignore_case;
use crate::text::str_eq_ignore_case;
use crate::windows::WindowsIdentity;
use crate::windows::IdentityError;

verus! {

/// The file whose presence says a Computer Use cleanup is in progress.
pub const RECOVERY_EVIDENCE_FILE: &'static str = "administrator-mode-computer-use-recovery.required";

/// What the recovery evidence file holds.
pub const RECOVERY_EVIDENCE_TEXT: &'static str = "codex-plus-admin-computer-use-recovery-v1\n";

/// What starting the administrator Computer Use broker needs.
#[derive(Debug, Clone, PartialEq, Eq)]
pub struct AdminComputerUseConfig {
    pub home: String,
    pub descriptor_path: String,
    pub shim_path: String,
    pub helper_exe: String,
    pub helper_transport: String,
    pub pipe_name: String,
    pub session_id: String,
    pub session_proof: String,
    pub expected_user_sid: String,
    pub expected_logon_sid: String,
}

/// What a running broker records about itself for a later recovery.
#[derive(Debug, Clone, PartialEq, Eq)]
pub struct ComputerUseAdminDescriptor {
    pub broker_pid: u32,
    pub broker_creation_time: u64,
    pub shim_path: String,
    pub pipe_name: String,
    pub session_id: String,
    pub proof_path: String,
    pub proof_hash: String,
    pub transport_path: String,
    pub backup_path: String,
    pub original_hash: String,
    pub patched_hash: String,
}

/// What installing or removing the Computer Use hook did.
#[derive(Debug, Clone, Copy, PartialEq, Eq, Structural)]
pub enum ComputerUseHookOutcome {
    Installed,
    AlreadyInstalled,
    Removed,
    NotInstalled,
}

/// What recovering a stale Computer Use session found.
#[derive(Debug, Clone, Copy, PartialEq, Eq, Structural)]
pub enum ComputerUseRecoveryOutcome {
    NothingToRecover,
    ActiveBroker,
    Recovered,
}

/// The proof file a descriptor owns: the descriptor path with the
/// extension `proof`.
pub open spec fn owned_proof_path(descriptor_path: Seq<char>) -> Seq<char> {
    with_extension(descriptor_path, "proof"@)
}

/// The proof path a descriptor owns.
pub fn proof_path_for(descriptor_path: &str) -> (r: String)
    ensures
        r@ == owned_proof_path(descriptor_path@),
{
    string_of(&with_extension_chars(&chars_of(descriptor_path), &chars_of("proof")))
}

/// Why descriptor and proof cannot be published.
#[derive(Debug, Clone, Copy, PartialEq, Eq, Structural)]
pub enum DescriptorError {
    /// The proof is empty.
    EmptyProof,
    /// The descriptor's proof path is not the one it owns.
    ProofPathNotOwned,
    /// The descriptor's proof hash is not the proof's.
    ProofHashMismatch,
}

/// Checks a descriptor against the proof before both are written: the proof
/// is not empty, lives at the owned proof path, and has the recorded
/// SHA-256 (lowercase hexadecimal of its UTF-8 bytes).
pub fn check_descriptor_and_proof(
    descriptor_path: &str,
    descriptor: &ComputerUseAdminDescriptor,
    proof: &str,
) -> (r: Result<(), DescriptorError>)
    ensures
        proof@.len() == 0 ==> r == Err::<(), DescriptorError>(DescriptorError::EmptyProof),
        proof@.len() > 0 && descriptor.proof_path@ != owned_proof_path(descriptor_path@) ==> r
            == Err::<(), DescriptorError>(DescriptorError::ProofPathNotOwned),
        proof@.len() > 0 && descriptor.proof_path@ == owned_proof_path(descriptor_path@)
            && descriptor.proof_hash@ != sha256_hex(vstd::utf8::encode_utf8(proof@)) ==> r == Err::<
            (),
            DescriptorError,
        >(DescriptorError::ProofHashMismatch),
        r is Ok <==> (proof@.len() > 0 && descriptor.proof_path@ == owned_proof_path(
            descriptor_path@,
        ) && descriptor.proof_hash@ == sha256_hex(vstd::utf8::encode_utf8(proof@))),
{
    if proof.is_empty() {
        return Err(DescriptorError::EmptyProof);
    }
    let owned = proof_path_for(descriptor_path);
    if !str_eq(descriptor.proof_path.as_str(), owned.as_str()) {
        return Err(DescriptorError::ProofPathNotOwned);
    }
    let owned_proof = proof.to_owned();
    let bytes = crate::text::utf8_bytes(&owned_proof);
    let hash = sha256_hex_of(bytes.as_slice());
    if !str_eq(descriptor.proof_hash.as_str(), hash.as_str()) {
        return Err(DescriptorError::ProofHashMismatch);
    }
    Ok(())
}

/// Where the recovery evidence of a descriptor lives: next to it.
pub open spec fn recovery_evidence_path_spec(descriptor_path: Seq<char>) -> Option<Seq<char>> {
    match parent(descriptor_path) {
        Some(dir) => Some(join(dir, RECOVERY_EVIDENCE_FILE@)),
        None => None,
    }
}

/// The recovery evidence path of a descriptor; `None` when the descriptor
/// has no state directory.
pub fn recovery_evidence_path(descriptor_path: &str) -> (r: Option<String>)
    ensures
        opt_view(r) == recovery_evidence_path_spec(descriptor_path@),
{
    match parent_chars(&chars_of(descriptor_path)) {
        None => None,
        Some(dir) => Some(string_of(&join_chars(&dir, &chars_of(RECOVERY_EVIDENCE_FILE)))),
    }
}

/// The view of an optional `String`.
pub open spec fn opt_view(o: Option<String>) -> Option<Seq<char>> {
    match o {
        Some(s) => Some(s@),
        None => None,
    }
}

/// Whether recovery evidence holds exactly the expected bytes.
pub fn is_recovery_evidence(bytes: &[u8]) -> (r: bool)
    ensures
        r == (bytes@ == vstd::utf8::encode_utf8(RECOVERY_EVIDENCE_TEXT@)),
{
    let text = RECOVERY_EVIDENCE_TEXT.to_owned();
    let expected = crate::text::utf8_bytes(&text);
    if bytes.len() != expected.len() {
        return false;
    }
    let mut i: usize = 0;
    while i < bytes.len()
        invariant
            i <= bytes.len(),
            bytes@.len() == expected@.len(),
            expected@ == vstd::utf8::encode_utf8(RECOVERY_EVIDENCE_TEXT@),
            forall|j: int| 0 <= j < i ==> bytes@[j] == expected@[j],
        decreases bytes.len() - i,
    {
        if bytes[i] != expected[i] {
            return false;
        }
        i += 1;
    }
    assert(bytes@ =~= expected@);
    true
}

/// Whether a state file sits directly in the trusted state directory (the
/// textual part of the trust check; links and canonical paths are checked
/// on the file system).
pub open spec fn in_state_dir(state_dir: Seq<char>, path: Seq<char>) -> bool {
    parent(path) == Some(state_dir)
}

/// Whether a state file sits directly in the trusted state directory.
pub fn state_file_in_dir(state_dir: &str, path: &str) -> (r: bool)
    ensures
        r == in_state_dir(state_dir@, path@),
{
    match parent_chars(&chars_of(path)) {
        Some(p) => chars_eq(&p, &chars_of(state_dir)),
        None => false,
    }
}

/// The number of times `needle` occurs in `haystack`, overlaps included.
pub open spec fn occurrences(haystack: Seq<u8>, needle: Seq<u8>) -> nat
    decreases haystack.len(),
{
    if haystack.len() < needle.len() || needle.len() == 0 {
        0
    } else {
        occurrences(haystack.drop_last(), needle) + if haystack.skip(
            haystack.len() - needle.len(),
        ) == needle {
            1nat
        } else {
            0nat
        }
    }
}

fn suffix_matches(haystack: &[u8], end: usize, needle: &[u8]) -> (r: bool)
    requires
        needle@.len() <= end <= haystack@.len(),
    ensures
        r == (haystack@.take(end as int).skip(end - needle@.len()) == needle@),
{
    let start = end - needle.len();
    let mut k: usize = 0;
    let mut matched = true;
    while k < needle.len()
        invariant
            k <= needle@.len(),
            start + needle@.len() == end,
            end <= haystack@.len(),
            matched == (forall|j: int| 0 <= j < k ==> haystack@[start + j] == needle@[j]),
        decreases needle.len() - k,
    {
        if haystack[start + k] != needle[k] {
            matched = false;
        }
        k += 1;
    }
    proof {
        let h = haystack@.take(end as int);
        if matched {
            assert(h.skip(h.len() - needle@.len()) =~= needle@);
        } else {
            let j = choose|j: int| 0 <= j < needle@.len() && haystack@[start + j] != needle@[j];
            assert(h.skip(h.len() - needle@.len())[j] != needle@[j]);
        }
    }
    matched
}

fn count_occurrences(haystack: &[u8], needle: &[u8]) -> (r: usize)
    requires
        needle@.len() > 0,
    ensures
        r == occurrences(haystack@, needle@),
{
    let mut count: usize = 0;
    let mut end: usize = 0;
    while end < haystack.len()
        invariant
            end <= haystack@.len(),
            needle@.len() > 0,
            count == occurrences(haystack@.take(end as int), needle@),
            count <= end,
        decreases haystack.len() - end,
    {
        end += 1;
        let ghost h = haystack@.take(end as int);
        assert(h.drop_last() =~= haystack@.take(end - 1));
        if end >= needle.len() {
            let matched = suffix_matches(haystack, end, needle);
            if matched {
                count += 1;
            }
        }
    }
    assert(haystack@.take(haystack.len() as int) =~= haystack@);
    count
}

/// Whether an `icacls` listing shows exactly the protected ACL: no
/// inherited entries, three entries in all, two of them full control. The
/// listing is compared as bytes, since account names come localized.
pub open spec fn acl_listing_ok(listing: Seq<u8>) -> bool {
    &&& occurrences(listing, seq![40u8, 73u8, 41u8]) == 0
    &&& occurrences(listing, seq![58u8, 40u8]) == 3
    &&& occurrences(listing, seq![40u8, 70u8, 41u8]) == 2
}

/// Checks an `icacls` listing of a protected session file.
pub fn acl_listing_has_expected_entries(listing: &[u8]) -> (r: bool)
    ensures
        r == acl_listing_ok(listing@),
{
    let inherited: [u8; 3] = [40, 73, 41];
    let entry: [u8; 2] = [58, 40];
    let full: [u8; 3] = [40, 70, 41];
    assert(inherited@ =~= seq![40u8, 73u8, 41u8]);
    assert(entry@ =~= seq![58u8, 40u8]);
    assert(full@ =~= seq![40u8, 70u8, 41u8]);
    count_occurrences(listing, &inherited) == 0 && count_occurrences(listing, &entry) == 3
        && count_occurrences(listing, &full) == 2
}

/// Where serving one Computer Use client failed.
#[derive(Debug, Clone, Copy, PartialEq, Eq, Structural)]
pub enum ClientFailureStage {
    Accept,
    Authentication,
    HelperStart,
    HelperIntegrity,
    Relay,
}

/// Whether the broker keeps serving after a client failure.
#[derive(Debug, Clone, Copy, PartialEq, Eq, Structural)]
pub enum ClientFailurePolicy {
    Recoverable,
    Fatal,
}

/// Only a client's protocol or relay failure is survivable; failures to
/// accept or to start a trusted helper stop the broker.
pub fn client_failure_policy(stage: ClientFailureStage) -> (r: ClientFailurePolicy)
    ensures
        r == (if stage == ClientFailureStage::Authentication || stage == ClientFailureStage::Relay {
            ClientFailurePolicy::Recoverable
        } else {
            ClientFailurePolicy::Fatal
        }),
{
    match stage {
        ClientFailureStage::Authentication | ClientFailureStage::Relay => ClientFailurePolicy::Recoverable,
        ClientFailureStage::Accept | ClientFailureStage::HelperStart | ClientFailureStage::HelperIntegrity => {
            ClientFailurePolicy::Fatal
        },
    }
}

/// What the broker does with a helper it started for an authenticated
/// client, once the checks that run before relaying have answered.
#[derive(Debug, Clone, Copy, PartialEq, Eq, Structural)]
pub enum HelperAdmission {
    /// Tell the client it is accepted and relay the helper.
    Admit,
    /// Stop the helper and tell the client that its integrity was rejected;
    /// the broker goes on serving.
    RejectIntegrity,
    /// Stop the helper and fail the client at the given stage.
    Fail(ClientFailureStage),
}

/// The admission of a started helper. The checks run in order, and each
/// runs only when the ones before it passed: assigning the helper to the
/// broker's job (`job_assigned`), reading its integrity (`high_integrity`,
/// `None` when it could not be read), and its identity (`identity_trusted`).
/// A helper is relayed only when it is in the job, runs at high integrity
/// and has the expected identity.
pub fn helper_admission(job_assigned: bool, high_integrity: Option<bool>, identity_trusted: bool) -> (r:
    HelperAdmission)
    ensures
        r == HelperAdmission::Admit <==> (job_assigned && high_integrity == Some(true) && identity_trusted),
        r == HelperAdmission::RejectIntegrity <==> (job_assigned && high_integrity == Some(false)),
        r == HelperAdmission::Fail(ClientFailureStage::HelperIntegrity) <==> (!job_assigned
            || high_integrity is None || (high_integrity == Some(true) && !identity_trusted)),
        !(r matches HelperAdmission::Fail(s) && s != ClientFailureStage::HelperIntegrity),
{
    if !job_assigned {
        return HelperAdmission::Fail(ClientFailureStage::HelperIntegrity);
    }
    match high_integrity {
        None => HelperAdmission::Fail(ClientFailureStage::HelperIntegrity),
        Some(false) => HelperAdmission::RejectIntegrity,
        Some(true) => {
            if identity_trusted {
                HelperAdmission::Admit
            } else {
                HelperAdmission::Fail(ClientFailureStage::HelperIntegrity)
            }
        },
    }
}

/// The arguments of the helper's readiness run: `--parent-pid` and the
/// broker's pid.
pub fn readiness_probe_args(parent_pid: u32) -> (r: [String; 2])
    ensures
        r[0]@ == "--parent-pid"@,
        r[1]@ == decimal(parent_pid as nat),
{
    ["--parent-pid".to_owned(), string_of(&decimal_chars(parent_pid as u64))]
}

/// The `icacls.exe` argument lists that restrict a session file to its
/// account (read and delete) and give SYSTEM and the Administrators full
/// control, in the order they run: reset, drop inherited entries, grant.
pub open spec fn file_protection_args_spec(path: Seq<char>, user_sid: Seq<char>) -> Seq<Seq<Seq<char>>> {
    seq![
        seq![path, "/reset"@],
        seq![path, "/inheritance:r"@],
        seq![path, "/grant:r"@, "*"@ + user_sid + ":(R,D)"@, "*S-1-5-32-544:F"@, "*S-1-5-18:F"@],
    ]
}

/// The `icacls.exe` argument lists that protect a session file (see
/// [`file_protection_args_spec`]); listing the file afterwards must then
/// pass [`acl_listing_has_expected_entries`].
pub fn file_protection_args(path: &str, user_sid: &str) -> (r: Vec<Vec<String>>)
    ensures
        r.len() == 3,
        forall|k: int| 0 <= k < 3 ==> crate::text::str_views((#[trigger] r@[k])@) == file_protection_args_spec(path@, user_sid@)[k],
{
    let mut grant: Vec<char> = Vec::new();
    crate::text::push_str(&mut grant, "*");
    crate::text::push_str(&mut grant, user_sid);
    crate::text::push_str(&mut grant, ":(R,D)");
    let reset: Vec<String> = vec![path.to_owned(), "/reset".to_owned()];
    let inheritance: Vec<String> = vec![path.to_owned(), "/inheritance:r".to_owned()];
    let grants: Vec<String> = vec![
        path.to_owned(),
        "/grant:r".to_owned(),
        string_of(&grant),
        "*S-1-5-32-544:F".to_owned(),
        "*S-1-5-18:F".to_owned(),
    ];
    assert(crate::text::str_views(reset@) =~= file_protection_args_spec(path@, user_sid@)[0]);
    assert(crate::text::str_views(inheritance@) =~= file_protection_args_spec(path@, user_sid@)[1]);
    assert(crate::text::str_views(grants@) =~= file_protection_args_spec(path@, user_sid@)[2]);
    vec![reset, inheritance, grants]
}

/// A Computer Use client's hello, as read from its first frame.
#[derive(Debug, Clone, PartialEq, Eq)]
pub struct ComputerUseHello {
    pub protocol: u8,
    pub session_id: String,
    pub mode: String,
    pub client_pid: u32,
    pub proof: String,
    pub helper_args: Vec<String>,
}

/// Whether a Computer Use hello proves the session and comes from the
/// trusted account: protocol 1, mode `computer-use`, this session, a proof
/// with the session proof's digest, the pipe client's own process id, and a
/// client of the expected account and logon session.
pub open spec fn computer_use_hello_authentic(
    hello: ComputerUseHello,
    pipe_pid: u32,
    identity: Result<WindowsIdentity, IdentityError>,
    session_id: Seq<char>,
    proof: Seq<char>,
    expected_sid: Seq<char>,
    expected_logon_sid: Seq<char>,
) -> bool {
    &&& hello.protocol == 1
    &&& hello.mode@ == "computer-use"@
    &&& hello.session_id@ == session_id
    &&& crate::exec::proofs_match(
        vstd::utf8::encode_utf8(hello.proof@),
        vstd::utf8::encode_utf8(proof),
    )
    &&& hello.client_pid == pipe_pid
    &&& identity matches Ok(id) && crate::text::eq_ignore_case(id.user_sid@, expected_sid)
        && crate::text::eq_ignore_case(id.logon_sid@, expected_logon_sid)
}

/// The Computer Use broker's decision on a hello: the arguments to start the
/// helper with, or `None` for a rejection. An authentic hello must name the
/// helper first; `provided_helper` is that first argument as the file system
/// resolved it (`None` when it could not), and it must be the configured
/// helper's path, compared as text.
pub fn authenticate_computer_use_client(
    hello: &ComputerUseHello,
    pipe_pid: u32,
    identity: Result<WindowsIdentity, IdentityError>,
    session_id: &str,
    proof: &str,
    expected_sid: &str,
    expected_logon_sid: &str,
    provided_helper: Option<&str>,
    helper_exe: &str,
) -> (r: Option<Vec<String>>)
    ensures
        r is Some <==> (computer_use_hello_authentic(
            *hello,
            pipe_pid,
            identity,
            session_id@,
            proof@,
            expected_sid@,
            expected_logon_sid@,
        ) && hello.helper_args@.len() > 0 && (provided_helper matches Some(p) && p@
            == helper_exe@)),
        r matches Some(args) ==> crate::text::str_views(args@) == crate::text::str_views(
            hello.helper_args@,
        ).skip(1),
{
    let provided = crate::text::utf8_bytes(&hello.proof);
    let expected_proof = proof.to_owned();
    let expected = crate::text::utf8_bytes(&expected_proof);
    let proof_matches = crate::exec::constant_time_proof_eq(provided.as_slice(), expected.as_slice());
    let trusted = crate::windows::trusted_client_identity(identity, expected_sid, expected_logon_sid);
    let authentic = hello.protocol == 1 && str_eq(hello.mode.as_str(), "computer-use") && str_eq(
        hello.session_id.as_str(),
        session_id,
    ) && proof_matches && hello.client_pid == pipe_pid && trusted;
    if !authentic || hello.helper_args.len() == 0 {
        return None;
    }
    let helper_matches = match provided_helper {
        Some(p) => str_eq(p, helper_exe),
        None => false,
    };
    if !helper_matches {
        return None;
    }
    Some(crate::text::clone_strings_from(&hello.helper_args, 1))
}

/// The message the broker logs for a failed client: fixed, so that no
/// secret reaches the log.
pub fn sanitize_broker_error() -> (r: &'static str)
    ensures
        r@ == "administrator Computer Use client failed"@,
{
    "administrator Computer Use client failed"
}

/// Whether a stale-session recovery runs at startup (a live broker is left
/// alone) or at shutdown (a live broker is terminated first).
#[derive(Debug, Clone, Copy, PartialEq, Eq, Structural)]
pub enum RecoveryMode {
    Startup,
    Shutdown,
}

/// Where a recovery stands.
#[derive(Debug, Clone, Copy, PartialEq, Eq, Structural)]
pub enum RecoveryPhase {
    CheckingDescriptorFile,
    OpeningDescriptor,
    MissingEvidence,
    MissingRenameWindow,
    MissingRenameWindowWithoutEvidence,
    UnparsableEvidence,
    UnparsableRenameWindow,
    UnparsableDeletingDescriptor,
    RemovingUnpublishedProof,
    RemovingEvidence,
    CheckingProofFile,
    ReadingProof,
    FirstLookup,
    VerifyingHook,
    Terminating,
    SecondLookup,
    ReadingUserSid,
    EnsuringEvidence,
    RestoringHook,
    DeletingDescriptor,
    DeletingProof,
    RemovingEvidenceAfterCleanup,
    FinalEvidence,
    FinalRemovingEvidence,
    Done,
}

/// What the caller does next for a recovery.
#[derive(Debug, Clone, PartialEq, Eq)]
pub enum RecoveryAction {
    /// Check that the state file is no link and canonically in the state
    /// directory.
    CheckStateFile(String),
    /// Open the descriptor for deletion, read and parse it.
    OpenDescriptor,
    /// Read the recovery evidence next to the descriptor.
    ReadEvidence,
    /// Repair a crash between transport rename and descriptor publication;
    /// the flag says whether marked transports may be inspected.
    RecoverRenameWindow(bool),
    /// Delete the owned proof file if it exists.
    RemoveUnpublishedProof,
    /// Delete the recovery evidence after checking its contents.
    RemoveEvidence,
    /// Delete the opened descriptor.
    DeleteDescriptor,
    /// Open the proof file for deletion and read it.
    OpenProof(String),
    /// Look up the creation time of a process.
    LookupBroker(u32),
    /// Verify that the installed hook is the descriptor's.
    VerifyHook,
    /// Terminate the broker if it is still the process created at that time.
    TerminateBroker { pid: u32, creation_time: u64 },
    /// Read the current user's SID.
    ReadUserSid,
    /// Publish the recovery evidence, protected for this user, unless present.
    EnsureEvidence(String),
    /// Restore the hooked transport from its backup.
    RestoreHook,
    /// Delete the opened proof file.
    DeleteProof,
    /// The recovery is over.
    Finish(ComputerUseRecoveryOutcome),
    /// The recovery failed.
    Fail(RecoveryError),
}

/// What the caller reports back about the last action.
#[derive(Debug, Clone, PartialEq, Eq)]
pub enum RecoveryEvent {
    /// The action succeeded.
    Completed,
    /// The action failed; the caller keeps its error.
    Failed,
    /// There is no descriptor file.
    DescriptorMissing,
    /// The descriptor file does not parse.
    DescriptorUnparsable,
    /// The parsed descriptor.
    Descriptor(ComputerUseAdminDescriptor),
    /// Whether valid recovery evidence exists.
    Evidence(bool),
    /// The proof file's bytes.
    Proof(Vec<u8>),
    /// The broker process's creation time, if it is alive.
    BrokerCreationTime(Option<u64>),
    /// The current user's SID.
    UserSid(String),
}

/// Why a recovery failed.
#[derive(Debug, Clone, Copy, PartialEq, Eq, Structural)]
pub enum RecoveryError {
    /// An action reported failure.
    ActionFailed,
    /// A state file is not directly inside the state directory.
    OutsideStateDirectory,
    /// The descriptor does not parse and no recovery evidence vouches for it.
    UnparsableDescriptor,
    /// The descriptor's proof path is not the one it owns.
    ProofPathNotOwned,
    /// The proof no longer has the descriptor's hash.
    ProofOwnershipChanged,
    /// The broker was still alive after termination.
    BrokerStillActive,
    /// The event does not answer the last action.
    UnexpectedEvent,
}

/// A stale Computer Use session recovery in progress.
#[derive(Debug)]
pub struct ComputerUseRecovery {
    pub mode: RecoveryMode,
    pub state_dir: String,
    pub descriptor_path: String,
    pub phase: RecoveryPhase,
    pub descriptor: Option<ComputerUseAdminDescriptor>,
    /// The broker is known not to be running as the descriptor's process.
    pub broker_cleared: bool,
    /// The hooked transport has been restored.
    pub hook_restored: bool,
    /// The descriptor has been deleted after a restore.
    pub descriptor_deleted: bool,
    /// The proof has been deleted after a restore.
    pub proof_deleted: bool,
}

/// The next phase and flags of a recovery after an event (see
/// [`ComputerUseRecovery::step`]).
pub open spec fn descriptor_of(m: ComputerUseRecovery) -> ComputerUseAdminDescriptor {
    m.descriptor->0
}

/// The recovery's invariant: what has been done follows the order the
/// recovery promises.
pub open spec fn recovery_wf(m: ComputerUseRecovery) -> bool {
    &&& (m.hook_restored ==> m.broker_cleared && m.descriptor is Some)
    &&& (m.hook_restored ==> m.phase == RecoveryPhase::DeletingDescriptor || m.phase
        == RecoveryPhase::DeletingProof || m.phase == RecoveryPhase::RemovingEvidenceAfterCleanup
        || m.phase == RecoveryPhase::FinalEvidence || m.phase
        == RecoveryPhase::FinalRemovingEvidence || m.phase == RecoveryPhase::Done)
    &&& (m.descriptor_deleted ==> m.hook_restored)
    &&& (m.proof_deleted ==> m.descriptor_deleted)
    &&& (m.phase == RecoveryPhase::ReadingUserSid || m.phase == RecoveryPhase::EnsuringEvidence
        || m.phase == RecoveryPhase::RestoringHook ==> m.broker_cleared && m.descriptor is Some)
    &&& (m.phase == RecoveryPhase::DeletingDescriptor ==> m.hook_restored)
    &&& (m.phase == RecoveryPhase::DeletingProof ==> m.descriptor_deleted)
    &&& (m.phase == RecoveryPhase::RemovingEvidenceAfterCleanup || m.phase
        == RecoveryPhase::FinalEvidence || m.phase == RecoveryPhase::FinalRemovingEvidence
        ==> m.proof_deleted)
    &&& (m.phase == RecoveryPhase::CheckingProofFile || m.phase == RecoveryPhase::ReadingProof
        || m.phase == RecoveryPhase::FirstLookup || m.phase == RecoveryPhase::VerifyingHook
        || m.phase == RecoveryPhase::Terminating || m.phase == RecoveryPhase::SecondLookup
        ==> m.descriptor is Some)
    &&& (m.phase == RecoveryPhase::Terminating || m.phase == RecoveryPhase::SecondLookup
        ==> m.mode == RecoveryMode::Shutdown)
}

/// One recovery transition: the next phase and action after an event.
pub open spec fn recovery_transition(m: ComputerUseRecovery, e: RecoveryEvent) -> (
    RecoveryPhase,
    RecoveryAction,
) {
    let fail = |err: RecoveryError| (RecoveryPhase::Done, RecoveryAction::Fail(err));
    let unexpected = (RecoveryPhase::Done, RecoveryAction::Fail(RecoveryError::UnexpectedEvent));
    if m.phase == RecoveryPhase::Done {
        unexpected
    } else if e == RecoveryEvent::Failed {
        fail(RecoveryError::ActionFailed)
    } else {
        match m.phase {
            RecoveryPhase::CheckingDescriptorFile => if e == RecoveryEvent::Completed {
                (RecoveryPhase::OpeningDescriptor, RecoveryAction::OpenDescriptor)
            } else {
                unexpected
            },
            RecoveryPhase::OpeningDescriptor => match e {
                RecoveryEvent::DescriptorMissing => (
                    RecoveryPhase::MissingEvidence,
                    RecoveryAction::ReadEvidence,
                ),
                RecoveryEvent::DescriptorUnparsable => (
                    RecoveryPhase::UnparsableEvidence,
                    RecoveryAction::ReadEvidence,
                ),
                RecoveryEvent::Descriptor(d) => if !in_state_dir(m.state_dir@, d.proof_path@) {
                    fail(RecoveryError::OutsideStateDirectory)
                } else {
                    (RecoveryPhase::CheckingProofFile, RecoveryAction::CheckStateFile(d.proof_path))
                },
                _ => unexpected,
            },
            RecoveryPhase::MissingEvidence => match e {
                RecoveryEvent::Evidence(present) => (
                    if present {
                        RecoveryPhase::MissingRenameWindow
                    } else {
                        RecoveryPhase::MissingRenameWindowWithoutEvidence
                    },
                    RecoveryAction::RecoverRenameWindow(present),
                ),
                _ => unexpected,
            },
            RecoveryPhase::MissingRenameWindow => if e == RecoveryEvent::Completed {
                (RecoveryPhase::RemovingUnpublishedProof, RecoveryAction::RemoveUnpublishedProof)
            } else {
                unexpected
            },
            RecoveryPhase::MissingRenameWindowWithoutEvidence => if e == RecoveryEvent::Completed {
                (
                    RecoveryPhase::Done,
                    RecoveryAction::Finish(ComputerUseRecoveryOutcome::NothingToRecover),
                )
            } else {
                unexpected
            },
            RecoveryPhase::UnparsableEvidence => match e {
                RecoveryEvent::Evidence(present) => if present {
                    (RecoveryPhase::UnparsableRenameWindow, RecoveryAction::RecoverRenameWindow(true))
                } else {
                    fail(RecoveryError::UnparsableDescriptor)
                },
                _ => unexpected,
            },
            RecoveryPhase::UnparsableRenameWindow => if e == RecoveryEvent::Completed {
                (RecoveryPhase::UnparsableDeletingDescriptor, RecoveryAction::DeleteDescriptor)
            } else {
                unexpected
            },
            RecoveryPhase::UnparsableDeletingDescriptor => if e == RecoveryEvent::Completed {
                (RecoveryPhase::RemovingUnpublishedProof, RecoveryAction::RemoveUnpublishedProof)
            } else {
                unexpected
            },
            RecoveryPhase::RemovingUnpublishedProof => if e == RecoveryEvent::Completed {
                (RecoveryPhase::RemovingEvidence, RecoveryAction::RemoveEvidence)
            } else {
                unexpected
            },
            RecoveryPhase::RemovingEvidence => if e == RecoveryEvent::Completed {
                (
                    RecoveryPhase::Done,
                    RecoveryAction::Finish(ComputerUseRecoveryOutcome::NothingToRecover),
                )
            } else {
                unexpected
            },
            RecoveryPhase::CheckingProofFile => if e == RecoveryEvent::Completed {
                if descriptor_of(m).proof_path@ != owned_proof_path(m.descriptor_path@) {
                    fail(RecoveryError::ProofPathNotOwned)
                } else {
                    (
                        RecoveryPhase::ReadingProof,
                        RecoveryAction::OpenProof(descriptor_of(m).proof_path),
                    )
                }
            } else {
                unexpected
            },
            RecoveryPhase::ReadingProof => match e {
                RecoveryEvent::Proof(bytes) => if sha256_hex(bytes@) != descriptor_of(
                    m,
                ).proof_hash@ {
                    fail(RecoveryError::ProofOwnershipChanged)
                } else {
                    (
                        RecoveryPhase::FirstLookup,
                        RecoveryAction::LookupBroker(descriptor_of(m).broker_pid),
                    )
                },
                _ => unexpected,
            },
            RecoveryPhase::FirstLookup => match e {
                RecoveryEvent::BrokerCreationTime(t) => if t == Some(
                    descriptor_of(m).broker_creation_time,
                ) {
                    (RecoveryPhase::VerifyingHook, RecoveryAction::VerifyHook)
                } else {
                    (RecoveryPhase::ReadingUserSid, RecoveryAction::ReadUserSid)
                },
                _ => unexpected,
            },
            RecoveryPhase::VerifyingHook => if e == RecoveryEvent::Completed {
                if m.mode == RecoveryMode::Startup {
                    (
                        RecoveryPhase::Done,
                        RecoveryAction::Finish(ComputerUseRecoveryOutcome::ActiveBroker),
                    )
                } else {
                    (
                        RecoveryPhase::Terminating,
                        RecoveryAction::TerminateBroker {
                            pid: descriptor_of(m).broker_pid,
                            creation_time: descriptor_of(m).broker_creation_time,
                        },
                    )
                }
            } else {
                unexpected
            },
            RecoveryPhase::Terminating => if e == RecoveryEvent::Completed {
                (RecoveryPhase::SecondLookup, RecoveryAction::LookupBroker(descriptor_of(m).broker_pid))
            } else {
                unexpected
            },
            RecoveryPhase::SecondLookup => match e {
                RecoveryEvent::BrokerCreationTime(t) => if t == Some(
                    descriptor_of(m).broker_creation_time,
                ) {
                    fail(RecoveryError::BrokerStillActive)
                } else {
                    (RecoveryPhase::ReadingUserSid, RecoveryAction::ReadUserSid)
                },
                _ => unexpected,
            },
            RecoveryPhase::ReadingUserSid => match e {
                RecoveryEvent::UserSid(sid) => (
                    RecoveryPhase::EnsuringEvidence,
                    RecoveryAction::EnsureEvidence(sid),
                ),
                _ => unexpected,
            },
            RecoveryPhase::EnsuringEvidence => if e == RecoveryEvent::Completed {
                (RecoveryPhase::RestoringHook, RecoveryAction::RestoreHook)
            } else {
                unexpected
            },
            RecoveryPhase::RestoringHook => if e == RecoveryEvent::Completed {
                (RecoveryPhase::DeletingDescriptor, RecoveryAction::DeleteDescriptor)
            } else {
                unexpected
            },
            RecoveryPhase::DeletingDescriptor => if e == RecoveryEvent::Completed {
                (RecoveryPhase::DeletingProof, RecoveryAction::DeleteProof)
            } else {
                unexpected
            },
            RecoveryPhase::DeletingProof => if e == RecoveryEvent::Completed {
                (RecoveryPhase::RemovingEvidenceAfterCleanup, RecoveryAction::RemoveEvidence)
            } else {
                unexpected
            },
            RecoveryPhase::RemovingEvidenceAfterCleanup => if e == RecoveryEvent::Completed {
                (RecoveryPhase::FinalEvidence, RecoveryAction::ReadEvidence)
            } else {
                unexpected
            },
            RecoveryPhase::FinalEvidence => match e {
                RecoveryEvent::Evidence(present) => if present {
                    (RecoveryPhase::FinalRemovingEvidence, RecoveryAction::RemoveEvidence)
                } else {
                    (RecoveryPhase::Done, RecoveryAction::Finish(ComputerUseRecoveryOutcome::Recovered))
                },
                _ => unexpected,
            },
            RecoveryPhase::FinalRemovingEvidence => if e == RecoveryEvent::Completed {
                (RecoveryPhase::Done, RecoveryAction::Finish(ComputerUseRecoveryOutcome::Recovered))
            } else {
                unexpected
            },
            RecoveryPhase::Done => unexpected,
        }
    }
}

/// Starts recovering the session a descriptor describes: the descriptor
/// must sit directly in the state directory; the first action checks it
/// on the file system. At startup a live broker is left running.
pub fn recover_stale_admin_computer_use(state_dir: &str, descriptor_path: &str) -> (r: (
    ComputerUseRecovery,
    RecoveryAction,
))
    ensures
        recovery_wf(r.0),
        r.0.mode == RecoveryMode::Startup,
        r.0.state_dir@ == state_dir@,
        r.0.descriptor_path@ == descriptor_path@,
        in_state_dir(state_dir@, descriptor_path@) ==> (r.1 matches RecoveryAction::CheckStateFile(
            p,
        ) && p@ == descriptor_path@ && r.0.phase == RecoveryPhase::CheckingDescriptorFile),
        !in_state_dir(state_dir@, descriptor_path@) ==> r.1 == RecoveryAction::Fail(
            RecoveryError::OutsideStateDirectory,
        ),
{
    ComputerUseRecovery::start(RecoveryMode::Startup, state_dir, descriptor_path)
}

/// Starts recovering at shutdown: a live broker of the descriptor is
/// terminated (and must be gone) before its state is restored.
pub fn recover_stale_admin_computer_use_for_shutdown(state_dir: &str, descriptor_path: &str) -> (r: (
    ComputerUseRecovery,
    RecoveryAction,
))
    ensures
        recovery_wf(r.0),
        r.0.mode == RecoveryMode::Shutdown,
        r.0.state_dir@ == state_dir@,
        r.0.descriptor_path@ == descriptor_path@,
        in_state_dir(state_dir@, descriptor_path@) ==> (r.1 matches RecoveryAction::CheckStateFile(
            p,
        ) && p@ == descriptor_path@ && r.0.phase == RecoveryPhase::CheckingDescriptorFile),
        !in_state_dir(state_dir@, descriptor_path@) ==> r.1 == RecoveryAction::Fail(
            RecoveryError::OutsideStateDirectory,
        ),
{
    ComputerUseRecovery::start(RecoveryMode::Shutdown, state_dir, descriptor_path)
}

impl ComputerUseRecovery {
    fn start(mode: RecoveryMode, state_dir: &str, descriptor_path: &str) -> (r: (
        ComputerUseRecovery,
        RecoveryAction,
    ))
        ensures
            recovery_wf(r.0),
            r.0.mode == mode,
            r.0.state_dir@ == state_dir@,
            r.0.descriptor_path@ == descriptor_path@,
            in_state_dir(state_dir@, descriptor_path@) ==> (r.1 matches RecoveryAction::CheckStateFile(
                p,
            ) && p@ == descriptor_path@ && r.0.phase == RecoveryPhase::CheckingDescriptorFile),
            !in_state_dir(state_dir@, descriptor_path@) ==> r.1 == RecoveryAction::Fail(
                RecoveryError::OutsideStateDirectory,
            ),
    {
        let inside = state_file_in_dir(state_dir, descriptor_path);
        let m = ComputerUseRecovery {
            mode,
            state_dir: state_dir.to_owned(),
            descriptor_path: descriptor_path.to_owned(),
            phase: if inside {
                RecoveryPhase::CheckingDescriptorFile
            } else {
                RecoveryPhase::Done
            },
            descriptor: None,
            broker_cleared: false,
            hook_restored: false,
            descriptor_deleted: false,
            proof_deleted: false,
        };
        if inside {
            (m, RecoveryAction::CheckStateFile(descriptor_path.to_owned()))
        } else {
            (m, RecoveryAction::Fail(RecoveryError::OutsideStateDirectory))
        }
    }

    fn fail(&mut self, error: RecoveryError) -> (a: RecoveryAction)
        ensures
            final(self).phase == RecoveryPhase::Done,
            a == RecoveryAction::Fail(error),
            final(self).mode == old(self).mode,
            final(self).descriptor == old(self).descriptor,
            final(self).broker_cleared == old(self).broker_cleared,
            final(self).hook_restored == old(self).hook_restored,
            final(self).descriptor_deleted == old(self).descriptor_deleted,
            final(self).proof_deleted == old(self).proof_deleted,
            final(self).state_dir == old(self).state_dir,
            final(self).descriptor_path == old(self).descriptor_path,
    {
        self.phase = RecoveryPhase::Done;
        RecoveryAction::Fail(error)
    }

    fn finish(&mut self, outcome: ComputerUseRecoveryOutcome) -> (a: RecoveryAction)
        ensures
            final(self).phase == RecoveryPhase::Done,
            a == RecoveryAction::Finish(outcome),
            final(self).mode == old(self).mode,
            final(self).descriptor == old(self).descriptor,
            final(self).broker_cleared == old(self).broker_cleared,
            final(self).hook_restored == old(self).hook_restored,
            final(self).descriptor_deleted == old(self).descriptor_deleted,
            final(self).proof_deleted == old(self).proof_deleted,
            final(self).state_dir == old(self).state_dir,
            final(self).descriptor_path == old(self).descriptor_path,
    {
        self.phase = RecoveryPhase::Done;
        RecoveryAction::Finish(outcome)
    }

    fn go(&mut self, phase: RecoveryPhase, action: RecoveryAction) -> (a: RecoveryAction)
        ensures
            final(self).phase == phase,
            a == action,
            final(self).mode == old(self).mode,
            final(self).descriptor == old(self).descriptor,
            final(self).broker_cleared == old(self).broker_cleared,
            final(self).hook_restored == old(self).hook_restored,
            final(self).descriptor_deleted == old(self).descriptor_deleted,
            final(self).proof_deleted == old(self).proof_deleted,
            final(self).state_dir == old(self).state_dir,
            final(self).descriptor_path == old(self).descriptor_path,
    {
        self.phase = phase;
        action
    }

    /// Takes the outcome of the last action and gives the next one. Laws
    /// kept at every step: the hook is restored only once the broker is known
    /// not to run; the descriptor is deleted only after the hook is restored
    /// and the proof only after the descriptor; `Recovered` is reported only
    /// after all three; a live broker is left alone at startup and is only
    /// terminated at shutdown, as the very process the descriptor names.
    pub fn step(&mut self, event: RecoveryEvent) -> (a: RecoveryAction)
        requires
            recovery_wf(*old(self)),
        ensures
            recovery_wf(*final(self)),
            (final(self).phase, a) == recovery_transition(*old(self), event),
            final(self).mode == old(self).mode,
            final(self).state_dir == old(self).state_dir,
            final(self).descriptor_path == old(self).descriptor_path,
            old(self).phase == RecoveryPhase::OpeningDescriptor && event is Descriptor
                && final(self).phase != RecoveryPhase::Done ==> final(self).descriptor == Some(
                event->Descriptor_0,
            ),
            a == RecoveryAction::RestoreHook ==> final(self).broker_cleared,
            a == RecoveryAction::DeleteDescriptor && old(self).descriptor is Some
                ==> final(self).hook_restored || old(self).phase == RecoveryPhase::UnparsableRenameWindow,
            a == RecoveryAction::DeleteProof ==> final(self).hook_restored
                && final(self).descriptor_deleted,
            a == RecoveryAction::Finish(ComputerUseRecoveryOutcome::Recovered)
                ==> final(self).hook_restored && final(self).descriptor_deleted
                && final(self).proof_deleted,
            a == RecoveryAction::Finish(ComputerUseRecoveryOutcome::ActiveBroker)
                ==> final(self).mode == RecoveryMode::Startup && !final(self).hook_restored,
            a matches RecoveryAction::TerminateBroker { pid, creation_time } ==> (final(self).mode
                == RecoveryMode::Shutdown && final(self).descriptor is Some && descriptor_of(
                *final(self),
            ).broker_pid == pid && descriptor_of(*final(self)).broker_creation_time
                == creation_time),
            old(self).phase == RecoveryPhase::Done ==> a == RecoveryAction::Fail(
                RecoveryError::UnexpectedEvent,
            ),
            event == RecoveryEvent::Failed && old(self).phase != RecoveryPhase::Done ==> a
                == RecoveryAction::Fail(RecoveryError::ActionFailed),
    {
        if self.phase == RecoveryPhase::Done {
            return RecoveryAction::Fail(RecoveryError::UnexpectedEvent);
        }
        if let RecoveryEvent::Failed = event {
            return self.fail(RecoveryError::ActionFailed);
        }
        match self.phase {
            RecoveryPhase::CheckingDescriptorFile => match event {
                RecoveryEvent::Completed => self.go(
                    RecoveryPhase::OpeningDescriptor,
                    RecoveryAction::OpenDescriptor,
                ),
                _ => self.fail(RecoveryError::UnexpectedEvent),
            },
            RecoveryPhase::OpeningDescriptor => match event {
                RecoveryEvent::DescriptorMissing => self.go(
                    RecoveryPhase::MissingEvidence,
                    RecoveryAction::ReadEvidence,
                ),
                RecoveryEvent::DescriptorUnparsable => self.go(
                    RecoveryPhase::UnparsableEvidence,
                    RecoveryAction::ReadEvidence,
                ),
                RecoveryEvent::Descriptor(d) => {
                    if !state_file_in_dir(self.state_dir.as_str(), d.proof_path.as_str()) {
                        return self.fail(RecoveryError::OutsideStateDirectory);
                    }
                    let path = d.proof_path.clone();
                    self.descriptor = Some(d);
                    self.go(RecoveryPhase::CheckingProofFile, RecoveryAction::CheckStateFile(path))
                },
                _ => self.fail(RecoveryError::UnexpectedEvent),
            },
            RecoveryPhase::MissingEvidence => match event {
                RecoveryEvent::Evidence(present) => self.go(
                    if present {
                        RecoveryPhase::MissingRenameWindow
                    } else {
                        RecoveryPhase::MissingRenameWindowWithoutEvidence
                    },
                    RecoveryAction::RecoverRenameWindow(present),
                ),
                _ => self.fail(RecoveryError::UnexpectedEvent),
            },
            RecoveryPhase::MissingRenameWindow => match event {
                RecoveryEvent::Completed => self.go(
                    RecoveryPhase::RemovingUnpublishedProof,
                    RecoveryAction::RemoveUnpublishedProof,
                ),
                _ => self.fail(RecoveryError::UnexpectedEvent),
            },
            RecoveryPhase::MissingRenameWindowWithoutEvidence => match event {
                RecoveryEvent::Completed => self.finish(
                    ComputerUseRecoveryOutcome::NothingToRecover,
                ),
                _ => self.fail(RecoveryError::UnexpectedEvent),
            },
            RecoveryPhase::UnparsableEvidence => match event {
                RecoveryEvent::Evidence(present) => if present {
                    self.go(
                        RecoveryPhase::UnparsableRenameWindow,
                        RecoveryAction::RecoverRenameWindow(true),
                    )
                } else {
                    self.fail(RecoveryError::UnparsableDescriptor)
                },
                _ => self.fail(RecoveryError::UnexpectedEvent),
            },
            RecoveryPhase::UnparsableRenameWindow => match event {
                RecoveryEvent::Completed => self.go(
                    RecoveryPhase::UnparsableDeletingDescriptor,
                    RecoveryAction::DeleteDescriptor,
                ),
                _ => self.fail(RecoveryError::UnexpectedEvent),
            },
            RecoveryPhase::UnparsableDeletingDescriptor => match event {
                RecoveryEvent::Completed => self.go(
                    RecoveryPhase::RemovingUnpublishedProof,
                    RecoveryAction::RemoveUnpublishedProof,
                ),
                _ => self.fail(RecoveryError::UnexpectedEvent),
            },
            RecoveryPhase::RemovingUnpublishedProof => match event {
                RecoveryEvent::Completed => self.go(
                    RecoveryPhase::RemovingEvidence,
                    RecoveryAction::RemoveEvidence,
                ),
                _ => self.fail(RecoveryError::UnexpectedEvent),
            },
            RecoveryPhase::RemovingEvidence => match event {
                RecoveryEvent::Completed => self.finish(
                    ComputerUseRecoveryOutcome::NothingToRecover,
                ),
                _ => self.fail(RecoveryError::UnexpectedEvent),
            },
            RecoveryPhase::CheckingProofFile => match event {
                RecoveryEvent::Completed => {
                    let owned = proof_path_for(self.descriptor_path.as_str());
                    let (proof_path, pid) = match &self.descriptor {
                        Some(d) => (d.proof_path.clone(), d.broker_pid),
                        None => {
                            return self.fail(RecoveryError::UnexpectedEvent);
                        },
                    };
                    if !str_eq(proof_path.as_str(), owned.as_str()) {
                        return self.fail(RecoveryError::ProofPathNotOwned);
                    }
                    self.go(RecoveryPhase::ReadingProof, RecoveryAction::OpenProof(proof_path))
                },
                _ => self.fail(RecoveryError::UnexpectedEvent),
            },
            RecoveryPhase::ReadingProof => match event {
                RecoveryEvent::Proof(bytes) => {
                    let (hash, pid) = match &self.descriptor {
                        Some(d) => (d.proof_hash.clone(), d.broker_pid),
                        None => {
                            return self.fail(RecoveryError::UnexpectedEvent);
                        },
                    };
                    let actual = sha256_hex_of(bytes.as_slice());
                    if !str_eq(actual.as_str(), hash.as_str()) {
                        return self.fail(RecoveryError::ProofOwnershipChanged);
                    }
                    self.go(RecoveryPhase::FirstLookup, RecoveryAction::LookupBroker(pid))
                },
                _ => self.fail(RecoveryError::UnexpectedEvent),
            },
            RecoveryPhase::FirstLookup => match event {
                RecoveryEvent::BrokerCreationTime(time) => {
                    let expected = match &self.descriptor {
                        Some(d) => d.broker_creation_time,
                        None => {
                            return self.fail(RecoveryError::UnexpectedEvent);
                        },
                    };
                    let alive = match time {
                        Some(t) => t == expected,
                        None => false,
                    };
                    if alive {
                        self.go(RecoveryPhase::VerifyingHook, RecoveryAction::VerifyHook)
                    } else {
                        self.broker_cleared = true;
                        self.go(RecoveryPhase::ReadingUserSid, RecoveryAction::ReadUserSid)
                    }
                },
                _ => self.fail(RecoveryError::UnexpectedEvent),
            },
            RecoveryPhase::VerifyingHook => match event {
                RecoveryEvent::Completed => {
                    if self.mode == RecoveryMode::Startup {
                        return self.finish(ComputerUseRecoveryOutcome::ActiveBroker);
                    }
                    let (pid, creation_time) = match &self.descriptor {
                        Some(d) => (d.broker_pid, d.broker_creation_time),
                        None => {
                            return self.fail(RecoveryError::UnexpectedEvent);
                        },
                    };
                    self.go(
                        RecoveryPhase::Terminating,
                        RecoveryAction::TerminateBroker { pid, creation_time },
                    )
                },
                _ => self.fail(RecoveryError::UnexpectedEvent),
            },
            RecoveryPhase::Terminating => match event {
                RecoveryEvent::Completed => {
                    let pid = match &self.descriptor {
                        Some(d) => d.broker_pid,
                        None => {
                            return self.fail(RecoveryError::UnexpectedEvent);
                        },
                    };
                    self.go(RecoveryPhase::SecondLookup, RecoveryAction::LookupBroker(pid))
                },
                _ => self.fail(RecoveryError::UnexpectedEvent),
            },
            RecoveryPhase::SecondLookup => match event {
                RecoveryEvent::BrokerCreationTime(time) => {
                    let expected = match &self.descriptor {
                        Some(d) => d.broker_creation_time,
                        None => {
                            return self.fail(RecoveryError::UnexpectedEvent);
                        },
                    };
                    let alive = match time {
                        Some(t) => t == expected,
                        None => false,
                    };
                    if alive {
                        self.fail(RecoveryError::BrokerStillActive)
                    } else {
                        self.broker_cleared = true;
                        self.go(RecoveryPhase::ReadingUserSid, RecoveryAction::ReadUserSid)
                    }
                },
                _ => self.fail(RecoveryError::UnexpectedEvent),
            },
            RecoveryPhase::ReadingUserSid => match event {
                RecoveryEvent::UserSid(sid) => self.go(
                    RecoveryPhase::EnsuringEvidence,
                    RecoveryAction::EnsureEvidence(sid),
                ),
                _ => self.fail(RecoveryError::UnexpectedEvent),
            },
            RecoveryPhase::EnsuringEvidence => match event {
                RecoveryEvent::Completed => self.go(
                    RecoveryPhase::RestoringHook,
                    RecoveryAction::RestoreHook,
                ),
                _ => self.fail(RecoveryError::UnexpectedEvent),
            },
            RecoveryPhase::RestoringHook => match event {
                RecoveryEvent::Completed => {
                    self.hook_restored = true;
                    self.go(RecoveryPhase::DeletingDescriptor, RecoveryAction::DeleteDescriptor)
                },
                _ => self.fail(RecoveryError::UnexpectedEvent),
            },
            RecoveryPhase::DeletingDescriptor => match event {
                RecoveryEvent::Completed => {
                    self.descriptor_deleted = true;
                    self.go(RecoveryPhase::DeletingProof, RecoveryAction::DeleteProof)
                },
                _ => self.fail(RecoveryError::UnexpectedEvent),
            },
            RecoveryPhase::DeletingProof => match event {
                RecoveryEvent::Completed => {
                    self.proof_deleted = true;
                    self.go(
                        RecoveryPhase::RemovingEvidenceAfterCleanup,
                        RecoveryAction::RemoveEvidence,
                    )
                },
                _ => self.fail(RecoveryError::UnexpectedEvent),
            },
            RecoveryPhase::RemovingEvidenceAfterCleanup => match event {
                RecoveryEvent::Completed => self.go(
                    RecoveryPhase::FinalEvidence,
                    RecoveryAction::ReadEvidence,
                ),
                _ => self.fail(RecoveryError::UnexpectedEvent),
            },
            RecoveryPhase::FinalEvidence => match event {
                RecoveryEvent::Evidence(present) => if present {
                    self.go(RecoveryPhase::FinalRemovingEvidence, RecoveryAction::RemoveEvidence)
                } else {
                    self.finish(ComputerUseRecoveryOutcome::Recovered)
                },
                _ => self.fail(RecoveryError::UnexpectedEvent),
            },
            RecoveryPhase::FinalRemovingEvidence => match event {
                RecoveryEvent::Completed => self.finish(ComputerUseRecoveryOutcome::Recovered),
                _ => self.fail(RecoveryError::UnexpectedEvent),
            },
            RecoveryPhase::Done => RecoveryAction::Fail(RecoveryError::UnexpectedEvent),
        }
    }
}

/// How far a recovery has come: every phase has a rank, and only the end
/// has the highest.
pub open spec fn phase_rank(p: RecoveryPhase) -> nat {
    match p {
        RecoveryPhase::CheckingDescriptorFile => 0,
        RecoveryPhase::OpeningDescriptor => 1,
        RecoveryPhase::MissingEvidence => 2,
        RecoveryPhase::MissingRenameWindow => 3,
        RecoveryPhase::MissingRenameWindowWithoutEvidence => 4,
        RecoveryPhase::UnparsableEvidence => 5,
        RecoveryPhase::UnparsableRenameWindow => 6,
        RecoveryPhase::UnparsableDeletingDescriptor => 7,
        RecoveryPhase::RemovingUnpublishedProof => 8,
        RecoveryPhase::RemovingEvidence => 9,
        RecoveryPhase::CheckingProofFile => 10,
        RecoveryPhase::ReadingProof => 11,
        RecoveryPhase::FirstLookup => 12,
        RecoveryPhase::VerifyingHook => 13,
        RecoveryPhase::Terminating => 14,
        RecoveryPhase::SecondLookup => 15,
        RecoveryPhase::ReadingUserSid => 16,
        RecoveryPhase::EnsuringEvidence => 17,
        RecoveryPhase::RestoringHook => 18,
        RecoveryPhase::DeletingDescriptor => 19,
        RecoveryPhase::DeletingProof => 20,
        RecoveryPhase::RemovingEvidenceAfterCleanup => 21,
        RecoveryPhase::FinalEvidence => 22,
        RecoveryPhase::FinalRemovingEvidence => 23,
        RecoveryPhase::Done => 24,
    }
}

/// Law: every event moves an unfinished recovery forward, and a finished
/// recovery answers with `Finish` or `Fail` exactly when it ends; so a
/// recovery ends after at most 24 events, whatever the caller reports.
pub proof fn lemma_recovery_always_progresses(m: ComputerUseRecovery, e: RecoveryEvent)
    requires
        m.phase != RecoveryPhase::Done,
    ensures
        phase_rank(recovery_transition(m, e).0) > phase_rank(m.phase),
        recovery_transition(m, e).0 == RecoveryPhase::Done <==> (recovery_transition(m, e).1 is Finish
            || recovery_transition(m, e).1 is Fail),
{
}

/// Admits the Computer Use helper executable by its bytes: their SHA-256
/// in lowercase hexadecimal, when it equals one of the `supported` hashes
/// of the installed Computer Use version (ignoring ASCII case).
pub fn admit_helper_image(helper_bytes: &[u8], supported: &Vec<String>) -> (r: Option<String>)
    ensures
        r matches Some(h) ==> h@ == sha256_hex(helper_bytes@),
        r is Some <==> exists|i: int|
            0 <= i < supported@.len() && eq_ignore_case(sha256_hex(helper_bytes@), #[trigger] supported@[i]@),
{
    let hash = sha256_hex_of(helper_bytes);
    let mut i: usize = 0;
    while i < supported.len()
        invariant
            i <= supported.len(),
            hash@ == sha256_hex(helper_bytes@),
            forall|j: int| 0 <= j < i ==> !eq_ignore_case(sha256_hex(helper_bytes@), #[trigger] supported@[j]@),
        decreases supported.len() - i,
    {
        if str_eq_ignore_case(hash.as_str(), supported[i].as_str()) {
            return Some(hash);
        }
        i += 1;
    }
    None
}

/// A stage of starting the Computer Use broker, in the order it runs them.
#[derive(Debug, Clone, Copy, PartialEq, Eq, Structural)]
pub enum ComputerUseStartStage {
    /// Resolve the installed artifacts and check the configured paths.
    ResolveArtifacts,
    /// Read the helper executable and admit it by its hash.
    AdmitHelper,
    /// Stage the helper's runtime copy.
    StageRuntimeCopy,
    /// Run the helper's readiness probe.
    Preflight,
    /// Create the broker pipe.
    CreatePipe,
    /// Create the recovery evidence (armed).
    CreateEvidence,
    /// Install the transport hook.
    InstallHook,
    /// Describe the broker: its creation time and shim path.
    DescribeBroker,
    /// Write the proof file and then the descriptor.
    WriteDescriptor,
    /// Mark the recovery evidence complete.
    CompleteEvidence,
}

/// What undoing a failed Computer Use start does, step by step.
#[derive(Debug, Clone, Copy, PartialEq, Eq, Structural)]
pub enum ComputerUseUndo {
    /// Remove the proof file if it still has the session's fingerprint.
    RemoveProof,
    /// Remove the descriptor and its proof.
    RemoveDescriptorAndProof,
    /// Roll the transport hook back.
    RollBackHook,
    /// Remove the armed recovery evidence.
    RemoveEvidence,
    /// Remove the staged runtime copy.
    RemoveRuntimeCopy,
}

/// How far the Computer Use start has come: the stage to run and what is in
/// place that a failure must undo.
#[derive(Debug, Clone, Copy, PartialEq, Eq, Structural)]
pub struct ComputerUseStartProgress {
    pub stage: ComputerUseStartStage,
    pub runtime_copy: bool,
    pub evidence: bool,
    pub hook: bool,
}

/// What the start does after a stage reported.
#[derive(Debug, Clone, PartialEq, Eq)]
pub enum ComputerUseStartStep {
    /// Run the next stage.
    Continue(ComputerUseStartProgress),
    /// The broker is described and its evidence complete: serve clients.
    Ready,
    /// A stage failed: undo these, in this order, and fail.
    Abort(Vec<ComputerUseUndo>),
}

/// The model of a start step.
pub enum ComputerUseStartModel {
    Continue(ComputerUseStartProgress),
    Ready,
    Abort(Seq<ComputerUseUndo>),
}

/// The model of a start step.
pub open spec fn start_step_model(s: ComputerUseStartStep) -> ComputerUseStartModel {
    match s {
        ComputerUseStartStep::Continue(p) => ComputerUseStartModel::Continue(p),
        ComputerUseStartStep::Ready => ComputerUseStartModel::Ready,
        ComputerUseStartStep::Abort(u) => ComputerUseStartModel::Abort(u@),
    }
}

/// The stage after `stage`, if any.
pub open spec fn next_start_stage(stage: ComputerUseStartStage) -> Option<ComputerUseStartStage> {
    match stage {
        ComputerUseStartStage::ResolveArtifacts => Some(ComputerUseStartStage::AdmitHelper),
        ComputerUseStartStage::AdmitHelper => Some(ComputerUseStartStage::StageRuntimeCopy),
        ComputerUseStartStage::StageRuntimeCopy => Some(ComputerUseStartStage::Preflight),
        ComputerUseStartStage::Preflight => Some(ComputerUseStartStage::CreatePipe),
        ComputerUseStartStage::CreatePipe => Some(ComputerUseStartStage::CreateEvidence),
        ComputerUseStartStage::CreateEvidence => Some(ComputerUseStartStage::InstallHook),
        ComputerUseStartStage::InstallHook => Some(ComputerUseStartStage::DescribeBroker),
        ComputerUseStartStage::DescribeBroker => Some(ComputerUseStartStage::WriteDescriptor),
        ComputerUseStartStage::WriteDescriptor => Some(ComputerUseStartStage::CompleteEvidence),
        ComputerUseStartStage::CompleteEvidence => None,
    }
}

/// What a failure at a stage undoes: a failed descriptor write removes the
/// proof, a failed evidence completion removes the descriptor and the
/// proof; then the hook is rolled back, the armed evidence removed and the
/// runtime copy removed, each where it is in place.
pub open spec fn start_undo(p: ComputerUseStartProgress) -> Seq<ComputerUseUndo> {
    (if p.stage == ComputerUseStartStage::WriteDescriptor {
        seq![ComputerUseUndo::RemoveProof]
    } else if p.stage == ComputerUseStartStage::CompleteEvidence {
        seq![ComputerUseUndo::RemoveDescriptorAndProof]
    } else {
        seq![]
    }) + (if p.hook { seq![ComputerUseUndo::RollBackHook] } else { seq![] }) + (if p.evidence {
        seq![ComputerUseUndo::RemoveEvidence]
    } else {
        seq![]
    }) + (if p.runtime_copy { seq![ComputerUseUndo::RemoveRuntimeCopy] } else { seq![] })
}

/// One step of starting the Computer Use broker.
pub open spec fn computer_use_start_spec(p: ComputerUseStartProgress, succeeded: bool) -> ComputerUseStartModel {
    if !succeeded {
        ComputerUseStartModel::Abort(start_undo(p))
    } else {
        match next_start_stage(p.stage) {
            None => ComputerUseStartModel::Ready,
            Some(n) => ComputerUseStartModel::Continue(
                ComputerUseStartProgress {
                    stage: n,
                    runtime_copy: p.runtime_copy || p.stage == ComputerUseStartStage::StageRuntimeCopy,
                    evidence: p.evidence || p.stage == ComputerUseStartStage::CreateEvidence,
                    hook: p.hook || p.stage == ComputerUseStartStage::InstallHook,
                },
            ),
        }
    }
}

/// Where the Computer Use start begins: nothing in place.
pub fn computer_use_start_begin() -> (r: ComputerUseStartProgress)
    ensures
        r == (ComputerUseStartProgress {
            stage: ComputerUseStartStage::ResolveArtifacts,
            runtime_copy: false,
            evidence: false,
            hook: false,
        }),
{
    ComputerUseStartProgress {
        stage: ComputerUseStartStage::ResolveArtifacts,
        runtime_copy: false,
        evidence: false,
        hook: false,
    }
}

/// One step of starting the Computer Use broker: after a success the next
/// stage runs (the helper is admitted before anything is staged, and the
/// descriptor is written only after the hook is installed), and completing
/// the evidence makes it ready; after a failure what is in place is undone
/// as [`start_undo`] says.
pub fn computer_use_start_step(progress: ComputerUseStartProgress, succeeded: bool) -> (r:
    ComputerUseStartStep)
    ensures
        start_step_model(r) == computer_use_start_spec(progress, succeeded),
{
    if !succeeded {
        let mut undo: Vec<ComputerUseUndo> = Vec::new();
        match progress.stage {
            ComputerUseStartStage::WriteDescriptor => undo.push(ComputerUseUndo::RemoveProof),
            ComputerUseStartStage::CompleteEvidence => undo.push(ComputerUseUndo::RemoveDescriptorAndProof),
            _ => {},
        }
        if progress.hook {
            undo.push(ComputerUseUndo::RollBackHook);
        }
        if progress.evidence {
            undo.push(ComputerUseUndo::RemoveEvidence);
        }
        if progress.runtime_copy {
            undo.push(ComputerUseUndo::RemoveRuntimeCopy);
        }
        assert(undo@ =~= start_undo(progress));
        return ComputerUseStartStep::Abort(undo);
    }
    let next = match progress.stage {
        ComputerUseStartStage::ResolveArtifacts => ComputerUseStartStage::AdmitHelper,
        ComputerUseStartStage::AdmitHelper => ComputerUseStartStage::StageRuntimeCopy,
        ComputerUseStartStage::StageRuntimeCopy => ComputerUseStartStage::Preflight,
        ComputerUseStartStage::Preflight => ComputerUseStartStage::CreatePipe,
        ComputerUseStartStage::CreatePipe => ComputerUseStartStage::CreateEvidence,
        ComputerUseStartStage::CreateEvidence => ComputerUseStartStage::InstallHook,
        ComputerUseStartStage::InstallHook => ComputerUseStartStage::DescribeBroker,
        ComputerUseStartStage::DescribeBroker => ComputerUseStartStage::WriteDescriptor,
        ComputerUseStartStage::WriteDescriptor => ComputerUseStartStage::CompleteEvidence,
        ComputerUseStartStage::CompleteEvidence => {
            return ComputerUseStartStep::Ready;
        },
    };
    ComputerUseStartStep::Continue(
        ComputerUseStartProgress {
            stage: next,
            runtime_copy: progress.runtime_copy || progress.stage == ComputerUseStartStage::StageRuntimeCopy,
            evidence: progress.evidence || progress.stage == ComputerUseStartStage::CreateEvidence,
            hook: progress.hook || progress.stage == ComputerUseStartStage::InstallHook,
        },
    )
}

/// The position of a start stage in the order it runs.
pub open spec fn start_stage_index(stage: ComputerUseStartStage) -> nat {
    match stage {
        ComputerUseStartStage::ResolveArtifacts => 0,
        ComputerUseStartStage::AdmitHelper => 1,
        ComputerUseStartStage::StageRuntimeCopy => 2,
        ComputerUseStartStage::Preflight => 3,
        ComputerUseStartStage::CreatePipe => 4,
        ComputerUseStartStage::CreateEvidence => 5,
        ComputerUseStartStage::InstallHook => 6,
        ComputerUseStartStage::DescribeBroker => 7,
        ComputerUseStartStage::WriteDescriptor => 8,
        ComputerUseStartStage::CompleteEvidence => 9,
    }
}

/// The progress after the first `k` stages of a start succeeded, if the
/// start is still running then.
pub open spec fn start_progress_after(k: nat) -> Option<ComputerUseStartProgress>
    decreases k,
{
    if k == 0 {
        Some(
            ComputerUseStartProgress {
                stage: ComputerUseStartStage::ResolveArtifacts,
                runtime_copy: false,
                evidence: false,
                hook: false,
            },
        )
    } else {
        match start_progress_after((k - 1) as nat) {
            Some(p) => match computer_use_start_spec(p, true) {
                ComputerUseStartModel::Continue(n) => Some(n),
                _ => None,
            },
            None => None,
        }
    }
}

/// Law: a start whose first `k` stages succeeded is at the `k`-th stage
/// with exactly what those stages put in place: the runtime copy once
/// `StageRuntimeCopy` succeeded, the evidence once `CreateEvidence` did,
/// the hook once `InstallHook` did. When that stage fails, the start undoes
/// the proof (failed descriptor write) or descriptor and proof (failed
/// evidence completion) first, then rolls the hook back, removes the
/// evidence and removes the runtime copy, each exactly when it is in place;
/// when the last stage succeeds the broker is ready.
pub proof fn lemma_computer_use_start_run(k: nat)
    requires
        k < 10,
    ensures
        start_progress_after(k) matches Some(p) && start_stage_index(p.stage) == k && p.runtime_copy == (k
            > 2) && p.evidence == (k > 5) && p.hook == (k > 6) && (computer_use_start_spec(p, false) matches ComputerUseStartModel::Abort(
            u,
        ) && (u.contains(ComputerUseUndo::RollBackHook) <==> k > 6) && (u.contains(
            ComputerUseUndo::RemoveEvidence,
        ) <==> k > 5) && (u.contains(ComputerUseUndo::RemoveRuntimeCopy) <==> k > 2) && (u.contains(
            ComputerUseUndo::RemoveProof,
        ) <==> k == 8) && (u.contains(ComputerUseUndo::RemoveDescriptorAndProof) <==> k == 9)
            && u.len() == (if k > 6 { 1nat } else { 0 }) + (if k > 5 { 1nat } else { 0 }) + (if k > 2 {
            1nat
        } else {
            0
        }) + (if k >= 8 { 1nat } else { 0 }) && (k == 8 ==> u[0] == ComputerUseUndo::RemoveProof) && (k == 9
            ==> u[0] == ComputerUseUndo::RemoveDescriptorAndProof)) && (k == 9 ==> computer_use_start_spec(
            p,
            true,
        ) == ComputerUseStartModel::Ready),
    decreases k,
{
    if k > 0 {
        lemma_computer_use_start_run((k - 1) as nat);
    }
    let p = start_progress_after(k)->0;
    let u = start_undo(p);
    assert(u.contains(ComputerUseUndo::RollBackHook) ==> p.hook);
    assert(u.contains(ComputerUseUndo::RemoveEvidence) ==> p.evidence);
    assert(u.contains(ComputerUseUndo::RemoveRuntimeCopy) ==> p.runtime_copy);
    assert(u.contains(ComputerUseUndo::RemoveProof) ==> p.stage == ComputerUseStartStage::WriteDescriptor);
    assert(u.contains(ComputerUseUndo::RemoveDescriptorAndProof) ==> p.stage
        == ComputerUseStartStage::CompleteEvidence);
    if p.hook {
        assert(u.contains(ComputerUseUndo::RollBackHook)) by {
            let i = if p.stage == ComputerUseStartStage::WriteDescriptor || p.stage
                == ComputerUseStartStage::CompleteEvidence {
                1int
            } else {
                0int
            };
            assert(u[i] == ComputerUseUndo::RollBackHook);
        }
    }
    if p.evidence {
        assert(u.contains(ComputerUseUndo::RemoveEvidence)) by {
            let i = (if p.stage == ComputerUseStartStage::WriteDescriptor || p.stage
                == ComputerUseStartStage::CompleteEvidence {
                1int
            } else {
                0int
            }) + if p.hook { 1int } else { 0int };
            assert(u[i] == ComputerUseUndo::RemoveEvidence);
        }
    }
    if p.runtime_copy {
        assert(u.contains(ComputerUseUndo::RemoveRuntimeCopy)) by {
            let i = u.len() - 1;
            assert(u[i] == ComputerUseUndo::RemoveRuntimeCopy);
        }
    }
    if p.stage == ComputerUseStartStage::WriteDescriptor {
        assert(u[0] == ComputerUseUndo::RemoveProof);
    }
    if p.stage == ComputerUseStartStage::CompleteEvidence {
        assert(u[0] == ComputerUseUndo::RemoveDescriptorAndProof);
    }
}

} // verus!
