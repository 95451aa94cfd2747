//! Administrator mode as a whole: the layout of one session (pipe names,
//! job name, descriptor and proof files), the session proof, how startup
//! recovery proceeds from the Computer Use outcome, how shutdown results
//! are reported, and the status and health that the app shows.
use vstd::prelude::*;
use crate::text::chars_of;
use crate::text::string_of;
use crate::text::push_str;
use crate::text::join;
use crate::text::join_chars;
use crate::text::with_extension;
use crate::text::sub_chars;
use crate::encoding::base64_url_no_pad;
use crate::encoding::base64_url_no_pad_encode;
use crate::encoding::random_32_bytes;
use crate::windows::admin_pipe_name_spec;
use crate::windows::admin_pipe_name;
use crate::windows::WindowsIdentity;
use crate::computer_use::ComputerUseRecoveryOutcome;
use crate::environment::EnvironmentRestoreOutcome;

verus! {

/// The Computer Use descriptor's file name in the state directory.
pub const COMPUTER_USE_DESCRIPTOR: &'static str = "administrator-mode-computer-use.v1.json";

/// Where administrator mode keeps and finds its files.
#[derive(Debug, Clone, PartialEq, Eq)]
pub struct AdminModeConfig {
    pub codex_home: String,
    pub state_dir: String,
    pub app_dir: String,
    pub shim_path: String,
    pub terminal_shim_path: String,
}

/// What the Codex app needs to start its app-server and terminals through
/// administrator mode.
#[derive(Debug, Clone, PartialEq, Eq)]
pub struct AdminAppServerBootstrap {
    pub official_codex_exe: String,
    pub terminal_shim_path: String,
    pub terminal_pipe_name: String,
    pub terminal_session_id: String,
    pub terminal_proof_path: String,
}

/// The Computer Use descriptor path in a state directory.
pub open spec fn descriptor_path_spec(state_dir: Seq<char>) -> Seq<char> {
    join(state_dir, COMPUTER_USE_DESCRIPTOR@)
}

/// The Computer Use descriptor path in a state directory.
pub fn computer_use_descriptor_path(state_dir: &str) -> (r: String)
    ensures
        r@ == descriptor_path_spec(state_dir@),
{
    string_of(&join_chars(&chars_of(state_dir), &chars_of(COMPUTER_USE_DESCRIPTOR)))
}

/// What startup recovery does after the Computer Use recovery.
#[derive(Debug, Clone, Copy, PartialEq, Eq, Structural)]
pub enum AdminModeRecoveryStep {
    /// A broker is still active: leave everything, report no journal.
    LeaveActiveBroker,
    /// Recover unified exec, then the environment.
    RecoverTransactions,
}

/// Why administrator mode refuses to go on.
#[derive(Debug, Clone, Copy, PartialEq, Eq, Structural)]
pub enum AdminModeError {
    /// At shutdown a broker is still active.
    BrokerStillActive,
    /// The launcher is not elevated at high integrity.
    NotElevated,
    /// The system random source failed.
    RandomSourceFailed,
}

/// At startup an active broker is left alone (the environment counts as
/// having no journal); otherwise the transactions are recovered.
pub fn recover_stale_admin_mode(outcome: ComputerUseRecoveryOutcome) -> (r: AdminModeRecoveryStep)
    ensures
        outcome == ComputerUseRecoveryOutcome::ActiveBroker <==> r
            == AdminModeRecoveryStep::LeaveActiveBroker,
{
    match outcome {
        ComputerUseRecoveryOutcome::ActiveBroker => AdminModeRecoveryStep::LeaveActiveBroker,
        ComputerUseRecoveryOutcome::NothingToRecover | ComputerUseRecoveryOutcome::Recovered => {
            AdminModeRecoveryStep::RecoverTransactions
        },
    }
}

/// At shutdown an active broker is an error; otherwise the transactions
/// are recovered.
pub fn recover_stale_admin_mode_for_shutdown(outcome: ComputerUseRecoveryOutcome) -> (r: Result<
    AdminModeRecoveryStep,
    AdminModeError,
>)
    ensures
        outcome == ComputerUseRecoveryOutcome::ActiveBroker ==> r == Err::<
            AdminModeRecoveryStep,
            AdminModeError,
        >(AdminModeError::BrokerStillActive),
        outcome != ComputerUseRecoveryOutcome::ActiveBroker ==> r == Ok::<
            AdminModeRecoveryStep,
            AdminModeError,
        >(AdminModeRecoveryStep::RecoverTransactions),
{
    match outcome {
        ComputerUseRecoveryOutcome::ActiveBroker => Err(AdminModeError::BrokerStillActive),
        ComputerUseRecoveryOutcome::NothingToRecover | ComputerUseRecoveryOutcome::Recovered => Ok(
            AdminModeRecoveryStep::RecoverTransactions,
        ),
    }
}

/// Which recovery failed.
#[derive(Debug, Clone, Copy, PartialEq, Eq, Structural)]
pub enum AdminRecoveryFailure {
    ComputerUse,
    /// At shutdown a broker is still active.
    BrokerStillActive,
    UnifiedExec,
    Environment,
}

/// What a recovery of administrator mode's stale state reported. The
/// recovery starts with Computer Use.
#[derive(Debug, Clone, PartialEq, Eq)]
pub enum AdminRecoveryEvent {
    /// The Computer Use recovery's outcome, `None` where it failed.
    ComputerUse(Option<ComputerUseRecoveryOutcome>),
    /// Whether the unified exec recovery succeeded.
    UnifiedExec(bool),
    /// The environment recovery's outcome, `None` where it failed.
    Environment(Option<EnvironmentRestoreOutcome>),
}

/// What the recovery does next.
#[derive(Debug, PartialEq, Eq)]
pub enum AdminRecoveryAction {
    RecoverUnifiedExec,
    RecoverEnvironment,
    /// Stop, with the recovery's result.
    Finish(Result<EnvironmentRestoreOutcome, AdminRecoveryFailure>),
}

/// One step of recovering administrator mode's stale state, at startup or
/// at shutdown: Computer Use first; unless its broker is still active,
/// unified exec next and the environment last. The first failure ends the
/// recovery with it, and a completed recovery reports the environment's
/// outcome. An active broker ends it at once: at startup as if there were
/// no environment journal, at shutdown as a failure.
pub fn admin_recovery_step(at_shutdown: bool, event: AdminRecoveryEvent) -> (r: AdminRecoveryAction)
    ensures
        r == (match event {
            AdminRecoveryEvent::ComputerUse(None) => AdminRecoveryAction::Finish(
                Err(AdminRecoveryFailure::ComputerUse),
            ),
            AdminRecoveryEvent::ComputerUse(Some(ComputerUseRecoveryOutcome::ActiveBroker)) => {
                if at_shutdown {
                    AdminRecoveryAction::Finish(Err(AdminRecoveryFailure::BrokerStillActive))
                } else {
                    AdminRecoveryAction::Finish(Ok(EnvironmentRestoreOutcome::NoJournal))
                }
            },
            AdminRecoveryEvent::ComputerUse(Some(_)) => AdminRecoveryAction::RecoverUnifiedExec,
            AdminRecoveryEvent::UnifiedExec(false) => AdminRecoveryAction::Finish(
                Err(AdminRecoveryFailure::UnifiedExec),
            ),
            AdminRecoveryEvent::UnifiedExec(true) => AdminRecoveryAction::RecoverEnvironment,
            AdminRecoveryEvent::Environment(None) => AdminRecoveryAction::Finish(
                Err(AdminRecoveryFailure::Environment),
            ),
            AdminRecoveryEvent::Environment(Some(o)) => AdminRecoveryAction::Finish(Ok(o)),
        }),
{
    match event {
        AdminRecoveryEvent::ComputerUse(None) => AdminRecoveryAction::Finish(
            Err(AdminRecoveryFailure::ComputerUse),
        ),
        AdminRecoveryEvent::ComputerUse(Some(outcome)) => {
            if at_shutdown {
                match recover_stale_admin_mode_for_shutdown(outcome) {
                    Err(_) => AdminRecoveryAction::Finish(Err(AdminRecoveryFailure::BrokerStillActive)),
                    Ok(_) => AdminRecoveryAction::RecoverUnifiedExec,
                }
            } else {
                match recover_stale_admin_mode(outcome) {
                    AdminModeRecoveryStep::LeaveActiveBroker => AdminRecoveryAction::Finish(
                        Ok(active_broker_outcome()),
                    ),
                    AdminModeRecoveryStep::RecoverTransactions => AdminRecoveryAction::RecoverUnifiedExec,
                }
            }
        },
        AdminRecoveryEvent::UnifiedExec(ok) => {
            if ok {
                AdminRecoveryAction::RecoverEnvironment
            } else {
                AdminRecoveryAction::Finish(Err(AdminRecoveryFailure::UnifiedExec))
            }
        },
        AdminRecoveryEvent::Environment(outcome) => match outcome {
            None => AdminRecoveryAction::Finish(Err(AdminRecoveryFailure::Environment)),
            Some(o) => AdminRecoveryAction::Finish(Ok(o)),
        },
    }
}

/// The result reported when startup recovery leaves an active broker.
pub fn active_broker_outcome() -> (r: EnvironmentRestoreOutcome)
    ensures
        r == EnvironmentRestoreOutcome::NoJournal,
{
    EnvironmentRestoreOutcome::NoJournal
}

/// Only an elevated launcher at high integrity may start administrator mode.
pub fn launcher_is_elevated(identity: &WindowsIdentity) -> (r: bool)
    ensures
        r == (identity.elevated && identity.integrity_rid >= crate::shim::HIGH_INTEGRITY_RID),
{
    identity.elevated && identity.integrity_rid >= crate::shim::HIGH_INTEGRITY_RID
}

/// The names and files of one administrator session.
#[derive(Debug, Clone, PartialEq, Eq)]
pub struct AdminModeLayout {
    pub job_name: String,
    pub exec_pipe: String,
    pub computer_use_pipe: String,
    pub codex_exe: String,
    pub descriptor_path: String,
    pub proof_path: String,
}

/// The names and files of the session `session_id`: a job named after it,
/// the exec and Computer Use pipes, the packaged `codex.exe`, and the
/// descriptor with its proof next to it.
pub fn startup_layout(config: &AdminModeConfig, session_id: &str) -> (r: AdminModeLayout)
    ensures
        r.job_name@ == "codex-plus-admin-"@ + session_id@,
        r.exec_pipe@ == admin_pipe_name_spec(session_id@ + "-exec"@),
        r.computer_use_pipe@ == admin_pipe_name_spec(session_id@ + "-computer-use"@),
        r.codex_exe@ == join(join(config.app_dir@, "resources"@), "codex.exe"@),
        r.descriptor_path@ == descriptor_path_spec(config.state_dir@),
        r.proof_path@ == with_extension(descriptor_path_spec(config.state_dir@), "proof"@),
{
    let mut job: Vec<char> = Vec::new();
    push_str(&mut job, "codex-plus-admin-");
    push_str(&mut job, session_id);
    let mut exec: Vec<char> = Vec::new();
    push_str(&mut exec, session_id);
    push_str(&mut exec, "-exec");
    let mut cu: Vec<char> = Vec::new();
    push_str(&mut cu, session_id);
    push_str(&mut cu, "-computer-use");
    let exec_name = string_of(&exec);
    let cu_name = string_of(&cu);
    let resources = join_chars(&chars_of(config.app_dir.as_str()), &chars_of("resources"));
    let codex_exe = string_of(&join_chars(&resources, &chars_of("codex.exe")));
    let descriptor_path = computer_use_descriptor_path(config.state_dir.as_str());
    let proof_path = crate::computer_use::proof_path_for(descriptor_path.as_str());
    AdminModeLayout {
        job_name: string_of(&job),
        exec_pipe: admin_pipe_name(exec_name.as_str()),
        computer_use_pipe: admin_pipe_name(cu_name.as_str()),
        codex_exe,
        descriptor_path,
        proof_path,
    }
}

/// The app-server bootstrap of a started session: the terminal goes through
/// the exec pipe and session, with the session proof file.
pub fn app_server_bootstrap(
    official_codex_exe: String,
    terminal_shim_path: String,
    layout: &AdminModeLayout,
    session_id: &str,
) -> (r: AdminAppServerBootstrap)
    ensures
        r.official_codex_exe@ == official_codex_exe@,
        r.terminal_shim_path@ == terminal_shim_path@,
        r.terminal_pipe_name@ == layout.exec_pipe@,
        r.terminal_session_id@ == session_id@,
        r.terminal_proof_path@ == layout.proof_path@,
{
    AdminAppServerBootstrap {
        official_codex_exe,
        terminal_shim_path,
        terminal_pipe_name: layout.exec_pipe.clone(),
        terminal_session_id: session_id.to_owned(),
        terminal_proof_path: layout.proof_path.clone(),
    }
}

/// A fresh session id: a random UUID in lowercase hexadecimal without
/// hyphens; `None` where the system random source fails.
pub fn new_session_id() -> (r: Option<String>)
    ensures
        r matches Some(s) ==> exists|id: Seq<u8>| id.len() == 16 && s@ == #[trigger] crate::encoding::hex_lower(id),
{
    match crate::encoding::fresh_uuid_bytes() {
        None => None,
        Some(bytes) => Some(crate::encoding::to_hex_lower(bytes.as_slice())),
    }
}

/// A part of administrator mode that startup brings up.
#[derive(Debug, Clone, Copy, PartialEq, Eq, Structural)]
pub enum StartupPart {
    Exec,
    ComputerUse,
    Environment,
    UnifiedExec,
}

/// The parts that came up, in the order startup brings them up.
pub open spec fn started_parts(exec: bool, computer_use: bool, environment: bool, unified_exec: bool) -> Seq<StartupPart> {
    (if exec { seq![StartupPart::Exec] } else { seq![] }) + (if computer_use {
        seq![StartupPart::ComputerUse]
    } else {
        seq![]
    }) + (if environment { seq![StartupPart::Environment] } else { seq![] }) + (if unified_exec {
        seq![StartupPart::UnifiedExec]
    } else {
        seq![]
    })
}

/// What a failed startup undoes: every part that came up, the last one
/// first.
pub fn startup_rollback(exec: bool, computer_use: bool, environment: bool, unified_exec: bool) -> (r:
    Vec<StartupPart>)
    ensures
        r@ == started_parts(exec, computer_use, environment, unified_exec).reverse(),
{
    let mut r: Vec<StartupPart> = Vec::new();
    if unified_exec {
        r.push(StartupPart::UnifiedExec);
    }
    if environment {
        r.push(StartupPart::Environment);
    }
    if computer_use {
        r.push(StartupPart::ComputerUse);
    }
    if exec {
        r.push(StartupPart::Exec);
    }
    assert(r@ =~= started_parts(exec, computer_use, environment, unified_exec).reverse());
    r
}

/// A stage of starting administrator mode, in the order startup runs them.
#[derive(Debug, Clone, Copy, PartialEq, Eq, Structural)]
pub enum StartupStage {
    /// Recover what an earlier run left.
    Recover,
    /// Check that both shims are files.
    CheckShims,
    /// Check that the launcher is elevated at high integrity.
    CheckIdentity,
    /// Draw the session id and proof.
    CreateSession,
    /// Create the kill-on-close job.
    CreateJob,
    StartExec,
    VerifyExec,
    /// Find (or unpack) and configure the Computer Use artifacts.
    PrepareComputerUse,
    StartComputerUse,
    VerifyComputerUse,
    InstallEnvironment,
    InstallUnifiedExec,
}

/// The stage after `stage`, if any.
pub open spec fn next_stage(stage: StartupStage) -> Option<StartupStage> {
    match stage {
        StartupStage::Recover => Some(StartupStage::CheckShims),
        StartupStage::CheckShims => Some(StartupStage::CheckIdentity),
        StartupStage::CheckIdentity => Some(StartupStage::CreateSession),
        StartupStage::CreateSession => Some(StartupStage::CreateJob),
        StartupStage::CreateJob => Some(StartupStage::StartExec),
        StartupStage::StartExec => Some(StartupStage::VerifyExec),
        StartupStage::VerifyExec => Some(StartupStage::PrepareComputerUse),
        StartupStage::PrepareComputerUse => Some(StartupStage::StartComputerUse),
        StartupStage::StartComputerUse => Some(StartupStage::VerifyComputerUse),
        StartupStage::VerifyComputerUse => Some(StartupStage::InstallEnvironment),
        StartupStage::InstallEnvironment => Some(StartupStage::InstallUnifiedExec),
        StartupStage::InstallUnifiedExec => None,
    }
}

/// How far startup has come: the stage to run and the parts that are up.
#[derive(Debug, Clone, Copy, PartialEq, Eq, Structural)]
pub struct StartupProgress {
    pub stage: StartupStage,
    pub exec_up: bool,
    pub computer_use_up: bool,
    pub environment_up: bool,
    pub unified_exec_up: bool,
}

/// What startup does after a stage reported.
#[derive(Debug, Clone, PartialEq, Eq)]
pub enum StartupStep {
    /// Run the next stage.
    Continue(StartupProgress),
    /// Every stage succeeded.
    Ready,
    /// A stage failed: undo these parts, in this order, and fail.
    Abort(Vec<StartupPart>),
}

/// The progress once `stage` succeeded: the part it brings up is up.
pub open spec fn after_success(p: StartupProgress) -> StartupProgress {
    StartupProgress {
        exec_up: p.exec_up || p.stage == StartupStage::StartExec,
        computer_use_up: p.computer_use_up || p.stage == StartupStage::StartComputerUse,
        environment_up: p.environment_up || p.stage == StartupStage::InstallEnvironment,
        unified_exec_up: p.unified_exec_up || p.stage == StartupStage::InstallUnifiedExec,
        ..p
    }
}

/// Where startup begins: recovery, with nothing up.
pub fn startup_begin() -> (r: StartupProgress)
    ensures
        r == (StartupProgress {
            stage: StartupStage::Recover,
            exec_up: false,
            computer_use_up: false,
            environment_up: false,
            unified_exec_up: false,
        }),
{
    StartupProgress {
        stage: StartupStage::Recover,
        exec_up: false,
        computer_use_up: false,
        environment_up: false,
        unified_exec_up: false,
    }
}

/// One step of starting administrator mode: after a success the next stage
/// runs (recovery, the shims, the launcher's identity and the session all
/// come before the job, the exec broker before Computer Use, and both
/// brokers before the environment and unified exec), and the last success
/// makes it ready; after a failure every part that is up is undone, the
/// last one first.
pub fn startup_step(progress: StartupProgress, succeeded: bool) -> (r: StartupStep)
    ensures
        succeeded ==> (next_stage(progress.stage) matches Some(n) ==> r == StartupStep::Continue(
            (StartupProgress { stage: n, ..after_success(progress) }),
        )),
        succeeded && next_stage(progress.stage) is None ==> r == StartupStep::Ready,
        !succeeded ==> (r matches StartupStep::Abort(undo) && undo@ == started_parts(
            progress.exec_up,
            progress.computer_use_up,
            progress.environment_up,
            progress.unified_exec_up,
        ).reverse()),
{
    if !succeeded {
        return StartupStep::Abort(
            startup_rollback(
                progress.exec_up,
                progress.computer_use_up,
                progress.environment_up,
                progress.unified_exec_up,
            ),
        );
    }
    let up = StartupProgress {
        exec_up: progress.exec_up || progress.stage == StartupStage::StartExec,
        computer_use_up: progress.computer_use_up || progress.stage == StartupStage::StartComputerUse,
        environment_up: progress.environment_up || progress.stage == StartupStage::InstallEnvironment,
        unified_exec_up: progress.unified_exec_up || progress.stage == StartupStage::InstallUnifiedExec,
        ..progress
    };
    let next = match progress.stage {
        StartupStage::Recover => StartupStage::CheckShims,
        StartupStage::CheckShims => StartupStage::CheckIdentity,
        StartupStage::CheckIdentity => StartupStage::CreateSession,
        StartupStage::CreateSession => StartupStage::CreateJob,
        StartupStage::CreateJob => StartupStage::StartExec,
        StartupStage::StartExec => StartupStage::VerifyExec,
        StartupStage::VerifyExec => StartupStage::PrepareComputerUse,
        StartupStage::PrepareComputerUse => StartupStage::StartComputerUse,
        StartupStage::StartComputerUse => StartupStage::VerifyComputerUse,
        StartupStage::VerifyComputerUse => StartupStage::InstallEnvironment,
        StartupStage::InstallEnvironment => StartupStage::InstallUnifiedExec,
        StartupStage::InstallUnifiedExec => {
            return StartupStep::Ready;
        },
    };
    StartupStep::Continue(StartupProgress { stage: next, ..up })
}

/// The position of a startup stage in the order startup runs them.
pub open spec fn startup_stage_index(stage: StartupStage) -> nat {
    match stage {
        StartupStage::Recover => 0,
        StartupStage::CheckShims => 1,
        StartupStage::CheckIdentity => 2,
        StartupStage::CreateSession => 3,
        StartupStage::CreateJob => 4,
        StartupStage::StartExec => 5,
        StartupStage::VerifyExec => 6,
        StartupStage::PrepareComputerUse => 7,
        StartupStage::StartComputerUse => 8,
        StartupStage::VerifyComputerUse => 9,
        StartupStage::InstallEnvironment => 10,
        StartupStage::InstallUnifiedExec => 11,
    }
}

/// The progress after the first `k` startup stages succeeded, as
/// [`startup_step`] moves it, if startup is still running then.
pub open spec fn startup_progress_after(k: nat) -> Option<StartupProgress>
    decreases k,
{
    if k == 0 {
        Some(
            StartupProgress {
                stage: StartupStage::Recover,
                exec_up: false,
                computer_use_up: false,
                environment_up: false,
                unified_exec_up: false,
            },
        )
    } else {
        match startup_progress_after((k - 1) as nat) {
            Some(p) => match next_stage(p.stage) {
                Some(n) => Some(StartupProgress { stage: n, ..after_success(p) }),
                None => None,
            },
            None => None,
        }
    }
}

/// Law: when the first `k` startup stages succeeded, startup is at the
/// `k`-th stage and exactly the parts started so far are up: the exec
/// broker once `StartExec` succeeded (before it is verified), Computer Use
/// once `StartComputerUse` did, the environment once it is installed. A
/// failure there undoes each part that is up, later parts first (Computer
/// Use before exec, the environment before both), and nothing when none
/// is; the last stage's success leaves nothing to run.
pub proof fn lemma_startup_run(k: nat)
    requires
        k < 12,
    ensures
        startup_progress_after(k) matches Some(p) && startup_stage_index(p.stage) == k && p.exec_up == (k
            > 5) && p.computer_use_up == (k > 8) && p.environment_up == (k > 10) && !p.unified_exec_up
            && ({
            let u = started_parts(p.exec_up, p.computer_use_up, p.environment_up, p.unified_exec_up).reverse();
            &&& (u.contains(StartupPart::Exec) <==> k > 5)
            &&& (u.contains(StartupPart::ComputerUse) <==> k > 8)
            &&& (u.contains(StartupPart::Environment) <==> k > 10)
            &&& !u.contains(StartupPart::UnifiedExec)
            &&& u.len() == (if k > 5 { 1nat } else { 0 }) + (if k > 8 { 1nat } else { 0 }) + (if k > 10 {
                1nat
            } else {
                0
            })
            &&& (k > 5 ==> u.last() == StartupPart::Exec)
            &&& (k > 10 ==> u[0] == StartupPart::Environment)
            &&& (k > 8 ==> u[u.len() - 2] == StartupPart::ComputerUse)
        }) && (k == 11 ==> next_stage(p.stage) is None),
    decreases k,
{
    if k > 0 {
        lemma_startup_run((k - 1) as nat);
    }
    let p = startup_progress_after(k)->0;
    let f = started_parts(p.exec_up, p.computer_use_up, p.environment_up, p.unified_exec_up);
    let u = f.reverse();
    assert(forall|i: int| 0 <= i < u.len() ==> u[i] == f[f.len() - 1 - i]);
    if p.exec_up {
        assert(f[0] == StartupPart::Exec);
        assert(u[u.len() - 1] == StartupPart::Exec);
    }
    if p.computer_use_up {
        assert(f[1] == StartupPart::ComputerUse);
        assert(u[u.len() - 2] == StartupPart::ComputerUse);
    }
    if p.environment_up {
        assert(f[2] == StartupPart::Environment);
        assert(u[0] == StartupPart::Environment);
    }
    assert(u.contains(StartupPart::Exec) ==> f.contains(StartupPart::Exec));
    assert(u.contains(StartupPart::ComputerUse) ==> f.contains(StartupPart::ComputerUse));
    assert(u.contains(StartupPart::Environment) ==> f.contains(StartupPart::Environment));
    assert(u.contains(StartupPart::UnifiedExec) ==> f.contains(StartupPart::UnifiedExec));
}

/// A fresh session proof: 32 random bytes in URL-safe base64 without
/// padding; the bytes are wiped afterwards.
pub fn generate_proof() -> (r: Result<String, AdminModeError>)
    ensures
        r matches Ok(p) ==> exists|bytes: Seq<u8>| bytes.len() == 32 && p@ == base64_url_no_pad(bytes),
        r is Err ==> r == Err::<String, AdminModeError>(AdminModeError::RandomSourceFailed),
{
    match random_32_bytes() {
        None => Err(AdminModeError::RandomSourceFailed),
        Some(bytes) => {
            let mut bytes = bytes;
            let proof = base64_url_no_pad_encode(bytes.as_slice());
            let ghost original = bytes@;
            crate::shim::clear_secret(&mut bytes);
            assert(original.len() == 32 && proof@ == base64_url_no_pad(original));
            Ok(proof)
        },
    }
}

/// The first eight characters of a session id, for display.
pub fn session_id_prefix(session_id: &str) -> (r: String)
    ensures
        r@ == session_id@.take(if session_id@.len() < 8 {
            session_id@.len() as int
        } else {
            8
        }),
{
    let c = chars_of(session_id);
    let n = if c.len() < 8 {
        c.len()
    } else {
        8
    };
    string_of(&sub_chars(&c, 0, n))
}

/// Administrator mode's status as the app shows it.
#[derive(Debug, Clone, PartialEq, Eq)]
pub struct AdministratorModeStatus {
    pub requested: bool,
    pub state: String,
    pub exec_elevated: bool,
    pub computer_use_elevated: bool,
    pub error_component: Option<String>,
}

/// The status of a running session: exec is elevated only with its broker,
/// environment and unified exec all in place.
pub fn status(
    exec_running: bool,
    environment_installed: bool,
    unified_exec_installed: bool,
    computer_use_running: bool,
) -> (r: AdministratorModeStatus)
    ensures
        r.requested,
        r.state@ == "active"@,
        r.exec_elevated == (exec_running && environment_installed && unified_exec_installed),
        r.computer_use_elevated == computer_use_running,
        r.error_component is None,
{
    AdministratorModeStatus {
        requested: true,
        state: "active".to_owned(),
        exec_elevated: exec_running && environment_installed && unified_exec_installed,
        computer_use_elevated: computer_use_running,
        error_component: None,
    }
}

/// Which part of a shutdown failed first in reporting order.
#[derive(Debug, Clone, Copy, PartialEq, Eq, Structural)]
pub enum ShutdownFailure {
    EnvironmentCleanup,
    UnifiedExecCleanup,
    ComputerUseCleanup,
    ExecCleanup,
}

/// The result of a shutdown: all four parts are always attempted; the first
/// failure in the order environment, unified exec, Computer Use, exec is
/// reported, else the environment's outcome.
pub fn shutdown_result(
    environment: Result<EnvironmentRestoreOutcome, ()>,
    unified_exec_ok: bool,
    computer_use_ok: bool,
    exec_ok: bool,
) -> (r: Result<EnvironmentRestoreOutcome, ShutdownFailure>)
    ensures
        environment is Err ==> r == Err::<EnvironmentRestoreOutcome, ShutdownFailure>(
            ShutdownFailure::EnvironmentCleanup,
        ),
        environment is Ok && !unified_exec_ok ==> r == Err::<
            EnvironmentRestoreOutcome,
            ShutdownFailure,
        >(ShutdownFailure::UnifiedExecCleanup),
        environment is Ok && unified_exec_ok && !computer_use_ok ==> r == Err::<
            EnvironmentRestoreOutcome,
            ShutdownFailure,
        >(ShutdownFailure::ComputerUseCleanup),
        environment is Ok && unified_exec_ok && computer_use_ok && !exec_ok ==> r == Err::<
            EnvironmentRestoreOutcome,
            ShutdownFailure,
        >(ShutdownFailure::ExecCleanup),
        environment is Ok && unified_exec_ok && computer_use_ok && exec_ok ==> r == Ok::<
            EnvironmentRestoreOutcome,
            ShutdownFailure,
        >(environment->Ok_0),
{
    let outcome = match environment {
        Err(()) => {
            return Err(ShutdownFailure::EnvironmentCleanup);
        },
        Ok(o) => o,
    };
    if !unified_exec_ok {
        return Err(ShutdownFailure::UnifiedExecCleanup);
    }
    if !computer_use_ok {
        return Err(ShutdownFailure::ComputerUseCleanup);
    }
    if !exec_ok {
        return Err(ShutdownFailure::ExecCleanup);
    }
    Ok(outcome)
}

/// Which broker's health channel closed.
#[derive(Debug, Clone, Copy, PartialEq, Eq, Structural)]
pub enum HealthSource {
    Exec,
    ComputerUse,
}

/// What the merged health channel publishes, given the failures the two
/// brokers report: the exec broker's first, then Computer Use's.
pub fn merged_failure(exec: Option<String>, computer_use: Option<String>) -> (r: Option<String>)
    ensures
        exec is Some ==> r == exec,
        exec is None ==> r == computer_use,
{
    match exec {
        Some(f) => Some(f),
        None => computer_use,
    }
}

/// The failure published when a broker's health channel closes.
pub fn closed_channel_failure(source: HealthSource) -> (r: String)
    ensures
        source == HealthSource::Exec ==> r@ == "administrator exec broker health channel closed"@,
        source == HealthSource::ComputerUse ==> r@
            == "administrator Computer Use broker health channel closed"@,
{
    match source {
        HealthSource::Exec => "administrator exec broker health channel closed".to_owned(),
        HealthSource::ComputerUse => "administrator Computer Use broker health channel closed".to_owned(),
    }
}

} // verus!
