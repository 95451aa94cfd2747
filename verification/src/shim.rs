//! The client shims' decisions: how an invocation is classified from its
//! arguments and the administrator environment, the authentication hello
//! they send, the proof file they accept, the broker replies they accept,
//! and the command line of the elevated terminal host.
use vstd::prelude::*;
use vstd::utf8::encode_utf8;
use vstd::utf8::valid_utf8;
use vstd::utf8::decode_utf8;
use crate::text::str_views;
use crate::text::clone_strings_from;
use crate::text::lemma_str_views_push;
use crate::text::strings_contain;
use crate::text::utf8_bytes;
use crate::text::str_eq;
use crate::text::chars_of;
use crate::text::parse_unsigned_chars;
use crate::text::parse_unsigned;
use crate::text::push_str;
use crate::text::push_chars;
use crate::text::decimal_chars;
use crate::text::decimal;
use crate::text::lemma_parse_decimal;
use crate::text::string_of;
use crate::text::file_name;
use crate::text::file_name_chars;
use crate::text::eq_ignore_case;
use crate::text::chars_eq_ignore_case;
use crate::text::is_whitespace;
use crate::text::char_is_whitespace;
use crate::text::parent;
use crate::text::parent_chars;
use crate::text::join;
use crate::text::join_chars;
use crate::encoding::json_quoted;
use crate::encoding::json_string_literal;
use crate::encoding::string_from_utf8;

verus! {

/// Environment variable naming the administrator app-server pipe.
pub const APP_SERVER_PIPE_ENV: &'static str = "CODEX_PLUS_ADMIN_APP_SERVER_PIPE";

/// Environment variable naming the administrator app-server session.
pub const APP_SERVER_SESSION_ENV: &'static str = "CODEX_PLUS_ADMIN_APP_SERVER_SESSION";

/// Environment variable naming the administrator app-server proof file.
pub const APP_SERVER_PROOF_FILE_ENV: &'static str = "CODEX_PLUS_ADMIN_APP_SERVER_PROOF_FILE";

/// Environment variable naming the official Codex executable.
pub const OFFICIAL_CODEX_EXE_ENV: &'static str = "CODEX_PLUS_ADMIN_OFFICIAL_CODEX_EXE";

/// Environment variable naming the administrator terminal pipe.
pub const TERMINAL_PIPE_ENV: &'static str = "CODEX_PLUS_ADMIN_TERMINAL_PIPE";

/// Environment variable naming the administrator terminal session.
pub const TERMINAL_SESSION_ENV: &'static str = "CODEX_PLUS_ADMIN_TERMINAL_SESSION";

/// Environment variable naming the administrator terminal proof file.
pub const TERMINAL_PROOF_FILE_ENV: &'static str = "CODEX_PLUS_ADMIN_TERMINAL_PROOF_FILE";

/// Largest proof file, in bytes.
pub const MAX_PROOF_BYTES: usize = 4096;

/// Largest authentication hello, in bytes.
pub const MAX_HELLO_BYTES: usize = 65536;

/// Largest broker reply the shims read, in bytes.
pub const MAX_AUTH_RESPONSE_BYTES: usize = 4096;

/// Lowest integrity RID of an elevated (high integrity) process.
pub const HIGH_INTEGRITY_RID: u32 = 0x3000;

/// What a client shim connects to the broker for.
#[derive(Debug, Clone, Copy, PartialEq, Eq, Structural)]
pub enum Mode {
    Exec,
    ComputerUse,
    AppServer,
    Terminal,
}

/// A client invocation: which broker session to authenticate to and the
/// arguments to hand the elevated program.
#[derive(Debug, PartialEq, Eq)]
pub struct Options {
    pub mode: Mode,
    pub pipe: String,
    pub session: String,
    pub proof_file: String,
    pub helper_args: Vec<String>,
}

/// The model of [`Options`].
pub struct OptionsModel {
    pub mode: Mode,
    pub pipe: Seq<char>,
    pub session: Seq<char>,
    pub proof_file: Seq<char>,
    pub helper_args: Seq<Seq<char>>,
}

impl View for Options {
    type V = OptionsModel;

    open spec fn view(&self) -> OptionsModel {
        OptionsModel {
            mode: self.mode,
            pipe: self.pipe@,
            session: self.session@,
            proof_file: self.proof_file@,
            helper_args: str_views(self.helper_args@),
        }
    }
}

/// What the administrator shim was started to do.
#[derive(Debug, PartialEq, Eq)]
pub enum Invocation {
    Client(Options),
    IdentityProbe,
    TerminalHost { client_pid: u32, cwd: String, shell: String, shell_args: Vec<String> },
    Direct { executable: String, args: Vec<String> },
}

/// The model of [`Invocation`].
pub enum InvocationModel {
    Client(OptionsModel),
    IdentityProbe,
    TerminalHost {
        client_pid: u32,
        cwd: Seq<char>,
        shell: Seq<char>,
        shell_args: Seq<Seq<char>>,
    },
    Direct { executable: Seq<char>, args: Seq<Seq<char>> },
}

impl View for Invocation {
    type V = InvocationModel;

    open spec fn view(&self) -> InvocationModel {
        match self {
            Invocation::Client(o) => InvocationModel::Client(o@),
            Invocation::IdentityProbe => InvocationModel::IdentityProbe,
            Invocation::TerminalHost { client_pid, cwd, shell, shell_args } => {
                InvocationModel::TerminalHost {
                    client_pid: *client_pid,
                    cwd: cwd@,
                    shell: shell@,
                    shell_args: str_views(shell_args@),
                }
            },
            Invocation::Direct { executable, args } => InvocationModel::Direct {
                executable: executable@,
                args: str_views(args@),
            },
        }
    }
}

/// The administrator variables of the shim's environment, as read at start.
#[derive(Debug, PartialEq, Eq)]
pub struct ShimEnvironment {
    pub terminal_pipe: Option<String>,
    pub terminal_session: Option<String>,
    pub terminal_proof_file: Option<String>,
    pub app_server_pipe: Option<String>,
    pub app_server_session: Option<String>,
    pub app_server_proof_file: Option<String>,
    pub official_executable: Option<String>,
}

/// Why an invocation is refused.
#[derive(Debug, Clone, Copy, PartialEq, Eq, Structural)]
pub enum CliError {
    /// The first argument is neither `exec-client` nor `computer-use-client`.
    ExpectedClientMode,
    /// A required option is absent or out of place.
    MissingOption,
    /// A required option has no value.
    MissingOptionValue,
    /// A required option has an empty value.
    EmptyOptionValue,
    /// `exec-client` takes no further argument.
    UnexpectedExecArgument,
    /// `computer-use-client` needs `--` before the helper's arguments.
    ExpectedSeparator,
    /// `identity-probe` takes no further argument.
    UnexpectedIdentityProbeArgument,
    /// The terminal client pid is not a decimal `u32`.
    InvalidClientPid,
    /// Terminal-host shell arguments must follow `--`.
    ExpectedTerminalHostSeparator,
    /// The app-server pipe variable is not set.
    MissingAppServerPipe,
    /// The app-server session variable is not set.
    MissingAppServerSession,
    /// The app-server proof file variable is not set.
    MissingAppServerProofFile,
    /// The official Codex executable variable is not set.
    MissingOfficialExecutable,
    /// The terminal pipe variable is not set.
    MissingTerminalPipe,
    /// The terminal session variable is not set.
    MissingTerminalSession,
    /// The terminal proof file variable is not set.
    MissingTerminalProofFile,
}

/// The value of the option `name` expected at position `i`.
pub open spec fn option_at_spec(args: Seq<Seq<char>>, i: int, name: Seq<char>) -> Result<Seq<char>, CliError> {
    if i >= args.len() || args[i] != name {
        Err(CliError::MissingOption)
    } else if i + 1 >= args.len() {
        Err(CliError::MissingOptionValue)
    } else if args[i + 1].len() == 0 {
        Err(CliError::EmptyOptionValue)
    } else {
        Ok(args[i + 1])
    }
}

/// The options of a client invocation in `mode` (arguments after the mode).
pub open spec fn client_spec(args: Seq<Seq<char>>, mode: Mode) -> Result<OptionsModel, CliError> {
    match option_at_spec(args, 1, "--pipe"@) {
        Err(e) => Err(e),
        Ok(pipe) => match option_at_spec(args, 3, "--session"@) {
            Err(e) => Err(e),
            Ok(session) => match option_at_spec(args, 5, "--proof-file"@) {
                Err(e) => Err(e),
                Ok(proof_file) => if mode == Mode::Exec {
                    if args.len() > 7 {
                        Err(CliError::UnexpectedExecArgument)
                    } else {
                        Ok(OptionsModel { mode, pipe, session, proof_file, helper_args: seq![] })
                    }
                } else if args.len() <= 7 || args[7] != "--"@ {
                    Err(CliError::ExpectedSeparator)
                } else {
                    Ok(OptionsModel { mode, pipe, session, proof_file, helper_args: args.skip(8) })
                },
            },
        },
    }
}

/// `exec-client` or `computer-use-client` invocations.
pub open spec fn parse_args_spec(args: Seq<Seq<char>>) -> Result<OptionsModel, CliError> {
    if args.len() > 0 && args[0] == "exec-client"@ {
        client_spec(args, Mode::Exec)
    } else if args.len() > 0 && args[0] == "computer-use-client"@ {
        client_spec(args, Mode::ComputerUse)
    } else {
        Err(CliError::ExpectedClientMode)
    }
}

/// `terminal-host --client-pid P --cwd C --shell S [-- ARGS...]`.
pub open spec fn terminal_host_spec(args: Seq<Seq<char>>) -> Result<InvocationModel, CliError> {
    match option_at_spec(args, 1, "--client-pid"@) {
        Err(e) => Err(e),
        Ok(pid_text) => match parse_unsigned(pid_text, u32::MAX as nat) {
            None => Err(CliError::InvalidClientPid),
            Some(pid) => match option_at_spec(args, 3, "--cwd"@) {
                Err(e) => Err(e),
                Ok(cwd) => match option_at_spec(args, 5, "--shell"@) {
                    Err(e) => Err(e),
                    Ok(shell) => if args.len() > 7 {
                        if args[7] != "--"@ {
                            Err(CliError::ExpectedTerminalHostSeparator)
                        } else {
                            Ok(
                                InvocationModel::TerminalHost {
                                    client_pid: pid as u32,
                                    cwd,
                                    shell,
                                    shell_args: args.skip(8),
                                },
                            )
                        }
                    } else {
                        Ok(
                            InvocationModel::TerminalHost {
                                client_pid: pid as u32,
                                cwd,
                                shell,
                                shell_args: seq![],
                            },
                        )
                    },
                },
            },
        },
    }
}

/// The view of an optional `String`.
pub open spec fn opt_view(o: Option<String>) -> Option<Seq<char>> {
    match o {
        Some(s) => Some(s@),
        None => None,
    }
}

/// How the administrator shim classifies its invocation.
pub open spec fn parse_invocation_spec(args: Seq<Seq<char>>, env: ShimEnvironment) -> Result<
    InvocationModel,
    CliError,
> {
    if args.len() > 0 && args[0] == "identity-probe"@ {
        if args.len() == 1 {
            Ok(InvocationModel::IdentityProbe)
        } else {
            Err(CliError::UnexpectedIdentityProbeArgument)
        }
    } else if args.len() > 0 && args[0] == "terminal-host"@ {
        terminal_host_spec(args)
    } else if args.len() > 0 && (args[0] == "exec-client"@ || args[0] == "computer-use-client"@) {
        match parse_args_spec(args) {
            Ok(o) => Ok(InvocationModel::Client(o)),
            Err(e) => Err(e),
        }
    } else if env.terminal_pipe is Some && env.terminal_session is Some
        && env.terminal_proof_file is Some {
        Ok(
            InvocationModel::Client(
                OptionsModel {
                    mode: Mode::Terminal,
                    pipe: opt_view(env.terminal_pipe)->0,
                    session: opt_view(env.terminal_session)->0,
                    proof_file: opt_view(env.terminal_proof_file)->0,
                    helper_args: args,
                },
            ),
        )
    } else if args.contains("app-server"@) {
        if env.app_server_pipe is None {
            Err(CliError::MissingAppServerPipe)
        } else if env.app_server_session is None {
            Err(CliError::MissingAppServerSession)
        } else if env.app_server_proof_file is None {
            Err(CliError::MissingAppServerProofFile)
        } else if env.official_executable is None {
            Err(CliError::MissingOfficialExecutable)
        } else {
            Ok(
                InvocationModel::Client(
                    OptionsModel {
                        mode: Mode::AppServer,
                        pipe: opt_view(env.app_server_pipe)->0,
                        session: opt_view(env.app_server_session)->0,
                        proof_file: opt_view(env.app_server_proof_file)->0,
                        helper_args: args,
                    },
                ),
            )
        }
    } else if env.official_executable is Some {
        Ok(
            InvocationModel::Direct {
                executable: opt_view(env.official_executable)->0,
                args,
            },
        )
    } else {
        Err(CliError::MissingOfficialExecutable)
    }
}

fn clone_opt(o: &Option<String>) -> (r: Option<String>)
    ensures
        opt_view(r) == opt_view(*o),
{
    match o {
        Some(s) => Some(s.clone()),
        None => None,
    }
}

/// The value of the option `name` expected at position `i` of `args`.
pub fn required_option(args: &Vec<String>, i: usize, name: &str) -> (r: Result<String, CliError>)
    ensures
        r matches Ok(v) ==> option_at_spec(str_views(args@), i as int, name@) == Ok::<
            Seq<char>,
            CliError,
        >(v@),
        r matches Err(e) ==> option_at_spec(str_views(args@), i as int, name@) == Err::<
            Seq<char>,
            CliError,
        >(e),
{
    if i >= args.len() || !str_eq(args[i].as_str(), name) {
        return Err(CliError::MissingOption);
    }
    if i + 1 >= args.len() {
        return Err(CliError::MissingOptionValue);
    }
    if args[i + 1].as_str().is_empty() {
        return Err(CliError::EmptyOptionValue);
    }
    Ok(args[i + 1].clone())
}

fn client_options(args: &Vec<String>, mode: Mode) -> (r: Result<Options, CliError>)
    requires
        mode == Mode::Exec || mode == Mode::ComputerUse,
    ensures
        r matches Ok(o) ==> client_spec(str_views(args@), mode) == Ok::<OptionsModel, CliError>(
            o@,
        ),
        r matches Err(e) ==> client_spec(str_views(args@), mode) == Err::<OptionsModel, CliError>(
            e,
        ),
{
    let pipe = required_option(args, 1, "--pipe")?;
    let session = required_option(args, 3, "--session")?;
    let proof_file = required_option(args, 5, "--proof-file")?;
    if mode == Mode::Exec {
        if args.len() > 7 {
            return Err(CliError::UnexpectedExecArgument);
        }
        let helper_args: Vec<String> = Vec::new();
        assert(str_views(helper_args@) =~= Seq::<Seq<char>>::empty());
        return Ok(Options { mode, pipe, session, proof_file, helper_args });
    }
    if args.len() <= 7 || !str_eq(args[7].as_str(), "--") {
        return Err(CliError::ExpectedSeparator);
    }
    let helper_args = clone_strings_from(args, 8);
    Ok(Options { mode, pipe, session, proof_file, helper_args })
}

/// Parses an `exec-client` or `computer-use-client` invocation.
pub fn parse_args(args: Vec<String>) -> (r: Result<Options, CliError>)
    ensures
        r matches Ok(o) ==> parse_args_spec(str_views(args@)) == Ok::<OptionsModel, CliError>(o@),
        r matches Err(e) ==> parse_args_spec(str_views(args@)) == Err::<OptionsModel, CliError>(e),
{
    if args.len() > 0 && str_eq(args[0].as_str(), "exec-client") {
        client_options(&args, Mode::Exec)
    } else if args.len() > 0 && str_eq(args[0].as_str(), "computer-use-client") {
        client_options(&args, Mode::ComputerUse)
    } else {
        Err(CliError::ExpectedClientMode)
    }
}

fn parse_terminal_host(args: &Vec<String>) -> (r: Result<Invocation, CliError>)
    ensures
        r matches Ok(i) ==> terminal_host_spec(str_views(args@)) == Ok::<InvocationModel, CliError>(
            i@,
        ),
        r matches Err(e) ==> terminal_host_spec(str_views(args@)) == Err::<
            InvocationModel,
            CliError,
        >(e),
{
    let pid_text = required_option(args, 1, "--client-pid")?;
    let pid_chars = chars_of(pid_text.as_str());
    let client_pid = match parse_unsigned_chars(&pid_chars, 4294967295) {
        Some(pid) => pid as u32,
        None => {
            return Err(CliError::InvalidClientPid);
        },
    };
    let cwd = required_option(args, 3, "--cwd")?;
    let shell = required_option(args, 5, "--shell")?;
    let shell_args = if args.len() > 7 {
        if !str_eq(args[7].as_str(), "--") {
            return Err(CliError::ExpectedTerminalHostSeparator);
        }
        clone_strings_from(args, 8)
    } else {
        let v: Vec<String> = Vec::new();
        assert(str_views(v@) =~= Seq::<Seq<char>>::empty());
        v
    };
    Ok(Invocation::TerminalHost { client_pid, cwd, shell, shell_args })
}

/// Classifies an administrator shim invocation from its arguments (program
/// name excluded) and the administrator environment variables.
pub fn parse_invocation_with_env(args: Vec<String>, env: &ShimEnvironment) -> (r: Result<
    Invocation,
    CliError,
>)
    ensures
        r matches Ok(i) ==> parse_invocation_spec(str_views(args@), *env) == Ok::<
            InvocationModel,
            CliError,
        >(i@),
        r matches Err(e) ==> parse_invocation_spec(str_views(args@), *env) == Err::<
            InvocationModel,
            CliError,
        >(e),
{
    let first_is = |name: &str| -> (b: bool)
        ensures
            b == (args@.len() > 0 && str_views(args@)[0] == name@),
        { args.len() > 0 && str_eq(args[0].as_str(), name) };
    if first_is("identity-probe") {
        if args.len() == 1 {
            return Ok(Invocation::IdentityProbe);
        }
        return Err(CliError::UnexpectedIdentityProbeArgument);
    }
    if first_is("terminal-host") {
        return parse_terminal_host(&args);
    }
    if first_is("exec-client") || first_is("computer-use-client") {
        return match parse_args(args) {
            Ok(o) => Ok(Invocation::Client(o)),
            Err(e) => Err(e),
        };
    }
    if let (Some(pipe), Some(session), Some(proof_file)) = (
        &env.terminal_pipe,
        &env.terminal_session,
        &env.terminal_proof_file,
    ) {
        return Ok(
            Invocation::Client(
                Options {
                    mode: Mode::Terminal,
                    pipe: pipe.clone(),
                    session: session.clone(),
                    proof_file: proof_file.clone(),
                    helper_args: args,
                },
            ),
        );
    }
    let official = clone_opt(&env.official_executable);
    if strings_contain(&args, "app-server") {
        let pipe = match clone_opt(&env.app_server_pipe) {
            Some(p) => p,
            None => {
                return Err(CliError::MissingAppServerPipe);
            },
        };
        let session = match clone_opt(&env.app_server_session) {
            Some(s) => s,
            None => {
                return Err(CliError::MissingAppServerSession);
            },
        };
        let proof_file = match clone_opt(&env.app_server_proof_file) {
            Some(p) => p,
            None => {
                return Err(CliError::MissingAppServerProofFile);
            },
        };
        if official.is_none() {
            return Err(CliError::MissingOfficialExecutable);
        }
        return Ok(
            Invocation::Client(
                Options { mode: Mode::AppServer, pipe, session, proof_file, helper_args: args },
            ),
        );
    }
    match official {
        Some(executable) => Ok(Invocation::Direct { executable, args }),
        None => Err(CliError::MissingOfficialExecutable),
    }
}

/// The options of the terminal compatibility shim: the working directory
/// followed by its own arguments, for the session the environment names.
pub fn terminal_options_from_environment(
    cwd: String,
    args: Vec<String>,
    pipe: Option<String>,
    session: Option<String>,
    proof_file: Option<String>,
) -> (r: Result<Options, CliError>)
    ensures
        pipe is None ==> r == Err::<Options, CliError>(CliError::MissingTerminalPipe),
        pipe is Some && session is None ==> r == Err::<Options, CliError>(
            CliError::MissingTerminalSession,
        ),
        pipe is Some && session is Some && proof_file is None ==> r == Err::<Options, CliError>(
            CliError::MissingTerminalProofFile,
        ),
        pipe is Some && session is Some && proof_file is Some ==> (r matches Ok(o) && o@
            == OptionsModel {
            mode: Mode::Terminal,
            pipe: opt_view(pipe)->0,
            session: opt_view(session)->0,
            proof_file: opt_view(proof_file)->0,
            helper_args: seq![cwd@] + str_views(args@),
        }),
{
    let mut helper_args: Vec<String> = Vec::new();
    let ghost c = cwd@;
    helper_args.push(cwd);
    let mut i: usize = 0;
    while i < args.len()
        invariant
            i <= args.len(),
            str_views(helper_args@) == seq![c] + str_views(args@).take(i as int),
        decreases args.len() - i,
    {
        let ghost before = helper_args@;
        let s = args[i].clone();
        helper_args.push(s);
        proof {
            lemma_str_views_push(before, s);
            assert(str_views(args@).take(i + 1) =~= str_views(args@).take(i as int).push(
                args@[i as int]@,
            ));
        }
        i += 1;
    }
    assert(str_views(args@).take(args.len() as int) =~= str_views(args@));
    let pipe = match pipe {
        Some(p) => p,
        None => {
            return Err(CliError::MissingTerminalPipe);
        },
    };
    let session = match session {
        Some(s) => s,
        None => {
            return Err(CliError::MissingTerminalSession);
        },
    };
    let proof_file = match proof_file {
        Some(p) => p,
        None => {
            return Err(CliError::MissingTerminalProofFile);
        },
    };
    Ok(Options { mode: Mode::Terminal, pipe, session, proof_file, helper_args })
}

/// The identity probe's one-line record.
pub open spec fn identity_record(user_sid: Seq<char>, logon_sid: Seq<char>, rid: u32) -> Seq<char> {
    "SID="@ + user_sid + ";LOGON="@ + logon_sid + ";RID="@ + decimal(rid as nat) + "\n"@
}

/// Formats the identity probe's record of the current token.
pub fn format_identity_probe_record(user_sid: &str, logon_sid: &str, integrity_rid: u32) -> (r:
    String)
    ensures
        r@ == identity_record(user_sid@, logon_sid@, integrity_rid),
{
    let mut v: Vec<char> = Vec::new();
    push_str(&mut v, "SID=");
    push_str(&mut v, user_sid);
    push_str(&mut v, ";LOGON=");
    push_str(&mut v, logon_sid);
    push_str(&mut v, ";RID=");
    let digits = decimal_chars(integrity_rid as u64);
    push_chars(&mut v, &digits);
    push_str(&mut v, "\n");
    string_of(&v)
}

/// Whether a shell path names PowerShell 7 (`pwsh.exe`) or Windows
/// PowerShell 5.1 (`powershell.exe`), ignoring ASCII case.
pub open spec fn supported_terminal_shell(path: Seq<char>) -> bool {
    match file_name(path) {
        Some(name) => eq_ignore_case(name, "pwsh.exe"@) || eq_ignore_case(name, "powershell.exe"@),
        None => false,
    }
}

/// Whether the elevated terminal may start this shell.
pub fn is_supported_terminal_shell(path: &str) -> (r: bool)
    ensures
        r == supported_terminal_shell(path@),
{
    let p = chars_of(path);
    match file_name_chars(&p) {
        Some(name) => {
            let pwsh = chars_of("pwsh.exe");
            let powershell = chars_of("powershell.exe");
            chars_eq_ignore_case(&name, &pwsh) || chars_eq_ignore_case(&name, &powershell)
        },
        None => false,
    }
}

/// `n` backslashes.
pub open spec fn backslashes(n: nat) -> Seq<char> {
    Seq::new(n, |i: int| '\\')
}

/// The inside of a quoted Windows argument, with `pending` backslashes read
/// but not yet written.
pub open spec fn quote_body(s: Seq<char>, pending: nat) -> Seq<char>
    decreases s.len(),
{
    if s.len() == 0 {
        backslashes(2 * pending)
    } else if s[0] == '\\' {
        quote_body(s.drop_first(), pending + 1)
    } else if s[0] == '"' {
        backslashes(2 * pending + 1) + seq!['"'] + quote_body(s.drop_first(), 0)
    } else {
        backslashes(pending) + seq![s[0]] + quote_body(s.drop_first(), 0)
    }
}

/// Whether an argument must be quoted on a Windows command line.
pub open spec fn needs_quotes(s: Seq<char>) -> bool {
    s.len() == 0 || exists|i: int| 0 <= i < s.len() && (is_whitespace(s[i]) || s[i] == '"')
}

/// One argument as it stands on a Windows command line.
pub open spec fn quoted_argument(s: Seq<char>) -> Seq<char> {
    if needs_quotes(s) {
        seq!['"'] + quote_body(s, 0) + seq!['"']
    } else {
        s
    }
}

fn push_backslashes(v: &mut Vec<char>, n: usize)
    ensures
        final(v)@ == old(v)@ + backslashes(n as nat),
{
    let ghost start = v@;
    let mut i: usize = 0;
    while i < n
        invariant
            i <= n,
            v@ == start + backslashes(i as nat),
        decreases n - i,
    {
        v.push('\\');
        i += 1;
        assert(backslashes(i as nat) =~= backslashes((i - 1) as nat).push('\\'));
    }
}

/// Quotes one argument for a Windows command line so that the standard
/// argument splitting reads it back unchanged.
pub fn quote_windows_argument(argument: &str) -> (r: String)
    ensures
        r@ == quoted_argument(argument@),
{
    let s = chars_of(argument);
    let mut plain = s.len() > 0;
    let mut k: usize = 0;
    while k < s.len()
        invariant
            k <= s.len(),
            s@ == argument@,
            plain == (s.len() > 0 && forall|j: int|
                0 <= j < k ==> !(is_whitespace(s@[j]) || s@[j] == '"')),
        decreases s.len() - k,
    {
        if char_is_whitespace(s[k]) || s[k] == '"' {
            plain = false;
        }
        k += 1;
    }
    if plain {
        return string_of(&s);
    }
    let mut out: Vec<char> = Vec::new();
    out.push('"');
    let mut pending: usize = 0;
    let mut i: usize = 0;
    assert(s@.skip(0) == s@);
    while i < s.len()
        invariant
            i <= s.len(),
            pending <= i,
            out@ + quote_body(s@.skip(i as int), pending as nat) == seq!['"'] + quote_body(s@, 0),
        decreases s.len() - i,
    {
        let c = s[i];
        let ghost rest = s@.skip(i as int);
        assert(rest.drop_first() == s@.skip(i + 1));
        if c == '\\' {
            pending += 1;
        } else if c == '"' {
            push_backslashes(&mut out, pending);
            push_backslashes(&mut out, pending);
            out.push('\\');
            assert(backslashes(pending as nat) + backslashes(pending as nat) + seq!['\\']
                =~= backslashes(2 * pending as nat + 1));
            out.push('"');
            pending = 0;
            assert(out@ + quote_body(s@.skip(i + 1), 0) =~= seq!['"'] + quote_body(s@, 0));
        } else {
            push_backslashes(&mut out, pending);
            out.push(c);
            pending = 0;
            assert(out@ + quote_body(s@.skip(i + 1), 0) =~= seq!['"'] + quote_body(s@, 0));
        }
        i += 1;
    }
    push_backslashes(&mut out, pending);
    push_backslashes(&mut out, pending);
    assert(backslashes(pending as nat) + backslashes(pending as nat) =~= backslashes(
        2 * pending as nat,
    ));
    out.push('"');
    assert(out@ =~= seq!['"'] + quote_body(s@, 0) + seq!['"']);
    string_of(&out)
}

/// Whether a character separates arguments on a Windows command line.
pub open spec fn is_arg_separator(c: char) -> bool {
    c == ' ' || c == '\t'
}

/// Reads one argument from the start of a Windows command line by the rules
/// `CommandLineToArgvW` documents, `in_quotes` telling whether a quoted part
/// is open and `pending` how many backslashes were read just before: `2n`
/// backslashes and a `"` give `n` backslashes and open or close a quoted
/// part, `2n + 1` backslashes and a `"` give `n` backslashes and a literal
/// `"`, other backslashes are literal, and outside a quoted part a space or
/// tab ends the argument. The result is the argument and the rest of the
/// line from the separator that ended it.
pub open spec fn argv_read(t: Seq<char>, in_quotes: bool, pending: nat) -> (Seq<char>, Seq<char>)
    decreases t.len(),
{
    if t.len() == 0 {
        (backslashes(pending), Seq::empty())
    } else if t[0] == '\\' {
        argv_read(t.drop_first(), in_quotes, pending + 1)
    } else if t[0] == '"' {
        if pending % 2 == 1 {
            let (a, r) = argv_read(t.drop_first(), in_quotes, 0);
            (backslashes(pending / 2) + seq!['"'] + a, r)
        } else {
            let (a, r) = argv_read(t.drop_first(), !in_quotes, 0);
            (backslashes(pending / 2) + a, r)
        }
    } else if !in_quotes && is_arg_separator(t[0]) {
        (backslashes(pending), t)
    } else {
        let (a, r) = argv_read(t.drop_first(), in_quotes, 0);
        (backslashes(pending) + seq![t[0]] + a, r)
    }
}

/// A command line without its leading separators.
pub open spec fn skip_separators(t: Seq<char>) -> Seq<char>
    decreases t.len(),
{
    if t.len() > 0 && is_arg_separator(t[0]) {
        skip_separators(t.drop_first())
    } else {
        t
    }
}

/// The arguments of a command line, reading at most `fuel` of them.
pub open spec fn argv_split_from(t: Seq<char>, fuel: nat) -> Seq<Seq<char>>
    decreases fuel,
{
    if fuel == 0 {
        seq![]
    } else {
        let s = skip_separators(t);
        if s.len() == 0 {
            seq![]
        } else {
            let (a, r) = argv_read(s, false, 0);
            seq![a] + argv_split_from(r, (fuel - 1) as nat)
        }
    }
}

/// The arguments a Windows program reads from its command line (a line of
/// `n` characters has at most `n` arguments).
pub open spec fn argv_split(t: Seq<char>) -> Seq<Seq<char>> {
    argv_split_from(t, t.len())
}

/// Reading past backslashes counts them.
proof fn lemma_argv_backslashes(k: nat, t: Seq<char>, in_quotes: bool, pending: nat)
    ensures
        argv_read(backslashes(k) + t, in_quotes, pending) == argv_read(t, in_quotes, pending + k),
    decreases k,
{
    if k > 0 {
        let u = backslashes(k) + t;
        assert(u[0] == '\\');
        assert(u.drop_first() =~= backslashes((k - 1) as nat) + t);
        lemma_argv_backslashes((k - 1) as nat, t, in_quotes, pending + 1);
    } else {
        assert(backslashes(0) + t =~= t);
    }
}

/// Whether a text ends an argument: nothing, or a separator first.
pub open spec fn ends_argument(tail: Seq<char>) -> bool {
    tail.len() == 0 || is_arg_separator(tail[0])
}

/// Inside a quoted part, the quoted body of `s` (with `p` backslashes still
/// owed) and its closing quote read back as `p` backslashes and `s`.
proof fn lemma_argv_quote_body(s: Seq<char>, p: nat, tail: Seq<char>)
    requires
        ends_argument(tail),
    ensures
        argv_read(quote_body(s, p) + seq!['"'] + tail, true, 0) == (backslashes(p) + s, tail),
    decreases s.len(),
{
    if s.len() == 0 {
        let t = seq!['"'] + tail;
        assert(quote_body(s, p) + seq!['"'] + tail =~= backslashes(2 * p) + t);
        lemma_argv_backslashes(2 * p, t, true, 0);
        assert(t.drop_first() =~= tail);
        assert((2 * p) / 2 == p) by (nonlinear_arith);
        assert(argv_read(tail, false, 0) == (Seq::<char>::empty(), tail)) by {
            if tail.len() > 0 {
                assert(backslashes(0) =~= Seq::<char>::empty());
            } else {
                assert(tail =~= Seq::<char>::empty());
                assert(backslashes(0) =~= Seq::<char>::empty());
            }
        }
        assert(backslashes(p) + Seq::<char>::empty() =~= backslashes(p) + s);
    } else if s[0] == '\\' {
        lemma_argv_quote_body(s.drop_first(), p + 1, tail);
        assert(backslashes(p + 1) + s.drop_first() =~= backslashes(p) + s);
    } else if s[0] == '"' {
        let rest = quote_body(s.drop_first(), 0) + seq!['"'] + tail;
        let t = seq!['"'] + rest;
        assert(quote_body(s, p) + seq!['"'] + tail =~= backslashes(2 * p + 1) + t);
        lemma_argv_backslashes(2 * p + 1, t, true, 0);
        assert(t.drop_first() =~= rest);
        assert((2 * p + 1) % 2 == 1 && (2 * p + 1) / 2 == p) by (nonlinear_arith);
        lemma_argv_quote_body(s.drop_first(), 0, tail);
        assert(backslashes(0) + s.drop_first() =~= s.drop_first());
        assert(backslashes(p) + seq!['"'] + s.drop_first() =~= backslashes(p) + s);
    } else {
        let rest = quote_body(s.drop_first(), 0) + seq!['"'] + tail;
        let t = seq![s[0]] + rest;
        assert(quote_body(s, p) + seq!['"'] + tail =~= backslashes(p) + t);
        lemma_argv_backslashes(p, t, true, 0);
        assert(t.drop_first() =~= rest);
        lemma_argv_quote_body(s.drop_first(), 0, tail);
        assert(backslashes(0) + s.drop_first() =~= s.drop_first());
        assert(backslashes(p) + seq![s[0]] + s.drop_first() =~= backslashes(p) + s);
    }
}

/// An argument without separators or quotes reads back as itself.
proof fn lemma_argv_plain(s: Seq<char>, p: nat, tail: Seq<char>)
    requires
        ends_argument(tail),
        forall|i: int| 0 <= i < s.len() ==> !is_whitespace(#[trigger] s[i]) && s[i] != '"',
    ensures
        argv_read(s + tail, false, p) == (backslashes(p) + s, tail),
    decreases s.len(),
{
    if s.len() == 0 {
        assert(s + tail =~= tail);
        if tail.len() == 0 {
            assert(tail =~= Seq::<char>::empty());
        }
        assert(backslashes(p) + s =~= backslashes(p));
    } else {
        let u = s + tail;
        assert(u[0] == s[0]);
        assert(u.drop_first() =~= s.drop_first() + tail);
        assert(!is_whitespace(s[0]) && s[0] != '"');
        lemma_argv_plain(s.drop_first(), if s[0] == '\\' { p + 1 } else { 0 }, tail);
        if s[0] == '\\' {
            assert(backslashes(p + 1) + s.drop_first() =~= backslashes(p) + s);
        } else {
            assert(backslashes(0) + s.drop_first() =~= s.drop_first());
            assert(backslashes(p) + seq![s[0]] + s.drop_first() =~= backslashes(p) + s);
        }
    }
}

/// Law: a quoted argument reads back exactly as the argument, up to the
/// separator or end after it; in particular every `"` of the argument is
/// escaped by an odd number of backslashes in its quoted form.
pub proof fn lemma_quoted_argument_reads_back(s: Seq<char>, tail: Seq<char>)
    requires
        ends_argument(tail),
    ensures
        argv_read(quoted_argument(s) + tail, false, 0) == (s, tail),
{
    if needs_quotes(s) {
        let t = seq!['"'] + (quote_body(s, 0) + seq!['"'] + tail);
        assert(quoted_argument(s) + tail =~= t);
        assert(t.drop_first() =~= quote_body(s, 0) + seq!['"'] + tail);
        lemma_argv_quote_body(s, 0, tail);
        assert(backslashes(0) + s =~= s);
        assert(backslashes(0) =~= Seq::<char>::empty());
    } else {
        assert forall|i: int| 0 <= i < s.len() implies !is_whitespace(#[trigger] s[i]) && s[i] != '"' by {
            if is_whitespace(s[i]) || s[i] == '"' {
                assert(needs_quotes(s));
            }
        }
        lemma_argv_plain(s, 0, tail);
        assert(backslashes(0) + s =~= s);
    }
}

/// Arguments joined by single spaces.
pub open spec fn join_spaced(parts: Seq<Seq<char>>) -> Seq<char>
    decreases parts.len(),
{
    if parts.len() == 0 {
        Seq::empty()
    } else if parts.len() == 1 {
        parts[0]
    } else {
        join_spaced(parts.drop_last()) + seq![' '] + parts.last()
    }
}

/// Joined arguments split off their first one.
proof fn lemma_join_spaced_first(parts: Seq<Seq<char>>)
    requires
        parts.len() >= 1,
    ensures
        join_spaced(parts) == parts[0] + if parts.len() == 1 {
            Seq::<char>::empty()
        } else {
            seq![' '] + join_spaced(parts.drop_first())
        },
    decreases parts.len(),
{
    if parts.len() == 1 {
        assert(parts[0] + Seq::<char>::empty() =~= parts[0]);
    } else if parts.len() == 2 {
        assert(parts.drop_first().len() == 1);
        assert(join_spaced(parts.drop_last()) == parts[0]);
        assert(join_spaced(parts.drop_first()) == parts[1]);
        assert(parts[0] + (seq![' '] + parts[1]) =~= parts[0] + seq![' '] + parts[1]);
    } else {
        lemma_join_spaced_first(parts.drop_last());
        let d = parts.drop_first();
        assert(parts.drop_last().drop_first() =~= d.drop_last());
        assert(d.last() == parts.last());
        assert(join_spaced(d) == join_spaced(d.drop_last()) + seq![' '] + d.last());
        assert(parts.drop_last()[0] == parts[0]);
        assert(join_spaced(parts) =~= parts[0] + (seq![' '] + join_spaced(d)));
    }
}

/// The quoted form of an argument is not empty and does not start with a
/// separator.
proof fn lemma_quoted_argument_starts(s: Seq<char>)
    ensures
        quoted_argument(s).len() > 0,
        !is_arg_separator(quoted_argument(s)[0]),
{
    if !needs_quotes(s) {
        assert(!is_whitespace(s[0]));
    }
}

/// Splitting after a leading space is splitting the rest.
proof fn lemma_argv_split_space(x: Seq<char>, fuel: nat)
    ensures
        argv_split_from(seq![' '] + x, fuel) == argv_split_from(x, fuel),
{
    let t = seq![' '] + x;
    assert(t.drop_first() =~= x);
    assert(skip_separators(t) == skip_separators(x));
}

/// Joined quoted arguments split back into the arguments, given fuel for
/// each of them.
proof fn lemma_argv_split_join(args: Seq<Seq<char>>, fuel: nat)
    requires
        fuel >= args.len(),
    ensures
        argv_split_from(join_spaced(args.map_values(|a: Seq<char>| quoted_argument(a))), fuel) == args,
    decreases args.len(),
{
    let q = args.map_values(|a: Seq<char>| quoted_argument(a));
    if args.len() == 0 {
        assert(join_spaced(q) =~= Seq::<char>::empty());
        assert(args =~= Seq::<Seq<char>>::empty());
        if fuel > 0 {
            assert(skip_separators(Seq::<char>::empty()) =~= Seq::<char>::empty());
        }
    } else {
        lemma_join_spaced_first(q);
        let rest: Seq<char> = if q.len() == 1 {
            Seq::<char>::empty()
        } else {
            seq![' '] + join_spaced(q.drop_first())
        };
        let t = join_spaced(q);
        assert(t == q[0] + rest);
        lemma_quoted_argument_starts(args[0]);
        assert(q[0] == quoted_argument(args[0]));
        assert(t[0] == q[0][0]);
        assert(skip_separators(t) == t);
        assert(ends_argument(rest));
        lemma_quoted_argument_reads_back(args[0], rest);
        let tail = args.drop_first();
        assert(q.drop_first() =~= tail.map_values(|a: Seq<char>| quoted_argument(a)));
        lemma_argv_split_join(tail, (fuel - 1) as nat);
        if q.len() == 1 {
            assert(tail =~= Seq::<Seq<char>>::empty());
            assert(argv_split_from(rest, (fuel - 1) as nat) =~= Seq::<Seq<char>>::empty()) by {
                if fuel - 1 > 0 {
                    assert(skip_separators(rest) =~= Seq::<char>::empty());
                }
            }
        } else {
            lemma_argv_split_space(join_spaced(q.drop_first()), (fuel - 1) as nat);
        }
        assert(seq![args[0]] + tail =~= args);
    }
}

/// A joined line of non-empty parts is at least as long as their number.
proof fn lemma_join_spaced_len(parts: Seq<Seq<char>>)
    requires
        forall|i: int| 0 <= i < parts.len() ==> (#[trigger] parts[i]).len() > 0,
    ensures
        join_spaced(parts).len() >= parts.len(),
    decreases parts.len(),
{
    if parts.len() > 1 {
        lemma_join_spaced_len(parts.drop_last());
    }
}

/// Law: a command line of quoted arguments, joined by spaces, splits by the
/// standard Windows rules back into exactly those arguments.
pub proof fn lemma_command_line_round_trip(args: Seq<Seq<char>>)
    ensures
        argv_split(join_spaced(args.map_values(|a: Seq<char>| quoted_argument(a)))) == args,
{
    let q = args.map_values(|a: Seq<char>| quoted_argument(a));
    assert forall|i: int| 0 <= i < q.len() implies (#[trigger] q[i]).len() > 0 by {
        lemma_quoted_argument_starts(args[i]);
    }
    lemma_join_spaced_len(q);
    lemma_argv_split_join(args, join_spaced(q).len());
}

/// The arguments that start the elevated terminal host.
pub open spec fn terminal_host_args_spec(
    client_pid: u32,
    cwd: Seq<char>,
    shell: Seq<char>,
    shell_args: Seq<Seq<char>>,
) -> Seq<Seq<char>> {
    seq!["terminal-host"@, "--client-pid"@, decimal(client_pid as nat), "--cwd"@, cwd, "--shell"@, shell]
        + if shell_args.len() > 0 {
        seq!["--"@] + shell_args
    } else {
        seq![]
    }
}

fn push_string(v: &mut Vec<String>, s: String)
    ensures
        str_views(final(v)@) == str_views(old(v)@).push(s@),
{
    let ghost before = v@;
    v.push(s);
    proof {
        lemma_str_views_push(before, s);
    }
}

/// The arguments that start the elevated terminal host for a client.
pub fn terminal_host_args(client_pid: u32, cwd: &str, shell: &str, shell_args: &Vec<String>) -> (r:
    Vec<String>)
    ensures
        str_views(r@) == terminal_host_args_spec(client_pid, cwd@, shell@, str_views(shell_args@)),
{
    let mut r: Vec<String> = Vec::new();
    push_string(&mut r, "terminal-host".to_owned());
    push_string(&mut r, "--client-pid".to_owned());
    push_string(&mut r, string_of(&decimal_chars(client_pid as u64)));
    push_string(&mut r, "--cwd".to_owned());
    push_string(&mut r, cwd.to_owned());
    push_string(&mut r, "--shell".to_owned());
    push_string(&mut r, shell.to_owned());
    let ghost head = str_views(r@);
    if shell_args.len() > 0 {
        push_string(&mut r, "--".to_owned());
        let mut i: usize = 0;
        while i < shell_args.len()
            invariant
                i <= shell_args.len(),
                str_views(r@) == head + seq!["--"@] + str_views(shell_args@).take(i as int),
            decreases shell_args.len() - i,
        {
            push_string(&mut r, shell_args[i].clone());
            assert(str_views(shell_args@).take(i + 1) =~= str_views(shell_args@).take(
                i as int,
            ).push(shell_args@[i as int]@));
            i += 1;
        }
        assert(str_views(shell_args@).take(shell_args.len() as int) =~= str_views(shell_args@));
    }
    assert(str_views(r@) =~= terminal_host_args_spec(
        client_pid,
        cwd@,
        shell@,
        str_views(shell_args@),
    ));
    r
}

/// Quotes every argument and joins them with spaces into one command line.
pub fn windows_command_line(args: &Vec<String>) -> (r: String)
    ensures
        r@ == join_spaced(str_views(args@).map_values(|a: Seq<char>| quoted_argument(a))),
{
    let ghost parts = str_views(args@).map_values(|a: Seq<char>| quoted_argument(a));
    let mut v: Vec<char> = Vec::new();
    let mut i: usize = 0;
    while i < args.len()
        invariant
            i <= args.len(),
            parts == str_views(args@).map_values(|a: Seq<char>| quoted_argument(a)),
            v@ == join_spaced(parts.take(i as int)),
        decreases args.len() - i,
    {
        let q = quote_windows_argument(args[i].as_str());
        if i > 0 {
            v.push(' ');
        }
        let qc = chars_of(q.as_str());
        push_chars(&mut v, &qc);
        assert(parts.take(i + 1).drop_last() =~= parts.take(i as int));
        assert(parts[i as int] == quoted_argument(args@[i as int]@));
        i += 1;
    }
    assert(parts.take(args.len() as int) =~= parts);
    string_of(&v)
}

/// The command line that starts the elevated terminal host image for a
/// legacy token authorization: the image, then the terminal-host arguments.
pub fn legacy_terminal_command_line(
    host_image: &str,
    client_pid: u32,
    cwd: &str,
    shell: &str,
    shell_args: &Vec<String>,
) -> (r: String)
    ensures
        r@ == join_spaced(
            (seq![host_image@] + terminal_host_args_spec(
                client_pid,
                cwd@,
                shell@,
                str_views(shell_args@),
            )).map_values(|a: Seq<char>| quoted_argument(a)),
        ),
{
    let mut all: Vec<String> = Vec::new();
    push_string(&mut all, host_image.to_owned());
    let rest = terminal_host_args(client_pid, cwd, shell, shell_args);
    let mut i: usize = 0;
    while i < rest.len()
        invariant
            i <= rest.len(),
            str_views(all@) == seq![host_image@] + str_views(rest@).take(i as int),
        decreases rest.len() - i,
    {
        push_string(&mut all, rest[i].clone());
        assert(str_views(rest@).take(i + 1) =~= str_views(rest@).take(i as int).push(
            rest@[i as int]@,
        ));
        i += 1;
    }
    assert(str_views(rest@).take(rest.len() as int) =~= str_views(rest@));
    windows_command_line(&all)
}

/// Where the legacy terminal host image would be: `codex-plus-admin-shim.exe`
/// two directories above the running shim.
pub fn terminal_host_candidate(current_exe: &str) -> (r: Option<String>)
    ensures
        r matches Some(c) ==> parent(current_exe@) matches Some(p) && parent(p) matches Some(
            root,
        ) && c@ == join(root, "codex-plus-admin-shim.exe"@),
        r is None ==> !(parent(current_exe@) matches Some(p) && parent(p) is Some),
{
    let exe = chars_of(current_exe);
    let p = match parent_chars(&exe) {
        Some(p) => p,
        None => {
            return None;
        },
    };
    let root = match parent_chars(&p) {
        Some(root) => root,
        None => {
            return None;
        },
    };
    let name = chars_of("codex-plus-admin-shim.exe");
    Some(string_of(&join_chars(&root, &name)))
}

/// The legacy terminal host image: the candidate where it is a file, else
/// the running shim itself.
pub fn choose_terminal_host(current_exe: String, candidate: Option<String>, candidate_is_file: bool) -> (r:
    String)
    ensures
        (candidate is Some && candidate_is_file) ==> r@ == candidate->0@,
        !(candidate is Some && candidate_is_file) ==> r@ == current_exe@,
{
    match candidate {
        Some(c) => if candidate_is_file {
            c
        } else {
            current_exe
        },
        None => current_exe,
    }
}

/// The arguments the terminal client sends: the working directory first.
pub fn terminal_helper_args(cwd: String, args: Vec<String>) -> (r: Vec<String>)
    ensures
        str_views(r@) == seq![cwd@] + str_views(args@),
{
    let mut r: Vec<String> = Vec::new();
    push_string(&mut r, cwd);
    let mut i: usize = 0;
    while i < args.len()
        invariant
            i <= args.len(),
            str_views(r@) == seq![cwd@] + str_views(args@).take(i as int),
        decreases args.len() - i,
    {
        push_string(&mut r, args[i].clone());
        assert(str_views(args@).take(i + 1) =~= str_views(args@).take(i as int).push(
            args@[i as int]@,
        ));
        i += 1;
    }
    assert(str_views(args@).take(args.len() as int) =~= str_views(args@));
    r
}

/// The working directory and shell arguments of a terminal client's
/// arguments; `None` when there is no working directory.
pub fn split_terminal_args(helper_args: &Vec<String>) -> (r: Option<(String, Vec<String>)>)
    ensures
        helper_args@.len() == 0 ==> r is None,
        helper_args@.len() > 0 ==> (r matches Some((cwd, rest)) && cwd@ == helper_args@[0]@
            && str_views(rest@) == str_views(helper_args@).skip(1)),
{
    if helper_args.len() == 0 {
        return None;
    }
    Some((helper_args[0].clone(), clone_strings_from(helper_args, 1)))
}

/// Whether an integrity RID is high integrity or above.
pub fn is_high_integrity(rid: u32) -> (r: bool)
    ensures
        r == (rid >= HIGH_INTEGRITY_RID),
{
    rid >= HIGH_INTEGRITY_RID
}

/// Why a proof file is refused.
#[derive(Debug, Clone, Copy, PartialEq, Eq, Structural)]
pub enum ProofError {
    /// More than the size limit was read.
    TooLarge,
    /// The bytes are not UTF-8.
    NotUtf8,
    /// The file is empty.
    Empty,
}

/// Overwrites every byte of a secret buffer with zero, keeping its length.
pub fn clear_secret(bytes: &mut Vec<u8>)
    ensures
        final(bytes)@.len() == old(bytes)@.len(),
        forall|i: int| 0 <= i < final(bytes)@.len() ==> final(bytes)@[i] == 0,
{
    let mut i: usize = 0;
    while i < bytes.len()
        invariant
            i <= bytes.len(),
            bytes@.len() == old(bytes)@.len(),
            forall|j: int| 0 <= j < i ==> bytes@[j] == 0,
        decreases bytes.len() - i,
    {
        bytes[i] = 0;
        i += 1;
    }
}

/// Accepts the bytes read from a proof file (at most one byte past the
/// limit): the proof is their UTF-8 text, which must not be empty. The
/// buffer is left empty on success and zeroed otherwise.
pub fn proof_from_bytes(bytes: &mut Vec<u8>) -> (r: Result<String, ProofError>)
    ensures
        old(bytes)@.len() > MAX_PROOF_BYTES ==> r == Err::<String, ProofError>(ProofError::TooLarge),
        old(bytes)@.len() <= MAX_PROOF_BYTES && !valid_utf8(old(bytes)@) ==> r == Err::<
            String,
            ProofError,
        >(ProofError::NotUtf8),
        old(bytes)@.len() == 0 ==> r == Err::<String, ProofError>(ProofError::Empty),
        0 < old(bytes)@.len() <= MAX_PROOF_BYTES && valid_utf8(old(bytes)@) ==> (r matches Ok(p)
            && p@ == decode_utf8(old(bytes)@)),
        r is Ok ==> final(bytes)@.len() == 0,
        r is Err ==> forall|i: int| 0 <= i < final(bytes)@.len() ==> final(bytes)@[i] == 0,
{
    if bytes.len() > MAX_PROOF_BYTES {
        clear_secret(bytes);
        return Err(ProofError::TooLarge);
    }
    if bytes.len() == 0 {
        return Err(ProofError::Empty);
    }
    let mut taken: Vec<u8> = Vec::new();
    std::mem::swap(&mut taken, bytes);
    match string_from_utf8(taken) {
        Ok(proof) => Ok(proof),
        Err(rejected) => {
            let mut rejected = rejected;
            clear_secret(&mut rejected);
            Err(ProofError::NotUtf8)
        },
    }
}

/// Why a hello cannot be built.
#[derive(Debug, Clone, Copy, PartialEq, Eq, Structural)]
pub enum HelloError {
    /// The proof is empty.
    EmptyProof,
    /// The JSON encoder reported an error.
    Encoding,
    /// The encoded hello is larger than the broker accepts.
    TooLarge,
}

/// The wire name of a mode, as a JSON string.
pub open spec fn mode_json(mode: Mode) -> Seq<char> {
    match mode {
        Mode::Exec => "\"exec\""@,
        Mode::ComputerUse => "\"computer-use\""@,
        Mode::AppServer => "\"app-server\""@,
        Mode::Terminal => "\"terminal\""@,
    }
}

/// JSON literals joined by commas.
pub open spec fn join_commas(parts: Seq<Seq<char>>) -> Seq<char>
    decreases parts.len(),
{
    if parts.len() == 0 {
        Seq::empty()
    } else if parts.len() == 1 {
        parts[0]
    } else {
        join_commas(parts.drop_last()) + seq![','] + parts.last()
    }
}

/// The JSON literals of every argument, or `None` where one fails.
pub open spec fn quoted_all(args: Seq<Seq<char>>) -> Option<Seq<Seq<char>>>
    decreases args.len(),
{
    if args.len() == 0 {
        Some(seq![])
    } else {
        match (quoted_all(args.drop_last()), json_quoted(args.last())) {
            (Some(q), Some(t)) => Some(q.push(t)),
            _ => None,
        }
    }
}

/// The hello object's text, from the JSON literals of its strings.
pub open spec fn hello_text(
    session: Seq<char>,
    mode: Mode,
    client_pid: u32,
    proof: Seq<char>,
    helper_args: Option<Seq<Seq<char>>>,
) -> Seq<char> {
    "{\"protocol\":1,\"sessionId\":"@ + session + ",\"mode\":"@ + mode_json(mode)
        + ",\"clientPid\":"@ + decimal(client_pid as nat) + ",\"proof\":"@ + proof + match helper_args {
        Some(h) => ",\"helperArgs\":["@ + join_commas(h) + "]"@,
        None => Seq::empty(),
    } + "}"@
}

/// The authentication hello a client sends: protocol 1, its session, mode,
/// process id and proof, and (except in exec mode) the helper arguments.
pub open spec fn hello_spec(options: OptionsModel, proof: Seq<char>, client_pid: u32) -> Result<
    Seq<u8>,
    HelloError,
> {
    if proof.len() == 0 {
        Err(HelloError::EmptyProof)
    } else {
        let helpers = if options.mode == Mode::Exec {
            Some(None)
        } else {
            match quoted_all(options.helper_args) {
                Some(q) => Some(Some(q)),
                None => None,
            }
        };
        match (json_quoted(options.session), json_quoted(proof), helpers) {
            (Some(s), Some(p), Some(h)) => {
                let bytes = encode_utf8(hello_text(s, options.mode, client_pid, p, h));
                if bytes.len() > MAX_HELLO_BYTES {
                    Err(HelloError::TooLarge)
                } else {
                    Ok(bytes)
                }
            },
            _ => Err(HelloError::Encoding),
        }
    }
}

fn quote_all(args: &Vec<String>) -> (r: Option<Vec<String>>)
    ensures
        r matches Some(q) ==> quoted_all(str_views(args@)) == Some(str_views(q@)),
        r is None ==> quoted_all(str_views(args@)) is None,
        r is Some,
{
    let mut q: Vec<String> = Vec::new();
    let mut i: usize = 0;
    assert(str_views(args@).take(0) =~= Seq::<Seq<char>>::empty());
    assert(str_views(q@) =~= Seq::<Seq<char>>::empty());
    while i < args.len()
        invariant
            i <= args.len(),
            quoted_all(str_views(args@).take(i as int)) == Some(str_views(q@)),
        decreases args.len() - i,
    {
        assert(str_views(args@).take(i + 1).drop_last() =~= str_views(args@).take(i as int));
        match json_string_literal(args[i].as_str()) {
            Some(t) => {
                push_string(&mut q, t);
            },
            None => {
                assert(quoted_all(str_views(args@).take(i + 1)) is None);
                proof {
                    lemma_quoted_all_none_extends(str_views(args@), i + 1);
                }
                return None;
            },
        }
        i += 1;
    }
    assert(str_views(args@).take(args.len() as int) =~= str_views(args@));
    Some(q)
}

proof fn lemma_quoted_all_none_extends(args: Seq<Seq<char>>, k: int)
    requires
        0 <= k <= args.len(),
        quoted_all(args.take(k)) is None,
    ensures
        quoted_all(args) is None,
    decreases args.len() - k,
{
    if k < args.len() {
        assert(args.take(k + 1).drop_last() =~= args.take(k));
        lemma_quoted_all_none_extends(args, k + 1);
    } else {
        assert(args.take(k) =~= args);
    }
}

fn push_joined_commas(v: &mut Vec<char>, parts: &Vec<String>)
    ensures
        final(v)@ == old(v)@ + join_commas(str_views(parts@)),
{
    let ghost start = v@;
    let mut i: usize = 0;
    while i < parts.len()
        invariant
            i <= parts.len(),
            v@ == start + join_commas(str_views(parts@).take(i as int)),
        decreases parts.len() - i,
    {
        if i > 0 {
            v.push(',');
        }
        let c = chars_of(parts[i].as_str());
        push_chars(v, &c);
        assert(str_views(parts@).take(i + 1).drop_last() =~= str_views(parts@).take(i as int));
        i += 1;
    }
    assert(str_views(parts@).take(parts.len() as int) =~= str_views(parts@));
}

/// Builds the authentication hello a client sends to the broker.
pub fn serialize_hello(options: &Options, proof: &str, client_pid: u32) -> (r: Result<
    Vec<u8>,
    HelloError,
>)
    ensures
        r matches Ok(b) ==> hello_spec(options@, proof@, client_pid) == Ok::<Seq<u8>, HelloError>(
            b@,
        ),
        r matches Err(e) ==> hello_spec(options@, proof@, client_pid) == Err::<
            Seq<u8>,
            HelloError,
        >(e),
        r != Err::<Vec<u8>, HelloError>(HelloError::Encoding),
{
    if proof.is_empty() {
        return Err(HelloError::EmptyProof);
    }
    let session = match json_string_literal(options.session.as_str()) {
        Some(s) => s,
        None => {
            return Err(HelloError::Encoding);
        },
    };
    let proof_json = match json_string_literal(proof) {
        Some(p) => p,
        None => {
            return Err(HelloError::Encoding);
        },
    };
    let helpers = if options.mode == Mode::Exec {
        None
    } else {
        match quote_all(&options.helper_args) {
            Some(q) => Some(q),
            None => {
                return Err(HelloError::Encoding);
            },
        }
    };
    let mut v: Vec<char> = Vec::new();
    push_str(&mut v, "{\"protocol\":1,\"sessionId\":");
    push_str(&mut v, session.as_str());
    push_str(&mut v, ",\"mode\":");
    match options.mode {
        Mode::Exec => push_str(&mut v, "\"exec\""),
        Mode::ComputerUse => push_str(&mut v, "\"computer-use\""),
        Mode::AppServer => push_str(&mut v, "\"app-server\""),
        Mode::Terminal => push_str(&mut v, "\"terminal\""),
    }
    push_str(&mut v, ",\"clientPid\":");
    let digits = decimal_chars(client_pid as u64);
    push_chars(&mut v, &digits);
    push_str(&mut v, ",\"proof\":");
    push_str(&mut v, proof_json.as_str());
    let ghost before_helpers = v@;
    match &helpers {
        Some(h) => {
            push_str(&mut v, ",\"helperArgs\":[");
            push_joined_commas(&mut v, h);
            push_str(&mut v, "]");
        },
        None => {},
    }
    push_str(&mut v, "}");
    let ghost hv: Option<Seq<Seq<char>>> = match helpers {
        Some(h) => Some(str_views(h@)),
        None => None,
    };
    assert(v@ =~= hello_text(session@, options.mode, client_pid, proof_json@, hv));
    let text = string_of(&v);
    let bytes = utf8_bytes(&text);
    if bytes.len() > MAX_HELLO_BYTES {
        return Err(HelloError::TooLarge);
    }
    Ok(bytes)
}

/// Why a broker reply is refused.
#[derive(Debug, Clone, Copy, PartialEq, Eq, Structural)]
pub enum AuthError {
    /// The broker rejected the session.
    Rejected,
    /// The reply names no terminal host process.
    MissingProcessId,
    /// The reply names process id zero.
    InvalidProcessId,
    /// A terminal reply is neither a host process nor a complete legacy token.
    IncompleteTerminalResponse,
}

/// How an elevated terminal was authorized.
#[derive(Debug, PartialEq, Eq)]
pub enum TerminalAuthorization {
    /// The broker started the terminal host itself.
    BrokerHost { process_id: u32 },
    /// An older broker handed over a token and the shell to start.
    LegacyToken { token_handle: u64, shell: String },
}

/// Accepts the broker's reply to an exec, Computer Use or app-server hello.
pub fn check_auth_response(accepted: bool) -> (r: Result<(), AuthError>)
    ensures
        r is Ok <==> accepted,
        r is Err ==> r == Err::<(), AuthError>(AuthError::Rejected),
{
    if accepted {
        Ok(())
    } else {
        Err(AuthError::Rejected)
    }
}

/// The decision on a terminal reply: rejected unless accepted; an accepted
/// reply carries either a non-zero host process id alone, or a non-zero
/// token handle and a non-empty shell without a process id.
pub open spec fn terminal_authorization_spec(
    accepted: bool,
    process_id: Option<u32>,
    token_handle: Option<u64>,
    shell: Option<String>,
) -> Result<TerminalAuthorization, AuthError> {
    if !accepted {
        Err(AuthError::Rejected)
    } else {
        match (process_id, token_handle, shell) {
            (Some(p), None, None) => if p != 0 {
                Ok(TerminalAuthorization::BrokerHost { process_id: p })
            } else {
                Err(AuthError::IncompleteTerminalResponse)
            },
            (None, Some(t), Some(s)) => if t != 0 && s@.len() > 0 {
                Ok(TerminalAuthorization::LegacyToken { token_handle: t, shell: s })
            } else {
                Err(AuthError::IncompleteTerminalResponse)
            },
            _ => Err(AuthError::IncompleteTerminalResponse),
        }
    }
}

/// Accepts the broker's reply to a terminal hello: an accepted reply carries
/// either a non-zero host process id alone, or a non-zero token handle and a
/// non-empty shell without a process id.
pub fn parse_terminal_auth_response(
    accepted: bool,
    process_id: Option<u32>,
    token_handle: Option<u64>,
    shell: Option<String>,
) -> (r: Result<TerminalAuthorization, AuthError>)
    ensures
        r == terminal_authorization_spec(accepted, process_id, token_handle, shell),
{
    if !accepted {
        return Err(AuthError::Rejected);
    }
    match (process_id, token_handle, shell) {
        (Some(p), None, None) => {
            if p != 0 {
                Ok(TerminalAuthorization::BrokerHost { process_id: p })
            } else {
                Err(AuthError::IncompleteTerminalResponse)
            }
        },
        (None, Some(t), Some(s)) => {
            if t != 0 && !s.as_str().is_empty() {
                Ok(TerminalAuthorization::LegacyToken { token_handle: t, shell: s })
            } else {
                Err(AuthError::IncompleteTerminalResponse)
            }
        },
        _ => Err(AuthError::IncompleteTerminalResponse),
    }
}

/// Accepts the broker's reply to the terminal compatibility shim: it must be
/// accepted and name a non-zero terminal host process.
pub fn terminal_shim_auth_response(accepted: bool, process_id: Option<u32>) -> (r: Result<
    u32,
    AuthError,
>)
    ensures
        !accepted ==> r == Err::<u32, AuthError>(AuthError::Rejected),
        accepted && process_id is None ==> r == Err::<u32, AuthError>(AuthError::MissingProcessId),
        accepted && process_id == Some(0u32) ==> r == Err::<u32, AuthError>(
            AuthError::InvalidProcessId,
        ),
        accepted && process_id is Some && process_id != Some(0u32) ==> r == Ok::<u32, AuthError>(
            process_id->0,
        ),
{
    if !accepted {
        return Err(AuthError::Rejected);
    }
    match process_id {
        None => Err(AuthError::MissingProcessId),
        Some(p) => if p == 0 {
            Err(AuthError::InvalidProcessId)
        } else {
            Ok(p)
        },
    }
}

/// Law: an invocation that names `app-server` never runs the official
/// executable directly at the caller's own integrity: it is refused, or it
/// goes to an administrator broker.
pub proof fn lemma_app_server_never_runs_directly(args: Seq<Seq<char>>, env: ShimEnvironment)
    requires
        args.contains("app-server"@),
    ensures
        !(parse_invocation_spec(args, env) is Ok && parse_invocation_spec(args, env)->Ok_0 is Direct),
{
}

/// Law: the terminal host reads back exactly the client pid, working
/// directory, shell and shell arguments its command line was built from,
/// whenever the working directory and shell are not empty (an empty value is
/// refused as a missing option).
pub proof fn lemma_terminal_host_args_round_trip(
    client_pid: u32,
    cwd: Seq<char>,
    shell: Seq<char>,
    shell_args: Seq<Seq<char>>,
    env: ShimEnvironment,
)
    requires
        cwd.len() > 0,
        shell.len() > 0,
    ensures
        parse_invocation_spec(terminal_host_args_spec(client_pid, cwd, shell, shell_args), env)
            == Ok::<InvocationModel, CliError>(
            InvocationModel::TerminalHost { client_pid, cwd, shell, shell_args },
        ),
{
    reveal_strlit("terminal-host");
    reveal_strlit("identity-probe");
    lemma_parse_decimal(client_pid as nat, u32::MAX as nat);
    crate::text::lemma_decimal_digits(client_pid as nat);
    let args = terminal_host_args_spec(client_pid, cwd, shell, shell_args);
    assert("terminal-host"@.len() == 13);
    assert("identity-probe"@.len() == 14);
    assert(args[0] == "terminal-host"@);
    assert(args[1] == "--client-pid"@);
    assert(args[2] == decimal(client_pid as nat));
    assert(args[3] == "--cwd"@);
    assert(args[4] == cwd);
    assert(args[5] == "--shell"@);
    assert(args[6] == shell);
    assert(option_at_spec(args, 1, "--client-pid"@) == Ok::<Seq<char>, CliError>(
        decimal(client_pid as nat),
    ));
    assert(option_at_spec(args, 3, "--cwd"@) == Ok::<Seq<char>, CliError>(cwd));
    assert(option_at_spec(args, 5, "--shell"@) == Ok::<Seq<char>, CliError>(shell));
    assert(parse_unsigned(decimal(client_pid as nat), u32::MAX as nat) == Some(client_pid as nat));
    if shell_args.len() > 0 {
        assert(args[7] == "--"@);
        assert(args.skip(8) =~= shell_args);
    } else {
        assert(args.len() == 7);
        assert(shell_args =~= seq![]);
    }
    assert(terminal_host_spec(args) == Ok::<InvocationModel, CliError>(
        InvocationModel::TerminalHost { client_pid, cwd, shell, shell_args },
    ));
}

} // verus!
