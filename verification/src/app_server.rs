//! The scripts injected into the Codex app's Electron main process: the
//! administrator app-server bootstrap, which points the app's CLI and
//! terminals at the administrator session, and the plain Windows Computer
//! Use bootstrap.
use vstd::prelude::*;
use crate::text::push_str;
use crate::text::string_of;
use crate::encoding::json_quoted;
use crate::encoding::json_string_literal;
use crate::admin_mode::AdminAppServerBootstrap;

verus! {

/// Bootstrap script text before the official executable literal.
pub const BOOTSTRAP_PART_0: &'static str = "\n(() => {\n  if (typeof process !== \"object\" || !process.env) throw new Error(\"Electron main process environment is unavailable\");\n  process.env.CODEX_ELECTRON_ENABLE_WINDOWS_COMPUTER_USE = \"1\";\n  process.env.CODEX_CLI_PATH = ";

/// Bootstrap script text before the terminal shim literal.
pub const BOOTSTRAP_PART_1: &'static str = ";\n  process.env.SHELL = ";

/// Bootstrap script text before the terminal pipe literal.
pub const BOOTSTRAP_PART_2: &'static str = ";\n  process.env.CODEX_PLUS_ADMIN_TERMINAL_PIPE = ";

/// Bootstrap script text before the terminal session literal.
pub const BOOTSTRAP_PART_3: &'static str = ";\n  process.env.CODEX_PLUS_ADMIN_TERMINAL_SESSION = ";

/// Bootstrap script text before the terminal proof file literal.
pub const BOOTSTRAP_PART_4: &'static str = ";\n  process.env.CODEX_PLUS_ADMIN_TERMINAL_PROOF_FILE = ";

/// Bootstrap script text from the proof file literal to the terminal shim literal that replaces PowerShell launches.
pub const BOOTSTRAP_PART_5: &'static str = ";\n  delete process.env.CODEX_PLUS_ADMIN_APP_SERVER_PIPE;\n  delete process.env.CODEX_PLUS_ADMIN_APP_SERVER_SESSION;\n  delete process.env.CODEX_PLUS_ADMIN_APP_SERVER_PROOF_FILE;\n  delete process.env.CODEX_PLUS_ADMIN_OFFICIAL_CODEX_EXE;\n\n  // Codex resolves and caches its preferred shell before a non-pausing\n  // `--inspect` endpoint becomes available. Patching SHELL here is therefore\n  // too late for the cached path, even though it is still needed in the PTY\n  // environment. node-pty is looked up again for every terminal creation, so\n  // wrap its spawn export and replace only PowerShell terminal launches that\n  // carry this administrator session's authenticated environment.\n  const moduleApi = process.getBuiltinModule?.(\"module\");\n  const pathApi = process.getBuiltinModule?.(\"path\");\n  if (!moduleApi?.createRequire || !pathApi?.win32) throw new Error(\"Electron module bootstrap API is unavailable\");\n  const requireFromApp = moduleApi.createRequire(\n    `${process.resourcesPath}/app.asar/.vite/build/codex-plus-bootstrap.js`,\n  );\n  const nodePty = requireFromApp(\"node-pty\");\n  const hookKey = Symbol.for(\"codex-plus.admin-terminal.node-pty-hook.v1\");\n  if (!nodePty[hookKey]) {\n    const originalSpawn = nodePty.spawn;\n    if (typeof originalSpawn !== \"function\") throw new Error(\"node-pty spawn is unavailable\");\n    const hookState = { installed: true, spawnCount: 0, replacedCount: 0 };\n    const wrappedSpawn = function(file, args, options) {\n      hookState.spawnCount += 1;\n      const basename = pathApi.win32.basename(String(file ?? \"\")).toLowerCase();\n      const env = options?.env;\n      const isPowerShell = basename === \"pwsh\" || basename === \"pwsh.exe\"\n        || basename === \"powershell\" || basename === \"powershell.exe\";\n      const isAdministratorTerminal = Boolean(\n        env?.CODEX_PLUS_ADMIN_TERMINAL_PIPE\n        && env?.CODEX_PLUS_ADMIN_TERMINAL_SESSION\n        && env?.CODEX_PLUS_ADMIN_TERMINAL_PROOF_FILE,\n      );\n      if (isPowerShell && isAdministratorTerminal) {\n        hookState.replacedCount += 1;\n        file = ";

/// Bootstrap script text after the last terminal shim literal.
pub const BOOTSTRAP_PART_6: &'static str = ";\n      }\n      return Reflect.apply(originalSpawn, this, [file, args, options]);\n    };\n    Object.defineProperty(nodePty, hookKey, {\n      value: hookState,\n      configurable: false,\n      enumerable: false,\n      writable: false,\n    });\n    nodePty.spawn = wrappedSpawn;\n  }\n  return JSON.stringify({\n    status: \"ok\",\n    pid: process.pid,\n    appServerElevation: false,\n    computerUse: true,\n    terminalElevation: true,\n    terminalHook: true,\n  });\n})()\n";

/// The Windows Computer Use bootstrap script.
pub const WINDOWS_COMPUTER_USE_BOOTSTRAP: &'static str = "\n(() => {\n  if (typeof process !== \"object\" || !process.env) throw new Error(\"Electron main process environment is unavailable\");\n  process.env.CODEX_ELECTRON_ENABLE_WINDOWS_COMPUTER_USE = \"1\";\n  return JSON.stringify({ status: \"ok\", pid: process.pid, computerUse: true });\n})()\n";

/// The administrator app-server bootstrap, given the JSON string literals
/// of the official executable, the terminal shim, the terminal pipe,
/// session and proof file.
pub open spec fn bootstrap_text(
    official: Seq<char>,
    terminal_shim: Seq<char>,
    pipe: Seq<char>,
    session: Seq<char>,
    proof: Seq<char>,
) -> Seq<char> {
    BOOTSTRAP_PART_0@ + official + BOOTSTRAP_PART_1@ + terminal_shim + BOOTSTRAP_PART_2@ + pipe
        + BOOTSTRAP_PART_3@ + session + BOOTSTRAP_PART_4@ + proof + BOOTSTRAP_PART_5@
        + terminal_shim + BOOTSTRAP_PART_6@
}

/// The administrator app-server bootstrap of a session, or `None` where the
/// JSON encoder fails on one of its values.
pub open spec fn bootstrap_spec(b: AdminAppServerBootstrap) -> Option<Seq<char>> {
    match (
        json_quoted(b.official_codex_exe@),
        json_quoted(b.terminal_shim_path@),
        json_quoted(b.terminal_pipe_name@),
        json_quoted(b.terminal_session_id@),
        json_quoted(b.terminal_proof_path@),
    ) {
        (Some(o), Some(t), Some(p), Some(s), Some(f)) => Some(bootstrap_text(o, t, p, s, f)),
        _ => None,
    }
}

/// Why a bootstrap script cannot be built.
#[derive(Debug, Clone, Copy, PartialEq, Eq, Structural)]
pub enum BootstrapError {
    /// The JSON encoder reported an error.
    Encoding,
}

/// Builds the administrator app-server bootstrap: it enables Windows
/// Computer Use, points `CODEX_CLI_PATH` at the official executable and
/// `SHELL` at the terminal shim, sets the terminal session variables,
/// removes the app-server session variables, and wraps node-pty so that
/// PowerShell terminals of this session start the terminal shim.
pub fn bootstrap_script(bootstrap: &AdminAppServerBootstrap) -> (r: Result<String, BootstrapError>)
    ensures
        r matches Ok(s) ==> bootstrap_spec(*bootstrap) == Some(s@),
        r is Err ==> bootstrap_spec(*bootstrap) is None,
        r is Ok,
{
    let official = match json_string_literal(bootstrap.official_codex_exe.as_str()) {
        Some(v) => v,
        None => {
            return Err(BootstrapError::Encoding);
        },
    };
    let terminal_shim = match json_string_literal(bootstrap.terminal_shim_path.as_str()) {
        Some(v) => v,
        None => {
            return Err(BootstrapError::Encoding);
        },
    };
    let pipe = match json_string_literal(bootstrap.terminal_pipe_name.as_str()) {
        Some(v) => v,
        None => {
            return Err(BootstrapError::Encoding);
        },
    };
    let session = match json_string_literal(bootstrap.terminal_session_id.as_str()) {
        Some(v) => v,
        None => {
            return Err(BootstrapError::Encoding);
        },
    };
    let proof = match json_string_literal(bootstrap.terminal_proof_path.as_str()) {
        Some(v) => v,
        None => {
            return Err(BootstrapError::Encoding);
        },
    };
    let mut v: Vec<char> = Vec::new();
    push_str(&mut v, BOOTSTRAP_PART_0);
    push_str(&mut v, official.as_str());
    push_str(&mut v, BOOTSTRAP_PART_1);
    push_str(&mut v, terminal_shim.as_str());
    push_str(&mut v, BOOTSTRAP_PART_2);
    push_str(&mut v, pipe.as_str());
    push_str(&mut v, BOOTSTRAP_PART_3);
    push_str(&mut v, session.as_str());
    push_str(&mut v, BOOTSTRAP_PART_4);
    push_str(&mut v, proof.as_str());
    push_str(&mut v, BOOTSTRAP_PART_5);
    push_str(&mut v, terminal_shim.as_str());
    push_str(&mut v, BOOTSTRAP_PART_6);
    assert(v@ =~= bootstrap_text(official@, terminal_shim@, pipe@, session@, proof@));
    Ok(string_of(&v))
}

/// The Windows Computer Use bootstrap script: it only enables Windows
/// Computer Use for the app's main process.
pub fn windows_computer_use_bootstrap_script() -> (r: &'static str)
    ensures
        r@ == WINDOWS_COMPUTER_USE_BOOTSTRAP@,
{
    WINDOWS_COMPUTER_USE_BOOTSTRAP
}

} // verus!
