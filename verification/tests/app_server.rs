use codex_plus_core::admin_mode::AdminAppServerBootstrap;
use codex_plus_core::app_server::{bootstrap_script, windows_computer_use_bootstrap_script};
use codex_plus_core::shim::{
    APP_SERVER_PIPE_ENV, APP_SERVER_PROOF_FILE_ENV, APP_SERVER_SESSION_ENV, OFFICIAL_CODEX_EXE_ENV,
    TERMINAL_PIPE_ENV, TERMINAL_PROOF_FILE_ENV, TERMINAL_SESSION_ENV,
};

const WINDOWS_COMPUTER_USE_ENV: &str = "CODEX_ELECTRON_ENABLE_WINDOWS_COMPUTER_USE";

fn sample_bootstrap() -> AdminAppServerBootstrap {
    AdminAppServerBootstrap {
        official_codex_exe: r"C:\runtime\codex.exe".to_string(),
        terminal_shim_path: r"C:\runtime\admin-terminal\pwsh.exe".to_string(),
        terminal_pipe_name: r"\\.\pipe\codex-plus-terminal".to_string(),
        terminal_session_id: "session-123".to_string(),
        terminal_proof_path: r"C:\runtime\terminal.proof".to_string(),
    }
}

#[test]
fn bootstrap_script_keeps_main_app_server_standard_and_computer_use_enabled() {
    let script = bootstrap_script(&sample_bootstrap()).unwrap();

    assert!(script.contains("process.env.CODEX_CLI_PATH"));
    assert!(script.contains(r"C:\\runtime\\codex.exe"));
    assert!(!script.contains("codex-plus-admin-shim.exe"));
    assert!(script.contains(WINDOWS_COMPUTER_USE_ENV));
    assert!(script.contains(&format!("delete process.env.{APP_SERVER_PIPE_ENV}")));
    assert!(script.contains(&format!("delete process.env.{APP_SERVER_SESSION_ENV}")));
    assert!(script.contains(&format!("delete process.env.{APP_SERVER_PROOF_FILE_ENV}")));
    assert!(script.contains(&format!("delete process.env.{OFFICIAL_CODEX_EXE_ENV}")));
    assert!(script.contains("appServerElevation: false"));
    assert!(script.contains("process.env.SHELL"));
    assert!(script.contains(r"admin-terminal\\pwsh.exe"));
    assert!(script.contains(TERMINAL_PIPE_ENV));
    assert!(script.contains(TERMINAL_SESSION_ENV));
    assert!(script.contains(TERMINAL_PROOF_FILE_ENV));
    assert!(script.contains("terminalElevation: true"));
    assert!(script.contains("requireFromApp(\"node-pty\")"));
    assert!(script.contains("codex-plus.admin-terminal.node-pty-hook.v1"));
    assert!(script.contains("nodePty.spawn = wrappedSpawn"));
    assert!(script.contains("isAdministratorTerminal"));
    assert!(script.contains("terminalHook: true"));
    assert!(!script.contains("config.toml"));
    assert!(!script.contains("auth.json"));
    assert!(!script.contains("localStorage"));
}

#[test]
fn bootstrap_script_quotes_every_value_as_a_json_string() {
    let mut bootstrap = sample_bootstrap();
    bootstrap.terminal_session_id = "session \"quoted\"".to_string();
    let script = bootstrap_script(&bootstrap).unwrap();

    assert!(script.contains(r#""session \"quoted\"""#));
    assert!(script.contains(r#""\\\\.\\pipe\\codex-plus-terminal""#));
    assert!(script.contains(r#""C:\\runtime\\terminal.proof""#));
}

#[test]
fn windows_computer_use_bootstrap_is_ephemeral_and_account_independent() {
    let script = windows_computer_use_bootstrap_script();

    assert!(script.contains("process.env.CODEX_ELECTRON_ENABLE_WINDOWS_COMPUTER_USE"));
    assert!(!script.contains("auth.json"));
    assert!(!script.contains("config.toml"));
    assert!(!script.contains("localStorage"));
    assert!(!script.contains("OPENAI_API_KEY"));
}
