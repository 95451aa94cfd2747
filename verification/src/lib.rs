//! Verified core of the administrator-mode broker: command-line and protocol
//! parsing, framing, identity checks, recovery decisions and file layouts.
pub mod text;
pub mod encoding;
pub mod frame;
pub mod shim;
pub mod windows;
pub mod exec;
pub mod computer_use;
pub mod environment;
pub mod feature;
pub mod admin_mode;
pub mod app_server;
pub mod runtime_copy;
pub mod shell_candidates;
