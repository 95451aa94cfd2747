//! The administrator exec broker's rules: which PowerShell the elevated
//! terminal runs, which Store packages are the official ones, how client
//! hellos are admitted, and how the readiness probe's answer is judged.
use vstd::prelude::*;
use vstd::utf8::encode_utf8;
use crate::text::chars_of;
use crate::text::string_of;
use crate::text::push_str;
use crate::text::push_chars;
use crate::text::str_eq;
use crate::text::chars_eq;
use crate::text::str_eq_ignore_case;
use crate::text::chars_eq_ignore_case;
use crate::text::eq_ignore_case;
use crate::text::lower_seq;
use crate::text::to_ascii_lower;
use crate::text::trim;
use crate::text::trim_chars;
use crate::text::file_name;
use crate::text::file_name_chars;
use crate::text::parent;
use crate::text::parent_chars;
use crate::text::join;
use crate::text::join_chars;
use crate::text::starts_with;
use crate::text::starts_with_chars;
use crate::text::ends_with;
use crate::text::ends_with_chars;
use crate::text::contains_seq;
use crate::text::contains_chars;
use crate::text::occurs_at;
use crate::text::find_chars;
use crate::text::sub_chars;
use crate::text::is_sep;
use crate::text::parse_unsigned;
use crate::text::parse_unsigned_chars;
use crate::text::str_views;
use crate::text::clone_strings_from;
use crate::text::strings_contain;
use crate::windows::split_on;
use crate::windows::split_chars;
use crate::windows::WindowsIdentity;
use crate::windows::IdentityError;
use crate::windows::trusted_client_identity;
use crate::text::is_whitespace;
use crate::text::utf8_bytes;
use crate::encoding::sha256;
use crate::encoding::sha256_digest;
use crate::encoding::base64_standard_decoded;
use crate::encoding::base64_standard_decode;
use crate::encoding::utf8_lossy;
use crate::encoding::string_from_utf8;
use crate::encoding::utf16_encode;
use crate::encoding::units_le_bytes;
use vstd::utf8::valid_utf8;
use vstd::utf8::decode_utf8;
use crate::encoding::utf16_lossy;
use crate::encoding::string_from_utf8_lossy;
use crate::encoding::string_from_utf16_lossy;
use crate::shim::HIGH_INTEGRITY_RID;
use crate::encoding::json_quoted;
use crate::encoding::json_string_literal;
use crate::shim::identity_record;
use crate::text::decimal;
use crate::text::trim_start;
use crate::text::trim_end;
use crate::text::is_digit;

verus! {

/// The official Codex Store package name.
pub const OFFICIAL_PACKAGE_NAME: &'static str = "OpenAI.Codex";

/// The official Codex Store package family.
pub const OFFICIAL_PACKAGE_FAMILY: &'static str = "OpenAI.Codex_2p2nqsd0c76g0";

/// The official Codex publisher id.
pub const OFFICIAL_PUBLISHER_ID: &'static str = "2p2nqsd0c76g0";

/// The PowerShell Store package name.
pub const POWERSHELL_STORE_PACKAGE_NAME: &'static str = "Microsoft.PowerShell";

/// The PowerShell Store publisher id.
pub const POWERSHELL_STORE_PUBLISHER_ID: &'static str = "8wekyb3d8bbwe";

/// The installer's terminal shell marker file, next to the terminal shim.
pub const TERMINAL_SHELL_MODE_FILE: &'static str = "shell-mode.txt";

/// Which PowerShell the installer chose for the elevated terminal.
#[derive(Debug, Clone, Copy, PartialEq, Eq, Structural)]
pub enum TerminalShellPreference {
    PowerShell7,
    WindowsPowerShell,
}

/// The installer's marker value, whitespace trimmed.
pub open spec fn shell_preference_spec(value: Seq<char>) -> Option<TerminalShellPreference> {
    if trim(value) == "powershell7"@ {
        Some(TerminalShellPreference::PowerShell7)
    } else if trim(value) == "windows-powershell"@ {
        Some(TerminalShellPreference::WindowsPowerShell)
    } else {
        None
    }
}

/// Reads the installer's terminal shell marker.
pub fn parse_terminal_shell_preference(value: &str) -> (r: Option<TerminalShellPreference>)
    ensures
        r == shell_preference_spec(value@),
{
    let t = trim_chars(&chars_of(value));
    let p7 = chars_of("powershell7");
    let wp = chars_of("windows-powershell");
    if chars_eq(&t, &p7) {
        Some(TerminalShellPreference::PowerShell7)
    } else if chars_eq(&t, &wp) {
        Some(TerminalShellPreference::WindowsPowerShell)
    } else {
        None
    }
}

/// Why the elevated terminal's shell cannot be chosen.
#[derive(Debug, Clone, Copy, PartialEq, Eq, Structural)]
pub enum ShellError {
    /// The terminal host path has no install directory.
    NoInstallDirectory,
    /// The installer marker holds an unknown value.
    InvalidPreference,
    /// PowerShell 7 was chosen but none was found.
    PowerShell7Unavailable,
    /// Windows PowerShell 5.1 was chosen but was not found.
    WindowsPowerShellUnavailable,
    /// Neither PowerShell 7 nor Windows PowerShell 5.1 was found.
    NoPowerShell,
}

/// Where the installer's terminal shell marker lives: `admin-terminal`
/// next to the terminal host.
pub open spec fn shell_preference_path_spec(terminal_host: Seq<char>) -> Option<Seq<char>> {
    match parent(terminal_host) {
        Some(dir) => Some(join(join(dir, "admin-terminal"@), TERMINAL_SHELL_MODE_FILE@)),
        None => None,
    }
}

/// The path of the installer's terminal shell marker.
pub fn terminal_shell_preference_path(terminal_host: &str) -> (r: Result<String, ShellError>)
    ensures
        r matches Ok(p) ==> shell_preference_path_spec(terminal_host@) == Some(p@),
        r is Err ==> shell_preference_path_spec(terminal_host@) is None && r == Err::<
            String,
            ShellError,
        >(ShellError::NoInstallDirectory),
{
    match parent_chars(&chars_of(terminal_host)) {
        None => Err(ShellError::NoInstallDirectory),
        Some(dir) => {
            let a = join_chars(&dir, &chars_of("admin-terminal"));
            Ok(string_of(&join_chars(&a, &chars_of(TERMINAL_SHELL_MODE_FILE))))
        },
    }
}

/// The preference the marker file states: none when it does not exist, an
/// error when it holds an unknown value.
pub fn shell_preference_from_marker(contents: Option<&str>) -> (r: Result<
    Option<TerminalShellPreference>,
    ShellError,
>)
    ensures
        contents is None ==> r == Ok::<Option<TerminalShellPreference>, ShellError>(None),
        contents matches Some(c) ==> match shell_preference_spec(c@) {
            Some(p) => r == Ok::<Option<TerminalShellPreference>, ShellError>(Some(p)),
            None => r == Err::<Option<TerminalShellPreference>, ShellError>(
                ShellError::InvalidPreference,
            ),
        },
{
    match contents {
        None => Ok(None),
        Some(c) => match parse_terminal_shell_preference(c) {
            Some(p) => Ok(Some(p)),
            None => Err(ShellError::InvalidPreference),
        },
    }
}

/// A shell path that may be run, with whether it names an existing file.
#[derive(Debug, Clone, PartialEq, Eq)]
pub struct ShellCandidate {
    pub path: String,
    pub is_file: bool,
}

/// Whether a path lies in a per-user App Execution Alias directory
/// (`\Microsoft\WindowsApps\`, either separator, ignoring ASCII case).
pub open spec fn app_execution_alias(path: Seq<char>) -> bool {
    contains_seq(
        lower_seq(path.map_values(|c: char| if c == '/' { '\\' } else { c })),
        "\\microsoft\\windowsapps\\"@,
    )
}

/// Whether a path is a per-user App Execution Alias rather than a real
/// executable.
pub fn is_windows_app_execution_alias(path: &str) -> (r: bool)
    ensures
        r == app_execution_alias(path@),
{
    let p = chars_of(path);
    let mut v: Vec<char> = Vec::new();
    let mut i: usize = 0;
    while i < p.len()
        invariant
            i <= p.len(),
            p@ == path@,
            v@ == lower_seq(path@.map_values(|c: char| if c == '/' { '\\' } else { c })).take(
                i as int,
            ),
        decreases p.len() - i,
    {
        let c = if p[i] == '/' {
            '\\'
        } else {
            p[i]
        };
        v.push(to_ascii_lower(c));
        assert(lower_seq(path@.map_values(|c: char| if c == '/' { '\\' } else { c })).take(i + 1)
            =~= v@);
        i += 1;
    }
    assert(v@ =~= lower_seq(path@.map_values(|c: char| if c == '/' { '\\' } else { c })));
    contains_chars(&v, &chars_of("\\microsoft\\windowsapps\\"))
}

/// Whether a candidate may be the elevated terminal's shell: an existing
/// `pwsh.exe` that is not an App Execution Alias, or an existing
/// `powershell.exe` (names compared ignoring ASCII case).
pub open spec fn acceptable_shell(c: ShellCandidate) -> bool {
    c.is_file && match file_name(c.path@) {
        Some(name) => if eq_ignore_case(name, "pwsh.exe"@) {
            !app_execution_alias(c.path@)
        } else {
            eq_ignore_case(name, "powershell.exe"@)
        },
        None => false,
    }
}

/// The first acceptable candidate's position.
pub open spec fn first_acceptable(cands: Seq<ShellCandidate>) -> Option<int> {
    if exists|i: int| 0 <= i < cands.len() && acceptable_shell(cands[i]) {
        Some(
            choose|i: int|
                0 <= i < cands.len() && acceptable_shell(cands[i]) && forall|j: int|
                    0 <= j < i ==> !acceptable_shell(#[trigger] cands[j]),
        )
    } else {
        None
    }
}

fn acceptable_shell_exec(c: &ShellCandidate) -> (r: bool)
    ensures
        r == acceptable_shell(*c),
{
    if !c.is_file {
        return false;
    }
    match file_name_chars(&chars_of(c.path.as_str())) {
        Some(name) => if chars_eq_ignore_case(&name, &chars_of("pwsh.exe")) {
            !is_windows_app_execution_alias(c.path.as_str())
        } else {
            chars_eq_ignore_case(&name, &chars_of("powershell.exe"))
        },
        None => false,
    }
}

/// The first candidate that may be the elevated terminal's shell.
pub fn first_existing_terminal_shell(candidates: &Vec<ShellCandidate>) -> (r: Option<String>)
    ensures
        first_acceptable(candidates@) is None ==> r is None,
        first_acceptable(candidates@) matches Some(i) ==> (r matches Some(p) && p@
            == candidates@[i].path@),
{
    let mut i: usize = 0;
    while i < candidates.len()
        invariant
            i <= candidates.len(),
            forall|j: int| 0 <= j < i ==> !acceptable_shell(#[trigger] candidates@[j]),
        decreases candidates.len() - i,
    {
        if acceptable_shell_exec(&candidates[i]) {
            let ghost k = first_acceptable(candidates@)->0;
            assert(first_acceptable(candidates@) is Some);
            assert(k == i as int) by {
                if k < i {
                } else if k > i {
                }
            }
            return Some(candidates[i].path.clone());
        }
        i += 1;
    }
    None
}

/// The shell for the elevated terminal: the installer's preference decides
/// which candidates count; without one, PowerShell 7 candidates come before
/// Windows PowerShell.
pub open spec fn select_terminal_shell_spec(
    preference: Option<TerminalShellPreference>,
    pwsh: Seq<ShellCandidate>,
    windows_powershell: ShellCandidate,
) -> Option<Seq<char>> {
    let cands = match preference {
        Some(TerminalShellPreference::PowerShell7) => pwsh,
        Some(TerminalShellPreference::WindowsPowerShell) => seq![windows_powershell],
        None => pwsh.push(windows_powershell),
    };
    match first_acceptable(cands) {
        Some(i) => Some(cands[i].path@),
        None => None,
    }
}

/// Chooses the elevated terminal's shell.
pub fn select_terminal_shell(
    preference: Option<TerminalShellPreference>,
    powershell7_candidates: Vec<ShellCandidate>,
    windows_powershell: ShellCandidate,
) -> (r: Option<String>)
    ensures
        opt_string_view(r) == select_terminal_shell_spec(
            preference,
            powershell7_candidates@,
            windows_powershell,
        ),
{
    match preference {
        Some(TerminalShellPreference::PowerShell7) => first_existing_terminal_shell(
            &powershell7_candidates,
        ),
        Some(TerminalShellPreference::WindowsPowerShell) => {
            let mut v: Vec<ShellCandidate> = Vec::new();
            v.push(windows_powershell);
            assert(v@ =~= seq![windows_powershell]);
            first_existing_terminal_shell(&v)
        },
        None => {
            let mut v = powershell7_candidates;
            v.push(windows_powershell);
            first_existing_terminal_shell(&v)
        },
    }
}

/// The view of an optional `String`.
pub open spec fn opt_string_view(o: Option<String>) -> Option<Seq<char>> {
    match o {
        Some(s) => Some(s@),
        None => None,
    }
}

/// Chooses the elevated terminal's shell, or says why there is none.
pub fn resolve_terminal_shell(
    preference: Option<TerminalShellPreference>,
    powershell7_candidates: Vec<ShellCandidate>,
    windows_powershell: ShellCandidate,
) -> (r: Result<String, ShellError>)
    ensures
        r matches Ok(p) ==> select_terminal_shell_spec(
            preference,
            powershell7_candidates@,
            windows_powershell,
        ) == Some(p@),
        r matches Err(e) ==> select_terminal_shell_spec(
            preference,
            powershell7_candidates@,
            windows_powershell,
        ) is None && e == match preference {
            Some(TerminalShellPreference::PowerShell7) => ShellError::PowerShell7Unavailable,
            Some(TerminalShellPreference::WindowsPowerShell) => ShellError::WindowsPowerShellUnavailable,
            None => ShellError::NoPowerShell,
        },
{
    match select_terminal_shell(preference, powershell7_candidates, windows_powershell) {
        Some(p) => Ok(p),
        None => Err(
            match preference {
                Some(TerminalShellPreference::PowerShell7) => ShellError::PowerShell7Unavailable,
                Some(TerminalShellPreference::WindowsPowerShell) => ShellError::WindowsPowerShellUnavailable,
                None => ShellError::NoPowerShell,
            },
        ),
    }
}

/// A Store package as the package query reports it.
#[derive(Debug, Clone, PartialEq, Eq)]
pub struct OfficialPackageRecord {
    pub name: String,
    pub package_full_name: String,
    pub package_family_name: String,
    pub version: String,
    pub signature_kind: String,
    pub is_development_mode: bool,
    pub install_location: String,
}

/// Why a Store package is not accepted.
#[derive(Debug, Clone, Copy, PartialEq, Eq, Structural)]
pub enum PackageError {
    WrongName,
    WrongFamily,
    NotStoreSigned,
    DevelopmentMode,
    InvalidVersion,
    FullNameMismatch,
    LocationMismatch,
    NotUnderWindowsApps,
    InvalidArchitecture,
    LocationNotAbsolute,
    InvalidQueryOutput,
    InvalidDevelopmentMode,
    QueryFailed,
    NotUtf8,
}

/// A four-part dotted version, each part a `u32`.
pub open spec fn four_part_version(version: Seq<char>) -> bool {
    let parts = split_on(version, '.');
    parts.len() == 4 && forall|i: int|
        0 <= i < 4 ==> (#[trigger] parts[i]).len() > 0 && parse_unsigned(parts[i], u32::MAX as nat)
            is Some
}

fn four_part_version_exec(version: &str) -> (r: bool)
    ensures
        r == four_part_version(version@),
{
    let parts = split_chars(&chars_of(version), '.');
    if parts.len() != 4 {
        return false;
    }
    let mut i: usize = 0;
    while i < 4
        invariant
            i <= 4,
            parts@.len() == 4,
            split_on(version@, '.').len() == 4,
            forall|k: int| 0 <= k < 4 ==> #[trigger] parts@[k]@ == split_on(version@, '.')[k],
            forall|k: int|
                0 <= k < i ==> (#[trigger] split_on(version@, '.')[k]).len() > 0 && parse_unsigned(
                    split_on(version@, '.')[k],
                    u32::MAX as nat,
                ) is Some,
        decreases 4 - i,
    {
        assert(parts@[i as int]@ == split_on(version@, '.')[i as int]);
        if parts[i].len() == 0 || parse_unsigned_chars(&parts[i], 4294967295).is_none() {
            return false;
        }
        i += 1;
    }
    true
}

/// The parent directory's final component of a path.
pub open spec fn parent_name(path: Seq<char>) -> Option<Seq<char>> {
    match parent(path) {
        Some(p) => file_name(p),
        None => None,
    }
}

fn parent_name_is_windows_apps(path: &str) -> (r: bool)
    ensures
        r == (parent_name(path@) matches Some(n) && eq_ignore_case(n, "WindowsApps"@)),
{
    match parent_chars(&chars_of(path)) {
        Some(p) => match file_name_chars(&p) {
            Some(n) => chars_eq_ignore_case(&n, &chars_of("WindowsApps")),
            None => false,
        },
        None => false,
    }
}

fn file_name_is(path: &str, expected: &str) -> (r: bool)
    ensures
        r == (file_name(path@) == Some(expected@)),
{
    match file_name_chars(&chars_of(path)) {
        Some(n) => chars_eq(&n, &chars_of(expected)),
        None => false,
    }
}

/// The checks on the official Codex package record, in order.
pub open spec fn package_record_check(r: OfficialPackageRecord) -> Result<(), PackageError> {
    if r.name@ != OFFICIAL_PACKAGE_NAME@ {
        Err(PackageError::WrongName)
    } else if r.package_family_name@ != OFFICIAL_PACKAGE_FAMILY@ {
        Err(PackageError::WrongFamily)
    } else if !eq_ignore_case(r.signature_kind@, "Store"@) {
        Err(PackageError::NotStoreSigned)
    } else if r.is_development_mode {
        Err(PackageError::DevelopmentMode)
    } else if !four_part_version(r.version@) {
        Err(PackageError::InvalidVersion)
    } else if !(starts_with(
        r.package_full_name@,
        OFFICIAL_PACKAGE_NAME@ + "_"@ + r.version@ + "_"@,
    ) && ends_with(r.package_full_name@, "__"@ + OFFICIAL_PUBLISHER_ID@)) {
        Err(PackageError::FullNameMismatch)
    } else if file_name(r.install_location@) != Some(r.package_full_name@) {
        Err(PackageError::LocationMismatch)
    } else if !(parent_name(r.install_location@) matches Some(n) && eq_ignore_case(
        n,
        "WindowsApps"@,
    )) {
        Err(PackageError::NotUnderWindowsApps)
    } else {
        Ok(())
    }
}

/// Accepts only the official Codex Store package: exact name and family,
/// Store signed, not in development mode, a four-part version, a full name
/// made of name, version and publisher, installed under `WindowsApps` in a
/// directory named after the full name.
pub fn validate_package_record_structure(record: &OfficialPackageRecord) -> (r: Result<
    (),
    PackageError,
>)
    ensures
        r == package_record_check(*record),
{
    if !str_eq(record.name.as_str(), OFFICIAL_PACKAGE_NAME) {
        return Err(PackageError::WrongName);
    }
    if !str_eq(record.package_family_name.as_str(), OFFICIAL_PACKAGE_FAMILY) {
        return Err(PackageError::WrongFamily);
    }
    if !str_eq_ignore_case(record.signature_kind.as_str(), "Store") {
        return Err(PackageError::NotStoreSigned);
    }
    if record.is_development_mode {
        return Err(PackageError::DevelopmentMode);
    }
    if !four_part_version_exec(record.version.as_str()) {
        return Err(PackageError::InvalidVersion);
    }
    let full = chars_of(record.package_full_name.as_str());
    let mut prefix: Vec<char> = Vec::new();
    push_str(&mut prefix, OFFICIAL_PACKAGE_NAME);
    push_str(&mut prefix, "_");
    push_str(&mut prefix, record.version.as_str());
    push_str(&mut prefix, "_");
    let mut suffix: Vec<char> = Vec::new();
    push_str(&mut suffix, "__");
    push_str(&mut suffix, OFFICIAL_PUBLISHER_ID);
    if !(starts_with_chars(&full, &prefix) && ends_with_chars(&full, &suffix)) {
        return Err(PackageError::FullNameMismatch);
    }
    if !file_name_is(record.install_location.as_str(), record.package_full_name.as_str()) {
        return Err(PackageError::LocationMismatch);
    }
    if !parent_name_is_windows_apps(record.install_location.as_str()) {
        return Err(PackageError::NotUnderWindowsApps);
    }
    Ok(())
}

/// Whether a Windows path is absolute: a drive letter, `:` and a separator,
/// or two leading separators (a UNC or device path).
pub open spec fn windows_absolute(path: Seq<char>) -> bool {
    (path.len() >= 3 && (('a' <= path[0] && path[0] <= 'z') || ('A' <= path[0] && path[0] <= 'Z'))
        && path[1] == ':' && is_sep(path[2])) || (path.len() >= 2 && is_sep(path[0]) && is_sep(
        path[1],
    ))
}

fn windows_absolute_exec(path: &str) -> (r: bool)
    ensures
        r == windows_absolute(path@),
{
    let p = chars_of(path);
    let drive = p.len() >= 3 && (('a' <= p[0] && p[0] <= 'z') || ('A' <= p[0] && p[0] <= 'Z'))
        && p[1] == ':' && (p[2] == '\\' || p[2] == '/');
    let unc = p.len() >= 2 && (p[0] == '\\' || p[0] == '/') && (p[1] == '\\' || p[1] == '/');
    drive || unc
}

/// The normalized architecture of a PowerShell package (`x64`, `x86` or
/// `arm64`, matched ignoring ASCII case).
pub open spec fn store_architecture(arch: Seq<char>) -> Option<Seq<char>> {
    if lower_seq(arch) == "x64"@ {
        Some("x64"@)
    } else if lower_seq(arch) == "x86"@ {
        Some("x86"@)
    } else if lower_seq(arch) == "arm64"@ {
        Some("arm64"@)
    } else {
        None
    }
}

/// The checks on the PowerShell 7 Store package record, in order, and the
/// executable they lead to.
pub open spec fn store_powershell7_check(
    name: Seq<char>,
    full_name: Seq<char>,
    version: Seq<char>,
    architecture: Seq<char>,
    install_location: Seq<char>,
) -> Result<Seq<char>, PackageError> {
    if name != POWERSHELL_STORE_PACKAGE_NAME@ {
        Err(PackageError::WrongName)
    } else if !(four_part_version(version) && split_on(version, '.')[0] == "7"@) {
        Err(PackageError::InvalidVersion)
    } else {
        match store_architecture(architecture) {
            None => Err(PackageError::InvalidArchitecture),
            Some(arch) => if full_name != POWERSHELL_STORE_PACKAGE_NAME@ + "_"@ + version + "_"@
                + arch + "__"@ + POWERSHELL_STORE_PUBLISHER_ID@ {
                Err(PackageError::FullNameMismatch)
            } else if !windows_absolute(install_location) {
                Err(PackageError::LocationNotAbsolute)
            } else if file_name(install_location) != Some(full_name) {
                Err(PackageError::LocationMismatch)
            } else if !(parent_name(install_location) matches Some(n) && eq_ignore_case(
                n,
                "WindowsApps"@,
            )) {
                Err(PackageError::NotUnderWindowsApps)
            } else {
                Ok(join(install_location, "pwsh.exe"@))
            },
        }
    }
}

fn lower_chars(v: &Vec<char>) -> (r: Vec<char>)
    ensures
        r@ == lower_seq(v@),
{
    let mut r: Vec<char> = Vec::new();
    let mut i: usize = 0;
    while i < v.len()
        invariant
            i <= v.len(),
            r@ == lower_seq(v@).take(i as int),
        decreases v.len() - i,
    {
        r.push(to_ascii_lower(v[i]));
        assert(lower_seq(v@).take(i + 1) =~= r@);
        i += 1;
    }
    assert(lower_seq(v@).take(v.len() as int) =~= lower_seq(v@));
    r
}

/// Validates the PowerShell 7 Store package the package query reported and
/// gives the path of its `pwsh.exe` (whose existence and reparse-free path
/// the caller still checks).
pub fn validate_store_powershell7_record(
    name: &str,
    package_full_name: &str,
    version: &str,
    architecture: &str,
    install_location: &str,
) -> (r: Result<String, PackageError>)
    ensures
        r matches Ok(p) ==> store_powershell7_check(
            name@,
            package_full_name@,
            version@,
            architecture@,
            install_location@,
        ) == Ok::<Seq<char>, PackageError>(p@),
        r matches Err(e) ==> store_powershell7_check(
            name@,
            package_full_name@,
            version@,
            architecture@,
            install_location@,
        ) == Err::<Seq<char>, PackageError>(e),
{
    if !str_eq(name, POWERSHELL_STORE_PACKAGE_NAME) {
        return Err(PackageError::WrongName);
    }
    if !four_part_version_exec(version) {
        return Err(PackageError::InvalidVersion);
    }
    let parts = split_chars(&chars_of(version), '.');
    if !chars_eq(&parts[0], &chars_of("7")) {
        return Err(PackageError::InvalidVersion);
    }
    let lower = lower_chars(&chars_of(architecture));
    let arch = if chars_eq(&lower, &chars_of("x64")) {
        "x64"
    } else if chars_eq(&lower, &chars_of("x86")) {
        "x86"
    } else if chars_eq(&lower, &chars_of("arm64")) {
        "arm64"
    } else {
        return Err(PackageError::InvalidArchitecture);
    };
    let mut expected: Vec<char> = Vec::new();
    push_str(&mut expected, POWERSHELL_STORE_PACKAGE_NAME);
    push_str(&mut expected, "_");
    push_str(&mut expected, version);
    push_str(&mut expected, "_");
    push_str(&mut expected, arch);
    push_str(&mut expected, "__");
    push_str(&mut expected, POWERSHELL_STORE_PUBLISHER_ID);
    if !chars_eq(&chars_of(package_full_name), &expected) {
        return Err(PackageError::FullNameMismatch);
    }
    if !windows_absolute_exec(install_location) {
        return Err(PackageError::LocationNotAbsolute);
    }
    if !file_name_is(install_location, package_full_name) {
        return Err(PackageError::LocationMismatch);
    }
    if !parent_name_is_windows_apps(install_location) {
        return Err(PackageError::NotUnderWindowsApps);
    }
    Ok(string_of(&join_chars(&chars_of(install_location), &chars_of("pwsh.exe"))))
}

/// The process creation flag that keeps a console program's window hidden.
pub const CREATE_NO_WINDOW: u32 = 0x0800_0000;

/// A program the broker starts, with its arguments and creation flags.
#[derive(Debug, Clone, PartialEq, Eq)]
pub struct HiddenCommand {
    pub program: String,
    pub args: Vec<String>,
    /// Variables added to the inherited environment.
    pub env: Vec<(String, String)>,
    pub creation_flags: u32,
}

/// Text with every `'` doubled, for a single-quoted PowerShell string.
pub open spec fn ps_quote_escaped(s: Seq<char>) -> Seq<char>
    decreases s.len(),
{
    if s.len() == 0 {
        Seq::empty()
    } else {
        ps_quote_escaped(s.drop_last()) + if s.last() == '\'' {
            seq!['\'', '\'']
        } else {
            seq![s.last()]
        }
    }
}

fn ps_quote_escape(s: &Vec<char>) -> (r: Vec<char>)
    ensures
        r@ == ps_quote_escaped(s@),
{
    let mut r: Vec<char> = Vec::new();
    let mut i: usize = 0;
    while i < s.len()
        invariant
            i <= s.len(),
            r@ == ps_quote_escaped(s@.take(i as int)),
        decreases s.len() - i,
    {
        assert(s@.take(i + 1).drop_last() =~= s@.take(i as int));
        if s[i] == '\'' {
            r.push('\'');
            r.push('\'');
        } else {
            r.push(s[i]);
        }
        i += 1;
    }
    assert(s@.take(s.len() as int) =~= s@);
    r
}

/// Windows PowerShell under the trusted system directory.
pub open spec fn windows_powershell_path(system_directory: Seq<char>) -> Seq<char> {
    join(join(join(system_directory, "WindowsPowerShell"@), "v1.0"@), "powershell.exe"@)
}

/// The Appx module under the trusted system directory.
pub open spec fn appx_module_path(system_directory: Seq<char>) -> Seq<char> {
    join(
        join(join(join(join(system_directory, "WindowsPowerShell"@), "v1.0"@), "Modules"@), "Appx"@),
        "Appx.psd1"@,
    )
}

/// The script that prints the newest official Codex package's fields, or
/// exits with code 3 when it is not installed.
pub open spec fn official_package_script(module: Seq<char>) -> Seq<char> {
    "$ErrorActionPreference='Stop'; Import-Module -Name '"@ + ps_quote_escaped(module)
        + "' -Force -ErrorAction Stop; $p=Appx\\Get-AppxPackage -Name OpenAI.Codex | Sort-Object Version -Descending | Select-Object -First 1; if($null -eq $p){exit 3}; @($p.Name,$p.PackageFullName,$p.PackageFamilyName,$p.Version.ToString(),$p.SignatureKind.ToString(),$p.IsDevelopmentMode.ToString(),$p.InstallLocation) -join \"`t\""@
}

/// The script that prints the newest PowerShell Store package's fields for
/// a desktop architecture, or exits with code 3 when there is none.
pub open spec fn store_powershell_script(module: Seq<char>) -> Seq<char> {
    "$ErrorActionPreference='Stop'; Import-Module -Name '"@ + ps_quote_escaped(module)
        + "' -Force -ErrorAction Stop; $p=Appx\\Get-AppxPackage -Name Microsoft.PowerShell | Where-Object { $_.Architecture.ToString() -match 'X64|X86|Arm64' } | Sort-Object Version -Descending | Select-Object -First 1; if($null -eq $p){exit 3}; $root=[IO.Path]::GetFullPath([string]$p.InstallLocation); @($p.Name,$p.PackageFullName,$p.Version.ToString(),$p.Architecture.ToString(),$root) -join \"`t\""@
}

/// The hidden Windows PowerShell command that asks for the official Codex
/// package, loading the Appx module from the trusted system directory.
pub fn official_package_query_command(system_directory: &str) -> (r: HiddenCommand)
    ensures
        r.program@ == windows_powershell_path(system_directory@),
        str_views(r.args@) == seq![
            "-NoProfile"@,
            "-NonInteractive"@,
            "-ExecutionPolicy"@,
            "Bypass"@,
            "-Command"@,
            official_package_script(appx_module_path(system_directory@)),
        ],
        r.env@.len() == 0,
        r.creation_flags == CREATE_NO_WINDOW,
{
    let (program, module) = powershell_and_module(system_directory);
    let mut script: Vec<char> = Vec::new();
    push_str(&mut script, "$ErrorActionPreference='Stop'; Import-Module -Name '");
    push_chars(&mut script, &ps_quote_escape(&module));
    push_str(
        &mut script,
        "' -Force -ErrorAction Stop; $p=Appx\\Get-AppxPackage -Name OpenAI.Codex | Sort-Object Version -Descending | Select-Object -First 1; if($null -eq $p){exit 3}; @($p.Name,$p.PackageFullName,$p.PackageFamilyName,$p.Version.ToString(),$p.SignatureKind.ToString(),$p.IsDevelopmentMode.ToString(),$p.InstallLocation) -join \"`t\"",
    );
    let mut args: Vec<String> = Vec::new();
    args.push("-NoProfile".to_owned());
    args.push("-NonInteractive".to_owned());
    args.push("-ExecutionPolicy".to_owned());
    args.push("Bypass".to_owned());
    args.push("-Command".to_owned());
    args.push(string_of(&script));
    assert(str_views(args@) =~= seq![
        "-NoProfile"@,
        "-NonInteractive"@,
        "-ExecutionPolicy"@,
        "Bypass"@,
        "-Command"@,
        official_package_script(appx_module_path(system_directory@)),
    ]);
    HiddenCommand { program, args, env: Vec::new(), creation_flags: CREATE_NO_WINDOW }
}

/// The hidden Windows PowerShell command that asks for the PowerShell 7
/// Store package, loading the Appx module from the trusted system directory.
pub fn store_powershell_query_command(system_directory: &str) -> (r: HiddenCommand)
    ensures
        r.program@ == windows_powershell_path(system_directory@),
        str_views(r.args@) == seq![
            "-NoLogo"@,
            "-NoProfile"@,
            "-NonInteractive"@,
            "-ExecutionPolicy"@,
            "Bypass"@,
            "-Command"@,
            store_powershell_script(appx_module_path(system_directory@)),
        ],
        r.env@.len() == 0,
        r.creation_flags == CREATE_NO_WINDOW,
{
    let (program, module) = powershell_and_module(system_directory);
    let mut script: Vec<char> = Vec::new();
    push_str(&mut script, "$ErrorActionPreference='Stop'; Import-Module -Name '");
    push_chars(&mut script, &ps_quote_escape(&module));
    push_str(
        &mut script,
        "' -Force -ErrorAction Stop; $p=Appx\\Get-AppxPackage -Name Microsoft.PowerShell | Where-Object { $_.Architecture.ToString() -match 'X64|X86|Arm64' } | Sort-Object Version -Descending | Select-Object -First 1; if($null -eq $p){exit 3}; $root=[IO.Path]::GetFullPath([string]$p.InstallLocation); @($p.Name,$p.PackageFullName,$p.Version.ToString(),$p.Architecture.ToString(),$root) -join \"`t\"",
    );
    let mut args: Vec<String> = Vec::new();
    args.push("-NoLogo".to_owned());
    args.push("-NoProfile".to_owned());
    args.push("-NonInteractive".to_owned());
    args.push("-ExecutionPolicy".to_owned());
    args.push("Bypass".to_owned());
    args.push("-Command".to_owned());
    args.push(string_of(&script));
    assert(str_views(args@) =~= seq![
        "-NoLogo"@,
        "-NoProfile"@,
        "-NonInteractive"@,
        "-ExecutionPolicy"@,
        "Bypass"@,
        "-Command"@,
        store_powershell_script(appx_module_path(system_directory@)),
    ]);
    HiddenCommand { program, args, env: Vec::new(), creation_flags: CREATE_NO_WINDOW }
}

pub(crate) fn powershell_and_module(system_directory: &str) -> (r: (String, Vec<char>))
    ensures
        r.0@ == windows_powershell_path(system_directory@),
        r.1@ == appx_module_path(system_directory@),
{
    let base = join_chars(&join_chars(&chars_of(system_directory), &chars_of("WindowsPowerShell")), &chars_of("v1.0"));
    let program = string_of(&join_chars(&base, &chars_of("powershell.exe")));
    let module = join_chars(
        &join_chars(&join_chars(&base, &chars_of("Modules")), &chars_of("Appx")),
        &chars_of("Appx.psd1"),
    );
    (program, module)
}

/// The tab-separated fields of a package query's trimmed output.
pub open spec fn query_fields(stdout: Seq<char>) -> Seq<Seq<char>> {
    split_on(trim(stdout), '\t')
}

/// The development-mode flag the package query printed: `true` or `false`
/// in any ASCII case.
pub open spec fn development_mode_value(s: Seq<char>) -> Option<bool> {
    if eq_ignore_case(s, "true"@) {
        Some(true)
    } else if eq_ignore_case(s, "false"@) {
        Some(false)
    } else {
        None
    }
}

/// What a finished package query means: exit code 3 reports that the
/// package is not installed, another non-zero code (or none) a failed query.
pub open spec fn query_status(exit_code: Option<i32>) -> Option<Result<(), PackageError>> {
    if exit_code == Some(3i32) {
        None
    } else if exit_code != Some(0i32) {
        Some(Err(PackageError::QueryFailed))
    } else {
        Some(Ok(()))
    }
}

/// The official package record printed by the package query: seven
/// tab-separated fields (name, full name, family, version, signature kind,
/// development mode, install location) after trimming.
pub fn parse_official_package_query(stdout: &str) -> (r: Result<OfficialPackageRecord, PackageError>)
    ensures
        r is Ok <==> (query_fields(stdout@).len() == 7 && development_mode_value(
            query_fields(stdout@)[5],
        ) is Some),
        r matches Ok(rec) ==> {
            let f = query_fields(stdout@);
            &&& rec.name@ == f[0]
            &&& rec.package_full_name@ == f[1]
            &&& rec.package_family_name@ == f[2]
            &&& rec.version@ == f[3]
            &&& rec.signature_kind@ == f[4]
            &&& Some(rec.is_development_mode) == development_mode_value(f[5])
            &&& rec.install_location@ == f[6]
        },
        r matches Err(e) ==> e == (if query_fields(stdout@).len() != 7 {
            PackageError::InvalidQueryOutput
        } else {
            PackageError::InvalidDevelopmentMode
        }),
{
    let fields = split_chars(&trim_chars(&chars_of(stdout)), '\t');
    if fields.len() != 7 {
        return Err(PackageError::InvalidQueryOutput);
    }
    let is_development_mode = if chars_eq_ignore_case(&fields[5], &chars_of("true")) {
        true
    } else if chars_eq_ignore_case(&fields[5], &chars_of("false")) {
        false
    } else {
        return Err(PackageError::InvalidDevelopmentMode);
    };
    Ok(OfficialPackageRecord {
        name: string_of(&fields[0]),
        package_full_name: string_of(&fields[1]),
        package_family_name: string_of(&fields[2]),
        version: string_of(&fields[3]),
        signature_kind: string_of(&fields[4]),
        is_development_mode,
        install_location: string_of(&fields[6]),
    })
}

/// What the official-package query reported, from its exit code and raw
/// output: `None` when the package is not installed (exit code 3), else the
/// record its output holds.
pub fn official_package_query_outcome(exit_code: Option<i32>, stdout: Vec<u8>) -> (r: Result<
    Option<OfficialPackageRecord>,
    PackageError,
>)
    ensures
        query_status(exit_code) is None ==> r == Ok::<Option<OfficialPackageRecord>, PackageError>(
            None,
        ),
        query_status(exit_code) == Some(Err::<(), PackageError>(PackageError::QueryFailed)) ==> r
            == Err::<Option<OfficialPackageRecord>, PackageError>(PackageError::QueryFailed),
        query_status(exit_code) == Some(Ok::<(), PackageError>(())) && !valid_utf8(stdout@) ==> r
            == Err::<Option<OfficialPackageRecord>, PackageError>(PackageError::NotUtf8),
        query_status(exit_code) == Some(Ok::<(), PackageError>(())) && valid_utf8(stdout@) ==> {
            let f = query_fields(decode_utf8(stdout@));
            &&& (r is Ok <==> (f.len() == 7 && development_mode_value(f[5]) is Some))
            &&& (r matches Ok(Some(rec)) ==> {
                &&& rec.name@ == f[0]
                &&& rec.package_full_name@ == f[1]
                &&& rec.package_family_name@ == f[2]
                &&& rec.version@ == f[3]
                &&& rec.signature_kind@ == f[4]
                &&& Some(rec.is_development_mode) == development_mode_value(f[5])
                &&& rec.install_location@ == f[6]
            })
            &&& r != Ok::<Option<OfficialPackageRecord>, PackageError>(None)
            &&& (r matches Err(e) ==> e == (if f.len() != 7 {
                PackageError::InvalidQueryOutput
            } else {
                PackageError::InvalidDevelopmentMode
            }))
        },
{
    if exit_code == Some(3i32) {
        return Ok(None);
    }
    if exit_code != Some(0i32) {
        return Err(PackageError::QueryFailed);
    }
    let text = match string_from_utf8(stdout) {
        Ok(text) => text,
        Err(_) => return Err(PackageError::NotUtf8),
    };
    match parse_official_package_query(text.as_str()) {
        Ok(record) => Ok(Some(record)),
        Err(e) => Err(e),
    }
}

/// What the PowerShell 7 Store package query reported, from its exit code
/// and raw output: `None` when the query did not succeed, else the path of
/// `pwsh.exe` in the package its five tab-separated fields (name, full name,
/// version, architecture, install location) describe.
pub fn store_powershell7_query_outcome(exit_code: Option<i32>, stdout: Vec<u8>) -> (r: Result<
    Option<String>,
    PackageError,
>)
    ensures
        exit_code != Some(0i32) ==> r == Ok::<Option<String>, PackageError>(None),
        exit_code == Some(0i32) && !valid_utf8(stdout@) ==> r == Err::<Option<String>, PackageError>(
            PackageError::NotUtf8,
        ),
        exit_code == Some(0i32) && valid_utf8(stdout@) ==> {
            let f = query_fields(decode_utf8(stdout@));
            &&& f.len() != 5 ==> r == Err::<Option<String>, PackageError>(
                PackageError::InvalidQueryOutput,
            )
            &&& f.len() == 5 ==> match store_powershell7_check(f[0], f[1], f[2], f[3], f[4]) {
                Ok(p) => r matches Ok(Some(q)) && q@ == p,
                Err(e) => r == Err::<Option<String>, PackageError>(e),
            }
        },
{
    if exit_code != Some(0i32) {
        return Ok(None);
    }
    let text = match string_from_utf8(stdout) {
        Ok(text) => text,
        Err(_) => return Err(PackageError::NotUtf8),
    };
    let fields = split_chars(&trim_chars(&chars_of(text.as_str())), '\t');
    if fields.len() != 5 {
        return Err(PackageError::InvalidQueryOutput);
    }
    let name = string_of(&fields[0]);
    let full_name = string_of(&fields[1]);
    let version = string_of(&fields[2]);
    let architecture = string_of(&fields[3]);
    let location = string_of(&fields[4]);
    match validate_store_powershell7_record(
        name.as_str(),
        full_name.as_str(),
        version.as_str(),
        architecture.as_str(),
        location.as_str(),
    ) {
        Ok(path) => Ok(Some(path)),
        Err(e) => Err(e),
    }
}

/// A path without the `\\?\` extended-length prefix.
pub open spec fn strip_extended(p: Seq<char>) -> Seq<char> {
    if starts_with(p, "\\\\?\\"@) {
        p.skip(4)
    } else {
        p
    }
}

fn strip_extended_chars(p: &Vec<char>) -> (r: Vec<char>)
    ensures
        r@ == strip_extended(p@),
{
    let prefix = chars_of("\\\\?\\");
    proof {
        reveal_strlit("\\\\?\\");
    }
    if starts_with_chars(p, &prefix) {
        sub_chars(p, 4, p.len())
    } else {
        sub_chars(p, 0, p.len())
    }
}

/// A path without the `\\?\` extended-length prefix.
pub fn normalize_extended_path(path: &str) -> (r: String)
    ensures
        r@ == strip_extended(path@),
{
    string_of(&strip_extended_chars(&chars_of(path)))
}

/// Whether two paths are the same text once any `\\?\` prefix is dropped,
/// ignoring ASCII case.
pub fn paths_equal_ignore_ascii_case(left: &str, right: &str) -> (r: bool)
    ensures
        r == eq_ignore_case(strip_extended(left@), strip_extended(right@)),
{
    let l = strip_extended_chars(&chars_of(left));
    let r = strip_extended_chars(&chars_of(right));
    chars_eq_ignore_case(&l, &r)
}

/// Where the elevated terminal's trusted client image lives:
/// `admin-terminal\pwsh.exe` next to the terminal host.
pub open spec fn terminal_client_image_spec(terminal_host: Seq<char>) -> Option<Seq<char>> {
    match parent(terminal_host) {
        Some(dir) => Some(join(join(dir, "admin-terminal"@), "pwsh.exe"@)),
        None => None,
    }
}

/// Whether a terminal client's process image is the trusted terminal
/// compatibility shim; `None` when the terminal host has no directory.
pub fn terminal_client_image_trusted(image: &str, terminal_host: &str) -> (r: Option<bool>)
    ensures
        terminal_client_image_spec(terminal_host@) is None ==> r is None,
        terminal_client_image_spec(terminal_host@) matches Some(expected) ==> r == Some(
            eq_ignore_case(strip_extended(image@), strip_extended(expected)),
        ),
{
    match parent_chars(&chars_of(terminal_host)) {
        None => None,
        Some(dir) => {
            let a = join_chars(&dir, &chars_of("admin-terminal"));
            let expected = string_of(&join_chars(&a, &chars_of("pwsh.exe")));
            Some(paths_equal_ignore_ascii_case(image, expected.as_str()))
        },
    }
}

/// The official executable inside a package install location:
/// `app\resources\codex.exe`.
pub open spec fn official_executable_spec(install_location: Seq<char>) -> Seq<char> {
    join(join(join(install_location, "app"@), "resources"@), "codex.exe"@)
}

/// The official executable inside a package install location.
pub fn official_executable_path(install_location: &str) -> (r: String)
    ensures
        r@ == official_executable_spec(install_location@),
{
    let a = join_chars(&chars_of(install_location), &chars_of("app"));
    let b = join_chars(&a, &chars_of("resources"));
    string_of(&join_chars(&b, &chars_of("codex.exe")))
}

/// The result of a step that also needed cleaning up after.
#[derive(Debug, Clone, PartialEq, Eq)]
pub enum MergedError<E> {
    /// The step failed; the cleanup succeeded.
    Primary(E),
    /// The step succeeded; the cleanup failed.
    Cleanup(E),
    /// Both failed; the step's error comes first.
    Both { primary: E, cleanup: E },
}

/// Combines a step's result with its cleanup's, hiding neither error.
pub fn merge_primary_and_cleanup<T, E>(primary: Result<T, E>, cleanup: Result<(), E>) -> (r: Result<
    T,
    MergedError<E>,
>)
    ensures
        (primary is Ok && cleanup is Ok) ==> r == Ok::<T, MergedError<E>>(primary->Ok_0),
        (primary is Err && cleanup is Ok) ==> r == Err::<T, MergedError<E>>(
            MergedError::Primary(primary->Err_0),
        ),
        (primary is Ok && cleanup is Err) ==> r == Err::<T, MergedError<E>>(
            MergedError::Cleanup(cleanup->Err_0),
        ),
        (primary is Err && cleanup is Err) ==> r == Err::<T, MergedError<E>>(
            MergedError::Both { primary: primary->Err_0, cleanup: cleanup->Err_0 },
        ),
{
    match (primary, cleanup) {
        (Ok(value), Ok(())) => Ok(value),
        (Err(error), Ok(())) => Err(MergedError::Primary(error)),
        (Ok(_), Err(cleanup)) => Err(MergedError::Cleanup(cleanup)),
        (Err(error), Err(cleanup)) => Err(MergedError::Both { primary: error, cleanup }),
    }
}

/// Whether two proofs have the same SHA-256 digest.
pub open spec fn proofs_match(provided: Seq<u8>, expected: Seq<u8>) -> bool {
    sha256(provided) == sha256(expected)
}

/// Compares two proofs through their SHA-256 digests, touching every digest
/// byte whatever the proofs hold; the digests are wiped afterwards.
pub fn constant_time_proof_eq(provided: &[u8], expected: &[u8]) -> (r: bool)
    ensures
        r == proofs_match(provided@, expected@),
{
    let mut a = sha256_digest(provided);
    let mut b = sha256_digest(expected);
    let mut difference: u8 = 0;
    let mut i: usize = 0;
    while i < 32
        invariant
            i <= 32,
            a@.len() == 32,
            b@.len() == 32,
            (difference == 0) == (forall|k: int| 0 <= k < i ==> a@[k] == b@[k]),
        decreases 32 - i,
    {
        let x = a[i];
        let y = b[i];
        let d = difference;
        assert((d | (x ^ y)) == 0 <==> (d == 0 && x == y)) by (bit_vector);
        difference = d | (x ^ y);
        i += 1;
    }
    let equal = difference == 0;
    assert(equal == (a@ =~= b@));
    crate::shim::clear_secret(&mut a);
    crate::shim::clear_secret(&mut b);
    equal
}

/// A client hello as the broker received it.
#[derive(Debug, Clone, PartialEq, Eq)]
pub struct BrokerHello {
    pub protocol: u8,
    pub session_id: String,
    pub mode: String,
    pub client_pid: u32,
    pub proof: String,
    pub helper_args: Option<Vec<String>>,
}

/// What an admitted exec-broker client asked for.
#[derive(Debug, Clone, PartialEq, Eq)]
pub enum ClientRequest {
    Exec,
    AppServer(Vec<String>),
    Terminal { client_pid: u32, cwd: String, shell_args: Vec<String> },
}

/// What starting the administrator exec broker needs: the official
/// executable, the readiness probe, the pipe and session, and the account
/// and logon session its clients must belong to.
#[derive(Debug, Clone, PartialEq, Eq)]
pub struct AdminExecConfig {
    pub codex_exe: String,
    pub readiness_probe_exe: String,
    pub pipe_name: String,
    pub session_id: String,
    pub session_proof: String,
    pub expected_user_sid: String,
    pub expected_logon_sid: String,
}

/// The helper arguments of a hello; none counts as an empty list.
pub open spec fn hello_args(hello: BrokerHello) -> Seq<Seq<char>> {
    match hello.helper_args {
        Some(v) => str_views(v@),
        None => seq![],
    }
}

/// Whether a hello proves the session and comes from the trusted account:
/// protocol 1, the session id, a proof with the session proof's digest, the
/// pipe client's own pid, and the expected user and logon session.
pub open spec fn hello_authentic(
    hello: BrokerHello,
    pipe_pid: u32,
    identity: Result<WindowsIdentity, IdentityError>,
    session_id: Seq<char>,
    proof: Seq<char>,
    expected_sid: Seq<char>,
    expected_logon_sid: Seq<char>,
) -> bool {
    &&& hello.protocol == 1
    &&& hello.session_id@ == session_id
    &&& proofs_match(encode_utf8(hello.proof@), encode_utf8(proof))
    &&& hello.client_pid == pipe_pid
    &&& identity matches Ok(id) && eq_ignore_case(id.user_sid@, expected_sid) && eq_ignore_case(
        id.logon_sid@,
        expected_logon_sid,
    )
}

/// The request an authentic exec-broker hello makes, if it is well formed.
pub enum ClientRequestModel {
    Exec,
    AppServer(Seq<Seq<char>>),
    Terminal { client_pid: u32, cwd: Seq<char>, shell_args: Seq<Seq<char>> },
}

/// The model of a [`ClientRequest`].
pub open spec fn request_model(r: ClientRequest) -> ClientRequestModel {
    match r {
        ClientRequest::Exec => ClientRequestModel::Exec,
        ClientRequest::AppServer(a) => ClientRequestModel::AppServer(str_views(a@)),
        ClientRequest::Terminal { client_pid, cwd, shell_args } => ClientRequestModel::Terminal {
            client_pid,
            cwd: cwd@,
            shell_args: str_views(shell_args@),
        },
    }
}

/// What the exec broker admits: `exec` without helper arguments,
/// `app-server` with arguments that include `app-server`, or `terminal`
/// whose first argument (the working directory) is not empty.
pub open spec fn exec_request_spec(hello: BrokerHello, authentic: bool) -> Option<ClientRequestModel> {
    if !authentic {
        None
    } else if hello.mode@ == "exec"@ && hello.helper_args is None {
        Some(ClientRequestModel::Exec)
    } else if hello.mode@ == "app-server"@ {
        let args = hello_args(hello);
        if args.len() == 0 || !args.contains("app-server"@) {
            None
        } else {
            Some(ClientRequestModel::AppServer(args))
        }
    } else if hello.mode@ == "terminal"@ {
        let args = hello_args(hello);
        if args.len() == 0 || args[0].len() == 0 {
            None
        } else {
            Some(
                ClientRequestModel::Terminal {
                    client_pid: hello.client_pid,
                    cwd: args[0],
                    shell_args: args.skip(1),
                },
            )
        }
    } else {
        None
    }
}

fn hello_args_exec(hello: &BrokerHello) -> (r: Vec<String>)
    ensures
        str_views(r@) == hello_args(*hello),
{
    match &hello.helper_args {
        Some(v) => crate::text::clone_strings(v),
        None => {
            let v: Vec<String> = Vec::new();
            assert(str_views(v@) =~= Seq::<Seq<char>>::empty());
            v
        },
    }
}

/// Whether a hello is authentic (see [`hello_authentic`]).
pub fn authenticate_hello(
    hello: &BrokerHello,
    pipe_pid: u32,
    identity: Result<WindowsIdentity, IdentityError>,
    session_id: &str,
    proof: &str,
    expected_sid: &str,
    expected_logon_sid: &str,
) -> (r: bool)
    ensures
        r == hello_authentic(
            *hello,
            pipe_pid,
            identity,
            session_id@,
            proof@,
            expected_sid@,
            expected_logon_sid@,
        ),
{
    let provided = utf8_bytes(&hello.proof);
    let expected_proof = proof.to_owned();
    let expected = utf8_bytes(&expected_proof);
    let proof_matches = constant_time_proof_eq(provided.as_slice(), expected.as_slice());
    let trusted = trusted_client_identity(identity, expected_sid, expected_logon_sid);
    hello.protocol == 1 && str_eq(hello.session_id.as_str(), session_id) && proof_matches
        && hello.client_pid == pipe_pid && trusted
}

/// The exec broker's decision on a hello: the request it admits, or `None`
/// for a rejection.
pub fn authenticate(
    hello: &BrokerHello,
    pipe_pid: u32,
    identity: Result<WindowsIdentity, IdentityError>,
    session_id: &str,
    proof: &str,
    expected_sid: &str,
    expected_logon_sid: &str,
) -> (r: Option<ClientRequest>)
    ensures
        match r {
            Some(req) => exec_request_spec(
                *hello,
                hello_authentic(
                    *hello,
                    pipe_pid,
                    identity,
                    session_id@,
                    proof@,
                    expected_sid@,
                    expected_logon_sid@,
                ),
            ) == Some(request_model(req)),
            None => exec_request_spec(
                *hello,
                hello_authentic(
                    *hello,
                    pipe_pid,
                    identity,
                    session_id@,
                    proof@,
                    expected_sid@,
                    expected_logon_sid@,
                ),
            ) is None,
        },
{
    let authentic = authenticate_hello(
        hello,
        pipe_pid,
        identity,
        session_id,
        proof,
        expected_sid,
        expected_logon_sid,
    );
    if !authentic {
        return None;
    }
    let mode = hello.mode.as_str();
    if str_eq(mode, "exec") && hello.helper_args.is_none() {
        return Some(ClientRequest::Exec);
    }
    if str_eq(mode, "app-server") {
        let args = hello_args_exec(hello);
        if args.len() == 0 || !strings_contain(&args, "app-server") {
            return None;
        }
        return Some(ClientRequest::AppServer(args));
    }
    if str_eq(mode, "terminal") {
        let args = hello_args_exec(hello);
        if args.len() == 0 || args[0].as_str().is_empty() {
            return None;
        }
        let cwd = args[0].clone();
        let shell_args = clone_strings_from(&args, 1);
        return Some(ClientRequest::Terminal { client_pid: hello.client_pid, cwd, shell_args });
    }
    None
}

/// Law: an authentic exec-broker hello in mode `app-server` is admitted
/// exactly when its helper arguments are not empty and hold `app-server` at
/// some position (anywhere, not only first), and the request carries those
/// arguments unchanged.
pub proof fn lemma_app_server_admission(hello: BrokerHello)
    requires
        hello.mode@ == "app-server"@,
    ensures
        exec_request_spec(hello, true) is Some <==> (hello_args(hello).len() > 0 && exists|i: int|
            0 <= i < hello_args(hello).len() && #[trigger] hello_args(hello)[i] == "app-server"@),
        exec_request_spec(hello, true) matches Some(m) ==> m == ClientRequestModel::AppServer(
            hello_args(hello),
        ),
{
    reveal_strlit("app-server");
    reveal_strlit("exec");
    assert(hello.mode@ != "exec"@) by {
        assert(hello.mode@.len() != "exec"@.len());
    }
    let args = hello_args(hello);
    if exists|i: int| 0 <= i < args.len() && #[trigger] args[i] == "app-server"@ {
        let i = choose|i: int| 0 <= i < args.len() && #[trigger] args[i] == "app-server"@;
        assert(args.contains("app-server"@));
    }
}

/// Law: a hello that does not authenticate is never admitted; an authentic
/// hello in mode `exec` is admitted as an exec request exactly when it has
/// no helper arguments; an authentic hello in mode `terminal` is admitted
/// exactly when its first helper argument (the working directory) is not
/// empty, with that directory, the hello's pid and the remaining arguments
/// as the shell's; any other mode is refused.
pub proof fn lemma_exec_broker_admission(hello: BrokerHello)
    ensures
        exec_request_spec(hello, false) is None,
        hello.mode@ == "exec"@ ==> (exec_request_spec(hello, true) is Some <==> hello.helper_args is None),
        hello.mode@ == "exec"@ && hello.helper_args is None ==> exec_request_spec(hello, true) == Some(
            ClientRequestModel::Exec,
        ),
        hello.mode@ == "terminal"@ ==> (exec_request_spec(hello, true) is Some <==> (hello_args(hello).len()
            > 0 && hello_args(hello)[0].len() > 0)),
        hello.mode@ == "terminal"@ ==> (exec_request_spec(hello, true) matches Some(m) ==> (m matches ClientRequestModel::Terminal {
            client_pid,
            cwd,
            shell_args,
        } && client_pid == hello.client_pid && seq![cwd] + shell_args == hello_args(hello))),
        hello.mode@ != "exec"@ && hello.mode@ != "app-server"@ && hello.mode@ != "terminal"@
            ==> exec_request_spec(hello, true) is None,
{
    reveal_strlit("app-server");
    reveal_strlit("exec");
    reveal_strlit("terminal");
    if hello.mode@ == "exec"@ {
        assert(hello.mode@ != "app-server"@) by {
            assert(hello.mode@.len() != "app-server"@.len());
        }
        assert(hello.mode@ != "terminal"@) by {
            assert(hello.mode@.len() != "terminal"@.len());
        }
        if hello.helper_args is Some {
            assert(hello.mode@ != "app-server"@);
        }
    }
    if hello.mode@ == "terminal"@ {
        assert(hello.mode@ != "exec"@) by {
            assert(hello.mode@.len() != "exec"@.len());
        }
        assert(hello.mode@ != "app-server"@) by {
            assert(hello.mode@.len() != "app-server"@.len());
        }
        let args = hello_args(hello);
        if args.len() > 0 {
            assert(seq![args[0]] + args.skip(1) =~= args);
        }
    }
}

/// How many exec-broker clients are served at once.
pub const MAX_CONCURRENT_CLIENTS: usize = 8;

/// Whether the broker listens for another client while `active` are being
/// served.
pub fn accepts_another_client(active: usize) -> (r: bool)
    ensures
        r == (active < MAX_CONCURRENT_CLIENTS),
{
    active < MAX_CONCURRENT_CLIENTS
}

/// How serving one exec-broker client ended.
#[derive(Debug, Clone, Copy, PartialEq, Eq, Structural)]
pub enum ClientOutcome {
    Disconnected,
    Rejected,
    Shutdown,
}

/// Why the exec broker turned a client away.
#[derive(Debug, Clone, Copy, PartialEq, Eq, Structural)]
pub enum RejectReason {
    /// The hello did not authenticate, or asked for nothing the broker serves.
    AuthenticationRejected,
    /// The exec-server or app-server could not be started as a trusted,
    /// elevated child.
    ProductionStartRejected,
    /// The terminal host could not be started for the client.
    TerminalStartRejected,
}

/// The `reason` the rejection reply carries.
pub open spec fn reject_reason_spec(reason: RejectReason) -> Seq<char> {
    match reason {
        RejectReason::AuthenticationRejected => "authentication-rejected"@,
        RejectReason::ProductionStartRejected => "production-start-rejected"@,
        RejectReason::TerminalStartRejected => "terminal-start-rejected"@,
    }
}

/// The `reason` of a rejection reply.
pub fn reject_reason_text(reason: RejectReason) -> (r: String)
    ensures
        r@ == reject_reason_spec(reason),
{
    match reason {
        RejectReason::AuthenticationRejected => "authentication-rejected".to_owned(),
        RejectReason::ProductionStartRejected => "production-start-rejected".to_owned(),
        RejectReason::TerminalStartRejected => "terminal-start-rejected".to_owned(),
    }
}

/// What ended the relay between a client and the server started for it.
#[derive(Debug, Clone, Copy, PartialEq, Eq, Structural)]
pub enum RelayEnd {
    /// The broker is shutting down.
    Shutdown,
    /// The client closed its side of the pipe.
    ClientClosed,
    /// The server closed its output.
    ServerOutputClosed,
    /// The server process exited.
    ServerExited,
}

/// A relayed session that ended in a way the broker must not survive.
#[derive(Debug, Clone, Copy, PartialEq, Eq, Structural)]
pub enum RelayFailure {
    /// An exec-server closed its output while a client was using it.
    ExecOutputClosed,
    /// An exec-server exited while a client was using it.
    ExecExited,
}

/// How a relayed exec or app-server session ended: a shutdown is a
/// shutdown, a client closing is a disconnect, and the server closing its
/// output or exiting ends an app-server session but is a failure for an
/// exec-server, which serves for as long as its client does.
pub fn relay_outcome(request: &ClientRequest, end: RelayEnd) -> (r: Result<ClientOutcome, RelayFailure>)
    requires
        !(request is Terminal),
    ensures
        end == RelayEnd::Shutdown ==> r == Ok::<ClientOutcome, RelayFailure>(ClientOutcome::Shutdown),
        end == RelayEnd::ClientClosed ==> r == Ok::<ClientOutcome, RelayFailure>(ClientOutcome::Disconnected),
        end == RelayEnd::ServerOutputClosed ==> r == (if request is Exec {
            Err(RelayFailure::ExecOutputClosed)
        } else {
            Ok(ClientOutcome::Disconnected)
        }),
        end == RelayEnd::ServerExited ==> r == (if request is Exec {
            Err(RelayFailure::ExecExited)
        } else {
            Ok(ClientOutcome::Disconnected)
        }),
{
    match end {
        RelayEnd::Shutdown => Ok(ClientOutcome::Shutdown),
        RelayEnd::ClientClosed => Ok(ClientOutcome::Disconnected),
        RelayEnd::ServerOutputClosed => match request {
            ClientRequest::Exec => Err(RelayFailure::ExecOutputClosed),
            _ => Ok(ClientOutcome::Disconnected),
        },
        RelayEnd::ServerExited => match request {
            ClientRequest::Exec => Err(RelayFailure::ExecExited),
            _ => Ok(ClientOutcome::Disconnected),
        },
    }
}

/// What ended an elevated terminal session.
#[derive(Debug, Clone, Copy, PartialEq, Eq, Structural)]
pub enum TerminalEnd {
    /// The terminal host exited, with its exit code if it had one.
    Exited(Option<i32>),
    /// The broker is shutting down.
    Shutdown,
    /// The client closed its side of the pipe.
    ClientClosed,
}

/// What the broker does when a terminal session ends.
#[derive(Debug, Clone, Copy, PartialEq, Eq, Structural)]
pub struct TerminalEndAction {
    /// The exit code to report to the client, if the host exited.
    pub report_exit_code: Option<i32>,
    /// Whether the host must still be terminated.
    pub terminate_host: bool,
    pub outcome: ClientOutcome,
}

/// The end of a terminal session: a host that exited has its code reported
/// (1 when it had none) and the client is done; otherwise the host is
/// terminated, and the session ends as a shutdown or a disconnect.
pub fn terminal_end_action(end: TerminalEnd) -> (r: TerminalEndAction)
    ensures
        r == (match end {
            TerminalEnd::Exited(code) => TerminalEndAction {
                report_exit_code: Some(
                    match code {
                        Some(c) => c,
                        None => 1i32,
                    },
                ),
                terminate_host: false,
                outcome: ClientOutcome::Disconnected,
            },
            TerminalEnd::Shutdown => TerminalEndAction {
                report_exit_code: None,
                terminate_host: true,
                outcome: ClientOutcome::Shutdown,
            },
            TerminalEnd::ClientClosed => TerminalEndAction {
                report_exit_code: None,
                terminate_host: true,
                outcome: ClientOutcome::Disconnected,
            },
        }),
{
    match end {
        TerminalEnd::Exited(code) => TerminalEndAction {
            report_exit_code: Some(
                match code {
                    Some(c) => c,
                    None => 1,
                },
            ),
            terminate_host: false,
            outcome: ClientOutcome::Disconnected,
        },
        TerminalEnd::Shutdown => TerminalEndAction {
            report_exit_code: None,
            terminate_host: true,
            outcome: ClientOutcome::Shutdown,
        },
        TerminalEnd::ClientClosed => TerminalEndAction {
            report_exit_code: None,
            terminate_host: true,
            outcome: ClientOutcome::Disconnected,
        },
    }
}

/// The readiness probe's process id in the exec-server protocol.
pub const PROBE_PROCESS_ID: &'static str = "codex-plus-admin-readiness-probe";

/// How much of the probe's standard error is kept for diagnostics.
pub const MAX_READY_STDERR_BYTES: usize = 16384;

/// A readiness message from the exec-server, as read from its JSON line.
#[derive(Debug, Clone, PartialEq, Eq)]
pub enum ProbeMessage {
    /// The response to `process/start` (request id 2).
    StartResponse { has_error: bool, process_id: Option<String> },
    /// Any other message.
    Notification {
        method: Option<String>,
        process_id: Option<String>,
        stream: Option<String>,
        chunk: Option<String>,
        exit_code: Option<i64>,
        sandbox_denied: Option<bool>,
    },
}

/// The `file:` URI the readiness probe's working directory is given as:
/// `file:///` followed by the path with every backslash turned into `/`.
pub open spec fn readiness_cwd_uri_spec(cwd: Seq<char>) -> Seq<char> {
    "file:///"@ + cwd.map_values(|c: char| if c == '\\' { '/' } else { c })
}

/// The readiness probe's working directory as a `file:` URI.
pub fn readiness_cwd_uri(cwd: &str) -> (r: String)
    ensures
        r@ == readiness_cwd_uri_spec(cwd@),
{
    let c = chars_of(cwd);
    let mut v: Vec<char> = Vec::new();
    push_str(&mut v, "file:///");
    let ghost start = v@;
    proof {
        reveal_strlit("file:///");
    }
    let mut i: usize = 0;
    while i < c.len()
        invariant
            i <= c.len(),
            c@ == cwd@,
            start == "file:///"@,
            v@ == start + cwd@.map_values(|x: char| if x == '\\' { '/' } else { x }).take(i as int),
        decreases c.len() - i,
    {
        let x = c[i];
        v.push(if x == '\\' { '/' } else { x });
        proof {
            assert(cwd@.map_values(|x: char| if x == '\\' { '/' } else { x }).take(i + 1) =~= cwd@.map_values(
                |x: char| if x == '\\' { '/' } else { x },
            ).take(i as int).push(if x == '\\' { '/' } else { x }));
        }
        i += 1;
    }
    assert(cwd@.map_values(|x: char| if x == '\\' { '/' } else { x }).take(c.len() as int) =~= cwd@.map_values(
        |x: char| if x == '\\' { '/' } else { x },
    ));
    string_of(&v)
}

/// Why the readiness request cannot be built.
#[derive(Debug, Clone, Copy, PartialEq, Eq, Structural)]
pub enum ReadinessRequestError {
    /// The identity probe's path is not absolute.
    ProbeNotAbsolute,
    /// The JSON encoder reported an error.
    Encoding,
}

/// The `process/start` request that runs the identity probe through the
/// exec-server, from the JSON literals of the probe's path and of the
/// working directory's URI: no shell, an empty environment, no terminal.
pub open spec fn readiness_request_text(probe: Seq<char>, cwd_uri: Seq<char>) -> Seq<char> {
    "{\"id\":2,\"method\":\"process/start\",\"params\":{\"processId\":\"codex-plus-admin-readiness-probe\",\"argv\":["@
        + probe + ",\"identity-probe\"],\"cwd\":"@ + cwd_uri
        + ",\"env\":{},\"tty\":false,\"pipeStdin\":false,\"arg0\":null}}"@
}

/// Builds the readiness request for the identity probe at an absolute path,
/// run in the working directory `cwd`.
pub fn readiness_process_request(readiness_probe_exe: &str, cwd: &str) -> (r: Result<
    String,
    ReadinessRequestError,
>)
    ensures
        !windows_absolute(readiness_probe_exe@) ==> r == Err::<String, ReadinessRequestError>(
            ReadinessRequestError::ProbeNotAbsolute,
        ),
        windows_absolute(readiness_probe_exe@) ==> match (
            json_quoted(readiness_probe_exe@),
            json_quoted(readiness_cwd_uri_spec(cwd@)),
        ) {
            (Some(probe), Some(uri)) => r matches Ok(t) && t@ == readiness_request_text(probe, uri),
            _ => r == Err::<String, ReadinessRequestError>(ReadinessRequestError::Encoding),
        },
        windows_absolute(readiness_probe_exe@) ==> r is Ok,
{
    if !windows_absolute_exec(readiness_probe_exe) {
        return Err(ReadinessRequestError::ProbeNotAbsolute);
    }
    let probe = match json_string_literal(readiness_probe_exe) {
        Some(p) => p,
        None => {
            return Err(ReadinessRequestError::Encoding);
        },
    };
    let uri_text = readiness_cwd_uri(cwd);
    let uri = match json_string_literal(uri_text.as_str()) {
        Some(u) => u,
        None => {
            return Err(ReadinessRequestError::Encoding);
        },
    };
    let mut v: Vec<char> = Vec::new();
    push_str(
        &mut v,
        "{\"id\":2,\"method\":\"process/start\",\"params\":{\"processId\":\"codex-plus-admin-readiness-probe\",\"argv\":[",
    );
    push_str(&mut v, probe.as_str());
    push_str(&mut v, ",\"identity-probe\"],\"cwd\":");
    push_str(&mut v, uri.as_str());
    push_str(&mut v, ",\"env\":{},\"tty\":false,\"pipeStdin\":false,\"arg0\":null}}");
    Ok(string_of(&v))
}

/// Why the readiness probe failed.
#[derive(Debug, Clone, PartialEq, Eq)]
pub enum ProbeError {
    DuplicateStart,
    StartRejected,
    WrongStartProcessId,
    NotificationBeforeStart,
    UnexpectedMessage,
    WrongProcessId,
    MissingChunk,
    InvalidChunk,
    UnexpectedStream,
    DuplicateExit,
    /// The probe exited unsuccessfully; its (bounded) standard error text.
    ProcessFailed(String),
    SandboxDenied,
    UnexpectedNotification,
    Incomplete,
    NoIdentity,
    NotHighIntegrity,
}

/// What the broker has collected from the readiness probe.
#[derive(Debug, Clone, Default)]
pub struct ProbeResponseState {
    pub start_accepted: bool,
    pub output: Vec<u8>,
    pub stderr: Vec<u8>,
    pub exited: bool,
}

/// The model of [`ProbeResponseState`].
pub struct ProbeModel {
    pub start_accepted: bool,
    pub output: Seq<u8>,
    pub stderr: Seq<u8>,
    pub exited: bool,
}

impl View for ProbeResponseState {
    type V = ProbeModel;

    open spec fn view(&self) -> ProbeModel {
        ProbeModel {
            start_accepted: self.start_accepted,
            output: self.output@,
            stderr: self.stderr@,
            exited: self.exited,
        }
    }
}

/// What consuming one message does.
pub enum ConsumeOutcome {
    /// The message is accepted and the state becomes this.
    Accepted(ProbeModel),
    /// The probe process failed; its standard error text.
    Failed(Seq<char>),
    /// The message is refused with this error.
    Refused(ProbeError),
}

/// Whether a readiness message is an output chunk of the probe's standard
/// output.
pub open spec fn is_stdout_chunk(message: ProbeMessage) -> bool {
    message matches ProbeMessage::Notification { method, stream, chunk: Some(_), .. } && opt_is(
        method,
        "process/output"@,
    ) && opt_is(stream, "stdout"@)
}

/// Law: the probe's output grows only by its standard output chunks: an
/// accepted stdout chunk appends its decoded bytes to the output collected
/// so far, and every other accepted message leaves the output as it was.
/// Nothing but the start response is accepted before the start, and an
/// exit once seen stays seen.
pub proof fn lemma_probe_output_accumulates(state: ProbeModel, message: ProbeMessage)
    ensures
        probe_consume_spec(state, message) matches ConsumeOutcome::Accepted(next) ==> {
            &&& (is_stdout_chunk(message) ==> (message matches ProbeMessage::Notification {
                chunk: Some(c),
                ..
            } && base64_standard_decoded(c@) matches Some(bytes) && next.output == state.output
                + bytes))
            &&& (!is_stdout_chunk(message) ==> next.output == state.output)
            &&& next.start_accepted
            &&& (state.start_accepted || message is StartResponse)
            &&& (state.exited ==> next.exited)
        },
{
    reveal_strlit("stdout");
    reveal_strlit("stderr");
    reveal_strlit("process/output");
    reveal_strlit("process/exited");
    if let ProbeMessage::Notification { method, stream, chunk, .. } = message {
        if opt_is(stream, "stderr"@) {
            assert(!opt_is(stream, "stdout"@)) by {
                assert(stream->0@[3] != "stdout"@[3]);
            }
        }
        if opt_is(method, "process/exited"@) {
            assert(!opt_is(method, "process/output"@)) by {
                assert(method->0@[8] != "process/output"@[8]);
            }
        }
    }
}

/// Whether an optional string is the probe's process id.
pub open spec fn is_probe_id(o: Option<String>) -> bool {
    o matches Some(s) && s@ == PROBE_PROCESS_ID@
}

/// The optional string's text equals `text`.
pub open spec fn opt_is(o: Option<String>, text: Seq<char>) -> bool {
    o matches Some(s) && s@ == text
}

/// The bytes the stderr buffer holds after appending within its bound.
pub open spec fn bounded_append(stderr: Seq<u8>, decoded: Seq<u8>) -> Seq<u8> {
    let remaining = if stderr.len() >= MAX_READY_STDERR_BYTES {
        0
    } else {
        MAX_READY_STDERR_BYTES - stderr.len()
    };
    let keep = if decoded.len() < remaining {
        decoded.len() as int
    } else {
        remaining as int
    };
    stderr + decoded.take(keep)
}

/// The readiness probe's handling of one exec-server message.
pub open spec fn probe_consume_spec(state: ProbeModel, message: ProbeMessage) -> ConsumeOutcome {
    match message {
        ProbeMessage::StartResponse { has_error, process_id } => if state.start_accepted {
            ConsumeOutcome::Refused(ProbeError::DuplicateStart)
        } else if has_error {
            ConsumeOutcome::Refused(ProbeError::StartRejected)
        } else if !is_probe_id(process_id) {
            ConsumeOutcome::Refused(ProbeError::WrongStartProcessId)
        } else {
            ConsumeOutcome::Accepted(ProbeModel { start_accepted: true, ..state })
        },
        ProbeMessage::Notification {
            method,
            process_id,
            stream,
            chunk,
            exit_code,
            sandbox_denied,
        } => if !state.start_accepted {
            ConsumeOutcome::Refused(ProbeError::NotificationBeforeStart)
        } else if method is None {
            ConsumeOutcome::Refused(ProbeError::UnexpectedMessage)
        } else if !is_probe_id(process_id) {
            ConsumeOutcome::Refused(ProbeError::WrongProcessId)
        } else if opt_is(method, "process/output"@) {
            if opt_is(stream, "stdout"@) || opt_is(stream, "stderr"@) {
                match chunk {
                    None => ConsumeOutcome::Refused(ProbeError::MissingChunk),
                    Some(c) => match base64_standard_decoded(c@) {
                        None => ConsumeOutcome::Refused(ProbeError::InvalidChunk),
                        Some(bytes) => if opt_is(stream, "stdout"@) {
                            ConsumeOutcome::Accepted(
                                ProbeModel { output: state.output + bytes, ..state },
                            )
                        } else {
                            ConsumeOutcome::Accepted(
                                ProbeModel { stderr: bounded_append(state.stderr, bytes), ..state },
                            )
                        },
                    },
                }
            } else {
                ConsumeOutcome::Refused(ProbeError::UnexpectedStream)
            }
        } else if opt_is(method, "process/exited"@) {
            if state.exited {
                ConsumeOutcome::Refused(ProbeError::DuplicateExit)
            } else if exit_code != Some(0i64) {
                ConsumeOutcome::Failed(readiness_text(state.stderr))
            } else if sandbox_denied != Some(false) {
                ConsumeOutcome::Refused(ProbeError::SandboxDenied)
            } else {
                ConsumeOutcome::Accepted(ProbeModel { exited: true, ..state })
            }
        } else {
            ConsumeOutcome::Refused(ProbeError::UnexpectedNotification)
        },
    }
}

fn opt_str_is(o: &Option<String>, text: &str) -> (r: bool)
    ensures
        r == opt_is(*o, text@),
{
    match o {
        Some(s) => str_eq(s.as_str(), text),
        None => false,
    }
}

fn append_bytes(v: &mut Vec<u8>, s: &[u8], count: usize)
    requires
        count <= s@.len(),
    ensures
        final(v)@ == old(v)@ + s@.take(count as int),
{
    let ghost start = v@;
    let mut i: usize = 0;
    while i < count
        invariant
            i <= count <= s@.len(),
            v@ == start + s@.take(i as int),
        decreases count - i,
    {
        v.push(s[i]);
        i += 1;
        assert(s@.take(i as int) =~= s@.take(i - 1).push(s@[i - 1]));
    }
}

impl ProbeResponseState {
    /// Takes in one exec-server message of the readiness probe.
    pub fn consume(&mut self, message: ProbeMessage) -> (r: Result<(), ProbeError>)
        ensures
            r is Ok ==> probe_consume_spec(old(self)@, message) == ConsumeOutcome::Accepted(
                final(self)@,
            ),
            r matches Err(ProbeError::ProcessFailed(t)) ==> probe_consume_spec(old(self)@, message)
                == ConsumeOutcome::Failed(t@) && final(self)@ == old(self)@,
            r matches Err(e) ==> (!(e is ProcessFailed) ==> probe_consume_spec(old(self)@, message)
                == ConsumeOutcome::Refused(e) && final(self)@ == old(self)@),
    {
        match message {
            ProbeMessage::StartResponse { has_error, process_id } => {
                if self.start_accepted {
                    return Err(ProbeError::DuplicateStart);
                }
                if has_error {
                    return Err(ProbeError::StartRejected);
                }
                if !opt_str_is(&process_id, PROBE_PROCESS_ID) {
                    return Err(ProbeError::WrongStartProcessId);
                }
                self.start_accepted = true;
                Ok(())
            },
            ProbeMessage::Notification {
                method,
                process_id,
                stream,
                chunk,
                exit_code,
                sandbox_denied,
            } => {
                if !self.start_accepted {
                    return Err(ProbeError::NotificationBeforeStart);
                }
                if method.is_none() {
                    return Err(ProbeError::UnexpectedMessage);
                }
                if !opt_str_is(&process_id, PROBE_PROCESS_ID) {
                    return Err(ProbeError::WrongProcessId);
                }
                if opt_str_is(&method, "process/output") {
                    let is_stdout = opt_str_is(&stream, "stdout");
                    let is_stderr = opt_str_is(&stream, "stderr");
                    if !(is_stdout || is_stderr) {
                        return Err(ProbeError::UnexpectedStream);
                    }
                    let c = match &chunk {
                        Some(c) => c,
                        None => {
                            return Err(ProbeError::MissingChunk);
                        },
                    };
                    let decoded = match base64_standard_decode(c.as_str()) {
                        Some(d) => d,
                        None => {
                            return Err(ProbeError::InvalidChunk);
                        },
                    };
                    if is_stdout {
                        let n = decoded.len();
                        append_bytes(&mut self.output, decoded.as_slice(), n);
                        assert(decoded@.take(n as int) =~= decoded@);
                    } else {
                        let remaining = if self.stderr.len() >= MAX_READY_STDERR_BYTES {
                            0
                        } else {
                            MAX_READY_STDERR_BYTES - self.stderr.len()
                        };
                        let keep = if decoded.len() < remaining {
                            decoded.len()
                        } else {
                            remaining
                        };
                        append_bytes(&mut self.stderr, decoded.as_slice(), keep);
                    }
                    Ok(())
                } else if opt_str_is(&method, "process/exited") {
                    if self.exited {
                        return Err(ProbeError::DuplicateExit);
                    }
                    let ok_exit = match exit_code {
                        Some(code) => code == 0,
                        None => false,
                    };
                    if !ok_exit {
                        return Err(ProbeError::ProcessFailed(decode_readiness_text(self.stderr.as_slice())));
                    }
                    let not_denied = match sandbox_denied {
                        Some(d) => !d,
                        None => false,
                    };
                    if !not_denied {
                        return Err(ProbeError::SandboxDenied);
                    }
                    self.exited = true;
                    Ok(())
                } else {
                    Err(ProbeError::UnexpectedNotification)
                }
            },
        }
    }
}

/// Whether bytes look like UTF-16LE text: an even number of at least two
/// bytes, with a zero high byte in one of the first 32 code units.
pub open spec fn looks_utf16le(bytes: Seq<u8>) -> bool {
    bytes.len() >= 2 && bytes.len() % 2 == 0 && exists|k: int|
        0 <= k < 32 && 2 * k + 1 < bytes.len() && #[trigger] bytes[2 * k + 1] == 0
}

/// The UTF-16LE code units of an even number of bytes.
pub open spec fn utf16le_units(bytes: Seq<u8>) -> Seq<u16> {
    Seq::new(bytes.len() / 2, |k: int| (bytes[2 * k] + 256 * bytes[2 * k + 1]) as u16)
}

/// The readiness output as text: UTF-16LE where it looks so (as Windows
/// PowerShell writes), UTF-8 otherwise, decoded leniently and trimmed.
pub open spec fn readiness_text(bytes: Seq<u8>) -> Seq<char> {
    if looks_utf16le(bytes) {
        trim(utf16_lossy(utf16le_units(bytes)))
    } else {
        trim(utf8_lossy(bytes))
    }
}

/// Decodes the readiness output (see [`readiness_text`]).
pub fn decode_readiness_text(bytes: &[u8]) -> (r: String)
    ensures
        r@ == readiness_text(bytes@),
        looks_utf16le(bytes@) ==> forall|s: Seq<char>|
            #[trigger] utf16_encode(s) == utf16le_units(bytes@) ==> r@ == trim(s),
        !looks_utf16le(bytes@) && valid_utf8(bytes@) ==> r@ == trim(decode_utf8(bytes@)),
{
    let mut utf16 = false;
    if bytes.len() >= 2 && bytes.len() % 2 == 0 {
        let mut k: usize = 0;
        while k < 32 && 2 * k + 1 < bytes.len()
            invariant
                k <= 32,
                bytes@.len() >= 2,
                bytes@.len() % 2 == 0,
                utf16 == (exists|j: int|
                    0 <= j < k && 2 * j + 1 < bytes@.len() && #[trigger] bytes@[2 * j + 1] == 0),
            decreases 32 - k,
        {
            if bytes[2 * k + 1] == 0 {
                utf16 = true;
            }
            k += 1;
        }
        assert(utf16 == looks_utf16le(bytes@)) by {
            if looks_utf16le(bytes@) {
                let j = choose|j: int|
                    0 <= j < 32 && 2 * j + 1 < bytes@.len() && #[trigger] bytes@[2 * j + 1] == 0;
                assert(j < k);
            }
        }
    }
    assert(utf16 == looks_utf16le(bytes@));
    if utf16 {
        let mut units: Vec<u16> = Vec::new();
        let mut i: usize = 0;
        let half = bytes.len() / 2;
        while i < half
            invariant
                i <= half,
                half == bytes@.len() / 2,
                bytes@.len() % 2 == 0,
                units@ == utf16le_units(bytes@).take(i as int),
            decreases half - i,
        {
            assert(2 * i + 1 < bytes.len());
            let lo = bytes[2 * i] as u32;
            let hi = bytes[2 * i + 1] as u32;
            let u = (lo + 256 * hi) as u16;
            units.push(u);
            assert(utf16le_units(bytes@).take(i + 1) =~= units@);
            i += 1;
        }
        assert(utf16le_units(bytes@).take(half as int) =~= utf16le_units(bytes@));
        let text = string_from_utf16_lossy(units.as_slice());
        string_of(&trim_chars(&chars_of(text.as_str())))
    } else {
        let text = string_from_utf8_lossy(bytes);
        string_of(&trim_chars(&chars_of(text.as_str())))
    }
}

/// The first position at which `p` occurs in `s` (meaningful when it does).
pub open spec fn first_occurrence(s: Seq<char>, p: Seq<char>) -> int {
    choose|i: int| occurs_at(s, p, i) && forall|j: int| 0 <= j < i ==> !occurs_at(s, p, j)
}

proof fn lemma_first_occurrence(s: Seq<char>, p: Seq<char>, i: int)
    requires
        occurs_at(s, p, i),
        forall|j: int| 0 <= j < i ==> !occurs_at(s, p, j),
    ensures
        first_occurrence(s, p) == i,
{
    let k = first_occurrence(s, p);
    assert(occurs_at(s, p, k) && forall|j: int| 0 <= j < k ==> !occurs_at(s, p, j));
    if k < i {
        assert(!occurs_at(s, p, k));
    } else if k > i {
        assert(!occurs_at(s, p, i));
    }
}

/// The text between the first and the second occurrence of `pat` (or the
/// end), as `str::split(pat).nth(1)` gives it.
pub open spec fn split_second(text: Seq<char>, pat: Seq<char>) -> Option<Seq<char>> {
    if !contains_seq(text, pat) {
        None
    } else {
        let after = text.skip(first_occurrence(text, pat) + pat.len());
        if contains_seq(after, pat) {
            Some(after.take(first_occurrence(after, pat)))
        } else {
            Some(after)
        }
    }
}

/// The first line of a text, as `str::lines().next()` gives it.
pub open spec fn first_line(t: Seq<char>) -> Option<Seq<char>> {
    if t.len() == 0 {
        None
    } else if contains_seq(t, seq!['\n']) {
        let l = t.take(first_occurrence(t, seq!['\n']));
        Some(
            if l.len() > 0 && l.last() == '\r' {
                l.drop_last()
            } else {
                l
            },
        )
    } else {
        Some(t)
    }
}

/// What the identity probe prints before the RID.
pub open spec fn identity_pattern(sid: Seq<char>, logon_sid: Seq<char>) -> Seq<char> {
    "SID="@ + sid + ";LOGON="@ + logon_sid + ";RID="@
}

/// The RID the readiness output states for the expected account and logon
/// session: the first line after the first `SID=..;LOGON=..;RID=` (up to a
/// later repetition of it), trimmed, read as a `u32`.
pub open spec fn rid_from_output(text: Seq<char>, sid: Seq<char>, logon_sid: Seq<char>) -> Option<nat> {
    match split_second(text, identity_pattern(sid, logon_sid)) {
        None => None,
        Some(seg) => match first_line(trim(seg)) {
            None => None,
            Some(line) => parse_unsigned(line, u32::MAX as nat),
        },
    }
}

/// The readiness verdict once the probe has run.
pub open spec fn probe_finish_spec(state: ProbeModel, sid: Seq<char>, logon_sid: Seq<char>) -> Result<
    (),
    ProbeError,
> {
    if !(state.start_accepted && state.exited) {
        Err(ProbeError::Incomplete)
    } else {
        match rid_from_output(readiness_text(state.output), sid, logon_sid) {
            None => Err(ProbeError::NoIdentity),
            Some(rid) => if rid < HIGH_INTEGRITY_RID {
                Err(ProbeError::NotHighIntegrity)
            } else {
                Ok(())
            },
        }
    }
}

fn split_second_chars(text: &Vec<char>, pat: &Vec<char>) -> (r: Option<Vec<char>>)
    ensures
        r matches Some(v) ==> split_second(text@, pat@) == Some(v@),
        r is None ==> split_second(text@, pat@) is None,
{
    match find_chars(text, pat) {
        None => None,
        Some(i) => {
            proof {
                lemma_first_occurrence(text@, pat@, i as int);
            }
            assert(i + pat@.len() <= text@.len());
            assert(i + pat.len() <= text.len());
            let after = sub_chars(text, i + pat.len(), text.len());
            assert(after@ =~= text@.skip(i + pat@.len()));
            match find_chars(&after, pat) {
                None => Some(after),
                Some(j) => {
                    proof {
                        lemma_first_occurrence(after@, pat@, j as int);
                    }
                    Some(sub_chars(&after, 0, j))
                },
            }
        },
    }
}

fn first_line_chars(t: &Vec<char>) -> (r: Option<Vec<char>>)
    ensures
        r matches Some(v) ==> first_line(t@) == Some(v@),
        r is None ==> first_line(t@) is None,
{
    if t.len() == 0 {
        return None;
    }
    let mut nl: Vec<char> = Vec::new();
    nl.push('\n');
    assert(nl@ =~= seq!['\n']);
    match find_chars(t, &nl) {
        None => Some(sub_chars(t, 0, t.len())),
        Some(k) => {
            proof {
                lemma_first_occurrence(t@, seq!['\n'], k as int);
            }
            let l = sub_chars(t, 0, k);
            if l.len() > 0 && l[l.len() - 1] == '\r' {
                Some(sub_chars(&l, 0, l.len() - 1))
            } else {
                Some(l)
            }
        },
    }
}

impl ProbeResponseState {
    /// Judges the completed readiness probe: its output must state the
    /// expected account and logon session with a high integrity RID.
    ///
    /// Law: the identity probe's own record for the expected account and
    /// logon session (plain ASCII SIDs), written as UTF-8 or as UTF-16LE, is
    /// accepted exactly when its RID is a high integrity one.
    pub fn finish(self, expected_sid: &str, expected_logon_sid: &str) -> (r: Result<(), ProbeError>)
        ensures
            r == probe_finish_spec(self@, expected_sid@, expected_logon_sid@),
            forall|rid: u32|
                #![trigger identity_record(expected_sid@, expected_logon_sid@, rid)]
                self.start_accepted && self.exited && plain_ascii(expected_sid@) && plain_ascii(
                    expected_logon_sid@,
                ) && (self.output@ == encode_utf8(
                    identity_record(expected_sid@, expected_logon_sid@, rid),
                ) || self.output@ == units_le_bytes(
                    utf16_encode(identity_record(expected_sid@, expected_logon_sid@, rid)),
                )) ==> (r is Ok <==> rid >= HIGH_INTEGRITY_RID),
    {
        let output = decode_readiness_text(self.output.as_slice());
        let result = if !(self.start_accepted && self.exited) {
            Err(ProbeError::Incomplete)
        } else {
            let text = chars_of(output.as_str());
            match rid_from_output_exec(&text, expected_sid, expected_logon_sid) {
                None => Err(ProbeError::NoIdentity),
                Some(rid) => if rid < HIGH_INTEGRITY_RID as u64 {
                    Err(ProbeError::NotHighIntegrity)
                } else {
                    Ok(())
                },
            }
        };
        proof {
            assert forall|rid: u32|
                #![trigger identity_record(expected_sid@, expected_logon_sid@, rid)]
                self.start_accepted && self.exited && plain_ascii(expected_sid@) && plain_ascii(
                    expected_logon_sid@,
                ) && (self.output@ == encode_utf8(
                    identity_record(expected_sid@, expected_logon_sid@, rid),
                ) || self.output@ == units_le_bytes(
                    utf16_encode(identity_record(expected_sid@, expected_logon_sid@, rid)),
                )) implies (result is Ok <==> rid >= HIGH_INTEGRITY_RID) by {
                let record = identity_record(expected_sid@, expected_logon_sid@, rid);
                lemma_record_plain_ascii(expected_sid@, expected_logon_sid@, rid);
                if self.output@ == encode_utf8(record) {
                    lemma_utf8_of_plain_ascii(record);
                } else {
                    lemma_utf16le_of_plain_ascii(record);
                }
                assert(output@ == trim(record));
                lemma_identity_record_read_back(expected_sid@, expected_logon_sid@, rid);
            }
        }
        result
    }
}

/// Text of ASCII characters other than NUL, as Windows writes SIDs.
pub open spec fn plain_ascii(s: Seq<char>) -> bool {
    forall|i: int| 0 <= i < s.len() ==> '\u{1}' <= #[trigger] s[i] && s[i] <= '\u{7f}'
}

proof fn lemma_plain_ascii_concat(a: Seq<char>, b: Seq<char>)
    requires
        plain_ascii(a),
        plain_ascii(b),
    ensures
        plain_ascii(a + b),
{
    assert forall|i: int| 0 <= i < (a + b).len() implies '\u{1}' <= #[trigger] (a + b)[i] && (a
        + b)[i] <= '\u{7f}' by {
        if i < a.len() {
            assert((a + b)[i] == a[i]);
        } else {
            assert((a + b)[i] == b[i - a.len()]);
        }
    }
}

/// The identity probe's record of plain ASCII SIDs is plain ASCII and
/// starts with `S`.
proof fn lemma_record_plain_ascii(sid: Seq<char>, logon_sid: Seq<char>, rid: u32)
    requires
        plain_ascii(sid),
        plain_ascii(logon_sid),
    ensures
        plain_ascii(identity_record(sid, logon_sid, rid)),
        identity_record(sid, logon_sid, rid).len() > 0,
        identity_record(sid, logon_sid, rid)[0] == 'S',
{
    reveal_strlit("SID=");
    reveal_strlit(";LOGON=");
    reveal_strlit(";RID=");
    reveal_strlit("\n");
    crate::text::lemma_decimal_digits(rid as nat);
    let d = decimal(rid as nat);
    assert(plain_ascii(d)) by {
        assert forall|i: int| 0 <= i < d.len() implies '\u{1}' <= #[trigger] d[i] && d[i] <= '\u{7f}' by {
            assert(crate::text::is_digit(d[i]));
        }
    }
    assert(plain_ascii("SID="@));
    assert(plain_ascii(";LOGON="@));
    assert(plain_ascii(";RID="@));
    assert(plain_ascii("\n"@));
    lemma_plain_ascii_concat("SID="@, sid);
    lemma_plain_ascii_concat("SID="@ + sid, ";LOGON="@);
    lemma_plain_ascii_concat("SID="@ + sid + ";LOGON="@, logon_sid);
    lemma_plain_ascii_concat("SID="@ + sid + ";LOGON="@ + logon_sid, ";RID="@);
    lemma_plain_ascii_concat("SID="@ + sid + ";LOGON="@ + logon_sid + ";RID="@, d);
    lemma_plain_ascii_concat("SID="@ + sid + ";LOGON="@ + logon_sid + ";RID="@ + d, "\n"@);
    assert(identity_record(sid, logon_sid, rid)[0] == ("SID="@)[0]);
}

/// The UTF-8 bytes of plain ASCII text have no zero byte, so they do not
/// look like UTF-16LE, and they decode back to the text.
proof fn lemma_utf8_of_plain_ascii(s: Seq<char>)
    requires
        plain_ascii(s),
    ensures
        !looks_utf16le(encode_utf8(s)),
        valid_utf8(encode_utf8(s)),
        decode_utf8(encode_utf8(s)) == s,
{
    assert(vstd::utf8::is_ascii_chars(s));
    vstd::utf8::is_ascii_chars_encode_utf8(s);
    vstd::utf8::encode_utf8_valid_utf8(s);
    vstd::utf8::encode_utf8_decode_utf8(s);
    let b = encode_utf8(s);
    assert forall|j: int| 0 <= j < b.len() implies #[trigger] b[j] != 0 by {
        assert(s[j] as u8 == b[j]);
        assert('\u{1}' <= s[j]);
    }
}

/// The UTF-16 code units of plain ASCII text are the characters' codes.
proof fn lemma_utf16_encode_plain_ascii(s: Seq<char>)
    requires
        plain_ascii(s),
    ensures
        utf16_encode(s).len() == s.len(),
        forall|i: int| 0 <= i < s.len() ==> #[trigger] utf16_encode(s)[i] == s[i] as u16 && (s[i]
            as u16) < 128,
    decreases s.len(),
{
    if s.len() > 0 {
        let p = s.drop_last();
        assert(plain_ascii(p)) by {
            assert forall|i: int| 0 <= i < p.len() implies '\u{1}' <= #[trigger] p[i] && p[i] <= '\u{7f}' by {
                assert(p[i] == s[i]);
            }
        }
        lemma_utf16_encode_plain_ascii(p);
        let c = s.last();
        assert('\u{1}' <= s[s.len() - 1] && s[s.len() - 1] <= '\u{7f}');
        assert(utf16_encode(s) == utf16_encode(p) + crate::encoding::utf16_units(c));
        assert(crate::encoding::utf16_units(c) == seq![c as u32 as u16]);
        assert forall|i: int| 0 <= i < s.len() implies #[trigger] utf16_encode(s)[i] == s[i] as u16 && (
        s[i] as u16) < 128 by {
            if i < p.len() {
                assert(utf16_encode(s)[i] == utf16_encode(p)[i]);
                assert(s[i] == p[i]);
            } else {
                assert(utf16_encode(s)[i] == c as u32 as u16);
            }
        }
    }
}

/// Reading little-endian bytes back as code units gives the units.
proof fn lemma_units_le_bytes_read_back(u: Seq<u16>)
    ensures
        units_le_bytes(u).len() == 2 * u.len(),
        utf16le_units(units_le_bytes(u)) == u,
    decreases u.len(),
{
    if u.len() > 0 {
        let p = u.drop_last();
        lemma_units_le_bytes_read_back(p);
        let x = u.last();
        let b = units_le_bytes(u);
        let pb = units_le_bytes(p);
        assert(b == pb + seq![(x % 256) as u8, (x / 256) as u8]);
        assert forall|k: int| 0 <= k < u.len() implies #[trigger] utf16le_units(b)[k] == u[k] by {
            if k < p.len() {
                assert(b[2 * k] == pb[2 * k]);
                assert(b[2 * k + 1] == pb[2 * k + 1]);
                assert(utf16le_units(pb)[k] == p[k]);
            } else {
                assert(b[2 * k] == (x % 256) as u8);
                assert(b[2 * k + 1] == (x / 256) as u8);
                assert((x % 256) + 256 * (x / 256) == x);
            }
        }
        assert(utf16le_units(b) =~= u);
    } else {
        assert(utf16le_units(units_le_bytes(u)) =~= u);
    }
}

/// The UTF-16LE bytes of non-empty plain ASCII text look like UTF-16LE and
/// read back as the text's code units.
proof fn lemma_utf16le_of_plain_ascii(s: Seq<char>)
    requires
        plain_ascii(s),
        s.len() > 0,
    ensures
        looks_utf16le(units_le_bytes(utf16_encode(s))),
        utf16le_units(units_le_bytes(utf16_encode(s))) == utf16_encode(s),
{
    lemma_utf16_encode_plain_ascii(s);
    let u = utf16_encode(s);
    lemma_units_le_bytes_read_back(u);
    let b = units_le_bytes(u);
    assert(utf16le_units(b)[0] == u[0]);
    assert(u[0] < 128);
    assert(b[1] == 0) by {
        assert((b[0] + 256 * b[1]) as u16 == u[0]);
    }
}

#[verifier::rlimit(40)]
fn rid_from_output_exec(text: &Vec<char>, expected_sid: &str, expected_logon_sid: &str) -> (r:
    Option<u64>)
    ensures
        r matches Some(v) ==> rid_from_output(text@, expected_sid@, expected_logon_sid@) == Some(
            v as nat,
        ),
        r is None ==> rid_from_output(text@, expected_sid@, expected_logon_sid@) is None,
{
    let mut pat: Vec<char> = Vec::new();
    push_str(&mut pat, "SID=");
    push_str(&mut pat, expected_sid);
    push_str(&mut pat, ";LOGON=");
    push_str(&mut pat, expected_logon_sid);
    push_str(&mut pat, ";RID=");
    assert(pat@ == identity_pattern(expected_sid@, expected_logon_sid@));
    let seg = match split_second_chars(text, &pat) {
        None => {
            return None;
        },
        Some(seg) => seg,
    };
    let line = match first_line_chars(&trim_chars(&seg)) {
        None => {
            return None;
        },
        Some(l) => l,
    };
    parse_unsigned_chars(&line, 4294967295)
}

proof fn lemma_trim_plain(s: Seq<char>)
    requires
        s.len() > 0,
        !is_whitespace(s[0]),
        !is_whitespace(s.last()),
    ensures
        trim(s) == s,
{
    assert(trim_start(s) == s);
}

/// Law: the readiness check reads back the RID of the identity probe's
/// record for the same account and logon session.
#[verifier::rlimit(60)]
#[verifier::spinoff_prover]
pub proof fn lemma_identity_record_read_back(sid: Seq<char>, logon_sid: Seq<char>, rid: u32)
    ensures
        rid_from_output(trim(identity_record(sid, logon_sid, rid)), sid, logon_sid) == Some(
            rid as nat,
        ),
{
    reveal_strlit("SID=");
    reveal_strlit(";LOGON=");
    reveal_strlit(";RID=");
    reveal_strlit("\n");
    crate::text::lemma_decimal_digits(rid as nat);
    crate::text::lemma_parse_decimal(rid as nat, u32::MAX as nat);
    let pat = identity_pattern(sid, logon_sid);
    let d = decimal(rid as nat);
    let record = identity_record(sid, logon_sid, rid);
    assert(record =~= pat + d + seq!['\n']);
    assert(d.len() <= 10) by {
        lemma_decimal_len_u32(rid as nat);
    }
    let body = pat + d;
    assert(trim_end(record) == trim_end(body)) by {
        assert(record.drop_last() =~= body);
    }
    assert(body.last() == d.last());
    assert(is_digit(d[d.len() - 1])) by {
        assert(crate::text::all_digits(d));
    }
    assert(body[0] == 'S');
    lemma_trim_plain(body);
    assert(trim_start(record) == record);
    assert(trim(record) == trim_end(record));
    assert(trim(record) == body);
    assert(occurs_at(body, pat, 0)) by {
        assert(body.subrange(0, pat.len() as int) =~= pat);
    }
    lemma_first_occurrence(body, pat, 0);
    let after = body.skip(pat.len() as int);
    assert(after =~= d);
    assert(!contains_seq(after, pat)) by {
        assert(pat.len() > after.len());
    }
    assert(is_digit(d[0]));
    lemma_trim_plain(d);
    assert(!contains_seq(d, seq!['\n'])) by {
        assert forall|i: int| !occurs_at(d, seq!['\n'], i) by {
            if 0 <= i < d.len() {
                assert(crate::text::all_digits(d));
                assert(is_digit(d[i]));
                assert(d.subrange(i, i + 1)[0] == d[i]);
            }
        }
    }
}

proof fn lemma_decimal_len_u32(n: nat)
    requires
        n <= u32::MAX,
    ensures
        decimal(n).len() <= 10,
{
    lemma_decimal_len(n);
}

proof fn lemma_decimal_len(n: nat)
    ensures
        n < 10 ==> decimal(n).len() == 1,
        n < 100 ==> decimal(n).len() <= 2,
        n < 1000 ==> decimal(n).len() <= 3,
        n < 10000 ==> decimal(n).len() <= 4,
        n < 100000 ==> decimal(n).len() <= 5,
        n < 1000000 ==> decimal(n).len() <= 6,
        n < 10000000 ==> decimal(n).len() <= 7,
        n < 100000000 ==> decimal(n).len() <= 8,
        n < 1000000000 ==> decimal(n).len() <= 9,
        n < 10000000000 ==> decimal(n).len() <= 10,
    decreases n,
{
    if n >= 10 {
        lemma_decimal_len(n / 10);
    }
}

} // verus!
