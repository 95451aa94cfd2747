//! The layout of the private runtime bundle that the broker stages before it
//! starts an elevated copy of an executable: which file names may be staged,
//! in which order, and under which paths.
use vstd::prelude::*;
use crate::text::{
    chars_eq_ignore_case, chars_of, eq_ignore_case, is_sep, join, join_str, str_views, string_of,
    lemma_str_views_push, parent, parent_chars, join_chars, trim, trim_chars,
};
use crate::encoding::{
    base64_standard, base64_standard_encode, lemma_units_le_bytes_concat, units_le_bytes,
    utf16_encode, utf16_units,
};
use crate::exec::{windows_absolute, windows_powershell_path, HiddenCommand, CREATE_NO_WINDOW};

verus! {

/// File name of the staged copy of the broker runtime.
pub const RUNTIME_FILE_NAME: &'static str = "codex-plus-recovery.exe";

/// File name of the staged copy of the computer-use helper.
pub const HELPER_RUNTIME_FILE_NAME: &'static str = "codex-plus-computer-use.exe";

/// The official runtime files the broker runtime needs beside it, in the
/// order they are staged.
pub open spec fn official_companion_names() -> Seq<Seq<char>> {
    seq![
        "codex-code-mode-host.exe"@,
        "codex-command-runner.exe"@,
        "codex-windows-sandbox-setup.exe"@,
        "rg.exe"@,
    ]
}

/// The official runtime files the broker runtime needs beside it.
pub fn official_companion_file_names() -> (r: Vec<String>)
    ensures
        str_views(r@) == official_companion_names(),
{
    let mut r: Vec<String> = Vec::new();
    r.push("codex-code-mode-host.exe".to_owned());
    r.push("codex-command-runner.exe".to_owned());
    r.push("codex-windows-sandbox-setup.exe".to_owned());
    r.push("rg.exe".to_owned());
    assert(str_views(r@) =~= official_companion_names());
    r
}

/// Where the official companions of an executable are: in the executable's
/// own directory; `None` when the path has no directory.
pub fn official_companion_paths(executable: &str) -> (r: Option<Vec<String>>)
    ensures
        parent(executable@) is None ==> r is None,
        parent(executable@) matches Some(dir) ==> (r matches Some(v) && v.len() == 4 && forall|k: int|
            0 <= k < 4 ==> (#[trigger] v@[k])@ == join(dir, official_companion_names()[k])),
{
    let dir = match parent_chars(&chars_of(executable)) {
        Some(d) => d,
        None => {
            return None;
        },
    };
    let names = official_companion_file_names();
    assert(names@.len() == str_views(names@).len());
    let mut paths: Vec<String> = Vec::new();
    let mut i: usize = 0;
    while i < names.len()
        invariant
            i <= names.len(),
            str_views(names@) == official_companion_names(),
            paths.len() == i,
            forall|k: int| 0 <= k < i ==> (#[trigger] paths@[k])@ == join(dir@, official_companion_names()[k]),
        decreases names.len() - i,
    {
        assert(str_views(names@)[i as int] == names@[i as int]@);
        let p = string_of(&join_chars(&dir, &chars_of(names[i].as_str())));
        paths.push(p);
        i += 1;
    }
    Some(paths)
}

/// Why a runtime bundle was refused.
#[derive(Debug, Clone, Copy, PartialEq, Eq, Structural)]
pub enum RuntimeBundleError {
    /// A file name is empty, holds a separator, is `.` or `..`, or starts
    /// with a drive prefix.
    InvalidFileName,
    /// Two file names are equal when ASCII case is ignored.
    DuplicateFileName,
}

/// An ASCII letter.
pub open spec fn is_ascii_letter(c: char) -> bool {
    ('a' <= c && c <= 'z') || ('A' <= c && c <= 'Z')
}

/// A Windows path that starts with a drive prefix such as `C:`.
pub open spec fn has_drive_prefix(s: Seq<char>) -> bool {
    s.len() >= 2 && is_ascii_letter(s[0]) && s[1] == ':'
}

/// A name that is a single plain path component: non-empty, without a
/// separator, neither `.` nor `..`, and without a drive prefix.
pub open spec fn is_runtime_file_name(s: Seq<char>) -> bool {
    &&& s.len() > 0
    &&& forall|i: int| 0 <= i < s.len() ==> !is_sep(#[trigger] s[i])
    &&& s != seq!['.']
    &&& s != seq!['.', '.']
    &&& !has_drive_prefix(s)
}

/// The names of a bundle in staging order: the executable first, then the
/// companions in the order given.
pub open spec fn bundle_names(executable: Seq<char>, companions: Seq<Seq<char>>) -> Seq<Seq<char>> {
    seq![executable] + companions
}

/// The name at position `i` is a valid file name and equals no earlier name
/// when ASCII case is ignored.
pub open spec fn bundle_entry_ok(names: Seq<Seq<char>>, i: int) -> bool {
    &&& is_runtime_file_name(names[i])
    &&& forall|j: int| 0 <= j < i ==> !eq_ignore_case(#[trigger] names[j], names[i])
}

/// Every name of the bundle is acceptable.
pub open spec fn bundle_ok(names: Seq<Seq<char>>) -> bool {
    forall|i: int| 0 <= i < names.len() ==> #[trigger] bundle_entry_ok(names, i)
}

/// The error for the first unacceptable name at position `k`.
pub open spec fn bundle_error_at(names: Seq<Seq<char>>, k: int) -> RuntimeBundleError {
    if !is_runtime_file_name(names[k]) {
        RuntimeBundleError::InvalidFileName
    } else {
        RuntimeBundleError::DuplicateFileName
    }
}

/// `k` is the first position whose name is unacceptable.
pub open spec fn first_bundle_problem(names: Seq<Seq<char>>, k: int) -> bool {
    &&& 0 <= k < names.len()
    &&& !bundle_entry_ok(names, k)
    &&& forall|i: int| 0 <= i < k ==> #[trigger] bundle_entry_ok(names, i)
}

/// Whether `c` is an ASCII letter.
fn char_is_ascii_letter(c: char) -> (r: bool)
    ensures
        r == is_ascii_letter(c),
{
    ('a' <= c && c <= 'z') || ('A' <= c && c <= 'Z')
}

/// Checks that `name` is a single plain path component.
pub fn validate_runtime_file_name(name: &str) -> (r: Result<(), RuntimeBundleError>)
    ensures
        r is Ok <==> is_runtime_file_name(name@),
        r is Err ==> r == Err::<(), RuntimeBundleError>(RuntimeBundleError::InvalidFileName),
{
    let v = chars_of(name);
    if v.len() == 0 {
        return Err(RuntimeBundleError::InvalidFileName);
    }
    let mut i: usize = 0;
    while i < v.len()
        invariant
            i <= v.len(),
            v@ == name@,
            forall|j: int| 0 <= j < i ==> !is_sep(#[trigger] v@[j]),
        decreases v.len() - i,
    {
        if v[i] == '\\' || v[i] == '/' {
            return Err(RuntimeBundleError::InvalidFileName);
        }
        i += 1;
    }
    if v.len() == 1 && v[0] == '.' {
        assert(v@ =~= seq!['.']);
        return Err(RuntimeBundleError::InvalidFileName);
    }
    if v.len() == 2 && v[0] == '.' && v[1] == '.' {
        assert(v@ =~= seq!['.', '.']);
        return Err(RuntimeBundleError::InvalidFileName);
    }
    if v.len() >= 2 && char_is_ascii_letter(v[0]) && v[1] == ':' {
        return Err(RuntimeBundleError::InvalidFileName);
    }
    assert(v@.len() == 1 ==> v@ != seq!['.'] && v@ != seq!['.', '.']) by {
        if v@.len() == 1 {
            assert(v@ != seq!['.', '.']);
            if v@ == seq!['.'] {
                assert(v@[0] == '.');
            }
        }
    }
    assert(v@.len() == 2 ==> v@ != seq!['.', '.']) by {
        if v@.len() == 2 && v@ == seq!['.', '.'] {
            assert(v@[0] == '.' && v@[1] == '.');
        }
    }
    Ok(())
}

/// Whether some entry of `list` equals `c` when ASCII case is ignored.
fn any_eq_ignore_case(list: &Vec<Vec<char>>, c: &Vec<char>) -> (r: bool)
    ensures
        r == exists|j: int| 0 <= j < list.len() && eq_ignore_case(#[trigger] list@[j]@, c@),
{
    let mut j: usize = 0;
    while j < list.len()
        invariant
            j <= list.len(),
            forall|k: int| 0 <= k < j ==> !eq_ignore_case(#[trigger] list@[k]@, c@),
        decreases list.len() - j,
    {
        if chars_eq_ignore_case(&list[j], c) {
            return true;
        }
        j += 1;
    }
    false
}

/// The file names of a runtime bundle in staging order: the executable's
/// name, then each companion's. Names are checked in that order, and the
/// first name that is not a plain file name, or that repeats an earlier one
/// when ASCII case is ignored, refuses the whole bundle.
pub fn runtime_bundle_file_names(executable_name: &str, companions: &Vec<String>) -> (r: Result<
    Vec<String>,
    RuntimeBundleError,
>)
    ensures
        r is Ok <==> bundle_ok(bundle_names(executable_name@, str_views(companions@))),
        r matches Ok(v) ==> str_views(v@) == bundle_names(executable_name@, str_views(companions@)),
        r matches Err(e) ==> exists|k: int|
            first_bundle_problem(bundle_names(executable_name@, str_views(companions@)), k) && e
                == bundle_error_at(bundle_names(executable_name@, str_views(companions@)), k),
{
    let ghost all = bundle_names(executable_name@, str_views(companions@));
    assert(all[0] == executable_name@);
    if validate_runtime_file_name(executable_name).is_err() {
        assert(first_bundle_problem(all, 0));
        return Err(RuntimeBundleError::InvalidFileName);
    }
    assert(bundle_entry_ok(all, 0));
    let exe_chars = chars_of(executable_name);
    let mut seen: Vec<Vec<char>> = Vec::new();
    seen.push(exe_chars);
    let mut names: Vec<String> = Vec::new();
    names.push(string_of(&seen[0]));
    proof {
        lemma_str_views_push(Seq::empty(), names@[0]);
        assert(str_views(names@) =~= all.take(1));
    }
    let mut i: usize = 0;
    while i < companions.len()
        invariant
            i <= companions.len(),
            all == bundle_names(executable_name@, str_views(companions@)),
            all.len() == companions.len() + 1,
            seen.len() == i + 1,
            forall|k: int| 0 <= k <= i ==> (#[trigger] seen@[k])@ == all[k],
            str_views(names@) == all.take(i + 1),
            forall|k: int| 0 <= k <= i ==> #[trigger] bundle_entry_ok(all, k),
        decreases companions.len() - i,
    {
        let name = companions[i].as_str();
        assert(all[i + 1] == name@);
        if validate_runtime_file_name(name).is_err() {
            assert(first_bundle_problem(all, i + 1));
            return Err(RuntimeBundleError::InvalidFileName);
        }
        let c = chars_of(name);
        if any_eq_ignore_case(&seen, &c) {
            proof {
                let j = choose|j: int| 0 <= j < seen.len() && eq_ignore_case(#[trigger] seen@[j]@, c@);
                assert(eq_ignore_case(all[j], all[i + 1]));
                assert(!bundle_entry_ok(all, i + 1));
                assert(first_bundle_problem(all, i + 1));
            }
            return Err(RuntimeBundleError::DuplicateFileName);
        }
        proof {
            assert forall|j: int| 0 <= j < i + 1 implies !eq_ignore_case(#[trigger] all[j], all[i + 1]) by {
                assert(seen@[j]@ == all[j]);
            }
            assert(bundle_entry_ok(all, i + 1));
        }
        let ghost before = names@;
        let s = string_of(&c);
        names.push(s);
        seen.push(c);
        proof {
            lemma_str_views_push(before, s);
            assert(all.take(i + 2) =~= all.take(i + 1).push(all[i + 1]));
        }
        i += 1;
    }
    assert(all.take(i + 1) =~= all);
    Ok(names)
}

/// Where a runtime bundle is staged: the executable's path and the path of
/// every file in staging order.
pub struct RuntimeBundleLayout {
    pub executable_path: String,
    pub file_paths: Vec<String>,
}

/// The paths at which a runtime bundle is staged under `directory`: each
/// file's name joined under the directory, the executable's first; refused
/// as [`runtime_bundle_file_names`] refuses the names.
pub fn runtime_bundle_layout(directory: &str, executable_name: &str, companions: &Vec<String>) -> (r:
    Result<RuntimeBundleLayout, RuntimeBundleError>)
    ensures
        r is Ok <==> bundle_ok(bundle_names(executable_name@, str_views(companions@))),
        r matches Ok(l) ==> {
            &&& l.executable_path@ == join(directory@, executable_name@)
            &&& l.file_paths.len() == companions.len() + 1
            &&& forall|k: int|
                0 <= k < l.file_paths.len() ==> (#[trigger] l.file_paths@[k])@ == join(
                    directory@,
                    bundle_names(executable_name@, str_views(companions@))[k],
                )
        },
        r matches Err(e) ==> exists|k: int|
            first_bundle_problem(bundle_names(executable_name@, str_views(companions@)), k) && e
                == bundle_error_at(bundle_names(executable_name@, str_views(companions@)), k),
{
    let names = match runtime_bundle_file_names(executable_name, companions) {
        Ok(names) => names,
        Err(e) => return Err(e),
    };
    let ghost all = bundle_names(executable_name@, str_views(companions@));
    let mut file_paths: Vec<String> = Vec::new();
    let mut i: usize = 0;
    while i < names.len()
        invariant
            i <= names.len(),
            str_views(names@) == all,
            file_paths.len() == i,
            forall|k: int| 0 <= k < i ==> (#[trigger] file_paths@[k])@ == join(directory@, all[k]),
        decreases names.len() - i,
    {
        assert(str_views(names@)[i as int] == names@[i as int]@);
        let p = join_str(directory, names[i].as_str());
        file_paths.push(p);
        i += 1;
    }
    let executable_path = join_str(directory, executable_name);
    Ok(RuntimeBundleLayout { executable_path, file_paths })
}

/// The directory the directory-creating script printed: its trimmed
/// output, when that is an absolute Windows path.
pub open spec fn secure_directory_spec(output: Seq<char>) -> Option<Seq<char>> {
    if trim(output).len() > 0 && windows_absolute(trim(output)) {
        Some(trim(output))
    } else {
        None
    }
}

/// Reads the staging directory from the directory-creating script's output
/// (whether it exists is for the caller to check).
pub fn secure_directory_from_output(output: &str) -> (r: Option<String>)
    ensures
        r is None <==> secure_directory_spec(output@) is None,
        r matches Some(d) ==> secure_directory_spec(output@) == Some(d@),
{
    let t = trim_chars(&chars_of(output));
    let drive = t.len() >= 3 && (('a' <= t[0] && t[0] <= 'z') || ('A' <= t[0] && t[0] <= 'Z'))
        && t[1] == ':' && (t[2] == '\\' || t[2] == '/');
    let unc = t.len() >= 2 && (t[0] == '\\' || t[0] == '/') && (t[1] == '\\' || t[1] == '/');
    if t.len() > 0 && (drive || unc) {
        Some(string_of(&t))
    } else {
        None
    }
}

/// How many times removing a staged file or directory is tried.
pub const REMOVE_ATTEMPTS: usize = 100;

/// What one attempt to remove a staged file or directory reported.
#[derive(Debug, Clone, Copy, PartialEq, Eq, Structural)]
pub enum RemovalResult {
    Removed,
    NotFound,
    /// Access was denied or the call would block: another process may still
    /// hold the file.
    Busy,
    Failed,
}

/// What to do after an attempt to remove a staged file or directory.
#[derive(Debug, Clone, Copy, PartialEq, Eq, Structural)]
pub enum RemovalDecision {
    /// The path is gone.
    Done,
    /// Wait a moment and try again.
    Retry,
    /// Report the attempt's error.
    GiveUp,
}

/// After attempt number `attempt` (counted from zero): a path that is gone
/// or was never there is done; a busy path is tried again while attempts
/// remain; anything else is an error.
pub fn removal_decision(attempt: usize, result: RemovalResult) -> (r: RemovalDecision)
    ensures
        (result == RemovalResult::Removed || result == RemovalResult::NotFound) ==> r
            == RemovalDecision::Done,
        result == RemovalResult::Busy && attempt + 1 < REMOVE_ATTEMPTS ==> r == RemovalDecision::Retry,
        result == RemovalResult::Busy && attempt + 1 >= REMOVE_ATTEMPTS ==> r
            == RemovalDecision::GiveUp,
        result == RemovalResult::Failed ==> r == RemovalDecision::GiveUp,
{
    match result {
        RemovalResult::Removed => RemovalDecision::Done,
        RemovalResult::NotFound => RemovalDecision::Done,
        RemovalResult::Busy => if attempt < REMOVE_ATTEMPTS - 1 {
            RemovalDecision::Retry
        } else {
            RemovalDecision::GiveUp
        },
        RemovalResult::Failed => RemovalDecision::GiveUp,
    }
}

/// The UTF-16LE bytes of a text.
pub open spec fn utf16le(s: Seq<char>) -> Seq<u8> {
    units_le_bytes(utf16_encode(s))
}

proof fn lemma_units_le_bytes_one(u: u16)
    ensures
        units_le_bytes(seq![u]) == seq![(u % 256) as u8, (u / 256) as u8],
{
    let one = seq![u];
    assert(one.drop_last() =~= Seq::<u16>::empty());
    assert(one.last() == u);
    assert(units_le_bytes(Seq::<u16>::empty()) == Seq::<u8>::empty());
    assert(units_le_bytes(one) == units_le_bytes(one.drop_last()) + seq![
        (one.last() % 256) as u8,
        (one.last() / 256) as u8,
    ]);
    assert(units_le_bytes(one) =~= seq![(u % 256) as u8, (u / 256) as u8]);
}

proof fn lemma_units_le_bytes_two(a: u16, b: u16)
    ensures
        units_le_bytes(seq![a, b]) == seq![(a % 256) as u8, (a / 256) as u8, (b % 256) as u8, (b / 256) as u8],
{
    let two = seq![a, b];
    assert(two.drop_last() =~= seq![a]);
    assert(two.last() == b);
    lemma_units_le_bytes_one(a);
    assert(units_le_bytes(two) == units_le_bytes(two.drop_last()) + seq![
        (two.last() % 256) as u8,
        (two.last() / 256) as u8,
    ]);
    assert(units_le_bytes(seq![a, b]) =~= seq![(a % 256) as u8, (a / 256) as u8, (b % 256) as u8, (b / 256) as u8]);
}

fn push_unit_le(v: &mut Vec<u8>, u: u16)
    ensures
        final(v)@ == old(v)@ + seq![(u % 256) as u8, (u / 256) as u8],
{
    v.push((u % 256) as u8);
    v.push((u / 256) as u8);
}

/// The `-EncodedCommand` argument that runs `script` in Windows
/// PowerShell: the standard Base64 of the script's UTF-16LE bytes.
pub fn powershell_encoded_command(script: &str) -> (r: String)
    ensures
        r@ == base64_standard(utf16le(script@)),
{
    let chars = chars_of(script);
    let mut bytes: Vec<u8> = Vec::new();
    let mut i: usize = 0;
    while i < chars.len()
        invariant
            i <= chars.len(),
            chars@ == script@,
            bytes@ == utf16le(script@.take(i as int)),
        decreases chars.len() - i,
    {
        let c = chars[i];
        let v = c as u32;
        let ghost before = bytes@;
        proof {
            assert(script@.take(i + 1).drop_last() =~= script@.take(i as int));
            assert(script@.take(i + 1).last() == c);
            lemma_units_le_bytes_concat(utf16_encode(script@.take(i as int)), utf16_units(c));
        }
        if v < 0x10000 {
            let u = v as u16;
            push_unit_le(&mut bytes, u);
            proof {
                lemma_units_le_bytes_one(u);
            }
        } else {
            proof {
                vstd::utf8::char_is_scalar(c);
            }
            assert(v <= 0x10FFFF);
            let w = v - 0x10000;
            let high = (0xD800 + w / 0x400) as u16;
            let low = (0xDC00 + w % 0x400) as u16;
            push_unit_le(&mut bytes, high);
            push_unit_le(&mut bytes, low);
            proof {
                lemma_units_le_bytes_two(high, low);
                assert(utf16_units(c) == seq![high, low]);
            }
        }
        i += 1;
    }
    assert(script@.take(chars.len() as int) =~= script@);
    base64_standard_encode(bytes.as_slice())
}

/// The hidden Windows PowerShell command that runs one of the staging
/// scripts; a runtime file the script is to protect is named to it through
/// the environment, with the runtime-bundle file policy.
pub fn staging_script_command(system_directory: &str, script: &str, runtime_file: Option<&str>) -> (r:
    HiddenCommand)
    ensures
        r.program@ == windows_powershell_path(system_directory@),
        str_views(r.args@) == seq![
            "-NoLogo"@,
            "-NoProfile"@,
            "-NonInteractive"@,
            "-ExecutionPolicy"@,
            "Bypass"@,
            "-EncodedCommand"@,
            base64_standard(utf16le(script@)),
        ],
        runtime_file is None ==> r.env@.len() == 0,
        runtime_file matches Some(path) ==> {
            &&& r.env@.len() == 2
            &&& r.env@[0].0@ == "CODEXPP_RECOVERY_FILE"@ && r.env@[0].1@ == path@
            &&& r.env@[1].0@ == "CODEXPP_RECOVERY_FILE_POLICY"@
            &&& r.env@[1].1@ == "administrator-runtime-bundle"@
        },
        r.creation_flags == CREATE_NO_WINDOW,
{
    let (program, _) = crate::exec::powershell_and_module(system_directory);
    let encoded = powershell_encoded_command(script);
    let mut args: Vec<String> = Vec::new();
    args.push("-NoLogo".to_owned());
    args.push("-NoProfile".to_owned());
    args.push("-NonInteractive".to_owned());
    args.push("-ExecutionPolicy".to_owned());
    args.push("Bypass".to_owned());
    args.push("-EncodedCommand".to_owned());
    args.push(encoded);
    assert(str_views(args@) =~= seq![
        "-NoLogo"@,
        "-NoProfile"@,
        "-NonInteractive"@,
        "-ExecutionPolicy"@,
        "Bypass"@,
        "-EncodedCommand"@,
        base64_standard(utf16le(script@)),
    ]);
    let mut env: Vec<(String, String)> = Vec::new();
    match runtime_file {
        Some(path) => {
            env.push(("CODEXPP_RECOVERY_FILE".to_owned(), path.to_owned()));
            env.push(("CODEXPP_RECOVERY_FILE_POLICY".to_owned(), "administrator-runtime-bundle".to_owned()));
        },
        None => {},
    }
    HiddenCommand { program, args, env, creation_flags: CREATE_NO_WINDOW }
}

} // verus!
