use codex_plus_core::runtime_copy::{
    staging_script_command, powershell_encoded_command, removal_decision, secure_directory_from_output, RemovalDecision,
    RemovalResult, REMOVE_ATTEMPTS, official_companion_file_names, official_companion_paths, runtime_bundle_file_names, runtime_bundle_layout, validate_runtime_file_name,
    RuntimeBundleError, HELPER_RUNTIME_FILE_NAME, RUNTIME_FILE_NAME,
};
use codex_plus_core::shell_candidates::{
    architecture_label, store_powershell7_candidates, system_powershell7_candidates,
    ProgramFilesRoot,
};

fn strings(values: &[&str]) -> Vec<String> {
    values.iter().map(|value| (*value).to_owned()).collect()
}

#[test]
fn runtime_file_names_are_single_plain_components() {
    for name in [RUNTIME_FILE_NAME, HELPER_RUNTIME_FILE_NAME, "codex-code-mode-host.exe", "rg.exe", "..."] {
        assert_eq!(validate_runtime_file_name(name), Ok(()), "{name}");
    }
    for name in ["", ".", "..", r"dir\rg.exe", "dir/rg.exe", "C:rg.exe", r"\\server\share"] {
        assert_eq!(
            validate_runtime_file_name(name),
            Err(RuntimeBundleError::InvalidFileName),
            "{name}"
        );
    }
}

#[test]
fn app_server_runtime_copy_contains_code_mode_host_dependency() {
    let names = runtime_bundle_file_names(RUNTIME_FILE_NAME, &strings(&["codex-code-mode-host.exe"]))
        .expect("bundle");
    assert_eq!(names, strings(&[RUNTIME_FILE_NAME, "codex-code-mode-host.exe"]));
    let layout = runtime_bundle_layout(
        r"C:\Windows\Temp\codex-plus-recovery-1",
        RUNTIME_FILE_NAME,
        &strings(&["codex-code-mode-host.exe"]),
    )
    .expect("layout");
    assert_eq!(layout.executable_path, r"C:\Windows\Temp\codex-plus-recovery-1\codex-plus-recovery.exe");
    assert_eq!(
        layout.file_paths,
        strings(&[
            r"C:\Windows\Temp\codex-plus-recovery-1\codex-plus-recovery.exe",
            r"C:\Windows\Temp\codex-plus-recovery-1\codex-code-mode-host.exe",
        ])
    );
}

#[test]
fn helper_runtime_copy_uses_a_distinct_helper_executable_name() {
    let layout = runtime_bundle_layout(r"C:\staging", HELPER_RUNTIME_FILE_NAME, &Vec::new()).expect("layout");
    assert_eq!(layout.executable_path, r"C:\staging\codex-plus-computer-use.exe");
    assert_ne!(HELPER_RUNTIME_FILE_NAME, RUNTIME_FILE_NAME);
}

#[test]
fn runtime_bundle_refuses_duplicates_ignoring_ascii_case() {
    assert_eq!(
        runtime_bundle_file_names(RUNTIME_FILE_NAME, &strings(&["rg.exe", "RG.EXE"])),
        Err(RuntimeBundleError::DuplicateFileName)
    );
    assert_eq!(
        runtime_bundle_file_names(RUNTIME_FILE_NAME, &strings(&["Codex-Plus-Recovery.exe"])),
        Err(RuntimeBundleError::DuplicateFileName)
    );
    // The first problem in staging order decides the error.
    assert_eq!(
        runtime_bundle_file_names(RUNTIME_FILE_NAME, &strings(&["rg.exe", "..", "rg.exe"])),
        Err(RuntimeBundleError::InvalidFileName)
    );
    assert_eq!(
        runtime_bundle_file_names("bad/name.exe", &strings(&["rg.exe"])),
        Err(RuntimeBundleError::InvalidFileName)
    );
}

#[test]
fn store_packages_are_tried_newest_version_first() {
    let entries = strings(&[
        "Microsoft.PowerShell_7.4.1.0_x64__8wekyb3d8bbwe",
        "Microsoft.PowerShell_7.10.0.0_x64__8wekyb3d8bbwe",
        "Microsoft.PowerShell_7.5.0.0_arm64__8wekyb3d8bbwe",
        "Microsoft.WindowsTerminal_1.0.0.0_x64__8wekyb3d8bbwe",
        "Microsoft.PowerShell_7.x.0.0_x64__8wekyb3d8bbwe",
        "Microsoft.PowerShell_7.4.1_x64__8wekyb3d8bbwe",
    ]);
    let candidates = store_powershell7_candidates(r"C:\Program Files\WindowsApps", &entries, "x64");
    assert_eq!(
        candidates,
        strings(&[
            r"C:\Program Files\WindowsApps\Microsoft.PowerShell_7.10.0.0_x64__8wekyb3d8bbwe\pwsh.exe",
            r"C:\Program Files\WindowsApps\Microsoft.PowerShell_7.4.1.0_x64__8wekyb3d8bbwe\pwsh.exe",
            r"C:\Program Files\WindowsApps\Microsoft.PowerShell_7.4.1_x64__8wekyb3d8bbwe\pwsh.exe",
        ])
    );
}

#[test]
fn store_packages_of_equal_version_keep_directory_order() {
    let entries = strings(&[
        "Microsoft.PowerShell_7.4.1.0_b_x64__8wekyb3d8bbwe",
        "Microsoft.PowerShell_7.04.1.0_a_x64__8wekyb3d8bbwe",
    ]);
    let candidates = store_powershell7_candidates(r"D:\apps", &entries, "x64");
    assert_eq!(
        candidates,
        strings(&[
            r"D:\apps\Microsoft.PowerShell_7.4.1.0_b_x64__8wekyb3d8bbwe\pwsh.exe",
            r"D:\apps\Microsoft.PowerShell_7.04.1.0_a_x64__8wekyb3d8bbwe\pwsh.exe",
        ])
    );
    assert!(store_powershell7_candidates(r"D:\apps", &Vec::new(), "x64").is_empty());
}

#[test]
fn store_architecture_labels_follow_the_store_names() {
    assert_eq!(architecture_label("x86_64"), "x64");
    assert_eq!(architecture_label("aarch64"), "arm64");
    assert_eq!(architecture_label("x86"), "x86");
    assert_eq!(architecture_label("riscv64"), "riscv64");
}

#[test]
fn official_companions_sit_beside_the_executable_and_form_a_valid_bundle() {
    let resources = r"C:\Program Files\WindowsApps\OpenAI.Codex_26.707.3748.0_x64__2p2nqsd0c76g0\app\resources";
    let paths = official_companion_paths(&format!(r"{resources}\codex.exe")).expect("paths");
    assert_eq!(
        paths,
        vec![
            format!(r"{resources}\codex-code-mode-host.exe"),
            format!(r"{resources}\codex-command-runner.exe"),
            format!(r"{resources}\codex-windows-sandbox-setup.exe"),
            format!(r"{resources}\rg.exe"),
        ]
    );
    assert_eq!(official_companion_paths(""), None);
    let names = official_companion_file_names();
    let bundle = runtime_bundle_file_names(RUNTIME_FILE_NAME, &names).expect("official bundle");
    assert_eq!(bundle.len(), 5);
    assert_eq!(bundle[0], RUNTIME_FILE_NAME);
}

#[test]
fn staging_directory_is_the_trimmed_absolute_script_output() {
    assert_eq!(
        secure_directory_from_output("C:\\Windows\\Temp\\codex-plus-recovery-7\r\n"),
        Some(r"C:\Windows\Temp\codex-plus-recovery-7".to_owned())
    );
    assert_eq!(secure_directory_from_output("  \n"), None);
    assert_eq!(secure_directory_from_output("relative\\dir"), None);
    assert_eq!(
        secure_directory_from_output(r"\\server\share\dir"),
        Some(r"\\server\share\dir".to_owned())
    );
}

#[test]
fn busy_removals_are_retried_a_bounded_number_of_times() {
    assert_eq!(removal_decision(0, RemovalResult::Removed), RemovalDecision::Done);
    assert_eq!(removal_decision(5, RemovalResult::NotFound), RemovalDecision::Done);
    assert_eq!(removal_decision(0, RemovalResult::Busy), RemovalDecision::Retry);
    assert_eq!(removal_decision(REMOVE_ATTEMPTS - 2, RemovalResult::Busy), RemovalDecision::Retry);
    assert_eq!(removal_decision(REMOVE_ATTEMPTS - 1, RemovalResult::Busy), RemovalDecision::GiveUp);
    assert_eq!(removal_decision(0, RemovalResult::Failed), RemovalDecision::GiveUp);
}

#[test]
fn powershell_scripts_are_passed_as_utf16_base64() {
    assert_eq!(powershell_encoded_command("A"), "QQA=");
    assert_eq!(
        powershell_encoded_command("Write-Output \"ok\""),
        "VwByAGkAdABlAC0ATwB1AHQAcAB1AHQAIAAiAG8AawAiAA=="
    );
    assert_eq!(powershell_encoded_command("\u{1F600}"), "PdgA3g==");
}

#[test]
fn staging_scripts_run_hidden_with_the_protected_file_named() {
    let command = staging_script_command(r"C:\Windows\System32", "A", Some(r"C:\staging\rg.exe"));
    assert_eq!(command.program, r"C:\Windows\System32\WindowsPowerShell\v1.0\powershell.exe");
    assert_eq!(
        command.args,
        strings(&["-NoLogo", "-NoProfile", "-NonInteractive", "-ExecutionPolicy", "Bypass", "-EncodedCommand", "QQA="])
    );
    assert_eq!(
        command.env,
        vec![
            ("CODEXPP_RECOVERY_FILE".to_owned(), r"C:\staging\rg.exe".to_owned()),
            ("CODEXPP_RECOVERY_FILE_POLICY".to_owned(), "administrator-runtime-bundle".to_owned()),
        ]
    );
    assert_eq!(command.creation_flags, 0x0800_0000);
    assert!(staging_script_command(r"C:\Windows\System32", "A", None).env.is_empty());
}

#[test]
fn powershell7_candidates_follow_store_program_files_user_and_path_order() {
    let roots = vec![
        ProgramFilesRoot {
            root: r"C:\Program Files".to_owned(),
            store_candidates: vec![
                r"C:\Program Files\WindowsApps\Microsoft.PowerShell_7.5.0.0_x64__8wekyb3d8bbwe\pwsh.exe"
                    .to_owned(),
            ],
        },
        ProgramFilesRoot { root: r"D:\Apps\".to_owned(), store_candidates: Vec::new() },
    ];
    let path_dirs = vec![r"C:\Tools".to_owned(), r"C:\Bin\".to_owned()];
    let candidates = system_powershell7_candidates(
        Some(r"C:\Store\pwsh.exe".to_owned()),
        &roots,
        Some(r"C:\Users\me\AppData\Local"),
        &path_dirs,
    );
    assert_eq!(
        candidates,
        vec![
            r"C:\Store\pwsh.exe".to_owned(),
            r"C:\Program Files\PowerShell\7\pwsh.exe".to_owned(),
            r"C:\Program Files\WindowsApps\Microsoft.PowerShell_7.5.0.0_x64__8wekyb3d8bbwe\pwsh.exe"
                .to_owned(),
            r"D:\Apps\PowerShell\7\pwsh.exe".to_owned(),
            r"C:\Users\me\AppData\Local\Programs\PowerShell\7\pwsh.exe".to_owned(),
            r"C:\Tools\pwsh.exe".to_owned(),
            r"C:\Bin\pwsh.exe".to_owned(),
        ]
    );
}

#[test]
fn powershell7_candidates_without_environment_are_empty() {
    assert!(system_powershell7_candidates(None, &Vec::new(), None, &Vec::new()).is_empty());
}
