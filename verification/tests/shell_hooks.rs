use klipdot::shell_hooks::invalid_pattern;
use klipdot::shell_hooks::is_integrated;
use klipdot::shell_hooks::select_image_words;
use klipdot::shell_hooks::syntax_check_file_name;
use klipdot::shell_hooks::syntax_checker;
use klipdot::shell_hooks::HookStatus;
use klipdot::shell_hooks::ShellHookManager;

#[test]
fn test_shell_hook_manager_creation() {
    let manager = ShellHookManager::new();
    assert!(manager.is_ok());

    let manager = manager.unwrap();
    assert!(manager.pattern_count() > 0);
    assert!(manager.alias_count() > 0);
}

#[test]
fn test_image_command_detection() {
    let manager = ShellHookManager::new().unwrap();

    assert!(manager.is_image_command("cp test.png /tmp/"));
    assert!(manager.is_image_command("mv screenshot.jpg ~/Desktop/"));
    assert!(manager.is_image_command("scp image.gif user@host:/path/"));
    assert!(manager.is_image_command("screencapture -i test.png"));

    assert!(!manager.is_image_command("cp test.txt /tmp/"));
    assert!(!manager.is_image_command("ls -la"));
    assert!(!manager.is_image_command("echo hello"));
}

#[test]
fn test_command_replacement() {
    let manager = ShellHookManager::new().unwrap();

    let replacement = manager.get_command_replacement("cp file1 file2");
    assert!(replacement.is_some());
    assert!(replacement.unwrap().starts_with("klipdot_cp"));

    let replacement = manager.get_command_replacement("ls -la");
    assert!(replacement.is_none());
}

#[test]
fn command_replacement_is_exact() {
    let manager = ShellHookManager::new().unwrap();
    assert_eq!(manager.get_command_replacement("cp file1 file2").unwrap(), "klipdot_cp file1 file2");
    assert_eq!(manager.get_command_replacement("  mv   a\t b  ").unwrap(), "klipdot_mv a b");
    assert_eq!(manager.get_command_replacement("scp").unwrap(), "klipdot_scp");
    assert_eq!(manager.get_command_replacement("cpx a"), None);
    assert_eq!(manager.get_command_replacement("rsync a b"), None);
    assert_eq!(manager.get_command_replacement(""), None);
    assert_eq!(manager.get_command_replacement("   "), None);
    assert_eq!(ShellHookManager::empty().get_command_replacement("cp a b"), None);
}

#[test]
fn test_hook_function_generation() {
    let manager = ShellHookManager::new().unwrap();

    let functions = manager.generate_hook_functions();
    assert!(functions.contains("klipdot_handle_file"));
    assert!(functions.contains("klipdot_preexec_hook"));
    assert!(functions.contains("klipdot_precmd_hook"));
}

#[test]
fn test_command_wrapper_generation() {
    let manager = ShellHookManager::new().unwrap();

    let wrappers = manager.generate_command_wrappers();
    assert!(wrappers.contains("cp()"));
    assert!(wrappers.contains("mv()"));
    assert!(wrappers.contains("scp()"));
    assert!(wrappers.contains("command cp"));
}

#[test]
fn command_wrappers_are_exact() {
    let manager = ShellHookManager::new().unwrap();
    let one = |c: &str| {
        format!(
            "\n{c}() {{\n    local result\n    local cmd_line=\"{c} $*\"\n    \n    # Pre-execution hook\n    klipdot_preexec_hook \"$cmd_line\"\n    \n    # Execute original command\n    command {c} \"$@\"\n    result=$?\n    \n    # Post-execution hook\n    klipdot_scan_args \"$cmd_line\" \"$@\"\n    \n    return $result\n}}\n",
            c = c
        )
    };
    assert_eq!(manager.generate_command_wrappers(), format!("{}{}{}", one("cp"), one("mv"), one("scp")));
    assert_eq!(ShellHookManager::empty().generate_command_wrappers(), "");
}

#[test]
fn environment_setup_is_exact() {
    let manager = ShellHookManager::new().unwrap();
    assert_eq!(
        manager.generate_environment_setup(),
        "# KlipDot Environment Setup\nexport KLIPDOT_ENABLED=\"1\"\nexport KLIPDOT_LOG_LEVEL=\"info\"\n\n"
    );
    assert_eq!(ShellHookManager::empty().generate_environment_setup(), "# KlipDot Environment Setup\n\n");
}

#[test]
fn test_shell_integration_generation() {
    let manager = ShellHookManager::new().unwrap();

    let bash_integration = manager.generate_shell_integration("bash");
    assert!(bash_integration.contains("BASH_VERSION"));
    assert!(bash_integration.contains("PROMPT_COMMAND"));

    let zsh_integration = manager.generate_shell_integration("zsh");
    assert!(zsh_integration.contains("ZSH_VERSION"));
    assert!(zsh_integration.contains("add-zsh-hook"));
}

#[test]
fn shell_integration_is_put_together_in_order() {
    let manager = ShellHookManager::new().unwrap();
    let head = format!(
        "{}{}{}",
        manager.generate_environment_setup(),
        manager.generate_hook_functions(),
        manager.generate_command_wrappers()
    );
    let fish = manager.generate_shell_integration("fish");
    assert_eq!(fish, format!("{}# Generic shell integration\n", head));
    let zsh = manager.generate_shell_integration("zsh");
    assert!(zsh.starts_with(&head));
    assert!(zsh.ends_with("\n# ZSH-specific integration\nif [[ -n \"$ZSH_VERSION\" ]]; then\n    autoload -Uz add-zsh-hook\n    add-zsh-hook preexec klipdot_preexec_hook\n    add-zsh-hook precmd klipdot_precmd_hook\nfi\n"));
    let bash = manager.generate_shell_integration("bash");
    assert!(bash.ends_with("        PROMPT_COMMAND=\"klipdot_precmd_hook;$PROMPT_COMMAND\"\n    fi\nfi\n"));
    assert!(bash.contains("    trap 'klipdot_preexec_hook \"$BASH_COMMAND\"' DEBUG\n"));
    let functions = manager.generate_hook_functions();
    assert!(functions.starts_with("\n# KlipDot Hook Functions\n\nklipdot_handle_file() {\n"));
    assert!(functions.contains("        for file in \"$dir\"/*.{png,jpg,jpeg,gif,bmp,webp,svg}; do\n"));
    assert!(functions.ends_with("    export KLIPDOT_CLIPBOARD_PID=$!\nfi\n"));
}

#[test]
fn test_hook_status() {
    let manager = ShellHookManager::new().unwrap();
    let status = manager.get_hook_status(false, false, None, None);

    assert!(status.binary_available || !status.binary_available);
    assert!(status.hooks_installed || !status.hooks_installed);
}

#[test]
fn hook_status_reads_the_start_up_files() {
    let manager = ShellHookManager::default();
    assert_eq!(
        HookStatus::default(),
        HookStatus { binary_available: false, hooks_installed: false, bash_integrated: false, zsh_integrated: false }
    );
    let status = manager.get_hook_status(true, false, Some("source klipdot.sh"), Some("# nothing"));
    assert_eq!(
        status,
        HookStatus { binary_available: true, hooks_installed: false, bash_integrated: true, zsh_integrated: false }
    );
    let status = manager.get_hook_status(false, true, None, Some("# KlipDot"));
    assert_eq!(
        status,
        HookStatus { binary_available: false, hooks_installed: true, bash_integrated: false, zsh_integrated: true }
    );
    assert!(!is_integrated("KLIPDOT and Klipdot"));
    assert!(!is_integrated(""));
}

#[test]
fn image_words_of_a_command() {
    let manager = ShellHookManager::new().unwrap();
    let file = tempfile::Builder::new().prefix("pic").suffix(".PNG").tempfile().unwrap();
    let text = tempfile::Builder::new().prefix("pic").suffix(".txt").tempfile().unwrap();
    let image = file.path().to_str().unwrap();
    let command = format!("cp {} {} /surely/not/there.png", text.path().to_str().unwrap(), image);
    assert_eq!(manager.extract_image_files(&command), vec![image.to_string()]);
    assert!(manager.extract_image_files("ls -la").is_empty());
    assert!(manager.should_intercept_command(&format!("ls {}", image)));
    assert!(manager.should_intercept_command("scrot"));
    assert!(!manager.should_intercept_command("ls -la"));
    let words = vec!["a.png".to_string(), "b.txt".to_string(), "c.gif".to_string(), "d.svg".to_string()];
    assert_eq!(select_image_words(&words, &[true, true, false, true]), vec!["a.png", "d.svg"]);
    assert_eq!(select_image_words(&words, &[true]), vec!["a.png"]);
    assert_eq!(invalid_pattern("a(", "unclosed group").message(), "Parse error: Invalid regex pattern 'a(': unclosed group");
}

#[test]
fn image_commands_by_pattern() {
    let manager = ShellHookManager::new().unwrap();
    assert!(manager.is_image_command("rsync -a shots/x.webp host:"));
    assert!(manager.is_image_command("import -window root out.bmp"));
    assert!(manager.is_image_command("gnome-screenshot"));
    assert!(manager.is_image_command("my-scrot-wrapper"));
    assert!(manager.is_image_command("xcp a.svg"));
    assert!(!manager.is_image_command("cp a.PNG b"));
    assert!(!manager.is_image_command("convert a.tiff b.tif"));
    assert!(!manager.is_image_command(""));
    assert!(!ShellHookManager::empty().is_image_command("scrot"));
}

#[test]
fn syntax_check_setup() {
    assert_eq!(syntax_check_file_name("bash"), "klipdot_test.bash");
    assert_eq!(syntax_check_file_name("zsh"), "klipdot_test.zsh");
    assert_eq!(syntax_checker("zsh"), "zsh");
    assert_eq!(syntax_checker("bash"), "bash");
    assert_eq!(syntax_checker("fish"), "bash");
    let manager = ShellHookManager::empty();
    let check = manager.validate_shell_syntax("zsh", "/tmp");
    assert_eq!(check.file, "/tmp/klipdot_test.zsh");
    assert_eq!(check.command.program, "zsh");
    assert_eq!(check.command.args, vec!["-n", "/tmp/klipdot_test.zsh"]);
    let check = manager.validate_shell_syntax("fish", "/var/tmp/");
    assert_eq!(check.command.program, "bash");
    assert_eq!(check.command.args, vec!["-n", "/var/tmp/klipdot_test.fish"]);
}
