use klipdot::installer::bash_hook_content;
use klipdot::installer::choose_binary_path;
use klipdot::installer::desktop_entry_content;
use klipdot::installer::systemd_service_content;
use klipdot::installer::with_source_line;
use klipdot::installer::without_source_line;
use klipdot::installer::zsh_hook_content;
use klipdot::installer::ShellInstaller;
use klipdot::Environment;

fn env_with_shell(shell: Option<&str>) -> Environment {
    Environment {
        wayland_display: None,
        xdg_session_type: None,
        display: None,
        xdg_current_desktop: None,
        swaysock: None,
        hyprland_instance_signature: None,
        term_program: None,
        term: None,
        shell: shell.map(|s| s.to_string()),
    }
}

fn temp_installer(dir: &str) -> ShellInstaller {
    ShellInstaller {
        shell_type: "bash".to_string(),
        home_dir: dir.to_string(),
        shell_rc_path: format!("{}/.bashrc", dir),
        hooks_dir: format!("{}/hooks", dir),
    }
}

#[test]
fn test_shell_installer_creation() {
    let installer = ShellInstaller::new("bash");
    assert_eq!(installer.shell_type, "bash");
    assert!(installer.shell_rc_path.contains(".bashrc"));

    let installer = ShellInstaller::new("zsh");
    assert_eq!(installer.shell_type, "zsh");
    assert!(installer.shell_rc_path.contains(".zshrc"));
}

#[test]
fn installer_for_a_home() {
    let installer = ShellInstaller::with_home("zsh", "/home/u");
    assert_eq!(installer.home_dir, "/home/u");
    assert_eq!(installer.shell_rc_path, "/home/u/.zshrc");
    assert_eq!(installer.hooks_dir, "/home/u/.klipdot/hooks");
    assert_eq!(installer.hook_file(), "/home/u/.klipdot/hooks/zsh-hooks.zsh");
    assert_eq!(installer.source_line(), "source \"/home/u/.klipdot/hooks/zsh-hooks.zsh\"");
    let fish = ShellInstaller::with_home("fish", "/home/u/");
    assert_eq!(fish.shell_rc_path, "/home/u/.bashrc");
    assert_eq!(fish.hook_file(), "/home/u/.klipdot/hooks/bash-hooks.bash");
    assert_eq!(ShellInstaller::get_shell_rc_path("/r", "bash"), "/r/.bashrc");
    assert_eq!(fish.desktop_entry_path(), "/home/u/.local/share/applications/klipdot.desktop");
    assert_eq!(fish.systemd_service_path(), "/home/u/.config/systemd/user/klipdot.service");
}

#[test]
fn test_shell_detection() {
    let installer = ShellInstaller::detect_shell(&env_with_shell(Some("/bin/bash")));
    assert!(!installer.shell_type.is_empty());
}

#[test]
fn shell_by_environment() {
    assert_eq!(ShellInstaller::shell_name(&env_with_shell(Some("/usr/bin/zsh"))), "zsh");
    assert_eq!(ShellInstaller::shell_name(&env_with_shell(Some("fish"))), "fish");
    assert_eq!(ShellInstaller::shell_name(&env_with_shell(None)), "bash");
    assert_eq!(ShellInstaller::shell_name(&env_with_shell(Some("/bin/"))), "");
    assert_eq!(ShellInstaller::detect_shell(&env_with_shell(Some("/usr/bin/zsh"))).shell_type, "zsh");
}

#[test]
fn test_hook_content_generation() {
    let installer = temp_installer("/tmp/klipdot-test");

    let bash_content = installer.generate_bash_hook_content("klipdot");
    assert!(bash_content.contains("KlipDot Bash Integration"));
    assert!(bash_content.contains("klipdot_handle_image"));
    assert!(bash_content.contains("preexec"));

    let zsh_content = installer.generate_zsh_hook_content("klipdot");
    assert!(zsh_content.contains("KlipDot ZSH Integration"));
    assert!(zsh_content.contains("klipdot_handle_image"));
    assert!(zsh_content.contains("add-zsh-hook"));
}

#[test]
fn hook_content_names_directory_and_binary() {
    let zsh = zsh_hook_content("/home/u/.klipdot", "/usr/bin/klipdot");
    assert!(zsh.starts_with(
        "# KlipDot ZSH Integration\nKLIPDOT_DIR=\"/home/u/.klipdot\"\nKLIPDOT_BIN=\"/usr/bin/klipdot\"\n\n# Function to handle image files\nklipdot_handle_image() {\n"
    ));
    assert!(zsh.contains("    local args=(\"${(@s/ /)cmd}\")\n"));
    assert!(zsh.contains("    for file in *.{png,jpg,jpeg,gif,bmp,webp,svg}(N); do\n"));
    assert!(zsh.ends_with("klipdot_scp() {\n    local result\n    command scp \"$@\"\n    result=$?\n    \n    for arg in \"$@\"; do\n        if [[ -f \"$arg\" ]]; then\n            klipdot_handle_image \"$arg\"\n        fi\n    done\n    \n    return $result\n}\n"));
    assert!(!zsh.contains("{{"));
    let bash = bash_hook_content("/d", "/b");
    assert!(bash.starts_with("# KlipDot Bash Integration\nKLIPDOT_DIR=\"/d\"\nKLIPDOT_BIN=\"/b\"\n"));
    assert!(bash.contains("trap 'klipdot_preexec' DEBUG\n"));
    assert!(bash.contains("    PROMPT_COMMAND=\"klipdot_precmd;$PROMPT_COMMAND\"\n"));
    assert!(!bash.contains("}}"));
    let installer = ShellInstaller::with_home("zsh", "/h");
    assert_eq!(installer.hook_content("/d", "/b"), zsh_hook_content("/d", "/b"));
    assert_eq!(ShellInstaller::with_home("sh", "/h").hook_content("/d", "/b"), bash);
}

#[test]
fn test_source_line_operations() {
    let installer = temp_installer("/tmp/klipdot-test");

    let content = installer.add_source_line("").unwrap();
    assert!(content.contains("KlipDot Terminal Interceptor"));
    assert!(content.contains("source"));

    let content = installer.remove_source_line(&content);
    assert!(!content.contains("KlipDot Terminal Interceptor"));
}

#[test]
fn source_line_is_added_once() {
    let installer = ShellInstaller::with_home("bash", "/h");
    let line = "source \"/h/.klipdot/hooks/bash-hooks.bash\"";
    let added = installer.add_source_line("export A=1\n").unwrap();
    assert_eq!(added, format!("export A=1\n\n# KlipDot Terminal Interceptor\n{}\n", line));
    assert_eq!(installer.add_source_line(&added), None);
    assert_eq!(with_source_line("x", "y"), Some("x\n# KlipDot Terminal Interceptor\ny\n".to_string()));
    assert_eq!(with_source_line("a y b", "y"), None);
    assert_eq!(installer.remove_source_line(&added), "export A=1\n");
}

#[test]
fn source_line_removal() {
    assert_eq!(without_source_line(""), "");
    assert_eq!(without_source_line("a\nb\n"), "a\nb");
    assert_eq!(
        without_source_line("a\n# KlipDot Terminal Interceptor\nsource \"/h/.klipdot/x\"\nb"),
        "a\nb"
    );
    assert_eq!(without_source_line("a\n# KlipDot Terminal Interceptor\nother\nb"), "a\nother\nb");
    assert_eq!(without_source_line("klipdot stays\nb"), "klipdot stays\nb");
    assert_eq!(
        without_source_line("# KlipDot Terminal Interceptor\n# KlipDot Terminal Interceptor\nklipdot\nklipdot\n"),
        "klipdot"
    );
    assert_eq!(without_source_line("a\r\n# KlipDot Terminal Interceptor\r\nklipdot\r\nb\r\n"), "a\nb");
}

#[test]
fn test_binary_path_detection() {
    let binary_path = choose_binary_path(None, &[false, false, false], None);
    assert!(!binary_path.is_empty());
    assert!(binary_path.contains("klipdot"));
}

#[test]
fn binary_path_priority() {
    assert_eq!(choose_binary_path(None, &[false, false, false], None), "klipdot");
    assert_eq!(choose_binary_path(None, &[false, false, false], Some("/x/kd")), "/x/kd");
    assert_eq!(choose_binary_path(None, &[false, true, true], Some("/x/kd")), "/usr/bin/klipdot");
    assert_eq!(choose_binary_path(None, &[true, true, true], None), "/usr/local/bin/klipdot");
    assert_eq!(choose_binary_path(None, &[false, false, true], None), "/opt/klipdot/bin/klipdot");
    assert_eq!(
        choose_binary_path(Some("  /home/u/.cargo/bin/klipdot\n"), &[true, true, true], Some("/x")),
        "/home/u/.cargo/bin/klipdot"
    );
    assert_eq!(choose_binary_path(Some("\n"), &[true, true, true], Some("/x")), "");
    assert_eq!(choose_binary_path(None, &[], Some("/x")), "/x");
    assert_eq!(choose_binary_path(None, &[false, false, false, true], None), "klipdot");
}

#[test]
fn system_entries() {
    assert_eq!(
        desktop_entry_content("/usr/bin/klipdot"),
        "[Desktop Entry]\nName=KlipDot\nComment=Universal terminal image interceptor\nExec=/usr/bin/klipdot start --daemon\nIcon=image-x-generic\nType=Application\nCategories=Utility;System;\nStartupNotify=false\nNoDisplay=true\n"
    );
    assert_eq!(
        systemd_service_content("kd"),
        "[Unit]\nDescription=KlipDot Universal Terminal Image Interceptor\nAfter=graphical-session.target\n\n[Service]\nType=simple\nExecStart=kd start --daemon\nRestart=always\nRestartSec=5\nEnvironment=DISPLAY=:0\n\n[Install]\nWantedBy=default.target\n"
    );
}

#[test]
fn installation_plans() {
    let installer = ShellInstaller::with_home("zsh", "/home/u");
    let plan = installer.install("/home/u/.klipdot", "/usr/bin/klipdot", None);
    assert_eq!(plan.hooks_dir, "/home/u/.klipdot/hooks");
    assert_eq!(plan.hook_file.path, "/home/u/.klipdot/hooks/zsh-hooks.zsh");
    assert_eq!(plan.hook_file.content, zsh_hook_content("/home/u/.klipdot", "/usr/bin/klipdot"));
    let rc = plan.rc_file.unwrap();
    assert_eq!(rc.path, "/home/u/.zshrc");
    assert_eq!(
        rc.content,
        "\n# KlipDot Terminal Interceptor\nsource \"/home/u/.klipdot/hooks/zsh-hooks.zsh\"\n"
    );
    let again = installer.install("/home/u/.klipdot", "/usr/bin/klipdot", Some(&rc.content));
    assert!(again.rc_file.is_none());
    let removal = installer.uninstall(Some(&rc.content));
    assert_eq!(removal.hooks_dir, "/home/u/.klipdot/hooks");
    let cleaned = removal.rc_file.unwrap();
    assert_eq!(cleaned.path, "/home/u/.zshrc");
    assert_eq!(cleaned.content, "");
    assert!(installer.uninstall(None).rc_file.is_none());
    let entry = installer.create_desktop_entry("kd");
    assert_eq!(entry.path, "/home/u/.local/share/applications/klipdot.desktop");
    assert_eq!(entry.content, desktop_entry_content("kd"));
    let unit = installer.create_systemd_service("kd");
    assert_eq!(unit.path, "/home/u/.config/systemd/user/klipdot.service");
    assert_eq!(unit.content, systemd_service_content("kd"));
}
