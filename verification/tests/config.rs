use klipdot::config::Config;
use klipdot::config::FileEntry;
use klipdot::config::LogLevel;
use klipdot::error::Error;
use klipdot::DisplayServer;
use klipdot::Environment;

fn empty_env() -> Environment {
    Environment {
        wayland_display: None,
        xdg_session_type: None,
        display: None,
        xdg_current_desktop: None,
        swaysock: None,
        hyprland_instance_signature: None,
        term_program: None,
        term: None,
        shell: None,
    }
}

fn entry(path: &str, modified: i64) -> FileEntry {
    FileEntry { path: path.to_string(), is_file: true, size: 10, modified, created: Some(modified) }
}

#[test]
fn test_default_config() {
    let config = Config::default();
    assert!(config.enabled);
    assert!(!config.auto_start);
    assert!(config.intercept_methods.clipboard);
    assert!(config.shell_integration.enabled);
    assert_eq!(config.compression_quality, 90);
}

#[test]
fn default_config_for_a_home() {
    let config = Config::with_home("/home/u/.klipdot", 1234);
    assert_eq!(config.screenshot_dir, "/home/u/.klipdot/screenshots");
    assert_eq!(config.config_file, "/home/u/.klipdot/config.json");
    assert_eq!(config.get_config_path(), "/home/u/.klipdot/config.json");
    assert_eq!(config.poll_interval, 1000);
    assert_eq!(config.max_file_size, 10 * 1024 * 1024);
    assert_eq!(config.cleanup_days, 30);
    assert_eq!(config.log_level, "info");
    assert_eq!(config.image_formats, vec!["png", "jpg", "jpeg", "gif", "bmp", "webp", "svg"]);
    assert_eq!(config.shell_integration.shells, vec!["bash", "zsh"]);
    assert_eq!(config.shell_integration.hook_commands, vec!["cp", "mv", "scp", "rsync"]);
    assert_eq!(config.shell_integration.aliases, vec!["cp", "mv", "scp"]);
    assert_eq!(config.display_server.clipboard_tools.wayland_tools, vec!["wl-copy", "wl-paste"]);
    assert_eq!(config.display_server.clipboard_tools.x11_tools, vec!["xclip", "xsel"]);
    assert_eq!(config.display_server.clipboard_tools.preferred_tool.as_deref(), Some("wl-copy"));
    assert_eq!(config.display_server.screenshot_tools.preferred_tool.as_deref(), Some("grim"));
    assert_eq!(config.display_server.screenshot_tools.default_args.len(), 9);
    assert!(config.display_server.auto_detect);
    assert!(config.display_server.fallback_enabled);
    assert_eq!(config.created_at, 1234);
    assert_eq!(config.updated_at, 1234);
    assert_eq!(config.get_screenshot_path("a.png"), "/home/u/.klipdot/screenshots/a.png");
}

#[test]
fn test_config_validation() {
    let mut config = Config::default();

    assert!(config.validate().is_ok());

    config.poll_interval = 50;
    assert!(config.validate().is_err());
    config.poll_interval = 1000;

    config.compression_quality = 150;
    assert!(config.validate().is_err());
    config.compression_quality = 90;

    config.cleanup_days = 0;
    assert!(config.validate().is_err());
}

#[test]
fn validation_names_the_first_broken_rule() {
    let mut config = Config::with_home("/h", 0);
    config.poll_interval = 99;
    config.max_file_size = 1023;
    config.compression_quality = 101;
    config.cleanup_days = 0;
    let message = |c: &Config| match c.validate() {
        Err(Error::Validation(m)) => m,
        other => panic!("unexpected {:?}", other),
    };
    assert_eq!(message(&config), "Poll interval must be at least 100ms");
    config.poll_interval = 100;
    assert_eq!(message(&config), "Max file size must be at least 1KB");
    config.max_file_size = 1024;
    assert_eq!(message(&config), "Compression quality must be between 0-100");
    config.compression_quality = 100;
    assert_eq!(message(&config), "Cleanup days must be greater than 0");
    config.cleanup_days = 1;
    assert!(config.validate().is_ok());
}

#[test]
fn test_image_format_support() {
    let config = Config::default();
    assert!(config.is_image_format_supported("png"));
    assert!(config.is_image_format_supported("PNG"));
    assert!(config.is_image_format_supported("jpg"));
    assert!(!config.is_image_format_supported("txt"));
    assert!(!config.is_image_format_supported("exe"));
}

#[test]
fn log_level_by_name() {
    let mut config = Config::with_home("/h", 0);
    assert_eq!(config.get_log_level(), LogLevel::Info);
    for (name, level) in [
        ("error", LogLevel::Error),
        ("WARN", LogLevel::Warn),
        ("Debug", LogLevel::Debug),
        ("trace", LogLevel::Trace),
        ("loud", LogLevel::Info),
        ("", LogLevel::Info),
    ] {
        config.log_level = name.to_string();
        assert_eq!(config.get_log_level(), level);
    }
}

#[test]
fn display_server_preference() {
    let mut config = Config::with_home("/h", 0);
    let mut env = empty_env();
    assert_eq!(config.get_display_server(&env), DisplayServer::Unknown);
    env.display = Some(":0".to_string());
    assert_eq!(config.get_display_server(&env), DisplayServer::X11);
    config.display_server.preferred_server = Some("Wayland".to_string());
    assert_eq!(config.get_display_server(&env), DisplayServer::X11);
    config.display_server.auto_detect = false;
    assert_eq!(config.get_display_server(&env), DisplayServer::Wayland);
    config.display_server.preferred_server = Some("x11".to_string());
    assert_eq!(config.get_display_server(&env), DisplayServer::X11);
    config.display_server.preferred_server = Some("mir".to_string());
    assert_eq!(config.get_display_server(&env), DisplayServer::Unknown);
    config.display_server.preferred_server = None;
    assert_eq!(config.get_display_server(&env), DisplayServer::X11);
}

#[test]
fn wayland_compositor_preference() {
    let mut config = Config::with_home("/h", 0);
    let mut env = empty_env();
    assert_eq!(config.get_wayland_compositor(&env), None);
    env.swaysock = Some("/run/sway".to_string());
    assert_eq!(config.get_wayland_compositor(&env).as_deref(), Some("sway"));
    config.display_server.wayland_compositor = Some("river".to_string());
    assert_eq!(config.get_wayland_compositor(&env).as_deref(), Some("river"));
}

#[test]
fn candidate_tools_by_display_server() {
    let mut config = Config::with_home("/h", 0);
    assert_eq!(
        config.clipboard_candidate_names(DisplayServer::Wayland),
        vec!["wl-copy", "wl-paste", "xclip", "xsel"]
    );
    assert_eq!(config.clipboard_candidate_names(DisplayServer::X11), vec!["xclip", "xsel"]);
    assert_eq!(
        config.clipboard_candidate_names(DisplayServer::Unknown),
        vec!["wl-copy", "wl-paste", "xclip", "xsel"]
    );
    config.display_server.fallback_enabled = false;
    assert_eq!(config.clipboard_candidate_names(DisplayServer::Wayland), vec!["wl-copy", "wl-paste"]);
    assert_eq!(
        config.screenshot_candidate_names(DisplayServer::Wayland),
        vec!["grim", "wayshot", "grimshot", "spectacle", "flameshot"]
    );
    assert_eq!(
        config.screenshot_candidate_names(DisplayServer::X11),
        vec!["scrot", "gnome-screenshot", "import", "xfce4-screenshooter"]
    );
    assert_eq!(config.screenshot_candidate_names(DisplayServer::Unknown).len(), 9);
}

#[test]
fn available_tools_are_preferred_or_candidates() {
    let config = Config::with_home("/h", 0);
    let env = empty_env();
    let clipboard = config.get_available_clipboard_tools(&env);
    let candidates = config.clipboard_candidate_names(DisplayServer::Unknown);
    for tool in &clipboard {
        assert!(candidates.contains(tool));
    }
    let screenshot = config.get_available_screenshot_tools(&env);
    let candidates = config.screenshot_candidate_names(DisplayServer::Unknown);
    for tool in &screenshot {
        assert!(candidates.contains(tool));
    }
}

#[test]
fn screenshot_tool_arguments() {
    let config = Config::with_home("/h", 0);
    assert_eq!(config.get_screenshot_tool_args("grim"), vec!["-"]);
    assert_eq!(config.get_screenshot_tool_args("import"), vec!["-window", "root", "-"]);
    assert_eq!(config.get_screenshot_tool_args("xfce4-screenshooter"), vec!["-f", "-s"]);
    assert!(config.get_screenshot_tool_args("unknown").is_empty());
    assert!(config.get_screenshot_tool_args("").is_empty());
}

#[test]
fn update_records_the_time() {
    let mut config = Config::with_home("/h", 5);
    config.update(99);
    assert_eq!(config.updated_at, 99);
    assert_eq!(config.created_at, 5);
    assert_eq!(config.config_file, "/h/config.json");
}

#[test]
fn recent_screenshots_are_ranked_by_time() {
    let config = Config::with_home("/h", 0);
    let mut dir = entry("/s/dir.png", 900);
    dir.is_file = false;
    let entries = vec![
        entry("/s/clipboard-a.png", 100),
        entry("/s/notes.txt", 500),
        entry("/s/terminal-b.JPG", 300),
        dir,
        entry("/s/c.gif", 300),
        entry("/s/stdin-d.webp", 200),
        entry("/s/noext", 999),
    ];
    assert_eq!(config.recent_screenshot_indices(&entries, 10), vec![2, 4, 5, 0]);
    assert_eq!(config.recent_screenshot_indices(&entries, 2), vec![2, 4]);
    assert!(config.recent_screenshot_indices(&entries, 0).is_empty());

    let shots = config.get_recent_screenshots(&entries, 3, 77);
    assert_eq!(shots.len(), 3);
    assert_eq!(shots[0].filename, "terminal-b.JPG");
    assert_eq!(shots[0].source, "terminal");
    assert_eq!(shots[0].mime_type, "application/octet-stream");
    assert_eq!(shots[1].filename, "c.gif");
    assert_eq!(shots[1].source, "unknown");
    assert_eq!(shots[1].mime_type, "image/gif");
    assert_eq!(shots[2].path, "/s/stdin-d.webp");
    assert_eq!(shots[2].source, "stdin");
    assert_eq!(shots[2].mime_type, "image/webp");
    assert_eq!(shots[2].created_at, 200);
    assert_eq!(shots[2].size, 10);
}

#[test]
fn screenshot_info() {
    let config = Config::with_home("/h", 0);
    let mut e = entry("/s/clipboard-dragdrop.svg", 1);
    e.created = None;
    let shot = config.create_screenshot_info(&e, 42).unwrap();
    assert_eq!(shot.source, "clipboard");
    assert_eq!(shot.mime_type, "image/svg+xml");
    assert_eq!(shot.created_at, 42);
    let jpeg = config.create_screenshot_info(&entry("x.jpeg", 1), 0).unwrap();
    assert_eq!(jpeg.mime_type, "image/jpeg");
    assert_eq!(jpeg.filename, "x.jpeg");
    assert!(matches!(config.create_screenshot_info(&entry("/s/", 1), 0), Err(Error::Format(_))));
}

#[test]
fn old_screenshots_are_selected_for_removal() {
    let config = Config::with_home("/h", 0);
    let day = 86_400_000i64;
    let now = 100 * day;
    let mut dir = entry("/s/old-dir", 0);
    dir.is_file = false;
    let entries = vec![
        entry("/s/a.png", now - 31 * day),
        entry("/s/b.png", now - 30 * day),
        entry("/s/c.txt", now - 30 * day - 1),
        dir,
        entry("/s/d.png", now),
    ];
    assert_eq!(config.cleanup_old_screenshots(&entries, 30, now), vec!["/s/a.png", "/s/c.txt"]);
    assert!(config.cleanup_old_screenshots(&entries, 1000, now).is_empty());
    assert_eq!(config.cleanup_old_screenshots(&entries, 0, now).len(), 3);
    assert!(config.cleanup_old_screenshots(&entries, u32::MAX, i64::MIN).is_empty());
}
