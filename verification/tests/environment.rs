use klipdot::app_dir_under;
use klipdot::detect_display_server;
use klipdot::error::Error;
use klipdot::detect_wayland_compositor;
use klipdot::generate_screenshot_filename;
use klipdot::get_app_dir;
use klipdot::get_config_dir;
use klipdot::get_home_dir;
use klipdot::is_command_available;
use klipdot::log_filter;
use klipdot::screenshot_filename;
use klipdot::DisplayServer;
use klipdot::Environment;

fn empty_env() -> Environment {
    Environment {
        wayland_display: None,
        xdg_session_type: None,
        display: None,
        xdg_current_desktop: None,
        swaysock: None,
        hyprland_instance_signature: None,
        term_program: None,
        term: None,
        shell: None,
    }
}

#[test]
fn test_generate_screenshot_filename() {
    let filename = generate_screenshot_filename("clipboard");
    assert!(filename.starts_with("clipboard-"));
    assert!(filename.ends_with(".png"));
    assert!(filename.len() > 20);
}

#[test]
fn screenshot_filename_parts() {
    assert_eq!(
        screenshot_filename("stdin", "2024-01-02T03-04-05.678Z", "0123abcd"),
        "stdin-2024-01-02T03-04-05.678Z-0123abcd.png"
    );
    let generated = generate_screenshot_filename("x");
    assert_eq!(generated.len(), "x-".len() + 24 + 1 + 8 + 4);
    let id = &generated[generated.len() - 12..generated.len() - 4];
    assert!(id.chars().all(|c| c.is_ascii_hexdigit() || c == '-'));
    assert_ne!(generate_screenshot_filename("x"), generate_screenshot_filename("x"));
}

#[test]
fn test_display_server_detection() {
    let server = detect_display_server(&empty_env());
    assert!(matches!(server, DisplayServer::X11 | DisplayServer::Wayland | DisplayServer::Unknown));
}

#[test]
fn display_server_by_environment() {
    let mut env = empty_env();
    assert_eq!(detect_display_server(&env), DisplayServer::Unknown);
    env.display = Some(":0".to_string());
    assert_eq!(detect_display_server(&env), DisplayServer::X11);
    env.xdg_session_type = Some("tty".to_string());
    assert_eq!(detect_display_server(&env), DisplayServer::X11);
    env.xdg_session_type = Some("WAYLAND".to_string());
    assert_eq!(detect_display_server(&env), DisplayServer::Wayland);
    env.xdg_session_type = Some("X11".to_string());
    env.display = None;
    assert_eq!(detect_display_server(&env), DisplayServer::X11);
    env.wayland_display = Some("wayland-0".to_string());
    assert_eq!(detect_display_server(&env), DisplayServer::Wayland);
}

#[test]
fn test_wayland_compositor_detection() {
    let compositor = detect_wayland_compositor(&empty_env());
    if let Some(comp) = compositor {
        assert!(!comp.is_empty());
    }
}

#[test]
fn wayland_compositor_by_environment() {
    let mut env = empty_env();
    assert_eq!(detect_wayland_compositor(&env), None);
    env.hyprland_instance_signature = Some("abc".to_string());
    assert_eq!(detect_wayland_compositor(&env).as_deref(), Some("hyprland"));
    env.swaysock = Some("/run/user/1000/sway.sock".to_string());
    assert_eq!(detect_wayland_compositor(&env).as_deref(), Some("sway"));
    env.xdg_current_desktop = Some("XFCE".to_string());
    assert_eq!(detect_wayland_compositor(&env).as_deref(), Some("sway"));
    env.xdg_current_desktop = Some("ubuntu:GNOME".to_string());
    assert_eq!(detect_wayland_compositor(&env).as_deref(), Some("gnome"));
    env.xdg_current_desktop = Some("KDE".to_string());
    assert_eq!(detect_wayland_compositor(&env).as_deref(), Some("kde"));
    env.xdg_current_desktop = Some("Hyprland".to_string());
    assert_eq!(detect_wayland_compositor(&env).as_deref(), Some("hyprland"));
    env.xdg_current_desktop = Some("sway-kde".to_string());
    assert_eq!(detect_wayland_compositor(&env).as_deref(), Some("kde"));
}

#[test]
fn application_directories() {
    if let Ok(dir) = get_home_dir() {
        assert!(dir.ends_with("/.klipdot"));
    }
    if let Ok(dir) = get_app_dir() {
        assert!(dir.ends_with("/klipdot"));
    }
    if let Ok(dir) = get_config_dir() {
        assert!(dir.ends_with("/klipdot"));
    }
}

#[test]
fn application_directory_needs_a_base() {
    assert_eq!(app_dir_under(Some("/data".to_string()), "klipdot", "no").unwrap(), "/data/klipdot");
    match app_dir_under(None, "klipdot", "Failed to get data directory") {
        Err(Error::Config(m)) => assert_eq!(m, "Failed to get data directory"),
        other => panic!("unexpected {:?}", other),
    }
}

#[test]
fn log_filters() {
    assert_eq!(log_filter(true), "klipdot=debug");
    assert_eq!(log_filter(false), "klipdot=info");
}

#[test]
fn command_availability() {
    assert!(!is_command_available("surely-no-such-command-is-installed-here"));
    assert!(is_command_available("sh"));
}
