use klipdot::config::Config;
use klipdot::config::FileEntry;
use klipdot::error::Error;
use klipdot::interceptor::keep_waiting;
use klipdot::interceptor::parse_process_list;
use klipdot::interceptor::parse_ps_line;
use klipdot::interceptor::parse_wmic_line;
use klipdot::interceptor::KnownDirs;
use klipdot::interceptor::Process;
use klipdot::interceptor::ScreenshotKind;
use klipdot::interceptor::TerminalInterceptor;
use klipdot::DisplayServer;
use klipdot::Environment;

fn empty_env() -> Environment {
    Environment {
        wayland_display: None,
        xdg_session_type: None,
        display: None,
        xdg_current_desktop: None,
        swaysock: None,
        hyprland_instance_signature: None,
        term_program: None,
        term: None,
        shell: None,
    }
}

fn interceptor() -> TerminalInterceptor {
    TerminalInterceptor::new(Config::default())
}

fn process(pid: u32, name: &str) -> Process {
    Process { pid, name: name.to_string(), command: name.to_string() }
}

fn file(path: &str, modified: i64, created: Option<i64>) -> FileEntry {
    FileEntry { path: path.to_string(), is_file: true, size: 1, modified, created }
}

#[test]
fn test_terminal_interceptor_creation() {
    let interceptor = TerminalInterceptor::new(Config::default());
    assert!(!interceptor.is_running());
    assert_eq!(interceptor.monitor_count(), 0);
}

#[test]
fn test_image_process_detection() {
    let interceptor = interceptor();

    assert!(interceptor.is_image_process("screencapture"));
    assert!(interceptor.is_image_process("screenshot"));
    assert!(interceptor.is_image_process("scrot"));
    assert!(interceptor.is_image_process("convert"));
    assert!(!interceptor.is_image_process("bash"));
    assert!(!interceptor.is_image_process("vim"));
}

#[test]
fn test_screenshot_process_detection() {
    let interceptor = interceptor();
    let env = empty_env();

    assert!(interceptor.is_screenshot_process("screencapture", &env));
    assert!(interceptor.is_screenshot_process("gnome-screenshot", &env));
    assert!(interceptor.is_screenshot_process("flameshot", &env));
    assert!(!interceptor.is_screenshot_process("convert", &env));
    assert!(!interceptor.is_screenshot_process("gimp", &env));
}

#[test]
fn process_names_are_matched_in_any_case_and_position() {
    let interceptor = interceptor();
    assert!(interceptor.is_image_process("GIMP-2.10"));
    assert!(interceptor.is_image_process("/usr/bin/FFmpeg"));
    assert!(!interceptor.is_image_process(""));
    assert!(interceptor.names_screenshot_tool("my-GRIM-wrapper", &[]));
    assert!(interceptor.names_screenshot_tool("maim", &["MAIM".to_string()]));
    assert!(!interceptor.names_screenshot_tool("maim", &[]));
    assert!(interceptor.is_wayland_screenshot_process("Spectacle"));
    assert!(!interceptor.is_wayland_screenshot_process("scrot"));
    assert!(!interceptor.is_wayland_screenshot_process("slurp"));
}

#[test]
fn test_cleanup_old_monitors() {
    let mut interceptor = TerminalInterceptor::new(Config::default());
    let now: i64 = 1_700_000_000_000;

    interceptor.handle_image_process(&process(12345, "old_process"), &[], now - 400_000);
    interceptor.handle_image_process(&process(67890, "recent_process"), &[], now);

    assert_eq!(interceptor.monitor_count(), 2);

    interceptor.cleanup_old_monitors(now);

    assert_eq!(interceptor.monitor_count(), 1);
    assert!(interceptor.is_monitored("recent_process"));
    assert!(!interceptor.is_monitored("old_process"));
}

#[test]
fn monitors_are_kept_by_name() {
    let mut interceptor = interceptor();
    assert_eq!(interceptor.handle_image_process(&process(1, "convert"), &[], 10), None);
    assert_eq!(
        interceptor.handle_image_process(&process(2, "grim"), &[], 20),
        Some(ScreenshotKind::Wayland)
    );
    assert_eq!(
        interceptor.handle_image_process(&process(3, "scrot"), &[], 30),
        Some(ScreenshotKind::Traditional)
    );
    assert_eq!(interceptor.handle_image_process(&process(4, "convert"), &[], 40), None);
    assert_eq!(interceptor.monitor_count(), 3);
    assert_eq!(
        interceptor.handle_screenshot_process(&process(5, "shutter"), &["Shutter".to_string()]),
        Some(ScreenshotKind::Traditional)
    );
    interceptor.cleanup_old_monitors(20 + 300_999);
    assert_eq!(interceptor.monitor_count(), 3);
    interceptor.cleanup_old_monitors(20 + 301_000);
    assert_eq!(interceptor.monitor_count(), 2);
    assert!(!interceptor.is_monitored("grim"));
    interceptor.cleanup_old_monitors(0);
    assert_eq!(interceptor.monitor_count(), 2);
    interceptor.cleanup_old_monitors(i64::MAX);
    assert_eq!(interceptor.monitor_count(), 0);
}

#[test]
fn run_and_stop() {
    let mut config = Config::with_home("/h", 0);
    config.poll_interval = 750;
    let mut interceptor = TerminalInterceptor::new(config);
    assert_eq!(interceptor.run(), Some(750));
    assert!(interceptor.is_running());
    assert!(!interceptor.ends_run(&Error::Process("ps".to_string())));
    assert!(interceptor.ends_run(&Error::Internal("x".to_string())));
    interceptor.stop();
    assert!(!interceptor.is_running());
    let mut config = Config::with_home("/h", 0);
    config.intercept_methods.process_monitor = false;
    let mut off = TerminalInterceptor::new(config);
    assert_eq!(off.run(), None);
    assert!(!off.is_running());
}

#[test]
fn ps_lines() {
    let p = parse_ps_line("  123 scrot scrot -s  /tmp/a.png ").unwrap();
    assert_eq!(p.pid, 123);
    assert_eq!(p.name, "scrot");
    assert_eq!(p.command, "scrot -s /tmp/a.png");
    let p = parse_ps_line("+7 a b").unwrap();
    assert_eq!((p.pid, p.command.as_str()), (7, "b"));
    assert_eq!(parse_ps_line("4294967295 a b").unwrap().pid, u32::MAX);
    assert!(parse_ps_line("4294967296 a b").is_none());
    assert!(parse_ps_line("12 scrot").is_none());
    assert!(parse_ps_line("PID COMMAND ARGS").is_none());
    assert!(parse_ps_line("-1 a b").is_none());
    assert!(parse_ps_line("1.5 a b").is_none());
    assert!(parse_ps_line("").is_none());
}

#[test]
fn wmic_lines() {
    let p = parse_wmic_line("C:\\x.exe /a,x.exe,42").unwrap();
    assert_eq!(p.pid, 42);
    assert_eq!(p.name, "x.exe");
    assert_eq!(p.command, "C:\\x.exe /a");
    assert_eq!(parse_wmic_line(",,9,extra").unwrap().pid, 9);
    assert!(parse_wmic_line("a,b").is_none());
    assert!(parse_wmic_line("a,b, 42").is_none());
    assert!(parse_wmic_line("a,b,").is_none());
    assert!(parse_wmic_line("").is_none());
}

#[test]
fn process_listings() {
    let listing = "  PID COMMAND ARGS\n    1 init /sbin/init\n  bad line here\n   22 grim grim -g 1,2 out.png\n";
    let found = parse_process_list(listing, false);
    assert_eq!(found.len(), 2);
    assert_eq!(found[0].pid, 1);
    assert_eq!(found[1].name, "grim");
    assert_eq!(found[1].command, "grim -g 1,2 out.png");
    assert!(parse_process_list("1 a b", false).is_empty());
    assert!(parse_process_list("", false).is_empty());
    let csv = "Node,CommandLine,Name,ProcessId\r\ncmd /c,cmd.exe,7\r\n";
    let found = parse_process_list(csv, true);
    assert_eq!(found.len(), 1);
    assert_eq!(found[0].name, "cmd.exe");
    let interceptor = interceptor();
    let all = vec![process(1, "grim"), process(2, "scrot"), process(3, "grim")];
    let grims = interceptor.get_processes_by_name(&all, "grim");
    assert_eq!(grims.iter().map(|p| p.pid).collect::<Vec<_>>(), vec![1, 3]);
    assert!(interceptor.get_processes_by_name(&all, "gri").is_empty());
}

#[test]
fn process_checks() {
    let interceptor = interceptor();
    assert_eq!(interceptor.is_process_running(0, 0).unwrap(), true);
    assert_eq!(interceptor.is_process_running(0, 3).unwrap(), true);
    assert_eq!(interceptor.is_process_running(-1, 3).unwrap(), false);
    match interceptor.is_process_running(-1, 1) {
        Err(Error::Process(m)) => assert_eq!(m, "Failed to check process: 1"),
        other => panic!("unexpected {:?}", other),
    }
    match interceptor.is_process_running(-1, -22) {
        Err(Error::Process(m)) => assert_eq!(m, "Failed to check process: -22"),
        other => panic!("unexpected {:?}", other),
    }
    match interceptor.is_process_running(-1, i32::MIN) {
        Err(Error::Process(m)) => assert_eq!(m, "Failed to check process: -2147483648"),
        other => panic!("unexpected {:?}", other),
    }
    assert!(keep_waiting(0, true));
    assert!(keep_waiting(29_999, true));
    assert!(!keep_waiting(30_000, true));
    assert!(!keep_waiting(0, false));
}

#[test]
fn tools_to_watch() {
    let interceptor = interceptor();
    let wayland = interceptor.monitor_display_server_tools(DisplayServer::Wayland);
    assert_eq!(wayland.len(), 5);
    assert!(wayland.iter().all(|(_, source)| source == "wayland-screenshot"));
    assert_eq!(wayland[0].0, "grim");
    let x11 = interceptor.monitor_display_server_tools(DisplayServer::X11);
    assert_eq!(x11.len(), 4);
    assert!(x11.iter().all(|(_, source)| source == "x11-screenshot"));
    let both = interceptor.monitor_display_server_tools(DisplayServer::Unknown);
    assert_eq!(both.len(), 9);
    assert_eq!(both[4], ("flameshot".to_string(), "wayland-screenshot".to_string()));
    assert_eq!(both[5], ("scrot".to_string(), "x11-screenshot".to_string()));
}

#[test]
fn new_images_in_a_directory() {
    let interceptor = interceptor();
    let now = 1_000_000;
    let mut dir = file("/d/dir.png", now, Some(now));
    dir.is_file = false;
    let entries = vec![
        file("/d/a.png", now - 29_999, Some(now - 29_999)),
        file("/d/b.png", now - 30_000, Some(now - 30_000)),
        file("/d/c.txt", now, Some(now)),
        dir,
        file("/d/e.JPG", now + 5, Some(now + 5)),
        file("/d/f.gif", now, None),
        file("/d/g.tiff", now, Some(now)),
    ];
    assert_eq!(
        interceptor.scan_directory_for_new_images(&entries, now),
        vec!["/d/a.png", "/d/dir.png", "/d/e.JPG", "/d/f.gif"]
    );
    assert_eq!(interceptor.scan_directory_for_images(&entries, now), vec!["/d/a.png"]);
    assert_eq!(interceptor.scan_directory_for_images(&entries, now + 999), vec!["/d/e.JPG"]);
    assert_eq!(interceptor.scan_directory_for_images(&entries, now + 5), vec!["/d/e.JPG"]);
    assert_eq!(interceptor.scan_directory_for_images(&entries, now - 1), vec!["/d/a.png", "/d/b.png"]);
}

#[test]
fn directories_to_scan() {
    let interceptor = interceptor();
    let known = KnownDirs {
        desktop: Some("/h/Desktop".to_string()),
        download: None,
        picture: Some("/h/Pictures".to_string()),
        home: Some("/h".to_string()),
        config: Some("/h/.config".to_string()),
        working: "/w".to_string(),
    };
    assert_eq!(interceptor.scan_dirs(&known, false, &Some("gnome".to_string())), vec!["/h/Desktop", "/h/Pictures", "/w"]);
    assert_eq!(
        interceptor.scan_dirs(&known, true, &Some("gnome".to_string())),
        vec!["/h/Desktop", "/h/Pictures", "/w", "/h/Pictures/Screenshots", "/h/.config/user-dirs.dirs"]
    );
    assert_eq!(
        interceptor.scan_dirs(&known, true, &Some("kde".to_string())),
        vec!["/h/Desktop", "/h/Pictures", "/w", "/h/Pictures/Screenshots", "/h/.config/user-dirs.dirs"]
    );
    assert_eq!(
        interceptor.scan_dirs(&known, true, &Some("sway".to_string())),
        vec!["/h/Desktop", "/h/Pictures", "/w", "/h/Pictures", "/h", "/h/.config/user-dirs.dirs"]
    );
    assert_eq!(
        interceptor.scan_dirs(&known, true, &None),
        vec!["/h/Desktop", "/h/Pictures", "/w", "/h/.config/user-dirs.dirs"]
    );
    let bare = KnownDirs { desktop: None, download: None, picture: None, home: None, config: None, working: "/tmp".to_string() };
    assert_eq!(interceptor.scan_dirs(&bare, true, &Some("gnome".to_string())), vec!["/tmp"]);
    assert_eq!(interceptor.scan_dirs(&bare, true, &Some("sway".to_string())), vec!["/tmp"]);
    let now = interceptor.scan_for_new_images(&empty_env(), None);
    assert_eq!(now.last().map(|s| s.as_str()), Some("/tmp"));
    let here = interceptor.scan_for_new_images(&empty_env(), Some("/work"));
    assert!(here.contains(&"/work".to_string()));
}
