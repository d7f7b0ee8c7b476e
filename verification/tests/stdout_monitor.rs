use klipdot::config::Config;
use klipdot::error::Error;
use klipdot::image_preview::ImagePreviewManager;
use klipdot::image_preview::PreviewMethod;
use klipdot::stdout_monitor::candidate_under_cursor;
use klipdot::stdout_monitor::pattern_error;
use klipdot::stdout_monitor::preview_action;
use klipdot::stdout_monitor::select_detections;
use klipdot::stdout_monitor::trim_url;
use klipdot::stdout_monitor::tui_profile;
use klipdot::stdout_monitor::DetectedImage;
use klipdot::stdout_monitor::ImageSource;
use klipdot::stdout_monitor::LiveChange;
use klipdot::stdout_monitor::LivePreviewSystem;
use klipdot::stdout_monitor::PreviewAction;
use klipdot::stdout_monitor::StdoutMonitor;
use klipdot::stdout_monitor::StreamState;
use klipdot::stdout_monitor::TuiPreviewMethod;
use std::io::Write;

fn preview_manager() -> ImagePreviewManager {
    ImagePreviewManager::new(Config::default(), PreviewMethod::TextOnly)
}

fn monitor() -> StdoutMonitor {
    StdoutMonitor::new(Config::default(), preview_manager()).unwrap()
}

fn live() -> LivePreviewSystem {
    LivePreviewSystem::new(Config::default(), preview_manager())
}

fn image_in(dir: &tempfile::TempDir, name: &str) -> (tempfile::NamedTempFile, String) {
    let stem_end = name.rfind('.').unwrap();
    let mut file = tempfile::Builder::new()
        .prefix(&name[..stem_end])
        .suffix(&name[stem_end..])
        .rand_bytes(0)
        .tempfile_in(dir.path())
        .unwrap();
    file.write_all(b"fake image data").unwrap();
    let path = file.path().to_str().unwrap().to_string();
    (file, path)
}

#[test]
fn test_detect_images_in_line() {
    let monitor = monitor();

    let temp_dir = tempfile::tempdir().unwrap();
    let (_file, image_path) = image_in(&temp_dir, "test.png");
    assert!(image_path.ends_with("/test.png"));

    let line = format!("Found image at: {}", image_path);
    let detected = monitor.detect_images_in_line(&line, 1);

    assert_eq!(detected.len(), 1);
    assert_eq!(detected[0].path, image_path);
    assert!(matches!(detected[0].source, ImageSource::FilePath));
}

#[test]
fn detection_needs_the_file_to_exist() {
    let monitor = monitor();
    let temp_dir = tempfile::tempdir().unwrap();
    let (file, image_path) = image_in(&temp_dir, "test.png");
    let line = format!("Found image at: {}", image_path);
    let detected = monitor.detect_images_in_line(&line, 7);
    assert_eq!(detected.len(), 1);
    assert_eq!(detected[0].context, line);
    assert_eq!(detected[0].line_number, 7);
    drop(file);
    assert!(monitor.detect_images_in_line(&line, 8).is_empty());
    assert!(monitor.detect_images_in_line("Found image at: /surely/not/there.png", 1).is_empty());
}

#[test]
fn a_line_may_give_several_detections() {
    let monitor = monitor();
    let temp_dir = tempfile::tempdir().unwrap();
    let (_a, path_a) = image_in(&temp_dir, "a.PNG");
    let (_b, path_b) = image_in(&temp_dir, "b.tiff");
    let (_c, path_c) = image_in(&temp_dir, "c.txt");
    let line = format!("'{}' and \"{}\" but not {} nor {}x", path_b, path_a, path_c, path_a);
    let detected = monitor.detect_images_in_line(&line, 3);
    let paths: Vec<&str> = detected.iter().map(|d| d.path.as_str()).collect();
    assert_eq!(paths, vec![path_b.as_str(), path_a.as_str()]);
    let relative = monitor.detect_images_in_line("see pictures/none.png", 1);
    assert!(relative.is_empty());
}

#[test]
fn urls_are_located_and_never_materialized() {
    let monitor = monitor();
    let line = "see https://example.com/pic.jpg for details";
    assert!(monitor.detect_images_in_line(line, 1).is_empty());
    let report = monitor.scan(line, 1, &None);
    assert!(report.images.is_empty());
    assert_eq!(report.urls, vec!["https://example.com/pic.jpg"]);
    assert!(report.payloads.is_empty());
    assert_eq!(
        monitor.detect_urls("<img src=\"http://a.b/c.PNG?w=1&h=2\"> 'https://x.y/z.webp'"),
        vec!["http://a.b/c.PNG?w=1&h=2", "https://x.y/z.webp"]
    );
    assert_eq!(monitor.detect_urls("https://a.b/c.gif\tand ftp://a.b/c.gif"), vec!["https://a.b/c.gif\t"]);
    assert!(monitor.detect_urls("https://example.com/page.html").is_empty());
    assert_eq!(trim_url("http://a/b.png\"' \r\n"), "http://a/b.png");
    assert_eq!(trim_url("  "), "");
}

#[test]
fn data_uris_are_located_and_never_decoded() {
    let monitor = monitor();
    let report = monitor.scan("icon: data:image/png;base64,iVBORw0KGgo= and data:image/svg+xml;base64,PHN2Zz4=!", 1, &None);
    assert_eq!(report.payloads, vec!["iVBORw0KGgo=", "PHN2Zz4="]);
    assert!(report.images.is_empty());
    assert!(report.urls.is_empty());
    assert!(monitor.scan("data:image/tiff;base64,AAAA", 1, &tui_profile("w3m")).payloads.is_empty());
}

#[test]
fn selection_is_exact() {
    let paths = vec!["/a.png".to_string(), "/b.txt".to_string(), "/c.ICO".to_string(), "/d.svg".to_string()];
    let detected = select_detections(&paths, &[true, true, true, false], "the line", 9);
    assert_eq!(detected.len(), 2);
    assert_eq!(detected[0].path, "/a.png");
    assert_eq!(detected[1].path, "/c.ICO");
    assert!(detected.iter().all(|d| d.source == ImageSource::FilePath && d.context == "the line" && d.line_number == 9));
    assert_eq!(select_detections(&paths, &[true], "l", 1).len(), 1);
    assert!(select_detections(&paths, &[], "l", 1).is_empty());
    assert_eq!(
        pattern_error("Failed to compile URL regex: ", "too big").message(),
        "Configuration error: Failed to compile URL regex: too big"
    );
}

#[test]
fn tui_profiles() {
    let vim = tui_profile("vim").unwrap();
    assert_eq!((vim.name.as_str(), vim.supports_images, vim.preview_method), ("Vim", false, TuiPreviewMethod::External));
    let nvim = tui_profile("nvim").unwrap();
    assert_eq!((nvim.name.as_str(), nvim.supports_images, nvim.preview_method), ("Neovim", true, TuiPreviewMethod::Overlay));
    let w3m = tui_profile("w3m").unwrap();
    assert_eq!((w3m.name.as_str(), w3m.supports_images, w3m.preview_method), ("w3m", true, TuiPreviewMethod::Inline));
    let htop = tui_profile("htop").unwrap();
    assert_eq!((htop.supports_images, htop.preview_method), (false, TuiPreviewMethod::Silent));
    let expected = [
        ("ranger", "Ranger", true, TuiPreviewMethod::SeparatePane),
        ("lf", "LF", true, TuiPreviewMethod::SeparatePane),
        ("nnn", "NNN", true, TuiPreviewMethod::External),
        ("lynx", "Lynx", false, TuiPreviewMethod::External),
        ("tmux", "Tmux", true, TuiPreviewMethod::SeparatePane),
        ("screen", "Screen", false, TuiPreviewMethod::External),
        ("tig", "Tig", false, TuiPreviewMethod::External),
        ("gitui", "GitUI", false, TuiPreviewMethod::External),
        ("btop", "btop", false, TuiPreviewMethod::Silent),
    ];
    for (binary, name, images, method) in expected {
        let p = tui_profile(binary).unwrap();
        assert_eq!((p.name.as_str(), p.supports_images, p.preview_method), (name, images, method));
        assert!(p.escape_sequences.is_empty());
    }
    assert!(tui_profile("Vim").is_none());
    assert!(tui_profile("bash").is_none());
    assert!(tui_profile("").is_none());
    let monitor = monitor();
    assert_eq!(monitor.detect_tui_app("/usr/bin/nvim").unwrap().name, "Neovim");
    assert_eq!(monitor.detect_tui_app("ranger").unwrap().name, "Ranger");
    assert!(monitor.detect_tui_app("/usr/bin/vim/").is_none());
    assert!(monitor.detect_tui_app("vim.tiny").is_none());
}

#[test]
fn monitor_plans() {
    let monitor = monitor();
    match monitor.monitor_command(Vec::new()) {
        Err(Error::InvalidInput(m)) => assert_eq!(m, "No command provided"),
        other => panic!("unexpected {:?}", other),
    }
    let plan = monitor
        .monitor_command(vec!["/usr/bin/lf".to_string(), "-single".to_string(), "/tmp".to_string()])
        .unwrap();
    assert_eq!(plan.program, "/usr/bin/lf");
    assert_eq!(plan.args, vec!["-single", "/tmp"]);
    assert_eq!(plan.tui.unwrap().name, "LF");
    let plan = monitor.monitor_command(vec!["ls".to_string()]).unwrap();
    assert!(plan.args.is_empty());
    assert!(plan.tui.is_none());
    assert_eq!(monitor.create_monitoring_wrapper("make test"), "(make test) 2>&1 | klipdot monitor-output");
}

#[test]
fn preview_actions_by_profile() {
    let detected = DetectedImage {
        path: "/tmp/a.png".to_string(),
        source: ImageSource::FilePath,
        context: String::new(),
        line_number: 1,
    };
    assert!(matches!(preview_action(&detected, &None), PreviewAction::Preview { max_width: 40, max_height: 20 }));
    assert!(matches!(
        preview_action(&detected, &tui_profile("w3m")),
        PreviewAction::Preview { max_width: 60, max_height: 30 }
    ));
    let mut plain = tui_profile("w3m").unwrap();
    plain.supports_images = false;
    assert!(matches!(preview_action(&detected, &Some(plain)), PreviewAction::Compact));
    assert!(matches!(
        preview_action(&detected, &tui_profile("nvim")),
        PreviewAction::Preview { max_width: 80, max_height: 40 }
    ));
    match preview_action(&detected, &tui_profile("ranger")) {
        PreviewAction::Announce(line) => assert_eq!(line, "🖼️  Image detected: /tmp/a.png"),
        other => panic!("unexpected {:?}", other),
    }
    match preview_action(&detected, &tui_profile("vim")) {
        PreviewAction::Announce(line) => assert_eq!(line, "🖼️  Image detected: /tmp/a.png (use external viewer)"),
        other => panic!("unexpected {:?}", other),
    }
    assert!(matches!(preview_action(&detected, &tui_profile("htop")), PreviewAction::LogOnly));
}

#[test]
fn lines_pass_through_unchanged() {
    let monitor = monitor();
    let mut state = StreamState::new();
    let coloured = "\x1b[31mred\x1b[0m /surely/not/there.png \x1b]0;title\x07x\x1b[2;3Hy";
    let out = monitor.process_line(&mut state, coloured, &None);
    assert_eq!(out.echo, format!("{}\n", coloured));
    assert!(out.detected.is_empty());
    assert_eq!(state.line_number(), 1);
    assert_eq!(state.buffer(), format!("{}\n", coloured));
    let out = monitor.process_line(&mut state, coloured, &tui_profile("htop"));
    assert_eq!(out.echo, format!("{}\r\n", coloured));
    assert_eq!(state.line_number(), 2);
    assert_eq!(state.buffer(), format!("{}\nred /surely/not/there.png xy\n", coloured));
    let out = monitor.process_line(&mut state, coloured, &tui_profile("vim"));
    assert_eq!(out.echo, format!("{}\r\n", coloured));
    assert!(state.buffer().ends_with(&format!("{}\n", coloured)));
    assert_eq!(monitor.process_tui_line(coloured, &tui_profile("tmux").unwrap()), "red /surely/not/there.png xy");
    assert_eq!(monitor.process_tui_line(coloured, &tui_profile("nnn").unwrap()), coloured);
}

#[test]
fn detection_sees_through_escape_sequences() {
    let monitor = monitor();
    let temp_dir = tempfile::tempdir().unwrap();
    let (_file, image_path) = image_in(&temp_dir, "shot.jpeg");
    let line = format!("\x1b[1m{}\x1b[0m", image_path);
    let mut state = StreamState::new();
    assert!(monitor.process_line(&mut state, &line, &None).detected.is_empty());
    let out = monitor.process_line(&mut state, &line, &tui_profile("tmux"));
    assert_eq!(out.echo, format!("{}\r\n", line));
    assert_eq!(out.detected.len(), 1);
    assert_eq!(out.detected[0].path, image_path);
    assert_eq!(out.detected[0].context, image_path);
    assert_eq!(out.detected[0].line_number, 2);
    let listed = format!("  {}  ", image_path);
    for app in ["ranger", "vim", "w3m", "htop"] {
        let found = monitor.detect_images_in_tui_context(&listed, 5, &tui_profile(app));
        assert_eq!(found.len(), 1, "{}", app);
    }
    assert_eq!(monitor.detect_file_manager_images(&listed, 1).len(), 1);
    assert_eq!(monitor.detect_editor_images(&listed, 1).len(), 1);
    assert_eq!(monitor.detect_browser_images(&listed, 1).len(), 1);
}

#[test]
fn rolling_buffer_is_bounded() {
    let mut state = StreamState::new();
    let line = "x".repeat(1000);
    for _ in 0..4 {
        state.advance(&line);
    }
    assert_eq!(state.buffer().chars().count(), 4004);
    state.advance(&line);
    let buffer = state.buffer();
    assert_eq!(buffer.chars().count(), 2048);
    assert!(buffer.ends_with(&format!("{}\n", line)));
    assert_eq!(state.line_number(), 5);
    let mut exact = StreamState::new();
    exact.advance(&"y".repeat(4095));
    assert_eq!(exact.buffer().chars().count(), 4096);
    exact.advance("");
    assert_eq!(exact.buffer().chars().count(), 2048);
    assert!(exact.buffer().ends_with("y\n\n"));
}

#[test]
fn test_live_preview_path_extraction() {
    let system = live();

    let temp_dir = tempfile::tempdir().unwrap();
    let (_file, image_path) = image_in(&temp_dir, "test.png");

    let text = format!("vim {}", image_path);
    let cursor_pos = text.len() - 4;

    let detected = system.extract_image_path_at_cursor(&text, cursor_pos);
    assert_eq!(detected, Some(image_path));
}

#[test]
fn live_preview_follows_the_cursor() {
    let mut system = live();
    let temp_dir = tempfile::tempdir().unwrap();
    let (_file, image_path) = image_in(&temp_dir, "test.png");
    let text = format!("vim {}", image_path);
    let inside = text.len() - 4;
    assert!(system.update(&text, inside));
    assert_eq!(system.current_preview(), Some(image_path.clone()));
    assert!(!system.update(&text, inside));
    assert!(!system.update(&text, inside - 1));
    assert!(!system.update(&text, text.len() + 100));
    assert!(system.update(&text, 1));
    assert_eq!(system.current_preview(), None);
    assert!(!system.update(&text, 0));
    assert!(system.update(&text, 4));
}

#[test]
fn live_preview_changes() {
    let mut system = live();
    let temp_dir = tempfile::tempdir().unwrap();
    let (_a, path_a) = image_in(&temp_dir, "a.png");
    let (_b, path_b) = image_in(&temp_dir, "b.gif");
    let text = format!("{} '{}'", path_a, path_b);
    match system.show_live_preview(&text, 0) {
        LiveChange::Show(p) => assert_eq!(p, path_a),
        other => panic!("unexpected {:?}", other),
    }
    assert!(matches!(system.show_live_preview(&text, path_a.len()), LiveChange::Keep));
    match system.show_live_preview(&text, path_a.len() + 2) {
        LiveChange::Show(p) => assert_eq!(p, path_b),
        other => panic!("unexpected {:?}", other),
    }
    assert!(matches!(system.show_live_preview(&text, text.len()), LiveChange::Hide));
    assert!(matches!(system.show_live_preview(&text, text.len()), LiveChange::Keep));
    assert!(matches!(system.decide(&Some(path_a.clone())), LiveChange::Show(_)));
    assert_eq!(system.current_preview(), None);
    system.commit(&LiveChange::Show(path_a.clone()));
    assert!(matches!(system.decide(&Some(path_a.clone())), LiveChange::Keep));
    assert!(matches!(system.decide(&None), LiveChange::Hide));
    system.commit(&LiveChange::Keep);
    assert_eq!(system.current_preview(), Some(path_a));
}

#[test]
fn tokens_under_the_cursor() {
    let text = "open \"/a/b c.png\" ~/x.JPG plain.txt";
    assert_eq!(candidate_under_cursor(text, 6, None), None);
    assert_eq!(candidate_under_cursor(text, 12, None), Some("c.png".to_string()));
    assert_eq!(candidate_under_cursor(text, 16, None), Some("c.png".to_string()));
    assert_eq!(candidate_under_cursor(text, 17, None), None);
    assert_eq!(candidate_under_cursor(text, 18, None), Some("~/x.JPG".to_string()));
    assert_eq!(candidate_under_cursor(text, 20, Some("/home/u")), Some("/home/u/x.JPG".to_string()));
    assert_eq!(candidate_under_cursor(text, 25, Some("/home/u")), Some("/home/u/x.JPG".to_string()));
    assert_eq!(candidate_under_cursor(text, 30, None), None);
    assert_eq!(candidate_under_cursor(text, 1000, None), None);
    assert_eq!(candidate_under_cursor("a.png", 1000, None), Some("a.png".to_string()));
    assert_eq!(candidate_under_cursor("a.png ", 6, None), None);
    assert_eq!(candidate_under_cursor("", 0, None), None);
    assert_eq!(candidate_under_cursor("ü.png é", 3, None), Some("ü.png".to_string()));
}

#[test]
fn floating_preview_texts() {
    let system = live();
    assert_eq!(system.show_floating_preview("/tmp/dir/a.png"), "\x1b[s\x1b[H\x1b[2K🖼️  Live Preview: a.png");
    assert_eq!(system.show_floating_preview("a.png"), "\x1b[s\x1b[H\x1b[2K🖼️  Live Preview: a.png");
    assert_eq!(system.finish_floating_preview(), "\x1b[u");
    assert_eq!(system.hide_floating_preview(), "\x1b[s\x1b[H\x1b[K\x1b[u");
}

#[test]
fn the_manager_handed_in_is_the_one_handed_out() {
    let kitty = ImagePreviewManager::new(Config::default(), PreviewMethod::Kitty);
    let monitor = StdoutMonitor::new(Config::default(), kitty).unwrap();
    assert!(matches!(monitor.preview_manager().preview_method(), PreviewMethod::Kitty));

    let viewer = ImagePreviewManager::new(Config::default(), PreviewMethod::External("viu".to_string()));
    let mut system = LivePreviewSystem::new(Config::default(), viewer);
    system.update("nothing to see here", 3);
    match system.preview_manager().preview_method() {
        PreviewMethod::External(name) => assert_eq!(name, "viu"),
        other => panic!("unexpected method {:?}", other),
    }
    assert!(matches!(live().preview_manager().preview_method(), PreviewMethod::TextOnly));
}
