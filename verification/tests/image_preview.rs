use klipdot::base64_codec;
use klipdot::config::Config;
use klipdot::error::Error;
use klipdot::image_preview::ascii_needs_fallback;
use klipdot::image_preview::ascii_result;
use klipdot::image_preview::detect_preview_method;
use klipdot::image_preview::dimensions_from_identify;
use klipdot::image_preview::external_command_line;
use klipdot::image_preview::helper_result;
use klipdot::image_preview::img2txt_command_line;
use klipdot::image_preview::iterm2_frame_around;
use klipdot::image_preview::iterm2_sequence;
use klipdot::image_preview::jp2a_command_line;
use klipdot::image_preview::kitty_command_line;
use klipdot::image_preview::needs_sixel_probe;
use klipdot::image_preview::parse_file_dimensions;
use klipdot::image_preview::select_preview_method;
use klipdot::image_preview::sixel_command_line;
use klipdot::image_preview::stdin_temp_name;
use klipdot::image_preview::text_info_lines;
use klipdot::image_preview::AsciiChoice;
use klipdot::image_preview::ImagePreviewManager;
use klipdot::image_preview::PreviewMethod;
use klipdot::image_preview::PreviewPlan;
use klipdot::image_preview::RunOutcome;
use klipdot::Environment;

fn empty_env() -> Environment {
    Environment {
        wayland_display: None,
        xdg_session_type: None,
        display: None,
        xdg_current_desktop: None,
        swaysock: None,
        hyprland_instance_signature: None,
        term_program: None,
        term: None,
        shell: None,
    }
}

fn manager(method: PreviewMethod) -> ImagePreviewManager {
    ImagePreviewManager::new(Config::with_home("/h", 0), method)
}

fn existing_image() -> tempfile::NamedTempFile {
    tempfile::Builder::new().prefix("shot").suffix(".png").tempfile().unwrap()
}

#[test]
fn test_preview_manager_creation() {
    let method = detect_preview_method(&empty_env(), false);
    let manager = ImagePreviewManager::new(Config::default(), method);
    assert!(!matches!(manager.preview_method(), PreviewMethod::Kitty));
}

#[test]
fn test_file_size_formatting() {
    assert_eq!(ImagePreviewManager::format_file_size(500), "500 B");
    assert_eq!(ImagePreviewManager::format_file_size(1500), "1.5 KB");
    assert_eq!(ImagePreviewManager::format_file_size(1500000), "1.4 MB");
}

#[test]
fn preview_file_size_edges() {
    assert_eq!(ImagePreviewManager::format_file_size(0), "0 B");
    assert_eq!(ImagePreviewManager::format_file_size(1023), "1023 B");
    assert_eq!(ImagePreviewManager::format_file_size(1024), "1.0 KB");
    assert_eq!(ImagePreviewManager::format_file_size(1u64 << 30), "1.0 GB");
    assert_eq!(ImagePreviewManager::format_file_size(1u64 << 40), "1024.0 GB");
    assert_eq!(ImagePreviewManager::format_file_size(u64::MAX), "17179869184.0 GB");
}

#[test]
fn test_parse_file_dimensions() {
    let file_output = "test.png: PNG image data, 1920 x 1080, 8-bit/color RGBA";
    let dims = parse_file_dimensions(file_output);
    assert_eq!(dims, Some("1920x1080".to_string()));
}

#[test]
fn file_dimensions_variants() {
    assert_eq!(parse_file_dimensions("640x480"), Some("640x480".to_string()));
    assert_eq!(parse_file_dimensions("a 12 × 7 b 3x4"), Some("12x7".to_string()));
    assert_eq!(parse_file_dimensions("JPEG, 8x, 3 x 2"), Some("3x2".to_string()));
    assert_eq!(parse_file_dimensions("no numbers here"), None);
    assert_eq!(parse_file_dimensions(""), None);
    assert_eq!(dimensions_from_identify("  800x600\n"), Some("800x600".to_string()));
    assert_eq!(dimensions_from_identify(" \n\t"), None);
    assert_eq!(dimensions_from_identify(""), None);
}

#[test]
fn preview_method_priority() {
    let none = [false, false, false, false];
    let mut env = empty_env();
    assert!(matches!(select_preview_method(&env, false, &none, false, false), PreviewMethod::TextOnly));
    assert!(matches!(select_preview_method(&env, false, &none, false, true), PreviewMethod::ASCII));
    assert!(matches!(select_preview_method(&env, false, &none, true, false), PreviewMethod::ASCII));
    match select_preview_method(&env, false, &[false, true, false, true], true, true) {
        PreviewMethod::External(viewer) => assert_eq!(viewer, "catimg"),
        other => panic!("unexpected {:?}", other),
    }
    match select_preview_method(&env, false, &[false, false, false, true], true, true) {
        PreviewMethod::External(viewer) => assert_eq!(viewer, "chafa"),
        other => panic!("unexpected {:?}", other),
    }
    assert!(matches!(
        select_preview_method(&env, true, &[true, true, true, true], true, true),
        PreviewMethod::Sixel
    ));
    assert!(needs_sixel_probe(&env));
    env.term = Some("xterm-kitty".to_string());
    assert!(!needs_sixel_probe(&env));
    assert!(matches!(
        select_preview_method(&env, true, &[true, true, true, true], true, true),
        PreviewMethod::Kitty
    ));
    env.term_program = Some("iTerm.app".to_string());
    assert!(matches!(
        select_preview_method(&env, true, &[true, true, true, true], true, true),
        PreviewMethod::ITerm2
    ));
    env.term_program = Some("iTerm".to_string());
    assert!(matches!(select_preview_method(&env, false, &none, false, false), PreviewMethod::Kitty));
    let unnamed = [false, false, false, false, true];
    assert!(matches!(select_preview_method(&empty_env(), false, &unnamed, false, false), PreviewMethod::TextOnly));
    assert!(matches!(select_preview_method(&empty_env(), false, &[], true, false), PreviewMethod::ASCII));
}

#[test]
fn helper_command_lines() {
    let k = kitty_command_line("/tmp/a.png", Some(40), Some(20));
    assert_eq!(k.program, "kitten");
    assert_eq!(k.args, vec!["icat", "--cols", "40", "--rows", "20", "/tmp/a.png"]);
    assert_eq!(kitty_command_line("a", None, Some(3)).args, vec!["icat", "--rows", "3", "a"]);
    let s = sixel_command_line("a.png", Some(7), None);
    assert_eq!(s.program, "img2sixel");
    assert_eq!(s.args, vec!["-w", "7", "a.png"]);
    let j = jp2a_command_line("a.png", Some(80), Some(24));
    assert_eq!(j.program, "jp2a");
    assert_eq!(j.args, vec!["--colors", "--width", "80", "--height", "24", "a.png"]);
    let t = img2txt_command_line("a.png", None, None);
    assert_eq!(t.program, "img2txt");
    assert_eq!(t.args, vec!["a.png"]);
    assert_eq!(img2txt_command_line("a.png", Some(1), Some(2)).args, vec!["-W", "1", "-H", "2", "a.png"]);
}

#[test]
fn viewer_command_lines() {
    assert_eq!(external_command_line("imgcat", "a.png", Some(9), Some(9)).args, vec!["a.png"]);
    assert_eq!(external_command_line("catimg", "a.png", Some(9), Some(5)).args, vec!["-w", "9", "a.png"]);
    assert_eq!(external_command_line("catimg", "a.png", None, Some(5)).args, vec!["a.png"]);
    assert_eq!(external_command_line("timg", "a.png", Some(9), Some(5)).args, vec!["-g", "9x5", "a.png"]);
    assert_eq!(external_command_line("timg", "a.png", Some(9), None).args, vec!["-g", "9x9", "a.png"]);
    assert_eq!(
        external_command_line("chafa", "a.png", Some(4294967295), None).args,
        vec!["--size", "4294967295x4294967295", "a.png"]
    );
    assert_eq!(external_command_line("chafa", "a.png", None, None).args, vec!["a.png"]);
    let other = external_command_line("viu", "a.png", Some(1), Some(1));
    assert_eq!(other.program, "viu");
    assert_eq!(other.args, vec!["a.png"]);
}

#[test]
fn plan_follows_the_method() {
    let plan = manager(PreviewMethod::ITerm2).preview_plan("a.png", None, None, true, true);
    assert!(matches!(plan, PreviewPlan::Inline));
    match manager(PreviewMethod::Kitty).preview_plan("a.png", Some(2), None, false, false) {
        PreviewPlan::Helper { command, label } => {
            assert_eq!(command.program, "kitten");
            assert_eq!(command.args, vec!["icat", "--cols", "2", "a.png"]);
            assert_eq!(label, "Kitty");
        }
        other => panic!("unexpected {:?}", other),
    }
    match manager(PreviewMethod::Sixel).preview_plan("a.png", None, None, false, false) {
        PreviewPlan::Helper { command, label } => {
            assert_eq!(command.program, "img2sixel");
            assert_eq!(label, "Sixel");
        }
        other => panic!("unexpected {:?}", other),
    }
    match manager(PreviewMethod::External("timg".to_string())).preview_plan("a.png", Some(3), Some(4), false, false) {
        PreviewPlan::Helper { command, label } => {
            assert_eq!(command.program, "timg");
            assert_eq!(command.args, vec!["-g", "3x4", "a.png"]);
            assert_eq!(label, "timg");
        }
        other => panic!("unexpected {:?}", other),
    }
    match manager(PreviewMethod::ASCII).preview_plan("a.png", None, None, false, true) {
        PreviewPlan::Ascii { jp2a, img2txt } => {
            assert!(jp2a.is_none());
            assert_eq!(img2txt.unwrap().program, "img2txt");
        }
        other => panic!("unexpected {:?}", other),
    }
    assert!(matches!(
        manager(PreviewMethod::TextOnly).preview_plan("a.png", None, None, true, true),
        PreviewPlan::TextInfo
    ));
}

#[test]
fn show_preview_needs_the_file() {
    let m = manager(PreviewMethod::Kitty);
    match m.show_preview("/surely/not/there.png", None, None) {
        Err(Error::NotFound(message)) => {
            assert_eq!(message, "Image file not found: \"/surely/not/there.png\"")
        }
        other => panic!("unexpected {:?}", other),
    }
    let file = existing_image();
    let path = file.path().to_str().unwrap().to_string();
    match m.show_preview(&path, Some(5), Some(6)) {
        Ok(PreviewPlan::Helper { command, .. }) => {
            assert_eq!(command.args, vec!["icat", "--cols", "5", "--rows", "6", path.as_str()])
        }
        other => panic!("unexpected {:?}", other),
    }
    assert!(matches!(manager(PreviewMethod::TextOnly).show_preview(&path, None, None), Ok(PreviewPlan::TextInfo)));
}

#[test]
fn helper_failures_become_process_errors() {
    let ok = RunOutcome::Finished { success: true, stderr: String::new() };
    assert!(helper_result("kitten", "Kitty", &ok).is_ok());
    let failed = RunOutcome::Finished { success: false, stderr: "bad image".to_string() };
    match helper_result("kitten", "Kitty", &failed) {
        Err(Error::Process(m)) => assert_eq!(m, "Kitty preview failed: bad image"),
        other => panic!("unexpected {:?}", other),
    }
    let missing = RunOutcome::SpawnFailed("No such file or directory".to_string());
    match helper_result("img2sixel", "Sixel", &missing) {
        Err(Error::Process(m)) => assert_eq!(m, "Failed to run img2sixel: No such file or directory"),
        other => panic!("unexpected {:?}", other),
    }
}

#[test]
fn ascii_attempts() {
    let ok = || Some(RunOutcome::Finished { success: true, stderr: String::new() });
    let bad = || Some(RunOutcome::Finished { success: false, stderr: "x".to_string() });
    let gone = || Some(RunOutcome::SpawnFailed("gone".to_string()));
    assert!(!ascii_needs_fallback(&ok()));
    assert!(ascii_needs_fallback(&bad()));
    assert!(ascii_needs_fallback(&gone()));
    assert!(ascii_needs_fallback(&None));
    assert_eq!(ascii_result(&ok(), &None).unwrap(), AsciiChoice::Jp2a);
    assert_eq!(ascii_result(&ok(), &gone()).unwrap(), AsciiChoice::Jp2a);
    assert_eq!(ascii_result(&bad(), &ok()).unwrap(), AsciiChoice::Img2txt);
    assert_eq!(ascii_result(&None, &ok()).unwrap(), AsciiChoice::Img2txt);
    assert_eq!(ascii_result(&gone(), &ok()).unwrap(), AsciiChoice::Img2txt);
    match ascii_result(&bad(), &gone()) {
        Err(Error::Process(m)) => assert_eq!(m, "Failed to run img2txt: gone"),
        other => panic!("unexpected {:?}", other),
    }
    for (first, second) in [(None, None), (bad(), None), (None, bad()), (gone(), bad())] {
        match ascii_result(&first, &second) {
            Err(Error::Unsupported(m)) => assert_eq!(m, "No ASCII art tools available"),
            other => panic!("unexpected {:?}", other),
        }
    }
}

#[test]
fn iterm2_sequence_embeds_the_file() {
    let data = b"\x89PNG\r\n\x1a\nrest";
    let encoded = base64_codec::encode(data);
    assert_ne!(encoded.as_bytes(), &data[..]);
    assert_eq!(
        iterm2_sequence(data, None, None).unwrap(),
        format!("\x1b]1337;File=inline=1;preserveAspectRatio=1;size=12:{}\x07", encoded)
    );
    assert_eq!(
        iterm2_sequence(data, Some(40), Some(10)).unwrap(),
        format!(
            "\x1b]1337;File=inline=1;preserveAspectRatio=1;width=40px;height=10px;size=12:{}\x07",
            encoded
        )
    );
    assert_eq!(
        iterm2_frame_around("QUJD", 3, Some(1), None),
        "\x1b]1337;File=inline=1;preserveAspectRatio=1;width=1px;size=3:QUJD\x07"
    );
    assert_eq!(
        iterm2_sequence(b"", None, Some(3)).unwrap(),
        "\x1b]1337;File=inline=1;preserveAspectRatio=1;height=3px;size=0:\x07"
    );
}

#[test]
fn text_descriptions() {
    assert_eq!(
        text_info_lines("a.png", 1536, "10x20", "/tmp/a.png"),
        vec!["📸 Image: a.png", "📏 Size: 1.5 KB", "🖼️  Dimensions: 10x20", "📁 Path: /tmp/a.png"]
    );
    assert_eq!(
        text_info_lines("a.png", 5, "", "/tmp/a.png"),
        vec!["📸 Image: a.png", "📏 Size: 5 B", "📁 Path: /tmp/a.png"]
    );
    let m = manager(PreviewMethod::TextOnly);
    assert_eq!(m.show_compact_preview("a.png", 2048, "3x4"), "🖼️ a.png (3x4) - 2.0 KB");
    assert_eq!(m.show_compact_preview("a.png", 7, ""), "🖼️ a.png - 7 B");
}

#[test]
fn preview_commands() {
    assert_eq!(manager(PreviewMethod::ITerm2).preview_command("a b.png", false), "klipdot preview 'a b.png'");
    assert_eq!(manager(PreviewMethod::Kitty).create_preview_command("a.png"), "klipdot preview 'a.png'");
    assert_eq!(manager(PreviewMethod::Sixel).create_preview_command("a.png"), "klipdot preview 'a.png'");
    assert_eq!(
        manager(PreviewMethod::External("chafa".to_string())).create_preview_command("a.png"),
        "chafa 'a.png'"
    );
    assert_eq!(manager(PreviewMethod::ASCII).preview_command("a.png", true), "jp2a --colors 'a.png'");
    assert_eq!(manager(PreviewMethod::ASCII).preview_command("a.png", false), "img2txt 'a.png'");
    assert_eq!(manager(PreviewMethod::TextOnly).create_preview_command("a.png"), "file 'a.png'");
    let ascii = manager(PreviewMethod::ASCII).create_preview_command("a.png");
    assert!(ascii == "jp2a --colors 'a.png'" || ascii == "img2txt 'a.png'");
}

#[test]
fn stdin_temp_names_are_fresh() {
    let a = stdin_temp_name();
    let b = stdin_temp_name();
    assert!(a.starts_with("klipdot_stdin_"));
    assert!(a.ends_with(".png"));
    assert_eq!(a.len(), "klipdot_stdin_".len() + 36 + 4);
    assert_ne!(a, b);
}
