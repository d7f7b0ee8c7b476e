use klipdot::format_duration;
use klipdot::format_file_size;
use klipdot::get_available_clipboard_tools;
use klipdot::get_available_screenshot_tools;
use klipdot::is_image_file;
use klipdot::DisplayServer;

fn reference_size(size: u64) -> String {
    let units = ["B", "KB", "MB", "GB", "TB"];
    let mut value = size as f64;
    let mut unit = 0;
    while value >= 1024.0 && unit < units.len() - 1 {
        value /= 1024.0;
        unit += 1;
    }
    format!("{:.1} {}", value, units[unit])
}

#[test]
fn test_is_image_file() {
    assert!(is_image_file("test.png"));
    assert!(is_image_file("test.jpg"));
    assert!(is_image_file("test.PNG"));
    assert!(!is_image_file("test.txt"));
    assert!(!is_image_file("test"));
}

#[test]
fn is_image_file_looks_at_the_last_component_only() {
    assert!(is_image_file("/tmp/some.dir/shot.webp"));
    assert!(!is_image_file("/tmp/some.png/shot"));
    assert!(!is_image_file(".png"));
    assert!(!is_image_file("/home/user/.gif"));
    assert!(is_image_file("a.b.SvG"));
    assert!(!is_image_file("photo.tiff"));
    assert!(!is_image_file(""));
}

#[test]
fn test_format_file_size() {
    assert_eq!(format_file_size(512), "512.0 B");
    assert_eq!(format_file_size(1024), "1.0 KB");
    assert_eq!(format_file_size(1536), "1.5 KB");
    assert_eq!(format_file_size(1024 * 1024), "1.0 MB");
}

#[test]
fn format_file_size_edges() {
    assert_eq!(format_file_size(0), "0.0 B");
    assert_eq!(format_file_size(1023), "1023.0 B");
    assert_eq!(format_file_size(1280), "1.2 KB");
    assert_eq!(format_file_size(1048575), "1024.0 KB");
    assert_eq!(format_file_size(1u64 << 40), "1.0 TB");
    assert_eq!(format_file_size(u64::MAX), "16777216.0 TB");
}

#[test]
fn format_file_size_agrees_with_double_arithmetic() {
    let mut samples: Vec<u64> = vec![0, 1, 9, 10, 99, 1023, 1024, 1025, 1075, 1076, 1126, 1127, 1280, 1331, 1332];
    let mut x: u64 = 0x9E37_79B9_7F4A_7C15;
    for _ in 0..20000 {
        x ^= x << 13;
        x ^= x >> 7;
        x ^= x << 17;
        samples.push(x);
        samples.push(x >> 11);
        samples.push(x >> 24);
        samples.push(x >> 40);
        samples.push(x >> 53);
    }
    for shift in 0..64 {
        let p = 1u64 << shift;
        for delta in 0..4 {
            samples.push(p.wrapping_add(delta));
            samples.push(p.wrapping_sub(delta));
            samples.push((p / 5).wrapping_mul(3).wrapping_add(delta));
        }
    }
    for k in 0..4096u64 {
        samples.push((1u64 << 53) + k);
        samples.push((1u64 << 62) + k * 129);
        samples.push(u64::MAX - k);
        samples.push(1280 * 1024 + k);
    }
    for size in samples {
        assert_eq!(format_file_size(size), reference_size(size), "size {}", size);
    }
}

#[test]
fn test_format_duration() {
    assert_eq!(format_duration(std::time::Duration::from_secs(30).as_secs()), "30s");
    assert_eq!(format_duration(std::time::Duration::from_secs(90).as_secs()), "1m 30s");
    assert_eq!(format_duration(std::time::Duration::from_secs(3665).as_secs()), "1h 1m 5s");
}

#[test]
fn format_duration_edges() {
    assert_eq!(format_duration(0), "0s");
    assert_eq!(format_duration(59), "59s");
    assert_eq!(format_duration(60), "1m 0s");
    assert_eq!(format_duration(3600), "1h 0m 0s");
    assert_eq!(format_duration(u64::MAX), "5124095576030431h 0m 15s");
}

#[test]
fn test_available_tools() {
    for server in [DisplayServer::Wayland, DisplayServer::X11, DisplayServer::Unknown] {
        let clipboard_tools = get_available_clipboard_tools(server);
        let screenshot_tools = get_available_screenshot_tools(server);
        let _clipboard_count = clipboard_tools.len();
        let _screenshot_count = screenshot_tools.len();
    }
}

#[test]
fn available_tools_come_from_the_candidates_in_order() {
    let candidates = ["wl-copy", "wl-paste", "xclip", "xsel"];
    let found = get_available_clipboard_tools(DisplayServer::Unknown);
    let mut next = 0;
    for tool in &found {
        let at = candidates[next..].iter().position(|c| c == tool);
        assert!(at.is_some(), "{} is out of order or unknown", tool);
        next += at.unwrap() + 1;
    }
    let x11 = get_available_clipboard_tools(DisplayServer::X11);
    for tool in &x11 {
        assert!(tool == "xclip" || tool == "xsel");
    }
}
