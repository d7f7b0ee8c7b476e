use klipdot::base64_codec;
use klipdot::error::Error;
use klipdot::platform_clipboard::all_tools_failed;
use klipdot::platform_clipboard::clipboard_read_commands;
use klipdot::platform_clipboard::clipboard_write_command;
use klipdot::platform_clipboard::final_attempt;
use klipdot::platform_clipboard::image_content;
use klipdot::platform_clipboard::no_tools;
use klipdot::platform_clipboard::osascript_digits_of;
use klipdot::platform_clipboard::output_is_binary;
use klipdot::platform_clipboard::parse_osascript_png;
use klipdot::platform_clipboard::raw_image;
use klipdot::platform_clipboard::text_attempt;
use klipdot::platform_clipboard::write_failure;
use klipdot::platform_clipboard::write_result;
use klipdot::platform_clipboard::ToolOutput;
use klipdot::platform_clipboard::WriteStage;

fn output(success: bool, stdout: &[u8]) -> ToolOutput {
    ToolOutput { success, stdout: stdout.to_vec() }
}

const PNG: [u8; 10] = [0x89, 0x50, 0x4E, 0x47, 0x0D, 0x0A, 0x1A, 0x0A, 1, 2];

#[test]
fn commands_by_tool() {
    let wl = clipboard_read_commands("wl-paste").unwrap();
    assert_eq!(wl.len(), 2);
    assert_eq!((wl[0].program.as_str(), &wl[0].args), ("wl-paste", &vec!["--type".to_string(), "text/plain".to_string()]));
    assert_eq!(wl[1].args, vec!["--type", "image/png"]);
    let xclip = clipboard_read_commands("xclip").unwrap();
    assert_eq!(xclip.len(), 1);
    assert_eq!(xclip[0].args, vec!["-selection", "clipboard", "-o"]);
    assert_eq!(clipboard_read_commands("xsel").unwrap()[0].args, vec!["--clipboard", "--output"]);
    match clipboard_read_commands("wl-copy") {
        Err(Error::Clipboard(m)) => assert_eq!(m, "Unsupported clipboard tool: wl-copy"),
        other => panic!("unexpected {:?}", other),
    }
    let copy = clipboard_write_command("wl-copy").unwrap();
    assert_eq!((copy.program.as_str(), &copy.args), ("wl-copy", &vec!["--type".to_string(), "text/plain".to_string()]));
    assert_eq!(clipboard_write_command("xclip").unwrap().args, vec!["-selection", "clipboard"]);
    assert_eq!(clipboard_write_command("xsel").unwrap().args, vec!["--clipboard", "--input"]);
    match clipboard_write_command("pbcopy") {
        Err(Error::Clipboard(m)) => assert_eq!(m, "Unsupported clipboard tool: pbcopy"),
        other => panic!("unexpected {:?}", other),
    }
}

#[test]
fn reading_attempts() {
    assert_eq!(text_attempt(&output(true, b"hello")), Some("hello".to_string()));
    assert_eq!(text_attempt(&output(true, b"")), None);
    assert_eq!(text_attempt(&output(false, b"hello")), None);
    assert_eq!(text_attempt(&output(true, &[0xFF, b'a'])), Some("\u{fffd}a".to_string()));
    assert_eq!(final_attempt("xclip", &output(true, b"hello\n")), Some("hello\n".to_string()));
    assert_eq!(final_attempt("xclip", &output(true, &PNG)).unwrap(), String::from_utf8_lossy(&PNG));
    assert_eq!(final_attempt("wl-paste", &output(true, &PNG)), Some(base64_codec::encode(&PNG)));
    assert_eq!(final_attempt("wl-paste", &output(true, b"plain text\t\r\n")), Some("plain text\t\r\n".to_string()));
    assert_eq!(final_attempt("wl-paste", &output(true, "data:é".as_bytes())), Some("data:é".to_string()));
    assert_eq!(final_attempt("wl-paste", &output(true, "é".as_bytes())), Some(base64_codec::encode("é".as_bytes())));
    assert_eq!(final_attempt("wl-paste", &output(true, b"bell\x07")), Some(base64_codec::encode(b"bell\x07")));
    assert_eq!(final_attempt("wl-paste", &output(false, &PNG)), None);
    assert_eq!(final_attempt("xsel", &output(true, b"")), None);
}

#[test]
fn writing_failures() {
    assert!(write_result("xclip", true).is_ok());
    match write_result("xclip", false) {
        Err(Error::Clipboard(m)) => assert_eq!(m, "xclip failed"),
        other => panic!("unexpected {:?}", other),
    }
    assert_eq!(write_failure("wl-copy", WriteStage::Start, "gone").message(), "Clipboard error: Failed to start wl-copy: gone");
    assert_eq!(write_failure("wl-copy", WriteStage::Write, "pipe").message(), "Clipboard error: Failed to write to wl-copy: pipe");
    assert_eq!(write_failure("xsel", WriteStage::Wait, "x").message(), "Clipboard error: Failed to wait for xsel: x");
    assert_eq!(no_tools().message(), "Clipboard error: No clipboard tools available");
    assert_eq!(
        all_tools_failed().message(),
        "Clipboard error: Failed to set clipboard content with any available tool"
    );
}

#[test]
fn osascript_output() {
    let digits = "«data PNGf89504E47 0D0A1A0A0102»\n";
    assert_eq!(parse_osascript_png(&output(true, digits.as_bytes())), Some(PNG.to_vec()));
    assert_eq!(parse_osascript_png(&output(false, digits.as_bytes())), None);
    assert_eq!(parse_osascript_png(&output(true, b"")), None);
    assert_eq!(parse_osascript_png(&output(true, "«data PNGf8950»".as_bytes())), None);
    assert_eq!(parse_osascript_png(&output(true, "«data PNGf89504E470D0A1A0A010»".as_bytes())), None);
    assert_eq!(parse_osascript_png(&output(true, "«data JPEG89504E470D0A1A0A0102»".as_bytes())), None);
    assert_eq!(parse_osascript_png(&output(true, b"474946383961")), Some(b"GIF89a".to_vec()));
}

#[test]
fn raw_images() {
    assert_eq!(raw_image(&output(true, &PNG), true), Some(PNG.to_vec()));
    assert_eq!(raw_image(&output(true, b"text"), true), None);
    assert_eq!(raw_image(&output(true, b"text"), false), Some(b"text".to_vec()));
    assert_eq!(raw_image(&output(true, b""), false), None);
    assert_eq!(raw_image(&output(false, &PNG), false), None);
    assert_eq!(image_content(&PNG), Some(base64_codec::encode(&PNG)));
    assert_eq!(image_content(&[]), None);
}

#[test]
fn binary_output_is_told_from_text() {
    assert!(output_is_binary("wl-paste", "\u{fffd}PNG"));
    assert!(output_is_binary("wl-paste", "tab\tand\u{b}vertical tab"));
    assert!(!output_is_binary("wl-paste", "tab\tand line\r\n\u{c}"));
    assert!(!output_is_binary("wl-paste", "data:\u{fffd}"));
    assert!(output_is_binary("wl-paste", "Data:\u{fffd}"));
    assert!(!output_is_binary("xclip", "\u{fffd}PNG"));
    assert!(!output_is_binary("wl-paste", ""));
    assert_eq!(osascript_digits_of("  «data PNGf8950 4E47»  "), "89504E47");
    assert_eq!(osascript_digits_of("«data PNGf»"), "");
    assert_eq!(osascript_digits_of("a » b\tc"), "ab\tc");
}
