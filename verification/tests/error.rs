use klipdot::error::Error;
use klipdot::DisplayServer;

#[test]
fn test_error_properties() {
    let io_error = Error::Io("file not found".to_string());
    assert!(io_error.is_recoverable());
    assert!(!io_error.is_fatal());
    assert_eq!(io_error.error_code(), "IO");

    let config_error = Error::Config("invalid config".to_string());
    assert!(!config_error.is_recoverable());
    assert!(config_error.is_fatal());
    assert_eq!(config_error.error_code(), "CONFIG");
}

#[test]
fn test_error_from_string() {
    let error = Error::from("test error");
    assert_eq!(error.error_code(), "UNKNOWN");
    assert!(error.message().contains("test error"));
}

#[test]
fn error_from_owned_string() {
    let error = Error::from("owned".to_string());
    assert_eq!(error.message(), "Unknown error: owned");
    assert_eq!(Error::unknown("x").message(), "Unknown error: x");
}

#[test]
fn every_kind_has_its_code_and_heading() {
    let m = || "m".to_string();
    let all = vec![
        (Error::Io(m()), "IO", "IO error: m", true, false),
        (Error::Serialization(m()), "SERIALIZATION", "Serialization error: m", false, false),
        (Error::Image(m()), "IMAGE", "Image processing error: m", false, false),
        (Error::FileWatcher(m()), "FILE_WATCHER", "File watcher error: m", false, false),
        (Error::Config(m()), "CONFIG", "Configuration error: m", false, true),
        (Error::Clipboard(m()), "CLIPBOARD", "Clipboard error: m", true, false),
        (Error::Service(m()), "SERVICE", "Service error: m", false, false),
        (Error::Shell(m()), "SHELL", "Shell integration error: m", false, false),
        (Error::Process(m()), "PROCESS", "Process error: m", true, false),
        (Error::Network(m()), "NETWORK", "Network error: m", true, false),
        (Error::Permission(m()), "PERMISSION", "Permission error: m", false, true),
        (Error::Timeout(m()), "TIMEOUT", "Timeout error: m", true, false),
        (Error::Validation(m()), "VALIDATION", "Validation error: m", false, false),
        (Error::NotFound(m()), "NOT_FOUND", "Not found: m", false, false),
        (Error::AlreadyExists(m()), "ALREADY_EXISTS", "Already exists: m", false, false),
        (Error::InvalidInput(m()), "INVALID_INPUT", "Invalid input: m", false, false),
        (Error::Unsupported(m()), "UNSUPPORTED", "Unsupported operation: m", false, true),
        (Error::Internal(m()), "INTERNAL", "Internal error: m", false, true),
        (Error::Parse(m()), "PARSE", "Parse error: m", false, false),
        (Error::Format(m()), "FORMAT", "Format error: m", false, false),
        (Error::Wayland(m()), "WAYLAND", "Wayland error: m", true, false),
        (Error::DisplayServer(m()), "DISPLAY_SERVER", "Display server error: m", true, false),
        (Error::Compositor(m()), "COMPOSITOR", "Compositor error: m", false, true),
        (Error::Cancelled, "CANCELLED", "Cancelled", true, false),
        (Error::Unknown(m()), "UNKNOWN", "Unknown error: m", false, false),
    ];
    for (error, code, text, recoverable, fatal) in all {
        assert_eq!(error.error_code(), code);
        assert_eq!(error.message(), text);
        assert_eq!(error.is_recoverable(), recoverable, "{}", code);
        assert_eq!(error.is_fatal(), fatal, "{}", code);
    }
}

#[test]
fn wayland_errors() {
    assert!(Error::wayland("a").is_wayland_related());
    assert!(Error::display_server("a").is_wayland_related());
    assert!(Error::compositor("a").is_wayland_related());
    assert!(!Error::Clipboard("a".to_string()).is_wayland_related());
    assert_eq!(Error::wayland("socket gone").message(), "Wayland error: socket gone");
    assert_eq!(Error::compositor("c").error_code(), "COMPOSITOR");
}

#[test]
fn clipboard_error_names_the_display_server() {
    assert_eq!(
        Error::clipboard_with_context("no tool", DisplayServer::Wayland).message(),
        "Clipboard error: no tool (Wayland)"
    );
    assert_eq!(
        Error::clipboard_with_context("no tool", DisplayServer::X11).message(),
        "Clipboard error: no tool (X11)"
    );
    assert_eq!(
        Error::clipboard_with_context("", DisplayServer::Unknown).message(),
        "Clipboard error:  (Unknown)"
    );
}
