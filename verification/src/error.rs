//! The error type shared by every component.

use crate::DisplayServer;
use crate::text::from_chars;
use crate::text::push_str;
use vstd::prelude::*;

verus! {

/// What went wrong, by kind. Every kind but `Cancelled` carries a message.
///
/// Failures of the operating system, of JSON handling, of the image decoder
/// and of the file watcher arrive here as their rendered message.
#[derive(Debug)]
pub enum Error {
    Io(String),
    Serialization(String),
    Image(String),
    FileWatcher(String),
    Config(String),
    Clipboard(String),
    Service(String),
    Shell(String),
    Process(String),
    Network(String),
    Permission(String),
    Timeout(String),
    Validation(String),
    NotFound(String),
    AlreadyExists(String),
    InvalidInput(String),
    Unsupported(String),
    Internal(String),
    Parse(String),
    Format(String),
    Wayland(String),
    DisplayServer(String),
    Compositor(String),
    Cancelled,
    Unknown(String),
}

impl Error {
    /// The message an error carries; `Cancelled` carries none.
    pub open spec fn detail(self) -> Seq<char> {
        match self {
            Error::Io(m) => m@,
            Error::Serialization(m) => m@,
            Error::Image(m) => m@,
            Error::FileWatcher(m) => m@,
            Error::Config(m) => m@,
            Error::Clipboard(m) => m@,
            Error::Service(m) => m@,
            Error::Shell(m) => m@,
            Error::Process(m) => m@,
            Error::Network(m) => m@,
            Error::Permission(m) => m@,
            Error::Timeout(m) => m@,
            Error::Validation(m) => m@,
            Error::NotFound(m) => m@,
            Error::AlreadyExists(m) => m@,
            Error::InvalidInput(m) => m@,
            Error::Unsupported(m) => m@,
            Error::Internal(m) => m@,
            Error::Parse(m) => m@,
            Error::Format(m) => m@,
            Error::Wayland(m) => m@,
            Error::DisplayServer(m) => m@,
            Error::Compositor(m) => m@,
            Error::Cancelled => Seq::empty(),
            Error::Unknown(m) => m@,
        }
    }

    /// The words that introduce the message when an error is rendered.
    pub open spec fn heading(self) -> Seq<char> {
        match self {
            Error::Io(_) => "IO error: "@,
            Error::Serialization(_) => "Serialization error: "@,
            Error::Image(_) => "Image processing error: "@,
            Error::FileWatcher(_) => "File watcher error: "@,
            Error::Config(_) => "Configuration error: "@,
            Error::Clipboard(_) => "Clipboard error: "@,
            Error::Service(_) => "Service error: "@,
            Error::Shell(_) => "Shell integration error: "@,
            Error::Process(_) => "Process error: "@,
            Error::Network(_) => "Network error: "@,
            Error::Permission(_) => "Permission error: "@,
            Error::Timeout(_) => "Timeout error: "@,
            Error::Validation(_) => "Validation error: "@,
            Error::NotFound(_) => "Not found: "@,
            Error::AlreadyExists(_) => "Already exists: "@,
            Error::InvalidInput(_) => "Invalid input: "@,
            Error::Unsupported(_) => "Unsupported operation: "@,
            Error::Internal(_) => "Internal error: "@,
            Error::Parse(_) => "Parse error: "@,
            Error::Format(_) => "Format error: "@,
            Error::Wayland(_) => "Wayland error: "@,
            Error::DisplayServer(_) => "Display server error: "@,
            Error::Compositor(_) => "Compositor error: "@,
            Error::Cancelled => "Cancelled"@,
            Error::Unknown(_) => "Unknown error: "@,
        }
    }

    /// Whether the loop that met this error may carry on after a pause.
    pub open spec fn recoverable(self) -> bool {
        match self {
            Error::Io(_) => true,
            Error::Clipboard(_) => true,
            Error::Network(_) => true,
            Error::Timeout(_) => true,
            Error::Process(_) => true,
            Error::Wayland(_) => true,
            Error::DisplayServer(_) => true,
            Error::Cancelled => true,
            _ => false,
        }
    }

    /// Whether this error ends the program.
    pub open spec fn fatal(self) -> bool {
        match self {
            Error::Config(_) => true,
            Error::Permission(_) => true,
            Error::Unsupported(_) => true,
            Error::Internal(_) => true,
            Error::Compositor(_) => true,
            _ => false,
        }
    }

    /// The short upper-case code of each kind.
    pub open spec fn code(self) -> Seq<char> {
        match self {
            Error::Io(_) => "IO"@,
            Error::Serialization(_) => "SERIALIZATION"@,
            Error::Image(_) => "IMAGE"@,
            Error::FileWatcher(_) => "FILE_WATCHER"@,
            Error::Config(_) => "CONFIG"@,
            Error::Clipboard(_) => "CLIPBOARD"@,
            Error::Service(_) => "SERVICE"@,
            Error::Shell(_) => "SHELL"@,
            Error::Process(_) => "PROCESS"@,
            Error::Network(_) => "NETWORK"@,
            Error::Permission(_) => "PERMISSION"@,
            Error::Timeout(_) => "TIMEOUT"@,
            Error::Validation(_) => "VALIDATION"@,
            Error::NotFound(_) => "NOT_FOUND"@,
            Error::AlreadyExists(_) => "ALREADY_EXISTS"@,
            Error::InvalidInput(_) => "INVALID_INPUT"@,
            Error::Unsupported(_) => "UNSUPPORTED"@,
            Error::Internal(_) => "INTERNAL"@,
            Error::Parse(_) => "PARSE"@,
            Error::Format(_) => "FORMAT"@,
            Error::Wayland(_) => "WAYLAND"@,
            Error::DisplayServer(_) => "DISPLAY_SERVER"@,
            Error::Compositor(_) => "COMPOSITOR"@,
            Error::Cancelled => "CANCELLED"@,
            Error::Unknown(_) => "UNKNOWN"@,
        }
    }

/// Whether the loop that met this error may carry on after a pause.
    pub fn is_recoverable(&self) -> (r: bool)
        ensures
            r == self.recoverable(),
    {
        match self {
            Error::Io(_) => true,
            Error::Clipboard(_) => true,
            Error::Network(_) => true,
            Error::Timeout(_) => true,
            Error::Process(_) => true,
            Error::Wayland(_) => true,
            Error::DisplayServer(_) => true,
            Error::Cancelled => true,
            _ => false,
        }
    }

/// Whether this error ends the program.
    pub fn is_fatal(&self) -> (r: bool)
        ensures
            r == self.fatal(),
    {
        match self {
            Error::Config(_) => true,
            Error::Permission(_) => true,
            Error::Unsupported(_) => true,
            Error::Internal(_) => true,
            Error::Compositor(_) => true,
            _ => false,
        }
    }

/// The short upper-case code of the error's kind.
    pub fn error_code(&self) -> (r: &'static str)
        ensures
            r@ == self.code(),
    {
        match self {
            Error::Io(_) => "IO",
            Error::Serialization(_) => "SERIALIZATION",
            Error::Image(_) => "IMAGE",
            Error::FileWatcher(_) => "FILE_WATCHER",
            Error::Config(_) => "CONFIG",
            Error::Clipboard(_) => "CLIPBOARD",
            Error::Service(_) => "SERVICE",
            Error::Shell(_) => "SHELL",
            Error::Process(_) => "PROCESS",
            Error::Network(_) => "NETWORK",
            Error::Permission(_) => "PERMISSION",
            Error::Timeout(_) => "TIMEOUT",
            Error::Validation(_) => "VALIDATION",
            Error::NotFound(_) => "NOT_FOUND",
            Error::AlreadyExists(_) => "ALREADY_EXISTS",
            Error::InvalidInput(_) => "INVALID_INPUT",
            Error::Unsupported(_) => "UNSUPPORTED",
            Error::Internal(_) => "INTERNAL",
            Error::Parse(_) => "PARSE",
            Error::Format(_) => "FORMAT",
            Error::Wayland(_) => "WAYLAND",
            Error::DisplayServer(_) => "DISPLAY_SERVER",
            Error::Compositor(_) => "COMPOSITOR",
            Error::Cancelled => "CANCELLED",
            Error::Unknown(_) => "UNKNOWN",
        }
    }

    /// The rendered error: the heading of its kind, then its message.
    pub fn message(&self) -> (r: String)
        ensures
            r@ == self.heading() + self.detail(),
    {
        let mut out: Vec<char> = Vec::new();
        match self {
            Error::Io(m) => {
                push_str(&mut out, "IO error: ");
                push_str(&mut out, m.as_str());
            },
            Error::Serialization(m) => {
                push_str(&mut out, "Serialization error: ");
                push_str(&mut out, m.as_str());
            },
            Error::Image(m) => {
                push_str(&mut out, "Image processing error: ");
                push_str(&mut out, m.as_str());
            },
            Error::FileWatcher(m) => {
                push_str(&mut out, "File watcher error: ");
                push_str(&mut out, m.as_str());
            },
            Error::Config(m) => {
                push_str(&mut out, "Configuration error: ");
                push_str(&mut out, m.as_str());
            },
            Error::Clipboard(m) => {
                push_str(&mut out, "Clipboard error: ");
                push_str(&mut out, m.as_str());
            },
            Error::Service(m) => {
                push_str(&mut out, "Service error: ");
                push_str(&mut out, m.as_str());
            },
            Error::Shell(m) => {
                push_str(&mut out, "Shell integration error: ");
                push_str(&mut out, m.as_str());
            },
            Error::Process(m) => {
                push_str(&mut out, "Process error: ");
                push_str(&mut out, m.as_str());
            },
            Error::Network(m) => {
                push_str(&mut out, "Network error: ");
                push_str(&mut out, m.as_str());
            },
            Error::Permission(m) => {
                push_str(&mut out, "Permission error: ");
                push_str(&mut out, m.as_str());
            },
            Error::Timeout(m) => {
                push_str(&mut out, "Timeout error: ");
                push_str(&mut out, m.as_str());
            },
            Error::Validation(m) => {
                push_str(&mut out, "Validation error: ");
                push_str(&mut out, m.as_str());
            },
            Error::NotFound(m) => {
                push_str(&mut out, "Not found: ");
                push_str(&mut out, m.as_str());
            },
            Error::AlreadyExists(m) => {
                push_str(&mut out, "Already exists: ");
                push_str(&mut out, m.as_str());
            },
            Error::InvalidInput(m) => {
                push_str(&mut out, "Invalid input: ");
                push_str(&mut out, m.as_str());
            },
            Error::Unsupported(m) => {
                push_str(&mut out, "Unsupported operation: ");
                push_str(&mut out, m.as_str());
            },
            Error::Internal(m) => {
                push_str(&mut out, "Internal error: ");
                push_str(&mut out, m.as_str());
            },
            Error::Parse(m) => {
                push_str(&mut out, "Parse error: ");
                push_str(&mut out, m.as_str());
            },
            Error::Format(m) => {
                push_str(&mut out, "Format error: ");
                push_str(&mut out, m.as_str());
            },
            Error::Wayland(m) => {
                push_str(&mut out, "Wayland error: ");
                push_str(&mut out, m.as_str());
            },
            Error::DisplayServer(m) => {
                push_str(&mut out, "Display server error: ");
                push_str(&mut out, m.as_str());
            },
            Error::Compositor(m) => {
                push_str(&mut out, "Compositor error: ");
                push_str(&mut out, m.as_str());
            },
            Error::Cancelled => {
                push_str(&mut out, "Cancelled");
            },
            Error::Unknown(m) => {
                push_str(&mut out, "Unknown error: ");
                push_str(&mut out, m.as_str());
            },
        }
        assert(out@ =~= self.heading() + self.detail());
        from_chars(out.as_slice())
    }

    /// A Wayland error with the given message.
    pub fn wayland(msg: &str) -> (e: Error)
        ensures
            e matches Error::Wayland(m) && m@ == msg@,
    {
        Error::Wayland(msg.to_string())
    }

    /// A display server error with the given message.
    pub fn display_server(msg: &str) -> (e: Error)
        ensures
            e matches Error::DisplayServer(m) && m@ == msg@,
    {
        Error::DisplayServer(msg.to_string())
    }

    /// A compositor error with the given message.
    pub fn compositor(msg: &str) -> (e: Error)
        ensures
            e matches Error::Compositor(m) && m@ == msg@,
    {
        Error::Compositor(msg.to_string())
    }

    /// The name of a display server as it appears in messages.
    pub open spec fn server_name(server: DisplayServer) -> Seq<char> {
        match server {
            DisplayServer::Wayland => "Wayland"@,
            DisplayServer::X11 => "X11"@,
            DisplayServer::Unknown => "Unknown"@,
        }
    }

    /// A clipboard error whose message names the display server in
    /// parentheses after `msg`.
    pub fn clipboard_with_context(msg: &str, display_server: DisplayServer) -> (e: Error)
        ensures
            e matches Error::Clipboard(m) && m@ == msg@ + " ("@ + Self::server_name(display_server)
                + ")"@,
    {
        let mut out: Vec<char> = Vec::new();
        push_str(&mut out, msg);
        push_str(&mut out, " (");
        match display_server {
            DisplayServer::Wayland => push_str(&mut out, "Wayland"),
            DisplayServer::X11 => push_str(&mut out, "X11"),
            DisplayServer::Unknown => push_str(&mut out, "Unknown"),
        }
        push_str(&mut out, ")");
        assert(out@ =~= msg@ + " ("@ + Self::server_name(display_server) + ")"@);
        Error::Clipboard(from_chars(out.as_slice()))
    }

    /// Whether the error concerns Wayland, the display server or the compositor.
    pub fn is_wayland_related(&self) -> (r: bool)
        ensures
            r == (self is Wayland || self is DisplayServer || self is Compositor),
    {
        match self {
            Error::Wayland(_) => true,
            Error::DisplayServer(_) => true,
            Error::Compositor(_) => true,
            _ => false,
        }
    }

    /// An error of unknown kind with the given message.
    pub fn unknown(msg: &str) -> (e: Error)
        ensures
            e matches Error::Unknown(m) && m@ == msg@,
    {
        Error::Unknown(msg.to_string())
    }
}

impl From<&str> for Error {
    /// An error of unknown kind with the given message.
    fn from(err: &str) -> (e: Error) {
        Error::Unknown(err.to_string())
    }
}

impl vstd::std_specs::convert::FromSpecImpl<&str> for Error {
    /// Nothing is claimed of this conversion: [`Error::unknown`] does the
    /// same and says what it gives.
    open spec fn obeys_from_spec() -> bool {
        false
    }

    open spec fn from_spec(err: &str) -> Error {
        Error::Unknown(choose|s: String| s@ == err@)
    }
}

impl From<String> for Error {
    /// An error of unknown kind with the given message.
    fn from(err: String) -> (e: Error) {
        Error::Unknown(err)
    }
}

impl vstd::std_specs::convert::FromSpecImpl<String> for Error {
    open spec fn obeys_from_spec() -> bool {
        true
    }

    open spec fn from_spec(err: String) -> Error {
        Error::Unknown(err)
    }
}

} // verus!
