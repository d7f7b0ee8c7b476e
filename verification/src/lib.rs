//! Finds image data in a terminal workflow (the clipboard, the output of a
//! running command, text under the cursor) and decides how to show it.
//!
//! The library computes. It does not write to the terminal, start
//! processes or read environment variables: callers hand it what they read
//! and carry out what it decides. What it asks of its surroundings itself
//! (whether a path exists, whether a program is installed, where the user's
//! directories are, the time, a random identifier) it asks through a few
//! functions that say so, and its contracts hold whatever the answer.
//!
//! The parts, from the leaves up:
//!
//! - [`signature`] classifies byte buffers by their magic bytes;
//! - [`clipboard`] decodes clipboard content and skips what has not changed;
//! - [`stdout_monitor`] scans lines of output, and the text under the
//!   cursor, for references to images;
//! - [`image_preview`] chooses the terminal graphics protocol once and
//!   plans each preview;
//! - [`image_processor`], [`config`], [`interceptor`], [`service`],
//!   [`installer`] and [`shell_hooks`] hold the rules of what surrounds
//!   these: storage, configuration, process watching, the background
//!   service and the shell integration.

use crate::error::Error;
use crate::paths::has_extension_in;
pub use crate::paths::is_command_available;
use crate::paths::joined;
use crate::paths::path_extension;
use crate::text::decimal;
use crate::text::from_chars;
use crate::text::list_contains;
use crate::text::lower;
use crate::text::push_decimal;
use crate::text::push_str;
use crate::text::slices;
use crate::text::str_eq;
use crate::text::texts;
use crate::text::to_chars;
use crate::text::to_lower;
use vstd::prelude::*;

pub mod base64_codec;
pub mod clipboard;
pub mod config;
pub mod error;
pub mod hex_codec;
pub mod image_preview;
pub mod image_processor;
pub mod installer;
pub mod interceptor;
pub mod paths;
pub mod patterns;
pub mod platform_clipboard;
pub mod service;
pub mod shell_hooks;
pub mod signature;
pub mod sizes;
pub mod stdout_monitor;
pub mod text;
pub mod tools;

verus! {

/// Version of the application.
pub const VERSION: &'static str = "0.1.0";

/// Name of the application's directories.
pub const APP_NAME: &'static str = "klipdot";

/// Name of the screenshot directory.
pub const SCREENSHOT_DIR: &'static str = "screenshots";

/// Name of the configuration file.
pub const CONFIG_FILE: &'static str = "config.json";

/// Name of the service's PID file.
pub const PID_FILE: &'static str = "klipdot.pid";

/// Name of the service's log file.
pub const LOG_FILE: &'static str = "klipdot.log";

/// Name of the shell hooks directory.
pub const HOOKS_DIR: &'static str = "hooks";

/// Name of the directory for temporary files.
pub const TEMP_DIR: &'static str = "temp";

/// Default polling interval in milliseconds.
pub const DEFAULT_POLL_INTERVAL: u64 = 1000;

/// Default age, in days, after which screenshots are cleaned up.
pub const DEFAULT_CLEANUP_DAYS: u32 = 30;

/// Largest image that is processed, in bytes (10 MiB).
pub const MAX_FILE_SIZE: u64 = 10485760;

/// Quality used when compressing images.
pub const IMAGE_QUALITY: u8 = 90;

/// How many recent screenshots are listed at most.
pub const MAX_RECENT_SCREENSHOTS: usize = 10;

/// Interval between service status checks, in milliseconds.
pub const SERVICE_CHECK_INTERVAL: u64 = 5000;

/// The filter by which messages are logged: those of this application, down
/// to debugging messages where `verbose` is set.
pub fn log_filter(verbose: bool) -> (r: &'static str)
    ensures
        r@ == (if verbose {
            "klipdot=debug"@
        } else {
            "klipdot=info"@
        }),
{
    if verbose {
        "klipdot=debug"
    } else {
        "klipdot=info"
    }
}

/// The file extensions taken for images.
pub open spec fn supported_formats() -> Seq<Seq<char>> {
    seq!["png"@, "jpg"@, "jpeg"@, "gif"@, "bmp"@, "webp"@, "svg"@]
}

/// The file extensions taken for images.
pub fn supported_format_names() -> (r: Vec<&'static str>)
    ensures
        slices(r@) == supported_formats(),
{
    let r = vec!["png", "jpg", "jpeg", "gif", "bmp", "webp", "svg"];
    assert(slices(r@) =~= supported_formats());
    r
}

/// Whether a path names an image, judged by its extension alone.
pub fn is_image_file(path: &str) -> (r: bool)
    ensures
        r == has_extension_in(path@, supported_formats()),
{
    let chars = to_chars(path);
    match path_extension(chars.as_slice()) {
        Some(ext) => {
            let lowered = to_lower(ext.as_slice());
            let names = supported_format_names();
            list_contains(names.as_slice(), lowered.as_slice())
        },
        None => false,
    }
}

/// The display server a session runs under.
#[derive(Debug, Clone, Copy, PartialEq, Eq, Structural)]
pub enum DisplayServer {
    X11,
    Wayland,
    Unknown,
}

/// The environment variables that the library's decisions depend on, as the
/// caller read them. A variable that is unset, or not valid text, is `None`.
#[derive(Debug)]
pub struct Environment {
    pub wayland_display: Option<String>,
    pub xdg_session_type: Option<String>,
    pub display: Option<String>,
    pub xdg_current_desktop: Option<String>,
    pub swaysock: Option<String>,
    pub hyprland_instance_signature: Option<String>,
    pub term_program: Option<String>,
    pub term: Option<String>,
    pub shell: Option<String>,
}

/// The view of an optional string.
pub open spec fn opt_text(o: Option<String>) -> Option<Seq<char>> {
    match o {
        Some(s) => Some(s@),
        None => None,
    }
}

/// The display server that an environment points to: Wayland where
/// `WAYLAND_DISPLAY` is set; else what `XDG_SESSION_TYPE` names, in any
/// case; else X11 where `DISPLAY` is set.
pub open spec fn display_server_of(env: Environment) -> DisplayServer {
    if env.wayland_display is Some {
        DisplayServer::Wayland
    } else if env.xdg_session_type is Some && lower(env.xdg_session_type.unwrap()@) == "wayland"@ {
        DisplayServer::Wayland
    } else if env.xdg_session_type is Some && lower(env.xdg_session_type.unwrap()@) == "x11"@ {
        DisplayServer::X11
    } else if env.display is Some {
        DisplayServer::X11
    } else {
        DisplayServer::Unknown
    }
}

/// Detects the display server from the environment.
pub fn detect_display_server(env: &Environment) -> (r: DisplayServer)
    ensures
        r == display_server_of(*env),
{
    if env.wayland_display.is_some() {
        return DisplayServer::Wayland;
    }
    if let Some(session_type) = &env.xdg_session_type {
        let chars = to_chars(session_type.as_str());
        let lowered = from_chars(to_lower(chars.as_slice()).as_slice());
        if str_eq(lowered.as_str(), "wayland") {
            return DisplayServer::Wayland;
        }
        if str_eq(lowered.as_str(), "x11") {
            return DisplayServer::X11;
        }
    }
    if env.display.is_some() {
        return DisplayServer::X11;
    }
    DisplayServer::Unknown
}

/// The compositor that a desktop name points to.
pub open spec fn compositor_of_desktop(desktop: Seq<char>) -> Option<Seq<char>> {
    let d = lower(desktop);
    if crate::text::contains(d, "gnome"@) {
        Some("gnome"@)
    } else if crate::text::contains(d, "kde"@) {
        Some("kde"@)
    } else if crate::text::contains(d, "sway"@) {
        Some("sway"@)
    } else if crate::text::contains(d, "hyprland"@) {
        Some("hyprland"@)
    } else {
        None
    }
}

/// The Wayland compositor that an environment points to: the one that
/// `XDG_CURRENT_DESKTOP` names; else `sway` where `SWAYSOCK` is set; else
/// `hyprland` where `HYPRLAND_INSTANCE_SIGNATURE` is set.
pub open spec fn wayland_compositor_of(env: Environment) -> Option<Seq<char>> {
    if env.xdg_current_desktop is Some && compositor_of_desktop(env.xdg_current_desktop.unwrap()@)
        is Some {
        compositor_of_desktop(env.xdg_current_desktop.unwrap()@)
    } else if env.swaysock is Some {
        Some("sway"@)
    } else if env.hyprland_instance_signature is Some {
        Some("hyprland"@)
    } else {
        None
    }
}

/// Detects the Wayland compositor from the environment.
pub fn detect_wayland_compositor(env: &Environment) -> (r: Option<String>)
    ensures
        opt_text(r) == wayland_compositor_of(*env),
{
    if let Some(desktop) = &env.xdg_current_desktop {
        let chars = to_chars(desktop.as_str());
        let lowered = to_lower(chars.as_slice());
        let gnome = to_chars("gnome");
        let kde = to_chars("kde");
        let sway = to_chars("sway");
        let hyprland = to_chars("hyprland");
        if crate::text::has_substring(lowered.as_slice(), gnome.as_slice()) {
            return Some("gnome".to_string());
        } else if crate::text::has_substring(lowered.as_slice(), kde.as_slice()) {
            return Some("kde".to_string());
        } else if crate::text::has_substring(lowered.as_slice(), sway.as_slice()) {
            return Some("sway".to_string());
        } else if crate::text::has_substring(lowered.as_slice(), hyprland.as_slice()) {
            return Some("hyprland".to_string());
        }
    }
    if env.swaysock.is_some() {
        return Some("sway".to_string());
    }
    if env.hyprland_instance_signature.is_some() {
        return Some("hyprland".to_string());
    }
    None
}

/// The units in which file sizes are shown.
pub open spec fn size_units() -> Seq<Seq<char>> {
    seq!["B"@, "KB"@, "MB"@, "GB"@, "TB"@]
}

/// A file size as text: the size in the largest unit in which it is at
/// least one, with one digit after the point, a space and the unit.
pub open spec fn file_size_text(size: u64) -> Seq<char> {
    let k = sizes::unit_index(sizes::to_double(size as nat), 4);
    sizes::tenths_text(sizes::tenths_in_unit(size as nat, k)) + seq![' '] + size_units()[k as int]
}

/// Formats a file size for display.
pub fn format_file_size(size: u64) -> (r: String)
    ensures
        r@ == file_size_text(size),
{
    let units = vec!["B", "KB", "MB", "GB", "TB"];
    assert(slices(units@) =~= size_units());
    let m = sizes::nearest_double(size);
    let (k, scale) = sizes::unit_of(m, 4);
    let tenths = sizes::rounded_quotient(m * 10, scale);
    let mut out: Vec<char> = Vec::new();
    sizes::push_tenths(&mut out, tenths);
    out.push(' ');
    push_str(&mut out, units[k]);
    assert(slices(units@)[k as int] == units@[k as int]@);
    assert(out@ =~= file_size_text(size));
    from_chars(out.as_slice())
}

/// A number of seconds as text: hours, minutes and seconds, leading zero
/// parts left out.
pub open spec fn duration_text(total_seconds: u64) -> Seq<char> {
    let hours = (total_seconds / 3600) as nat;
    let minutes = ((total_seconds % 3600) / 60) as nat;
    let seconds = (total_seconds % 60) as nat;
    if hours > 0 {
        decimal(hours) + "h "@ + decimal(minutes) + "m "@ + decimal(seconds) + "s"@
    } else if minutes > 0 {
        decimal(minutes) + "m "@ + decimal(seconds) + "s"@
    } else {
        decimal(seconds) + "s"@
    }
}

/// Formats a duration, given in whole seconds, for display.
pub fn format_duration(total_seconds: u64) -> (r: String)
    ensures
        r@ == duration_text(total_seconds),
{
    let hours: u64 = total_seconds / 3600;
    let minutes: u64 = (total_seconds % 3600) / 60;
    let seconds: u64 = total_seconds % 60;
    let mut out: Vec<char> = Vec::new();
    if hours > 0 {
        push_decimal(&mut out, hours as u128);
        push_str(&mut out, "h ");
        push_decimal(&mut out, minutes as u128);
        push_str(&mut out, "m ");
    } else if minutes > 0 {
        push_decimal(&mut out, minutes as u128);
        push_str(&mut out, "m ");
    }
    push_decimal(&mut out, seconds as u128);
    push_str(&mut out, "s");
    assert(out@ =~= duration_text(total_seconds));
    from_chars(out.as_slice())
}

/// The clipboard tools that are installed, for a display server.
pub fn get_available_clipboard_tools(server: DisplayServer) -> (r: Vec<String>)
    ensures
        exists|flags: Seq<bool>|
            flags.len() == tools::clipboard_candidates(server).len() && texts(r@)
                == #[trigger] tools::chosen(tools::clipboard_candidates(server), flags),
{
    let candidates = tools::clipboard_candidate_names(server);
    tools::available_among(candidates.as_slice())
}

/// The screenshot tools that are installed, for a display server.
pub fn get_available_screenshot_tools(server: DisplayServer) -> (r: Vec<String>)
    ensures
        exists|flags: Seq<bool>|
            flags.len() == tools::screenshot_candidates(server).len() && texts(r@)
                == #[trigger] tools::chosen(tools::screenshot_candidates(server), flags),
{
    let candidates = tools::screenshot_candidate_names(server);
    tools::available_among(candidates.as_slice())
}

/// Asks `chrono::Utc::now` for the time and gives it twice over: in
/// milliseconds since 1970, and rendered with the pattern
/// `%Y-%m-%dT%H-%M-%S%.3fZ`. Nothing is promised of the answer: it is the
/// clock's. The call panics where the clock stands before 1970.
#[verifier::external_body]
pub(crate) fn utc_now() -> (r: (i64, String)) {
    let now = chrono::Utc::now();
    (now.timestamp_millis(), now.format("%Y-%m-%dT%H-%M-%S%.3fZ").to_string())
}

/// Asks `uuid::Uuid::new_v4` for a random identifier and renders it. The
/// rendering is the hyphenated form, which is 36 characters long; which
/// characters is left to chance.
#[verifier::external_body]
pub(crate) fn random_uuid() -> (r: String)
    ensures
        r@.len() == 36,
{
    uuid::Uuid::new_v4().to_string()
}

/// The name of a screenshot file: source, time stamp and identifier, joined
/// by `-`, with the extension `.png`.
pub open spec fn screenshot_name(source: Seq<char>, timestamp: Seq<char>, id: Seq<char>) -> Seq<
    char,
> {
    source + "-"@ + timestamp + "-"@ + id + ".png"@
}

/// Builds the name of a screenshot file from its parts.
pub fn screenshot_filename(source: &str, timestamp: &str, id: &str) -> (r: String)
    ensures
        r@ == screenshot_name(source@, timestamp@, id@),
{
    let mut out: Vec<char> = Vec::new();
    push_str(&mut out, source);
    push_str(&mut out, "-");
    push_str(&mut out, timestamp);
    push_str(&mut out, "-");
    push_str(&mut out, id);
    push_str(&mut out, ".png");
    assert(out@ =~= screenshot_name(source@, timestamp@, id@));
    from_chars(out.as_slice())
}

/// Generates a fresh file name for a screenshot from `source`: the current
/// time and the first eight characters of a random identifier go into it.
pub fn generate_screenshot_filename(source: &str) -> (r: String)
    ensures
        exists|timestamp: Seq<char>, id: Seq<char>|
            id.len() == 8 && r@ == #[trigger] screenshot_name(source@, timestamp, id),
{
    let (_, timestamp) = utc_now();
    let uuid = to_chars(random_uuid().as_str());
    let id = from_chars(crate::text::slice_chars(uuid.as_slice(), 0, 8).as_slice());
    screenshot_filename(source, timestamp.as_str(), id.as_str())
}

/// The application directory below `base`, or the configuration error
/// `failure` where no base directory is known.
pub fn app_dir_under(base: Option<String>, name: &str, failure: &str) -> (r: Result<String, Error>)
    ensures
        match r {
            Ok(p) => base is Some && p@ == joined(base.unwrap()@, name@),
            Err(e) => base is None && (e matches Error::Config(m) && m@ == failure@),
        },
{
    match base {
        Some(b) => Ok(crate::paths::join(b.as_str(), name)),
        None => Err(Error::Config(failure.to_string())),
    }
}

/// The path of the application's data directory.
pub fn get_app_dir() -> (r: Result<String, Error>)
    ensures
        match r {
            Ok(p) => exists|base: Seq<char>| p@ == #[trigger] joined(base, APP_NAME@),
            Err(e) => e matches Error::Config(m) && m@ == "Failed to get data directory"@,
        },
{
    app_dir_under(crate::paths::data_dir(), APP_NAME, "Failed to get data directory")
}

/// The path of the application's configuration directory.
pub fn get_config_dir() -> (r: Result<String, Error>)
    ensures
        match r {
            Ok(p) => exists|base: Seq<char>| p@ == #[trigger] joined(base, APP_NAME@),
            Err(e) => e matches Error::Config(m) && m@ == "Failed to get config directory"@,
        },
{
    app_dir_under(crate::paths::config_dir(), APP_NAME, "Failed to get config directory")
}

/// Name of the application's directory in the user's home directory.
pub const HOME_SUBDIR: &'static str = ".klipdot";

/// The path of the application's directory in the user's home directory.
pub fn get_home_dir() -> (r: Result<String, Error>)
    ensures
        match r {
            Ok(p) => exists|base: Seq<char>| p@ == #[trigger] joined(base, HOME_SUBDIR@),
            Err(e) => e matches Error::Config(m) && m@ == "Failed to get home directory"@,
        },
{
    app_dir_under(crate::paths::home_dir(), HOME_SUBDIR, "Failed to get home directory")
}

} // verus!
