//! The configuration, its defaults and the rules it must meet.

use crate::DisplayServer;
use crate::Environment;
use crate::error::Error;
use crate::paths::has_extension_in;
use crate::paths::joined;
use crate::text::chars_eq;
use crate::text::from_chars;
use crate::text::lower;
use crate::text::slices;
use crate::text::str_eq;
use crate::text::strings_contain;
use crate::text::texts;
use crate::text::to_chars;
use crate::text::to_lower;
use crate::text::to_strings;
use crate::tools;
use vstd::prelude::*;

verus! {

/// Which sources of images are watched.
#[derive(Debug, Clone, Copy, PartialEq, Eq, Structural)]
pub struct InterceptMethods {
    pub clipboard: bool,
    pub terminal: bool,
    pub drag_drop: bool,
    pub stdin: bool,
    pub file_watch: bool,
    pub process_monitor: bool,
}

/// How the shell is hooked.
#[derive(Debug, Clone)]
pub struct ShellIntegration {
    pub enabled: bool,
    pub shells: Vec<String>,
    pub hook_commands: Vec<String>,
    pub aliases: Vec<String>,
}

/// The clipboard tools to use under each display server.
#[derive(Debug, Clone)]
pub struct ClipboardToolsConfig {
    pub wayland_tools: Vec<String>,
    pub x11_tools: Vec<String>,
    pub preferred_tool: Option<String>,
}

/// The arguments with which a screenshot tool is started.
#[derive(Debug, Clone)]
pub struct ToolArgs {
    pub tool: String,
    pub args: Vec<String>,
}

/// The screenshot tools to use under each display server.
#[derive(Debug, Clone)]
pub struct ScreenshotToolsConfig {
    pub wayland_tools: Vec<String>,
    pub x11_tools: Vec<String>,
    pub preferred_tool: Option<String>,
    /// Arguments by tool. Where a tool is listed twice, the first entry counts.
    pub default_args: Vec<ToolArgs>,
}

/// What is known or preferred about the display server.
#[derive(Debug, Clone)]
pub struct DisplayServerConfig {
    pub auto_detect: bool,
    /// `wayland`, `x11`, or `None` to detect.
    pub preferred_server: Option<String>,
    pub wayland_compositor: Option<String>,
    pub clipboard_tools: ClipboardToolsConfig,
    pub screenshot_tools: ScreenshotToolsConfig,
    pub fallback_enabled: bool,
}

/// The configuration. Times are in milliseconds since 1970.
#[derive(Debug, Clone)]
pub struct Config {
    pub enabled: bool,
    pub auto_start: bool,
    pub screenshot_dir: String,
    pub config_file: String,
    pub poll_interval: u64,
    pub image_formats: Vec<String>,
    pub max_file_size: u64,
    pub compression_quality: u8,
    pub cleanup_days: u32,
    pub enable_logging: bool,
    pub log_level: String,
    pub intercept_methods: InterceptMethods,
    pub shell_integration: ShellIntegration,
    pub display_server: DisplayServerConfig,
    pub created_at: i64,
    pub updated_at: i64,
}

/// How much is logged.
#[derive(Debug, Clone, Copy, PartialEq, Eq, Structural)]
pub enum LogLevel {
    Error,
    Warn,
    Info,
    Debug,
    Trace,
}

impl Default for InterceptMethods {
    /// Every source is watched.
    fn default() -> (r: Self)
        ensures
            r == (InterceptMethods {
                clipboard: true,
                terminal: true,
                drag_drop: true,
                stdin: true,
                file_watch: true,
                process_monitor: true,
            }),
    {
        InterceptMethods {
            clipboard: true,
            terminal: true,
            drag_drop: true,
            stdin: true,
            file_watch: true,
            process_monitor: true,
        }
    }
}

impl ShellIntegration {
    /// Whether this is the default shell integration.
    pub open spec fn is_default(self) -> bool {
        &&& self.enabled
        &&& texts(self.shells@) == seq!["bash"@, "zsh"@]
        &&& texts(self.hook_commands@) == seq!["cp"@, "mv"@, "scp"@, "rsync"@]
        &&& texts(self.aliases@) == seq!["cp"@, "mv"@, "scp"@]
    }
}

impl Default for ShellIntegration {
    fn default() -> (r: Self)
        ensures
            r.is_default(),
    {
        let shells = vec!["bash", "zsh"];
        let hook_commands = vec!["cp", "mv", "scp", "rsync"];
        let aliases = vec!["cp", "mv", "scp"];
        assert(slices(shells@) =~= seq!["bash"@, "zsh"@]);
        assert(slices(hook_commands@) =~= seq!["cp"@, "mv"@, "scp"@, "rsync"@]);
        assert(slices(aliases@) =~= seq!["cp"@, "mv"@, "scp"@]);
        ShellIntegration {
            enabled: true,
            shells: to_strings(shells.as_slice()),
            hook_commands: to_strings(hook_commands.as_slice()),
            aliases: to_strings(aliases.as_slice()),
        }
    }
}

impl ClipboardToolsConfig {
    /// Whether these are the default clipboard tools.
    pub open spec fn is_default(self) -> bool {
        &&& texts(self.wayland_tools@) == tools::wayland_clipboard_tools()
        &&& texts(self.x11_tools@) == tools::x11_clipboard_tools()
        &&& self.preferred_tool is Some
        &&& self.preferred_tool.unwrap()@ == "wl-copy"@
    }
}

impl Default for ClipboardToolsConfig {
    fn default() -> (r: Self)
        ensures
            r.is_default(),
    {
        ClipboardToolsConfig {
            wayland_tools: tools::wayland_clipboard_tool_names(),
            x11_tools: tools::x11_clipboard_tool_names(),
            preferred_tool: Some("wl-copy".to_string()),
        }
    }
}

/// The view of one tool's arguments.
pub open spec fn tool_args_view(entry: ToolArgs) -> (Seq<char>, Seq<Seq<char>>) {
    (entry.tool@, texts(entry.args@))
}

/// The views of a list of tools' arguments.
pub open spec fn args_table(entries: Seq<ToolArgs>) -> Seq<(Seq<char>, Seq<Seq<char>>)> {
    Seq::new(entries.len(), |i: int| tool_args_view(entries[i]))
}

/// The default arguments of the known screenshot tools.
pub open spec fn default_args_table() -> Seq<(Seq<char>, Seq<Seq<char>>)> {
    seq![
        ("grim"@, seq!["-"@]),
        ("wayshot"@, seq!["--stdout"@]),
        ("grimshot"@, seq!["copy"@, "screen"@]),
        ("spectacle"@, seq!["-b"@, "-n"@]),
        ("flameshot"@, seq!["gui"@]),
        ("scrot"@, seq!["-"@]),
        ("gnome-screenshot"@, seq!["-f"@, "-"@]),
        ("import"@, seq!["-window"@, "root"@, "-"@]),
        ("xfce4-screenshooter"@, seq!["-f"@, "-s"@]),
    ]
}

/// Whether no tool has two entries in a table of arguments.
pub open spec fn tools_distinct(table: Seq<(Seq<char>, Seq<Seq<char>>)>) -> bool {
    forall|i: int, j: int|
        0 <= i < j < table.len() ==> (#[trigger] table[i]).0 != (#[trigger] table[j]).0
}

/// In the default table of arguments no tool has two entries.
pub proof fn lemma_default_args_are_distinct()
    ensures
        tools_distinct(default_args_table()),
{
    reveal_strlit("grim");
    reveal_strlit("wayshot");
    reveal_strlit("grimshot");
    reveal_strlit("spectacle");
    reveal_strlit("flameshot");
    reveal_strlit("scrot");
    reveal_strlit("gnome-screenshot");
    reveal_strlit("import");
    reveal_strlit("xfce4-screenshooter");
    let t = default_args_table();
    // The names differ in length, but for two pairs, which differ in their
    // first character.
    assert(t[0].0.len() == 4 && t[1].0.len() == 7 && t[2].0.len() == 8 && t[3].0.len() == 9
        && t[4].0.len() == 9 && t[5].0.len() == 5 && t[6].0.len() == 16 && t[7].0.len() == 6
        && t[8].0.len() == 19);
    assert(t[3].0[0] == 's' && t[4].0[0] == 'f');
}

/// One tool's arguments.
pub fn tool_args(tool: &str, args: Vec<&str>) -> (r: ToolArgs)
    ensures
        tool_args_view(r) == (tool@, slices(args@)),
{
    ToolArgs { tool: tool.to_string(), args: to_strings(args.as_slice()) }
}

impl ScreenshotToolsConfig {
    /// Whether the table of arguments is well formed: no tool has two
    /// entries. A table that is not still works: the first entry counts.
    pub open spec fn well_formed(self) -> bool {
        tools_distinct(args_table(self.default_args@))
    }

    /// Whether these are the default screenshot tools.
    pub open spec fn is_default(self) -> bool {
        &&& texts(self.wayland_tools@) == tools::wayland_screenshot_tools()
        &&& texts(self.x11_tools@) == tools::x11_screenshot_tools()
        &&& self.preferred_tool is Some
        &&& self.preferred_tool.unwrap()@ == "grim"@
        &&& args_table(self.default_args@) == default_args_table()
    }
}

impl Default for ScreenshotToolsConfig {
    fn default() -> (r: Self)
        ensures
            r.is_default(),
            r.well_formed(),
    {
        proof {
            lemma_default_args_are_distinct();
        }
        let mut default_args: Vec<ToolArgs> = Vec::new();
        let a0 = vec!["-"];
        assert(slices(a0@) =~= seq!["-"@]);
        default_args.push(tool_args("grim", a0));
        let a1 = vec!["--stdout"];
        assert(slices(a1@) =~= seq!["--stdout"@]);
        default_args.push(tool_args("wayshot", a1));
        let a2 = vec!["copy", "screen"];
        assert(slices(a2@) =~= seq!["copy"@, "screen"@]);
        default_args.push(tool_args("grimshot", a2));
        let a3 = vec!["-b", "-n"];
        assert(slices(a3@) =~= seq!["-b"@, "-n"@]);
        default_args.push(tool_args("spectacle", a3));
        let a4 = vec!["gui"];
        assert(slices(a4@) =~= seq!["gui"@]);
        default_args.push(tool_args("flameshot", a4));
        let a5 = vec!["-"];
        assert(slices(a5@) =~= seq!["-"@]);
        default_args.push(tool_args("scrot", a5));
        let a6 = vec!["-f", "-"];
        assert(slices(a6@) =~= seq!["-f"@, "-"@]);
        default_args.push(tool_args("gnome-screenshot", a6));
        let a7 = vec!["-window", "root", "-"];
        assert(slices(a7@) =~= seq!["-window"@, "root"@, "-"@]);
        default_args.push(tool_args("import", a7));
        let a8 = vec!["-f", "-s"];
        assert(slices(a8@) =~= seq!["-f"@, "-s"@]);
        default_args.push(tool_args("xfce4-screenshooter", a8));
        assert(args_table(default_args@) =~= default_args_table());
        ScreenshotToolsConfig {
            wayland_tools: tools::wayland_screenshot_tool_names(),
            x11_tools: tools::x11_screenshot_tool_names(),
            preferred_tool: Some("grim".to_string()),
            default_args,
        }
    }
}

impl DisplayServerConfig {
    /// Whether this is the default: detect everything, fall back to X11.
    pub open spec fn is_default(self) -> bool {
        &&& self.auto_detect
        &&& self.preferred_server is None
        &&& self.wayland_compositor is None
        &&& self.clipboard_tools.is_default()
        &&& self.screenshot_tools.is_default()
        &&& self.fallback_enabled
    }
}

impl Default for DisplayServerConfig {
    fn default() -> (r: Self)
        ensures
            r.is_default(),
    {
        DisplayServerConfig {
            auto_detect: true,
            preferred_server: None,
            wayland_compositor: None,
            clipboard_tools: ClipboardToolsConfig::default(),
            screenshot_tools: ScreenshotToolsConfig::default(),
            fallback_enabled: true,
        }
    }
}

/// Why a configuration is refused, if it is: the message of the first rule
/// that it breaks.
pub open spec fn validation_failure(config: Config) -> Option<Seq<char>> {
    if config.poll_interval < 100 {
        Some("Poll interval must be at least 100ms"@)
    } else if config.max_file_size < 1024 {
        Some("Max file size must be at least 1KB"@)
    } else if config.compression_quality > 100 {
        Some("Compression quality must be between 0-100"@)
    } else if config.cleanup_days == 0 {
        Some("Cleanup days must be greater than 0"@)
    } else {
        None
    }
}

/// The log level that a name stands for, in any case; `Info` for a name
/// that stands for none.
pub open spec fn log_level_of(name: Seq<char>) -> LogLevel {
    let n = lower(name);
    if n == "error"@ {
        LogLevel::Error
    } else if n == "warn"@ {
        LogLevel::Warn
    } else if n == "info"@ {
        LogLevel::Info
    } else if n == "debug"@ {
        LogLevel::Debug
    } else if n == "trace"@ {
        LogLevel::Trace
    } else {
        LogLevel::Info
    }
}

/// The display server that a name stands for, in any case.
pub open spec fn server_of_name(name: Seq<char>) -> DisplayServer {
    let n = lower(name);
    if n == "wayland"@ {
        DisplayServer::Wayland
    } else if n == "x11"@ {
        DisplayServer::X11
    } else {
        DisplayServer::Unknown
    }
}

/// The arguments listed for `tool`: those of its first entry, none where it
/// has no entry.
pub open spec fn args_for(table: Seq<(Seq<char>, Seq<Seq<char>>)>, tool: Seq<char>) -> Seq<
    Seq<char>,
>
    decreases table.len(),
{
    if table.len() == 0 {
        Seq::empty()
    } else if table[0].0 == tool {
        table[0].1
    } else {
        args_for(table.skip(1), tool)
    }
}

/// A copy of a list of strings.
pub fn copy_strings(list: &Vec<String>) -> (r: Vec<String>)
    ensures
        texts(r@) == texts(list@),
{
    let mut r: Vec<String> = Vec::new();
    let mut i: usize = 0;
    while i < list.len()
        invariant
            i <= list.len(),
            r@.len() == i,
            forall|j: int| 0 <= j < i ==> r@[j]@ == list@[j]@,
        decreases list.len() - i,
    {
        r.push(list[i].clone());
        i += 1;
    }
    assert(texts(r@) =~= texts(list@));
    r
}

impl Config {
    /// Whether this is the default configuration of an installation whose
    /// directory is `home`, made at time `now`.
    pub open spec fn is_default_for(self, home: Seq<char>, now: i64) -> bool {
        &&& self.enabled
        &&& !self.auto_start
        &&& self.screenshot_dir@ == joined(home, crate::SCREENSHOT_DIR@)
        &&& self.config_file@ == joined(home, crate::CONFIG_FILE@)
        &&& self.poll_interval == crate::DEFAULT_POLL_INTERVAL
        &&& texts(self.image_formats@) == crate::supported_formats()
        &&& self.max_file_size == crate::MAX_FILE_SIZE
        &&& self.compression_quality == crate::IMAGE_QUALITY
        &&& self.cleanup_days == crate::DEFAULT_CLEANUP_DAYS
        &&& self.enable_logging
        &&& self.log_level@ == "info"@
        &&& self.intercept_methods == (InterceptMethods {
            clipboard: true,
            terminal: true,
            drag_drop: true,
            stdin: true,
            file_watch: true,
            process_monitor: true,
        })
        &&& self.shell_integration.is_default()
        &&& self.display_server.is_default()
        &&& self.created_at == now
        &&& self.updated_at == now
    }

    /// The default configuration of an installation whose directory is
    /// `home`, made at time `now`.
    pub fn with_home(home: &str, now: i64) -> (r: Config)
        ensures
            r.is_default_for(home@, now),
    {
        let formats = crate::supported_format_names();
        Config {
            enabled: true,
            auto_start: false,
            screenshot_dir: crate::paths::join(home, crate::SCREENSHOT_DIR),
            config_file: crate::paths::join(home, crate::CONFIG_FILE),
            poll_interval: crate::DEFAULT_POLL_INTERVAL,
            image_formats: to_strings(formats.as_slice()),
            max_file_size: crate::MAX_FILE_SIZE,
            compression_quality: crate::IMAGE_QUALITY,
            cleanup_days: crate::DEFAULT_CLEANUP_DAYS,
            enable_logging: true,
            log_level: "info".to_string(),
            intercept_methods: InterceptMethods::default(),
            shell_integration: ShellIntegration::default(),
            display_server: DisplayServerConfig::default(),
            created_at: now,
            updated_at: now,
        }
    }

    /// The path of the default configuration file.
    pub fn get_default_config_path() -> (r: Result<String, Error>)
        ensures
            match r {
                Ok(p) => exists|home: Seq<char>|
                    p@ == joined(#[trigger] joined(home, crate::HOME_SUBDIR@), crate::CONFIG_FILE@),
                Err(e) => e matches Error::Config(m) && m@ == "Failed to get home directory"@,
            },
    {
        match crate::get_home_dir() {
            Ok(dir) => Ok(crate::paths::join(dir.as_str(), crate::CONFIG_FILE)),
            Err(e) => Err(e),
        }
    }

    /// The path of the file this configuration is kept in.
    pub fn get_config_path(&self) -> (r: &String)
        ensures
            r@ == self.config_file@,
    {
        &self.config_file
    }

    /// Records `now` as the time of the last change.
    pub fn update(&mut self, now: i64)
        ensures
            *final(self) == (Config { updated_at: now, ..*old(self) }),
    {
        self.updated_at = now;
    }

    /// Whether files with this extension, in any case, count as images.
    pub fn is_image_format_supported(&self, extension: &str) -> (r: bool)
        ensures
            r == texts(self.image_formats@).contains(lower(extension@)),
    {
        let chars = to_chars(extension);
        let lowered = to_lower(chars.as_slice());
        strings_contain(self.image_formats.as_slice(), lowered.as_slice())
    }

    /// The path of a screenshot with the given file name.
    pub fn get_screenshot_path(&self, filename: &str) -> (r: String)
        ensures
            r@ == joined(self.screenshot_dir@, filename@),
    {
        crate::paths::join(self.screenshot_dir.as_str(), filename)
    }

    /// Checks the rules: a poll interval of at least 100 ms, a size limit of
    /// at least 1 KiB, a quality of at most 100, at least one cleanup day.
    pub fn validate(&self) -> (r: Result<(), Error>)
        ensures
            match r {
                Ok(_) => validation_failure(*self) is None,
                Err(e) => e matches Error::Validation(m) && validation_failure(*self) == Some(m@),
            },
    {
        if self.poll_interval < 100 {
            return Err(Error::Validation("Poll interval must be at least 100ms".to_string()));
        }
        if self.max_file_size < 1024 {
            return Err(Error::Validation("Max file size must be at least 1KB".to_string()));
        }
        if self.compression_quality > 100 {
            return Err(
                Error::Validation("Compression quality must be between 0-100".to_string()),
            );
        }
        if self.cleanup_days == 0 {
            return Err(Error::Validation("Cleanup days must be greater than 0".to_string()));
        }
        Ok(())
    }

    /// The configured log level.
    pub fn get_log_level(&self) -> (r: LogLevel)
        ensures
            r == log_level_of(self.log_level@),
    {
        let chars = to_chars(self.log_level.as_str());
        let lowered = from_chars(to_lower(chars.as_slice()).as_slice());
        if str_eq(lowered.as_str(), "error") {
            LogLevel::Error
        } else if str_eq(lowered.as_str(), "warn") {
            LogLevel::Warn
        } else if str_eq(lowered.as_str(), "info") {
            LogLevel::Info
        } else if str_eq(lowered.as_str(), "debug") {
            LogLevel::Debug
        } else if str_eq(lowered.as_str(), "trace") {
            LogLevel::Trace
        } else {
            LogLevel::Info
        }
    }

    /// The display server to work with: the preferred one where detection
    /// is switched off and one is named, else the detected one.
    pub open spec fn display_server_in(self, env: Environment) -> DisplayServer {
        if !self.display_server.auto_detect && self.display_server.preferred_server is Some {
            server_of_name(self.display_server.preferred_server.unwrap()@)
        } else {
            crate::display_server_of(env)
        }
    }

    /// The display server to work with.
    pub fn get_display_server(&self, env: &Environment) -> (r: DisplayServer)
        ensures
            r == self.display_server_in(*env),
    {
        if self.display_server.auto_detect {
            return crate::detect_display_server(env);
        }
        match &self.display_server.preferred_server {
            Some(preferred) => {
                let chars = to_chars(preferred.as_str());
                let lowered = from_chars(to_lower(chars.as_slice()).as_slice());
                if str_eq(lowered.as_str(), "wayland") {
                    DisplayServer::Wayland
                } else if str_eq(lowered.as_str(), "x11") {
                    DisplayServer::X11
                } else {
                    DisplayServer::Unknown
                }
            },
            None => crate::detect_display_server(env),
        }
    }

    /// The Wayland compositor to work with: the configured one, else the
    /// detected one.
    pub fn get_wayland_compositor(&self, env: &Environment) -> (r: Option<String>)
        ensures
            crate::opt_text(r) == (if self.display_server.wayland_compositor is Some {
                crate::opt_text(self.display_server.wayland_compositor)
            } else {
                crate::wayland_compositor_of(*env)
            }),
    {
        match &self.display_server.wayland_compositor {
            Some(compositor) => Some(compositor.clone()),
            None => crate::detect_wayland_compositor(env),
        }
    }

    /// The clipboard tools to look for, in order, under a display server.
    pub open spec fn clipboard_candidates(self, server: DisplayServer) -> Seq<Seq<char>> {
        let wayland = texts(self.display_server.clipboard_tools.wayland_tools@);
        let x11 = texts(self.display_server.clipboard_tools.x11_tools@);
        match server {
            DisplayServer::Wayland => if self.display_server.fallback_enabled {
                wayland + x11
            } else {
                wayland
            },
            DisplayServer::X11 => x11,
            DisplayServer::Unknown => wayland + x11,
        }
    }

    /// The screenshot tools to look for, in order, under a display server.
    pub open spec fn screenshot_candidates(self, server: DisplayServer) -> Seq<Seq<char>> {
        let wayland = texts(self.display_server.screenshot_tools.wayland_tools@);
        let x11 = texts(self.display_server.screenshot_tools.x11_tools@);
        match server {
            DisplayServer::Wayland => wayland,
            DisplayServer::X11 => x11,
            DisplayServer::Unknown => wayland + x11,
        }
    }

    /// The clipboard tools to look for, in order, under a display server.
    pub fn clipboard_candidate_names(&self, server: DisplayServer) -> (r: Vec<String>)
        ensures
            texts(r@) == self.clipboard_candidates(server),
    {
        let with_x11 = match server {
            DisplayServer::Wayland => self.display_server.fallback_enabled,
            _ => true,
        };
        let with_wayland = match server {
            DisplayServer::X11 => false,
            _ => true,
        };
        let mut r: Vec<String> = Vec::new();
        if with_wayland {
            tools::append_strings(
                &mut r,
                copy_strings(&self.display_server.clipboard_tools.wayland_tools),
            );
        }
        if with_x11 {
            tools::append_strings(&mut r, copy_strings(&self.display_server.clipboard_tools.x11_tools));
        }
        assert(texts(r@) =~= self.clipboard_candidates(server));
        r
    }

    /// The screenshot tools to look for, in order, under a display server.
    pub fn screenshot_candidate_names(&self, server: DisplayServer) -> (r: Vec<String>)
        ensures
            texts(r@) == self.screenshot_candidates(server),
    {
        let with_x11 = match server {
            DisplayServer::Wayland => false,
            _ => true,
        };
        let with_wayland = match server {
            DisplayServer::X11 => false,
            _ => true,
        };
        let mut r: Vec<String> = Vec::new();
        if with_wayland {
            tools::append_strings(
                &mut r,
                copy_strings(&self.display_server.screenshot_tools.wayland_tools),
            );
        }
        if with_x11 {
            tools::append_strings(
                &mut r,
                copy_strings(&self.display_server.screenshot_tools.x11_tools),
            );
        }
        assert(texts(r@) =~= self.screenshot_candidates(server));
        r
    }

    /// The clipboard tools that are installed: the preferred tool alone
    /// where it is installed, else those of the candidates for the display
    /// server that are.
    pub fn get_available_clipboard_tools(&self, env: &Environment) -> (r: Vec<String>)
        ensures
            ({
                let preferred = self.display_server.clipboard_tools.preferred_tool;
                let candidates = self.clipboard_candidates(self.display_server_in(*env));
                ||| preferred is Some && texts(r@) == seq![preferred.unwrap()@]
                ||| exists|flags: Seq<bool>|
                    flags.len() == candidates.len() && texts(r@) == #[trigger] tools::chosen(
                        candidates,
                        flags,
                    )
            }),
    {
        if let Some(preferred) = &self.display_server.clipboard_tools.preferred_tool {
            if crate::paths::is_command_available(preferred.as_str()) {
                let mut r: Vec<String> = Vec::new();
                r.push(preferred.clone());
                assert(texts(r@) =~= seq![preferred@]);
                return r;
            }
        }
        let candidates = self.clipboard_candidate_names(self.get_display_server(env));
        tools::available_among(candidates.as_slice())
    }

    /// The screenshot tools that are installed: the preferred tool alone
    /// where it is installed, else those of the candidates for the display
    /// server that are.
    pub fn get_available_screenshot_tools(&self, env: &Environment) -> (r: Vec<String>)
        ensures
            ({
                let preferred = self.display_server.screenshot_tools.preferred_tool;
                let candidates = self.screenshot_candidates(self.display_server_in(*env));
                ||| preferred is Some && texts(r@) == seq![preferred.unwrap()@]
                ||| exists|flags: Seq<bool>|
                    flags.len() == candidates.len() && texts(r@) == #[trigger] tools::chosen(
                        candidates,
                        flags,
                    )
            }),
    {
        if let Some(preferred) = &self.display_server.screenshot_tools.preferred_tool {
            if crate::paths::is_command_available(preferred.as_str()) {
                let mut r: Vec<String> = Vec::new();
                r.push(preferred.clone());
                assert(texts(r@) =~= seq![preferred@]);
                return r;
            }
        }
        let candidates = self.screenshot_candidate_names(self.get_display_server(env));
        tools::available_among(candidates.as_slice())
    }

    /// The arguments with which a screenshot tool is started.
    pub fn get_screenshot_tool_args(&self, tool: &str) -> (r: Vec<String>)
        ensures
            texts(r@) == args_for(args_table(self.display_server.screenshot_tools.default_args@), tool@),
    {
        let table = &self.display_server.screenshot_tools.default_args;
        let wanted = to_chars(tool);
        let mut i: usize = 0;
        assert(args_table(table@).skip(0) =~= args_table(table@));
        while i < table.len()
            invariant
                i <= table.len(),
                wanted@ == tool@,
                *table == self.display_server.screenshot_tools.default_args,
                args_for(args_table(table@), tool@) == args_for(
                    args_table(table@).skip(i as int),
                    tool@,
                ),
            decreases table.len() - i,
        {
            let ghost rest = args_table(table@).skip(i as int);
            assert(rest.len() > 0);
            assert(rest[0] == tool_args_view(table@[i as int]));
            let name = to_chars(table[i].tool.as_str());
            if chars_eq(name.as_slice(), wanted.as_slice()) {
                assert(args_for(rest, tool@) == texts(table@[i as int].args@));
                return copy_strings(&table[i].args);
            }
            assert(rest.skip(1) =~= args_table(table@).skip(i + 1));
            i += 1;
        }
        assert(args_table(table@).skip(i as int).len() == 0);
        Vec::new()
    }
}

impl Default for Config {
    /// The default configuration for the current user, made now. Where no
    /// home directory is known, the installation lives in `/tmp/.klipdot`.
    fn default() -> (r: Self)
        ensures
            exists|home: Seq<char>, now: i64| #[trigger] r.is_default_for(home, now),
    {
        let home = match crate::get_home_dir() {
            Ok(dir) => dir,
            Err(_) => "/tmp/.klipdot".to_string(),
        };
        let (now, _) = crate::utc_now();
        let r = Config::with_home(home.as_str(), now);
        r
    }
}

/// What the caller found out about an entry of a directory. Times are in
/// milliseconds since 1970.
#[derive(Debug, Clone)]
pub struct FileEntry {
    pub path: String,
    pub is_file: bool,
    pub size: u64,
    pub modified: i64,
    /// When the entry was created, where the file system tells.
    pub created: Option<i64>,
}

/// A stored screenshot.
#[derive(Debug, Clone)]
pub struct Screenshot {
    pub filename: String,
    pub path: String,
    pub size: u64,
    pub source: String,
    pub created_at: i64,
    pub mime_type: String,
}

/// The number of milliseconds in a day.
pub const DAY_MILLIS: i64 = 86400000;

/// The source that the name of a screenshot file tells of.
pub open spec fn source_of_name(filename: Seq<char>) -> Seq<char> {
    if crate::text::contains(filename, "clipboard"@) {
        "clipboard"@
    } else if crate::text::contains(filename, "terminal"@) {
        "terminal"@
    } else if crate::text::contains(filename, "dragdrop"@) {
        "dragdrop"@
    } else if crate::text::contains(filename, "stdin"@) {
        "stdin"@
    } else {
        "unknown"@
    }
}

/// The media type that an extension, in lower case, tells of.
pub open spec fn mime_of_extension(ext: Option<Seq<char>>) -> Seq<char> {
    if ext == Some("png"@) {
        "image/png"@
    } else if ext == Some("jpg"@) || ext == Some("jpeg"@) {
        "image/jpeg"@
    } else if ext == Some("gif"@) {
        "image/gif"@
    } else if ext == Some("bmp"@) {
        "image/bmp"@
    } else if ext == Some("webp"@) {
        "image/webp"@
    } else if ext == Some("svg"@) {
        "image/svg+xml"@
    } else {
        "application/octet-stream"@
    }
}

/// `order` with the index `idx` put in by time, latest first: it goes
/// behind every index whose time is not earlier.
pub open spec fn inserted_by_time(order: Seq<int>, times: Seq<i64>, idx: int) -> Seq<int>
    decreases order.len(),
{
    if order.len() == 0 {
        seq![idx]
    } else if times[order.last()] >= times[idx] {
        order.push(idx)
    } else {
        inserted_by_time(order.drop_last(), times, idx).push(order.last())
    }
}

/// The indices, below `n`, of the entries that are marked, by time, latest
/// first. Entries of the same time keep their order.
pub open spec fn ranked_upto(times: Seq<i64>, marked: Seq<bool>, n: int) -> Seq<int>
    decreases n,
{
    if n <= 0 {
        Seq::empty()
    } else {
        let rest = ranked_upto(times, marked, n - 1);
        if marked[n - 1] {
            inserted_by_time(rest, times, n - 1)
        } else {
            rest
        }
    }
}

/// Whether the entry of index `a` goes before that of index `b`: it does if
/// it is later, or as late and listed first.
pub open spec fn ranks_before(times: Seq<i64>, a: int, b: int) -> bool {
    times[a] > times[b] || (times[a] == times[b] && a < b)
}

/// Whether `order` lists its indices by time, latest first, and indices of
/// the same time in their own order.
pub open spec fn is_ranked(order: Seq<int>, times: Seq<i64>) -> bool {
    forall|i: int, j: int|
        0 <= i < j < order.len() ==> ranks_before(times, #[trigger] order[i], #[trigger] order[j])
}

/// Putting an index in by time keeps a ranked list ranked, and adds that
/// index and no other.
pub proof fn lemma_insert_keeps_rank(order: Seq<int>, times: Seq<i64>, idx: int)
    requires
        is_ranked(order, times),
        forall|i: int| 0 <= i < order.len() ==> 0 <= #[trigger] order[i] < idx,
    ensures
        is_ranked(inserted_by_time(order, times, idx), times),
        inserted_by_time(order, times, idx).len() == order.len() + 1,
        inserted_by_time(order, times, idx).contains(idx),
        forall|x: int| order.contains(x) ==> inserted_by_time(order, times, idx).contains(x),
        forall|k: int|
            0 <= k < inserted_by_time(order, times, idx).len() ==> (#[trigger] inserted_by_time(
                order,
                times,
                idx,
            )[k]) == idx || order.contains(inserted_by_time(order, times, idx)[k]),
    decreases order.len(),
{
    let result = inserted_by_time(order, times, idx);
    if order.len() == 0 {
        assert(result[0] == idx);
    } else if times[order.last()] >= times[idx] {
        assert(result[order.len() as int] == idx);
        assert forall|x: int| order.contains(x) implies result.contains(x) by {
            let j = choose|j: int| 0 <= j < order.len() && order[j] == x;
            assert(result[j] == x);
        }
        assert forall|k: int| 0 <= k < result.len() implies (#[trigger] result[k]) == idx
            || order.contains(result[k]) by {
            if k < order.len() {
                assert(order[k] == result[k]);
            }
        }
        assert forall|i: int, j: int| 0 <= i < j < result.len() implies ranks_before(
            times,
            #[trigger] result[i],
            #[trigger] result[j],
        ) by {
            if j == order.len() {
                assert(result[i] == order[i]);
                if i < order.len() - 1 {
                    assert(ranks_before(times, order[i], order[order.len() - 1]));
                }
            } else {
                assert(result[i] == order[i] && result[j] == order[j]);
            }
        }
    } else {
        let head = order.drop_last();
        let last = order.last();
        assert forall|i: int, j: int| 0 <= i < j < head.len() implies ranks_before(
            times,
            #[trigger] head[i],
            #[trigger] head[j],
        ) by {
            assert(head[i] == order[i] && head[j] == order[j]);
        }
        assert forall|i: int| 0 <= i < head.len() implies 0 <= #[trigger] head[i] < idx by {
            assert(head[i] == order[i]);
        }
        lemma_insert_keeps_rank(head, times, idx);
        let inner = inserted_by_time(head, times, idx);
        assert(result == inner.push(last));
        assert(result[inner.len() as int] == last);
        let at = choose|at: int| 0 <= at < inner.len() && inner[at] == idx;
        assert(result[at] == idx);
        assert forall|x: int| order.contains(x) implies result.contains(x) by {
            let j = choose|j: int| 0 <= j < order.len() && order[j] == x;
            if j < head.len() {
                assert(head[j] == x);
                assert(head.contains(x));
                let k = choose|k: int| 0 <= k < inner.len() && inner[k] == x;
                assert(result[k] == x);
            }
        }
        assert forall|k: int| 0 <= k < result.len() implies (#[trigger] result[k]) == idx
            || order.contains(result[k]) by {
            if k < inner.len() {
                assert(result[k] == inner[k]);
                if inner[k] != idx {
                    assert(head.contains(inner[k]));
                    let j = choose|j: int| 0 <= j < head.len() && head[j] == inner[k];
                    assert(order[j] == inner[k]);
                }
            } else {
                assert(order[order.len() - 1] == last);
            }
        }
        assert forall|i: int, j: int| 0 <= i < j < result.len() implies ranks_before(
            times,
            #[trigger] result[i],
            #[trigger] result[j],
        ) by {
            if j == inner.len() {
                assert(result[i] == inner[i]);
                if inner[i] != idx {
                    assert(head.contains(inner[i]));
                    let k = choose|k: int| 0 <= k < head.len() && head[k] == inner[i];
                    assert(order[k] == inner[i]);
                    assert(ranks_before(times, order[k], order[order.len() - 1]));
                }
            } else {
                assert(result[i] == inner[i] && result[j] == inner[j]);
            }
        }
    }
}

/// The ranked indices are those of the marked entries, each once, by time,
/// latest first; entries of the same time keep their order.
pub proof fn lemma_ranking(times: Seq<i64>, marked: Seq<bool>, n: int)
    requires
        0 <= n <= times.len(),
        marked.len() == times.len(),
    ensures
        is_ranked(ranked_upto(times, marked, n), times),
        forall|k: int|
            0 <= k < ranked_upto(times, marked, n).len() ==> 0 <= (#[trigger] ranked_upto(
                times,
                marked,
                n,
            )[k]) < n && marked[ranked_upto(times, marked, n)[k]],
        forall|i: int| 0 <= i < n && marked[i] ==> ranked_upto(times, marked, n).contains(i),
    decreases n,
{
    if n > 0 {
        lemma_ranking(times, marked, n - 1);
        let rest = ranked_upto(times, marked, n - 1);
        if marked[n - 1] {
            lemma_insert_keeps_rank(rest, times, n - 1);
            let all = inserted_by_time(rest, times, n - 1);
            assert forall|k: int| 0 <= k < all.len() implies 0 <= (#[trigger] all[k]) < n
                && marked[all[k]] by {
                if all[k] != n - 1 {
                    assert(rest.contains(all[k]));
                    let j = choose|j: int| 0 <= j < rest.len() && rest[j] == all[k];
                    assert(0 <= rest[j] < n - 1);
                }
            }
        }
    }
}

/// The times of a list of entries.
pub open spec fn entry_times(entries: Seq<FileEntry>) -> Seq<i64> {
    Seq::new(entries.len(), |i: int| entries[i].modified)
}

/// The view of a list of indices.
pub open spec fn indices(v: Seq<usize>) -> Seq<int> {
    Seq::new(v.len(), |i: int| v[i] as int)
}

/// Puts the index `idx` into `order` by time, latest first.
pub fn insert_by_time(order: &mut Vec<usize>, entries: &[FileEntry], idx: usize)
    requires
        idx < entries@.len(),
        forall|j: int| 0 <= j < old(order)@.len() ==> old(order)@[j] < entries@.len(),
    ensures
        indices(final(order)@) == inserted_by_time(
            indices(old(order)@),
            entry_times(entries@),
            idx as int,
        ),
        forall|j: int| 0 <= j < final(order)@.len() ==> final(order)@[j] < entries@.len(),
        forall|j: int|
            0 <= j < final(order)@.len() ==> final(order)@[j] == idx || old(order)@.contains(
                #[trigger] final(order)@[j],
            ),
{
    let ghost times = entry_times(entries@);
    let ghost before = indices(order@);
    let mut p: usize = order.len();
    assert(before.take(p as int) =~= before);
    assert(before.skip(p as int) =~= Seq::<int>::empty());
    assert(inserted_by_time(before, times, idx as int) + Seq::<int>::empty()
        =~= inserted_by_time(before, times, idx as int));
    while p > 0 && entries[order[p - 1]].modified < entries[idx].modified
        invariant
            p <= order.len(),
            idx < entries@.len(),
            order@ == old(order)@,
            before == indices(order@),
            times == entry_times(entries@),
            forall|j: int| 0 <= j < order@.len() ==> order@[j] < entries@.len(),
            inserted_by_time(before, times, idx as int) == inserted_by_time(
                before.take(p as int),
                times,
                idx as int,
            ) + before.skip(p as int),
        decreases p,
    {
        proof {
            let head = before.take(p as int);
            assert(head.last() == order@[p - 1] as int);
            assert(head.drop_last() =~= before.take(p - 1));
            assert(inserted_by_time(head, times, idx as int) == inserted_by_time(
                before.take(p - 1),
                times,
                idx as int,
            ).push(head.last()));
            assert(inserted_by_time(before.take(p - 1), times, idx as int).push(head.last())
                + before.skip(p as int) =~= inserted_by_time(
                before.take(p - 1),
                times,
                idx as int,
            ) + before.skip(p - 1));
        }
        p -= 1;
    }
    proof {
        let head = before.take(p as int);
        if p > 0 {
            assert(head.last() == order@[p - 1] as int);
        }
        assert(inserted_by_time(head, times, idx as int) == head.push(idx as int));
    }
    order.insert(p, idx);
    assert(indices(order@) =~= before.take(p as int).push(idx as int) + before.skip(p as int));
    assert forall|j: int| 0 <= j < order@.len() implies order@[j] == idx || old(order)@.contains(
        #[trigger] order@[j],
    ) by {
        if j < p {
            assert(order@[j] == old(order)@[j]);
        } else if j > p {
            assert(order@[j] == old(order)@[j - 1]);
        }
    }
}

impl Config {
    /// Whether an entry is a file with a supported image extension.
    pub open spec fn is_screenshot(self, entry: FileEntry) -> bool {
        entry.is_file && has_extension_in(entry.path@, texts(self.image_formats@))
    }

    /// Which entries are files with a supported image extension.
    pub open spec fn screenshot_marks(self, entries: Seq<FileEntry>) -> Seq<bool> {
        Seq::new(entries.len(), |i: int| self.is_screenshot(entries[i]))
    }

    /// The indices of the screenshots among `entries`, latest first, `limit`
    /// of them at most.
    pub open spec fn recent(self, entries: Seq<FileEntry>, limit: nat) -> Seq<int> {
        let all = ranked_upto(
            entry_times(entries),
            self.screenshot_marks(entries),
            entries.len() as int,
        );
        if all.len() > limit {
            all.take(limit as int)
        } else {
            all
        }
    }

    /// Whether an entry is a file with a supported image extension.
    pub fn entry_is_screenshot(&self, entry: &FileEntry) -> (r: bool)
        ensures
            r == self.is_screenshot(*entry),
    {
        if !entry.is_file {
            return false;
        }
        let chars = to_chars(entry.path.as_str());
        match crate::paths::path_extension(chars.as_slice()) {
            Some(ext) => {
                let lowered = to_lower(ext.as_slice());
                strings_contain(self.image_formats.as_slice(), lowered.as_slice())
            },
            None => false,
        }
    }

    /// The indices of the screenshots among the entries of the screenshot
    /// directory, latest first, `limit` of them at most.
    pub fn recent_screenshot_indices(&self, entries: &[FileEntry], limit: usize) -> (r: Vec<usize>)
        ensures
            indices(r@) == self.recent(entries@, limit as nat),
            forall|j: int| 0 <= j < r@.len() ==> r@[j] < entries@.len(),
            forall|j: int| 0 <= j < r@.len() ==> self.is_screenshot(entries@[#[trigger] r@[j] as int]),
    {
        let mut order: Vec<usize> = Vec::new();
        let mut i: usize = 0;
        assert(indices(order@) =~= Seq::<int>::empty());
        while i < entries.len()
            invariant
                i <= entries.len(),
                forall|j: int| 0 <= j < order@.len() ==> order@[j] < entries@.len(),
                forall|j: int|
                    0 <= j < order@.len() ==> self.is_screenshot(
                        entries@[#[trigger] order@[j] as int],
                    ),
                indices(order@) == ranked_upto(
                    entry_times(entries@),
                    self.screenshot_marks(entries@),
                    i as int,
                ),
            decreases entries.len() - i,
        {
            if self.entry_is_screenshot(&entries[i]) {
                let ghost before = order@;
                insert_by_time(&mut order, entries, i);
                assert forall|j: int| 0 <= j < order@.len() implies self.is_screenshot(
                    entries@[#[trigger] order@[j] as int],
                ) by {
                    if order@[j] != i {
                        assert(before.contains(order@[j]));
                        let k = choose|k: int| 0 <= k < before.len() && before[k] == order@[j];
                        assert(self.is_screenshot(entries@[before[k] as int]));
                    }
                }
            }
            i += 1;
        }
        if order.len() > limit {
            order.truncate(limit);
            assert(indices(order@) =~= self.recent(entries@, limit as nat));
        }
        order
    }

    /// Whether `shot` is what is recorded about the screenshot at `entry`.
    /// Where the file system does not tell when the file was created, `now`
    /// stands for it.
    pub open spec fn is_info_of(shot: Screenshot, entry: FileEntry, now: i64) -> bool {
        &&& shot.filename@ == crate::paths::file_name(entry.path@)
        &&& shot.path@ == entry.path@
        &&& shot.size == entry.size
        &&& shot.source@ == source_of_name(shot.filename@)
        &&& shot.created_at == (match entry.created {
            Some(t) => t,
            None => now,
        })
        &&& shot.mime_type@ == mime_of_extension(crate::paths::extension(entry.path@))
    }

    /// What is recorded about the screenshot at `entry`. A path without a
    /// file name is refused.
    pub fn create_screenshot_info(&self, entry: &FileEntry, now: i64) -> (r: Result<
        Screenshot,
        Error,
    >)
        ensures
            match r {
                Ok(shot) => crate::paths::file_name(entry.path@).len() > 0 && Self::is_info_of(
                    shot,
                    *entry,
                    now,
                ),
                Err(e) => crate::paths::file_name(entry.path@).len() == 0 && (e matches Error::Format(
                    m,
                ) && m@ == "Invalid filename"@),
            },
    {
        let chars = to_chars(entry.path.as_str());
        let name = crate::paths::path_file_name(chars.as_slice());
        if name.len() == 0 {
            return Err(Error::Format("Invalid filename".to_string()));
        }
        let clipboard = to_chars("clipboard");
        let terminal = to_chars("terminal");
        let dragdrop = to_chars("dragdrop");
        let stdin = to_chars("stdin");
        let source = if crate::text::has_substring(name.as_slice(), clipboard.as_slice()) {
            "clipboard"
        } else if crate::text::has_substring(name.as_slice(), terminal.as_slice()) {
            "terminal"
        } else if crate::text::has_substring(name.as_slice(), dragdrop.as_slice()) {
            "dragdrop"
        } else if crate::text::has_substring(name.as_slice(), stdin.as_slice()) {
            "stdin"
        } else {
            "unknown"
        };
        let ext = crate::paths::path_extension(chars.as_slice());
        let mime = match &ext {
            Some(e) => {
                let text = from_chars(e.as_slice());
                if str_eq(text.as_str(), "png") {
                    "image/png"
                } else if str_eq(text.as_str(), "jpg") || str_eq(text.as_str(), "jpeg") {
                    "image/jpeg"
                } else if str_eq(text.as_str(), "gif") {
                    "image/gif"
                } else if str_eq(text.as_str(), "bmp") {
                    "image/bmp"
                } else if str_eq(text.as_str(), "webp") {
                    "image/webp"
                } else if str_eq(text.as_str(), "svg") {
                    "image/svg+xml"
                } else {
                    "application/octet-stream"
                }
            },
            None => "application/octet-stream",
        };
        Ok(
            Screenshot {
                filename: from_chars(name.as_slice()),
                path: entry.path.clone(),
                size: entry.size,
                source: source.to_string(),
                created_at: match entry.created {
                    Some(t) => t,
                    None => now,
                },
                mime_type: mime.to_string(),
            },
        )
    }

    /// The screenshots in the screenshot directory, latest first, `limit`
    /// of them at most.
    pub fn get_recent_screenshots(&self, entries: &[FileEntry], limit: usize, now: i64) -> (r: Vec<
        Screenshot,
    >)
        ensures
            r@.len() == self.recent(entries@, limit as nat).len(),
            forall|k: int|
                0 <= k < r@.len() ==> Self::is_info_of(
                    #[trigger] r@[k],
                    entries@[self.recent(entries@, limit as nat)[k]],
                    now,
                ),
    {
        let order = self.recent_screenshot_indices(entries, limit);
        let mut shots: Vec<Screenshot> = Vec::new();
        let mut i: usize = 0;
        while i < order.len()
            invariant
                i <= order.len(),
                shots@.len() == i,
                indices(order@) == self.recent(entries@, limit as nat),
                forall|j: int| 0 <= j < order@.len() ==> order@[j] < entries@.len(),
                forall|j: int|
                    0 <= j < order@.len() ==> self.is_screenshot(
                        entries@[#[trigger] order@[j] as int],
                    ),
                forall|k: int|
                    0 <= k < shots@.len() ==> Self::is_info_of(
                        #[trigger] shots@[k],
                        entries@[order@[k] as int],
                        now,
                    ),
            decreases order.len() - i,
        {
            let entry = &entries[order[i]];
            proof {
                // A path with an extension has a file name.
                assert(self.is_screenshot(entries@[order@[i as int] as int]));
                assert(crate::paths::extension(entry.path@) is Some);
            }
            match self.create_screenshot_info(entry, now) {
                Ok(shot) => {
                    shots.push(shot);
                },
                Err(_) => {
                    assert(false);
                },
            }
            i += 1;
        }
        assert forall|k: int| 0 <= k < shots@.len() implies Self::is_info_of(
            #[trigger] shots@[k],
            entries@[self.recent(entries@, limit as nat)[k]],
            now,
        ) by {
            assert(indices(order@)[k] == order@[k]);
        }
        shots
    }

    /// The time before which a screenshot is old, when screenshots are kept
    /// for `days` days.
    pub open spec fn cutoff(days: u32, now: i64) -> int {
        now - days * DAY_MILLIS
    }

    /// Which of the first `n` entries are files that were last changed
    /// before the cutoff.
    pub open spec fn expired_upto(entries: Seq<FileEntry>, days: u32, now: i64, n: int) -> Seq<
        Seq<char>,
    >
        decreases n,
    {
        if n <= 0 {
            Seq::empty()
        } else {
            let rest = Self::expired_upto(entries, days, now, n - 1);
            if entries[n - 1].is_file && entries[n - 1].modified < Self::cutoff(days, now) {
                rest.push(entries[n - 1].path@)
            } else {
                rest
            }
        }
    }

    /// The paths of the files in the screenshot directory that are older
    /// than `days` days and are to be removed.
    pub fn cleanup_old_screenshots(&self, entries: &[FileEntry], days: u32, now: i64) -> (r: Vec<
        String,
    >)
        ensures
            texts(r@) == Self::expired_upto(entries@, days, now, entries@.len() as int),
    {
        let d: i128 = days as i128;
        assert(0 <= d * 86400000 <= 4294967295 * 86400000) by (nonlinear_arith)
            requires
                0 <= d <= 4294967295,
        ;
        let cutoff: i128 = now as i128 - d * (DAY_MILLIS as i128);
        let mut r: Vec<String> = Vec::new();
        let mut i: usize = 0;
        assert(texts(r@) =~= Seq::<Seq<char>>::empty());
        while i < entries.len()
            invariant
                i <= entries.len(),
                cutoff == Self::cutoff(days, now),
                texts(r@) == Self::expired_upto(entries@, days, now, i as int),
            decreases entries.len() - i,
        {
            let ghost before = texts(r@);
            if entries[i].is_file && (entries[i].modified as i128) < cutoff {
                r.push(entries[i].path.clone());
                assert(texts(r@) =~= before.push(entries@[i as int].path@));
            }
            i += 1;
        }
        r
    }
}

} // verus!
