//! Watching the processes of the system for tools that make images.
//!
//! The caller lists the processes and the directories; this module reads
//! the listings and decides what to look at.

use crate::DisplayServer;
use crate::Environment;
use crate::config::Config;
use crate::config::FileEntry;
use crate::error::Error;
use crate::paths::has_extension_in;
use crate::paths::joined;
use crate::service::process_state;
use crate::text::contains;
use crate::text::fields;
use crate::text::from_chars;
use crate::text::has_substring;
use crate::text::join_rows;
use crate::text::joined_with;
use crate::text::lines;
use crate::text::lower;
use crate::text::parse_number;
use crate::text::parsed_number;
use crate::text::rows;
use crate::text::slices;
use crate::text::split_lines;
use crate::text::split_on;
use crate::text::split_whitespace;
use crate::text::str_eq;
use crate::text::texts;
use crate::text::to_chars;
use crate::text::to_lower;
use crate::text::words;
use crate::tools;
use vstd::prelude::*;

verus! {

/// A process, as the system lists it.
#[derive(Debug, Clone)]
pub struct Process {
    pub pid: u32,
    pub name: String,
    pub command: String,
}

/// The view of a [`Process`].
pub struct ProcessView {
    pub pid: u32,
    pub name: Seq<char>,
    pub command: Seq<char>,
}

impl View for Process {
    type V = ProcessView;

    open spec fn view(&self) -> ProcessView {
        ProcessView { pid: self.pid, name: self.name@, command: self.command@ }
    }
}

/// The views of a list of processes.
pub open spec fn process_views(v: Seq<Process>) -> Seq<ProcessView> {
    Seq::new(v.len(), |i: int| v[i]@)
}

/// When a process that works on images was last seen. Times are in
/// milliseconds since 1970.
#[derive(Debug, Clone)]
pub struct ProcessMonitor {
    pub name: String,
    pub pid: Option<u32>,
    pub last_seen: i64,
}

/// How a screenshot process is followed up.
#[derive(Debug, Clone, Copy, PartialEq, Eq, Structural)]
pub enum ScreenshotKind {
    /// A Wayland tool: the clipboard is looked at before the directories.
    Wayland,
    /// Any other tool: the directories are looked at.
    Traditional,
}

/// For how long, at most, a process is waited for, in milliseconds.
pub const WAIT_LIMIT: u64 = 30000;

/// The pause between two looks at a process that is waited for, in
/// milliseconds.
pub const WAIT_INTERVAL: u64 = 100;

/// How long a screenshot tool is given to fill the clipboard, in
/// milliseconds.
pub const CLIPBOARD_GRACE: u64 = 500;

/// How old, at most, a file may be to count as new, in milliseconds.
pub const RECENT_MILLIS: i64 = 30000;

/// After how long without being seen a process is forgotten, in seconds.
pub const FORGET_AFTER_SECONDS: i64 = 300;

/// The process that a line of `ps -eo pid,comm,args` stands for: the
/// first word is its identifier, the second its name, the rest its
/// command.
pub open spec fn ps_process(line: Seq<char>) -> Option<ProcessView> {
    let parts = words(line);
    if parts.len() >= 3 && parsed_number(parts[0], u32::MAX as nat) is Ok {
        Some(
            ProcessView {
                pid: parsed_number(parts[0], u32::MAX as nat)->Ok_0 as u32,
                name: parts[1],
                command: joined_with(parts.skip(2), " "@),
            },
        )
    } else {
        None
    }
}

/// The process that a line of `wmic`'s CSV listing stands for: the third
/// field is its identifier, the second its name, the first its command.
pub open spec fn wmic_process(line: Seq<char>) -> Option<ProcessView> {
    let parts = fields(line, ',');
    if parts.len() >= 3 && parsed_number(parts[2], u32::MAX as nat) is Ok {
        Some(
            ProcessView {
                pid: parsed_number(parts[2], u32::MAX as nat)->Ok_0 as u32,
                name: parts[1],
                command: parts[0],
            },
        )
    } else {
        None
    }
}

/// The view of an optional process.
pub open spec fn opt_process(p: Option<Process>) -> Option<ProcessView> {
    match p {
        Some(p) => Some(p@),
        None => None,
    }
}

/// Reads a line of `ps -eo pid,comm,args`.
pub fn parse_ps_line(line: &str) -> (r: Option<Process>)
    ensures
        opt_process(r) == ps_process(line@),
{
    let chars = to_chars(line);
    let parts = split_whitespace(chars.as_slice());
    if parts.len() >= 3 {
        assert(rows(parts@)[0] == parts@[0]@);
        assert(rows(parts@)[1] == parts@[1]@);
        if let Ok(pid) = parse_number(parts[0].as_slice(), 0xFFFF_FFFF) {
            let mut rest: Vec<Vec<char>> = Vec::new();
            let mut i: usize = 2;
            while i < parts.len()
                invariant
                    2 <= i <= parts.len(),
                    rows(rest@) == rows(parts@).subrange(2, i as int),
                decreases parts.len() - i,
            {
                let ghost before = rows(rest@);
                rest.push(parts[i].clone());
                assert(rows(rest@) =~= before.push(parts@[i as int]@));
                i += 1;
                assert(rows(parts@).subrange(2, i as int) =~= rows(parts@).subrange(2, i - 1).push(
                    rows(parts@)[i - 1],
                ));
            }
            assert(rows(parts@).subrange(2, parts.len() as int) =~= rows(parts@).skip(2));
            let space = to_chars(" ");
            let command = join_rows(rest.as_slice(), space.as_slice());
            return Some(
                Process {
                    pid: pid as u32,
                    name: from_chars(parts[1].as_slice()),
                    command: from_chars(command.as_slice()),
                },
            );
        }
    }
    None
}

/// Reads a line of `wmic`'s CSV listing.
pub fn parse_wmic_line(line: &str) -> (r: Option<Process>)
    ensures
        opt_process(r) == wmic_process(line@),
{
    let chars = to_chars(line);
    let parts = split_on(chars.as_slice(), ',');
    if parts.len() >= 3 {
        assert(rows(parts@)[0] == parts@[0]@);
        assert(rows(parts@)[1] == parts@[1]@);
        assert(rows(parts@)[2] == parts@[2]@);
        if let Ok(pid) = parse_number(parts[2].as_slice(), 0xFFFF_FFFF) {
            return Some(
                Process {
                    pid: pid as u32,
                    name: from_chars(parts[1].as_slice()),
                    command: from_chars(parts[0].as_slice()),
                },
            );
        }
    }
    None
}

/// The processes that the lines `1..n` of a listing stand for. The first
/// line is the heading.
pub open spec fn listed_upto(all: Seq<Seq<char>>, csv: bool, n: int) -> Seq<ProcessView>
    decreases n,
{
    if n <= 1 {
        Seq::empty()
    } else {
        let rest = listed_upto(all, csv, n - 1);
        let process = if csv {
            wmic_process(all[n - 1])
        } else {
            ps_process(all[n - 1])
        };
        match process {
            Some(p) => rest.push(p),
            None => rest,
        }
    }
}

/// The processes that a listing stands for.
pub open spec fn listed(output: Seq<char>, csv: bool) -> Seq<ProcessView> {
    listed_upto(lines(output), csv, lines(output).len() as int)
}

/// Reads the listing that `ps`, or with `csv` that `wmic`, printed.
pub fn parse_process_list(output: &str, csv: bool) -> (r: Vec<Process>)
    ensures
        process_views(r@) == listed(output@, csv),
{
    let chars = to_chars(output);
    let all = split_lines(chars.as_slice());
    let mut r: Vec<Process> = Vec::new();
    let mut i: usize = 1;
    assert(process_views(r@) =~= Seq::<ProcessView>::empty());
    while i < all.len()
        invariant
            1 <= i,
            rows(all@) == lines(output@),
            i <= all.len() ==> process_views(r@) == listed_upto(lines(output@), csv, i as int),
            i > all.len() ==> all.len() == 0 && r@.len() == 0,
        decreases all.len() - i,
    {
        let ghost before = process_views(r@);
        assert(rows(all@)[i as int] == all@[i as int]@);
        let line = from_chars(all[i].as_slice());
        let process = if csv {
            parse_wmic_line(line.as_str())
        } else {
            parse_ps_line(line.as_str())
        };
        if let Some(p) = process {
            r.push(p);
            assert(process_views(r@) =~= before.push(p@));
        }
        i += 1;
    }
    assert(process_views(r@) =~= listed(output@, csv));
    r
}

/// Whether the lower-case form of `name` holds one of `tools`, each taken
/// in lower case.
pub open spec fn names_any(name: Seq<char>, tools: Seq<Seq<char>>) -> bool {
    exists|i: int| 0 <= i < tools.len() && contains(lower(name), lower(#[trigger] tools[i]))
}

/// Executable form of [`names_any`].
pub fn name_holds_any(name: &[char], tools: &[Vec<char>]) -> (r: bool)
    ensures
        r == names_any(name@, rows(tools@)),
{
    let lowered = to_lower(name);
    let mut i: usize = 0;
    while i < tools.len()
        invariant
            i <= tools.len(),
            lowered@ == lower(name@),
            forall|j: int| 0 <= j < i ==> !contains(lower(name@), lower(#[trigger] rows(tools@)[j])),
        decreases tools.len() - i,
    {
        assert(rows(tools@)[i as int] == tools@[i as int]@);
        let tool = to_lower(tools[i].as_slice());
        if has_substring(lowered.as_slice(), tool.as_slice()) {
            return true;
        }
        i += 1;
    }
    false
}

/// The characters of each string.
pub fn rows_of(list: &[String]) -> (r: Vec<Vec<char>>)
    ensures
        rows(r@) == texts(list@),
{
    let mut r: Vec<Vec<char>> = Vec::new();
    let mut i: usize = 0;
    while i < list.len()
        invariant
            i <= list.len(),
            r@.len() == i,
            forall|j: int| 0 <= j < i ==> r@[j]@ == list@[j]@,
        decreases list.len() - i,
    {
        r.push(to_chars(list[i].as_str()));
        i += 1;
    }
    assert(rows(r@) =~= texts(list@));
    r
}

/// The characters of each string slice.
pub fn rows_of_slices(list: &[&str]) -> (r: Vec<Vec<char>>)
    ensures
        rows(r@) == slices(list@),
{
    let mut r: Vec<Vec<char>> = Vec::new();
    let mut i: usize = 0;
    while i < list.len()
        invariant
            i <= list.len(),
            r@.len() == i,
            forall|j: int| 0 <= j < i ==> r@[j]@ == list@[j]@,
        decreases list.len() - i,
    {
        r.push(to_chars(list[i]));
        i += 1;
    }
    assert(rows(r@) =~= slices(list@));
    r
}

/// The names by which a screenshot process is known whatever is
/// installed.
pub open spec fn screenshot_process_names() -> Seq<Seq<char>> {
    seq![
        "screencapture"@,
        "screenshot"@,
        "scrot"@,
        "gnome-screenshot"@,
        "spectacle"@,
        "flameshot"@,
        "grim"@,
        "slurp"@,
        "wayshot"@,
        "grimshot"@,
        "import"@,
        "xfce4-screenshooter"@,
    ]
}

/// Whether a process is new enough to be waited for still.
pub fn keep_waiting(elapsed_millis: u64, running: bool) -> (r: bool)
    ensures
        r == (running && elapsed_millis < WAIT_LIMIT),
{
    running && elapsed_millis < WAIT_LIMIT
}

/// Whether a file that was last changed at `modified` is new at `now`.
pub open spec fn recently_modified(modified: i64, now: i64) -> bool {
    modified > now - RECENT_MILLIS
}

/// Whether a file that was created at `created` is new at `now`: it was
/// created no later than `now`, and less than 30 whole seconds before.
pub open spec fn recently_created(created: i64, now: i64) -> bool {
    created <= now && (now - created) / 1000 < RECENT_MILLIS / 1000
}

/// The image files among the first `n` entries that are new by the time
/// of their last change.
pub open spec fn new_images_upto(entries: Seq<FileEntry>, now: i64, n: int) -> Seq<Seq<char>>
    decreases n,
{
    if n <= 0 {
        Seq::empty()
    } else {
        let rest = new_images_upto(entries, now, n - 1);
        if has_extension_in(entries[n - 1].path@, crate::supported_formats()) && recently_modified(
            entries[n - 1].modified,
            now,
        ) {
            rest.push(entries[n - 1].path@)
        } else {
            rest
        }
    }
}

/// The image files among the first `n` entries that are new by the time
/// of their creation.
pub open spec fn created_images_upto(entries: Seq<FileEntry>, now: i64, n: int) -> Seq<Seq<char>>
    decreases n,
{
    if n <= 0 {
        Seq::empty()
    } else {
        let rest = created_images_upto(entries, now, n - 1);
        let e = entries[n - 1];
        if e.is_file && has_extension_in(e.path@, crate::supported_formats()) && e.created is Some
            && recently_created(e.created.unwrap(), now) {
            rest.push(e.path@)
        } else {
            rest
        }
    }
}

/// The directories in which new screenshots are looked for: the desktop,
/// download and picture directories, where they are known, and the
/// working directory.
pub open spec fn base_dirs(
    desktop: Option<Seq<char>>,
    download: Option<Seq<char>>,
    picture: Option<Seq<char>>,
    working: Seq<char>,
) -> Seq<Seq<char>> {
    (match desktop {
        Some(d) => seq![d],
        None => Seq::empty(),
    }) + (match download {
        Some(d) => seq![d],
        None => Seq::empty(),
    }) + (match picture {
        Some(d) => seq![d],
        None => Seq::empty(),
    }) + seq![working]
}

/// The directories that are looked at under Wayland besides: those where
/// the compositor's tools put screenshots, and the list of user
/// directories.
pub open spec fn wayland_dirs(
    compositor: Option<Seq<char>>,
    picture: Option<Seq<char>>,
    home: Option<Seq<char>>,
    config: Option<Seq<char>>,
) -> Seq<Seq<char>> {
    (if (compositor == Some("gnome"@) || compositor == Some("kde"@)) && picture is Some {
        seq![joined(picture.unwrap(), "Screenshots"@)]
    } else if compositor == Some("sway"@) && home is Some {
        seq![joined(home.unwrap(), "Pictures"@), home.unwrap()]
    } else {
        Seq::empty()
    }) + (match config {
        Some(c) => seq![joined(c, "user-dirs.dirs"@)],
        None => Seq::empty(),
    })
}

/// The directory names that the caller found.
#[derive(Debug, Clone)]
pub struct KnownDirs {
    pub desktop: Option<String>,
    pub download: Option<String>,
    pub picture: Option<String>,
    pub home: Option<String>,
    pub config: Option<String>,
    /// The working directory, or `/tmp` where it is not known.
    pub working: String,
}

/// Asks for the directories of the current user.
pub fn known_dirs(working: Option<&str>) -> (r: KnownDirs)
    ensures
        r.working@ == (match working {
            Some(w) => w@,
            None => "/tmp"@,
        }),
{
    KnownDirs {
        desktop: crate::paths::desktop_dir(),
        download: crate::paths::download_dir(),
        picture: crate::paths::picture_dir(),
        home: crate::paths::home_dir(),
        config: crate::paths::config_dir(),
        working: match working {
            Some(w) => w.to_string(),
            None => "/tmp".to_string(),
        },
    }
}

/// Watches the processes of the system.
#[derive(Debug, Clone)]
pub struct TerminalInterceptor {
    config: Config,
    running: bool,
    process_monitors: Vec<ProcessMonitor>,
}

/// The names of the processes that are remembered.
pub open spec fn monitor_names(monitors: Seq<ProcessMonitor>) -> Seq<Seq<char>> {
    Seq::new(monitors.len(), |i: int| monitors[i].name@)
}

/// Whether no name is remembered twice.
pub open spec fn names_distinct(monitors: Seq<ProcessMonitor>) -> bool {
    forall|i: int, j: int|
        0 <= i < j < monitors.len() ==> (#[trigger] monitors[i]).name@ != (
        #[trigger] monitors[j]).name@
}

impl TerminalInterceptor {
    /// The processes that are remembered. No name is remembered twice.
    pub closed spec fn monitors(&self) -> Seq<ProcessMonitor> {
        self.process_monitors@
    }

    /// Whether the interceptor is well formed: no name is remembered twice.
    pub closed spec fn well_formed(&self) -> bool {
        names_distinct(self.process_monitors@)
    }

    /// Whether the interceptor is running.
    pub closed spec fn running(&self) -> bool {
        self.running
    }

    /// The configuration by which the interceptor works.
    pub closed spec fn config(&self) -> Config {
        self.config
    }

    /// An interceptor that remembers nothing and does not run yet.
    pub fn new(config: Config) -> (r: Self)
        ensures
            r.well_formed(),
            r.monitors().len() == 0,
            !r.running(),
            r.config() == config,
    {
        TerminalInterceptor { config, running: false, process_monitors: Vec::new() }
    }

    /// Begins a run. Where watching processes is switched off there is
    /// nothing to do; else the interceptor is running from now on and the
    /// pause between two looks, in milliseconds, is returned.
    pub fn run(&mut self) -> (r: Option<u64>)
        ensures
            final(self).monitors() == old(self).monitors(),
            final(self).config() == old(self).config(),
            final(self).well_formed() == old(self).well_formed(),
            match r {
                Some(interval) => old(self).config().intercept_methods.process_monitor && final(self).running() && interval == old(self).config().poll_interval,
                None => !old(self).config().intercept_methods.process_monitor && final(self).running() == old(self).running(),
            },
    {
        if !self.config.intercept_methods.process_monitor {
            return None;
        }
        self.running = true;
        Some(self.config.poll_interval)
    }

    /// Ends the run.
    pub fn stop(&mut self)
        ensures
            !final(self).running(),
            final(self).monitors() == old(self).monitors(),
            final(self).config() == old(self).config(),
            final(self).well_formed() == old(self).well_formed(),
    {
        self.running = false;
    }

    /// Whether the interceptor is running.
    pub fn is_running(&self) -> (r: bool)
        ensures
            r == self.running(),
    {
        self.running
    }

    /// How many processes are remembered.
    pub fn monitor_count(&self) -> (r: usize)
        ensures
            r == self.monitors().len(),
    {
        self.process_monitors.len()
    }

    /// Whether a process of this name is remembered.
    pub fn is_monitored(&self, name: &str) -> (r: bool)
        ensures
            r == monitor_names(self.monitors()).contains(name@),
    {
        self.find_monitor(name).is_some()
    }

    /// Where a process of this name is remembered.
    fn find_monitor(&self, name: &str) -> (r: Option<usize>)
        ensures
            match r {
                Some(i) => i < self.monitors().len() && self.monitors()[i as int].name@ == name@
                    && monitor_names(self.monitors()).contains(name@),
                None => !monitor_names(self.monitors()).contains(name@),
            },
    {
        let mut i: usize = 0;
        while i < self.process_monitors.len()
            invariant
                i <= self.process_monitors.len(),
                forall|j: int| 0 <= j < i ==> monitor_names(self.monitors())[j] != name@,
            decreases self.process_monitors.len() - i,
        {
            if str_eq(self.process_monitors[i].name.as_str(), name) {
                assert(monitor_names(self.monitors())[i as int] == name@);
                return Some(i);
            }
            i += 1;
        }
        None
    }

    /// Whether a look at the processes that failed with `error` ends the
    /// run: it does unless the error is recoverable.
    pub fn ends_run(&self, error: &Error) -> (r: bool)
        ensures
            r == !error.recoverable(),
    {
        !error.is_recoverable()
    }

    /// Whether a process of this name works on images.
    pub fn is_image_process(&self, name: &str) -> (r: bool)
        ensures
            r == names_any(name@, tools::image_process_names()),
    {
        let names = tools::image_process_name_list();
        let tools = rows_of_slices(names.as_slice());
        let chars = to_chars(name);
        name_holds_any(chars.as_slice(), tools.as_slice())
    }

    /// Whether a process of this name makes screenshots, given the
    /// screenshot tools that are installed.
    pub fn names_screenshot_tool(&self, name: &str, available: &[String]) -> (r: bool)
        ensures
            r == (names_any(name@, texts(available@)) || names_any(
                name@,
                screenshot_process_names(),
            )),
    {
        let chars = to_chars(name);
        let installed = rows_of(available);
        if name_holds_any(chars.as_slice(), installed.as_slice()) {
            return true;
        }
        let names = vec![
            "screencapture",
            "screenshot",
            "scrot",
            "gnome-screenshot",
            "spectacle",
            "flameshot",
            "grim",
            "slurp",
            "wayshot",
            "grimshot",
            "import",
            "xfce4-screenshooter",
        ];
        assert(slices(names@) =~= screenshot_process_names());
        let known = rows_of_slices(names.as_slice());
        name_holds_any(chars.as_slice(), known.as_slice())
    }

    /// Whether a process of this name makes screenshots. The screenshot
    /// tools that are installed are looked up now.
    pub fn is_screenshot_process(&self, name: &str, env: &Environment) -> (r: bool)
        ensures
            exists|available: Seq<Seq<char>>|
                r == (#[trigger] names_any(name@, available) || names_any(
                    name@,
                    screenshot_process_names(),
                )),
    {
        let available = self.config.get_available_screenshot_tools(env);
        self.names_screenshot_tool(name, available.as_slice())
    }

    /// Whether a process of this name is a screenshot tool for Wayland.
    pub fn is_wayland_screenshot_process(&self, name: &str) -> (r: bool)
        ensures
            r == names_any(name@, tools::wayland_screenshot_tools()),
    {
        let names = tools::wayland_screenshot_tool_names();
        let tools = rows_of(names.as_slice());
        let chars = to_chars(name);
        name_holds_any(chars.as_slice(), tools.as_slice())
    }

    /// The processes of the given name.
    pub fn get_processes_by_name(&self, processes: &[Process], name: &str) -> (r: Vec<Process>)
        ensures
            process_views(r@) == named_upto(
                process_views(processes@),
                name@,
                processes@.len() as int,
            ),
    {
        let mut r: Vec<Process> = Vec::new();
        let mut i: usize = 0;
        assert(process_views(r@) =~= Seq::<ProcessView>::empty());
        while i < processes.len()
            invariant
                i <= processes.len(),
                process_views(r@) == named_upto(process_views(processes@), name@, i as int),
            decreases processes.len() - i,
        {
            let ghost before = process_views(r@);
            let p = &processes[i];
            if str_eq(p.name.as_str(), name) {
                r.push(Process { pid: p.pid, name: p.name.clone(), command: p.command.clone() });
                assert(process_views(r@) =~= before.push(processes@[i as int]@));
            }
            i += 1;
        }
        r
    }

    /// Whether the process with the given identifier is there, judged by
    /// what signal 0 gave.
    pub fn is_process_running(&self, kill_result: i32, errno: i32) -> (r: Result<bool, Error>)
        ensures
            match r {
                Ok(b) => process_state(kill_result, errno) == Ok::<bool, Seq<char>>(b),
                Err(e) => e matches Error::Process(m) && process_state(kill_result, errno) == Err::<
                    bool,
                    Seq<char>,
                >(m@),
            },
    {
        match crate::service::check_process(kill_result, errno) {
            Ok(b) => Ok(b),
            Err(m) => Err(Error::Process(m)),
        }
    }

    /// How a process that works on images is followed up: not at all
    /// unless it makes screenshots, and then by its kind.
    pub open spec fn follow_up(name: Seq<char>, available: Seq<Seq<char>>) -> Option<
        ScreenshotKind,
    > {
        if names_any(name, available) || names_any(name, screenshot_process_names()) {
            if names_any(name, tools::wayland_screenshot_tools()) {
                Some(ScreenshotKind::Wayland)
            } else {
                Some(ScreenshotKind::Traditional)
            }
        } else {
            None
        }
    }

    /// Says how a screenshot process is followed up, given the screenshot
    /// tools that are installed.
    pub fn handle_screenshot_process(&self, process: &Process, available: &[String]) -> (r: Option<
        ScreenshotKind,
    >)
        ensures
            r == Self::follow_up(process.name@, texts(available@)),
    {
        if self.names_screenshot_tool(process.name.as_str(), available) {
            if self.is_wayland_screenshot_process(process.name.as_str()) {
                Some(ScreenshotKind::Wayland)
            } else {
                Some(ScreenshotKind::Traditional)
            }
        } else {
            None
        }
    }

    /// Remembers that a process that works on images was seen at `now`, in
    /// place of what was remembered under its name, and says how it is
    /// followed up.
    pub fn handle_image_process(&mut self, process: &Process, available: &[String], now: i64) -> (r:
        Option<ScreenshotKind>)
        requires
            old(self).well_formed(),
        ensures
            final(self).well_formed(),
            final(self).running() == old(self).running(),
            final(self).config() == old(self).config(),
            r == Self::follow_up(process.name@, texts(available@)),
            monitor_names(final(self).monitors()).contains(process.name@),
            forall|i: int|
                0 <= i < final(self).monitors().len() && (#[trigger] final(self).monitors()[i]).name@ == process.name@ ==> final(self).monitors()[i].pid == Some(
                    process.pid,
                ) && final(self).monitors()[i].last_seen == now,
            final(self).monitors().len() == (if monitor_names(old(self).monitors()).contains(
                process.name@,
            ) {
                old(self).monitors().len()
            } else {
                old(self).monitors().len() + 1
            }),
            forall|i: int|
                0 <= i < old(self).monitors().len() && (#[trigger] old(self).monitors()[i]).name@
                    != process.name@ ==> final(self).monitors()[i] == old(self).monitors()[i],
    {
        let r = self.handle_screenshot_process(process, available);
        let entry = ProcessMonitor {
            name: process.name.clone(),
            pid: Some(process.pid),
            last_seen: now,
        };
        match self.find_monitor(process.name.as_str()) {
            Some(i) => {
                self.process_monitors.set(i, entry);
                assert(monitor_names(self.monitors())[i as int] == process.name@);
            },
            None => {
                self.process_monitors.push(entry);
                assert(monitor_names(self.monitors())[self.monitors().len() - 1] == process.name@);
                assert forall|i: int, j: int|
                    0 <= i < j < self.process_monitors@.len() implies (
                #[trigger] self.process_monitors@[i]).name@ != (
                #[trigger] self.process_monitors@[j]).name@ by {
                    if j == self.process_monitors@.len() - 1 {
                        assert(monitor_names(old(self).monitors())[i] == old(self).process_monitors@[i].name@);
                    }
                }
            },
        }
        r
    }

    /// Whether a process that was last seen at `last_seen` is forgotten at
    /// `now`: it is once more than 300 whole seconds have passed.
    pub open spec fn is_stale(last_seen: i64, now: i64) -> bool {
        last_seen <= now && (now - last_seen) / 1000 > FORGET_AFTER_SECONDS
    }

    /// The monitors among the first `n` that are not stale.
    pub open spec fn fresh_upto(monitors: Seq<ProcessMonitor>, now: i64, n: int) -> Seq<
        ProcessMonitor,
    >
        decreases n,
    {
        if n <= 0 {
            Seq::empty()
        } else {
            let rest = Self::fresh_upto(monitors, now, n - 1);
            if Self::is_stale(monitors[n - 1].last_seen, now) {
                rest
            } else {
                rest.push(monitors[n - 1])
            }
        }
    }

    /// Forgets the processes that were not seen for more than five
    /// minutes.
    pub fn cleanup_old_monitors(&mut self, now: i64)
        requires
            old(self).well_formed(),
        ensures
            final(self).well_formed(),
            final(self).running() == old(self).running(),
            final(self).config() == old(self).config(),
            final(self).monitors() == Self::fresh_upto(
                old(self).monitors(),
                now,
                old(self).monitors().len() as int,
            ),
    {
        let mut kept: Vec<ProcessMonitor> = Vec::new();
        let mut i: usize = 0;
        let ghost all = self.process_monitors@;
        while i < self.process_monitors.len()
            invariant
                i <= self.process_monitors.len(),
                self.process_monitors@ == all,
                self.running == old(self).running,
                self.config == old(self).config,
                names_distinct(all),
                kept@ == Self::fresh_upto(all, now, i as int),
                forall|k: int|
                    0 <= k < kept@.len() ==> exists|j: int|
                        0 <= j < i && #[trigger] all[j] == #[trigger] kept@[k],
                forall|k: int, l: int|
                    0 <= k < l < kept@.len() ==> (#[trigger] kept@[k]).name@ != (
                    #[trigger] kept@[l]).name@,
            decreases self.process_monitors.len() - i,
        {
            let m = &self.process_monitors[i];
            let stale = m.last_seen <= now && (now as i128 - m.last_seen as i128) / 1000
                > FORGET_AFTER_SECONDS as i128;
            if !stale {
                let ghost before = kept@;
                let copy = ProcessMonitor { name: m.name.clone(), pid: m.pid, last_seen: m.last_seen };
                assert(copy == all[i as int]);
                kept.push(copy);
                assert forall|k: int, l: int| 0 <= k < l < kept@.len() implies (
                #[trigger] kept@[k]).name@ != (#[trigger] kept@[l]).name@ by {
                    if l == kept@.len() - 1 {
                        let j = choose|j: int| 0 <= j < i && #[trigger] all[j] == before[k];
                        assert(all[j].name@ != all[i as int].name@);
                    }
                }
            }
            i += 1;
        }
        self.process_monitors = kept;
    }

    /// The tools whose processes are looked for under a display server,
    /// with the name under which what they leave behind is filed.
    pub fn monitor_display_server_tools(&self, server: DisplayServer) -> (r: Vec<(String, String)>)
        ensures
            r@.len() == tools::screenshot_candidates(server).len(),
            forall|i: int|
                0 <= i < r@.len() ==> (#[trigger] r@[i]).0@ == tools::screenshot_candidates(
                    server,
                )[i] && r@[i].1@ == (if server == DisplayServer::X11 || (server
                    == DisplayServer::Unknown && i >= tools::wayland_screenshot_tools().len()) {
                    "x11-screenshot"@
                } else {
                    "wayland-screenshot"@
                }),
    {
        let mut r: Vec<(String, String)> = Vec::new();
        let wayland = match server {
            DisplayServer::X11 => Vec::new(),
            _ => tools::wayland_screenshot_tool_names(),
        };
        let x11 = match server {
            DisplayServer::Wayland => Vec::new(),
            _ => tools::x11_screenshot_tool_names(),
        };
        let mut i: usize = 0;
        while i < wayland.len()
            invariant
                i <= wayland.len(),
                r@.len() == i,
                forall|j: int|
                    0 <= j < i ==> (#[trigger] r@[j]).0@ == wayland@[j]@ && r@[j].1@
                        == "wayland-screenshot"@,
            decreases wayland.len() - i,
        {
            r.push((wayland[i].clone(), "wayland-screenshot".to_string()));
            i += 1;
        }
        let mut k: usize = 0;
        while k < x11.len()
            invariant
                k <= x11.len(),
                r@.len() == wayland@.len() + k,
                forall|j: int|
                    0 <= j < wayland@.len() ==> (#[trigger] r@[j]).0@ == wayland@[j]@ && r@[j].1@
                        == "wayland-screenshot"@,
                forall|j: int|
                    0 <= j < k ==> (#[trigger] r@[wayland@.len() + j]).0@ == x11@[j]@ && r@[wayland@.len()
                        + j].1@ == "x11-screenshot"@,
            decreases x11.len() - k,
        {
            r.push((x11[k].clone(), "x11-screenshot".to_string()));
            k += 1;
        }
        proof {
            reveal_strlit("x11-screenshot");
            reveal_strlit("wayland-screenshot");
            assert forall|i: int| 0 <= i < r@.len() implies (#[trigger] r@[i]).0@
                == tools::screenshot_candidates(server)[i] && r@[i].1@ == (if server
                == DisplayServer::X11 || (server == DisplayServer::Unknown && i
                >= tools::wayland_screenshot_tools().len()) {
                "x11-screenshot"@
            } else {
                "wayland-screenshot"@
            }) by {
                if i < wayland@.len() {
                    assert(crate::text::texts(wayland@)[i] == wayland@[i]@);
                } else {
                    let j = i - wayland@.len();
                    assert(r@[wayland@.len() + j].0@ == x11@[j]@);
                    assert(crate::text::texts(x11@)[j] == x11@[j]@);
                }
            }
        }
        r
    }

    /// The image files among `entries` that were changed in the last 30
    /// seconds.
    pub fn scan_directory_for_new_images(&self, entries: &[FileEntry], now: i64) -> (r: Vec<String>)
        ensures
            texts(r@) == new_images_upto(entries@, now, entries@.len() as int),
    {
        let mut r: Vec<String> = Vec::new();
        let mut i: usize = 0;
        assert(texts(r@) =~= Seq::<Seq<char>>::empty());
        while i < entries.len()
            invariant
                i <= entries.len(),
                texts(r@) == new_images_upto(entries@, now, i as int),
            decreases entries.len() - i,
        {
            let ghost before = texts(r@);
            let e = &entries[i];
            if crate::is_image_file(e.path.as_str()) && (e.modified as i128) > now as i128
                - RECENT_MILLIS as i128 {
                r.push(e.path.clone());
                assert(texts(r@) =~= before.push(e.path@));
            }
            i += 1;
        }
        r
    }

    /// The image files among `entries` that were created in the last 30
    /// seconds.
    pub fn scan_directory_for_images(&self, entries: &[FileEntry], now: i64) -> (r: Vec<String>)
        ensures
            texts(r@) == created_images_upto(entries@, now, entries@.len() as int),
    {
        let mut r: Vec<String> = Vec::new();
        let mut i: usize = 0;
        assert(texts(r@) =~= Seq::<Seq<char>>::empty());
        while i < entries.len()
            invariant
                i <= entries.len(),
                texts(r@) == created_images_upto(entries@, now, i as int),
            decreases entries.len() - i,
        {
            let ghost before = texts(r@);
            let e = &entries[i];
            let recent = match e.created {
                Some(created) => created <= now && (now as i128 - created as i128) / 1000 < (
                RECENT_MILLIS / 1000) as i128,
                None => false,
            };
            if e.is_file && crate::is_image_file(e.path.as_str()) && recent {
                r.push(e.path.clone());
                assert(texts(r@) =~= before.push(e.path@));
            }
            i += 1;
        }
        r
    }

    /// The directories that are looked at under Wayland besides the usual
    /// ones.
    pub fn add_wayland_screenshot_dirs(
        &self,
        dirs: &mut Vec<String>,
        compositor: &Option<String>,
        known: &KnownDirs,
    )
        ensures
            texts(final(dirs)@) == texts(old(dirs)@) + wayland_dirs(
                crate::opt_text(*compositor),
                crate::opt_text(known.picture),
                crate::opt_text(known.home),
                crate::opt_text(known.config),
            ),
    {
        proof {
            reveal_strlit("gnome");
            reveal_strlit("kde");
            reveal_strlit("sway");
            // The three names differ in length, so no two of them are equal.
            assert("gnome"@.len() == 5 && "kde"@.len() == 3 && "sway"@.len() == 4);
        }
        let ghost first = wayland_dirs(
            crate::opt_text(*compositor),
            crate::opt_text(known.picture),
            crate::opt_text(known.home),
            None,
        );
        if let Some(c) = compositor {
            if str_eq(c.as_str(), "gnome") || str_eq(c.as_str(), "kde") {
                if let Some(pictures) = &known.picture {
                    let d = crate::paths::join(pictures.as_str(), "Screenshots");
                    crate::image_preview::push_text(dirs, d.as_str());
                }
            } else if str_eq(c.as_str(), "sway") {
                if let Some(home) = &known.home {
                    let d = crate::paths::join(home.as_str(), "Pictures");
                    crate::image_preview::push_text(dirs, d.as_str());
                    crate::image_preview::push_text(dirs, home.as_str());
                }
            }
        }
        assert(texts(dirs@) =~= texts(old(dirs)@) + first);
        if let Some(config) = &known.config {
            let d = crate::paths::join(config.as_str(), "user-dirs.dirs");
            crate::image_preview::push_text(dirs, d.as_str());
        }
        assert(texts(dirs@) =~= texts(old(dirs)@) + wayland_dirs(
            crate::opt_text(*compositor),
            crate::opt_text(known.picture),
            crate::opt_text(known.home),
            crate::opt_text(known.config),
        ));
    }

    /// The directories in which new screenshots are looked for, given the
    /// directories that are known, the display server and the compositor.
    pub fn scan_dirs(&self, known: &KnownDirs, wayland: bool, compositor: &Option<String>) -> (r:
        Vec<String>)
        ensures
            texts(r@) == base_dirs(
                crate::opt_text(known.desktop),
                crate::opt_text(known.download),
                crate::opt_text(known.picture),
                known.working@,
            ) + (if wayland {
                wayland_dirs(
                    crate::opt_text(*compositor),
                    crate::opt_text(known.picture),
                    crate::opt_text(known.home),
                    crate::opt_text(known.config),
                )
            } else {
                Seq::empty()
            }),
    {
        let mut dirs: Vec<String> = Vec::new();
        if let Some(d) = &known.desktop {
            crate::image_preview::push_text(&mut dirs, d.as_str());
        }
        if let Some(d) = &known.download {
            crate::image_preview::push_text(&mut dirs, d.as_str());
        }
        if let Some(d) = &known.picture {
            crate::image_preview::push_text(&mut dirs, d.as_str());
        }
        crate::image_preview::push_text(&mut dirs, known.working.as_str());
        assert(texts(dirs@) =~= base_dirs(
            crate::opt_text(known.desktop),
            crate::opt_text(known.download),
            crate::opt_text(known.picture),
            known.working@,
        ));
        if wayland {
            self.add_wayland_screenshot_dirs(&mut dirs, compositor, known);
        } else {
            assert(texts(dirs@) + Seq::<Seq<char>>::empty() =~= texts(dirs@));
        }
        dirs
    }

    /// The Wayland compositor to work with.
    pub open spec fn compositor_in(config: Config, env: Environment) -> Option<Seq<char>> {
        if config.display_server.wayland_compositor is Some {
            crate::opt_text(config.display_server.wayland_compositor)
        } else {
            crate::wayland_compositor_of(env)
        }
    }

    /// The directories in which new screenshots are looked for, given the
    /// directories that are known.
    pub open spec fn dirs_to_scan(config: Config, env: Environment, known: KnownDirs) -> Seq<
        Seq<char>,
    > {
        base_dirs(
            crate::opt_text(known.desktop),
            crate::opt_text(known.download),
            crate::opt_text(known.picture),
            known.working@,
        ) + (if config.display_server_in(env) == DisplayServer::Wayland {
            wayland_dirs(
                Self::compositor_in(config, env),
                crate::opt_text(known.picture),
                crate::opt_text(known.home),
                crate::opt_text(known.config),
            )
        } else {
            Seq::empty()
        })
    }

    /// The directories in which new screenshots are looked for now. The
    /// directories of the current user are looked up now; where no working
    /// directory is given, `/tmp` stands for it.
    pub fn scan_for_new_images(&self, env: &Environment, working: Option<&str>) -> (r: Vec<String>)
        ensures
            exists|known: KnownDirs|
                known.working@ == (match working {
                    Some(w) => w@,
                    None => "/tmp"@,
                }) && texts(r@) == #[trigger] Self::dirs_to_scan(self.config(), *env, known),
    {
        let known = known_dirs(working);
        let wayland = match self.config.get_display_server(env) {
            DisplayServer::Wayland => true,
            _ => false,
        };
        let compositor = self.config.get_wayland_compositor(env);
        let r = self.scan_dirs(&known, wayland, &compositor);
        assert(texts(r@) == Self::dirs_to_scan(self.config(), *env, known));
        r
    }
}

/// The processes of the given name among the first `n`.
pub open spec fn named_upto(all: Seq<ProcessView>, name: Seq<char>, n: int) -> Seq<ProcessView>
    decreases n,
{
    if n <= 0 {
        Seq::empty()
    } else {
        let rest = named_upto(all, name, n - 1);
        if all[n - 1].name == name {
            rest.push(all[n - 1])
        } else {
            rest
        }
    }
}

} // verus!
