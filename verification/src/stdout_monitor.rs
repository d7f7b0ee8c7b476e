//! Image references in the output of a command, and under the cursor.
//!
//! The caller reads the lines of a stream and hands them over one by one.
//! For each line the monitor says what to write to the terminal, which is
//! the line as it came, and which image files the line refers to.

use crate::config::Config;
use crate::error::Error;
use crate::image_preview::ImagePreviewManager;
use crate::paths::expand_with;
use crate::paths::expanded;
use crate::paths::file_name;
use crate::paths::has_extension_in;
use crate::paths::path_extension;
use crate::paths::path_file_name;
use crate::patterns::captured;
use crate::patterns::captures;
use crate::text::from_chars;
use crate::text::list_contains;
use crate::text::push_chars;
use crate::text::push_str;
use crate::text::slice_chars;
use crate::text::slices;
use crate::text::str_eq;
use crate::text::texts;
use crate::text::to_chars;
use crate::text::to_lower;
use vstd::prelude::*;

verus! {

/// How a full-screen application wants images shown.
#[derive(Debug, Clone, Copy, PartialEq, Eq, Structural)]
pub enum TuiPreviewMethod {
    /// Inline, in the application's own output.
    Inline,
    /// In a separate pane or window.
    SeparatePane,
    /// As a floating overlay.
    Overlay,
    /// In an external viewer.
    External,
    /// Not at all: detections are only logged.
    Silent,
}

/// What is known about a full-screen terminal application.
#[derive(Debug, Clone)]
pub struct TuiConfig {
    pub name: String,
    pub supports_images: bool,
    pub preview_method: TuiPreviewMethod,
    pub escape_sequences: Vec<String>,
}

/// Where a detected image was found.
#[derive(Debug, Clone, Copy, PartialEq, Eq, Structural)]
pub enum ImageSource {
    FilePath,
    Url,
    Base64Data,
    StdinPipe,
    ClipboardPayload,
}

/// An image that some text refers to.
#[derive(Debug, Clone)]
pub struct DetectedImage {
    /// Where the image lies in the file system.
    pub path: String,
    pub source: ImageSource,
    /// The line of text that referred to the image.
    pub context: String,
    /// The number of that line in its stream, counted from 1.
    pub line_number: usize,
}

/// The view of a [`DetectedImage`].
pub struct DetectedView {
    pub path: Seq<char>,
    pub source: ImageSource,
    pub context: Seq<char>,
    pub line_number: nat,
}

impl View for DetectedImage {
    type V = DetectedView;

    open spec fn view(&self) -> DetectedView {
        DetectedView {
            path: self.path@,
            source: self.source,
            context: self.context@,
            line_number: self.line_number as nat,
        }
    }
}

/// The views of a list of detected images.
pub open spec fn detected_views(v: Seq<DetectedImage>) -> Seq<DetectedView> {
    Seq::new(v.len(), |i: int| v[i]@)
}

/// The profile of the application that a binary name stands for: its
/// display name, whether it can show images itself, and how it wants them
/// shown.
pub open spec fn tui_profile_of(binary: Seq<char>) -> Option<(Seq<char>, bool, TuiPreviewMethod)> {
    if binary == "vim"@ {
        Some(("Vim"@, false, TuiPreviewMethod::External))
    } else if binary == "nvim"@ {
        Some(("Neovim"@, true, TuiPreviewMethod::Overlay))
    } else if binary == "ranger"@ {
        Some(("Ranger"@, true, TuiPreviewMethod::SeparatePane))
    } else if binary == "lf"@ {
        Some(("LF"@, true, TuiPreviewMethod::SeparatePane))
    } else if binary == "nnn"@ {
        Some(("NNN"@, true, TuiPreviewMethod::External))
    } else if binary == "w3m"@ {
        Some(("w3m"@, true, TuiPreviewMethod::Inline))
    } else if binary == "lynx"@ {
        Some(("Lynx"@, false, TuiPreviewMethod::External))
    } else if binary == "tmux"@ {
        Some(("Tmux"@, true, TuiPreviewMethod::SeparatePane))
    } else if binary == "screen"@ {
        Some(("Screen"@, false, TuiPreviewMethod::External))
    } else if binary == "tig"@ {
        Some(("Tig"@, false, TuiPreviewMethod::External))
    } else if binary == "gitui"@ {
        Some(("GitUI"@, false, TuiPreviewMethod::External))
    } else if binary == "htop"@ {
        Some(("htop"@, false, TuiPreviewMethod::Silent))
    } else if binary == "btop"@ {
        Some(("btop"@, false, TuiPreviewMethod::Silent))
    } else {
        None
    }
}

/// Whether `tui` is the profile `profile`, with no escape sequences listed.
pub open spec fn is_profile(tui: TuiConfig, profile: (Seq<char>, bool, TuiPreviewMethod)) -> bool {
    &&& tui.name@ == profile.0
    &&& tui.supports_images == profile.1
    &&& tui.preview_method == profile.2
    &&& tui.escape_sequences@.len() == 0
}

/// A profile with no escape sequences listed.
fn profile(name: &str, supports_images: bool, preview_method: TuiPreviewMethod) -> (r: Option<
    TuiConfig,
>)
    ensures
        r is Some,
        is_profile(r.unwrap(), (name@, supports_images, preview_method)),
{
    Some(
        TuiConfig {
            name: name.to_string(),
            supports_images,
            preview_method,
            escape_sequences: Vec::new(),
        },
    )
}

/// Looks up the profile of the application that a binary name stands for.
pub fn tui_profile(binary: &str) -> (r: Option<TuiConfig>)
    ensures
        match r {
            Some(tui) => tui_profile_of(binary@) is Some && is_profile(
                tui,
                tui_profile_of(binary@).unwrap(),
            ),
            None => tui_profile_of(binary@) is None,
        },
{
    if str_eq(binary, "vim") {
        profile("Vim", false, TuiPreviewMethod::External)
    } else if str_eq(binary, "nvim") {
        profile("Neovim", true, TuiPreviewMethod::Overlay)
    } else if str_eq(binary, "ranger") {
        profile("Ranger", true, TuiPreviewMethod::SeparatePane)
    } else if str_eq(binary, "lf") {
        profile("LF", true, TuiPreviewMethod::SeparatePane)
    } else if str_eq(binary, "nnn") {
        profile("NNN", true, TuiPreviewMethod::External)
    } else if str_eq(binary, "w3m") {
        profile("w3m", true, TuiPreviewMethod::Inline)
    } else if str_eq(binary, "lynx") {
        profile("Lynx", false, TuiPreviewMethod::External)
    } else if str_eq(binary, "tmux") {
        profile("Tmux", true, TuiPreviewMethod::SeparatePane)
    } else if str_eq(binary, "screen") {
        profile("Screen", false, TuiPreviewMethod::External)
    } else if str_eq(binary, "tig") {
        profile("Tig", false, TuiPreviewMethod::External)
    } else if str_eq(binary, "gitui") {
        profile("GitUI", false, TuiPreviewMethod::External)
    } else if str_eq(binary, "htop") {
        profile("htop", false, TuiPreviewMethod::Silent)
    } else if str_eq(binary, "btop") {
        profile("btop", false, TuiPreviewMethod::Silent)
    } else {
        None
    }
}

/// What to do about an image detected in the output of a command.
#[derive(Debug, Clone)]
pub enum PreviewAction {
    /// Draw the image within the given bounds.
    Preview { max_width: u32, max_height: u32 },
    /// Write a compact description after the mark `📷 `.
    Compact,
    /// Write this line.
    Announce(String),
    /// Write nothing; note the detection in the log.
    LogOnly,
}

/// The view of a [`PreviewAction`].
pub enum ActionView {
    Preview { max_width: u32, max_height: u32 },
    Compact,
    Announce(Seq<char>),
    LogOnly,
}

impl View for PreviewAction {
    type V = ActionView;

    open spec fn view(&self) -> ActionView {
        match self {
            PreviewAction::Preview { max_width, max_height } => ActionView::Preview {
                max_width: *max_width,
                max_height: *max_height,
            },
            PreviewAction::Compact => ActionView::Compact,
            PreviewAction::Announce(line) => ActionView::Announce(line@),
            PreviewAction::LogOnly => ActionView::LogOnly,
        }
    }
}

/// What to do about an image at `path`, detected in the output of a
/// command that runs under the profile `tui`, or under none.
pub open spec fn action_for(
    tui: Option<(bool, TuiPreviewMethod)>,
    path: Seq<char>,
) -> ActionView {
    match tui {
        None => ActionView::Preview { max_width: 40, max_height: 20 },
        Some((supports_images, TuiPreviewMethod::Inline)) => if supports_images {
            ActionView::Preview { max_width: 60, max_height: 30 }
        } else {
            ActionView::Compact
        },
        Some((_, TuiPreviewMethod::SeparatePane)) => ActionView::Announce(
            "🖼️  Image detected: "@ + path,
        ),
        Some((_, TuiPreviewMethod::Overlay)) => ActionView::Preview {
            max_width: 80,
            max_height: 40,
        },
        Some((_, TuiPreviewMethod::External)) => ActionView::Announce(
            "🖼️  Image detected: "@ + path + " (use external viewer)"@,
        ),
        Some((_, TuiPreviewMethod::Silent)) => ActionView::LogOnly,
    }
}

/// The part of a profile that decides how detections are shown.
pub open spec fn dispatch_of(tui: Option<TuiConfig>) -> Option<(bool, TuiPreviewMethod)> {
    match tui {
        Some(t) => Some((t.supports_images, t.preview_method)),
        None => None,
    }
}

/// Decides what to do about a detected image.
pub fn preview_action(detected: &DetectedImage, tui: &Option<TuiConfig>) -> (r: PreviewAction)
    ensures
        r@ == action_for(dispatch_of(*tui), detected.path@),
{
    match tui {
        None => PreviewAction::Preview { max_width: 40, max_height: 20 },
        Some(t) => match t.preview_method {
            TuiPreviewMethod::Inline => {
                if t.supports_images {
                    PreviewAction::Preview { max_width: 60, max_height: 30 }
                } else {
                    PreviewAction::Compact
                }
            },
            TuiPreviewMethod::SeparatePane => {
                let mut out: Vec<char> = Vec::new();
                push_str(&mut out, "🖼️  Image detected: ");
                push_str(&mut out, detected.path.as_str());
                assert(out@ =~= "🖼️  Image detected: "@ + detected.path@);
                PreviewAction::Announce(from_chars(out.as_slice()))
            },
            TuiPreviewMethod::Overlay => PreviewAction::Preview { max_width: 80, max_height: 40 },
            TuiPreviewMethod::External => {
                let mut out: Vec<char> = Vec::new();
                push_str(&mut out, "🖼️  Image detected: ");
                push_str(&mut out, detected.path.as_str());
                push_str(&mut out, " (use external viewer)");
                assert(out@ =~= "🖼️  Image detected: "@ + detected.path@
                    + " (use external viewer)"@);
                PreviewAction::Announce(from_chars(out.as_slice()))
            },
            TuiPreviewMethod::Silent => PreviewAction::LogOnly,
        },
    }
}

/// A path token: after the start of the line, white space or a quote, it
/// begins with `~`, `/`, `.`, a drive letter or `\\`, holds no quote or
/// white space, ends in an image extension in any case, and is followed by
/// a quote, white space or the end of the line. Group 1 is the path.
pub const IMAGE_PATH_PATTERN: &'static str =
    r#"(?:^|\s|["'])((?:[~/.]|[A-Za-z]:|\\\\)[^"'\s]*\.(?i:png|jpe?g|gif|bmp|webp|svg|tiff?|ico))(?:["']|\s|$)"#;

/// An `http` or `https` URL whose path ends in an image extension, with an
/// optional query string, followed by a quote, white space or the end of
/// the line, which the match takes in.
pub const URL_PATTERN: &'static str =
    r#"https?://[^\s"']+\.(?i:png|jpe?g|gif|bmp|webp|svg|tiff?|ico)(?:\?[^\s"']*)?(?:["']|\s|$)"#;

/// A base64 image data URI. Group 1 is the payload.
pub const BASE64_PATTERN: &'static str =
    r"data:image/(?:png|jpe?g|gif|bmp|webp|svg\+xml);base64,([A-Za-z0-9+/=]+)";

/// The escape sequences that are taken out of a line before it is scanned:
/// colours and line clearing, operating system commands, cursor movement.
pub const ESCAPE_SEQUENCE_PATTERN: &'static str =
    r"\x1b\[[0-9;]*[mK]|\x1b\].*?\x07|\x1b\[.*?[HJf]";

/// The extensions by which the monitor takes a path for an image.
pub open spec fn image_extensions() -> Seq<Seq<char>> {
    seq!["png"@, "jpg"@, "jpeg"@, "gif"@, "bmp"@, "webp"@, "svg"@, "tiff"@, "tif"@, "ico"@]
}

/// Whether a path has one of the [`image_extensions`], in any case.
pub fn is_image_path(path: &[char]) -> (r: bool)
    ensures
        r == has_extension_in(path@, image_extensions()),
{
    match path_extension(path) {
        Some(ext) => {
            let lowered = to_lower(ext.as_slice());
            let names = vec!["png", "jpg", "jpeg", "gif", "bmp", "webp", "svg", "tiff", "tif", "ico"];
            assert(slices(names@) =~= image_extensions());
            list_contains(names.as_slice(), lowered.as_slice())
        },
        None => false,
    }
}

/// The view of an optional string slice.
pub open spec fn opt_str(o: Option<&str>) -> Option<Seq<char>> {
    match o {
        Some(s) => Some(s@),
        None => None,
    }
}

/// Each path with a leading `~` replaced by the home directory.
pub open spec fn expand_all(paths: Seq<Seq<char>>, home: Option<Seq<char>>) -> Seq<Seq<char>> {
    Seq::new(paths.len(), |i: int| expanded(paths[i], home))
}

/// The detection that a path stands for.
pub open spec fn detection(path: Seq<char>, line: Seq<char>, line_number: nat) -> DetectedView {
    DetectedView { path, source: ImageSource::FilePath, context: line, line_number }
}

/// The detections among the first `n` paths: one for each path that is
/// present in the file system and has an image extension.
pub open spec fn selected_upto(
    paths: Seq<Seq<char>>,
    present: Seq<bool>,
    line: Seq<char>,
    line_number: nat,
    n: int,
) -> Seq<DetectedView>
    decreases n,
{
    if n <= 0 {
        Seq::empty()
    } else {
        let rest = selected_upto(paths, present, line, line_number, n - 1);
        if n - 1 < present.len() && present[n - 1] && has_extension_in(
            paths[n - 1],
            image_extensions(),
        ) {
            rest.push(detection(paths[n - 1], line, line_number))
        } else {
            rest
        }
    }
}

/// The detections among `paths`, in order. A path without a mark counts
/// as not present.
pub open spec fn selected(
    paths: Seq<Seq<char>>,
    present: Seq<bool>,
    line: Seq<char>,
    line_number: nat,
) -> Seq<DetectedView> {
    selected_upto(paths, present, line, line_number, paths.len() as int)
}

/// Replaces a leading `~` in each path by `home`.
pub fn expand_paths(paths: &[String], home: Option<&str>) -> (r: Vec<String>)
    ensures
        texts(r@) == expand_all(texts(paths@), opt_str(home)),
{
    let mut r: Vec<String> = Vec::new();
    let mut i: usize = 0;
    while i < paths.len()
        invariant
            i <= paths.len(),
            r@.len() == i,
            forall|j: int| 0 <= j < i ==> r@[j]@ == expanded(paths@[j]@, opt_str(home)),
        decreases paths.len() - i,
    {
        let chars = to_chars(paths[i].as_str());
        let e = expand_with(chars.as_slice(), home);
        r.push(from_chars(e.as_slice()));
        i += 1;
    }
    assert(texts(r@) =~= expand_all(texts(paths@), opt_str(home)));
    r
}

/// Asks for each path whether something is there now.
pub fn probe_paths(paths: &[String]) -> (present: Vec<bool>)
    ensures
        present@.len() == paths@.len(),
{
    let mut present: Vec<bool> = Vec::new();
    let mut i: usize = 0;
    while i < paths.len()
        invariant
            i <= paths.len(),
            present@.len() == i,
        decreases paths.len() - i,
    {
        present.push(crate::paths::path_exists(paths[i].as_str()));
        i += 1;
    }
    present
}

/// Makes a detection of each path that is marked present and has an image
/// extension.
pub fn select_detections(paths: &[String], present: &[bool], line: &str, line_number: usize) -> (r:
    Vec<DetectedImage>)
    ensures
        detected_views(r@) == selected(texts(paths@), present@, line@, line_number as nat),
{
    let mut r: Vec<DetectedImage> = Vec::new();
    let mut i: usize = 0;
    while i < paths.len()
        invariant
            i <= paths.len(),
            detected_views(r@) == selected_upto(
                texts(paths@),
                present@,
                line@,
                line_number as nat,
                i as int,
            ),
        decreases paths.len() - i,
    {
        let ghost before = detected_views(r@);
        let chars = to_chars(paths[i].as_str());
        if i < present.len() && present[i] && is_image_path(chars.as_slice()) {
            r.push(
                DetectedImage {
                    path: paths[i].clone(),
                    source: ImageSource::FilePath,
                    context: line.to_string(),
                    line_number,
                },
            );
            assert(detected_views(r@) =~= before.push(
                detection(texts(paths@)[i as int], line@, line_number as nat),
            ));
        }
        i += 1;
    }
    r
}

/// The index just after the last character of `s`, before `end`, that is
/// none of `"`, `'`, space, line feed and carriage return.
pub open spec fn url_end(s: Seq<char>, end: int) -> int
    decreases end,
{
    if end <= 0 || end > s.len() || !is_url_trailer(s[end - 1]) {
        end
    } else {
        url_end(s, end - 1)
    }
}

/// Whether `c` may trail a URL in a match without belonging to it.
pub open spec fn is_url_trailer(c: char) -> bool {
    c == '"' || c == '\'' || c == ' ' || c == '\n' || c == '\r'
}

/// A matched URL without what trails it.
pub open spec fn url_of_match(matched: Seq<char>) -> Seq<char> {
    matched.take(url_end(matched, matched.len() as int))
}

/// Takes what trails a URL off a match.
pub fn trim_url(matched: &str) -> (r: String)
    ensures
        r@ == url_of_match(matched@),
{
    let chars = to_chars(matched);
    let mut end: usize = chars.len();
    while end > 0 && (chars[end - 1] == '"' || chars[end - 1] == '\'' || chars[end - 1] == ' '
        || chars[end - 1] == '\n' || chars[end - 1] == '\r')
        invariant
            end <= chars.len(),
            url_end(chars@, chars@.len() as int) == url_end(chars@, end as int),
        decreases end,
    {
        end -= 1;
    }
    let r = slice_chars(chars.as_slice(), 0, end);
    assert(r@ =~= chars@.take(end as int));
    from_chars(r.as_slice())
}

/// The URLs of images in a line.
pub open spec fn urls_in(line: Seq<char>) -> Seq<Seq<char>> {
    let found = captured(URL_PATTERN@, 0, line);
    Seq::new(found.len(), |i: int| url_of_match(found[i]))
}

/// What was found in one line.
#[derive(Debug, Clone)]
pub struct ScanReport {
    /// The image files that the line refers to and that exist.
    pub images: Vec<DetectedImage>,
    /// The image URLs in the line. They are located, not fetched.
    pub urls: Vec<String>,
    /// The payloads of the base64 image data URIs in the line. They are
    /// located, not decoded.
    pub payloads: Vec<String>,
}

/// Watches the output of a command for references to images.
#[derive(Debug, Clone)]
pub struct StdoutMonitor {
    config: Config,
    preview_manager: ImagePreviewManager,
}

/// The position in a stream, and the text last seen in it.
#[derive(Debug, Clone)]
pub struct StreamState {
    line_number: usize,
    buffer: Vec<char>,
}

/// How many characters the rolling buffer may hold before it is cut.
pub const BUFFER_LIMIT: usize = 4096;

/// How many characters the rolling buffer holds after a cut.
pub const BUFFER_KEEP: usize = 2048;

/// The rolling buffer after a line was added: the line and a line feed
/// follow what was there, and of a buffer that has grown past the limit
/// only the end is kept.
pub open spec fn rolled(buffer: Seq<char>, line: Seq<char>) -> Seq<char> {
    let grown = buffer + line + seq!['\n'];
    if grown.len() > BUFFER_LIMIT {
        grown.skip(grown.len() - BUFFER_KEEP)
    } else {
        grown
    }
}

/// The rolling buffer never grows past its limit, however long the lines.
pub proof fn lemma_rolled_is_bounded(buffer: Seq<char>, line: Seq<char>)
    ensures
        rolled(buffer, line).len() <= BUFFER_LIMIT,
        rolled(buffer, line).len() > 0,
{
}

/// What the rolling buffer holds is the end of what was handed over: the
/// buffer before, the line and a line feed end with it.
pub proof fn lemma_rolled_is_suffix(buffer: Seq<char>, line: Seq<char>)
    ensures
        crate::text::ends_with(buffer + line + seq!['\n'], rolled(buffer, line)),
{
    let grown = buffer + line + seq!['\n'];
    let kept = rolled(buffer, line);
    assert(grown.subrange(grown.len() - kept.len(), grown.len() as int) =~= kept);
}

impl StreamState {
    /// How many lines were handed over.
    pub closed spec fn lines_seen(&self) -> nat {
        self.line_number as nat
    }

    /// The text last seen.
    pub closed spec fn context(&self) -> Seq<char> {
        self.buffer@
    }

    /// The state before the first line.
    pub fn new() -> (r: Self)
        ensures
            r.lines_seen() == 0,
            r.context() == Seq::<char>::empty(),
    {
        StreamState { line_number: 0, buffer: Vec::new() }
    }

    /// How many lines were handed over.
    pub fn line_number(&self) -> (r: usize)
        ensures
            r == self.lines_seen(),
    {
        self.line_number
    }

    /// The text last seen, at most [`BUFFER_LIMIT`] characters of it.
    pub fn buffer(&self) -> (r: String)
        ensures
            r@ == self.context(),
    {
        from_chars(self.buffer.as_slice())
    }

    /// Counts a line and adds it to the rolling buffer.
    pub fn advance(&mut self, line: &str)
        ensures
            final(self).lines_seen() == (if old(self).lines_seen() < usize::MAX {
                old(self).lines_seen() + 1
            } else {
                old(self).lines_seen()
            }),
            final(self).context() == rolled(old(self).context(), line@),
            final(self).context().len() <= BUFFER_LIMIT,
    {
        if self.line_number < usize::MAX {
            self.line_number = self.line_number + 1;
        }
        push_str(&mut self.buffer, line);
        self.buffer.push('\n');
        if self.buffer.len() > BUFFER_LIMIT {
            let start = self.buffer.len() - BUFFER_KEEP;
            let kept = slice_chars(self.buffer.as_slice(), start, self.buffer.len());
            assert(kept@ =~= self.buffer@.skip(start as int));
            self.buffer = kept;
        }
    }
}

/// What one line of a stream gives.
#[derive(Debug, Clone)]
pub struct LineOutput {
    /// What to write to the terminal: the line as it came, and a line end.
    pub echo: String,
    /// The image files that the line refers to and that exist.
    pub detected: Vec<DetectedImage>,
}

/// What is needed to run a command under the monitor.
#[derive(Debug, Clone)]
pub struct MonitorPlan {
    pub program: String,
    pub args: Vec<String>,
    /// The profile of the program, where it is a known application.
    pub tui: Option<TuiConfig>,
}

/// Why the monitor's patterns cannot be used, if they cannot: the message
/// for the first of them that does not compile.
pub open spec fn pattern_failure() -> Option<Seq<char>> {
    if crate::patterns::regex_refusal(IMAGE_PATH_PATTERN@) is Some {
        Some(
            "Failed to compile image path regex: "@ + crate::patterns::regex_refusal(
                IMAGE_PATH_PATTERN@,
            ).unwrap(),
        )
    } else if crate::patterns::regex_refusal(URL_PATTERN@) is Some {
        Some(
            "Failed to compile URL regex: "@ + crate::patterns::regex_refusal(URL_PATTERN@).unwrap(),
        )
    } else if crate::patterns::regex_refusal(BASE64_PATTERN@) is Some {
        Some(
            "Failed to compile base64 regex: "@ + crate::patterns::regex_refusal(
                BASE64_PATTERN@,
            ).unwrap(),
        )
    } else if crate::patterns::regex_refusal(ESCAPE_SEQUENCE_PATTERN@) is Some {
        Some(
            "Failed to compile escape sequence regex: "@ + crate::patterns::regex_refusal(
                ESCAPE_SEQUENCE_PATTERN@,
            ).unwrap(),
        )
    } else {
        None
    }
}

/// The configuration error for a pattern that does not compile: `what`
/// says which pattern, `refusal` what the compiler said.
pub fn pattern_error(what: &str, refusal: &str) -> (e: Error)
    ensures
        e matches Error::Config(m) && m@ == what@ + refusal@,
{
    let mut out: Vec<char> = Vec::new();
    push_str(&mut out, what);
    push_str(&mut out, refusal);
    Error::Config(from_chars(out.as_slice()))
}

/// The path tokens of a line that look like image files.
pub open spec fn path_candidates(line: Seq<char>) -> Seq<Seq<char>> {
    captured(IMAGE_PATH_PATTERN@, 1, line)
}

/// The payloads of the base64 image data URIs in a line.
pub open spec fn payloads_in(line: Seq<char>) -> Seq<Seq<char>> {
    captured(BASE64_PATTERN@, 1, line)
}

/// Whether the application of this name needs its escape sequences left in
/// the lines that are scanned: editors and file managers do.
pub open spec fn keeps_escapes(name: Seq<char>) -> bool {
    name == "Vim"@ || name == "Neovim"@ || name == "Ranger"@ || name == "LF"@ || name == "NNN"@
}

/// A line as it is scanned under the application `name`: without escape
/// sequences, unless the application keeps them.
pub open spec fn cleaned_line(line: Seq<char>, name: Seq<char>) -> Seq<char> {
    if keeps_escapes(name) {
        line
    } else {
        match crate::patterns::regex_replaced(ESCAPE_SEQUENCE_PATTERN@, line, ""@) {
            Some(t) => t,
            None => line,
        }
    }
}

/// A line as it is scanned under a profile, or under none.
pub open spec fn scanned_line(line: Seq<char>, tui: Option<TuiConfig>) -> Seq<char> {
    match tui {
        Some(t) => cleaned_line(line, t.name@),
        None => line,
    }
}

/// What is written to the terminal for a line: the line, and a line end
/// that suits the terminal's mode.
pub open spec fn echo_of(line: Seq<char>, tui: Option<TuiConfig>) -> Seq<char> {
    if tui is Some {
        line + "\r\n"@
    } else {
        line + "\n"@
    }
}

/// The shell command that runs `original_command` under the monitor.
pub open spec fn monitoring_wrapper(original_command: Seq<char>) -> Seq<char> {
    "("@ + original_command + ") 2>&1 | klipdot monitor-output"@
}

impl StdoutMonitor {
    /// The manager that the monitor was made with.
    pub closed spec fn manager(&self) -> ImagePreviewManager {
        self.preview_manager
    }

    /// A monitor around `preview_manager`, once its patterns are known to
    /// compile.
    pub fn new(config: Config, preview_manager: ImagePreviewManager) -> (r: Result<Self, Error>)
        ensures
            match r {
                Ok(monitor) => pattern_failure() is None && monitor.manager() == preview_manager,
                Err(e) => e matches Error::Config(m) && pattern_failure() == Some(m@),
            },
    {
        if let Some(refusal) = crate::patterns::refusal(IMAGE_PATH_PATTERN) {
            return Err(pattern_error("Failed to compile image path regex: ", refusal.as_str()));
        }
        if let Some(refusal) = crate::patterns::refusal(URL_PATTERN) {
            return Err(pattern_error("Failed to compile URL regex: ", refusal.as_str()));
        }
        if let Some(refusal) = crate::patterns::refusal(BASE64_PATTERN) {
            return Err(pattern_error("Failed to compile base64 regex: ", refusal.as_str()));
        }
        if let Some(refusal) = crate::patterns::refusal(ESCAPE_SEQUENCE_PATTERN) {
            return Err(
                pattern_error("Failed to compile escape sequence regex: ", refusal.as_str()),
            );
        }
        Ok(StdoutMonitor { config, preview_manager })
    }

    /// The manager that shows what the monitor detects: the one the monitor
    /// was made with.
    pub fn preview_manager(&self) -> (r: &ImagePreviewManager)
        ensures
            *r == self.manager(),
    {
        &self.preview_manager
    }

    /// Looks up the profile of a command by the last component of its path.
    pub fn detect_tui_app(&self, command: &str) -> (r: Option<TuiConfig>)
        ensures
            match r {
                Some(tui) => tui_profile_of(file_name(command@)) is Some && is_profile(
                    tui,
                    tui_profile_of(file_name(command@)).unwrap(),
                ),
                None => tui_profile_of(file_name(command@)) is None,
            },
    {
        let chars = to_chars(command);
        let name = from_chars(path_file_name(chars.as_slice()).as_slice());
        tui_profile(name.as_str())
    }

    /// Says how to run a command under the monitor: the program, its
    /// arguments and its profile. A command without a program is refused.
    pub fn monitor_command(&self, command_args: Vec<String>) -> (r: Result<MonitorPlan, Error>)
        ensures
            match r {
                Ok(plan) => {
                    &&& command_args@.len() > 0
                    &&& plan.program@ == command_args@[0]@
                    &&& texts(plan.args@) == texts(command_args@).skip(1)
                    &&& match plan.tui {
                        Some(tui) => tui_profile_of(file_name(command_args@[0]@)) is Some
                            && is_profile(
                            tui,
                            tui_profile_of(file_name(command_args@[0]@)).unwrap(),
                        ),
                        None => tui_profile_of(file_name(command_args@[0]@)) is None,
                    }
                },
                Err(e) => command_args@.len() == 0 && (e matches Error::InvalidInput(m) && m@
                    == "No command provided"@),
            },
    {
        if command_args.len() == 0 {
            return Err(Error::InvalidInput("No command provided".to_string()));
        }
        let tui = self.detect_tui_app(command_args[0].as_str());
        let program = command_args[0].clone();
        let mut args: Vec<String> = Vec::new();
        let mut i: usize = 1;
        while i < command_args.len()
            invariant
                1 <= i <= command_args.len(),
                args@.len() == i - 1,
                forall|j: int| 0 <= j < i - 1 ==> args@[j]@ == command_args@[j + 1]@,
            decreases command_args.len() - i,
        {
            args.push(command_args[i].clone());
            i += 1;
        }
        assert(texts(args@) =~= texts(command_args@).skip(1));
        Ok(MonitorPlan { program, args, tui })
    }

    /// Prepares a line for scanning under the profile `tui`.
    pub fn process_tui_line(&self, line: &str, tui: &TuiConfig) -> (r: String)
        ensures
            r@ == cleaned_line(line@, tui.name@),
    {
        let name = tui.name.as_str();
        if str_eq(name, "Vim") || str_eq(name, "Neovim") || str_eq(name, "Ranger") || str_eq(
            name,
            "LF",
        ) || str_eq(name, "NNN") {
            line.to_string()
        } else {
            match crate::patterns::replaced(ESCAPE_SEQUENCE_PATTERN, line, "") {
                Some(t) => t,
                None => line.to_string(),
            }
        }
    }

    /// The image files that a line refers to and that exist now. The home
    /// directory, for paths that begin with `~`, is looked up now too.
    pub fn detect_images_in_line(&self, line: &str, line_number: usize) -> (r: Vec<DetectedImage>)
        ensures
            exists|home: Option<Seq<char>>, present: Seq<bool>|
                present.len() == path_candidates(line@).len() && detected_views(r@)
                    == #[trigger] selected(
                    expand_all(path_candidates(line@), home),
                    present,
                    line@,
                    line_number as nat,
                ),
    {
        let candidates = captures(IMAGE_PATH_PATTERN, 1, line);
        let home = crate::paths::home_dir();
        let paths = match &home {
            Some(h) => expand_paths(candidates.as_slice(), Some(h.as_str())),
            None => expand_paths(candidates.as_slice(), None),
        };
        let present = probe_paths(paths.as_slice());
        let r = select_detections(paths.as_slice(), present.as_slice(), line, line_number);
        proof {
            let ghost h = crate::opt_text(home);
            assert(detected_views(r@) == selected(
                expand_all(path_candidates(line@), h),
                present@,
                line@,
                line_number as nat,
            ));
        }
        r
    }

    /// What a file manager's line refers to. File managers list paths; the
    /// line is scanned like any other.
    pub fn detect_file_manager_images(&self, line: &str, line_number: usize) -> (r: Vec<
        DetectedImage,
    >)
        ensures
            exists|home: Option<Seq<char>>, present: Seq<bool>|
                present.len() == path_candidates(line@).len() && detected_views(r@)
                    == #[trigger] selected(
                    expand_all(path_candidates(line@), home),
                    present,
                    line@,
                    line_number as nat,
                ),
    {
        self.detect_images_in_line(line, line_number)
    }

    /// What an editor's line refers to.
    pub fn detect_editor_images(&self, line: &str, line_number: usize) -> (r: Vec<DetectedImage>)
        ensures
            exists|home: Option<Seq<char>>, present: Seq<bool>|
                present.len() == path_candidates(line@).len() && detected_views(r@)
                    == #[trigger] selected(
                    expand_all(path_candidates(line@), home),
                    present,
                    line@,
                    line_number as nat,
                ),
    {
        self.detect_images_in_line(line, line_number)
    }

    /// What a browser's line refers to. URLs are not among the detections:
    /// they are located by [`StdoutMonitor::scan`] and never fetched.
    pub fn detect_browser_images(&self, line: &str, line_number: usize) -> (r: Vec<DetectedImage>)
        ensures
            exists|home: Option<Seq<char>>, present: Seq<bool>|
                present.len() == path_candidates(line@).len() && detected_views(r@)
                    == #[trigger] selected(
                    expand_all(path_candidates(line@), home),
                    present,
                    line@,
                    line_number as nat,
                ),
    {
        self.detect_images_in_line(line, line_number)
    }

    /// What a line refers to under the profile `tui`, or under none. The
    /// profile decides how detections are shown, not what is detected.
    pub fn detect_images_in_tui_context(
        &self,
        line: &str,
        line_number: usize,
        tui: &Option<TuiConfig>,
    ) -> (r: Vec<DetectedImage>)
        ensures
            exists|home: Option<Seq<char>>, present: Seq<bool>|
                present.len() == path_candidates(line@).len() && detected_views(r@)
                    == #[trigger] selected(
                    expand_all(path_candidates(line@), home),
                    present,
                    line@,
                    line_number as nat,
                ),
    {
        match tui {
            Some(t) => {
                let name = t.name.as_str();
                if str_eq(name, "Ranger") || str_eq(name, "LF") || str_eq(name, "NNN") {
                    self.detect_file_manager_images(line, line_number)
                } else if str_eq(name, "Vim") || str_eq(name, "Neovim") {
                    self.detect_editor_images(line, line_number)
                } else if str_eq(name, "w3m") {
                    self.detect_browser_images(line, line_number)
                } else {
                    self.detect_images_in_line(line, line_number)
                }
            },
            None => self.detect_images_in_line(line, line_number),
        }
    }

    /// The image URLs in a line, each without what trails it.
    pub fn detect_urls(&self, line: &str) -> (r: Vec<String>)
        ensures
            texts(r@) == urls_in(line@),
    {
        let found = captures(URL_PATTERN, 0, line);
        let mut r: Vec<String> = Vec::new();
        let mut i: usize = 0;
        while i < found.len()
            invariant
                i <= found.len(),
                r@.len() == i,
                forall|j: int| 0 <= j < i ==> r@[j]@ == url_of_match(found@[j]@),
            decreases found.len() - i,
        {
            r.push(trim_url(found[i].as_str()));
            i += 1;
        }
        assert(texts(r@) =~= urls_in(line@));
        r
    }

    /// Everything that a line refers to: the image files that exist, the
    /// image URLs, the payloads of base64 image data URIs. The three kinds
    /// are looked for independently of each other, and in the same way
    /// under every profile: the profile decides how detections are shown,
    /// not what is detected.
    pub fn scan(&self, line: &str, line_number: usize, tui_profile: &Option<TuiConfig>) -> (r:
        ScanReport)
        ensures
            exists|home: Option<Seq<char>>, present: Seq<bool>|
                present.len() == path_candidates(line@).len() && detected_views(r.images@)
                    == #[trigger] selected(
                    expand_all(path_candidates(line@), home),
                    present,
                    line@,
                    line_number as nat,
                ),
            texts(r.urls@) == urls_in(line@),
            texts(r.payloads@) == payloads_in(line@),
    {
        let images = self.detect_images_in_tui_context(line, line_number, tui_profile);
        let urls = self.detect_urls(line);
        let payloads = captures(BASE64_PATTERN, 1, line);
        ScanReport { images, urls, payloads }
    }

    /// Takes the next line of a stream: counts it, says what to write to
    /// the terminal, and scans it. What is written is the line as it came;
    /// what is scanned, and kept as context, may have lost its escape
    /// sequences.
    pub fn process_line(&self, state: &mut StreamState, line: &str, tui: &Option<TuiConfig>) -> (out:
        LineOutput)
        ensures
            out.echo@ == echo_of(line@, *tui),
            final(state).lines_seen() == (if old(state).lines_seen() < usize::MAX {
                old(state).lines_seen() + 1
            } else {
                old(state).lines_seen()
            }),
            final(state).context() == rolled(old(state).context(), scanned_line(line@, *tui)),
            exists|home: Option<Seq<char>>, present: Seq<bool>|
                present.len() == path_candidates(scanned_line(line@, *tui)).len() && detected_views(
                    out.detected@,
                ) == #[trigger] selected(
                    expand_all(path_candidates(scanned_line(line@, *tui)), home),
                    present,
                    scanned_line(line@, *tui),
                    final(state).lines_seen(),
                ),
    {
        let mut echo: Vec<char> = Vec::new();
        push_str(&mut echo, line);
        let scanned = match tui {
            Some(t) => {
                push_str(&mut echo, "\r\n");
                self.process_tui_line(line, t)
            },
            None => {
                push_str(&mut echo, "\n");
                line.to_string()
            },
        };
        state.advance(scanned.as_str());
        let detected = self.detect_images_in_tui_context(
            scanned.as_str(),
            state.line_number(),
            tui,
        );
        LineOutput { echo: from_chars(echo.as_slice()), detected }
    }

    /// Builds the shell command that runs `original_command` under the
    /// monitor.
    pub fn create_monitoring_wrapper(&self, original_command: &str) -> (r: String)
        ensures
            r@ == monitoring_wrapper(original_command@),
    {
        let mut out: Vec<char> = Vec::new();
        push_str(&mut out, "(");
        push_str(&mut out, original_command);
        push_str(&mut out, ") 2>&1 | klipdot monitor-output");
        assert(out@ =~= monitoring_wrapper(original_command@));
        from_chars(out.as_slice())
    }
}

/// Whether `c` ends a token: white space and the two quotes do.
pub open spec fn is_token_break(c: char) -> bool {
    crate::text::is_whitespace(c) || c == '"' || c == '\''
}

/// Where the token that reaches up to index `i` begins.
pub open spec fn token_start(text: Seq<char>, i: int) -> int
    decreases i,
{
    if i <= 0 || i > text.len() || is_token_break(text[i - 1]) {
        i
    } else {
        token_start(text, i - 1)
    }
}

/// Where the token that begins at or before index `i` ends.
pub open spec fn token_end(text: Seq<char>, i: int) -> int
    decreases text.len() - i,
{
    if i < 0 || i >= text.len() || is_token_break(text[i]) {
        i
    } else {
        token_end(text, i + 1)
    }
}

/// The cursor offset, kept within the text.
pub open spec fn clamped(text: Seq<char>, cursor: int) -> int {
    if cursor > text.len() {
        text.len() as int
    } else {
        cursor
    }
}

/// The token under the cursor: the characters around the cursor offset up
/// to the nearest breaks on both sides. There is none where the cursor
/// stands between two breaks.
pub open spec fn token_at(text: Seq<char>, cursor: int) -> Option<Seq<char>> {
    let at = clamped(text, cursor);
    let start = token_start(text, at);
    let end = token_end(text, at);
    if 0 <= start < end <= text.len() {
        Some(text.subrange(start, end))
    } else {
        None
    }
}

/// The image path under the cursor, before it is looked up in the file
/// system: the token under the cursor with a leading `~` replaced by the
/// home directory, where it has an image extension.
pub open spec fn candidate_at(text: Seq<char>, cursor: int, home: Option<Seq<char>>) -> Option<
    Seq<char>,
> {
    match token_at(text, cursor) {
        Some(token) => if has_extension_in(expanded(token, home), image_extensions()) {
            Some(expanded(token, home))
        } else {
            None
        },
        None => None,
    }
}

/// Executable form of [`is_token_break`].
pub fn char_is_token_break(c: char) -> (r: bool)
    ensures
        r == is_token_break(c),
{
    crate::text::char_is_whitespace(c) || c == '"' || c == '\''
}

/// The token under the cursor.
pub fn token_under_cursor(text: &[char], cursor: usize) -> (r: Option<Vec<char>>)
    ensures
        match r {
            Some(t) => token_at(text@, cursor as int) == Some(t@),
            None => token_at(text@, cursor as int) is None,
        },
{
    let at: usize = if cursor > text.len() {
        text.len()
    } else {
        cursor
    };
    let mut start: usize = at;
    while start > 0 && !char_is_token_break(text[start - 1])
        invariant
            start <= at <= text.len(),
            token_start(text@, at as int) == token_start(text@, start as int),
        decreases start,
    {
        start -= 1;
    }
    let mut end: usize = at;
    while end < text.len() && !char_is_token_break(text[end])
        invariant
            at <= end <= text.len(),
            token_end(text@, at as int) == token_end(text@, end as int),
        decreases text.len() - end,
    {
        end += 1;
    }
    if start < end {
        Some(slice_chars(text, start, end))
    } else {
        None
    }
}

/// The image path under the cursor, before it is looked up in the file
/// system.
pub fn candidate_under_cursor(text: &str, cursor: usize, home: Option<&str>) -> (r: Option<String>)
    ensures
        crate::opt_text(r) == candidate_at(text@, cursor as int, opt_str(home)),
{
    let chars = to_chars(text);
    match token_under_cursor(chars.as_slice(), cursor) {
        Some(token) => {
            let path = expand_with(token.as_slice(), home);
            if is_image_path(path.as_slice()) {
                Some(from_chars(path.as_slice()))
            } else {
                None
            }
        },
        None => None,
    }
}

/// What happens to the floating preview.
#[derive(Debug, Clone)]
pub enum LiveChange {
    /// The preview of this image appears, in place of any other.
    Show(String),
    /// The preview disappears.
    Hide,
    /// Nothing changes.
    Keep,
}

/// The view of a [`LiveChange`].
pub enum ChangeView {
    Show(Seq<char>),
    Hide,
    Keep,
}

impl View for LiveChange {
    type V = ChangeView;

    open spec fn view(&self) -> ChangeView {
        match self {
            LiveChange::Show(path) => ChangeView::Show(path@),
            LiveChange::Hide => ChangeView::Hide,
            LiveChange::Keep => ChangeView::Keep,
        }
    }
}

/// What happens to the floating preview when `shown` is on display and
/// `detected` is under the cursor: another image is shown, no image hides
/// the preview, and the same image or still no image changes nothing.
pub open spec fn live_change(shown: Option<Seq<char>>, detected: Option<Seq<char>>) -> ChangeView {
    match detected {
        Some(path) => if shown == Some(path) {
            ChangeView::Keep
        } else {
            ChangeView::Show(path)
        },
        None => if shown is Some {
            ChangeView::Hide
        } else {
            ChangeView::Keep
        },
    }
}

/// What is on display after a change.
pub open spec fn shown_after(shown: Option<Seq<char>>, change: ChangeView) -> Option<Seq<char>> {
    match change {
        ChangeView::Show(path) => Some(path),
        ChangeView::Hide => None,
        ChangeView::Keep => shown,
    }
}

/// The width of the floating preview, in columns.
pub const LIVE_PREVIEW_WIDTH: u32 = 40;

/// The height of the floating preview, in rows.
pub const LIVE_PREVIEW_HEIGHT: u32 = 10;

/// What is written before the floating preview of the image at `path` is
/// drawn: save the cursor, go to the top left, clear the line, name the
/// file.
pub open spec fn floating_header(path: Seq<char>) -> Seq<char> {
    "\x1b[s\x1b[H\x1b[2K🖼️  Live Preview: "@ + file_name(path)
}

/// Shows the image whose path is under the cursor, one at a time.
#[derive(Debug, Clone)]
pub struct LivePreviewSystem {
    config: Config,
    preview_manager: ImagePreviewManager,
    current_preview: Option<String>,
}

impl LivePreviewSystem {
    /// The path of the image on display.
    pub closed spec fn shown(&self) -> Option<Seq<char>> {
        crate::opt_text(self.current_preview)
    }

    /// The manager that the system was made with. It stays the same
    /// whatever is on display.
    pub closed spec fn manager(&self) -> ImagePreviewManager {
        self.preview_manager
    }

    /// A system around `preview_manager`, with nothing on display.
    pub fn new(config: Config, preview_manager: ImagePreviewManager) -> (r: Self)
        ensures
            r.shown() is None,
            r.manager() == preview_manager,
    {
        LivePreviewSystem { config, preview_manager, current_preview: None }
    }

    /// The manager that draws the preview: the one the system was made with.
    pub fn preview_manager(&self) -> (r: &ImagePreviewManager)
        ensures
            *r == self.manager(),
    {
        &self.preview_manager
    }

    /// The path of the image on display.
    pub fn current_preview(&self) -> (r: Option<String>)
        ensures
            crate::opt_text(r) == self.shown(),
    {
        match &self.current_preview {
            Some(p) => Some(p.clone()),
            None => None,
        }
    }

    /// Whether `detected` may be what is found under the cursor: nothing, or
    /// the image path there for some home directory.
    pub open spec fn may_detect(text: Seq<char>, cursor: int, detected: Option<Seq<char>>) -> bool {
        detected matches Some(path) ==> exists|home: Option<Seq<char>>| #[trigger]
            candidate_at(text, cursor, home) == Some(path)
    }

    /// The image path under the cursor, if the token there is one and
    /// something is at that path now. The home directory, for a path that
    /// begins with `~`, is looked up now too.
    pub fn extract_image_path_at_cursor(&self, text: &str, cursor_position: usize) -> (r: Option<
        String,
    >)
        ensures
            Self::may_detect(text@, cursor_position as int, crate::opt_text(r)),
    {
        let home = crate::paths::home_dir();
        let candidate = match &home {
            Some(h) => candidate_under_cursor(text, cursor_position, Some(h.as_str())),
            None => candidate_under_cursor(text, cursor_position, None),
        };
        match candidate {
            Some(path) => {
                if crate::paths::path_exists(path.as_str()) {
                    assert(candidate_at(text@, cursor_position as int, crate::opt_text(home))
                        == Some(path@));
                    Some(path)
                } else {
                    None
                }
            },
            None => None,
        }
    }

    /// What happens to the preview when `detected` is under the cursor.
    /// Nothing is recorded yet.
    pub fn decide(&self, detected: &Option<String>) -> (r: LiveChange)
        ensures
            r@ == live_change(self.shown(), crate::opt_text(*detected)),
    {
        match detected {
            Some(path) => {
                let same = match &self.current_preview {
                    Some(current) => str_eq(current.as_str(), path.as_str()),
                    None => false,
                };
                if same {
                    LiveChange::Keep
                } else {
                    LiveChange::Show(path.clone())
                }
            },
            None => {
                if self.current_preview.is_some() {
                    LiveChange::Hide
                } else {
                    LiveChange::Keep
                }
            },
        }
    }

    /// Records a change that was carried out.
    pub fn commit(&mut self, change: &LiveChange)
        ensures
            final(self).shown() == shown_after(old(self).shown(), change@),
            final(self).manager() == old(self).manager(),
    {
        match change {
            LiveChange::Show(path) => {
                self.current_preview = Some(path.clone());
            },
            LiveChange::Hide => {
                self.current_preview = None;
            },
            LiveChange::Keep => {},
        }
    }

    /// Follows the cursor: looks for an image path under it, says what
    /// happens to the preview, and records that. What is on display
    /// afterwards is what was found.
    pub fn show_live_preview(&mut self, text: &str, cursor_position: usize) -> (r: LiveChange)
        ensures
            Self::may_detect(text@, cursor_position as int, final(self).shown()),
            r@ == live_change(old(self).shown(), final(self).shown()),
            final(self).manager() == old(self).manager(),
    {
        let detected = self.extract_image_path_at_cursor(text, cursor_position);
        let change = self.decide(&detected);
        self.commit(&change);
        change
    }

    /// Follows the cursor and says whether the preview changed: whether one
    /// appeared, was replaced or disappeared.
    pub fn update(&mut self, full_text: &str, cursor_offset: usize) -> (changed: bool)
        ensures
            Self::may_detect(full_text@, cursor_offset as int, final(self).shown()),
            changed == (final(self).shown() != old(self).shown()),
            final(self).manager() == old(self).manager(),
    {
        match self.show_live_preview(full_text, cursor_offset) {
            LiveChange::Keep => false,
            _ => true,
        }
    }

    /// The text to write before the floating preview of the image at `path`
    /// is drawn.
    pub fn show_floating_preview(&self, path: &str) -> (r: String)
        ensures
            r@ == floating_header(path@),
    {
        let chars = to_chars(path);
        let name = path_file_name(chars.as_slice());
        let mut out: Vec<char> = Vec::new();
        push_str(&mut out, "\x1b[s\x1b[H\x1b[2K🖼️  Live Preview: ");
        push_chars(&mut out, name.as_slice());
        assert(out@ =~= floating_header(path@));
        from_chars(out.as_slice())
    }

    /// The text to write after the floating preview was drawn: restore the
    /// cursor.
    pub fn finish_floating_preview(&self) -> (r: &'static str)
        ensures
            r@ == "\x1b[u"@,
    {
        "\x1b[u"
    }

    /// The text to write to take the floating preview away: save the
    /// cursor, go to the top left, clear to the end of the line, restore the
    /// cursor.
    pub fn hide_floating_preview(&self) -> (r: &'static str)
        ensures
            r@ == "\x1b[s\x1b[H\x1b[K\x1b[u"@,
    {
        "\x1b[s\x1b[H\x1b[K\x1b[u"
    }
}

/// Looking twice at the same image changes the preview once: after a path
/// was detected, detecting it again keeps the preview as it is.
pub proof fn lemma_same_image_keeps_preview(shown: Option<Seq<char>>, path: Seq<char>)
    ensures
        live_change(shown_after(shown, live_change(shown, Some(path))), Some(path))
            == ChangeView::Keep,
{
}

/// Leaving an image that is on display hides the preview, and at most one
/// preview is on display at a time: what is shown after a change is what
/// was detected, if anything was.
pub proof fn lemma_preview_follows_cursor(shown: Option<Seq<char>>, detected: Option<Seq<char>>)
    ensures
        shown_after(shown, live_change(shown, detected)) == detected,
        shown is Some && detected is None ==> live_change(shown, detected) == ChangeView::Hide,
{
}

} // verus!
