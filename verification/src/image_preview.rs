//! How an image is shown in the terminal.
//!
//! The terminal's abilities are probed once, by the caller, and turned into
//! a [`PreviewMethod`] that stays fixed. For every image the manager then
//! says what must be written or which helper program must be run; running
//! it, and writing to the terminal, is the caller's part.

use crate::Environment;
use crate::base64_codec::base64_text;
use crate::base64_codec::can_encode;
use crate::base64_codec::encodable_len;
use crate::config::Config;
use crate::error::Error;
use crate::paths::is_command_available;
use crate::sizes;
use crate::text::contains;
use crate::text::decimal;
use crate::text::decimal_string;
use crate::text::from_chars;
use crate::text::push_decimal;
use crate::text::push_str;
use crate::text::slices;
use crate::text::str_eq;
use crate::text::texts;
use crate::text::to_chars;
use vstd::prelude::*;

verus! {

/// A way of showing an image in a terminal.
#[derive(Debug, Clone)]
pub enum PreviewMethod {
    /// The inline images protocol of iTerm2.
    ITerm2,
    /// The graphics protocol of Kitty.
    Kitty,
    /// Sixel graphics.
    Sixel,
    /// ASCII art.
    ASCII,
    /// A viewer program, by name.
    External(String),
    /// Text only: name, size and dimensions.
    TextOnly,
}

/// The view of a [`PreviewMethod`].
pub enum MethodView {
    ITerm2,
    Kitty,
    Sixel,
    Ascii,
    External(Seq<char>),
    TextOnly,
}

impl View for PreviewMethod {
    type V = MethodView;

    open spec fn view(&self) -> MethodView {
        match self {
            PreviewMethod::ITerm2 => MethodView::ITerm2,
            PreviewMethod::Kitty => MethodView::Kitty,
            PreviewMethod::Sixel => MethodView::Sixel,
            PreviewMethod::ASCII => MethodView::Ascii,
            PreviewMethod::External(viewer) => MethodView::External(viewer@),
            PreviewMethod::TextOnly => MethodView::TextOnly,
        }
    }
}

/// A program and the arguments to start it with.
#[derive(Debug, Clone)]
pub struct CommandLine {
    pub program: String,
    pub args: Vec<String>,
}

impl View for CommandLine {
    type V = (Seq<char>, Seq<Seq<char>>);

    open spec fn view(&self) -> (Seq<char>, Seq<Seq<char>>) {
        (self.program@, texts(self.args@))
    }
}

/// The viewer programs that are looked for, in order of preference.
pub open spec fn viewer_names() -> Seq<Seq<char>> {
    seq!["imgcat"@, "catimg"@, "timg"@, "chafa"@]
}

/// The index of the first `true` in `flags`.
pub open spec fn first_set(flags: Seq<bool>) -> Option<int>
    decreases flags.len(),
{
    if flags.len() == 0 {
        None
    } else if flags[0] {
        Some(0)
    } else {
        match first_set(flags.skip(1)) {
            Some(i) => Some(i + 1),
            None => None,
        }
    }
}

/// Whether the environment names iTerm2 as the terminal program.
pub open spec fn is_iterm2(env: Environment) -> bool {
    env.term_program is Some && env.term_program.unwrap()@ == "iTerm.app"@
}

/// Whether the environment names a Kitty terminal type.
pub open spec fn is_kitty(env: Environment) -> bool {
    env.term is Some && contains(env.term.unwrap()@, "kitty"@)
}

/// The best preview method, in this order of preference: iTerm2, Kitty,
/// sixel, the first installed viewer, ASCII art where `jp2a` or `img2txt`
/// is installed, text only. `viewers` says of each of the [`viewer_names`]
/// whether it is installed; what it says beyond them is passed over.
pub open spec fn preview_method_for(
    env: Environment,
    sixel: bool,
    viewers: Seq<bool>,
    jp2a: bool,
    img2txt: bool,
) -> MethodView {
    if is_iterm2(env) {
        MethodView::ITerm2
    } else if is_kitty(env) {
        MethodView::Kitty
    } else if sixel {
        MethodView::Sixel
    } else if first_set(viewers) is Some && first_set(viewers).unwrap() < viewer_names().len() {
        MethodView::External(viewer_names()[first_set(viewers).unwrap()])
    } else if jp2a || img2txt {
        MethodView::Ascii
    } else {
        MethodView::TextOnly
    }
}

/// Whether the environment names iTerm2 as the terminal program.
pub fn names_iterm2(env: &Environment) -> (r: bool)
    ensures
        r == is_iterm2(*env),
{
    match &env.term_program {
        Some(program) => str_eq(program.as_str(), "iTerm.app"),
        None => false,
    }
}

/// Whether the environment names a Kitty terminal type.
pub fn names_kitty(env: &Environment) -> (r: bool)
    ensures
        r == is_kitty(*env),
{
    match &env.term {
        Some(term) => crate::text::str_contains(term.as_str(), "kitty"),
        None => false,
    }
}

/// Whether the sixel probe, which takes a round trip to the terminal, is
/// needed to settle the preview method: it is unless the environment
/// already names iTerm2 or Kitty.
pub fn needs_sixel_probe(env: &Environment) -> (r: bool)
    ensures
        r == (!is_iterm2(*env) && !is_kitty(*env)),
{
    !names_iterm2(env) && !names_kitty(env)
}

/// The index of the first `true` in `flags`.
pub fn find_first_set(flags: &[bool]) -> (r: Option<usize>)
    ensures
        match r {
            Some(i) => first_set(flags@) == Some(i as int) && i < flags@.len(),
            None => first_set(flags@) is None,
        },
{
    let mut i: usize = 0;
    assert(flags@.skip(0) =~= flags@);
    while i < flags.len()
        invariant
            i <= flags.len(),
            first_set(flags@) == match first_set(flags@.skip(i as int)) {
                Some(k) => Some(k + i),
                None => None,
            },
        decreases flags.len() - i,
    {
        let ghost rest = flags@.skip(i as int);
        assert(rest[0] == flags@[i as int]);
        if flags[i] {
            return Some(i);
        }
        assert(rest.skip(1) =~= flags@.skip(i + 1));
        i += 1;
    }
    None
}

/// Chooses the preview method from what the probes found.
pub fn select_preview_method(
    env: &Environment,
    sixel: bool,
    viewers: &[bool],
    jp2a: bool,
    img2txt: bool,
) -> (r: PreviewMethod)
    ensures
        r@ == preview_method_for(*env, sixel, viewers@, jp2a, img2txt),
{
    if names_iterm2(env) {
        return PreviewMethod::ITerm2;
    }
    if names_kitty(env) {
        return PreviewMethod::Kitty;
    }
    if sixel {
        return PreviewMethod::Sixel;
    }
    let names = vec!["imgcat", "catimg", "timg", "chafa"];
    assert(slices(names@) =~= viewer_names());
    if let Some(i) = find_first_set(viewers) {
        if i < names.len() {
            assert(slices(names@)[i as int] == names@[i as int]@);
            return PreviewMethod::External(names[i].to_string());
        }
    }
    if jp2a || img2txt {
        return PreviewMethod::ASCII;
    }
    PreviewMethod::TextOnly
}

/// Detects the preview method for a terminal with environment `env` whose
/// sixel probe answered `sixel`. The helper programs are looked for now.
pub fn detect_preview_method(env: &Environment, sixel: bool) -> (r: PreviewMethod)
    ensures
        exists|viewers: Seq<bool>, jp2a: bool, img2txt: bool|
            viewers.len() == viewer_names().len() && r@ == #[trigger] preview_method_for(
                *env,
                sixel,
                viewers,
                jp2a,
                img2txt,
            ),
{
    let mut viewers: Vec<bool> = Vec::new();
    viewers.push(is_command_available("imgcat"));
    viewers.push(is_command_available("catimg"));
    viewers.push(is_command_available("timg"));
    viewers.push(is_command_available("chafa"));
    let jp2a = is_command_available("jp2a");
    let img2txt = is_command_available("img2txt");
    select_preview_method(env, sixel, viewers.as_slice(), jp2a, img2txt)
}

/// The units in which the preview shows file sizes.
pub open spec fn preview_size_units() -> Seq<Seq<char>> {
    seq!["B"@, "KB"@, "MB"@, "GB"@]
}

/// A file size as the preview shows it: whole bytes below 1024, else one
/// digit after the point in the largest unit, up to GB, in which the size
/// is at least one.
pub open spec fn preview_size_text(size: u64) -> Seq<char> {
    let k = sizes::unit_index(sizes::to_double(size as nat), 3);
    if k == 0 {
        decimal(size as nat) + " B"@
    } else {
        sizes::tenths_text(sizes::tenths_in_unit(size as nat, k)) + seq![' ']
            + preview_size_units()[k as int]
    }
}

/// The arguments that bound the size of what a helper draws: a flag and a
/// number for each bound that is given.
pub open spec fn size_flags(
    width_flag: Seq<char>,
    height_flag: Seq<char>,
    max_width: Option<u32>,
    max_height: Option<u32>,
) -> Seq<Seq<char>> {
    (match max_width {
        Some(w) => seq![width_flag, decimal(w as nat)],
        None => Seq::empty(),
    }) + (match max_height {
        Some(h) => seq![height_flag, decimal(h as nat)],
        None => Seq::empty(),
    })
}

/// A size as `<width>x<height>`; without a height the width stands for it.
pub open spec fn geometry(width: u32, max_height: Option<u32>) -> Seq<char> {
    decimal(width as nat) + "x"@ + decimal(
        (match max_height {
            Some(h) => h,
            None => width,
        }) as nat,
    )
}

/// The command line that draws an image with Kitty's `icat`.
pub open spec fn kitty_command(path: Seq<char>, w: Option<u32>, h: Option<u32>) -> (
    Seq<char>,
    Seq<Seq<char>>,
) {
    ("kitten"@, seq!["icat"@] + size_flags("--cols"@, "--rows"@, w, h) + seq![path])
}

/// The command line that draws an image as sixel graphics.
pub open spec fn sixel_command(path: Seq<char>, w: Option<u32>, h: Option<u32>) -> (
    Seq<char>,
    Seq<Seq<char>>,
) {
    ("img2sixel"@, size_flags("-w"@, "-h"@, w, h) + seq![path])
}

/// The command line that draws an image as ASCII art with `jp2a`.
pub open spec fn jp2a_command(path: Seq<char>, w: Option<u32>, h: Option<u32>) -> (
    Seq<char>,
    Seq<Seq<char>>,
) {
    ("jp2a"@, seq!["--colors"@] + size_flags("--width"@, "--height"@, w, h) + seq![path])
}

/// The command line that draws an image as ASCII art with `img2txt`.
pub open spec fn img2txt_command(path: Seq<char>, w: Option<u32>, h: Option<u32>) -> (
    Seq<char>,
    Seq<Seq<char>>,
) {
    ("img2txt"@, size_flags("-W"@, "-H"@, w, h) + seq![path])
}

/// The command line of a viewer program. `catimg` takes a width, `timg`
/// and `chafa` take a geometry, and only where a width is given; any other
/// viewer takes the path alone.
pub open spec fn external_command(
    viewer: Seq<char>,
    path: Seq<char>,
    w: Option<u32>,
    h: Option<u32>,
) -> (Seq<char>, Seq<Seq<char>>) {
    let size: Seq<Seq<char>> = if w is None {
        Seq::empty()
    } else if viewer == "catimg"@ {
        seq!["-w"@, decimal(w.unwrap() as nat)]
    } else if viewer == "timg"@ {
        seq!["-g"@, geometry(w.unwrap(), h)]
    } else if viewer == "chafa"@ {
        seq!["--size"@, geometry(w.unwrap(), h)]
    } else {
        Seq::empty()
    };
    (viewer, size + seq![path])
}

/// Appends a copy of `s` to `list`.
pub fn push_text(list: &mut Vec<String>, s: &str)
    ensures
        texts(final(list)@) == texts(old(list)@).push(s@),
{
    list.push(s.to_string());
    assert(texts(list@) =~= texts(old(list)@).push(s@));
}

/// Appends the size flags for the given bounds to `args`.
pub fn push_size_flags(
    args: &mut Vec<String>,
    width_flag: &str,
    height_flag: &str,
    max_width: Option<u32>,
    max_height: Option<u32>,
)
    ensures
        texts(final(args)@) == texts(old(args)@) + size_flags(
            width_flag@,
            height_flag@,
            max_width,
            max_height,
        ),
{
    if let Some(w) = max_width {
        push_text(args, width_flag);
        let n = decimal_string(w as u128);
        push_text(args, n.as_str());
    }
    if let Some(h) = max_height {
        push_text(args, height_flag);
        let n = decimal_string(h as u128);
        push_text(args, n.as_str());
    }
    assert(texts(args@) =~= texts(old(args)@) + size_flags(
        width_flag@,
        height_flag@,
        max_width,
        max_height,
    ));
}

/// The text of a geometry.
pub fn geometry_string(width: u32, max_height: Option<u32>) -> (r: String)
    ensures
        r@ == geometry(width, max_height),
{
    let mut out: Vec<char> = Vec::new();
    push_decimal(&mut out, width as u128);
    push_str(&mut out, "x");
    let height = match max_height {
        Some(h) => h,
        None => width,
    };
    push_decimal(&mut out, height as u128);
    assert(out@ =~= geometry(width, max_height));
    from_chars(out.as_slice())
}

/// How running a helper program ended, as the caller reports it.
#[derive(Debug, Clone)]
pub enum RunOutcome {
    /// The program could not be started; the reason is given.
    SpawnFailed(String),
    /// The program ran and exited.
    Finished { success: bool, stderr: String },
}

/// What must be done to show an image.
#[derive(Debug, Clone)]
pub enum PreviewPlan {
    /// Read the file and write the [`iterm2_sequence`] of its bytes.
    Inline,
    /// Run `command` and write what it prints. `label` names the helper in
    /// the error that [`helper_result`] makes of a failure.
    Helper { command: CommandLine, label: String },
    /// Run `jp2a`, where there is one, and write what it prints; where there
    /// is none or it fails, do the same with `img2txt`. [`ascii_result`]
    /// says how the attempts ended.
    Ascii { jp2a: Option<CommandLine>, img2txt: Option<CommandLine> },
    /// Write the lines of [`text_info_lines`].
    TextInfo,
}

/// Which of the two ASCII art helpers gave the output to write.
#[derive(Debug, Clone, Copy, PartialEq, Eq, Structural)]
pub enum AsciiChoice {
    Jp2a,
    Img2txt,
}

/// The view of an optional command line.
pub open spec fn command_view(c: Option<CommandLine>) -> Option<(Seq<char>, Seq<Seq<char>>)> {
    match c {
        Some(c) => Some(c@),
        None => None,
    }
}

/// Whether a run ended well.
pub open spec fn succeeded(outcome: RunOutcome) -> bool {
    outcome matches RunOutcome::Finished { success, .. } && success
}

/// The message of the error that a failed run of a helper stands for.
pub open spec fn helper_failure(program: Seq<char>, label: Seq<char>, outcome: RunOutcome) -> Option<
    Seq<char>,
> {
    match outcome {
        RunOutcome::SpawnFailed(reason) => Some("Failed to run "@ + program + ": "@ + reason@),
        RunOutcome::Finished { success, stderr } => if success {
            None
        } else {
            Some(label + " preview failed: "@ + stderr@)
        },
    }
}

/// Turns the end of a helper's run into the result of the preview.
pub fn helper_result(program: &str, label: &str, outcome: &RunOutcome) -> (r: Result<(), Error>)
    ensures
        match r {
            Ok(_) => helper_failure(program@, label@, *outcome) is None,
            Err(e) => e matches Error::Process(m) && helper_failure(program@, label@, *outcome)
                == Some(m@),
        },
{
    match outcome {
        RunOutcome::SpawnFailed(reason) => {
            let mut out: Vec<char> = Vec::new();
            push_str(&mut out, "Failed to run ");
            push_str(&mut out, program);
            push_str(&mut out, ": ");
            push_str(&mut out, reason.as_str());
            assert(out@ =~= "Failed to run "@ + program@ + ": "@ + reason@);
            Err(Error::Process(from_chars(out.as_slice())))
        },
        RunOutcome::Finished { success, stderr } => {
            if *success {
                Ok(())
            } else {
                let mut out: Vec<char> = Vec::new();
                push_str(&mut out, label);
                push_str(&mut out, " preview failed: ");
                push_str(&mut out, stderr.as_str());
                assert(out@ =~= label@ + " preview failed: "@ + stderr@);
                Err(Error::Process(from_chars(out.as_slice())))
            }
        },
    }
}

/// Whether `img2txt` must be tried: it must unless `jp2a` was run and
/// ended well.
pub fn ascii_needs_fallback(jp2a: &Option<RunOutcome>) -> (r: bool)
    ensures
        r == !(jp2a is Some && succeeded(jp2a.unwrap())),
{
    match jp2a {
        Some(RunOutcome::Finished { success, .. }) => !*success,
        _ => true,
    }
}

/// How an ASCII art preview ended, given how the attempts that were made
/// ended. A failure of `jp2a` is passed over. Without a successful attempt
/// the preview is unsupported, except that a failure to start `img2txt` is
/// reported as such.
pub open spec fn ascii_outcome(jp2a: Option<RunOutcome>, img2txt: Option<RunOutcome>) -> Result<
    AsciiChoice,
    (bool, Seq<char>),
> {
    if jp2a is Some && succeeded(jp2a.unwrap()) {
        Ok(AsciiChoice::Jp2a)
    } else {
        match img2txt {
            Some(RunOutcome::SpawnFailed(reason)) => Err(
                (true, "Failed to run img2txt: "@ + reason@),
            ),
            Some(RunOutcome::Finished { success, .. }) => if success {
                Ok(AsciiChoice::Img2txt)
            } else {
                Err((false, "No ASCII art tools available"@))
            },
            None => Err((false, "No ASCII art tools available"@)),
        }
    }
}

/// Says how an ASCII art preview ended.
pub fn ascii_result(jp2a: &Option<RunOutcome>, img2txt: &Option<RunOutcome>) -> (r: Result<
    AsciiChoice,
    Error,
>)
    ensures
        match r {
            Ok(choice) => ascii_outcome(*jp2a, *img2txt) == Ok::<AsciiChoice, (bool, Seq<char>)>(
                choice,
            ),
            Err(Error::Process(m)) => ascii_outcome(*jp2a, *img2txt) == Err::<
                AsciiChoice,
                (bool, Seq<char>),
            >((true, m@)),
            Err(Error::Unsupported(m)) => ascii_outcome(*jp2a, *img2txt) == Err::<
                AsciiChoice,
                (bool, Seq<char>),
            >((false, m@)),
            Err(_) => false,
        },
{
    if !ascii_needs_fallback(jp2a) {
        return Ok(AsciiChoice::Jp2a);
    }
    match img2txt {
        Some(RunOutcome::SpawnFailed(reason)) => {
            let mut out: Vec<char> = Vec::new();
            push_str(&mut out, "Failed to run img2txt: ");
            push_str(&mut out, reason.as_str());
            assert(out@ =~= "Failed to run img2txt: "@ + reason@);
            Err(Error::Process(from_chars(out.as_slice())))
        },
        Some(RunOutcome::Finished { success, .. }) => {
            if *success {
                Ok(AsciiChoice::Img2txt)
            } else {
                Err(Error::Unsupported("No ASCII art tools available".to_string()))
            }
        },
        None => Err(Error::Unsupported("No ASCII art tools available".to_string())),
    }
}

/// The escape sequence that shows an image of `len` bytes, whose base64
/// text is `encoded`, inline in iTerm2: the options, the number of bytes
/// and the text.
pub open spec fn iterm2_frame(
    encoded: Seq<char>,
    len: nat,
    max_width: Option<u32>,
    max_height: Option<u32>,
) -> Seq<char> {
    "\x1b]1337;File=inline=1;preserveAspectRatio=1"@ + (match max_width {
        Some(w) => ";width="@ + decimal(w as nat) + "px"@,
        None => Seq::empty(),
    }) + (match max_height {
        Some(h) => ";height="@ + decimal(h as nat) + "px"@,
        None => Seq::empty(),
    }) + ";size="@ + decimal(len) + ":"@ + encoded + "\x07"@
}

/// The escape sequence that shows an image inline in iTerm2.
pub open spec fn iterm2_text(data: Seq<u8>, max_width: Option<u32>, max_height: Option<u32>) -> Seq<
    char,
> {
    iterm2_frame(base64_text(data), data.len(), max_width, max_height)
}

/// Puts the escape sequence for iTerm2 around the base64 text of an image
/// of `len` bytes.
pub fn iterm2_frame_around(
    encoded: &str,
    len: usize,
    max_width: Option<u32>,
    max_height: Option<u32>,
) -> (r: String)
    ensures
        r@ == iterm2_frame(encoded@, len as nat, max_width, max_height),
{
    let mut out: Vec<char> = Vec::new();
    push_str(&mut out, "\x1b]1337;File=inline=1;preserveAspectRatio=1");
    if let Some(w) = max_width {
        push_str(&mut out, ";width=");
        push_decimal(&mut out, w as u128);
        push_str(&mut out, "px");
    }
    if let Some(h) = max_height {
        push_str(&mut out, ";height=");
        push_decimal(&mut out, h as u128);
        push_str(&mut out, "px");
    }
    push_str(&mut out, ";size=");
    push_decimal(&mut out, len as u128);
    push_str(&mut out, ":");
    push_str(&mut out, encoded);
    push_str(&mut out, "\x07");
    assert(out@ =~= iterm2_frame(encoded@, len as nat, max_width, max_height));
    from_chars(out.as_slice())
}

/// Builds the escape sequence that shows an image inline in iTerm2. Bytes
/// too many to encode in one piece are refused.
pub fn iterm2_sequence(data: &[u8], max_width: Option<u32>, max_height: Option<u32>) -> (r: Result<
    String,
    Error,
>)
    ensures
        match r {
            Ok(s) => encodable_len(data@.len()) && s@ == iterm2_text(data@, max_width, max_height),
            Err(e) => !encodable_len(data@.len()) && (e matches Error::InvalidInput(m) && m@
                == "Image too large to embed"@),
        },
{
    if !can_encode(data) {
        return Err(Error::InvalidInput("Image too large to embed".to_string()));
    }
    let encoded = crate::base64_codec::encode(data);
    Ok(iterm2_frame_around(encoded.as_str(), data.len(), max_width, max_height))
}

/// The lines that describe an image where it cannot be drawn. The line
/// with the dimensions is left out where none are known.
pub open spec fn text_info(
    file_name: Seq<char>,
    size: u64,
    dimensions: Seq<char>,
    path: Seq<char>,
) -> Seq<Seq<char>> {
    seq!["📸 Image: "@ + file_name, "📏 Size: "@ + preview_size_text(size)] + (if dimensions.len()
        > 0 {
        seq!["🖼️  Dimensions: "@ + dimensions]
    } else {
        Seq::empty()
    }) + seq!["📁 Path: "@ + path]
}

/// One line that describes an image: name, dimensions where known, size.
pub open spec fn compact_info(file_name: Seq<char>, size: u64, dimensions: Seq<char>) -> Seq<char> {
    "🖼️ "@ + file_name + (if dimensions.len() > 0 {
        " ("@ + dimensions + ")"@
    } else {
        Seq::empty()
    }) + " - "@ + preview_size_text(size)
}

/// The dimensions that `identify` printed: its output without surrounding
/// white space, if anything is left.
pub fn dimensions_from_identify(stdout: &str) -> (r: Option<String>)
    ensures
        match r {
            Some(d) => d@ == crate::text::trimmed(stdout@) && d@.len() > 0,
            None => crate::text::trimmed(stdout@).len() == 0,
        },
{
    let chars = to_chars(stdout);
    let t = crate::text::trim(chars.as_slice());
    if t.len() == 0 {
        None
    } else {
        Some(from_chars(t.as_slice()))
    }
}

/// The pattern for dimensions such as `1920 x 1080` or `1920x1080`.
pub const DIMENSIONS_PATTERN: &'static str = r"(\d+)\s*[x×]\s*(\d+)";

/// The dimensions named first in the output of `file`, as `<width>x<height>`.
pub open spec fn file_dimensions(file_output: Seq<char>) -> Option<Seq<char>> {
    let widths = crate::patterns::regex_group_texts(DIMENSIONS_PATTERN@, 1, file_output);
    let heights = crate::patterns::regex_group_texts(DIMENSIONS_PATTERN@, 2, file_output);
    dimensions_of_groups(widths, heights)
}

/// The dimensions that the first match stands for, given what the two
/// groups of the pattern captured in each match.
pub open spec fn dimensions_of_groups(
    widths: Option<Seq<Option<Seq<char>>>>,
    heights: Option<Seq<Option<Seq<char>>>>,
) -> Option<Seq<char>> {
    if widths is Some && heights is Some && widths.unwrap().len() > 0 && heights.unwrap().len() > 0
        && widths.unwrap()[0] is Some && heights.unwrap()[0] is Some {
        Some(widths.unwrap()[0].unwrap() + "x"@ + heights.unwrap()[0].unwrap())
    } else {
        None
    }
}

/// The view of what a group captured in each match.
pub open spec fn groups_view(g: Option<Vec<Option<String>>>) -> Option<Seq<Option<Seq<char>>>> {
    match g {
        Some(v) => Some(crate::patterns::opt_texts(v@)),
        None => None,
    }
}

/// Puts together the dimensions from what the two groups captured.
pub fn dimensions_from_groups(
    widths: &Option<Vec<Option<String>>>,
    heights: &Option<Vec<Option<String>>>,
) -> (r: Option<String>)
    ensures
        crate::opt_text(r) == dimensions_of_groups(groups_view(*widths), groups_view(*heights)),
{
    if let Some(ws) = widths {
        if let Some(hs) = heights {
            if ws.len() > 0 && hs.len() > 0 {
                if let Some(w) = &ws[0] {
                    if let Some(h) = &hs[0] {
                        let mut out: Vec<char> = Vec::new();
                        push_str(&mut out, w.as_str());
                        push_str(&mut out, "x");
                        push_str(&mut out, h.as_str());
                        assert(out@ =~= w@ + "x"@ + h@);
                        return Some(from_chars(out.as_slice()));
                    }
                }
            }
        }
    }
    None
}

/// Finds the dimensions in the output of `file`.
pub fn parse_file_dimensions(file_output: &str) -> (r: Option<String>)
    ensures
        crate::opt_text(r) == file_dimensions(file_output@),
{
    let widths = crate::patterns::group_texts(DIMENSIONS_PATTERN, 1, file_output);
    let heights = crate::patterns::group_texts(DIMENSIONS_PATTERN, 2, file_output);
    dimensions_from_groups(&widths, &heights)
}

/// Builds the command line that draws an image with Kitty's `icat`.
pub fn kitty_command_line(path: &str, w: Option<u32>, h: Option<u32>) -> (r: CommandLine)
    ensures
        r@ == kitty_command(path@, w, h),
{
    let mut args: Vec<String> = Vec::new();
    push_text(&mut args, "icat");
    push_size_flags(&mut args, "--cols", "--rows", w, h);
    push_text(&mut args, path);
    assert(texts(args@) =~= kitty_command(path@, w, h).1);
    CommandLine { program: "kitten".to_string(), args }
}

/// Builds the command line that draws an image as sixel graphics.
pub fn sixel_command_line(path: &str, w: Option<u32>, h: Option<u32>) -> (r: CommandLine)
    ensures
        r@ == sixel_command(path@, w, h),
{
    let mut args: Vec<String> = Vec::new();
    push_size_flags(&mut args, "-w", "-h", w, h);
    push_text(&mut args, path);
    assert(texts(args@) =~= sixel_command(path@, w, h).1);
    CommandLine { program: "img2sixel".to_string(), args }
}

/// Builds the command line that draws an image with `jp2a`.
pub fn jp2a_command_line(path: &str, w: Option<u32>, h: Option<u32>) -> (r: CommandLine)
    ensures
        r@ == jp2a_command(path@, w, h),
{
    let mut args: Vec<String> = Vec::new();
    push_text(&mut args, "--colors");
    push_size_flags(&mut args, "--width", "--height", w, h);
    push_text(&mut args, path);
    assert(texts(args@) =~= jp2a_command(path@, w, h).1);
    CommandLine { program: "jp2a".to_string(), args }
}

/// Builds the command line that draws an image with `img2txt`.
pub fn img2txt_command_line(path: &str, w: Option<u32>, h: Option<u32>) -> (r: CommandLine)
    ensures
        r@ == img2txt_command(path@, w, h),
{
    let mut args: Vec<String> = Vec::new();
    push_size_flags(&mut args, "-W", "-H", w, h);
    push_text(&mut args, path);
    assert(texts(args@) =~= img2txt_command(path@, w, h).1);
    CommandLine { program: "img2txt".to_string(), args }
}

/// Builds the command line that draws an image with a viewer program.
pub fn external_command_line(viewer: &str, path: &str, w: Option<u32>, h: Option<u32>) -> (r:
    CommandLine)
    ensures
        r@ == external_command(viewer@, path@, w, h),
{
    let mut args: Vec<String> = Vec::new();
    if let Some(width) = w {
        if str_eq(viewer, "catimg") {
            push_text(&mut args, "-w");
            let n = decimal_string(width as u128);
            push_text(&mut args, n.as_str());
        } else if str_eq(viewer, "timg") {
            push_text(&mut args, "-g");
            let g = geometry_string(width, h);
            push_text(&mut args, g.as_str());
        } else if str_eq(viewer, "chafa") {
            push_text(&mut args, "--size");
            let g = geometry_string(width, h);
            push_text(&mut args, g.as_str());
        }
    }
    push_text(&mut args, path);
    assert(texts(args@) =~= external_command(viewer@, path@, w, h).1);
    CommandLine { program: viewer.to_string(), args }
}

/// Formats a file size as the preview shows it.
pub fn format_preview_size(size: u64) -> (r: String)
    ensures
        r@ == preview_size_text(size),
{
    let units = vec!["B", "KB", "MB", "GB"];
    assert(slices(units@) =~= preview_size_units());
    let m = sizes::nearest_double(size);
    let (k, scale) = sizes::unit_of(m, 3);
    let mut out: Vec<char> = Vec::new();
    if k == 0 {
        push_decimal(&mut out, size as u128);
        push_str(&mut out, " B");
        assert(out@ =~= preview_size_text(size));
    } else {
        let tenths = sizes::rounded_quotient(m * 10, scale);
        sizes::push_tenths(&mut out, tenths);
        out.push(' ');
        push_str(&mut out, units[k]);
        assert(slices(units@)[k as int] == units@[k as int]@);
        assert(out@ =~= preview_size_text(size));
    }
    from_chars(out.as_slice())
}

/// Builds the lines that describe an image where it cannot be drawn.
pub fn text_info_lines(file_name: &str, size: u64, dimensions: &str, path: &str) -> (r: Vec<String>)
    ensures
        texts(r@) == text_info(file_name@, size, dimensions@, path@),
{
    let mut lines: Vec<String> = Vec::new();
    let mut out: Vec<char> = Vec::new();
    push_str(&mut out, "📸 Image: ");
    push_str(&mut out, file_name);
    push_text(&mut lines, from_chars(out.as_slice()).as_str());
    let mut out: Vec<char> = Vec::new();
    push_str(&mut out, "📏 Size: ");
    push_str(&mut out, format_preview_size(size).as_str());
    push_text(&mut lines, from_chars(out.as_slice()).as_str());
    let d = to_chars(dimensions);
    if d.len() > 0 {
        let mut out: Vec<char> = Vec::new();
        push_str(&mut out, "🖼️  Dimensions: ");
        push_str(&mut out, dimensions);
        push_text(&mut lines, from_chars(out.as_slice()).as_str());
    }
    let mut out: Vec<char> = Vec::new();
    push_str(&mut out, "📁 Path: ");
    push_str(&mut out, path);
    push_text(&mut lines, from_chars(out.as_slice()).as_str());
    assert(texts(lines@) =~= text_info(file_name@, size, dimensions@, path@));
    lines
}

/// Shows images in the terminal by one fixed method.
#[derive(Debug, Clone)]
pub struct ImagePreviewManager {
    config: Config,
    preview_method: PreviewMethod,
}

impl ImagePreviewManager {
    /// The method by which this manager shows images.
    pub closed spec fn method(&self) -> MethodView {
        self.preview_method@
    }

    /// A manager that shows images by `preview_method`.
    pub fn new(config: Config, preview_method: PreviewMethod) -> (r: Self)
        ensures
            r.method() == preview_method@,
    {
        ImagePreviewManager { config, preview_method }
    }

    /// The method by which this manager shows images.
    pub fn preview_method(&self) -> (r: &PreviewMethod)
        ensures
            r@ == self.method(),
    {
        &self.preview_method
    }

    /// What must be done to show the image at `image_path`, given which of
    /// the ASCII art helpers are installed. The method is not probed again.
    pub fn preview_plan(
        &self,
        image_path: &str,
        max_width: Option<u32>,
        max_height: Option<u32>,
        jp2a: bool,
        img2txt: bool,
    ) -> (r: PreviewPlan)
        ensures
            match self.method() {
                MethodView::ITerm2 => r is Inline,
                MethodView::Kitty => r matches PreviewPlan::Helper { command, label } && command@
                    == kitty_command(image_path@, max_width, max_height) && label@ == "Kitty"@,
                MethodView::Sixel => r matches PreviewPlan::Helper { command, label } && command@
                    == sixel_command(image_path@, max_width, max_height) && label@ == "Sixel"@,
                MethodView::External(viewer) => r matches PreviewPlan::Helper { command, label }
                    && command@ == external_command(viewer, image_path@, max_width, max_height)
                    && label@ == viewer,
                MethodView::Ascii => r matches PreviewPlan::Ascii { jp2a: first, img2txt: second }
                    && command_view(first) == (if jp2a {
                    Some(jp2a_command(image_path@, max_width, max_height))
                } else {
                    None
                }) && command_view(second) == (if img2txt {
                    Some(img2txt_command(image_path@, max_width, max_height))
                } else {
                    None
                }),
                MethodView::TextOnly => r is TextInfo,
            },
    {
        match &self.preview_method {
            PreviewMethod::ITerm2 => PreviewPlan::Inline,
            PreviewMethod::Kitty => PreviewPlan::Helper {
                command: kitty_command_line(image_path, max_width, max_height),
                label: "Kitty".to_string(),
            },
            PreviewMethod::Sixel => PreviewPlan::Helper {
                command: sixel_command_line(image_path, max_width, max_height),
                label: "Sixel".to_string(),
            },
            PreviewMethod::External(viewer) => PreviewPlan::Helper {
                command: external_command_line(viewer.as_str(), image_path, max_width, max_height),
                label: viewer.clone(),
            },
            PreviewMethod::ASCII => PreviewPlan::Ascii {
                jp2a: if jp2a {
                    Some(jp2a_command_line(image_path, max_width, max_height))
                } else {
                    None
                },
                img2txt: if img2txt {
                    Some(img2txt_command_line(image_path, max_width, max_height))
                } else {
                    None
                },
            },
            PreviewMethod::TextOnly => PreviewPlan::TextInfo,
        }
    }

    /// What must be done to show the image at `image_path`: an error where
    /// nothing is at that path now, else the plan for the manager's method.
    /// Which ASCII art helpers are installed is looked up now.
    pub fn show_preview(
        &self,
        image_path: &str,
        max_width: Option<u32>,
        max_height: Option<u32>,
    ) -> (r: Result<PreviewPlan, Error>)
        ensures
            match r {
                Ok(plan) => match self.method() {
                    MethodView::ITerm2 => plan is Inline,
                    MethodView::Kitty => plan matches PreviewPlan::Helper { command, label }
                        && command@ == kitty_command(image_path@, max_width, max_height) && label@
                        == "Kitty"@,
                    MethodView::Sixel => plan matches PreviewPlan::Helper { command, label }
                        && command@ == sixel_command(image_path@, max_width, max_height) && label@
                        == "Sixel"@,
                    MethodView::External(viewer) => plan matches PreviewPlan::Helper {
                        command,
                        label,
                    } && command@ == external_command(viewer, image_path@, max_width, max_height)
                        && label@ == viewer,
                    MethodView::Ascii => plan matches PreviewPlan::Ascii {
                        jp2a: first,
                        img2txt: second,
                    } && (first matches Some(c) ==> c@ == jp2a_command(
                        image_path@,
                        max_width,
                        max_height,
                    )) && (second matches Some(c) ==> c@ == img2txt_command(
                        image_path@,
                        max_width,
                        max_height,
                    )),
                    MethodView::TextOnly => plan is TextInfo,
                },
                Err(e) => e matches Error::NotFound(m) && m@ == not_found_text(image_path@),
            },
    {
        if !crate::paths::path_exists(image_path) {
            return Err(not_found(image_path));
        }
        let (jp2a, img2txt) = match &self.preview_method {
            PreviewMethod::ASCII => (is_command_available("jp2a"), is_command_available("img2txt")),
            _ => (false, false),
        };
        Ok(self.preview_plan(image_path, max_width, max_height, jp2a, img2txt))
    }

    /// One line that describes the image: name, dimensions where known, size.
    pub fn show_compact_preview(&self, file_name: &str, size: u64, dimensions: &str) -> (r: String)
        ensures
            r@ == compact_info(file_name@, size, dimensions@),
    {
        let mut out: Vec<char> = Vec::new();
        push_str(&mut out, "🖼️ ");
        push_str(&mut out, file_name);
        let d = to_chars(dimensions);
        if d.len() > 0 {
            push_str(&mut out, " (");
            push_str(&mut out, dimensions);
            push_str(&mut out, ")");
        }
        push_str(&mut out, " - ");
        push_str(&mut out, format_preview_size(size).as_str());
        assert(out@ =~= compact_info(file_name@, size, dimensions@));
        from_chars(out.as_slice())
    }

    /// Formats a file size as the preview shows it.
    pub fn format_file_size(size: u64) -> (r: String)
        ensures
            r@ == preview_size_text(size),
    {
        format_preview_size(size)
    }

    /// The shell command that shows the image by this manager's method,
    /// given whether `jp2a` is installed.
    pub open spec fn preview_command_text(&self, image_path: Seq<char>, jp2a: bool) -> Seq<char> {
        (match self.method() {
            MethodView::ITerm2 => "klipdot preview"@,
            MethodView::Kitty => "klipdot preview"@,
            MethodView::Sixel => "klipdot preview"@,
            MethodView::External(viewer) => viewer,
            MethodView::Ascii => if jp2a {
                "jp2a --colors"@
            } else {
                "img2txt"@
            },
            MethodView::TextOnly => "file"@,
        }) + " '"@ + image_path + "'"@
    }

    /// Builds the shell command that shows the image.
    pub fn preview_command(&self, image_path: &str, jp2a: bool) -> (r: String)
        ensures
            r@ == self.preview_command_text(image_path@, jp2a),
    {
        let mut out: Vec<char> = Vec::new();
        match &self.preview_method {
            PreviewMethod::ITerm2 => push_str(&mut out, "klipdot preview"),
            PreviewMethod::Kitty => push_str(&mut out, "klipdot preview"),
            PreviewMethod::Sixel => push_str(&mut out, "klipdot preview"),
            PreviewMethod::External(viewer) => push_str(&mut out, viewer.as_str()),
            PreviewMethod::ASCII => {
                if jp2a {
                    push_str(&mut out, "jp2a --colors");
                } else {
                    push_str(&mut out, "img2txt");
                }
            },
            PreviewMethod::TextOnly => push_str(&mut out, "file"),
        }
        push_str(&mut out, " '");
        push_str(&mut out, image_path);
        push_str(&mut out, "'");
        assert(out@ =~= self.preview_command_text(image_path@, jp2a));
        from_chars(out.as_slice())
    }

    /// Builds the shell command that shows the image. Whether `jp2a` is
    /// installed is looked up now, where the method is ASCII art.
    pub fn create_preview_command(&self, image_path: &str) -> (r: String)
        ensures
            exists|jp2a: bool| r@ == #[trigger] self.preview_command_text(image_path@, jp2a),
    {
        let jp2a = match &self.preview_method {
            PreviewMethod::ASCII => is_command_available("jp2a"),
            _ => false,
        };
        self.preview_command(image_path, jp2a)
    }
}

/// The message for an image file that is not there.
pub open spec fn not_found_text(path: Seq<char>) -> Seq<char> {
    "Image file not found: \""@ + path + "\""@
}

/// The error for an image file that is not there.
pub fn not_found(path: &str) -> (e: Error)
    ensures
        e matches Error::NotFound(m) && m@ == not_found_text(path@),
{
    let mut out: Vec<char> = Vec::new();
    push_str(&mut out, "Image file not found: \"");
    push_str(&mut out, path);
    push_str(&mut out, "\"");
    assert(out@ =~= not_found_text(path@));
    Error::NotFound(from_chars(out.as_slice()))
}

/// The name of the temporary file for image data that arrived on standard
/// input, made with the identifier `id`.
pub open spec fn stdin_file_name(id: Seq<char>) -> Seq<char> {
    "klipdot_stdin_"@ + id + ".png"@
}

/// A fresh name for the temporary file that holds image data from standard
/// input. A random identifier goes into it.
pub fn stdin_temp_name() -> (r: String)
    ensures
        exists|id: Seq<char>| id.len() == 36 && r@ == #[trigger] stdin_file_name(id),
{
    let id = crate::random_uuid();
    let mut out: Vec<char> = Vec::new();
    push_str(&mut out, "klipdot_stdin_");
    push_str(&mut out, id.as_str());
    push_str(&mut out, ".png");
    assert(out@ =~= stdin_file_name(id@));
    from_chars(out.as_slice())
}

} // verus!
