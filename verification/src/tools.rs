//! The helper programs the library knows by name, and which of them are
//! installed.

use crate::DisplayServer;
use crate::paths::is_command_available;
use crate::text::slices;
use crate::text::texts;
use crate::text::to_strings;
use vstd::prelude::*;

verus! {

/// Screenshot tools for Wayland.
pub open spec fn wayland_screenshot_tools() -> Seq<Seq<char>> {
    seq!["grim"@, "wayshot"@, "grimshot"@, "spectacle"@, "flameshot"@]
}

/// Screenshot tools for X11.
pub open spec fn x11_screenshot_tools() -> Seq<Seq<char>> {
    seq!["scrot"@, "gnome-screenshot"@, "import"@, "xfce4-screenshooter"@]
}

/// Clipboard tools for Wayland.
pub open spec fn wayland_clipboard_tools() -> Seq<Seq<char>> {
    seq!["wl-copy"@, "wl-paste"@]
}

/// Clipboard tools for X11.
pub open spec fn x11_clipboard_tools() -> Seq<Seq<char>> {
    seq!["xclip"@, "xsel"@]
}

/// Names of processes that work on images.
pub open spec fn image_process_names() -> Seq<Seq<char>> {
    seq![
        "screencapture"@,
        "screenshot"@,
        "scrot"@,
        "gnome-screenshot"@,
        "import"@,
        "convert"@,
        "ffmpeg"@,
        "imagemagick"@,
        "gimp"@,
        "inkscape"@,
        "grim"@,
        "slurp"@,
        "wayshot"@,
        "grimshot"@,
        "spectacle"@,
        "flameshot"@,
    ]
}

/// Screenshot tools for Wayland.
pub fn wayland_screenshot_tool_names() -> (r: Vec<String>)
    ensures
        texts(r@) == wayland_screenshot_tools(),
{
    let names = vec!["grim", "wayshot", "grimshot", "spectacle", "flameshot"];
    assert(slices(names@) =~= wayland_screenshot_tools());
    to_strings(names.as_slice())
}

/// Screenshot tools for X11.
pub fn x11_screenshot_tool_names() -> (r: Vec<String>)
    ensures
        texts(r@) == x11_screenshot_tools(),
{
    let names = vec!["scrot", "gnome-screenshot", "import", "xfce4-screenshooter"];
    assert(slices(names@) =~= x11_screenshot_tools());
    to_strings(names.as_slice())
}

/// Clipboard tools for Wayland.
pub fn wayland_clipboard_tool_names() -> (r: Vec<String>)
    ensures
        texts(r@) == wayland_clipboard_tools(),
{
    let names = vec!["wl-copy", "wl-paste"];
    assert(slices(names@) =~= wayland_clipboard_tools());
    to_strings(names.as_slice())
}

/// Clipboard tools for X11.
pub fn x11_clipboard_tool_names() -> (r: Vec<String>)
    ensures
        texts(r@) == x11_clipboard_tools(),
{
    let names = vec!["xclip", "xsel"];
    assert(slices(names@) =~= x11_clipboard_tools());
    to_strings(names.as_slice())
}

/// Names of processes that work on images.
pub fn image_process_name_list() -> (r: Vec<&'static str>)
    ensures
        slices(r@) == image_process_names(),
{
    let names = vec![
        "screencapture",
        "screenshot",
        "scrot",
        "gnome-screenshot",
        "import",
        "convert",
        "ffmpeg",
        "imagemagick",
        "gimp",
        "inkscape",
        "grim",
        "slurp",
        "wayshot",
        "grimshot",
        "spectacle",
        "flameshot",
    ];
    assert(slices(names@) =~= image_process_names());
    names
}

/// The clipboard tools to look for under a display server, in order of
/// preference. Under Wayland the X11 tools serve as a fallback.
pub open spec fn clipboard_candidates(server: DisplayServer) -> Seq<Seq<char>> {
    match server {
        DisplayServer::Wayland => wayland_clipboard_tools() + x11_clipboard_tools(),
        DisplayServer::X11 => x11_clipboard_tools(),
        DisplayServer::Unknown => wayland_clipboard_tools() + x11_clipboard_tools(),
    }
}

/// The screenshot tools to look for under a display server, in order of
/// preference.
pub open spec fn screenshot_candidates(server: DisplayServer) -> Seq<Seq<char>> {
    match server {
        DisplayServer::Wayland => wayland_screenshot_tools(),
        DisplayServer::X11 => x11_screenshot_tools(),
        DisplayServer::Unknown => wayland_screenshot_tools() + x11_screenshot_tools(),
    }
}

/// Appends `tail` to `list`.
pub fn append_strings(list: &mut Vec<String>, tail: Vec<String>)
    ensures
        texts(final(list)@) == texts(old(list)@) + texts(tail@),
{
    let ghost added = tail@;
    let mut tail = tail;
    list.append(&mut tail);
    assert(texts(list@) =~= texts(old(list)@) + texts(added));
}

/// The clipboard tools to look for under a display server.
pub fn clipboard_candidate_names(server: DisplayServer) -> (r: Vec<String>)
    ensures
        texts(r@) == clipboard_candidates(server),
{
    match server {
        DisplayServer::X11 => x11_clipboard_tool_names(),
        _ => {
            let mut r = wayland_clipboard_tool_names();
            append_strings(&mut r, x11_clipboard_tool_names());
            r
        },
    }
}

/// The screenshot tools to look for under a display server.
pub fn screenshot_candidate_names(server: DisplayServer) -> (r: Vec<String>)
    ensures
        texts(r@) == screenshot_candidates(server),
{
    match server {
        DisplayServer::Wayland => wayland_screenshot_tool_names(),
        DisplayServer::X11 => x11_screenshot_tool_names(),
        DisplayServer::Unknown => {
            let mut r = wayland_screenshot_tool_names();
            append_strings(&mut r, x11_screenshot_tool_names());
            r
        },
    }
}

/// The first `n` candidates that are marked available, in order.
pub open spec fn chosen_upto(candidates: Seq<Seq<char>>, available: Seq<bool>, n: int) -> Seq<
    Seq<char>,
>
    decreases n,
{
    if n <= 0 {
        Seq::empty()
    } else {
        let rest = chosen_upto(candidates, available, n - 1);
        if n - 1 < available.len() && available[n - 1] {
            rest.push(candidates[n - 1])
        } else {
            rest
        }
    }
}

/// The candidates that are marked available, in order. A candidate
/// without a mark counts as not available.
pub open spec fn chosen(candidates: Seq<Seq<char>>, available: Seq<bool>) -> Seq<Seq<char>> {
    chosen_upto(candidates, available, candidates.len() as int)
}

/// Asks for each candidate whether it is installed.
pub fn probe(candidates: &[String]) -> (flags: Vec<bool>)
    ensures
        flags@.len() == candidates@.len(),
{
    let mut flags: Vec<bool> = Vec::new();
    let mut i: usize = 0;
    while i < candidates.len()
        invariant
            i <= candidates.len(),
            flags@.len() == i,
        decreases candidates.len() - i,
    {
        flags.push(is_command_available(candidates[i].as_str()));
        i += 1;
    }
    flags
}

/// Keeps the candidates that are marked available.
pub fn choose_available(candidates: &[String], available: &[bool]) -> (r: Vec<String>)
    ensures
        texts(r@) == chosen(texts(candidates@), available@),
{
    let mut r: Vec<String> = Vec::new();
    let mut i: usize = 0;
    while i < candidates.len()
        invariant
            i <= candidates.len(),
            texts(r@) == chosen_upto(texts(candidates@), available@, i as int),
        decreases candidates.len() - i,
    {
        let ghost before = texts(r@);
        if i < available.len() && available[i] {
            r.push(candidates[i].clone());
            assert(texts(r@) =~= before.push(texts(candidates@)[i as int]));
        }
        i += 1;
    }
    r
}

/// The candidates that are installed now, in order.
pub fn available_among(candidates: &[String]) -> (r: Vec<String>)
    ensures
        exists|flags: Seq<bool>|
            flags.len() == candidates@.len() && texts(r@) == #[trigger] chosen(
                texts(candidates@),
                flags,
            ),
{
    let flags = probe(candidates);
    choose_available(candidates, flags.as_slice())
}

} // verus!
