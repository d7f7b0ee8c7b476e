//! The clipboard programs of each platform: how they are started and what
//! their output means. Starting them is the caller's part.

use crate::base64_codec::base64_text;
use crate::base64_codec::can_encode;
use crate::base64_codec::encodable_len;
use crate::error::Error;
use crate::hex_codec::hex_bytes;
use crate::hex_codec::is_hex_text;
use crate::image_preview::CommandLine;
use crate::signature::has_image_signature;
use crate::signature::sniff;
use crate::text::from_chars;
use crate::text::has_prefix;
use crate::text::lossy_text;
use crate::text::push_str;
use crate::text::replace;
use crate::text::replaced;
use crate::text::starts_with;
use crate::text::str_eq;
use crate::text::to_chars;
use crate::text::trim;
use crate::text::trimmed;
use crate::text::utf8_lossy;
use vstd::prelude::*;

verus! {

/// What a clipboard program left behind when it exited.
#[derive(Debug, Clone)]
pub struct ToolOutput {
    pub success: bool,
    pub stdout: Vec<u8>,
}

/// At which point talking to a clipboard program failed.
#[derive(Debug, Clone, Copy, PartialEq, Eq, Structural)]
pub enum WriteStage {
    Start,
    Write,
    Wait,
}

/// The command lines that read the clipboard with `tool`, in the order in
/// which they are tried: `wl-paste` is asked for text first and for a PNG
/// image second.
pub open spec fn read_commands(tool: Seq<char>) -> Option<Seq<(Seq<char>, Seq<Seq<char>>)>> {
    if tool == "wl-paste"@ {
        Some(
            seq![
                ("wl-paste"@, seq!["--type"@, "text/plain"@]),
                ("wl-paste"@, seq!["--type"@, "image/png"@]),
            ],
        )
    } else if tool == "xclip"@ {
        Some(seq![("xclip"@, seq!["-selection"@, "clipboard"@, "-o"@])])
    } else if tool == "xsel"@ {
        Some(seq![("xsel"@, seq!["--clipboard"@, "--output"@])])
    } else {
        None
    }
}

/// The command line that fills the clipboard, from its standard input,
/// with `tool`.
pub open spec fn write_command(tool: Seq<char>) -> Option<(Seq<char>, Seq<Seq<char>>)> {
    if tool == "wl-copy"@ {
        Some(("wl-copy"@, seq!["--type"@, "text/plain"@]))
    } else if tool == "xclip"@ {
        Some(("xclip"@, seq!["-selection"@, "clipboard"@]))
    } else if tool == "xsel"@ {
        Some(("xsel"@, seq!["--clipboard"@, "--input"@]))
    } else {
        None
    }
}

/// The views of a list of command lines.
pub open spec fn command_views(v: Seq<CommandLine>) -> Seq<(Seq<char>, Seq<Seq<char>>)> {
    Seq::new(v.len(), |i: int| v[i]@)
}

/// A command line from a program and its arguments.
pub fn command(program: &str, args: Vec<&str>) -> (r: CommandLine)
    ensures
        r@ == (program@, crate::text::slices(args@)),
{
    CommandLine { program: program.to_string(), args: crate::text::to_strings(args.as_slice()) }
}

/// The error for a clipboard tool that is not known.
pub fn unsupported_tool(tool: &str) -> (e: Error)
    ensures
        e matches Error::Clipboard(m) && m@ == "Unsupported clipboard tool: "@ + tool@,
{
    let mut out: Vec<char> = Vec::new();
    push_str(&mut out, "Unsupported clipboard tool: ");
    push_str(&mut out, tool);
    Error::Clipboard(from_chars(out.as_slice()))
}

/// The command lines that read the clipboard with `tool`.
pub fn clipboard_read_commands(tool: &str) -> (r: Result<Vec<CommandLine>, Error>)
    ensures
        match r {
            Ok(commands) => read_commands(tool@) == Some(command_views(commands@)),
            Err(e) => read_commands(tool@) is None && (e matches Error::Clipboard(m) && m@
                == "Unsupported clipboard tool: "@ + tool@),
        },
{
    let mut commands: Vec<CommandLine> = Vec::new();
    if str_eq(tool, "wl-paste") {
        let a = vec!["--type", "text/plain"];
        assert(crate::text::slices(a@) =~= seq!["--type"@, "text/plain"@]);
        commands.push(command("wl-paste", a));
        let b = vec!["--type", "image/png"];
        assert(crate::text::slices(b@) =~= seq!["--type"@, "image/png"@]);
        commands.push(command("wl-paste", b));
    } else if str_eq(tool, "xclip") {
        let a = vec!["-selection", "clipboard", "-o"];
        assert(crate::text::slices(a@) =~= seq!["-selection"@, "clipboard"@, "-o"@]);
        commands.push(command("xclip", a));
    } else if str_eq(tool, "xsel") {
        let a = vec!["--clipboard", "--output"];
        assert(crate::text::slices(a@) =~= seq!["--clipboard"@, "--output"@]);
        commands.push(command("xsel", a));
    } else {
        return Err(unsupported_tool(tool));
    }
    assert(command_views(commands@) =~= read_commands(tool@).unwrap());
    Ok(commands)
}

/// The command line that fills the clipboard with `tool`.
pub fn clipboard_write_command(tool: &str) -> (r: Result<CommandLine, Error>)
    ensures
        match r {
            Ok(c) => write_command(tool@) == Some(c@),
            Err(e) => write_command(tool@) is None && (e matches Error::Clipboard(m) && m@
                == "Unsupported clipboard tool: "@ + tool@),
        },
{
    if str_eq(tool, "wl-copy") {
        let a = vec!["--type", "text/plain"];
        assert(crate::text::slices(a@) =~= seq!["--type"@, "text/plain"@]);
        Ok(command("wl-copy", a))
    } else if str_eq(tool, "xclip") {
        let a = vec!["-selection", "clipboard"];
        assert(crate::text::slices(a@) =~= seq!["-selection"@, "clipboard"@]);
        Ok(command("xclip", a))
    } else if str_eq(tool, "xsel") {
        let a = vec!["--clipboard", "--input"];
        assert(crate::text::slices(a@) =~= seq!["--clipboard"@, "--input"@]);
        Ok(command("xsel", a))
    } else {
        Err(unsupported_tool(tool))
    }
}

/// Whether `c` is a printable ASCII character or ASCII white space.
pub open spec fn is_plain_char(c: char) -> bool {
    ('!' <= c <= '~') || c == ' ' || c == '\t' || c == '\n' || c == '\x0C' || c == '\r'
}

/// Whether `text` is made of printable ASCII and ASCII white space alone.
pub open spec fn is_plain_text(text: Seq<char>) -> bool {
    forall|i: int| 0 <= i < text.len() ==> is_plain_char(#[trigger] text[i])
}

/// Executable form of [`is_plain_text`].
pub fn text_is_plain(text: &[char]) -> (r: bool)
    ensures
        r == is_plain_text(text@),
{
    let mut i: usize = 0;
    while i < text.len()
        invariant
            i <= text.len(),
            forall|j: int| 0 <= j < i ==> is_plain_char(#[trigger] text@[j]),
        decreases text.len() - i,
    {
        let c = text[i];
        if !(('!' <= c && c <= '~') || c == ' ' || c == '\t' || c == '\n' || c == '\x0C' || c
            == '\r') {
            return false;
        }
        i += 1;
    }
    true
}

/// The text that an attempt to read the clipboard gave, if it gave any.
pub open spec fn output_text(success: bool, stdout: Seq<u8>) -> Option<Seq<char>> {
    if success && utf8_lossy(stdout).len() > 0 {
        Some(utf8_lossy(stdout))
    } else {
        None
    }
}

/// Whether the output of `tool` is taken for binary image data: that of
/// `wl-paste` is, where it is no data URI and not plain text.
pub open spec fn looks_binary(tool: Seq<char>, text: Seq<char>) -> bool {
    tool == "wl-paste"@ && !starts_with(text, "data:"@) && !is_plain_text(text)
}

/// The clipboard content that the last attempt with `tool` gave: its
/// output as text, or as base64 text where it is taken for binary image
/// data.
pub open spec fn clipboard_content(tool: Seq<char>, success: bool, stdout: Seq<u8>) -> Option<
    Seq<char>,
> {
    match output_text(success, stdout) {
        Some(text) => if looks_binary(tool, text) && encodable_len(stdout.len()) {
            Some(base64_text(stdout))
        } else {
            Some(text)
        },
        None => None,
    }
}

/// Whether the output `text` of `tool` is taken for binary image data.
pub fn output_is_binary(tool: &str, text: &str) -> (r: bool)
    ensures
        r == looks_binary(tool@, text@),
{
    let chars = to_chars(text);
    let data_prefix = to_chars("data:");
    str_eq(tool, "wl-paste") && !has_prefix(chars.as_slice(), data_prefix.as_slice())
        && !text_is_plain(chars.as_slice())
}

/// Says what the first, textual, attempt of `wl-paste` gave. `None` means
/// that the next attempt must be made.
pub fn text_attempt(output: &ToolOutput) -> (r: Option<String>)
    ensures
        crate::opt_text(r) == output_text(output.success, output.stdout@),
{
    if !output.success {
        return None;
    }
    let text = lossy_text(output.stdout.as_slice());
    let chars = to_chars(text.as_str());
    if chars.len() == 0 {
        None
    } else {
        Some(text)
    }
}

/// Says what the last attempt to read the clipboard with `tool` gave.
pub fn final_attempt(tool: &str, output: &ToolOutput) -> (r: Option<String>)
    ensures
        crate::opt_text(r) == clipboard_content(tool@, output.success, output.stdout@),
{
    if !output.success {
        return None;
    }
    let text = lossy_text(output.stdout.as_slice());
    let chars = to_chars(text.as_str());
    if chars.len() == 0 {
        return None;
    }
    if output_is_binary(tool, text.as_str()) && can_encode(output.stdout.as_slice()) {
        Some(crate::base64_codec::encode(output.stdout.as_slice()))
    } else {
        Some(text)
    }
}

/// The message for a failure to fill the clipboard with `tool`.
pub open spec fn write_failure_text(tool: Seq<char>, stage: WriteStage, reason: Seq<char>) -> Seq<
    char,
> {
    match stage {
        WriteStage::Start => "Failed to start "@ + tool + ": "@ + reason,
        WriteStage::Write => "Failed to write to "@ + tool + ": "@ + reason,
        WriteStage::Wait => "Failed to wait for "@ + tool + ": "@ + reason,
    }
}

/// The error for a failure to fill the clipboard with `tool`.
pub fn write_failure(tool: &str, stage: WriteStage, reason: &str) -> (e: Error)
    ensures
        e matches Error::Clipboard(m) && m@ == write_failure_text(tool@, stage, reason@),
{
    let mut out: Vec<char> = Vec::new();
    match stage {
        WriteStage::Start => push_str(&mut out, "Failed to start "),
        WriteStage::Write => push_str(&mut out, "Failed to write to "),
        WriteStage::Wait => push_str(&mut out, "Failed to wait for "),
    }
    push_str(&mut out, tool);
    push_str(&mut out, ": ");
    push_str(&mut out, reason);
    assert(out@ =~= write_failure_text(tool@, stage, reason@));
    Error::Clipboard(from_chars(out.as_slice()))
}

/// The result of filling the clipboard with `tool`, given how the tool
/// exited.
pub fn write_result(tool: &str, success: bool) -> (r: Result<(), Error>)
    ensures
        match r {
            Ok(_) => success,
            Err(e) => !success && (e matches Error::Clipboard(m) && m@ == tool@ + " failed"@),
        },
{
    if success {
        Ok(())
    } else {
        let mut out: Vec<char> = Vec::new();
        push_str(&mut out, tool);
        push_str(&mut out, " failed");
        Err(Error::Clipboard(from_chars(out.as_slice())))
    }
}

/// The error for a system without any clipboard tool.
pub fn no_tools() -> (e: Error)
    ensures
        e matches Error::Clipboard(m) && m@ == "No clipboard tools available"@,
{
    Error::Clipboard("No clipboard tools available".to_string())
}

/// The error for a clipboard that no tool could fill.
pub fn all_tools_failed() -> (e: Error)
    ensures
        e matches Error::Clipboard(m) && m@
            == "Failed to set clipboard content with any available tool"@,
{
    Error::Clipboard("Failed to set clipboard content with any available tool".to_string())
}

/// The script that asks macOS for the clipboard's PNG data.
pub const OSASCRIPT_PNG: &'static str =
    "\n                try\n                    set imageData to the clipboard as «class PNGf»\n                    return imageData\n                end try\n            ";

/// The digits in the text that `osascript` printed for PNG data: the text
/// without surrounding white space, the mark `«data PNGf`, the mark `»`
/// and spaces.
pub open spec fn digits_of_text(text: Seq<char>) -> Seq<char> {
    replaced(replaced(replaced(trimmed(text), "«data PNGf"@, ""@), "»"@, ""@), " "@, ""@)
}

/// The digits in what `osascript` printed for PNG data.
pub open spec fn osascript_digits(stdout: Seq<u8>) -> Seq<char> {
    digits_of_text(utf8_lossy(stdout))
}

/// Takes the digits out of the text that `osascript` printed.
pub fn osascript_digits_of(text: &str) -> (r: String)
    ensures
        r@ == digits_of_text(text@),
{
    let chars = to_chars(text);
    let t = trim(chars.as_slice());
    let empty: Vec<char> = Vec::new();
    let open_mark = to_chars("«data PNGf");
    let close_mark = to_chars("»");
    let space = to_chars(" ");
    proof {
        reveal_strlit("");
        assert(empty@ =~= ""@);
    }
    let a = replace(t.as_slice(), open_mark.as_slice(), empty.as_slice());
    let b = replace(a.as_slice(), close_mark.as_slice(), empty.as_slice());
    let c = replace(b.as_slice(), space.as_slice(), empty.as_slice());
    from_chars(c.as_slice())
}

/// The image that `osascript` printed, if it printed one: the bytes that
/// its digits stand for, where they begin like an image.
pub open spec fn osascript_image(success: bool, stdout: Seq<u8>) -> Option<Seq<u8>> {
    if success && stdout.len() > 0 && is_hex_text(osascript_digits(stdout)) && sniff(
        hex_bytes(osascript_digits(stdout)),
    ) is Some {
        Some(hex_bytes(osascript_digits(stdout)))
    } else {
        None
    }
}

/// Reads the image that `osascript` printed.
pub fn parse_osascript_png(output: &ToolOutput) -> (r: Option<Vec<u8>>)
    ensures
        crate::clipboard::bytes_view(r) == osascript_image(output.success, output.stdout@),
{
    if !output.success || output.stdout.len() == 0 {
        return None;
    }
    let text = lossy_text(output.stdout.as_slice());
    let digits = osascript_digits_of(text.as_str());
    match crate::hex_codec::decode(digits.as_str()) {
        Ok(bytes) => {
            if has_image_signature(bytes.as_slice()) {
                Some(bytes)
            } else {
                None
            }
        },
        Err(_) => None,
    }
}

/// The image that a program printed as raw bytes, if it printed any.
pub fn raw_image(output: &ToolOutput, check_signature: bool) -> (r: Option<Vec<u8>>)
    ensures
        crate::clipboard::bytes_view(r) == (if output.success && output.stdout@.len() > 0 && (
        !check_signature || sniff(output.stdout@) is Some) {
            Some(output.stdout@)
        } else {
            None
        }),
{
    if output.success && output.stdout.len() > 0 && (!check_signature || has_image_signature(
        output.stdout.as_slice(),
    )) {
        Some(vstd::slice::slice_to_vec(output.stdout.as_slice()))
    } else {
        None
    }
}

/// The clipboard content that image bytes stand for: their base64 text.
/// No bytes, or too many to encode, stand for none.
pub fn image_content(image: &[u8]) -> (r: Option<String>)
    ensures
        crate::opt_text(r) == (if image@.len() > 0 && encodable_len(image@.len()) {
            Some(base64_text(image@))
        } else {
            None
        }),
{
    if image.len() > 0 && can_encode(image) {
        Some(crate::base64_codec::encode(image))
    } else {
        None
    }
}

} // verus!
