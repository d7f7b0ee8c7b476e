//! Clipboard content: telling image payloads from ordinary text, turning
//! them into bytes, and skipping content that has not changed.

use crate::base64_codec::base64_bytes;
use crate::base64_codec::base64_text;
use crate::base64_codec::is_base64_char;
use crate::base64_codec::decode_bytes;
use crate::config::Config;
use crate::error::Error;
use crate::signature::classify;
use crate::signature::sniff;
use crate::text::find_char;
use crate::text::first_index;
use crate::text::from_chars;
use crate::text::has_prefix;
use crate::text::is_first_at;
use crate::text::slice_chars;
use crate::text::starts_with;
use crate::text::str_eq;
use crate::text::to_chars;
use vstd::prelude::*;

verus! {

/// Why a piece of content gave no image bytes.
#[derive(Clone, Copy, Debug, PartialEq, Eq, Structural)]
pub enum DecodeError {
    /// The content announces `data:image/` but has no comma, or what follows
    /// the first comma is not canonical base64.
    InvalidDataUrl,
    /// No reading of the content begins with the magic bytes of an image.
    /// This is the usual answer for ordinary text.
    UnrecognizedFormat,
}

/// The length a string must exceed to be tried as bare base64.
pub const MIN_BASE64_LEN: usize = 100;

/// Whether `content` is long enough, and made of the right characters, to
/// be worth a base64 decoding attempt.
pub open spec fn plausibly_base64(content: Seq<char>) -> bool {
    &&& content.len() > MIN_BASE64_LEN
    &&& forall|i: int| 0 <= i < content.len() ==> is_base64_char(#[trigger] content[i])
}

/// Whether `content` announces itself as an image data URI.
pub open spec fn is_data_url(content: Seq<char>) -> bool {
    starts_with(content, "data:image/"@)
}

/// What follows the first comma of `content`.
pub open spec fn data_url_payload(content: Seq<char>) -> Option<Seq<char>> {
    match first_index(content, ',') {
        Some(i) => Some(content.skip(i + 1)),
        None => None,
    }
}

/// The data URI with media type `image/<subtype>` and payload `text`.
pub open spec fn data_url_text(subtype: Seq<char>, text: Seq<char>) -> Seq<char> {
    "data:image/"@ + subtype + ";base64,"@ + text
}

/// The outcome for a data URI, given what its payload decoded to.
pub open spec fn data_url_outcome(decoded: Option<Seq<u8>>) -> Result<Seq<u8>, DecodeError> {
    match decoded {
        Some(bytes) => Ok(bytes),
        None => Err(DecodeError::InvalidDataUrl),
    }
}

/// The outcome for content that is no data URI: the base64-decoded bytes
/// where there are any and they carry an image signature, else the raw bytes
/// where those carry one.
pub open spec fn sniffed_outcome(raw: Seq<u8>, decoded: Option<Seq<u8>>) -> Result<
    Seq<u8>,
    DecodeError,
> {
    if decoded is Some && sniff(decoded.unwrap()) is Some {
        Ok(decoded.unwrap())
    } else if sniff(raw) is Some {
        Ok(raw)
    } else {
        Err(DecodeError::UnrecognizedFormat)
    }
}

/// The image bytes that `content` stands for.
///
/// A data URI is decoded without looking at the bytes. Anything else must
/// show an image signature, either after base64 decoding or as it is.
pub open spec fn decoded(content: Seq<char>) -> Result<Seq<u8>, DecodeError> {
    if is_data_url(content) {
        match data_url_payload(content) {
            Some(payload) => data_url_outcome(base64_bytes(payload)),
            None => Err(DecodeError::InvalidDataUrl),
        }
    } else {
        sniffed_outcome(
            vstd::utf8::encode_utf8(content),
            if plausibly_base64(content) {
                base64_bytes(content)
            } else {
                None
            },
        )
    }
}

/// The view of a decoding result.
pub open spec fn outcome_view(r: Result<Vec<u8>, DecodeError>) -> Result<Seq<u8>, DecodeError> {
    match r {
        Ok(v) => Ok(v@),
        Err(e) => Err(e),
    }
}

/// The view of optional bytes.
pub open spec fn bytes_view(o: Option<Vec<u8>>) -> Option<Seq<u8>> {
    match o {
        Some(v) => Some(v@),
        None => None,
    }
}

/// Executable form of [`is_base64_char`].
pub fn char_is_base64(c: char) -> (r: bool)
    ensures
        r == is_base64_char(c),
{
    ('A' <= c && c <= 'Z') || ('a' <= c && c <= 'z') || ('0' <= c && c <= '9') || c == '+' || c
        == '/' || c == '='
}

/// Executable form of [`plausibly_base64`].
pub fn looks_like_base64(content: &[char]) -> (r: bool)
    ensures
        r == plausibly_base64(content@),
{
    if content.len() <= MIN_BASE64_LEN {
        return false;
    }
    let mut i: usize = 0;
    while i < content.len()
        invariant
            i <= content.len(),
            forall|j: int| 0 <= j < i ==> is_base64_char(#[trigger] content@[j]),
        decreases content.len() - i,
    {
        if !char_is_base64(content[i]) {
            return false;
        }
        i += 1;
    }
    true
}

/// The outcome for a data URI whose payload decoded to `decoded`.
pub fn data_url_result(decoded: Option<Vec<u8>>) -> (r: Result<Vec<u8>, DecodeError>)
    ensures
        outcome_view(r) == data_url_outcome(bytes_view(decoded)),
{
    match decoded {
        Some(bytes) => Ok(bytes),
        None => Err(DecodeError::InvalidDataUrl),
    }
}

/// The outcome for content with raw bytes `raw` whose base64 decoding
/// attempt, if one was made and succeeded, gave `decoded`.
pub fn sniffed_result(raw: &[u8], decoded: Option<Vec<u8>>) -> (r: Result<Vec<u8>, DecodeError>)
    ensures
        outcome_view(r) == sniffed_outcome(raw@, bytes_view(decoded)),
{
    if let Some(bytes) = decoded {
        if classify(bytes.as_slice()).is_some() {
            return Ok(bytes);
        }
    }
    if classify(raw).is_some() {
        Ok(vstd::slice::slice_to_vec(raw))
    } else {
        Err(DecodeError::UnrecognizedFormat)
    }
}

/// Turns clipboard or stream content into image bytes.
pub fn decode(content: &str) -> (r: Result<Vec<u8>, DecodeError>)
    ensures
        outcome_view(r) == decoded(content@),
{
    let chars = to_chars(content);
    let prefix = to_chars("data:image/");
    if has_prefix(chars.as_slice(), prefix.as_slice()) {
        match find_char(chars.as_slice(), ',', 0) {
            Some(comma) => {
                let payload = slice_chars(chars.as_slice(), comma + 1, chars.len());
                assert(payload@ =~= content@.skip(comma + 1));
                let payload_text = from_chars(payload.as_slice());
                data_url_result(decode_bytes(payload_text.as_str()))
            },
            None => Err(DecodeError::InvalidDataUrl),
        }
    } else {
        let attempt = if looks_like_base64(chars.as_slice()) {
            decode_bytes(content)
        } else {
            None
        };
        sniffed_result(content.as_bytes(), attempt)
    }
}

/// Whether `content` stands for image bytes.
pub fn is_image_data(content: &str) -> (r: bool)
    ensures
        r == decoded(content@).is_ok(),
{
    decode(content).is_ok()
}

/// The first comma of a data URI whose media subtype holds none is the one
/// that ends `;base64,`: its payload is all that follows.
pub proof fn lemma_data_url_payload(subtype: Seq<char>, text: Seq<char>)
    requires
        !subtype.contains(','),
    ensures
        is_data_url(data_url_text(subtype, text)),
        data_url_payload(data_url_text(subtype, text)) == Some(text),
{
    reveal_strlit("data:image/");
    reveal_strlit(";base64,");
    let head = "data:image/"@ + subtype + ";base64,"@;
    let content = head + text;
    let comma = head.len() - 1;
    assert(content.subrange(0, 11) =~= "data:image/"@);
    assert(content[comma] == ',');
    assert forall|j: int| 0 <= j < comma implies content[j] != ',' by {
        if j >= 11 && j < 11 + subtype.len() {
            assert(content[j] == subtype[j - 11]);
            assert(subtype.contains(subtype[j - 11]));
        }
    }
    assert(is_first_at(content, ',', 0, comma));
    let k = choose|k: int| is_first_at(content, ',', 0, k);
    assert(is_first_at(content, ',', 0, k));
    assert(k == comma);
    assert(content.skip(comma + 1) =~= text);
}

/// Encoding any bytes as a base64 data URI and decoding the result gives
/// the same bytes back, whether or not they are an image.
pub proof fn lemma_data_url_round_trip(subtype: Seq<char>, bytes: Seq<u8>)
    requires
        !subtype.contains(','),
    ensures
        decoded(data_url_text(subtype, base64_text(bytes))) == Ok::<Seq<u8>, DecodeError>(bytes),
{
    lemma_data_url_payload(subtype, base64_text(bytes));
    crate::base64_codec::lemma_base64_round_trip(bytes);
}

/// Encoding any bytes as a PNG data URI and decoding the result gives the
/// same bytes back.
pub proof fn lemma_png_data_url_round_trip(bytes: Seq<u8>)
    ensures
        decoded("data:image/png;base64,"@ + base64_text(bytes)) == Ok::<Seq<u8>, DecodeError>(
            bytes,
        ),
{
    reveal_strlit("data:image/png;base64,");
    reveal_strlit("data:image/");
    reveal_strlit("png");
    reveal_strlit(";base64,");
    assert("data:image/png;base64,"@ =~= "data:image/"@ + "png"@ + ";base64,"@);
    assert forall|i: int| 0 <= i < "png"@.len() implies "png"@[i] != ',' by {}
    lemma_data_url_round_trip("png"@, bytes);
}

/// Base64 text is no data URI: it holds no colon.
pub proof fn lemma_base64_text_is_no_data_url(bytes: Seq<u8>)
    ensures
        !is_data_url(base64_text(bytes)),
{
    reveal_strlit("data:image/");
    crate::base64_codec::lemma_base64_text_shape(bytes);
    let text = base64_text(bytes);
    if is_data_url(text) {
        assert(text.subrange(0, 11)[4] == ':');
        assert(is_base64_char(text[4]));
    }
}

/// The base64 text of an image, where it is long enough to be tried,
/// decodes to the image. Shorter text is passed over, unless it happens to
/// begin like an image itself.
pub proof fn lemma_encoded_image_is_decoded(bytes: Seq<u8>)
    requires
        sniff(bytes) is Some,
        base64_text(bytes).len() > MIN_BASE64_LEN,
    ensures
        decoded(base64_text(bytes)) == Ok::<Seq<u8>, DecodeError>(bytes),
{
    lemma_base64_text_is_no_data_url(bytes);
    crate::base64_codec::lemma_base64_text_shape(bytes);
    crate::base64_codec::lemma_base64_round_trip(bytes);
}

/// Ordinary text stands for no image: ASCII text that is no data URI, is
/// too short or of the wrong characters to be tried as base64, and begins
/// with none of the characters that begin a magic byte sequence (`G`, `B`,
/// `R`, `I`, `M` and NUL).
pub proof fn lemma_ordinary_text_is_no_image(content: Seq<char>)
    requires
        vstd::utf8::is_ascii_chars(content),
        !is_data_url(content),
        !plausibly_base64(content),
        content.len() > 0 ==> !crate::signature::is_magic_lead(content[0] as u8),
    ensures
        decoded(content) == Err::<Seq<u8>, DecodeError>(DecodeError::UnrecognizedFormat),
{
    vstd::utf8::is_ascii_chars_encode_utf8(content);
    let raw = vstd::utf8::encode_utf8(content);
    if content.len() > 0 {
        assert(raw[0] == content[0] as u8);
    }
    crate::signature::lemma_no_magic_lead_is_unclassified(raw);
}

/// Remembers the last value seen from one source, and nothing before it.
#[derive(Debug, Clone)]
pub struct ChangeTracker {
    last: Option<String>,
}

/// Whether `value` differs from the value seen last, and the value seen
/// last from then on.
pub open spec fn observed(last: Option<Seq<char>>, value: Seq<char>) -> (bool, Option<Seq<char>>) {
    (last != Some(value), Some(value))
}

impl ChangeTracker {
    /// The value seen last.
    pub closed spec fn last_seen(&self) -> Option<Seq<char>> {
        crate::opt_text(self.last)
    }

    /// A tracker that has seen nothing.
    pub fn new() -> (r: Self)
        ensures
            r.last_seen() is None,
    {
        ChangeTracker { last: None }
    }

    /// Takes a value from the source and says whether it differs from the
    /// one before. The value is remembered in place of the one before.
    pub fn observe(&mut self, value: &str) -> (changed: bool)
        ensures
            changed == observed(old(self).last_seen(), value@).0,
            final(self).last_seen() == observed(old(self).last_seen(), value@).1,
    {
        let same = match &self.last {
            Some(last) => str_eq(last.as_str(), value),
            None => false,
        };
        if !same {
            self.last = Some(value.to_string());
        }
        !same
    }
}

/// A value seen twice in a row is a change the first time, provided it was
/// not the value before, and no change the second time.
pub proof fn lemma_repeated_value_is_no_change(last: Option<Seq<char>>, x: Seq<char>)
    ensures
        last != Some(x) ==> observed(last, x).0,
        !observed(observed(last, x).1, x).0,
{
}

/// Only one value is remembered: after `x` then `y`, a different value,
/// `x` is a change again. On a tracker that has seen nothing, all three
/// are changes.
pub proof fn lemma_return_to_earlier_value_is_change(x: Seq<char>, y: Seq<char>)
    requires
        x != y,
    ensures
        observed(None, x).0,
        observed(observed(None, x).1, y).0,
        observed(observed(observed(None, x).1, y).1, x).0,
{
}

/// What a look at the clipboard gave.
#[derive(Debug, Clone)]
pub enum ClipboardEvent {
    /// Nothing is on the clipboard, or the same as at the last look.
    Unchanged,
    /// New content that is no image.
    NotImage,
    /// New content that is an image, as bytes.
    Image(Vec<u8>),
    /// New content that announces an image and cannot be decoded.
    Invalid,
}

/// The view of a [`ClipboardEvent`].
pub enum EventView {
    Unchanged,
    NotImage,
    Image(Seq<u8>),
    Invalid,
}

impl View for ClipboardEvent {
    type V = EventView;

    open spec fn view(&self) -> EventView {
        match self {
            ClipboardEvent::Unchanged => EventView::Unchanged,
            ClipboardEvent::NotImage => EventView::NotImage,
            ClipboardEvent::Image(bytes) => EventView::Image(bytes@),
            ClipboardEvent::Invalid => EventView::Invalid,
        }
    }
}

/// What content that changed stands for.
pub open spec fn event_of(content: Seq<char>) -> EventView {
    match decoded(content) {
        Ok(bytes) => EventView::Image(bytes),
        Err(DecodeError::InvalidDataUrl) => EventView::Invalid,
        Err(DecodeError::UnrecognizedFormat) => EventView::NotImage,
    }
}

/// The longest pause between two looks at the clipboard, in milliseconds.
pub const MAX_POLL_INTERVAL: u64 = 250;

/// The message of the error that a failed decoding stands for.
pub open spec fn decode_failure_text(e: DecodeError) -> Seq<char> {
    match e {
        DecodeError::InvalidDataUrl => "Invalid base64 data"@,
        DecodeError::UnrecognizedFormat => "Failed to decode image data"@,
    }
}

/// Watches the clipboard for images.
#[derive(Debug, Clone)]
pub struct ClipboardMonitor {
    config: Config,
    tracker: ChangeTracker,
    running: bool,
}

impl ClipboardMonitor {
    /// The content seen at the last look that found any.
    pub closed spec fn last_content(&self) -> Option<Seq<char>> {
        self.tracker.last_seen()
    }

    /// Whether the monitor is running.
    pub closed spec fn running(&self) -> bool {
        self.running
    }

    /// Whether watching the clipboard is switched on.
    pub closed spec fn enabled(&self) -> bool {
        self.config.intercept_methods.clipboard
    }

    /// The configured pause between two looks, in milliseconds.
    pub closed spec fn configured_interval(&self) -> u64 {
        self.config.poll_interval
    }

    /// A monitor that has seen nothing and does not run yet.
    pub fn new(config: Config) -> (r: Self)
        ensures
            r.last_content() is None,
            !r.running(),
            r.enabled() == config.intercept_methods.clipboard,
            r.configured_interval() == config.poll_interval,
    {
        ClipboardMonitor { config, tracker: ChangeTracker::new(), running: false }
    }

    /// The pause between two looks, in milliseconds: the configured one,
    /// but 250 at most.
    pub fn poll_interval(&self) -> (r: u64)
        ensures
            r == (if self.configured_interval() < MAX_POLL_INTERVAL {
                self.configured_interval()
            } else {
                MAX_POLL_INTERVAL
            }),
    {
        if self.config.poll_interval < MAX_POLL_INTERVAL {
            self.config.poll_interval
        } else {
            MAX_POLL_INTERVAL
        }
    }

    /// Begins a run. Where watching the clipboard is switched off there is
    /// nothing to do; else the monitor is running from now on and the
    /// pause between looks is returned.
    pub fn run(&mut self) -> (r: Option<u64>)
        ensures
            final(self).last_content() == old(self).last_content(),
            final(self).enabled() == old(self).enabled(),
            final(self).configured_interval() == old(self).configured_interval(),
            match r {
                Some(interval) => old(self).enabled() && final(self).running() && interval == (
                if old(self).configured_interval() < MAX_POLL_INTERVAL {
                    old(self).configured_interval()
                } else {
                    MAX_POLL_INTERVAL
                }),
                None => !old(self).enabled() && final(self).running() == old(self).running(),
            },
    {
        if !self.config.intercept_methods.clipboard {
            return None;
        }
        self.running = true;
        Some(self.poll_interval())
    }

    /// Ends the run.
    pub fn stop(&mut self)
        ensures
            !final(self).running(),
            final(self).last_content() == old(self).last_content(),
            final(self).enabled() == old(self).enabled(),
            final(self).configured_interval() == old(self).configured_interval(),
    {
        self.running = false;
    }

    /// Whether the monitor is running.
    pub fn is_running(&self) -> (r: bool)
        ensures
            r == self.running(),
    {
        self.running
    }

    /// What to do after a look at the clipboard failed: after a recoverable
    /// error, pause for this many milliseconds more and go on; after any
    /// other, end the run with the error.
    pub fn pause_after(&self, error: &Error) -> (r: Option<u64>)
        ensures
            r is Some <==> error.recoverable(),
            r is Some ==> r.unwrap() == 2 * (if self.configured_interval() < MAX_POLL_INTERVAL {
                self.configured_interval()
            } else {
                MAX_POLL_INTERVAL
            }),
    {
        if error.is_recoverable() {
            Some(2 * self.poll_interval())
        } else {
            None
        }
    }

    /// Takes what a look at the clipboard found. Content that is there and
    /// differs from what was seen last is remembered and decoded; anything
    /// else is passed over, so that the same content is never decoded
    /// twice in a row.
    pub fn poll_clipboard(&mut self, content: Option<&str>) -> (r: ClipboardEvent)
        ensures
            final(self).running() == old(self).running(),
            final(self).enabled() == old(self).enabled(),
            final(self).configured_interval() == old(self).configured_interval(),
            match content {
                Some(c) => final(self).last_content() == Some(c@) && r@ == (if old(self).last_content() == Some(c@) {
                    EventView::Unchanged
                } else {
                    event_of(c@)
                }),
                None => final(self).last_content() == old(self).last_content() && r@
                    == EventView::Unchanged,
            },
    {
        match content {
            Some(c) => {
                if self.tracker.observe(c) {
                    self.handle_clipboard_change(c)
                } else {
                    ClipboardEvent::Unchanged
                }
            },
            None => ClipboardEvent::Unchanged,
        }
    }

    /// Says what content that changed stands for.
    pub fn handle_clipboard_change(&self, content: &str) -> (r: ClipboardEvent)
        ensures
            r@ == event_of(content@),
    {
        match decode(content) {
            Ok(bytes) => ClipboardEvent::Image(bytes),
            Err(DecodeError::InvalidDataUrl) => ClipboardEvent::Invalid,
            Err(DecodeError::UnrecognizedFormat) => ClipboardEvent::NotImage,
        }
    }

    /// Whether `content` stands for image bytes.
    pub fn is_image_data(&self, content: &str) -> (r: bool)
        ensures
            r == decoded(content@).is_ok(),
    {
        is_image_data(content)
    }

    /// Whether `data` begins with the magic bytes of a known image format.
    pub fn has_image_signature(&self, data: &[u8]) -> (r: bool)
        ensures
            r == sniff(data@).is_some(),
    {
        crate::signature::has_image_signature(data)
    }

    /// Turns clipboard content into image bytes, or into a format error.
    pub fn decode_clipboard_image(&self, content: &str) -> (r: Result<Vec<u8>, Error>)
        ensures
            match r {
                Ok(bytes) => decoded(content@) == Ok::<Seq<u8>, DecodeError>(bytes@),
                Err(e) => decoded(content@) is Err && (e matches Error::Format(m) && m@
                    == decode_failure_text(decoded(content@)->Err_0)),
            },
    {
        match decode(content) {
            Ok(bytes) => Ok(bytes),
            Err(DecodeError::InvalidDataUrl) => Err(
                Error::Format("Invalid base64 data".to_string()),
            ),
            Err(DecodeError::UnrecognizedFormat) => Err(
                Error::Format("Failed to decode image data".to_string()),
            ),
        }
    }
}

} // verus!
