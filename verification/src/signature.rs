//! Classification of byte buffers by their leading magic bytes.
//!
//! The sniffer looks only at the first bytes of a buffer. It never reads
//! metadata, never fails, and answers `None` for anything it does not know.

use vstd::prelude::*;

verus! {

/// An image format that the sniffer can name.
#[derive(Clone, Copy, Debug, PartialEq, Eq, Structural)]
pub enum ImageFormat {
    Png,
    Jpeg,
    Gif,
    Bmp,
    Webp,
    Tiff,
    Ico,
    Unknown,
}

/// The fewest bytes a buffer must hold to be classified at all.
pub const MIN_SNIFF_LEN: usize = 4;

/// Whether `data` holds `magic` at offset `at`.
pub open spec fn magic_at(data: Seq<u8>, at: int, magic: Seq<u8>) -> bool {
    &&& 0 <= at
    &&& at + magic.len() <= data.len()
    &&& data.subrange(at, at + magic.len()) == magic
}

/// The eight bytes that begin a PNG file.
pub open spec fn png_magic() -> Seq<u8> {
    seq![0x89u8, 0x50u8, 0x4Eu8, 0x47u8, 0x0Du8, 0x0Au8, 0x1Au8, 0x0Au8]
}

/// The three bytes that begin a JPEG file, whatever marker follows.
pub open spec fn jpeg_magic() -> Seq<u8> {
    seq![0xFFu8, 0xD8u8, 0xFFu8]
}

/// `GIF87a`
pub open spec fn gif87_magic() -> Seq<u8> {
    seq![0x47u8, 0x49u8, 0x46u8, 0x38u8, 0x37u8, 0x61u8]
}

/// `GIF89a`
pub open spec fn gif89_magic() -> Seq<u8> {
    seq![0x47u8, 0x49u8, 0x46u8, 0x38u8, 0x39u8, 0x61u8]
}

/// `BM`
pub open spec fn bmp_magic() -> Seq<u8> {
    seq![0x42u8, 0x4Du8]
}

/// `RIFF`
pub open spec fn riff_magic() -> Seq<u8> {
    seq![0x52u8, 0x49u8, 0x46u8, 0x46u8]
}

/// `WEBP`
pub open spec fn webp_magic() -> Seq<u8> {
    seq![0x57u8, 0x45u8, 0x42u8, 0x50u8]
}

/// The four bytes that begin a little-endian TIFF file.
pub open spec fn tiff_le_magic() -> Seq<u8> {
    seq![0x49u8, 0x49u8, 0x2Au8, 0x00u8]
}

/// The four bytes that begin a big-endian TIFF file.
pub open spec fn tiff_be_magic() -> Seq<u8> {
    seq![0x4Du8, 0x4Du8, 0x00u8, 0x2Au8]
}

/// The four bytes that begin an ICO file.
pub open spec fn ico_magic() -> Seq<u8> {
    seq![0x00u8, 0x00u8, 0x01u8, 0x00u8]
}

/// Whether `data` carries the magic bytes of `format`, whatever its length.
/// No buffer carries the magic bytes of `Unknown`.
pub open spec fn has_magic(data: Seq<u8>, format: ImageFormat) -> bool {
    match format {
        ImageFormat::Png => magic_at(data, 0, png_magic()),
        ImageFormat::Jpeg => magic_at(data, 0, jpeg_magic()),
        ImageFormat::Gif => magic_at(data, 0, gif87_magic()) || magic_at(data, 0, gif89_magic()),
        ImageFormat::Bmp => magic_at(data, 0, bmp_magic()),
        ImageFormat::Webp => magic_at(data, 0, riff_magic()) && magic_at(data, 8, webp_magic()),
        ImageFormat::Tiff => magic_at(data, 0, tiff_le_magic()) || magic_at(
            data,
            0,
            tiff_be_magic(),
        ),
        ImageFormat::Ico => magic_at(data, 0, ico_magic()),
        ImageFormat::Unknown => false,
    }
}

/// The format of `data`: the first of PNG, JPEG, GIF, BMP, WEBP, TIFF, ICO
/// whose magic bytes `data` carries, and `None` for a buffer of fewer than
/// four bytes or one that carries none of them.
pub open spec fn sniff(data: Seq<u8>) -> Option<ImageFormat> {
    if data.len() < MIN_SNIFF_LEN {
        None
    } else if has_magic(data, ImageFormat::Png) {
        Some(ImageFormat::Png)
    } else if has_magic(data, ImageFormat::Jpeg) {
        Some(ImageFormat::Jpeg)
    } else if has_magic(data, ImageFormat::Gif) {
        Some(ImageFormat::Gif)
    } else if has_magic(data, ImageFormat::Bmp) {
        Some(ImageFormat::Bmp)
    } else if has_magic(data, ImageFormat::Webp) {
        Some(ImageFormat::Webp)
    } else if has_magic(data, ImageFormat::Tiff) {
        Some(ImageFormat::Tiff)
    } else if has_magic(data, ImageFormat::Ico) {
        Some(ImageFormat::Ico)
    } else {
        None
    }
}

/// Whether `data` holds the bytes of `magic` at offset `at`.
fn holds_at(data: &[u8], at: usize, magic: &[u8]) -> (r: bool)
    ensures
        r == magic_at(data@, at as int, magic@),
{
    if magic.len() > data.len() || at > data.len() - magic.len() {
        return false;
    }
    let mut k: usize = 0;
    while k < magic.len()
        invariant
            k <= magic.len(),
            at + magic.len() <= data.len(),
            forall|j: int| 0 <= j < k ==> data@[at + j] == magic@[j],
        decreases magic.len() - k,
    {
        if data[at + k] != magic[k] {
            assert(data@.subrange(at as int, at + magic.len())[k as int] != magic@[k as int]);
            return false;
        }
        k += 1;
    }
    assert(data@.subrange(at as int, at + magic.len()) =~= magic@);
    true
}

/// Classifies a byte buffer by its magic bytes.
pub fn classify(data: &[u8]) -> (r: Option<ImageFormat>)
    ensures
        r == sniff(data@),
{
    if data.len() < MIN_SNIFF_LEN {
        return None;
    }
    let png: [u8; 8] = [0x89, 0x50, 0x4E, 0x47, 0x0D, 0x0A, 0x1A, 0x0A];
    let jpeg: [u8; 3] = [0xFF, 0xD8, 0xFF];
    let gif87: [u8; 6] = [0x47, 0x49, 0x46, 0x38, 0x37, 0x61];
    let gif89: [u8; 6] = [0x47, 0x49, 0x46, 0x38, 0x39, 0x61];
    let bmp: [u8; 2] = [0x42, 0x4D];
    let riff: [u8; 4] = [0x52, 0x49, 0x46, 0x46];
    let webp: [u8; 4] = [0x57, 0x45, 0x42, 0x50];
    let tiff_le: [u8; 4] = [0x49, 0x49, 0x2A, 0x00];
    let tiff_be: [u8; 4] = [0x4D, 0x4D, 0x00, 0x2A];
    let ico: [u8; 4] = [0x00, 0x00, 0x01, 0x00];
    proof {
        assert(png@ =~= png_magic());
        assert(jpeg@ =~= jpeg_magic());
        assert(gif87@ =~= gif87_magic());
        assert(gif89@ =~= gif89_magic());
        assert(bmp@ =~= bmp_magic());
        assert(riff@ =~= riff_magic());
        assert(webp@ =~= webp_magic());
        assert(tiff_le@ =~= tiff_le_magic());
        assert(tiff_be@ =~= tiff_be_magic());
        assert(ico@ =~= ico_magic());
    }
    if holds_at(data, 0, png.as_slice()) {
        Some(ImageFormat::Png)
    } else if holds_at(data, 0, jpeg.as_slice()) {
        Some(ImageFormat::Jpeg)
    } else if holds_at(data, 0, gif87.as_slice()) || holds_at(data, 0, gif89.as_slice()) {
        Some(ImageFormat::Gif)
    } else if holds_at(data, 0, bmp.as_slice()) {
        Some(ImageFormat::Bmp)
    } else if holds_at(data, 0, riff.as_slice()) && holds_at(data, 8, webp.as_slice()) {
        Some(ImageFormat::Webp)
    } else if holds_at(data, 0, tiff_le.as_slice()) || holds_at(data, 0, tiff_be.as_slice()) {
        Some(ImageFormat::Tiff)
    } else if holds_at(data, 0, ico.as_slice()) {
        Some(ImageFormat::Ico)
    } else {
        None
    }
}

/// Whether `data` begins with the magic bytes of a known image format.
pub fn has_image_signature(data: &[u8]) -> (r: bool)
    ensures
        r == sniff(data@).is_some(),
{
    classify(data).is_some()
}

/// A buffer of at least four bytes that carries the magic bytes of a format
/// is classified as that format: the magic byte sequences of different
/// formats never begin alike, so the order of the checks decides nothing.
pub proof fn lemma_magic_is_classified(data: Seq<u8>, format: ImageFormat)
    requires
        data.len() >= MIN_SNIFF_LEN,
        has_magic(data, format),
    ensures
        sniff(data) == Some(format),
{
    assert(magic_at(data, 0, png_magic()) ==> data.subrange(0, 8)[0] == 0x89u8);
    assert(magic_at(data, 0, jpeg_magic()) ==> data.subrange(0, 3)[0] == 0xFFu8);
    assert(magic_at(data, 0, gif87_magic()) ==> data.subrange(0, 6)[0] == 0x47u8);
    assert(magic_at(data, 0, gif89_magic()) ==> data.subrange(0, 6)[0] == 0x47u8);
    assert(magic_at(data, 0, bmp_magic()) ==> data.subrange(0, 2)[0] == 0x42u8);
    assert(magic_at(data, 0, riff_magic()) ==> data.subrange(0, 4)[0] == 0x52u8);
    assert(magic_at(data, 0, tiff_le_magic()) ==> data.subrange(0, 4)[0] == 0x49u8);
    assert(magic_at(data, 0, tiff_be_magic()) ==> data.subrange(0, 4)[0] == 0x4Du8);
    assert(magic_at(data, 0, ico_magic()) ==> data.subrange(0, 4)[0] == 0x00u8);
}

/// A buffer of fewer than four bytes is never classified.
pub proof fn lemma_short_buffer_is_unclassified(data: Seq<u8>)
    requires
        data.len() < MIN_SNIFF_LEN,
    ensures
        sniff(data) is None,
{
}

/// Whether `b` is the first byte of some magic byte sequence.
pub open spec fn is_magic_lead(b: u8) -> bool {
    b == 0x89 || b == 0xFF || b == 0x47 || b == 0x42 || b == 0x52 || b == 0x49 || b == 0x4D || b
        == 0x00
}

/// A buffer that does not begin with the first byte of any magic sequence is
/// never classified. Text beginning with any character other than `G`, `B`,
/// `R`, `I`, `M` or NUL is such a buffer.
pub proof fn lemma_no_magic_lead_is_unclassified(data: Seq<u8>)
    requires
        data.len() > 0 ==> !is_magic_lead(data[0]),
    ensures
        sniff(data) is None,
{
    if data.len() >= MIN_SNIFF_LEN {
        assert(magic_at(data, 0, png_magic()) ==> data.subrange(0, 8)[0] == 0x89u8);
        assert(magic_at(data, 0, jpeg_magic()) ==> data.subrange(0, 3)[0] == 0xFFu8);
        assert(magic_at(data, 0, gif87_magic()) ==> data.subrange(0, 6)[0] == 0x47u8);
        assert(magic_at(data, 0, gif89_magic()) ==> data.subrange(0, 6)[0] == 0x47u8);
        assert(magic_at(data, 0, bmp_magic()) ==> data.subrange(0, 2)[0] == 0x42u8);
        assert(magic_at(data, 0, riff_magic()) ==> data.subrange(0, 4)[0] == 0x52u8);
        assert(magic_at(data, 0, tiff_le_magic()) ==> data.subrange(0, 4)[0] == 0x49u8);
        assert(magic_at(data, 0, tiff_be_magic()) ==> data.subrange(0, 4)[0] == 0x4Du8);
        assert(magic_at(data, 0, ico_magic()) ==> data.subrange(0, 4)[0] == 0x00u8);
    }
}

} // verus!
