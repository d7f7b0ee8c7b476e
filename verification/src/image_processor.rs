//! Checking image data and planning how it is stored.
//!
//! The `image` crate decodes; this module decides. Writing the file is the
//! caller's part.

use crate::config::Config;
use crate::error::Error;
use crate::paths::joined;
use crate::text::decimal;
use crate::text::from_chars;
use crate::text::push_decimal;
use crate::text::push_str;
use vstd::prelude::*;

verus! {

/// A format that the decoder can tell from the first bytes of a file.
#[derive(Debug, Clone, Copy, PartialEq, Eq, Structural)]
pub enum DecoderFormat {
    Png,
    Jpeg,
    Gif,
    WebP,
    Bmp,
    Tiff,
    /// Any other format that the decoder knows.
    Other,
}

/// Facts about an image.
#[derive(Debug, Clone)]
pub struct ImageInfo {
    pub width: u32,
    pub height: u32,
    pub format: String,
    pub size: u64,
}

/// The format that the decoder guesses from the first bytes of `data`.
pub uninterp spec fn guessed_format(data: Seq<u8>) -> Option<DecoderFormat>;

/// The width and height of the image that `data` decodes to, or what the
/// decoder says against `data`.
pub uninterp spec fn decoded_size(data: Seq<u8>) -> Result<(u32, u32), Seq<char>>;

/// Calls `image::guess_format` and tells the formats apart that the
/// library gives a name to. The result is named [`guessed_format`].
#[verifier::external_body]
pub(crate) fn guess_format(data: &[u8]) -> (r: Option<DecoderFormat>)
    ensures
        r == guessed_format(data@),
{
    match image::guess_format(data) {
        Ok(image::ImageFormat::Png) => Some(DecoderFormat::Png),
        Ok(image::ImageFormat::Jpeg) => Some(DecoderFormat::Jpeg),
        Ok(image::ImageFormat::Gif) => Some(DecoderFormat::Gif),
        Ok(image::ImageFormat::WebP) => Some(DecoderFormat::WebP),
        Ok(image::ImageFormat::Bmp) => Some(DecoderFormat::Bmp),
        Ok(image::ImageFormat::Tiff) => Some(DecoderFormat::Tiff),
        Ok(_) => Some(DecoderFormat::Other),
        Err(_) => None,
    }
}

/// Calls `image::load_from_memory` and takes the width and height of the
/// image, or the rendered error. The result is named [`decoded_size`].
#[verifier::external_body]
pub(crate) fn load_size(data: &[u8]) -> (r: Result<(u32, u32), String>)
    ensures
        match r {
            Ok(size) => decoded_size(data@) == Ok::<(u32, u32), Seq<char>>(size),
            Err(e) => decoded_size(data@) == Err::<(u32, u32), Seq<char>>(e@),
        },
{
    image::load_from_memory(data).map(|img| (img.width(), img.height())).map_err(|e| e.to_string())
}

/// The name under which a format is reported.
pub open spec fn format_name(format: DecoderFormat) -> Seq<char> {
    match format {
        DecoderFormat::Png => "PNG"@,
        DecoderFormat::Jpeg => "JPEG"@,
        DecoderFormat::Gif => "GIF"@,
        DecoderFormat::WebP => "WebP"@,
        DecoderFormat::Bmp => "BMP"@,
        DecoderFormat::Tiff => "TIFF"@,
        DecoderFormat::Other => "Unknown"@,
    }
}

/// The name under which a format is reported.
pub fn format_to_string(format: DecoderFormat) -> (r: String)
    ensures
        r@ == format_name(format),
{
    match format {
        DecoderFormat::Png => "PNG".to_string(),
        DecoderFormat::Jpeg => "JPEG".to_string(),
        DecoderFormat::Gif => "GIF".to_string(),
        DecoderFormat::WebP => "WebP".to_string(),
        DecoderFormat::Bmp => "BMP".to_string(),
        DecoderFormat::Tiff => "TIFF".to_string(),
        DecoderFormat::Other => "Unknown".to_string(),
    }
}

/// The longest side, in pixels, that a stored image may have.
pub const MAX_DIMENSION: u32 = 3840;

/// How image data is to be stored.
#[derive(Debug, Clone)]
pub struct StoragePlan {
    /// Where the image goes.
    pub output_path: String,
    /// The width and height of the image as it was decoded.
    pub width: u32,
    pub height: u32,
    /// Whether the image is reduced to eight bits of red, green and blue.
    pub reduce_colors: bool,
    /// Whether the image is scaled down to fit [`MAX_DIMENSION`].
    pub scale_down: bool,
}

/// The message for data of `len` bytes, or a file of that size, that is
/// larger than `max` allows.
pub open spec fn too_large_text(what: Seq<char>, len: nat, max: nat) -> Seq<char> {
    what + " size "@ + decimal(len) + " exceeds maximum allowed size "@ + decimal(max)
}

/// Why image data is refused before it is decoded, if it is.
pub open spec fn data_refusal(len: nat, max: u64) -> Option<Seq<char>> {
    if len == 0 {
        Some("Empty image data"@)
    } else if len > max {
        Some(too_large_text("Image"@, len, max as nat))
    } else {
        None
    }
}

/// The error for data or a file that is too large.
pub fn too_large(what: &str, len: u64, max: u64) -> (e: Error)
    ensures
        e matches Error::InvalidInput(m) && m@ == too_large_text(what@, len as nat, max as nat),
{
    let mut out: Vec<char> = Vec::new();
    push_str(&mut out, what);
    push_str(&mut out, " size ");
    push_decimal(&mut out, len as u128);
    push_str(&mut out, " exceeds maximum allowed size ");
    push_decimal(&mut out, max as u128);
    assert(out@ =~= too_large_text(what@, len as nat, max as nat));
    Error::InvalidInput(from_chars(out.as_slice()))
}

/// Turns image data into stored screenshots.
#[derive(Debug, Clone)]
pub struct ImageProcessor {
    config: Config,
}

impl ImageProcessor {
    /// The largest data, in bytes, that is processed.
    pub closed spec fn max_file_size(&self) -> u64 {
        self.config.max_file_size
    }

    /// The quality setting. Below 50, colours are reduced.
    pub closed spec fn quality(&self) -> u8 {
        self.config.compression_quality
    }

    /// The directory where screenshots are stored.
    pub closed spec fn screenshot_dir(&self) -> Seq<char> {
        self.config.screenshot_dir@
    }

    /// A processor that works by `config`.
    pub fn new(config: Config) -> (r: Self)
        ensures
            r.max_file_size() == config.max_file_size,
            r.quality() == config.compression_quality,
            r.screenshot_dir() == config.screenshot_dir@,
    {
        ImageProcessor { config }
    }

    /// The directory that must exist before anything is stored.
    pub fn storage_dir(&self) -> (r: &String)
        ensures
            r@ == self.screenshot_dir(),
    {
        &self.config.screenshot_dir
    }

    /// Refuses data that is empty or larger than the configuration allows.
    pub fn check_image_data(&self, data: &[u8]) -> (r: Result<(), Error>)
        ensures
            match r {
                Ok(_) => data_refusal(data@.len(), self.max_file_size()) is None,
                Err(e) => e matches Error::InvalidInput(m) && data_refusal(
                    data@.len(),
                    self.max_file_size(),
                ) == Some(m@),
            },
    {
        if data.len() == 0 {
            return Err(Error::InvalidInput("Empty image data".to_string()));
        }
        if data.len() as u64 > self.config.max_file_size {
            return Err(too_large("Image", data.len() as u64, self.config.max_file_size));
        }
        Ok(())
    }

    /// Whether an image of quality setting `quality` is reduced to eight
    /// bits of red, green and blue before it is stored.
    pub open spec fn reduces_colors(quality: u8) -> bool {
        quality < 50
    }

    /// Whether an image of this size is scaled down before it is stored.
    pub open spec fn scales_down(width: u32, height: u32) -> bool {
        width > MAX_DIMENSION || height > MAX_DIMENSION
    }

    /// Plans the storage of an image that decoded to the given size, under
    /// the given file name.
    pub fn plan_storage(&self, size: (u32, u32), filename: &str) -> (r: StoragePlan)
        ensures
            r.output_path@ == joined(self.screenshot_dir(), filename@),
            r.width == size.0,
            r.height == size.1,
            r.reduce_colors == Self::reduces_colors(self.quality()),
            r.scale_down == Self::scales_down(size.0, size.1),
    {
        StoragePlan {
            output_path: self.config.get_screenshot_path(filename),
            width: size.0,
            height: size.1,
            reduce_colors: self.config.compression_quality < 50,
            scale_down: size.0 > MAX_DIMENSION || size.1 > MAX_DIMENSION,
        }
    }

    /// Checks and decodes image data from `source` and plans its storage
    /// under a fresh file name. Data that is empty, too large or no image
    /// is refused.
    pub fn process_image_data(&self, data: &[u8], source: &str) -> (r: Result<StoragePlan, Error>)
        ensures
            match r {
                Ok(plan) => {
                    &&& data_refusal(data@.len(), self.max_file_size()) is None
                    &&& decoded_size(data@) == Ok::<(u32, u32), Seq<char>>(
                        (plan.width, plan.height),
                    )
                    &&& plan.reduce_colors == Self::reduces_colors(self.quality())
                    &&& plan.scale_down == Self::scales_down(plan.width, plan.height)
                    &&& exists|timestamp: Seq<char>, id: Seq<char>|
                        id.len() == 8 && plan.output_path@ == joined(
                            self.screenshot_dir(),
                            #[trigger] crate::screenshot_name(source@, timestamp, id),
                        )
                },
                Err(Error::InvalidInput(m)) => data_refusal(data@.len(), self.max_file_size())
                    == Some(m@),
                Err(Error::Image(m)) => data_refusal(data@.len(), self.max_file_size()) is None
                    && decoded_size(data@) == Err::<(u32, u32), Seq<char>>(m@),
                Err(_) => false,
            },
    {
        match self.check_image_data(data) {
            Err(e) => {
                return Err(e);
            },
            Ok(_) => {},
        }
        match load_size(data) {
            Ok(size) => {
                let filename = crate::generate_screenshot_filename(source);
                Ok(self.plan_storage(size, filename.as_str()))
            },
            Err(message) => Err(Error::Image(message)),
        }
    }

    /// Why a file is refused before it is read, if it is known to be there.
    pub fn check_file_size(&self, size: u64) -> (r: Result<(), Error>)
        ensures
            match r {
                Ok(_) => size <= self.max_file_size(),
                Err(e) => size > self.max_file_size() && (e matches Error::InvalidInput(m) && m@
                    == too_large_text("File"@, size as nat, self.max_file_size() as nat)),
            },
    {
        if size > self.config.max_file_size {
            Err(too_large("File", size, self.config.max_file_size))
        } else {
            Ok(())
        }
    }

    /// Refuses a file that is not there or larger than the configuration
    /// allows. `size` is the size of the file, or `None` where it is not
    /// there.
    pub fn process_image_file(&self, input_path: &str, size: Option<u64>) -> (r: Result<(), Error>)
        ensures
            match r {
                Ok(_) => size is Some && size.unwrap() <= self.max_file_size(),
                Err(Error::NotFound(m)) => size is None && m@ == "Input file not found: \""@
                    + input_path@ + "\""@,
                Err(Error::InvalidInput(m)) => size is Some && size.unwrap() > self.max_file_size()
                    && m@ == too_large_text(
                    "File"@,
                    size.unwrap() as nat,
                    self.max_file_size() as nat,
                ),
                Err(_) => false,
            },
    {
        match size {
            None => {
                let mut out: Vec<char> = Vec::new();
                push_str(&mut out, "Input file not found: \"");
                push_str(&mut out, input_path);
                push_str(&mut out, "\"");
                Err(Error::NotFound(from_chars(out.as_slice())))
            },
            Some(s) => self.check_file_size(s),
        }
    }

    /// Whether the decoder knows the format that `data` begins like.
    pub fn is_supported_format(&self, data: &[u8]) -> (r: bool)
        ensures
            r == guessed_format(data@).is_some(),
    {
        guess_format(data).is_some()
    }

    /// The facts about an image, given what the decoder made of its data.
    pub fn image_info(
        size: Result<(u32, u32), String>,
        format: Option<DecoderFormat>,
        len: usize,
    ) -> (r: Result<ImageInfo, Error>)
        ensures
            match r {
                Ok(info) => {
                    &&& size == Ok::<(u32, u32), String>((info.width, info.height))
                    &&& format is Some
                    &&& info.format@ == format_name(format.unwrap())
                    &&& info.size == len
                },
                Err(e) => e matches Error::Image(m) && (match size {
                    Ok(_) => format is None && m@ == "The image format could not be determined"@,
                    Err(reason) => m@ == reason@,
                }),
            },
    {
        match size {
            Ok((width, height)) => match format {
                Some(f) => Ok(
                    ImageInfo { width, height, format: format_to_string(f), size: len as u64 },
                ),
                None => Err(Error::Image("The image format could not be determined".to_string())),
            },
            Err(reason) => Err(Error::Image(reason)),
        }
    }

    /// The facts about the image that `data` holds.
    pub fn get_image_info(&self, data: &[u8]) -> (r: Result<ImageInfo, Error>)
        ensures
            match r {
                Ok(info) => {
                    &&& decoded_size(data@) == Ok::<(u32, u32), Seq<char>>(
                        (info.width, info.height),
                    )
                    &&& guessed_format(data@) is Some
                    &&& info.format@ == format_name(guessed_format(data@).unwrap())
                    &&& info.size == data@.len()
                },
                Err(e) => e matches Error::Image(m) && (match decoded_size(data@) {
                    Ok(_) => guessed_format(data@) is None && m@
                        == "The image format could not be determined"@,
                    Err(reason) => m@ == reason,
                }),
            },
    {
        let size = load_size(data);
        let format = guess_format(data);
        Self::image_info(size, format, data.len())
    }

    /// The directory for temporary files, which is emptied on cleanup.
    pub fn temp_dir(&self) -> (r: String)
        ensures
            r@ == joined(self.screenshot_dir(), crate::TEMP_DIR@),
    {
        crate::paths::join(self.config.screenshot_dir.as_str(), crate::TEMP_DIR)
    }
}

} // verus!
