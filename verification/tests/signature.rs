use klipdot::clipboard::ClipboardMonitor;
use klipdot::config::Config;
use klipdot::signature::classify;
use klipdot::signature::has_image_signature;
use klipdot::signature::ImageFormat;

#[test]
fn test_image_signature_detection() {
    let monitor = ClipboardMonitor::new(Config::default());

    let png_data = vec![0x89, 0x50, 0x4E, 0x47, 0x0D, 0x0A, 0x1A, 0x0A];
    assert!(monitor.has_image_signature(&png_data));

    let jpeg_data = vec![0xFF, 0xD8, 0xFF, 0xE0, 0x00, 0x10, 0x4A, 0x46];
    assert!(monitor.has_image_signature(&jpeg_data));

    let text_data = b"Hello, world!";
    assert!(!monitor.has_image_signature(text_data));
}

#[test]
fn classify_names_each_format() {
    assert_eq!(classify(&[0x89, 0x50, 0x4E, 0x47, 0x0D, 0x0A, 0x1A, 0x0A]), Some(ImageFormat::Png));
    assert_eq!(classify(&[0xFF, 0xD8, 0xFF, 0xDB]), Some(ImageFormat::Jpeg));
    assert_eq!(classify(&[0xFF, 0xD8, 0xFF, 0xE1, 0x12]), Some(ImageFormat::Jpeg));
    assert_eq!(classify(b"GIF87a...."), Some(ImageFormat::Gif));
    assert_eq!(classify(b"GIF89a"), Some(ImageFormat::Gif));
    assert_eq!(classify(b"BM\x00\x00"), Some(ImageFormat::Bmp));
    assert_eq!(classify(b"RIFF\x10\x00\x00\x00WEBPVP8 "), Some(ImageFormat::Webp));
    assert_eq!(classify(&[0x49, 0x49, 0x2A, 0x00, 0x08]), Some(ImageFormat::Tiff));
    assert_eq!(classify(&[0x4D, 0x4D, 0x00, 0x2A]), Some(ImageFormat::Tiff));
    assert_eq!(classify(&[0x00, 0x00, 0x01, 0x00, 0x01]), Some(ImageFormat::Ico));
}

#[test]
fn classify_rejects_near_misses() {
    assert_eq!(classify(&[0x89, 0x50, 0x4E, 0x47, 0x0D, 0x0A, 0x1A]), None);
    assert_eq!(classify(&[0x89, 0x50, 0x4E, 0x47, 0x0D, 0x0A, 0x1A, 0x0B]), None);
    assert_eq!(classify(b"GIF88a"), None);
    assert_eq!(classify(b"GIF89"), None);
    assert_eq!(classify(b"RIFF\x10\x00\x00\x00WAVEfmt "), None);
    assert_eq!(classify(b"RIFF\x10\x00\x00\x00WEB"), None);
    assert_eq!(classify(&[0x49, 0x49, 0x00, 0x2A]), None);
    assert_eq!(classify(&[0x00, 0x00, 0x02, 0x00]), None);
    assert_eq!(classify(b"Hello, world!"), None);
    assert_eq!(classify(b"plain ASCII text of some length, with nothing of an image in it"), None);
}

#[test]
fn short_buffers_are_never_classified() {
    assert_eq!(classify(&[]), None);
    assert_eq!(classify(b"B"), None);
    assert_eq!(classify(b"BM"), None);
    assert_eq!(classify(b"BM\x00"), None);
    assert_eq!(classify(&[0xFF, 0xD8, 0xFF]), None);
    for a in 0..=255u8 {
        assert_eq!(classify(&[a]), None);
        assert_eq!(classify(&[a, 0xD8]), None);
        assert_eq!(classify(&[a, 0x4D, 0xFF]), None);
    }
    assert!(!has_image_signature(&[0x42, 0x4D, 0x00]));
}

#[test]
fn text_that_begins_like_a_bitmap_is_classified() {
    assert_eq!(classify(b"BMW is a car maker"), Some(ImageFormat::Bmp));
}
