use byte_me::media::{derive_filename, detect_media_type, filename_or_unknown, is_media_file};
use byte_me::models::MediaType;

const JPEG_HEADER: [u8; 4] = [0xFF, 0xD8, 0xFF, 0xE0];
const PNG_HEADER: [u8; 8] = [0x89, 0x50, 0x4E, 0x47, 0x0D, 0x0A, 0x1A, 0x0A];
const ID3_HEADER: [u8; 4] = [0x49, 0x44, 0x33, 0x04];
const ZIP_HEADER: [u8; 8] = [0x50, 0x4B, 0x03, 0x04, 0x00, 0x00, 0x00, 0x00];
const PDF_HEADER: [u8; 5] = [0x25, 0x50, 0x44, 0x46, 0x2D];
const WOFF_HEADER: [u8; 8] = [0x77, 0x4F, 0x46, 0x46, 0x00, 0x01, 0x00, 0x00];

#[test]
fn test_detect_by_signature() {
    assert_eq!(detect_media_type(&JPEG_HEADER, "photo.bin"), MediaType::Image);
    assert_eq!(detect_media_type(&PNG_HEADER, "pic"), MediaType::Image);
    assert_eq!(detect_media_type(&ID3_HEADER, "song.dat"), MediaType::Audio);
    assert_eq!(detect_media_type(&ZIP_HEADER, "bundle"), MediaType::Archive);
    assert_eq!(detect_media_type(&PDF_HEADER, "paper"), MediaType::Document);

    let mut elf = vec![0u8; 56];
    elf[0] = 0x7F;
    elf[1] = 0x45;
    elf[2] = 0x4C;
    elf[3] = 0x46;
    assert_eq!(detect_media_type(&elf, "tool"), MediaType::Executable);
}

#[test]
fn test_signature_beats_extension() {
    // Content sniffing is authoritative even when the extension disagrees.
    assert_eq!(detect_media_type(&JPEG_HEADER, "clip.mp3"), MediaType::Image);
}

#[test]
fn test_recognized_but_unmapped_signature_is_unknown() {
    // A font signature is recognized by sniffing but has no category in the
    // signature table, so it maps to Unknown rather than to the extension
    // fallback.
    assert_eq!(detect_media_type(&WOFF_HEADER, "font.mp4"), MediaType::Unknown);
}

#[test]
fn test_extension_fallback() {
    assert_eq!(detect_media_type(&[], "song.mp3"), MediaType::Audio);
    assert_eq!(detect_media_type(&[], "clip.MP4"), MediaType::Video);
    assert_eq!(detect_media_type(&[], "pic.JpEg"), MediaType::Image);
    assert_eq!(detect_media_type(&[], "notes.txt"), MediaType::Document);
    assert_eq!(detect_media_type(&[], "data.tar"), MediaType::Archive);
    assert_eq!(detect_media_type(&[], "setup.exe"), MediaType::Executable);
    assert_eq!(detect_media_type(&[], "libfoo.so"), MediaType::Library);
    assert_eq!(detect_media_type(&[], "mystery.xyz"), MediaType::Unknown);
    assert_eq!(detect_media_type(&[], "no_extension"), MediaType::Unknown);
    assert_eq!(detect_media_type(&[], ".hidden"), MediaType::Unknown);
    assert_eq!(detect_media_type(&[], ""), MediaType::Unknown);
    assert_eq!(detect_media_type(&[], "dir/archive.zip"), MediaType::Archive);
}

#[test]
fn test_classification_is_pure() {
    let first = detect_media_type(&PNG_HEADER, "same.png");
    let second = detect_media_type(&PNG_HEADER, "same.png");
    assert_eq!(first, second);
    let third = detect_media_type(&[], "same.png");
    let fourth = detect_media_type(&[], "same.png");
    assert_eq!(third, fourth);
}

#[test]
fn test_is_media_file_all_categories() {
    assert!(is_media_file(&MediaType::Audio));
    assert!(is_media_file(&MediaType::Video));
    assert!(is_media_file(&MediaType::Image));
    assert!(!is_media_file(&MediaType::Document));
    assert!(!is_media_file(&MediaType::Executable));
    assert!(!is_media_file(&MediaType::Archive));
    assert!(!is_media_file(&MediaType::Library));
    assert!(!is_media_file(&MediaType::Unknown));
}

#[test]
fn test_derive_filename() {
    assert_eq!(derive_filename("a/b/c.mp4"), Some("c.mp4".to_string()));
    assert_eq!(derive_filename("c.mp4"), Some("c.mp4".to_string()));
    assert_eq!(derive_filename("dir/"), Some("dir".to_string()));
    assert_eq!(derive_filename(""), None);
    assert_eq!(derive_filename("/"), None);
    assert_eq!(derive_filename(".."), None);
    assert_eq!(filename_or_unknown(""), "unknown");
    assert_eq!(filename_or_unknown("x/y.txt"), "y.txt");
}
