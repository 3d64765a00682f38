use scan_orchestrator::image::{extension_lowercase, get_mime_type_from_extension, read_image};

const PNG_MAGIC: [u8; 8] = [0x89, 0x50, 0x4E, 0x47, 0x0D, 0x0A, 0x1A, 0x0A];

#[test]
fn extensions_are_lowered() {
    assert_eq!(extension_lowercase("photo.JXL"), Some("jxl".to_string()));
    assert_eq!(extension_lowercase("a/b/pic.Tiff"), Some("tiff".to_string()));
    assert_eq!(extension_lowercase("noext"), None);
    assert_eq!(extension_lowercase(".gitignore"), None);
    assert_eq!(extension_lowercase("dir/"), None);
    // a trailing separator is dropped: the last segment carries the extension
    assert_eq!(extension_lowercase("dir.X/"), Some("x".to_string()));
    assert_eq!(extension_lowercase("a/photo.JPG/"), Some("jpg".to_string()));
}

#[test]
fn extension_fallback_mime_map() {
    assert_eq!(get_mime_type_from_extension("photo.JXL"), Some("image/jxl".to_string()));
    assert_eq!(get_mime_type_from_extension("a.avif"), Some("image/avif".to_string()));
    assert_eq!(get_mime_type_from_extension("a.heic"), Some("image/heic".to_string()));
    assert_eq!(get_mime_type_from_extension("a.heif"), Some("image/heif".to_string()));
    assert_eq!(get_mime_type_from_extension("a.tif"), Some("image/tiff".to_string()));
    assert_eq!(get_mime_type_from_extension("a.tiff"), Some("image/tiff".to_string()));
    assert_eq!(get_mime_type_from_extension("a.ico"), Some("image/x-icon".to_string()));
    assert_eq!(get_mime_type_from_extension("a.svg"), Some("image/svg+xml".to_string()));
    assert_eq!(get_mime_type_from_extension("a.png"), None);
    assert_eq!(get_mime_type_from_extension("noext"), None);
}

#[test]
fn png_bytes_are_detected_and_encoded() {
    let info = read_image("shot.png", PNG_MAGIC.to_vec()).expect("png magic must classify");
    assert_eq!(info.mime_type, "image/png");
    assert_eq!(info.base64, "iVBORw0KGgo=");
}

#[test]
fn unknown_bytes_fall_back_to_the_extension() {
    let info = read_image("vector.svg", vec![1, 2, 3]).expect("svg extension must classify");
    assert_eq!(info.mime_type, "image/svg+xml");
    assert_eq!(info.base64, "AQID");
}

#[test]
fn unknown_bytes_without_known_extension_fail() {
    assert!(read_image("mystery.bin", vec![1, 2, 3]).is_err());
    assert!(read_image("mystery", vec![1, 2, 3]).is_err());
}

#[test]
fn broken_jxl_is_rejected() {
    // a path with the jxl extension whose bytes do not decode
    assert!(read_image("broken.jxl", vec![0, 1, 2, 3]).is_err());
}
