use raw_preview_rs::file_detector::{is_common_raw_file, is_jpeg_file};
use raw_preview_rs::{get_file_type, is_image_file, is_raw_file, is_supported_file};

#[test]
fn test_raw_file_detection() {
    assert!(is_raw_file("test.cr2"));
    assert!(is_raw_file("TEST.CR3"));
    assert!(is_raw_file("photo.nef"));
    assert!(is_raw_file("image.arw"));
    assert!(!is_raw_file("photo.jpg"));
    assert!(!is_raw_file("document.txt"));
}

#[test]
fn test_image_file_detection() {
    assert!(is_image_file("photo.jpg"));
    assert!(is_image_file("IMAGE.JPEG"));
    assert!(is_image_file("graphic.png"));
    assert!(is_image_file("scan.tiff"));
    assert!(!is_image_file("photo.cr2"));
    assert!(!is_image_file("document.txt"));
}

#[test]
fn test_supported_file_detection() {
    assert!(is_supported_file("photo.jpg"));
    assert!(is_supported_file("image.cr2"));
    assert!(is_supported_file("graphic.png"));
    assert!(!is_supported_file("document.txt"));
    assert!(!is_supported_file("video.mp4"));
}

#[test]
fn test_file_type_detection() {
    assert_eq!(get_file_type("photo.cr2"), "RAW");
    assert_eq!(get_file_type("image.jpg"), "Image");
    assert_eq!(get_file_type("document.txt"), "Unknown");
}

#[test]
fn raw_detection_ignores_letter_case() {
    assert!(is_raw_file("IMG_0001.CR2"));
    assert!(is_raw_file("img_0001.Cr2"));
    assert!(is_raw_file("DSC.3FR"));
    assert!(is_raw_file("clip.R3D"));
    assert_eq!(get_file_type("PHOTO.NEF"), "RAW");
}

#[test]
fn every_raw_extension_is_detected() {
    let exts = [
        "raw", "cr2", "cr3", "nef", "dng", "arw", "raf", "rw2", "orf", "pef", "sr2", "srf", "srw",
        "3fr", "fff", "mef", "mrw", "x3f", "dcr", "kdc", "iiq", "rwl", "gpr", "cap", "erf", "mdc",
        "mos", "ptx", "r3d",
    ];
    for ext in exts {
        let name = format!("file.{}", ext);
        assert!(is_raw_file(&name), "{}", name);
        assert!(!is_image_file(&name), "{}", name);
        assert_eq!(get_file_type(&name), "RAW");
    }
}

#[test]
fn every_image_extension_is_detected() {
    let exts = ["jpg", "jpeg", "png", "tiff", "tif", "bmp", "webp"];
    for ext in exts {
        let name = format!("file.{}", ext.to_uppercase());
        assert!(is_image_file(&name), "{}", name);
        assert!(!is_raw_file(&name), "{}", name);
        assert_eq!(get_file_type(&name), "Image");
    }
}

#[test]
fn extension_must_follow_a_dot_at_the_end() {
    assert!(!is_raw_file("cr2"));
    assert!(!is_raw_file("photo.cr2.txt"));
    assert!(!is_raw_file("photocr2"));
    assert!(!is_image_file(""));
    assert!(!is_supported_file(""));
    assert!(is_raw_file(".cr2"));
    assert_eq!(get_file_type(""), "Unknown");
}

#[test]
fn jpeg_names() {
    assert!(is_jpeg_file("a.JPG"));
    assert!(is_jpeg_file("a.jpeg"));
    assert!(!is_jpeg_file("a.png"));
    assert!(!is_jpeg_file("a.cr2"));
}

#[test]
fn batch_converter_raw_names() {
    assert!(is_common_raw_file("a.ORF"));
    assert!(is_common_raw_file("a.dng"));
    assert!(!is_common_raw_file("a.pef"));
    assert!(!is_common_raw_file("a.jpg"));
    assert!(is_raw_file("a.pef"));
}

#[test]
fn raw_converter_detection_matches() {
    assert!(raw_preview_rs::raw_converter::is_raw_file("test.CR2"));
    assert!(!raw_preview_rs::raw_converter::is_raw_file("photo.jpg"));
}
