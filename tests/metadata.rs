use raw_preview_rs::exif_data::{format_dimensions, has_camera_info, image_file_model};
use raw_preview_rs::raw_processor::{native_error_message, safe_string_from_array};

#[test]
fn test_safe_string_from_array() {
    let test_array: [i8; 10] = [72, 101, 108, 108, 111, 0, 0, 0, 0, 0];
    let result = safe_string_from_array(&test_array);
    assert_eq!(result, "Hello");
}

#[test]
fn array_text_stops_at_first_nul() {
    let arr: [i8; 6] = [65, 0, 66, 67, 0, 68];
    assert_eq!(safe_string_from_array(&arr), "A");
    let none: [i8; 3] = [0, 65, 66];
    assert_eq!(safe_string_from_array(&none), "");
}

#[test]
fn array_text_without_nul_takes_whole_buffer() {
    let arr: [i8; 3] = [78, 105, 107];
    assert_eq!(safe_string_from_array(&arr), "Nik");
    let empty: [i8; 0] = [];
    assert_eq!(safe_string_from_array(&empty), "");
}

#[test]
fn array_text_decodes_utf8_and_replaces_invalid_bytes() {
    // "é" is 0xC3 0xA9 in UTF-8
    let arr: [i8; 3] = [0xC3u8 as i8, 0xA9u8 as i8, 0];
    assert_eq!(safe_string_from_array(&arr), "\u{e9}");
    let bad: [i8; 2] = [0xFFu8 as i8, 65];
    assert_eq!(safe_string_from_array(&bad), "\u{fffd}A");
}

#[test]
fn camera_info_presence() {
    assert!(has_camera_info("Canon", "EOS R5"));
    assert!(!has_camera_info("", "EOS R5"));
    assert!(!has_camera_info("Canon", ""));
    assert!(!has_camera_info("Unknown", "EOS R5"));
    assert!(!has_camera_info("Unknown", "JPEG File"));
    assert!(!has_camera_info("Sony", "PNG File"));
    assert!(has_camera_info("unknown", "Profile"));
}

#[test]
fn image_file_models() {
    assert_eq!(image_file_model("png"), "PNG File");
    assert_eq!(image_file_model("tiff"), "TIFF File");
    assert_eq!(image_file_model("WebP"), "WEBP File");
    assert_eq!(image_file_model(""), " File");
}

#[test]
fn dimensions_text() {
    assert_eq!(format_dimensions(6000, 4000, 6024, 4024), "6000x4000 (RAW: 6024x4024)");
    assert_eq!(format_dimensions(1920, 1080, 0, 0), "1920x1080");
    assert_eq!(format_dimensions(1920, 1080, 10, 0), "1920x1080");
    assert_eq!(format_dimensions(0, 0, 0, 0), "Unknown");
    assert_eq!(format_dimensions(1920, -1, 0, 0), "Unknown");
    assert_eq!(format_dimensions(0, -5, 7, 9), "0x-5 (RAW: 7x9)");
    assert_eq!(
        format_dimensions(i32::MIN, i32::MAX, 1, 1),
        "-2147483648x2147483647 (RAW: 1x1)"
    );
}

#[test]
fn native_error_messages() {
    assert_eq!(
        native_error_message("LibRaw Error", -2, "Unsupported file format"),
        "LibRaw Error -2: Unsupported file format"
    );
    assert_eq!(native_error_message("Error", 0, ""), "Error 0: ");
    assert_eq!(native_error_message("LibRaw error", 100009, "x"), "LibRaw error 100009: x");
}
