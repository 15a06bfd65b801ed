use raw_preview_rs::image_processor::is_jpeg_input;
use raw_preview_rs::{can_process_file, get_file_info, select_processor, Processor};

#[test]
fn test_can_process_file() {
    assert!(can_process_file("test.cr2"));
    assert!(can_process_file("image.jpg"));
    assert!(can_process_file("graphic.png"));
    assert!(!can_process_file("document.txt"));
    assert!(!can_process_file("video.mp4"));
}

#[test]
fn test_get_file_info() {
    assert!(get_file_info("test.cr2").contains("RAW"));
    assert!(get_file_info("image.jpg").contains("Standard image"));
    assert!(get_file_info("document.txt").contains("Unsupported"));
}

#[test]
fn file_info_messages_are_exact() {
    assert_eq!(get_file_info("/photos/a.NEF"), "RAW file (will be processed with LibRaw)");
    assert_eq!(
        get_file_info("dir/b.webp"),
        "Standard image file (will be processed with libjpeg_wrapper)"
    );
    assert_eq!(get_file_info(".."), "Unsupported file format");
}

#[test]
fn paths_are_judged_by_their_file_name() {
    assert!(can_process_file("/home/user/photos/IMG_1.CR3"));
    assert!(!can_process_file("/home/user/photos.cr2/notes.txt"));
    assert!(!can_process_file("/"));
    assert!(!can_process_file("photos/.."));
}

#[test]
fn processor_selection() {
    assert_eq!(select_processor("shots/IMG_1234.CR3"), Ok(Processor::Raw));
    assert_eq!(select_processor("photo.jpg"), Ok(Processor::StandardImage));
    assert_eq!(select_processor("scan.TIF"), Ok(Processor::StandardImage));
}

#[test]
fn processor_selection_errors() {
    assert_eq!(
        select_processor("docs/notes.txt"),
        Err(String::from(
            "Unsupported file format: 'notes.txt'. Supported formats include RAW files (CR2, CR3, NEF, ARW, etc.) and image files (JPG, PNG, TIFF, etc.)"
        ))
    );
    assert_eq!(select_processor("a/.."), Err(String::from("Invalid input path: a/..")));
    assert_eq!(select_processor(""), Err(String::from("Invalid input path: ")));
}

#[test]
fn jpeg_inputs() {
    assert!(is_jpeg_input("/tmp/x.JPEG"));
    assert!(is_jpeg_input("x.jpg"));
    assert!(!is_jpeg_input("x.png"));
    assert!(!is_jpeg_input("/"));
}
