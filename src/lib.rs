//! Routing of camera RAW and standard image files to their converters, and
//! the text that goes with it: file type detection by extension, the
//! marshalling of the metadata that the native decoders fill in, and the
//! messages reported for each file.
use vstd::prelude::*;

pub mod exif_data;
pub mod file_detector;
pub mod image_processor;
pub mod raw_converter;
pub mod raw_processor;
pub mod text;

pub use file_detector::{get_file_type, is_image_file, is_raw_file, is_supported_file};

use file_detector::{
    file_name,
    file_name_of,
    file_name_or,
    file_type_of,
    is_image_name,
    is_raw_name,
    lower_of,
};

verus! {

/// The converter that a supported file goes to.
#[derive(Debug, Clone, Copy, PartialEq, Eq, Structural)]
pub enum Processor {
    /// A camera RAW file, decoded and converted to JPEG.
    Raw,
    /// A standard image file (JPEG, PNG, TIFF, BMP, WebP).
    StandardImage,
}

/// The message for an input path whose file name cannot be taken.
pub open spec fn invalid_path_message(input_path: Seq<char>) -> Seq<char> {
    "Invalid input path: "@ + input_path
}

/// The message for a file whose format no converter takes.
pub open spec fn unsupported_message(filename: Seq<char>) -> Seq<char> {
    "Unsupported file format: '"@ + filename
        + "'. Supported formats include RAW files (CR2, CR3, NEF, ARW, etc.) and image files (JPG, PNG, TIFF, etc.)"@
}

/// Where an input path goes: by the extension of its file name, RAW first.
pub open spec fn route_of(input_path: Seq<char>) -> Result<Processor, Seq<char>> {
    match file_name_of(input_path) {
        None => Err(invalid_path_message(input_path)),
        Some(name) => if is_raw_name(lower_of(name)) {
            Ok(Processor::Raw)
        } else if is_image_name(lower_of(name)) {
            Ok(Processor::StandardImage)
        } else {
            Err(unsupported_message(name))
        },
    }
}

/// The description of how a file would be processed.
pub open spec fn file_info_of(input_path: Seq<char>) -> Seq<char> {
    let kind = file_type_of(file_name_or(input_path, "unknown"@));
    if kind == "RAW"@ {
        "RAW file (will be processed with LibRaw)"@
    } else if kind == "Image"@ {
        "Standard image file (will be processed with libjpeg_wrapper)"@
    } else {
        "Unsupported file format"@
    }
}

/// Chooses the converter for an input path from the extension of its file
/// name. Fails with a message where the path has no file name or the format
/// is not supported.
pub fn select_processor(input_path: &str) -> (r: Result<Processor, String>)
    ensures
        match (r, route_of(input_path@)) {
            (Ok(p), Ok(q)) => p == q,
            (Err(m), Err(n)) => m@ == n,
            _ => false,
        },
{
    let filename = match file_name(input_path) {
        Some(name) => name,
        None => {
            let mut msg = String::from_str("Invalid input path: ");
            msg.append(input_path);
            return Err(msg);
        },
    };
    if is_raw_file(filename.as_str()) {
        Ok(Processor::Raw)
    } else if is_image_file(filename.as_str()) {
        Ok(Processor::StandardImage)
    } else {
        let mut msg = String::from_str("Unsupported file format: '");
        msg.append(filename.as_str());
        msg.append(
            "'. Supported formats include RAW files (CR2, CR3, NEF, ARW, etc.) and image files (JPG, PNG, TIFF, etc.)",
        );
        Err(msg)
    }
}

/// Checks whether the file at a path can be processed, by the extension of
/// its file name; a path without a file name cannot.
pub fn can_process_file(input_path: &str) -> (r: bool)
    ensures
        r == (is_raw_name(lower_of(file_name_or(input_path@, ""@)))
            || is_image_name(lower_of(file_name_or(input_path@, ""@)))),
{
    let filename = match file_name(input_path) {
        Some(name) => name,
        None => String::new(),
    };
    proof {
        reveal_strlit("");
    }
    assert(filename@ == file_name_or(input_path@, ""@));
    is_supported_file(filename.as_str())
}

/// Describes how the file at a path would be processed.
pub fn get_file_info(input_path: &str) -> (r: String)
    ensures
        r@ == file_info_of(input_path@),
{
    let filename = match file_name(input_path) {
        Some(name) => name,
        None => String::from_str("unknown"),
    };
    proof {
        reveal_strlit("RAW");
        reveal_strlit("Image");
        reveal_strlit("Unknown");
    }
    assert(filename@ == file_name_or(input_path@, "unknown"@));
    assert("Image"@.len() == 5 && "Unknown"@.len() == 7 && "RAW"@.len() == 3);
    if is_raw_file(filename.as_str()) {
        String::from_str("RAW file (will be processed with LibRaw)")
    } else if is_image_file(filename.as_str()) {
        String::from_str("Standard image file (will be processed with libjpeg_wrapper)")
    } else {
        String::from_str("Unsupported file format")
    }
}

} // verus!
