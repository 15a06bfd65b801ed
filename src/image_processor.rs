//! Decisions for standard image files (JPEG, PNG, TIFF, BMP, WebP).
use vstd::prelude::*;

use crate::file_detector::{file_name, file_name_or, is_jpeg_file, is_jpeg_name, lower_of};

verus! {

/// Checks whether the file at a path is to be handled as a JPEG file, by the
/// extension of its file name; a path without a file name is not.
pub fn is_jpeg_input(input_path: &str) -> (r: bool)
    ensures
        r == is_jpeg_name(lower_of(file_name_or(input_path@, ""@))),
{
    let filename = match file_name(input_path) {
        Some(name) => name,
        None => String::new(),
    };
    proof {
        reveal_strlit("");
    }
    assert(filename@ == file_name_or(input_path@, ""@));
    is_jpeg_file(filename.as_str())
}

} // verus!
