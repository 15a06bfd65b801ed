//! The RAW-only entry points, for callers that deal in camera files alone.
use vstd::prelude::*;

use crate::file_detector::{is_raw_name, lower_of};

verus! {

/// Checks whether a file name carries the extension of a supported camera
/// RAW format, in any letter case.
pub fn is_raw_file(filename: &str) -> (r: bool)
    ensures
        r == is_raw_name(lower_of(filename@)),
{
    crate::file_detector::is_raw_file(filename)
}

} // verus!
