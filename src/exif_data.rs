//! The parts of the image metadata record that are decided without floating
//! point: whether camera data is present, the model name given to files
//! without one, and the dimensions line.
use vstd::prelude::*;

use crate::text::{append_decimal, contains, contains_text, decimal, same_text};

verus! {

/// Camera make and model carry real camera data: both are present, the make
/// is not the placeholder "Unknown", and the model is not a placeholder of
/// the form "<TYPE> File".
pub open spec fn is_camera_info(camera_make: Seq<char>, camera_model: Seq<char>) -> bool {
    camera_make.len() > 0 && camera_model.len() > 0 && camera_make != "Unknown"@ && !contains(
        camera_model,
        "File"@,
    )
}

/// Checks whether a camera make and model carry real camera data rather
/// than the placeholders given to files without metadata.
pub fn has_camera_info(camera_make: &str, camera_model: &str) -> (r: bool)
    ensures
        r == is_camera_info(camera_make@, camera_model@),
{
    !camera_make.is_empty() && !camera_model.is_empty() && !same_text(camera_make, "Unknown")
        && !contains_text(camera_model, "File")
}

/// What `str::to_uppercase` makes of a string.
pub uninterp spec fn upper_of(s: Seq<char>) -> Seq<char>;

/// Relies on `str::to_uppercase`: its result depends on the characters of
/// the string alone.
#[verifier::external_body]
fn uppercase(s: &str) -> (r: String)
    ensures
        r@ == upper_of(s@),
{
    s.to_uppercase()
}

/// The placeholder camera model of an image file without metadata.
pub open spec fn image_file_model_of(file_extension: Seq<char>) -> Seq<char> {
    upper_of(file_extension) + " File"@
}

/// The placeholder camera model of an image file without metadata: the
/// extension in capitals followed by " File" (`png` gives "PNG File").
pub fn image_file_model(file_extension: &str) -> (r: String)
    ensures
        r@ == image_file_model_of(file_extension@),
{
    let mut model = uppercase(file_extension);
    model.append(" File");
    model
}

/// `a` and `b` joined by an "x".
pub open spec fn size_text(a: int, b: int) -> Seq<char> {
    decimal(a) + "x"@ + decimal(b)
}

/// The dimensions line: output size and RAW sensor size where the sensor
/// size is known, the output size alone where only it is known, and
/// "Unknown" otherwise.
pub open spec fn dimensions_text(
    output_width: int,
    output_height: int,
    raw_width: int,
    raw_height: int,
) -> Seq<char> {
    if raw_width > 0 && raw_height > 0 {
        size_text(output_width, output_height) + " (RAW: "@ + size_text(raw_width, raw_height)
            + ")"@
    } else if output_width > 0 && output_height > 0 {
        size_text(output_width, output_height)
    } else {
        "Unknown"@
    }
}

fn append_size(out: &mut String, a: i32, b: i32)
    ensures
        final(out)@ == old(out)@ + size_text(a as int, b as int),
{
    let ghost start = out@;
    append_decimal(out, a);
    out.append("x");
    append_decimal(out, b);
    assert(out@ =~= start + size_text(a as int, b as int));
}

/// Formats image dimensions, as "4000x3000 (RAW: 4024x3024)" where the RAW
/// size is known, "4000x3000" where only the output size is, or "Unknown".
pub fn format_dimensions(output_width: i32, output_height: i32, raw_width: i32, raw_height: i32) -> (r:
    String)
    ensures
        r@ == dimensions_text(
            output_width as int,
            output_height as int,
            raw_width as int,
            raw_height as int,
        ),
{
    if raw_width > 0 && raw_height > 0 {
        let mut s = String::new();
        append_size(&mut s, output_width, output_height);
        s.append(" (RAW: ");
        append_size(&mut s, raw_width, raw_height);
        s.append(")");
        assert(s@ =~= dimensions_text(
            output_width as int,
            output_height as int,
            raw_width as int,
            raw_height as int,
        ));
        s
    } else if output_width > 0 && output_height > 0 {
        let mut s = String::new();
        append_size(&mut s, output_width, output_height);
        assert(s@ =~= dimensions_text(
            output_width as int,
            output_height as int,
            raw_width as int,
            raw_height as int,
        ));
        s
    } else {
        String::from_str("Unknown")
    }
}

} // verus!
