//! File type detection by file name extension.
//!
//! A name is classified by the extension of its lowercase form, so that
//! `photo.CR2` and `photo.cr2` fall in the same class.
use vstd::prelude::*;

verus! {

/// `s` ends with `suffix`.
pub open spec fn has_suffix(s: Seq<char>, suffix: Seq<char>) -> bool {
    suffix.len() <= s.len() && s.subrange(s.len() - suffix.len(), s.len() as int) == suffix
}

/// What `str::to_lowercase` makes of a string.
pub uninterp spec fn lower_of(s: Seq<char>) -> Seq<char>;

/// Relies on `str::to_lowercase`: its result depends on the characters of
/// the string alone.
#[verifier::external_body]
pub(crate) fn lowercase(s: &str) -> (r: String)
    ensures
        r@ == lower_of(s@),
{
    s.to_lowercase()
}

/// What `std::path::Path::file_name` makes of a path given as text: its
/// final component, if it has one.
pub uninterp spec fn file_name_of(path: Seq<char>) -> Option<Seq<char>>;

/// Relies on `std::path::Path::file_name`: the final component of the path,
/// or none where the path ends in `..` or has no component. A component of a
/// path given as text is text, so the conversion back to `str` never fails.
#[verifier::external_body]
pub(crate) fn file_name(path: &str) -> (r: Option<String>)
    ensures
        match r {
            Some(name) => file_name_of(path@) == Some(name@),
            None => file_name_of(path@) == None::<Seq<char>>,
        },
{
    match std::path::Path::new(path).file_name() {
        Some(name) => name.to_str().map(String::from),
        None => None,
    }
}

/// The file name of a path, or `default` where the path has none.
pub open spec fn file_name_or(path: Seq<char>, default: Seq<char>) -> Seq<char> {
    match file_name_of(path) {
        Some(name) => name,
        None => default,
    }
}

/// A lowercase name that carries the extension of a camera RAW format.
pub open spec fn is_raw_name(name: Seq<char>) -> bool {
    has_suffix(name, ".raw"@) || has_suffix(name, ".cr2"@) || has_suffix(name, ".cr3"@)
        || has_suffix(name, ".nef"@) || has_suffix(name, ".dng"@) || has_suffix(name, ".arw"@)
        || has_suffix(name, ".raf"@) || has_suffix(name, ".rw2"@) || has_suffix(name, ".orf"@)
        || has_suffix(name, ".pef"@) || has_suffix(name, ".sr2"@) || has_suffix(name, ".srf"@)
        || has_suffix(name, ".srw"@) || has_suffix(name, ".3fr"@) || has_suffix(name, ".fff"@)
        || has_suffix(name, ".mef"@) || has_suffix(name, ".mrw"@) || has_suffix(name, ".x3f"@)
        || has_suffix(name, ".dcr"@) || has_suffix(name, ".kdc"@) || has_suffix(name, ".iiq"@)
        || has_suffix(name, ".rwl"@) || has_suffix(name, ".gpr"@) || has_suffix(name, ".cap"@)
        || has_suffix(name, ".erf"@) || has_suffix(name, ".mdc"@) || has_suffix(name, ".mos"@)
        || has_suffix(name, ".ptx"@) || has_suffix(name, ".r3d"@)
}

/// A lowercase name that carries the extension of a standard image format.
pub open spec fn is_image_name(name: Seq<char>) -> bool {
    has_suffix(name, ".jpg"@) || has_suffix(name, ".jpeg"@) || has_suffix(name, ".png"@)
        || has_suffix(name, ".tiff"@) || has_suffix(name, ".tif"@) || has_suffix(name, ".bmp"@)
        || has_suffix(name, ".webp"@)
}

/// A lowercase name of a JPEG file.
pub open spec fn is_jpeg_name(name: Seq<char>) -> bool {
    has_suffix(name, ".jpg"@) || has_suffix(name, ".jpeg"@)
}

/// A lowercase name of one of the RAW formats that the batch converter
/// picks up from a directory.
pub open spec fn is_common_raw_name(name: Seq<char>) -> bool {
    has_suffix(name, ".raw"@) || has_suffix(name, ".cr2"@) || has_suffix(name, ".cr3"@)
        || has_suffix(name, ".nef"@) || has_suffix(name, ".dng"@) || has_suffix(name, ".arw"@)
        || has_suffix(name, ".raf"@) || has_suffix(name, ".rw2"@) || has_suffix(name, ".orf"@)
}

/// The display category of a file name.
pub open spec fn file_type_of(filename: Seq<char>) -> Seq<char> {
    if is_raw_name(lower_of(filename)) {
        "RAW"@
    } else if is_image_name(lower_of(filename)) {
        "Image"@
    } else {
        "Unknown"@
    }
}

/// Whether `s` ends with `suffix`, character by character.
pub fn ends_with(s: &str, suffix: &str) -> (r: bool)
    ensures
        r == has_suffix(s@, suffix@),
{
    let n = s.unicode_len();
    let m = suffix.unicode_len();
    if m > n {
        return false;
    }
    let off = n - m;
    let mut i: usize = 0;
    while i < m
        invariant
            n == s@.len(),
            m == suffix@.len(),
            off == n - m,
            i <= m,
            forall|j: int| 0 <= j < i ==> s@[off + j] == suffix@[j],
        decreases m - i,
    {
        if s.get_char(off + i) != suffix.get_char(i) {
            assert(s@.subrange(off as int, n as int)[i as int] != suffix@[i as int]);
            return false;
        }
        i = i + 1;
    }
    assert(s@.subrange(off as int, n as int) =~= suffix@);
    true
}

/// Whether an already lowercased name has a RAW extension.
pub fn has_raw_extension(lower_name: &str) -> (r: bool)
    ensures
        r == is_raw_name(lower_name@),
{
    let l = lower_name;
    ends_with(l, ".raw") || ends_with(l, ".cr2") || ends_with(l, ".cr3")
        || ends_with(l, ".nef") || ends_with(l, ".dng") || ends_with(l, ".arw")
        || ends_with(l, ".raf") || ends_with(l, ".rw2") || ends_with(l, ".orf")
        || ends_with(l, ".pef") || ends_with(l, ".sr2") || ends_with(l, ".srf")
        || ends_with(l, ".srw") || ends_with(l, ".3fr") || ends_with(l, ".fff")
        || ends_with(l, ".mef") || ends_with(l, ".mrw") || ends_with(l, ".x3f")
        || ends_with(l, ".dcr") || ends_with(l, ".kdc") || ends_with(l, ".iiq")
        || ends_with(l, ".rwl") || ends_with(l, ".gpr") || ends_with(l, ".cap")
        || ends_with(l, ".erf") || ends_with(l, ".mdc") || ends_with(l, ".mos")
        || ends_with(l, ".ptx") || ends_with(l, ".r3d")
}

/// Whether an already lowercased name has a standard image extension.
pub fn has_image_extension(lower_name: &str) -> (r: bool)
    ensures
        r == is_image_name(lower_name@),
{
    let l = lower_name;
    ends_with(l, ".jpg") || ends_with(l, ".jpeg") || ends_with(l, ".png")
        || ends_with(l, ".tiff") || ends_with(l, ".tif") || ends_with(l, ".bmp")
        || ends_with(l, ".webp")
}

/// Whether an already lowercased name has a JPEG extension.
pub fn has_jpeg_extension(lower_name: &str) -> (r: bool)
    ensures
        r == is_jpeg_name(lower_name@),
{
    ends_with(lower_name, ".jpg") || ends_with(lower_name, ".jpeg")
}

/// Whether an already lowercased name has the extension of one of the RAW
/// formats that the batch converter picks up.
pub fn has_common_raw_extension(lower_name: &str) -> (r: bool)
    ensures
        r == is_common_raw_name(lower_name@),
{
    let l = lower_name;
    ends_with(l, ".raw") || ends_with(l, ".cr2") || ends_with(l, ".cr3")
        || ends_with(l, ".nef") || ends_with(l, ".dng") || ends_with(l, ".arw")
        || ends_with(l, ".raf") || ends_with(l, ".rw2") || ends_with(l, ".orf")
}

/// Checks whether a file name carries the extension of a supported camera
/// RAW format, in any letter case.
pub fn is_raw_file(filename: &str) -> (r: bool)
    ensures
        r == is_raw_name(lower_of(filename@)),
{
    let lower_name = lowercase(filename);
    has_raw_extension(lower_name.as_str())
}

/// Checks whether a file name carries the extension of a supported standard
/// image format (JPEG, PNG, TIFF, BMP, WebP), in any letter case.
pub fn is_image_file(filename: &str) -> (r: bool)
    ensures
        r == is_image_name(lower_of(filename@)),
{
    let lower_name = lowercase(filename);
    has_image_extension(lower_name.as_str())
}

/// Checks whether a file name is that of a RAW or a standard image file.
pub fn is_supported_file(filename: &str) -> (r: bool)
    ensures
        r == (is_raw_name(lower_of(filename@)) || is_image_name(lower_of(filename@))),
{
    is_raw_file(filename) || is_image_file(filename)
}

/// The category of a file name for display: "RAW", "Image" or "Unknown".
pub fn get_file_type(filename: &str) -> (r: &'static str)
    ensures
        r@ == file_type_of(filename@),
{
    if is_raw_file(filename) {
        "RAW"
    } else if is_image_file(filename) {
        "Image"
    } else {
        "Unknown"
    }
}

/// Checks whether a file name is that of a JPEG file, in any letter case.
pub fn is_jpeg_file(filename: &str) -> (r: bool)
    ensures
        r == is_jpeg_name(lower_of(filename@)),
{
    let lower_name = lowercase(filename);
    has_jpeg_extension(lower_name.as_str())
}

/// Checks whether a file name is that of one of the RAW formats that the
/// batch converter picks up, in any letter case.
pub fn is_common_raw_file(filename: &str) -> (r: bool)
    ensures
        r == is_common_raw_name(lower_of(filename@)),
{
    let lower_name = lowercase(filename);
    has_common_raw_extension(lower_name.as_str())
}

/// The last four characters of a RAW name are a dot and three characters
/// that no standard image extension ends in.
proof fn lemma_raw_name_tail(name: Seq<char>)
    requires
        is_raw_name(name),
    ensures
        name.len() >= 4,
        name[name.len() - 4] == '.',
        name[name.len() - 3] != 'j',
        name[name.len() - 3] != 't',
        name[name.len() - 3] != 'b',
        !(name[name.len() - 3] == 'p' && name[name.len() - 2] == 'n'),
{
        reveal_strlit(".raw");
        reveal_strlit(".cr2");
        reveal_strlit(".cr3");
        reveal_strlit(".nef");
        reveal_strlit(".dng");
        reveal_strlit(".arw");
        reveal_strlit(".raf");
        reveal_strlit(".rw2");
        reveal_strlit(".orf");
        reveal_strlit(".pef");
        reveal_strlit(".sr2");
        reveal_strlit(".srf");
        reveal_strlit(".srw");
        reveal_strlit(".3fr");
        reveal_strlit(".fff");
        reveal_strlit(".mef");
        reveal_strlit(".mrw");
        reveal_strlit(".x3f");
        reveal_strlit(".dcr");
        reveal_strlit(".kdc");
        reveal_strlit(".iiq");
        reveal_strlit(".rwl");
        reveal_strlit(".gpr");
        reveal_strlit(".cap");
        reveal_strlit(".erf");
        reveal_strlit(".mdc");
        reveal_strlit(".mos");
        reveal_strlit(".ptx");
        reveal_strlit(".r3d");
    let n = name.len() as int;
    let w = name.subrange(n - 4, n);
    assert(w[0] == name[n - 4] && w[1] == name[n - 3] && w[2] == name[n - 2]);
}

/// The last four characters of a standard image name are no dot followed
/// by the rest of a RAW extension.
proof fn lemma_image_name_tail(name: Seq<char>)
    requires
        is_image_name(name),
    ensures
        name.len() >= 4,
        name[name.len() - 4] != '.' || name[name.len() - 3] == 'j' || name[name.len() - 3] == 't'
            || name[name.len() - 3] == 'b' || (name[name.len() - 3] == 'p' && name[name.len() - 2]
            == 'n'),
{
        reveal_strlit(".jpg");
        reveal_strlit(".jpeg");
        reveal_strlit(".png");
        reveal_strlit(".tiff");
        reveal_strlit(".tif");
        reveal_strlit(".bmp");
        reveal_strlit(".webp");
    let n = name.len() as int;
    let w = name.subrange(n - 4, n);
    assert(w[0] == name[n - 4] && w[1] == name[n - 3] && w[2] == name[n - 2]);
    if n >= 5 {
        let v = name.subrange(n - 5, n);
        assert(v[1] == name[n - 4]);
    }
}

/// No name has both a RAW extension and a standard image extension, so the
/// two classes never claim the same file.
pub proof fn lemma_raw_and_image_disjoint(name: Seq<char>)
    ensures
        !(is_raw_name(name) && is_image_name(name)),
{
    if is_raw_name(name) && is_image_name(name) {
        lemma_raw_name_tail(name);
        lemma_image_name_tail(name);
    }
}

/// The display category agrees with the predicates: "RAW" exactly for RAW
/// names, "Image" exactly for standard image names, and "Unknown" exactly
/// for names that are not supported.
pub proof fn lemma_file_type_agrees(filename: Seq<char>)
    ensures
        (file_type_of(filename) == "RAW"@) == is_raw_name(lower_of(filename)),
        (file_type_of(filename) == "Image"@) == is_image_name(lower_of(filename)),
        (file_type_of(filename) == "Unknown"@) == !(is_raw_name(lower_of(filename))
            || is_image_name(lower_of(filename))),
{
    reveal_strlit("RAW");
    reveal_strlit("Image");
    reveal_strlit("Unknown");
    assert("RAW"@.len() == 3 && "Image"@.len() == 5 && "Unknown"@.len() == 7);
    lemma_raw_and_image_disjoint(lower_of(filename));
}

/// Every name that the batch converter picks up is a RAW name.
pub proof fn lemma_common_raw_is_raw(name: Seq<char>)
    ensures
        is_common_raw_name(name) ==> is_raw_name(name),
{
}

/// Every JPEG name is a standard image name.
pub proof fn lemma_jpeg_is_image(name: Seq<char>)
    ensures
        is_jpeg_name(name) ==> is_image_name(name),
{
}

} // verus!
