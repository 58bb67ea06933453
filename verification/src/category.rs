//! Classification of files by extension.
//!
//! Every extension maps to exactly one category; extensions are matched
//! ignoring ASCII case, and anything unrecognized (including the empty
//! extension) falls to `Others`.

use vstd::prelude::*;
use vstd::string::*;

verus! {

/// Destination category for a file, determined solely by its extension.
#[derive(Clone, Copy, Debug, PartialEq, Eq, Structural)]
pub enum Category {
    Images,
    Gifs,
    Videos,
    Audio,
    Documents,
    Archives,
    Others,
}

/// ASCII case folding on a code point: the upper-case ASCII letters map to
/// the corresponding lower-case letter, every other code point to itself.
pub open spec fn fold_case(c: int) -> int {
    if 65 <= c && c <= 90 {
        c + 32
    } else {
        c
    }
}

/// Two character sequences are equal up to ASCII case.
pub open spec fn chars_eq_nocase(a: Seq<char>, b: Seq<char>) -> bool {
    &&& a.len() == b.len()
    &&& forall|i: int| 0 <= i < a.len() ==> fold_case(a[i] as int) == fold_case(b[i] as int)
}

/// Compares two strings for equality ignoring ASCII case.
pub fn eq_ignore_ascii_case(a: &str, b: &str) -> (r: bool)
    ensures
        r == chars_eq_nocase(a@, b@),
{
    let alen = a.unicode_len();
    let blen = b.unicode_len();
    if alen != blen {
        return false;
    }
    let mut i: usize = 0;
    while i < alen
        invariant
            alen == a@.len(),
            blen == b@.len(),
            alen == blen,
            i <= alen,
            forall|j: int| 0 <= j < i ==> fold_case(a@[j] as int) == fold_case(b@[j] as int),
        decreases alen - i,
    {
        let ua = a.get_char(i) as u32;
        let ub = b.get_char(i) as u32;
        let fa = if 65 <= ua && ua <= 90 { ua + 32 } else { ua };
        let fb = if 65 <= ub && ub <= 90 { ub + 32 } else { ub };
        if fa != fb {
            return false;
        }
        i = i + 1;
    }
    true
}

/// The fixed extension table: which category a given extension selects,
/// matched ignoring ASCII case; everything unrecognized falls to `Others`.
pub open spec fn spec_category_of(ext: Seq<char>) -> Category {
    if chars_eq_nocase(ext, "jpg"@) || chars_eq_nocase(ext, "jpeg"@) || chars_eq_nocase(ext, "png"@)
        || chars_eq_nocase(ext, "bmp"@) || chars_eq_nocase(ext, "tiff"@) {
        Category::Images
    } else if chars_eq_nocase(ext, "gif"@) {
        Category::Gifs
    } else if chars_eq_nocase(ext, "mp4"@) || chars_eq_nocase(ext, "mov"@)
        || chars_eq_nocase(ext, "avi"@) || chars_eq_nocase(ext, "mkv"@) {
        Category::Videos
    } else if chars_eq_nocase(ext, "mp3"@) || chars_eq_nocase(ext, "wav"@)
        || chars_eq_nocase(ext, "flac"@) {
        Category::Audio
    } else if chars_eq_nocase(ext, "pdf"@) || chars_eq_nocase(ext, "docx"@)
        || chars_eq_nocase(ext, "txt"@) {
        Category::Documents
    } else if chars_eq_nocase(ext, "zip"@) || chars_eq_nocase(ext, "rar"@)
        || chars_eq_nocase(ext, "7z"@) {
        Category::Archives
    } else {
        Category::Others
    }
}

/// Maps a file extension to its category via the fixed table, ignoring
/// ASCII case. Total: every extension yields a category.
pub fn category_of(ext: &str) -> (c: Category)
    ensures
        c == spec_category_of(ext@),
{
    if eq_ignore_ascii_case(ext, "jpg") || eq_ignore_ascii_case(ext, "jpeg")
        || eq_ignore_ascii_case(ext, "png") || eq_ignore_ascii_case(ext, "bmp")
        || eq_ignore_ascii_case(ext, "tiff") {
        Category::Images
    } else if eq_ignore_ascii_case(ext, "gif") {
        Category::Gifs
    } else if eq_ignore_ascii_case(ext, "mp4") || eq_ignore_ascii_case(ext, "mov")
        || eq_ignore_ascii_case(ext, "avi") || eq_ignore_ascii_case(ext, "mkv") {
        Category::Videos
    } else if eq_ignore_ascii_case(ext, "mp3") || eq_ignore_ascii_case(ext, "wav")
        || eq_ignore_ascii_case(ext, "flac") {
        Category::Audio
    } else if eq_ignore_ascii_case(ext, "pdf") || eq_ignore_ascii_case(ext, "docx")
        || eq_ignore_ascii_case(ext, "txt") {
        Category::Documents
    } else if eq_ignore_ascii_case(ext, "zip") || eq_ignore_ascii_case(ext, "rar")
        || eq_ignore_ascii_case(ext, "7z") {
        Category::Archives
    } else {
        Category::Others
    }
}

/// The folder name each category uses under the target directory.
pub open spec fn spec_folder_name(c: Category) -> Seq<char> {
    match c {
        Category::Images => "images"@,
        Category::Gifs => "gifs"@,
        Category::Videos => "videos"@,
        Category::Audio => "audio"@,
        Category::Documents => "documents"@,
        Category::Archives => "archives"@,
        Category::Others => "others"@,
    }
}

/// Returns the folder name of a category.
pub fn folder_name(c: Category) -> (r: &'static str)
    ensures
        r@ == spec_folder_name(c),
{
    match c {
        Category::Images => "images",
        Category::Gifs => "gifs",
        Category::Videos => "videos",
        Category::Audio => "audio",
        Category::Documents => "documents",
        Category::Archives => "archives",
        Category::Others => "others",
    }
}

} // verus!
