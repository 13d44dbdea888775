//! The binary blob store's data shapes and path decisions; the store's file
//! I/O lives outside the library.

use vstd::prelude::*;

use crate::messages::{path_join, path_join_spec};
use crate::text::str_eq;

verus! {

/// The label stored beside a blob: what it is and how large.
pub struct PantryLabel {
    pub dish_type: String,
    pub tag: Option<String>,
    pub size_bytes: u64,
}

/// A blob handed back to a caller, bytes included.
pub struct CachedIngredient {
    pub spice_id: String,
    pub dish_type: String,
    pub tag: Option<String>,
    pub bytes: Vec<u8>,
}

/// The directory of one blob under the store's base directory.
pub fn spice_dir(base: &str, spice_id: &str) -> (r: String)
    ensures
        r@ == path_join_spec(base@, spice_id@),
{
    path_join(base, spice_id)
}

/// The media type guessed from a file extension, for files picked off the
/// clipboard; `None` for anything that is not a known image extension.
pub open spec fn mime_of_extension(ext: Seq<char>) -> Option<Seq<char>> {
    if ext == "png"@ {
        Some("image/png"@)
    } else if ext == "jpg"@ || ext == "jpeg"@ {
        Some("image/jpeg"@)
    } else if ext == "webp"@ {
        Some("image/webp"@)
    } else if ext == "gif"@ {
        Some("image/gif"@)
    } else if ext == "bmp"@ {
        Some("image/bmp"@)
    } else if ext == "tif"@ || ext == "tiff"@ {
        Some("image/tiff"@)
    } else {
        None
    }
}

/// Guesses the media type of a file from its lower-cased extension.
pub fn guess_ingredient_mime_from_ext(ext: &str) -> (r: Option<&'static str>)
    ensures
        match r {
            Some(m) => mime_of_extension(ext@) == Some(m@),
            None => mime_of_extension(ext@) is None,
        },
{
    if str_eq(ext, "png") {
        Some("image/png")
    } else if str_eq(ext, "jpg") || str_eq(ext, "jpeg") {
        Some("image/jpeg")
    } else if str_eq(ext, "webp") {
        Some("image/webp")
    } else if str_eq(ext, "gif") {
        Some("image/gif")
    } else if str_eq(ext, "bmp") {
        Some("image/bmp")
    } else if str_eq(ext, "tif") || str_eq(ext, "tiff") {
        Some("image/tiff")
    } else {
        None
    }
}

} // verus!
