//! Classifying a file by its extension.
use vstd::prelude::*;

use crate::config::{contains_name, Config, ConfigModel};
use crate::text::{ascii_lower, to_ascii_lower};

verus! {

/// What a file is, judged by its extension.
#[derive(Clone, Copy, Debug, PartialEq, Eq, Structural)]
pub enum Classification {
    /// The file has no extension; it is ignored silently.
    NoExtension,
    /// A media file, eligible for copying.
    Image,
    /// An expected non-media file; it is ignored silently.
    KnownOther,
    /// An extension in neither set; it is reported, never copied.
    Unknown,
}

/// The text of an optional string.
pub open spec fn opt_view(ext: Option<&str>) -> Option<Seq<char>> {
    match ext {
        Some(e) => Some(e@),
        None => None,
    }
}

/// The class of a file with extension `ext` under the settings `c`. Matching
/// ignores ASCII case: the extension is lowered before it is looked up, and
/// the image set is consulted first.
pub open spec fn classification(c: ConfigModel, ext: Option<Seq<char>>) -> Classification {
    match ext {
        None => Classification::NoExtension,
        Some(e) => {
            let lowered = ascii_lower(e);
            if c.images.contains(lowered) {
                Classification::Image
            } else if c.others.contains(lowered) {
                Classification::KnownOther
            } else {
                Classification::Unknown
            }
        },
    }
}

/// The extension in the form it is matched and reported in.
pub fn normalize_extension(ext: &str) -> (r: String)
    ensures
        r@ == ascii_lower(ext@),
{
    to_ascii_lower(ext)
}

/// Classifies a file by its extension, if it has one.
pub fn classify(config: &Config, ext: Option<&str>) -> (r: Classification)
    ensures
        r == classification(config@, opt_view(ext)),
{
    match ext {
        None => Classification::NoExtension,
        Some(e) => {
            let lowered = normalize_extension(e);
            if contains_name(&config.image_extensions, &lowered) {
                Classification::Image
            } else if contains_name(&config.other_extensions, &lowered) {
                Classification::KnownOther
            } else {
                Classification::Unknown
            }
        },
    }
}

} // verus!
