use vstd::prelude::*;
use crate::color::str_eq;
use crate::paths::{extension, path_extension};

verus! {

/// What the preview of a path becomes.
#[derive(Clone, Copy, Debug, PartialEq, Eq, Structural)]
pub enum PreviewChoice {
    /// A directory.
    Folder,
    /// A picture to decode and draw.
    Image,
    /// Any other file with an extension.
    File,
    /// A file without an extension: the preview stays as it was.
    Keep,
}

/// Whether an extension names a picture format that is drawn: `jpg`, `jpeg`
/// or `png`, as written.
pub open spec fn is_image_extension(e: Seq<char>) -> bool {
    e == "jpg"@ || e == "jpeg"@ || e == "png"@
}

/// What the preview of `path` becomes: a folder for a directory, a picture
/// for a `jpg`, `jpeg` or `png` file, a file for another extension, and no
/// change without an extension.
pub open spec fn spec_preview_choice(path: Seq<char>, is_dir: bool) -> PreviewChoice {
    if is_dir {
        PreviewChoice::Folder
    } else {
        match path_extension(path) {
            Some(e) => if is_image_extension(e) {
                PreviewChoice::Image
            } else {
                PreviewChoice::File
            },
            None => PreviewChoice::Keep,
        }
    }
}

/// What the preview of `path` becomes (see `spec_preview_choice`);
/// `is_dir` says whether the path is a directory, as the file system told
/// the caller.
pub fn preview_choice(path: &String, is_dir: bool) -> (r: PreviewChoice)
    ensures
        r == spec_preview_choice(path@, is_dir),
{
    if is_dir {
        return PreviewChoice::Folder;
    }
    match extension(path.as_str()) {
        Some(e) => {
            if str_eq(e.as_str(), "jpg") || str_eq(e.as_str(), "jpeg") || str_eq(e.as_str(), "png") {
                PreviewChoice::Image
            } else {
                PreviewChoice::File
            }
        },
        None => PreviewChoice::Keep,
    }
}

} // verus!
