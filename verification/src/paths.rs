//! Where the converted document goes.

use crate::text::optional_text;
use std::path::{Path, PathBuf};
use vstd::prelude::*;
use vstd::string::StringExecFns;

verus! {

/// What the name of a converted file ends with, after the stem of the
/// source file's name.
pub const OUTPUT_SUFFIX: &'static str = "_08.xml";

/// The stem of a path's file name as `std::path::Path::file_stem` has it: the
/// name of the last component without its extension, or `None` where the path
/// has no file name. Components are told apart by the path syntax of the
/// platform that the library is built for.
pub uninterp spec fn path_file_stem(path: Seq<char>) -> Option<Seq<char>>;

/// The path that `std::path::PathBuf::set_file_name` makes of a path and a
/// file name: the path with its last component replaced by the name.
pub uninterp spec fn path_with_file_name(path: Seq<char>, file_name: Seq<char>) -> Seq<char>;

/// `std::path::Path::file_stem`, as text.
#[verifier::external_body]
fn file_stem(path: &str) -> (stem: Option<String>)
    ensures
        optional_text(stem) == path_file_stem(path@),
{
    Path::new(path).file_stem().map(|stem| stem.to_string_lossy().into_owned())
}

/// `std::path::PathBuf::set_file_name` on a copy of the path, as text.
#[verifier::external_body]
fn with_file_name(path: &str, file_name: &str) -> (sibling: String)
    ensures
        sibling@ == path_with_file_name(path@, file_name@),
{
    let mut sibling = PathBuf::from(path);
    sibling.set_file_name(file_name);
    sibling.to_string_lossy().into_owned()
}

/// The file name of the converted document, from the stem of the source
/// file's name.
pub fn output_file_name(stem: &str) -> (file_name: String)
    ensures
        file_name@ == stem@ + OUTPUT_SUFFIX@,
{
    let mut file_name = stem.to_owned();
    file_name.append(OUTPUT_SUFFIX);
    file_name
}

/// The path of the converted document: beside the source file, under the
/// stem of its name followed by `_08.xml`. A path without a file name has
/// none.
pub open spec fn output_path(input_path: Seq<char>) -> Option<Seq<char>> {
    match path_file_stem(input_path) {
        Some(stem) => Some(path_with_file_name(input_path, stem + OUTPUT_SUFFIX@)),
        None => None,
    }
}

/// Derives the path of the converted document from the path of the source
/// file. `None` says that the path names no file.
pub fn create_output_path(input_path: &str) -> (output: Option<String>)
    ensures
        optional_text(output) == output_path(input_path@),
{
    match file_stem(input_path) {
        Some(stem) => Some(with_file_name(input_path, output_file_name(stem.as_str()).as_str())),
        None => None,
    }
}

} // verus!
