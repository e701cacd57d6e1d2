//! Names and places of files. Paths are taken apart and put together by the
//! standard library; what is made of the parts is decided here.

use vstd::prelude::*;
use vstd::string::*;

verus! {

/// The last component of a path without its extension, as the standard library
/// of the build's target reads paths; `None` where the path has no last
/// component.
pub uninterp spec fn stem_of(path: Seq<char>) -> Option<Seq<char>>;

/// The last component of a path; `None` where the path has none.
pub uninterp spec fn file_name_of(path: Seq<char>) -> Option<Seq<char>>;

/// What follows the last dot of the last component of a path; `None` where
/// there is no such part.
pub uninterp spec fn path_extension_of(path: Seq<char>) -> Option<Seq<char>>;

/// A path without its last component; `None` where it has none.
pub uninterp spec fn parent_of(path: Seq<char>) -> Option<Seq<char>>;

/// The path of `name` inside the directory `dir`.
pub uninterp spec fn joined_path(dir: Seq<char>, name: Seq<char>) -> Seq<char>;

/// The text of an optional string.
pub open spec fn text_of(s: Option<String>) -> Option<Seq<char>> {
    match s {
        Some(s) => Some(s@),
        None => None,
    }
}

/// `std::path::Path::file_stem` on a path given as text. The contract only
/// names the result.
#[verifier::external_body]
pub(crate) fn file_stem(path: &str) -> (stem: Option<String>)
    ensures
        text_of(stem) == stem_of(path@),
{
    std::path::Path::new(path).file_stem().and_then(|s| s.to_str()).map(|s| s.to_string())
}

/// `std::path::Path::file_name` on a path given as text. The contract only
/// names the result.
#[verifier::external_body]
pub(crate) fn file_name(path: &str) -> (name: Option<String>)
    ensures
        text_of(name) == file_name_of(path@),
{
    std::path::Path::new(path).file_name().and_then(|s| s.to_str()).map(|s| s.to_string())
}

/// `std::path::Path::extension` on a path given as text. The contract only
/// names the result.
#[verifier::external_body]
pub(crate) fn path_extension(path: &str) -> (ext: Option<String>)
    ensures
        text_of(ext) == path_extension_of(path@),
{
    std::path::Path::new(path).extension().and_then(|s| s.to_str()).map(|s| s.to_string())
}

/// `std::path::Path::parent` on a path given as text. The contract only names
/// the result.
#[verifier::external_body]
pub(crate) fn parent(path: &str) -> (dir: Option<String>)
    ensures
        text_of(dir) == parent_of(path@),
{
    std::path::Path::new(path).parent().map(|p| p.to_string_lossy().to_string())
}

/// `std::path::Path::join` on paths given as text. The contract only names
/// the result.
#[verifier::external_body]
pub(crate) fn join_path(dir: &str, name: &str) -> (path: String)
    ensures
        path@ == joined_path(dir@, name@),
{
    std::path::Path::new(dir).join(name).to_string_lossy().to_string()
}

/// Whether `c` is the letter `lower`, in either case.
pub open spec fn is_letter(c: char, lower: char, upper: char) -> bool {
    c == lower || c == upper
}

/// Whether an extension names a PNG file: `png` in any mix of cases.
pub open spec fn names_png(ext: Option<Seq<char>>) -> bool {
    match ext {
        Some(e) => e.len() == 3 && is_letter(e[0], 'p', 'P') && is_letter(e[1], 'n', 'N')
            && is_letter(e[2], 'g', 'G'),
        None => false,
    }
}

/// Decides whether an extension names a PNG file.
pub fn is_png_extension(ext: Option<&str>) -> (png: bool)
    ensures
        png == names_png(
            match ext {
                Some(e) => Some(e@),
                None => None,
            },
        ),
{
    match ext {
        Some(e) => {
            if e.unicode_len() != 3 {
                return false;
            }
            let p = e.get_char(0);
            let n = e.get_char(1);
            let g = e.get_char(2);
            (p == 'p' || p == 'P') && (n == 'n' || n == 'N') && (g == 'g' || g == 'G')
        },
        None => false,
    }
}

/// Decides whether a path has the extension of a PNG file.
pub fn is_png(path: &str) -> (png: bool)
    ensures
        png == names_png(path_extension_of(path@)),
{
    match path_extension(path) {
        Some(e) => is_png_extension(Some(e.as_str())),
        None => is_png_extension(None),
    }
}

/// The stem used for a path without one.
pub open spec fn default_stem() -> Seq<char> {
    "output"@
}

/// The name of an output file: the source's stem, or `output` where it has
/// none, followed by `suffix`.
pub open spec fn output_name_of(stem: Option<Seq<char>>, suffix: Seq<char>) -> Seq<char> {
    match stem {
        Some(s) => s + suffix,
        None => default_stem() + suffix,
    }
}

/// Builds the name of an output file from the source's stem.
pub fn output_name(stem: Option<&str>, suffix: &str) -> (name: String)
    ensures
        name@ == output_name_of(
            match stem {
                Some(s) => Some(s@),
                None => None,
            },
            suffix@,
        ),
{
    let mut name = match stem {
        Some(s) => String::from_str(s),
        None => String::from_str("output"),
    };
    name.append(suffix);
    name
}

/// The directory an output goes to: the requested one, else the source's own
/// directory, else the current directory.
pub open spec fn output_dir_of(requested: Option<Seq<char>>, source_dir: Option<Seq<char>>) -> Seq<
    char,
> {
    match requested {
        Some(d) => d,
        None => match source_dir {
            Some(d) => d,
            None => "."@,
        },
    }
}

/// Chooses the directory an output goes to.
pub fn output_dir(requested: Option<&str>, source_dir: Option<&str>) -> (dir: String)
    ensures
        dir@ == output_dir_of(
            match requested {
                Some(d) => Some(d@),
                None => None,
            },
            match source_dir {
                Some(d) => Some(d@),
                None => None,
            },
        ),
{
    match requested {
        Some(d) => String::from_str(d),
        None => match source_dir {
            Some(d) => String::from_str(d),
            None => String::from_str("."),
        },
    }
}

/// Where the output of the source at `path` goes: into the requested
/// directory, or else beside the source, under the source's stem followed by
/// `suffix`.
pub open spec fn destination_of(path: Seq<char>, requested: Option<Seq<char>>, suffix: Seq<char>) -> Seq<
    char,
> {
    joined_path(output_dir_of(requested, parent_of(path)), output_name_of(stem_of(path), suffix))
}

/// Builds the path of the output of the source at `path`.
pub fn destination(path: &str, requested: Option<&str>, suffix: &str) -> (out: String)
    ensures
        out@ == destination_of(
            path@,
            match requested {
                Some(d) => Some(d@),
                None => None,
            },
            suffix@,
        ),
{
    let source_dir = parent(path);
    let dir = match &source_dir {
        Some(d) => output_dir(requested, Some(d.as_str())),
        None => output_dir(requested, None),
    };
    let stem = file_stem(path);
    let name = match &stem {
        Some(s) => output_name(Some(s.as_str()), suffix),
        None => output_name(None, suffix),
    };
    join_path(dir.as_str(), name.as_str())
}

} // verus!
