//! Paths: where an image's tag store lies, under which name the image is
//! stored there, and which file names are images.
//!
//! Taking a path apart and putting one together is left to `std::path`, whose
//! rules differ from platform to platform. The three functions that call it
//! carry contracts that are not proved: each says that the result is what
//! `std::path` computes from the arguments, under a name.

use crate::error::TagError;
use vstd::prelude::*;

verus! {

/// What `std::path::Path::parent` gives for a path, on the platform that the
/// library is built for: the path without its last component, or `None`
/// where the path ends in a root or is empty.
pub uninterp spec fn path_parent(path: Seq<char>) -> Option<Seq<char>>;

/// What `std::path::Path::file_name` gives for a path, on the platform that
/// the library is built for: the last component, or `None` where the path
/// ends in `..` or has no component.
pub uninterp spec fn path_file_name(path: Seq<char>) -> Option<Seq<char>>;

/// What `std::path::Path::join` gives for a path and a path to add to it, on
/// the platform that the library is built for.
pub uninterp spec fn path_join(base: Seq<char>, part: Seq<char>) -> Seq<char>;

/// `Path::parent`, of a path given and returned as text.
#[verifier::external_body]
fn parent(path: &str) -> (r: Option<String>)
    ensures
        match path_parent(path@) {
            Some(directory) => r matches Some(found) && found@ == directory,
            None => r is None,
        },
{
    std::path::Path::new(path).parent().map(|directory| directory.to_string_lossy().into_owned())
}

/// `Path::file_name`, of a path given as text, the name returned as text.
#[verifier::external_body]
fn file_name(path: &str) -> (r: Option<String>)
    ensures
        match path_file_name(path@) {
            Some(name) => r matches Some(found) && found@ == name,
            None => r is None,
        },
{
    std::path::Path::new(path).file_name().map(|name| name.to_string_lossy().into_owned())
}

/// `Path::join`, of paths given and returned as text.
#[verifier::external_body]
fn join(base: &str, part: &str) -> (joined: String)
    ensures
        joined@ == path_join(base@, part@),
{
    std::path::Path::new(base).join(part).to_string_lossy().into_owned()
}

/// The directory that holds the tag store of a directory of images.
pub open spec fn store_dir(directory: Seq<char>) -> Seq<char> {
    path_join(directory, ".picviewer"@)
}

/// The sidecar file that holds the tag store of a directory of images:
/// `<directory>/.picviewer/tags.json`.
pub open spec fn store_file(directory: Seq<char>) -> Seq<char> {
    path_join(store_dir(directory), "tags.json"@)
}

/// The name under which an image is stored: the last component of its path,
/// and the empty name where the path has none.
pub open spec fn image_key(image_path: Seq<char>) -> Seq<char> {
    match path_file_name(image_path) {
        Some(name) => name,
        None => Seq::empty(),
    }
}

/// The directory that holds the tag store of a directory of images.
pub fn store_dir_of(directory: &str) -> (path: String)
    ensures
        path@ == store_dir(directory@),
{
    join(directory, ".picviewer")
}

/// The sidecar file of a directory of images.
pub fn store_file_of(directory: &str) -> (path: String)
    ensures
        path@ == store_file(directory@),
{
    let store = join(directory, ".picviewer");
    join(store.as_str(), "tags.json")
}

/// The directory of an image: the parent of its path. Fails with
/// `InvalidPath` exactly where the path has no parent.
pub fn image_dir(image_path: &str) -> (r: Result<String, TagError>)
    ensures
        match path_parent(image_path@) {
            Some(directory) => r matches Ok(found) && found@ == directory,
            None => r == Err::<String, TagError>(TagError::InvalidPath),
        },
{
    match parent(image_path) {
        Some(directory) => Ok(directory),
        None => Err(TagError::InvalidPath),
    }
}

/// The name under which an image is stored in its directory's tag store.
pub fn image_key_of(image_path: &str) -> (name: String)
    ensures
        name@ == image_key(image_path@),
{
    match file_name(image_path) {
        Some(name) => name,
        None => String::new(),
    }
}

/// The directory that holds the tag store of an image's directory. Fails
/// with `InvalidPath` exactly where the image path has no parent.
pub fn tags_dir_path(image_path: &str) -> (r: Result<String, TagError>)
    ensures
        match path_parent(image_path@) {
            Some(directory) => r matches Ok(path) && path@ == store_dir(directory),
            None => r == Err::<String, TagError>(TagError::InvalidPath),
        },
{
    match image_dir(image_path) {
        Ok(directory) => Ok(store_dir_of(directory.as_str())),
        Err(error) => Err(error),
    }
}

/// The sidecar file that holds the tags of an image. Fails with
/// `InvalidPath` exactly where the image path has no parent.
pub fn tags_file_path(image_path: &str) -> (r: Result<String, TagError>)
    ensures
        match path_parent(image_path@) {
            Some(directory) => r matches Ok(path) && path@ == store_file(directory),
            None => r == Err::<String, TagError>(TagError::InvalidPath),
        },
{
    match image_dir(image_path) {
        Ok(directory) => Ok(store_file_of(directory.as_str())),
        Err(error) => Err(error),
    }
}

/// A character with the letters `A` to `Z` turned into `a` to `z`.
pub open spec fn ascii_lower(c: char) -> char {
    if 'A' <= c && c <= 'Z' {
        ((c as u32) + 32) as char
    } else {
        c
    }
}

/// A text with its letters `A` to `Z` turned into `a` to `z`.
pub open spec fn lowered(text: Seq<char>) -> Seq<char> {
    text.map_values(|c: char| ascii_lower(c))
}

/// Whether a dot stands at `at` with no dot after it.
pub open spec fn is_last_dot(name: Seq<char>, at: int) -> bool {
    &&& 0 <= at < name.len()
    &&& name[at] == '.'
    &&& forall|k: int| at < k < name.len() ==> name[k] != '.'
}

/// The extension of a file name: what follows its last dot. A name without a
/// dot has none, nor has one whose only dot comes first, nor has `..`.
pub open spec fn extension_of(name: Seq<char>) -> Option<Seq<char>> {
    if name != ".."@ && exists|at: int| 1 <= at && is_last_dot(name, at) {
        let at = choose|at: int| 1 <= at && is_last_dot(name, at);
        Some(name.subrange(at + 1, name.len() as int))
    } else {
        None
    }
}

/// Whether an extension, whatever the case of its letters, is one of `jpg`,
/// `jpeg`, `png`, `gif`, `bmp` and `webp`.
pub open spec fn image_extension(extension: Seq<char>) -> bool {
    let folded = lowered(extension);
    ||| folded == "jpg"@
    ||| folded == "jpeg"@
    ||| folded == "png"@
    ||| folded == "gif"@
    ||| folded == "bmp"@
    ||| folded == "webp"@
}

/// Whether a file name is that of an image: it has an extension, and the
/// extension is one of the six.
pub open spec fn image_name(name: Seq<char>) -> bool {
    match extension_of(name) {
        Some(extension) => image_extension(extension),
        None => false,
    }
}

/// Whether a path is that of an image: its last component is an image name.
pub open spec fn image_path(path: Seq<char>) -> bool {
    match path_file_name(path) {
        Some(name) => image_name(name),
        None => false,
    }
}

/// A character with the letters `A` to `Z` turned into `a` to `z`.
pub fn lower_char(c: char) -> (r: char)
    ensures
        r == ascii_lower(c),
{
    if 'A' <= c && c <= 'Z' {
        ((c as u8) + 32u8) as char
    } else {
        c
    }
}

/// Whether what a text holds from `start` on is `word`, but for the case of
/// the letters `A` to `Z` in the text.
fn tail_is(text: &str, start: usize, word: &str) -> (r: bool)
    requires
        start <= text@.len(),
    ensures
        r == (lowered(text@.subrange(start as int, text@.len() as int)) == word@),
{
    let length = text.unicode_len();
    let wanted = word.unicode_len();
    let ghost tail = text@.subrange(start as int, text@.len() as int);
    if length - start != wanted {
        return false;
    }
    let mut k: usize = 0;
    while k < wanted
        invariant
            k <= wanted,
            wanted == word@.len(),
            length == text@.len(),
            start + wanted == length,
            tail == text@.subrange(start as int, text@.len() as int),
            forall|j: int| 0 <= j < k ==> ascii_lower(#[trigger] tail[j]) == word@[j],
        decreases wanted - k,
    {
        let c = text.get_char(start + k);
        if lower_char(c) != word.get_char(k) {
            return false;
        }
        k += 1;
    }
    assert(lowered(tail) =~= word@);
    true
}

/// Whether a file name is that of an image.
pub fn is_image_name(name: &str) -> (r: bool)
    ensures
        r == image_name(name@),
{
    let length = name.unicode_len();
    let mut start: usize = length;
    while start > 0 && name.get_char(start - 1) != '.'
        invariant
            start <= length,
            length == name@.len(),
            forall|k: int| start <= k < length ==> name@[k] != '.',
        decreases start,
    {
        start -= 1;
    }
    if start < 2 {
        assert forall|at: int| 1 <= at implies !is_last_dot(name@, at) by {
            if is_last_dot(name@, at) {
                assert(start <= at);
            }
        }
        return false;
    }
    let found = tail_is(name, start, "jpg") || tail_is(name, start, "jpeg") || tail_is(
        name,
        start,
        "png",
    ) || tail_is(name, start, "gif") || tail_is(name, start, "bmp") || tail_is(
        name,
        start,
        "webp",
    );
    proof {
        assert(is_last_dot(name@, start - 1));
        if name@ == ".."@ {
            reveal_strlit("..");
            reveal_strlit("jpg");
            reveal_strlit("jpeg");
            reveal_strlit("png");
            reveal_strlit("gif");
            reveal_strlit("bmp");
            reveal_strlit("webp");
            assert(lowered(name@.subrange(start as int, length as int)).len() == 0);
        }
    }
    found
}

/// Whether a path is that of an image.
pub fn is_image_path(path: &str) -> (r: bool)
    ensures
        r == image_path(path@),
{
    match file_name(path) {
        Some(name) => is_image_name(name.as_str()),
        None => false,
    }
}

} // verus!
