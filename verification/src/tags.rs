//! Reading and writing the tags of one image.
//!
//! The sidecar file itself is read and written by the caller. What was found
//! on disk comes in as a [`Sidecar`]; what is to be written goes out as text.

use crate::codec::{parse_store, render_store, store_text, text_store};
use crate::error::{TagError, TagErrorView};
use crate::paths::{image_dir, image_key, image_key_of, path_parent};
use crate::store::{lookup, tags_view, StoreMap, TagData};
use vstd::prelude::*;

verus! {

/// What the caller found where a directory's sidecar file should be.
#[derive(Debug, Clone, PartialEq, Eq)]
pub enum Sidecar {
    /// There is no such file.
    Missing,
    /// The file is there and could not be read; with the cause.
    Unreadable(String),
    /// The text of the file.
    Content(String),
}

/// A [`Sidecar`] as a mathematical value.
pub enum SidecarView {
    Missing,
    Unreadable(Seq<char>),
    Content(Seq<char>),
}

impl View for Sidecar {
    type V = SidecarView;

    open spec fn view(&self) -> SidecarView {
        match self {
            Sidecar::Missing => SidecarView::Missing,
            Sidecar::Unreadable(cause) => SidecarView::Unreadable(cause@),
            Sidecar::Content(text) => SidecarView::Content(text@),
        }
    }
}

/// The tags of a call's result, or its error, as mathematical values.
pub open spec fn tags_result(r: Result<Vec<String>, TagError>) -> Result<
    Seq<Seq<char>>,
    TagErrorView,
> {
    match r {
        Ok(tags) => Ok(tags_view(tags@)),
        Err(error) => Err(error@),
    }
}

/// The text of a call's result, or its error, as mathematical values.
pub open spec fn text_result(r: Result<String, TagError>) -> Result<Seq<char>, TagErrorView> {
    match r {
        Ok(text) => Ok(text@),
        Err(error) => Err(error@),
    }
}

/// What a lookup under a file name finds in a sidecar: nothing in a missing
/// one, the stored tags (none for an absent name) in one that holds a
/// store; an unreadable one and one that holds no store are errors.
pub open spec fn found_tags(name: Seq<char>, sidecar: SidecarView) -> Result<
    Seq<Seq<char>>,
    TagErrorView,
> {
    match sidecar {
        SidecarView::Missing => Ok(Seq::empty()),
        SidecarView::Unreadable(cause) => Err(TagErrorView::Io(cause)),
        SidecarView::Content(text) => match text_store(text) {
            Some(store) => Ok(lookup(store, name)),
            None => Err(TagErrorView::DataFormat),
        },
    }
}

/// What loading the tags of an image gives: `InvalidPath` for a path without
/// parent, else what is found under the image's name.
pub open spec fn loaded_tags(image_path: Seq<char>, sidecar: SidecarView) -> Result<
    Seq<Seq<char>>,
    TagErrorView,
> {
    if path_parent(image_path) is None {
        Err(TagErrorView::InvalidPath)
    } else {
        found_tags(image_key(image_path), sidecar)
    }
}

/// The store that a save starts from: the one in the sidecar, and the empty
/// store where the sidecar is missing or holds none.
pub open spec fn base_store(sidecar: SidecarView) -> StoreMap {
    match sidecar {
        SidecarView::Content(text) => match text_store(text) {
            Some(store) => store,
            None => Map::empty(),
        },
        _ => Map::empty(),
    }
}

/// The text that storing tags under a file name writes: that of the base
/// store with the name's tags replaced. An unreadable sidecar is an error.
pub open spec fn stored_text(name: Seq<char>, sidecar: SidecarView, tags: Seq<Seq<char>>) -> Result<
    Seq<char>,
    TagErrorView,
> {
    match sidecar {
        SidecarView::Unreadable(cause) => Err(TagErrorView::Io(cause)),
        _ => Ok(store_text(base_store(sidecar).insert(name, tags))),
    }
}

/// The text that saving the tags of an image writes: `InvalidPath` for a
/// path without parent, else what storing under the image's name writes.
pub open spec fn saved_text(
    image_path: Seq<char>,
    sidecar: SidecarView,
    tags: Seq<Seq<char>>,
) -> Result<Seq<char>, TagErrorView> {
    if path_parent(image_path) is None {
        Err(TagErrorView::InvalidPath)
    } else {
        stored_text(image_key(image_path), sidecar, tags)
    }
}

/// The tags stored under a file name in a directory's sidecar.
///
/// A missing sidecar holds no tags. A sidecar that is not a store fails with
/// `DataFormat`, an unreadable one with `Io` and its cause.
pub fn lookup_tags(name: &str, sidecar: &Sidecar) -> (r: Result<Vec<String>, TagError>)
    ensures
        tags_result(r) == found_tags(name@, sidecar@),
{
    match sidecar {
        Sidecar::Missing => {
            let tags: Vec<String> = Vec::new();
            assert(tags_view(tags@) =~= Seq::empty());
            Ok(tags)
        },
        Sidecar::Unreadable(cause) => Err(TagError::Io(cause.clone())),
        Sidecar::Content(text) => match parse_store(text.as_str()) {
            Ok(store) => Ok(store.get(name)),
            Err(error) => Err(error),
        },
    }
}

/// The tags of an image, given what was found at its directory's sidecar.
///
/// Fails with `InvalidPath` where the image path has no parent, whatever
/// the sidecar holds. Else the image is looked up under the last component
/// of its path, as [`lookup_tags`] does.
pub fn load_tags(image_path: &str, sidecar: &Sidecar) -> (r: Result<Vec<String>, TagError>)
    ensures
        tags_result(r) == loaded_tags(image_path@, sidecar@),
{
    match image_dir(image_path) {
        Ok(_) => {
            let name = image_key_of(image_path);
            lookup_tags(name.as_str(), sidecar)
        },
        Err(error) => Err(error),
    }
}

/// The new text of a directory's sidecar once `tags` are stored under a
/// file name.
///
/// The tags replace those stored under the name; every other record of the
/// store is kept. A missing sidecar counts as an empty store, and so does
/// one that holds no store: its content is given up. An unreadable sidecar
/// fails with `Io` and its cause.
pub fn store_tags(name: String, sidecar: &Sidecar, tags: Vec<String>) -> (r: Result<
    String,
    TagError,
>)
    ensures
        text_result(r) == stored_text(name@, sidecar@, tags_view(tags@)),
{
    let mut store = match sidecar {
        Sidecar::Missing => TagData::new(),
        Sidecar::Unreadable(cause) => {
            return Err(TagError::Io(cause.clone()));
        },
        Sidecar::Content(text) => match parse_store(text.as_str()) {
            Ok(store) => store,
            Err(_) => TagData::new(),
        },
    };
    store.insert(name, tags);
    Ok(render_store(&store))
}

/// The new text of the sidecar of an image's directory once `tags` are
/// saved for the image.
///
/// Fails with `InvalidPath` where the image path has no parent, whatever
/// the sidecar holds. Else the tags are stored under the last component of
/// the path, as [`store_tags`] does.
pub fn save_tags(image_path: &str, sidecar: &Sidecar, tags: Vec<String>) -> (r: Result<
    String,
    TagError,
>)
    ensures
        text_result(r) == saved_text(image_path@, sidecar@, tags_view(tags@)),
{
    match image_dir(image_path) {
        Ok(_) => store_tags(image_key_of(image_path), sidecar, tags),
        Err(error) => Err(error),
    }
}

/// Whether the text written for a store is read as that store again. This
/// is a property of the JSON printer and parser and is proved nowhere; the
/// laws below that follow a written text through a later read say so by
/// naming it as their condition.
pub open spec fn reads_back(store: StoreMap) -> bool {
    text_store(store_text(store)) == Some(store)
}

/// An image whose directory has no sidecar file has no tags: loading gives
/// the empty list and no error, for every path that has a parent.
pub proof fn lemma_missing_sidecar_has_no_tags(image_path: Seq<char>)
    ensures
        path_parent(image_path) is Some ==> loaded_tags(image_path, SidecarView::Missing) == Ok::<
            Seq<Seq<char>>,
            TagErrorView,
        >(Seq::empty()),
{
}

/// Storing tags under a name replaces what the store held for that name and
/// nothing else: the name then has exactly the new tags, every other name
/// has what it had, and of two stores in a row under one name only the
/// second shows.
pub proof fn lemma_store_replaces(
    store: StoreMap,
    name: Seq<char>,
    first: Seq<Seq<char>>,
    second: Seq<Seq<char>>,
    other: Seq<char>,
)
    ensures
        lookup(store.insert(name, second), name) == second,
        other != name ==> lookup(store.insert(name, second), other) == lookup(store, other),
        store.insert(name, first).insert(name, second) == store.insert(name, second),
{
}

/// Saving and then loading returns the saved tags, in order and with their
/// duplicates, where the written text is read back as the store it was
/// written for.
pub proof fn lemma_save_then_load(
    image_path: Seq<char>,
    sidecar: SidecarView,
    tags: Seq<Seq<char>>,
)
    ensures
        saved_text(image_path, sidecar, tags) matches Ok(written) ==> (reads_back(
            base_store(sidecar).insert(image_key(image_path), tags),
        ) ==> loaded_tags(image_path, SidecarView::Content(written)) == Ok::<
            Seq<Seq<char>>,
            TagErrorView,
        >(tags)),
{
}

/// What it is for a second save to replace the first: `written` being the
/// text that the first save left, the second save writes the store that it
/// would have written had the first never happened; in that store the image
/// has the second tags, and every other image what it had before both.
pub open spec fn second_save_replaces(
    image_path: Seq<char>,
    sidecar: SidecarView,
    written: Seq<char>,
    second: Seq<Seq<char>>,
    other: Seq<char>,
) -> bool {
    let name = image_key(image_path);
    let base = base_store(sidecar);
    let after = base_store(SidecarView::Content(written)).insert(name, second);
    &&& saved_text(image_path, SidecarView::Content(written), second) == Ok::<
        Seq<char>,
        TagErrorView,
    >(store_text(after))
    &&& after == base.insert(name, second)
    &&& lookup(after, name) == second
    &&& other != name ==> lookup(after, other) == lookup(base, other)
}

/// A second save for the same image replaces the tags of the first and
/// keeps the tags of every other image of the directory, where the text
/// that the first save wrote is read back as the store it was written for.
/// What the second save writes is then what it would have written had the
/// first never happened.
pub proof fn lemma_second_save_replaces(
    image_path: Seq<char>,
    sidecar: SidecarView,
    first: Seq<Seq<char>>,
    second: Seq<Seq<char>>,
    other: Seq<char>,
)
    ensures
        saved_text(image_path, sidecar, first) matches Ok(written) ==> (reads_back(
            base_store(sidecar).insert(image_key(image_path), first),
        ) ==> second_save_replaces(image_path, sidecar, written, second, other)),
{
    let name = image_key(image_path);
    let base = base_store(sidecar);
    lemma_store_replaces(base, name, first, second, other);
}

/// A sidecar whose text is not a tag store: loading fails with
/// `DataFormat`, while saving succeeds and writes a store that holds the
/// saved image and nothing else. Both for every path that has a parent.
pub proof fn lemma_corrupt_sidecar(image_path: Seq<char>, text: Seq<char>, tags: Seq<Seq<char>>)
    ensures
        text_store(text) is None && path_parent(image_path) is Some ==> loaded_tags(
            image_path,
            SidecarView::Content(text),
        ) == Err::<Seq<Seq<char>>, TagErrorView>(TagErrorView::DataFormat),
        text_store(text) is None && path_parent(image_path) is Some ==> saved_text(
            image_path,
            SidecarView::Content(text),
            tags,
        ) == Ok::<Seq<char>, TagErrorView>(
            store_text(StoreMap::empty().insert(image_key(image_path), tags)),
        ),
{
}

/// An image is known to its directory's store by its file name alone. Two
/// paths with the same last component, each with a parent, load the same
/// tags from a given sidecar and save the same text into it; what tells
/// two such images apart is that each directory has a sidecar of its own.
pub proof fn lemma_only_the_name_matters(
    one: Seq<char>,
    other: Seq<char>,
    sidecar: SidecarView,
    tags: Seq<Seq<char>>,
)
    ensures
        path_parent(one) is Some && path_parent(other) is Some && image_key(one) == image_key(
            other,
        ) ==> loaded_tags(one, sidecar) == loaded_tags(other, sidecar),
        path_parent(one) is Some && path_parent(other) is Some && image_key(one) == image_key(
            other,
        ) ==> saved_text(one, sidecar, tags) == saved_text(other, sidecar, tags),
{
}

} // verus!
