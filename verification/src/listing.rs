//! Listing the images of a directory.
//!
//! The directory itself is read by the caller, who hands over what it found
//! as a [`DirScan`]; the listing decides which children are images and looks
//! up the tags of each.

use crate::codec::{parse_store, text_store};
use crate::error::{TagError, TagErrorView};
use crate::paths::{image_dir, image_key, image_key_of, image_path, is_image_path};
use crate::store::{tags_view, TagData};
use crate::tags::{loaded_tags, Sidecar, SidecarView};
use vstd::prelude::*;

verus! {

/// An image of a directory, as the listing reports it.
#[derive(Debug, Clone, PartialEq, Eq)]
pub struct ImageFile {
    /// The path of the file.
    pub path: String,
    /// The last component of the path.
    pub name: String,
    /// The size of the file in bytes.
    pub size: u64,
    /// The tags stored for the file, in stored order.
    pub tags: Vec<String>,
}

/// An [`ImageFile`] as a mathematical value.
pub struct ImageFileView {
    pub path: Seq<char>,
    pub name: Seq<char>,
    pub size: u64,
    pub tags: Seq<Seq<char>>,
}

impl View for ImageFile {
    type V = ImageFileView;

    open spec fn view(&self) -> ImageFileView {
        ImageFileView {
            path: self.path@,
            name: self.name@,
            size: self.size,
            tags: tags_view(self.tags@),
        }
    }
}

/// A child of a directory, as the caller found it.
#[derive(Debug, Clone, PartialEq, Eq)]
pub struct DirEntry {
    /// The path of the child.
    pub path: String,
    /// Whether the child is a regular file.
    pub is_file: bool,
    /// The size of the child in bytes. It is read for listed children only.
    pub size: u64,
}

/// A [`DirEntry`] as a mathematical value.
pub struct DirEntryView {
    pub path: Seq<char>,
    pub is_file: bool,
    pub size: u64,
}

impl View for DirEntry {
    type V = DirEntryView;

    open spec fn view(&self) -> DirEntryView {
        DirEntryView { path: self.path@, is_file: self.is_file, size: self.size }
    }
}

/// What the caller found when it read a directory.
#[derive(Debug, Clone, PartialEq, Eq)]
pub enum DirScan {
    /// There is no such directory.
    Missing,
    /// The directory, or one of its children, could not be read; with the
    /// cause.
    Unreadable(String),
    /// The children of the directory, in the order in which they were read.
    Entries(Vec<DirEntry>),
}

/// The children of a list as mathematical values.
pub open spec fn entries_view(entries: Seq<DirEntry>) -> Seq<DirEntryView> {
    entries.map_values(|entry: DirEntry| entry@)
}

/// The images of a list as mathematical values.
pub open spec fn files_view(files: Seq<ImageFile>) -> Seq<ImageFileView> {
    files.map_values(|file: ImageFile| file@)
}

/// Whether a child is listed: it is a regular file whose name is that of an
/// image.
pub open spec fn listed(entry: DirEntryView) -> bool {
    entry.is_file && image_path(entry.path)
}

/// The tags that the listing reports for a path: those that loading finds,
/// and none where loading fails.
pub open spec fn listed_tags(path: Seq<char>, sidecar: SidecarView) -> Seq<Seq<char>> {
    match loaded_tags(path, sidecar) {
        Ok(tags) => tags,
        Err(_) => Seq::empty(),
    }
}

/// What the listing reports for a listed child.
pub open spec fn listed_file(entry: DirEntryView, sidecar: SidecarView) -> ImageFileView {
    ImageFileView {
        path: entry.path,
        name: image_key(entry.path),
        size: entry.size,
        tags: listed_tags(entry.path, sidecar),
    }
}

/// The listing of a directory's children: the listed ones, in their order,
/// one file each.
pub open spec fn listing(entries: Seq<DirEntryView>, sidecar: SidecarView) -> Seq<ImageFileView> {
    entries.filter(|entry: DirEntryView| listed(entry)).map_values(
        |entry: DirEntryView| listed_file(entry, sidecar),
    )
}

/// Taking one more child into account adds its file to the listing if the
/// child is listed, and nothing if not.
pub proof fn lemma_listing_step(entries: Seq<DirEntryView>, sidecar: SidecarView, i: int)
    requires
        0 <= i < entries.len(),
    ensures
        listing(entries.take(i + 1), sidecar) == if listed(entries[i]) {
            listing(entries.take(i), sidecar).push(listed_file(entries[i], sidecar))
        } else {
            listing(entries.take(i), sidecar)
        },
{
    reveal(Seq::filter);
    let keep = |entry: DirEntryView| listed(entry);
    let report = |entry: DirEntryView| listed_file(entry, sidecar);
    let more = entries.take(i + 1);
    assert(more.drop_last() =~= entries.take(i));
    if listed(entries[i]) {
        assert(more.filter(keep).map_values(report) =~= entries.take(i).filter(keep).map_values(
            report,
        ).push(listed_file(entries[i], sidecar)));
    }
}

/// Whether a child of a directory is listed. The caller reads the size of
/// a child only where this holds.
pub fn is_listed(path: &str, is_file: bool) -> (r: bool)
    ensures
        r == (is_file && image_path(path@)),
{
    is_file && is_image_path(path)
}

/// Whether `store` is what a sidecar holds: its store, or `None` where the
/// sidecar is missing, unreadable or holds no store.
spec fn is_store_of(store: Option<TagData>, sidecar: SidecarView) -> bool {
    match store {
        Some(held) => sidecar matches SidecarView::Content(text) && text_store(text) == Some(
            held@,
        ),
        None => sidecar matches SidecarView::Content(text) ==> text_store(text) is None,
    }
}

/// The tags that the listing reports for a path, from the store that the
/// sidecar holds.
fn tags_for(path: &str, sidecar: &Sidecar, store: &Option<TagData>) -> (tags: Vec<String>)
    requires
        is_store_of(*store, sidecar@),
    ensures
        tags_view(tags@) == listed_tags(path@, sidecar@),
{
    let found = match image_dir(path) {
        Ok(_) => match store {
            Some(held) => {
                let name = image_key_of(path);
                Some(held.get(name.as_str()))
            },
            None => None,
        },
        Err(_) => None,
    };
    match found {
        Some(tags) => tags,
        None => Vec::new(),
    }
}

/// The images of a directory, given what was found when the directory and
/// its sidecar were read.
///
/// A missing directory fails with `NotFound`, an unreadable one with `Io`
/// and its cause. Else the result holds one file for each child that is a
/// regular file with an image extension, and nothing else, in the order of
/// the children; each with its path, the last component of the path, its
/// size, and the tags stored for it. A child whose tags cannot be loaded is
/// listed without tags.
pub fn list_images(scan: &DirScan, sidecar: &Sidecar) -> (r: Result<Vec<ImageFile>, TagError>)
    ensures
        match scan {
            DirScan::Missing => r matches Err(error) && error@ == TagErrorView::NotFound,
            DirScan::Unreadable(cause) => r matches Err(error) && error@ == TagErrorView::Io(
                cause@,
            ),
            DirScan::Entries(entries) => r matches Ok(files) && files_view(files@) == listing(
                entries_view(entries@),
                sidecar@,
            ),
        },
{
    let entries = match scan {
        DirScan::Missing => {
            return Err(TagError::NotFound);
        },
        DirScan::Unreadable(cause) => {
            return Err(TagError::Io(cause.clone()));
        },
        DirScan::Entries(entries) => entries,
    };
    let store: Option<TagData> = match sidecar {
        Sidecar::Content(text) => match parse_store(text.as_str()) {
            Ok(store) => Some(store),
            Err(_) => None,
        },
        _ => None,
    };
    let ghost children = entries_view(entries@);
    let mut files: Vec<ImageFile> = Vec::new();
    let mut i: usize = 0;
    assert(listing(children.take(0), sidecar@) =~= Seq::empty()) by {
        reveal(Seq::filter);
    }
    while i < entries.len()
        invariant
            i <= entries.len(),
            children == entries_view(entries@),
            files_view(files@) == listing(children.take(i as int), sidecar@),
            is_store_of(store, sidecar@),
        decreases entries.len() - i,
    {
        let entry = &entries[i];
        proof {
            lemma_listing_step(children, sidecar@, i as int);
        }
        if is_listed(entry.path.as_str(), entry.is_file) {
            let file = ImageFile {
                path: entry.path.clone(),
                name: image_key_of(entry.path.as_str()),
                size: entry.size,
                tags: tags_for(entry.path.as_str(), sidecar, &store),
            };
            files.push(file);
        }
        i += 1;
    }
    assert(children.take(entries.len() as int) =~= children);
    Ok(files)
}

/// Every item that a filter keeps stands in the sequence that was filtered.
proof fn lemma_kept_item_has_source<A>(items: Seq<A>, keep: spec_fn(A) -> bool, k: int)
    requires
        0 <= k < items.filter(keep).len(),
    ensures
        exists|i: int|
            0 <= i < items.len() && keep(items[i]) && #[trigger] items[i] == items.filter(keep)[k],
    decreases items.len(),
{
    reveal(Seq::filter);
    if items.len() > 0 {
        let rest = items.drop_last();
        if keep(items.last()) && k == rest.filter(keep).len() {
            assert(items[items.len() - 1] == items.filter(keep)[k]);
        } else {
            lemma_kept_item_has_source(rest, keep, k);
            let i = choose|i: int|
                0 <= i < rest.len() && keep(rest[i]) && #[trigger] rest[i] == rest.filter(keep)[k];
            assert(items[i] == items.filter(keep)[k]);
        }
    }
}

/// Whether a file is what the listing reports for some listed child.
pub open spec fn reports_listed_child(
    entries: Seq<DirEntryView>,
    sidecar: SidecarView,
    file: ImageFileView,
) -> bool {
    exists|i: int|
        0 <= i < entries.len() && listed(#[trigger] entries[i]) && listed_file(entries[i], sidecar)
            == file
}

/// The listing holds exactly the listed children: each listed child has its
/// file in the listing, each file of the listing is that of a listed child,
/// and there are as many files as listed children.
pub proof fn lemma_listing_exact(entries: Seq<DirEntryView>, sidecar: SidecarView)
    ensures
        forall|i: int|
            0 <= i < entries.len() && listed(#[trigger] entries[i]) ==> listing(
                entries,
                sidecar,
            ).contains(listed_file(entries[i], sidecar)),
        forall|k: int|
            0 <= k < listing(entries, sidecar).len() ==> reports_listed_child(
                entries,
                sidecar,
                #[trigger] listing(entries, sidecar)[k],
            ),
        listing(entries, sidecar).len() == entries.filter(
            |entry: DirEntryView| listed(entry),
        ).len(),
{
    let keep = |entry: DirEntryView| listed(entry);
    let kept = entries.filter(keep);
    let files = listing(entries, sidecar);
    assert forall|i: int|
        0 <= i < entries.len() && listed(#[trigger] entries[i]) implies files.contains(
        listed_file(entries[i], sidecar),
    ) by {
        entries.lemma_filter_contains(keep, i);
        let k = choose|k: int| 0 <= k < kept.len() && kept[k] == entries[i];
        assert(files[k] == listed_file(entries[i], sidecar));
    }
    assert forall|k: int| 0 <= k < files.len() implies reports_listed_child(
        entries,
        sidecar,
        #[trigger] files[k],
    ) by {
        lemma_kept_item_has_source(entries, keep, k);
        let i = choose|i: int|
            0 <= i < entries.len() && keep(entries[i]) && #[trigger] entries[i] == kept[k];
        assert(listed_file(entries[i], sidecar) == files[k]);
    }
}

} // verus!
