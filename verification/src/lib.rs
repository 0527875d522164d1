//! Tag persistence for an image viewer.
//!
//! A directory of images keeps the tags of its images in one sidecar file,
//! `<directory>/.picviewer/tags.json`, a JSON document of the form
//! `{"images": {"<file name>": ["<tag>", ...]}}`. This library decides
//! which children of a directory are images ([`list_images`]), which tags
//! an image has ([`load_tags`]) and what the sidecar holds once tags are
//! saved ([`save_tags`]).
//!
//! The library touches no file. Its caller reads the directory and the
//! sidecar, hands over what it found as a [`DirScan`] and a [`Sidecar`],
//! and writes the text that a save returns. Every function states what it
//! returns for every input, and Verus proves that it does.
//!
//! JSON is parsed and printed by `serde_json`, and paths are taken apart by
//! `std::path`. The calls into both are gathered in [`json`] and [`paths`];
//! their contracts are believed, not proved.

pub mod codec;
pub mod error;
pub mod json;
pub mod listing;
pub mod paths;
pub mod store;
pub mod tags;

pub use error::TagError;
pub use listing::{list_images, DirEntry, DirScan, ImageFile};
pub use store::TagData;
pub use tags::{load_tags, save_tags, Sidecar};
