//! The ways in which listing a directory or reaching a tag store fails.

use vstd::prelude::*;

verus! {

/// Why an operation failed.
#[derive(Debug, Clone, PartialEq, Eq)]
pub enum TagError {
    /// The directory to list does not exist.
    NotFound,
    /// The image path names no parent directory.
    InvalidPath,
    /// The sidecar file does not hold a tag store; with the reason.
    DataFormat(String),
    /// The file system refused a read, a write or a creation; with the cause.
    Io(String),
}

/// An error as a mathematical value. The reason of a `DataFormat` error is
/// left out: it is worded by the JSON parser.
pub enum TagErrorView {
    NotFound,
    InvalidPath,
    DataFormat,
    Io(Seq<char>),
}

impl View for TagError {
    type V = TagErrorView;

    open spec fn view(&self) -> TagErrorView {
        match self {
            TagError::NotFound => TagErrorView::NotFound,
            TagError::InvalidPath => TagErrorView::InvalidPath,
            TagError::DataFormat(_) => TagErrorView::DataFormat,
            TagError::Io(cause) => TagErrorView::Io(cause@),
        }
    }
}

impl TagError {
    /// The message for a person to read: a fixed sentence for a missing
    /// directory and for a path without parent, else the reason or cause
    /// that the error carries.
    pub fn message(&self) -> (text: String)
        ensures
            text@ == match self {
                TagError::NotFound => "Directory does not exist"@,
                TagError::InvalidPath => "Invalid image path"@,
                TagError::DataFormat(reason) => reason@,
                TagError::Io(cause) => cause@,
            },
    {
        match self {
            TagError::NotFound => "Directory does not exist".to_owned(),
            TagError::InvalidPath => "Invalid image path".to_owned(),
            TagError::DataFormat(reason) => reason.clone(),
            TagError::Io(cause) => cause.clone(),
        }
    }
}

} // verus!
