//! The errors of a site build.

use crate::paths::lossy_text;
use crate::paths::path_lossy_text;
use crate::paths::path_units;
use std::path::PathBuf;
use vstd::prelude::*;

verus! {

/// What went wrong.
#[derive(Clone, Copy, Debug, PartialEq, Eq, Structural)]
pub enum ErrorKind {
    /// A directory could not be listed, an entry could not be resolved or
    /// typed, a file could not be read, or a path does not lie under the
    /// input root.
    Io,
    /// A file's bytes are not UTF-8 text.
    Decode,
    /// The markup serializer reported a failure.
    Render,
}

/// An error of the scanner or the transformer: its kind, the path it was
/// met at, and the underlying cause in words.
#[derive(Debug, PartialEq, Eq)]
pub struct SiteError {
    pub kind: ErrorKind,
    pub path: PathBuf,
    pub detail: String,
}

/// The mathematical value of a [`SiteError`].
pub struct SiteErrorView {
    pub kind: ErrorKind,
    pub path: Seq<u8>,
    pub detail: Seq<char>,
}

impl View for SiteError {
    type V = SiteErrorView;

    open spec fn view(&self) -> SiteErrorView {
        SiteErrorView { kind: self.kind, path: path_units(self.path), detail: self.detail@ }
    }
}

/// The words a message begins with, by kind.
pub open spec fn label(kind: ErrorKind) -> Seq<char> {
    match kind {
        ErrorKind::Io => "I/O error"@,
        ErrorKind::Decode => "File read error"@,
        ErrorKind::Render => "Render error"@,
    }
}

/// The message of an error: its label, the failing path as text, and the
/// cause.
pub open spec fn message_of(error: SiteErrorView) -> Seq<char> {
    label(error.kind) + " @ "@ + lossy_text(error.path) + ": "@ + error.detail
}

impl SiteError {
    /// An error of the given kind at `path`, caused by `detail`.
    pub fn new(kind: ErrorKind, path: &PathBuf, detail: &str) -> (error: SiteError)
        ensures
            error@ == (SiteErrorView { kind, path: path_units(*path), detail: detail@ }),
    {
        SiteError { kind, path: path.clone(), detail: detail.to_owned() }
    }

    /// The message shown to the user.
    pub fn message(&self) -> (text: String)
        ensures
            text@ == message_of(self@),
    {
        let mut text = match self.kind {
            ErrorKind::Io => "I/O error".to_owned(),
            ErrorKind::Decode => "File read error".to_owned(),
            ErrorKind::Render => "Render error".to_owned(),
        };
        text.append(" @ ");
        let path = path_lossy_text(&self.path);
        text.append(path.as_str());
        text.append(": ");
        text.append(self.detail.as_str());
        text
    }
}

} // verus!
