//! Why no session could be found for a document.
use vstd::prelude::*;

verus! {

#[derive(Debug)]
pub enum DocumentError {
    /// No manifest was found for the directory.
    ManifestFileNotFound { dir: String },
}

#[derive(Clone, Copy, Debug, PartialEq, Eq, Structural)]
pub enum DirectoryError {
    /// The manifest does not lie in a directory.
    ManifestDirNotFound,
}

#[derive(Debug)]
pub enum LanguageServerError {
    DocumentError(DocumentError),
    DirectoryError(DirectoryError),
}

} // verus!
