//! The address of a document.
use lsp_types::Url;
use std::path::PathBuf;
use vstd::prelude::*;

verus! {

#[verifier::external_type_specification]
#[verifier::external_body]
pub struct ExPathBuf(PathBuf);

/// `PathBuf::clone`: the copy is the same path.
pub assume_specification[ <PathBuf as Clone>::clone ](path: &PathBuf) -> (copy: PathBuf)
    ensures
        copy == *path,
;

/// The path of the URL that `text` writes, percent-encoded, or none where `text` writes no URL.
pub uninterp spec fn url_path(text: Seq<char>) -> Option<Seq<char>>;

/// `Url::path`, on the URL that `Url::parse` reads in `text`: what the path is, is not said, only
/// that it is the same for the same text.
#[verifier::external_body]
fn path_of_url(text: &str) -> (path: Option<String>)
    ensures
        path is Some <==> url_path(text@) is Some,
        path matches Some(found) ==> Some(found@) == url_path(text@),
{
    Url::parse(text).ok().map(|url| url.path().to_string())
}

/// On some platform `file` is the file that the URL written `text` names, or it names none there
/// and `file` is none.
pub uninterp spec fn may_name(text: Seq<char>, file: Option<PathBuf>) -> bool;

/// `Url::to_file_path`, on the URL that `Url::parse` reads in `text`: what it may name, and a file
/// only where the path of the URL starts with a slash. How the platform writes the file's path,
/// and of which hosts it knows files, is not said. Built for Windows with debug assertions, `url`
/// stops at an assertion of its own on a bare drive letter, such as `file:///C:`; on Unix, and
/// without debug assertions, no text does that.
#[verifier::external_body]
fn file_of_url(text: &str) -> (file: Option<PathBuf>)
    ensures
        may_name(text@, file),
        file is Some ==> (url_path(text@) matches Some(path) && path.len() > 0 && path[0] == '/'),
{
    Url::parse(text).ok().and_then(|url| url.to_file_path().ok())
}

/// The URL of a document, with its path, and with the file that it names on this platform.
#[derive(Debug)]
pub struct DocumentUri {
    text: String,
    path: String,
    file: Option<PathBuf>,
}

impl DocumentUri {
    #[verifier::type_invariant]
    spec fn parts_are_of_text(self) -> bool {
        &&& url_path(self.text@) == Some(self.path@)
        &&& may_name(self.text@, self.file)
        &&& self.file is Some ==> self.path@.len() > 0 && self.path@[0] == '/'
    }

    /// The text of the URL.
    pub closed spec fn text_view(self) -> Seq<char> {
        self.text@
    }

    /// The path of the URL.
    pub closed spec fn path_view(self) -> Seq<char> {
        self.path@
    }

    /// The file that the URL names.
    pub closed spec fn file_view(self) -> Option<PathBuf> {
        self.file
    }

    /// Reads the URL that `text` writes: none where it writes no URL.
    pub fn parse(text: &str) -> (uri: Option<DocumentUri>)
        ensures
            uri is Some <==> url_path(text@) is Some,
            uri matches Some(found) ==> found.text_view() == text@ && Some(found.path_view())
                == url_path(text@),
            uri matches Some(found) ==> may_name(text@, found.file_view()),
            uri matches Some(found) ==> found.file_view() is Some ==> found.path_view().len() > 0
                && found.path_view()[0] == '/',
    {
        match path_of_url(text) {
            Some(path) => Some(
                DocumentUri { text: text.to_owned(), path, file: file_of_url(text) },
            ),
            None => None,
        }
    }

    /// The text of the URL.
    pub fn text(&self) -> (text: &str)
        ensures
            text@ == self.text_view(),
    {
        self.text.as_str()
    }

    /// The path of the URL.
    pub fn path(&self) -> (path: &str)
        ensures
            path@ == self.path_view(),
            url_path(self.text_view()) == Some(path@),
    {
        proof {
            use_type_invariant(self);
        }
        self.path.as_str()
    }

    /// Tells whether the URL names a file.
    pub fn is_file(&self) -> (file: bool)
        ensures
            file == (self.file_view() is Some),
    {
        self.file.is_some()
    }

    /// The file that the URL names.
    pub fn into_file(self) -> (file: Option<PathBuf>)
        ensures
            file == self.file_view(),
    {
        self.file
    }
}

impl Clone for DocumentUri {
    fn clone(&self) -> (copy: DocumentUri)
        ensures
            copy == *self,
    {
        proof {
            use_type_invariant(self);
        }
        let file = match &self.file {
            Some(path) => Some(path.clone()),
            None => None,
        };
        DocumentUri { text: self.text.clone(), path: self.path.clone(), file }
    }
}

} // verus!
