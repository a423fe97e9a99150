//! File URIs and the paths they name, relative to a project root.

use crate::error::{Failure, FailureView};
use crate::path::{diff_paths, path_difference, path_has_prefix, starts_with};
use crate::text::same_text;
use vstd::prelude::*;

verus! {

/// What this library reads from a parsed URI.
#[derive(Clone, Debug, PartialEq, Eq)]
pub struct Uri {
    /// The URI in its normal form.
    pub text: String,
    /// The scheme, in lower case and without the colon.
    pub scheme: String,
    /// The path on this system that the URI names, where it names one.
    pub file_path: Option<String>,
}

/// A URI, with the text of each string it carries.
pub struct UriView {
    pub text: Seq<char>,
    pub scheme: Seq<char>,
    pub file_path: Option<Seq<char>>,
}

impl DeepView for Uri {
    type V = UriView;

    open spec fn deep_view(&self) -> UriView {
        UriView {
            text: self.text@,
            scheme: self.scheme@,
            file_path: self.file_path.deep_view(),
        }
    }
}

impl View for Uri {
    type V = UriView;

    open spec fn view(&self) -> UriView {
        self.deep_view()
    }
}

/// What parsing makes of a text: the URI that it writes down, or `None` where
/// it writes down none.
pub uninterp spec fn parsed_uri(text: Seq<char>) -> Option<UriView>;

/// `Url::parse` of the url crate, as lsp_types hands it on, and of the parsed
/// value its normal form (`as_str`), its scheme (`scheme`) and its file path
/// (`to_file_path`). A path that is not UTF-8 is given as `Path::display`
/// shows it. The contract names the outcome as a function of the text and
/// states nothing else of it.
#[verifier::external_body]
fn parse_url(text: &str) -> (uri: Option<Uri>)
    ensures
        uri.deep_view() == parsed_uri(text@),
{
    match lsp_types::Url::parse(text) {
        Ok(url) => Some(
            Uri {
                text: url.as_str().to_owned(),
                scheme: url.scheme().to_owned(),
                file_path: url.to_file_path().ok().map(|path| path.to_string_lossy().into_owned()),
            },
        ),
        Err(_) => None,
    }
}

impl UriView {
    /// The path to show for this URI in a project at `root`: the file path
    /// relative to the root where that can be written down, else the file path
    /// as it is. A URI with another scheme than `file` has none, nor has one
    /// that names no path.
    pub open spec fn relative_path(self, root: Seq<char>) -> Result<Seq<char>, FailureView> {
        if self.scheme != "file"@ {
            Err(FailureView::UnsupportedUriScheme { uri: self.text, scheme: self.scheme })
        } else {
            match self.file_path {
                None => Err(FailureView::NoFilePath { uri: self.text }),
                Some(path) => match path_difference(path, root) {
                    Some(relative) => Ok(relative),
                    None => Ok(path),
                },
            }
        }
    }

    /// The path under which the diagnostics of this URI's file are shown: the
    /// relative path where there is one, and the URI's own text for a `file`
    /// URI that names no path. A URI with another scheme than `file` has none.
    pub open spec fn shown_path(self, root: Seq<char>) -> Result<Seq<char>, FailureView> {
        match self.relative_path(root) {
            Ok(path) => Ok(path),
            Err(FailureView::NoFilePath { uri }) => Ok(self.text),
            Err(failure) => Err(failure),
        }
    }

    /// Whether this URI belongs to the project at `root`: its file path is the
    /// root or lies below it. A URI that names no path counts as inside.
    pub open spec fn in_project(self, root: Seq<char>) -> bool {
        match self.file_path {
            Some(path) => path_has_prefix(path, root),
            None => true,
        }
    }
}

impl Uri {
    /// Parses a URI. The outcome depends on the text alone.
    pub fn parse(text: &str) -> (outcome: Result<Uri, Failure>)
        ensures
            match parsed_uri(text@) {
                Some(uri) => outcome matches Ok(parsed) && parsed@ == uri,
                None => outcome matches Err(failure) && failure@ == (FailureView::InvalidUri {
                    uri: text@,
                }),
            },
    {
        match parse_url(text) {
            Some(uri) => Ok(uri),
            None => Err(Failure::InvalidUri { uri: String::from_str(text) }),
        }
    }

    /// The path to show for this URI in a project at `root`.
    pub fn to_relative_path(&self, root: &str) -> (outcome: Result<String, Failure>)
        ensures
            match self@.relative_path(root@) {
                Ok(path) => outcome matches Ok(shown) && shown@ == path,
                Err(view) => outcome matches Err(failure) && failure@ == view,
            },
    {
        if !same_text(self.scheme.as_str(), "file") {
            return Err(
                Failure::UnsupportedUriScheme {
                    uri: self.text.clone(),
                    scheme: self.scheme.clone(),
                },
            );
        }
        match &self.file_path {
            None => Err(Failure::NoFilePath { uri: self.text.clone() }),
            Some(path) => match diff_paths(path.as_str(), root) {
                Some(relative) => Ok(relative),
                None => Ok(path.clone()),
            },
        }
    }

    /// The path under which the diagnostics of this URI's file are shown.
    pub fn to_shown_path(&self, root: &str) -> (outcome: Result<String, Failure>)
        ensures
            match self@.shown_path(root@) {
                Ok(path) => outcome matches Ok(shown) && shown@ == path,
                Err(view) => outcome matches Err(failure) && failure@ == view,
            },
    {
        match self.to_relative_path(root) {
            Ok(path) => Ok(path),
            Err(failure) => match failure {
                Failure::NoFilePath { uri } => Ok(uri),
                other => Err(other),
            },
        }
    }

    /// Whether this URI belongs to the project at `root`.
    pub fn in_project(&self, root: &str) -> (inside: bool)
        ensures
            inside == self@.in_project(root@),
    {
        match &self.file_path {
            Some(path) => starts_with(path.as_str(), root),
            None => true,
        }
    }
}

} // verus!
