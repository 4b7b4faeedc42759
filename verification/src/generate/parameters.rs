//! What is read out of the URLs a run is given.

use crate::text::split_on;
use url::Url;
use vstd::prelude::*;

verus! {

/// `url::Url`, a parsed URL. Verified code carries it and asks the two
/// functions below about it.
#[verifier::external_type_specification]
#[verifier::external_body]
pub struct ExUrl(Url);

/// The text of a URL, as `Url::as_str` gives it.
pub uninterp spec fn url_text(url: Url) -> Seq<char>;

/// The path of a URL, as `Url::path` gives it.
pub uninterp spec fn url_path(url: Url) -> Seq<char>;

/// The segments of a URL's path: the pieces between slashes of what follows
/// the slash it begins with, and nothing where it begins with none.
pub open spec fn path_segments_of(path: Seq<char>) -> Option<Seq<Seq<char>>> {
    if path.len() > 0 && path[0] == '/' {
        Some(split_on(path.skip(1), '/'))
    } else {
        None
    }
}

/// `Url::clone`. Trusted: the copy has the text and the path of the original.
pub assume_specification[ <Url as Clone>::clone ](url: &Url) -> (r: Url)
    ensures
        url_text(r) == url_text(*url),
        url_path(r) == url_path(*url),
;

/// Calls `Url::as_str`. Trusted: the result is the text that `url_text` names.
#[verifier::external_body]
pub(crate) fn url_as_string(url: &Url) -> (r: String)
    ensures
        r@ == url_text(*url),
{
    url.as_str().to_string()
}

/// Calls `Url::path_segments`. Trusted: as that function's source has it, the
/// path is cut at each slash after its leading slash, and a path without a
/// leading slash gives `None`.
#[verifier::external_body]
pub(crate) fn url_path_segments(url: &Url) -> (r: Option<Vec<String>>)
    ensures
        r.deep_view() == path_segments_of(url_path(*url)),
{
    url.path_segments().map(|segments| segments.map(|s| s.to_string()).collect())
}

/// What can be wrong with the parameters of a run.
#[derive(Debug)]
pub enum ParameterError {
    /// The URL, given here as text, has a path that cannot be cut into segments.
    APIPathNeedsSegments(String),
    /// The path of the URL was cut into no segment at all.
    APIPathSegmentsNeedsLast,
    /// Neither a local specification file nor the URL of one was given.
    APIUrlNeededIfNoLocalFile,
}

/// The file name that a list of path segments stands for: its last segment.
/// `url` is the text of the URL the segments were cut from.
pub fn file_name_from_segments(segments: Option<Vec<String>>, url: String) -> (r: Result<
    String,
    ParameterError,
>)
    ensures
        match r {
            Ok(name) => segments matches Some(v) && v.len() > 0 && name@ == v[v.len() - 1]@,
            Err(ParameterError::APIPathNeedsSegments(text)) => segments is None && text@ == url@,
            Err(ParameterError::APIPathSegmentsNeedsLast) => segments matches Some(v) && v.len()
                == 0,
            Err(ParameterError::APIUrlNeededIfNoLocalFile) => false,
        },
{
    match segments {
        None => Err(ParameterError::APIPathNeedsSegments(url)),
        Some(v) => {
            if v.len() == 0 {
                Err(ParameterError::APIPathSegmentsNeedsLast)
            } else {
                Ok(v[v.len() - 1].clone())
            }
        },
    }
}

/// The file name at the end of a path: its last segment, where it has segments.
pub open spec fn file_name_of_path(path: Seq<char>) -> Option<Seq<char>> {
    match path_segments_of(path) {
        Some(segments) => Some(segments.last()),
        None => None,
    }
}

/// The file name at the end of a URL's path: its last segment, which is
/// empty where the path ends in a slash. A URL without path segments is
/// refused.
pub fn try_file_name_from_path_url(path_url: &Url) -> (r: Result<String, ParameterError>)
    ensures
        match r {
            Ok(name) => file_name_of_path(url_path(*path_url)) == Some(name@),
            Err(ParameterError::APIPathNeedsSegments(text)) => file_name_of_path(
                url_path(*path_url),
            ) is None && text@ == url_text(*path_url),
            Err(_) => false,
        },
{
    let segments = url_path_segments(path_url);
    proof {
        crate::text::lemma_split_nonempty(url_path(*path_url).skip(1), '/');
    }
    file_name_from_segments(segments, url_as_string(path_url))
}

} // verus!
