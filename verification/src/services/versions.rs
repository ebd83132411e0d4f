//! Listing the releases of rust-analyzer, a page at a time.
//!
//! [`Versions::request`] says what to ask the release listing for;
//! [`Versions::get`] turns the answer into a [`Paging`].

use vstd::prelude::*;

use crate::io::{IoFailure, IoFailureView};

verus! {

/// Where the releases are listed.
pub const RELEASE_GITHUB_API_URL: &'static str =
    "https://api.github.com/repos/rust-lang/rust-analyzer/releases";

/// Name of the query parameter that holds the page size.
pub const PER_PAGE: &'static str = "per_page";

/// One release as the listing describes it.
#[derive(Debug)]
pub struct ReleasesJsonResponse {
    pub name: String,
    /// A calendar date for a dated release, `nightly` for the nightly one.
    pub tag_name: String,
    pub prerelease: bool,
}

/// Mathematical model of a [`ReleasesJsonResponse`].
pub struct ReleaseView {
    pub name: Seq<char>,
    pub tag_name: Seq<char>,
    pub prerelease: bool,
}

impl View for ReleasesJsonResponse {
    type V = ReleaseView;

    open spec fn view(&self) -> ReleaseView {
        ReleaseView { name: self.name@, tag_name: self.tag_name@, prerelease: self.prerelease }
    }
}

impl DeepView for ReleasesJsonResponse {
    type V = ReleaseView;

    open spec fn deep_view(&self) -> ReleaseView {
        self@
    }
}

/// Why a page of releases could not be had.
#[derive(Debug)]
pub enum Error {
    /// The request failed in transport or was answered with a failure.
    Network(String),
    /// The answer is not a list of releases.
    Decode(String),
    /// A file operation failed.
    File(IoFailure),
}

/// Mathematical model of an [`Error`].
pub enum ErrorView {
    Network(Seq<char>),
    Decode(Seq<char>),
    File(IoFailureView),
}

impl View for Error {
    type V = ErrorView;

    open spec fn view(&self) -> ErrorView {
        match self {
            Error::Network(message) => ErrorView::Network(message@),
            Error::Decode(message) => ErrorView::Decode(message@),
            Error::File(failure) => ErrorView::File(failure@),
        }
    }
}

impl ErrorView {
    /// The text shown for the error: the message it carries.
    pub open spec fn message(self) -> Seq<char> {
        match self {
            ErrorView::Network(message) => message,
            ErrorView::Decode(message) => message,
            ErrorView::File(failure) => failure.message,
        }
    }
}

impl Error {
    /// The text shown for the error.
    pub fn to_string(&self) -> (text: String)
        ensures
            text@ == self@.message(),
    {
        match self {
            Error::Network(message) => message.clone(),
            Error::Decode(message) => message.clone(),
            Error::File(failure) => failure.to_string(),
        }
    }
}

/// A page of the listing: its releases and the number of the page to ask
/// for next, or the end of the listing.
#[derive(Debug)]
pub enum Paging {
    Next(u32, Vec<ReleasesJsonResponse>),
    Done,
}

/// A request to the release listing: a GET of `url` with these headers and
/// query parameters, in this order.
#[derive(Debug)]
pub struct Request {
    pub url: &'static str,
    pub headers: Vec<(&'static str, &'static str)>,
    pub query: Vec<(&'static str, u32)>,
}

/// The headers of every request to the listing: the answer is asked for as
/// JSON and may come compressed.
pub open spec fn listing_headers() -> Seq<(Seq<char>, Seq<char>)> {
    seq![
        ("Accept"@, "application/vnd.github+json"@),
        ("User-Agent"@, "rust-analyzer-downloader"@),
        ("Accept-Encoding"@, "gzip"@),
        ("Accept-Encoding"@, "deflate"@),
    ]
}

/// What a page of the listing is made of: `Next` with the following page
/// number for a page that holds releases, `Done` for an empty one.
pub open spec fn page_of(page: u32, releases: Vec<ReleasesJsonResponse>) -> Paging {
    if releases.len() > 0 {
        Paging::Next((page + 1) as u32, releases)
    } else {
        Paging::Done
    }
}

/// The release listing.
#[derive(Debug)]
pub struct Versions {
    url: &'static str,
}

impl Versions {
    /// The listing at [`RELEASE_GITHUB_API_URL`].
    pub fn new() -> (versions: Versions)
        ensures
            versions.url()@ == RELEASE_GITHUB_API_URL@,
    {
        Versions { url: RELEASE_GITHUB_API_URL }
    }

    /// Where this listing is asked.
    pub closed spec fn url(&self) -> &'static str {
        self.url
    }

    /// The request for a page of `per_page` releases.
    pub fn request(&self, per_page: u32) -> (request: Request)
        ensures
            request.url@ == self.url()@,
            request.headers.deep_view() == listing_headers(),
            request.query.deep_view() == seq![(PER_PAGE@, per_page)],
    {
        let mut headers: Vec<(&'static str, &'static str)> = Vec::new();
        headers.push(("Accept", "application/vnd.github+json"));
        headers.push(("User-Agent", "rust-analyzer-downloader"));
        headers.push(("Accept-Encoding", "gzip"));
        headers.push(("Accept-Encoding", "deflate"));
        let mut query: Vec<(&'static str, u32)> = Vec::new();
        query.push((PER_PAGE, per_page));
        assert(headers.deep_view() =~= listing_headers());
        assert(query.deep_view() =~= seq![(PER_PAGE@, per_page)]);
        Request { url: self.url, headers, query }
    }

    /// Turns the answer to the request for page `page` into a [`Paging`].
    ///
    /// A failed request is handed on as it is. A page that holds releases
    /// becomes `Next` with these releases and the number after `page`, which
    /// must exist; an empty page is the end of the listing, `Done`.
    pub fn get(&self, page: u32, response: Result<Vec<ReleasesJsonResponse>, Error>) -> (paging:
        Result<Paging, Error>)
        requires
            response matches Ok(releases) && releases.len() > 0 ==> page < u32::MAX,
        ensures
            paging == match response {
                Ok(releases) => Ok::<Paging, Error>(page_of(page, releases)),
                Err(error) => Err::<Paging, Error>(error),
            },
    {
        match response {
            Ok(releases) => {
                if releases.len() > 0 {
                    Ok(Paging::Next(page + 1, releases))
                } else {
                    Ok(Paging::Done)
                }
            },
            Err(error) => Err(error),
        }
    }
}

} // verus!
