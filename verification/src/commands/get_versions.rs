//! The listing of the newest releases.

use vstd::prelude::*;

use crate::commands::command::{Errors, ErrorsView};
use crate::services::versions::Error as VersionsError;
use crate::services::versions::{
    listing_headers, Paging, ReleaseView, ReleasesJsonResponse, Request, Versions,
    PER_PAGE,
};

verus! {

/// The page of the listing that is shown.
pub const PAGE: u32 = 1;

/// The listing of the `per_page` newest releases.
#[derive(Debug)]
pub struct GetVersionsCommand {
    pub versions: Versions,
    pub per_page: u32,
}

/// The line that shows a release: its tag, and whether it is a prerelease.
pub open spec fn release_line(release: ReleaseView) -> Seq<char> {
    "Version: "@ + release.tag_name + " Is Prerelease: "@ + if release.prerelease {
        "true"@
    } else {
        "false"@
    }
}

/// The lines that show the releases of a page, one for each and in the
/// order of the page.
pub open spec fn release_lines(releases: Seq<ReleaseView>) -> Seq<Seq<char>> {
    Seq::new(releases.len(), |i: int| release_line(releases[i]))
}

impl GetVersionsCommand {
    /// The listing of the `per_page` newest releases of `versions`.
    pub fn new(versions: Versions, per_page: u32) -> (command: GetVersionsCommand)
        ensures
            command.versions == versions,
            command.per_page == per_page,
    {
        GetVersionsCommand { versions, per_page }
    }

    /// The request to send to the listing.
    pub fn execute(&self) -> (request: Request)
        ensures
            request.url@ == self.versions.url()@,
            request.headers.deep_view() == listing_headers(),
            request.query.deep_view() == seq![(PER_PAGE@, self.per_page)],
    {
        self.versions.request(self.per_page)
    }

    /// What to show for the answer of the listing: a line for each release
    /// of the page, none for an empty page. A failed request is the
    /// command's error.
    pub fn report(&self, response: Result<Vec<ReleasesJsonResponse>, VersionsError>) -> (lines:
        Result<Vec<String>, Errors>)
        ensures
            match response {
                Ok(releases) => lines matches Ok(shown) && shown.deep_view() == release_lines(
                    releases.deep_view(),
                ),
                Err(error) => lines matches Err(failure) && failure@ == ErrorsView::GetVersions(
                    error@,
                ),
            },
    {
        let mut shown: Vec<String> = Vec::new();
        match self.versions.get(PAGE, response) {
            Ok(Paging::Next(_, releases)) => {
                let mut i: usize = 0;
                while i < releases.len()
                    invariant
                        i <= releases.len(),
                        shown.len() == i,
                        forall|j: int| 0 <= j < i ==> shown@[j]@ == release_line(releases@[j]@),
                    decreases releases.len() - i,
                {
                    let mut line = "Version: ".to_owned();
                    line.append(releases[i].tag_name.as_str());
                    line.append(" Is Prerelease: ");
                    line.append(
                        if releases[i].prerelease {
                            "true"
                        } else {
                            "false"
                        },
                    );
                    shown.push(line);
                    i = i + 1;
                }
                assert(shown.deep_view() =~= release_lines(releases.deep_view()));
                Ok(shown)
            },
            Ok(Paging::Done) => {
                assert(shown.deep_view() =~= release_lines(response->Ok_0.deep_view()));
                Ok(shown)
            },
            Err(error) => Err(Errors::GetVersions(error)),
        }
    }
}

} // verus!
