//! The error that a command ends with.

use vstd::prelude::*;

use crate::date::DateError;
use crate::rust_analyzer::version::Error as CurrentVersionError;
use crate::rust_analyzer::version::ErrorView as CurrentVersionErrorView;
use crate::services::downloader::Error as DownloaderError;
use crate::services::downloader::ErrorView as DownloaderErrorView;
use crate::services::versions::Error as VersionsError;
use crate::services::versions::ErrorView as VersionsErrorView;

verus! {

/// Why a command failed: the failure of the step that it could not get past.
#[derive(Debug)]
pub enum Errors {
    Download(DownloaderError),
    GetVersions(VersionsError),
    CurrentVersion(CurrentVersionError),
    ParseDate(DateError),
}

/// Mathematical model of an [`Errors`]. Of a text that is no date it keeps
/// the text.
pub enum ErrorsView {
    Download(DownloaderErrorView),
    GetVersions(VersionsErrorView),
    CurrentVersion(CurrentVersionErrorView),
    ParseDate(Seq<char>),
}

impl View for Errors {
    type V = ErrorsView;

    open spec fn view(&self) -> ErrorsView {
        match self {
            Errors::Download(error) => ErrorsView::Download(error@),
            Errors::GetVersions(error) => ErrorsView::GetVersions(error@),
            Errors::CurrentVersion(error) => ErrorsView::CurrentVersion(error@),
            Errors::ParseDate(error) => ErrorsView::ParseDate(error@.text),
        }
    }
}

impl Errors {
    /// The text shown for the error: that of the failure it holds.
    pub fn to_string(&self) -> (text: String)
        ensures
            text@ == match self {
                Errors::Download(error) => error@.message(),
                Errors::GetVersions(error) => error@.message(),
                Errors::CurrentVersion(error) => error@.message(),
                Errors::ParseDate(error) => error@.reason,
            },
    {
        match self {
            Errors::Download(error) => error.to_string(),
            Errors::GetVersions(error) => error.to_string(),
            Errors::CurrentVersion(error) => error.to_string(),
            Errors::ParseDate(error) => error.to_string(),
        }
    }
}

} // verus!
