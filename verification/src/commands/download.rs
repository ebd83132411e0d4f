//! The installation of one release, named by its tag.

use vstd::prelude::*;

use crate::commands::command::{Errors, ErrorsView};
use crate::services::downloader::Error as DownloaderError;
use crate::services::downloader::{download_url, Downloader, Install, InstallView};

verus! {

/// The installation of the release tagged `version` as the file `output`.
#[derive(Debug)]
pub struct DownloadCommand {
    pub version: String,
    pub output: String,
    pub downloader: Downloader,
}

impl DownloadCommand {
    /// The installation of the release tagged `version` as `output`.
    pub fn new(version: String, output: String, downloader: Downloader) -> (command:
        DownloadCommand)
        ensures
            command.version == version,
            command.output == output,
            command.downloader == downloader,
    {
        DownloadCommand { version, output, downloader }
    }

    /// Begins the install: the request for the executable of the release is
    /// due, and no file was touched.
    pub fn execute(&self) -> (install: Install)
        ensures
            install@ == InstallView::start(
                self.downloader.platform,
                download_url(self.version@, self.downloader.platform),
                self.output@,
                self.downloader.temp_path@,
            ),
    {
        self.downloader.download(self.version.as_str(), self.output.as_str())
    }

    /// How the command ends, given how the install ended: a failed install
    /// is the command's error.
    pub fn finish(result: Result<(), DownloaderError>) -> (end: Result<(), Errors>)
        ensures
            match result {
                Ok(_) => end is Ok,
                Err(error) => end matches Err(failure) && failure@ == ErrorsView::Download(error@),
            },
    {
        match result {
            Ok(_) => Ok(()),
            Err(error) => Err(Errors::Download(error)),
        }
    }
}

} // verus!
