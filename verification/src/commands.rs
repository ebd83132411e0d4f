//! The commands of the tool: what the command line asks for, and what each
//! command decides, step by step.

use vstd::prelude::*;

use crate::commands::check::CheckCommand;
use crate::commands::download::DownloadCommand;
use crate::commands::get_versions::GetVersionsCommand;
use crate::date::DATE_FORMAT;
use crate::services::downloader::Downloader;
use crate::services::versions::Versions;

pub mod check;
pub mod command;
pub mod download;
pub mod get_versions;

verus! {

/// How many releases `get-versions` lists when it is not told.
pub const DEFAULT_PER_PAGE: u32 = 3;

/// Whether `check` follows the nightly channel when it is not told.
pub const DEFAULT_NIGHTLY: bool = false;

/// Whether `check` installs a newer release when it is not told.
pub const DEFAULT_DOWNLOAD: bool = true;

/// What the command line asks for.
#[derive(Debug)]
pub enum Commands {
    /// Install the release tagged `version` as the file `output`.
    Download { version: String, output: String },
    /// List the `per_page` newest releases.
    GetVersions { per_page: u32 },
    /// Look for a release newer than what is installed, on the nightly
    /// channel or among the dated releases, and install it as the file
    /// `output` or only report it.
    Check { output: String, nightly: bool, download: bool },
}

/// The command line, parsed.
#[derive(Debug)]
pub struct Cli {
    pub commands: Commands,
}

/// A command that is ready to run.
#[derive(Debug)]
pub enum Planned {
    Download(DownloadCommand),
    GetVersions(GetVersionsCommand),
    Check(CheckCommand),
}

/// The command that a command line asks for, with the services it needs.
pub fn execute(args: Cli, downloader: Downloader, versions: Versions) -> (planned: Planned)
    ensures
        match args.commands {
            Commands::Download { version, output } => planned == Planned::Download(
                DownloadCommand { version, output, downloader },
            ),
            Commands::GetVersions { per_page } => planned == Planned::GetVersions(
                GetVersionsCommand { versions, per_page },
            ),
            Commands::Check { output, nightly, download } => {
                &&& planned matches Planned::Check(command)
                &&& command.output == output
                &&& command.nightly == nightly
                &&& command.should_download == download
                &&& command.downloader == downloader
                &&& command.versions == versions
                &&& command.date_format@ == DATE_FORMAT@
            },
        },
{
    match args.commands {
        Commands::Download { version, output } => Planned::Download(
            DownloadCommand::new(version, output, downloader),
        ),
        Commands::GetVersions { per_page } => Planned::GetVersions(
            GetVersionsCommand::new(versions, per_page),
        ),
        Commands::Check { output, nightly, download } => Planned::Check(
            CheckCommand::new(output, downloader, versions, download, nightly),
        ),
    }
}

} // verus!
