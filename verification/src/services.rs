//! The two services behind the commands: listing releases and installing one.

pub mod downloader;
pub mod versions;
