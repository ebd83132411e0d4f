//! What is known about the locally installed rust-analyzer.

pub mod version;
