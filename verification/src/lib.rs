//! The fetch, resolve and download pipeline of a catalog video downloader.
//!
//! Everything here is pure decision logic: the pagination walk, the choice of
//! the best video variant, the bounded download schedule and the staging of
//! one download are state machines and functions on plain values. The caller
//! performs the requests, the subprocess runs and the file operations that
//! they ask for, and reports back what happened.
//!
//! The stages, in the order in which a run passes through them:
//! [`cli`] holds the settings, [`client`] builds the requests, [`walker`]
//! walks the listing, [`catalog`] reads the answers, [`resolver`] gathers the
//! assets, [`scheduler`] hands out the downloads, [`downloader`] and
//! [`transfer`] stage and publish one of them. [`files`] states what that
//! order guarantees of the files on disk.

pub mod catalog;
pub mod cli;
pub mod client;
pub mod downloader;
pub mod error;
pub mod files;
pub mod paths;
pub mod resolver;
pub mod scheduler;
pub mod text;
pub mod transfer;
pub mod walker;
