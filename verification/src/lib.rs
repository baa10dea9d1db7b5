//! Resolution of server releases against provider manifests, and the
//! bookkeeping of a streamed download.
//!
//! The library performs no input or output. A caller fetches and decodes the
//! documents that [`resolver`] asks for, and reports to [`downloader`] what
//! happens to the transfer; the library decides what follows.
//!
//! - [`version`]: dotted version identifiers and their order.
//! - [`vanilla`], [`paper`], [`fabric`]: the rules of the three providers.
//! - [`resolver`]: a resolution as a sequence of fetches.
//! - [`resolution`]: what a resolution yields and how it fails.
//! - [`command`]: the request.
//! - [`downloader`]: the progress protocol of a download.
//! - [`eula`]: the text of the licence acceptance file.
//! - [`text`], [`decimal`], [`search`]: strings, numerals and lists.

pub mod command;
pub mod decimal;
pub mod downloader;
pub mod eula;
pub mod fabric;
pub mod paper;
pub mod resolution;
pub mod resolver;
pub mod search;
pub mod text;
pub mod vanilla;
pub mod version;
