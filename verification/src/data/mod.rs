//! Manage data for algorithms: data URIs, directories, files and their API requests.

pub mod path;
pub mod headers;
pub mod object;
pub mod dir;
pub mod file;
pub mod listing;
