//! Verified core of a batch uploader for chart files: response checks and
//! classification, the retry controller, the upload orchestrator and its
//! report, and the selection of chart files from a directory listing.

pub mod cli;
pub mod discovery;
pub mod error;
pub mod models;
pub mod request;
pub mod response;
pub mod retry;
pub mod text;
pub mod upload;
