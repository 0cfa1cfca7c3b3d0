//! The server's response envelope and the per-file report record.

use vstd::prelude::*;

verus! {

/// The envelope around every server response.
pub struct ApiResponse<T> {
    pub status_code: u64,
    pub description: String,
    pub body: Option<T>,
}

/// What the server reports about one imported chart.
pub struct ImportResult {
    pub chart_hash: String,
    pub title: String,
    pub artist: String,
    pub level: u8,
    pub difficulty: u8,
    pub status: String,
    pub message: String,
}

/// The final record of one file: `success` holds only for an imported chart.
pub struct UploadResult {
    pub path: String,
    pub success: bool,
    pub message: String,
}

} // verus!
