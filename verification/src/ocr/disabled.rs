//! The engine that stands in while the screen is not read.

use vstd::prelude::*;

use crate::ocr::download::DownloadTable;
use crate::ocr::engine;
use crate::ocr::engine::{DownloadStatus, OcrEngine, OcrError, OcrResult};

verus! {

/// The id of the engine that recognizes nothing.
pub const PROVIDER_ID: &'static str = "disabled";

/// An engine that recognizes nothing.
#[derive(Debug, Clone, Copy, PartialEq, Eq, Structural)]
pub struct DisabledOcrEngine;

impl DisabledOcrEngine {
    /// Finds no text in any image.
    pub fn recognize(&self, _image_bytes: &[u8]) -> (r: Result<OcrResult, OcrError>)
        ensures
            r matches Ok(result) && result@.len() == 0,
    {
        Ok(OcrResult::default())
    }
}

impl OcrEngine for DisabledOcrEngine {
    open spec fn id(&self) -> Seq<char> {
        PROVIDER_ID@
    }

    open spec fn wants_download(&self) -> bool {
        false
    }

    open spec fn reported(&self, table: Seq<engine::DownloadStatusView>) -> Option<
        Seq<engine::DownloadStatusView>,
    > {
        None
    }

    fn provider_id(&self) -> (id: &str) {
        PROVIDER_ID
    }

    fn requires_download(&self) -> (r: bool) {
        false
    }

    fn download_status(&self, _table: &DownloadTable) -> (r: Option<Vec<DownloadStatus>>) {
        None
    }
}

} // verus!
