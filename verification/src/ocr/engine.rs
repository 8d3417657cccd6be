//! What all recognition engines share: results, download states and the interface.

use vstd::prelude::*;

use crate::ocr::download::DownloadTable;
use crate::strings;

verus! {

/// A failure, told as a message. Some messages begin with a mark that the settings
/// page knows, such as `screenRecordingDenied`.
#[derive(Debug, Clone)]
pub struct OcrError {
    pub message: String,
}

impl View for OcrError {
    type V = Seq<char>;

    open spec fn view(&self) -> Seq<char> {
        self.message@
    }
}

/// An error with the message `message`.
pub fn error(message: &str) -> (e: OcrError)
    ensures
        e@ == message@,
{
    OcrError { message: message.to_string() }
}

/// An error whose message is `lead` followed by `detail`.
pub fn error_with(lead: &str, detail: &str) -> (e: OcrError)
    ensures
        e@ == lead@ + detail@,
{
    OcrError { message: strings::concat2(lead, detail) }
}

/// A line of recognized text.
#[derive(Debug, Clone)]
pub struct OcrLine {
    pub text: String,
    /// The engine's confidence, as the bits of an IEEE 754 single-precision number.
    pub confidence: Option<u32>,
}

/// A line, with its text as a sequence of characters.
pub struct OcrLineView {
    pub text: Seq<char>,
    pub confidence: Option<u32>,
}

impl View for OcrLine {
    type V = OcrLineView;

    open spec fn view(&self) -> OcrLineView {
        OcrLineView { text: self.text@, confidence: self.confidence }
    }
}

/// The views of a sequence of lines.
pub open spec fn line_views(lines: Seq<OcrLine>) -> Seq<OcrLineView> {
    Seq::new(lines.len(), |i: int| lines[i]@)
}

/// The text of an image, line by line in reading order.
#[derive(Debug, Clone)]
pub struct OcrResult {
    pub lines: Vec<OcrLine>,
}

impl View for OcrResult {
    type V = Seq<OcrLineView>;

    open spec fn view(&self) -> Seq<OcrLineView> {
        line_views(self.lines@)
    }
}

impl Default for OcrResult {
    /// A result without lines.
    fn default() -> (r: OcrResult)
        ensures
            r@.len() == 0,
    {
        OcrResult { lines: Vec::new() }
    }
}

/// What recognition came to: the lines, or the message of the error.
pub open spec fn outcome(r: Result<OcrResult, OcrError>) -> Result<Seq<OcrLineView>, Seq<char>> {
    match r {
        Ok(result) => Ok(result@),
        Err(e) => Err(e@),
    }
}

/// How far the download of a model file has come.
#[derive(Debug, Clone, Copy, PartialEq, Eq, Structural)]
pub enum DownloadState {
    NotStarted,
    InProgress,
    Completed,
    Failed,
    Cancelled,
}

impl Default for DownloadState {
    fn default() -> (s: DownloadState)
        ensures
            s == DownloadState::NotStarted,
    {
        DownloadState::NotStarted
    }
}

/// The download of one model file.
#[derive(Debug, Clone)]
pub struct DownloadStatus {
    pub provider_id: String,
    pub model_id: String,
    pub state: DownloadState,
    pub bytes_total: Option<u64>,
    pub bytes_downloaded: Option<u64>,
    pub error: Option<String>,
}

/// A download, with its texts as sequences of characters.
pub struct DownloadStatusView {
    pub provider_id: Seq<char>,
    pub model_id: Seq<char>,
    pub state: DownloadState,
    pub bytes_total: Option<u64>,
    pub bytes_downloaded: Option<u64>,
    pub error: Option<Seq<char>>,
}

impl View for DownloadStatus {
    type V = DownloadStatusView;

    open spec fn view(&self) -> DownloadStatusView {
        DownloadStatusView {
            provider_id: self.provider_id@,
            model_id: self.model_id@,
            state: self.state,
            bytes_total: self.bytes_total,
            bytes_downloaded: self.bytes_downloaded,
            error: strings::string_opt(self.error),
        }
    }
}

/// The views of a sequence of downloads.
pub open spec fn status_views(list: Seq<DownloadStatus>) -> Seq<DownloadStatusView> {
    Seq::new(list.len(), |i: int| list[i]@)
}

impl DownloadStatus {
    /// A copy of this status.
    pub fn duplicate(&self) -> (r: DownloadStatus)
        ensures
            r@ == self@,
    {
        DownloadStatus {
            provider_id: self.provider_id.clone(),
            model_id: self.model_id.clone(),
            state: self.state,
            bytes_total: self.bytes_total,
            bytes_downloaded: self.bytes_downloaded,
            error: match &self.error {
                Some(e) => Some(e.clone()),
                None => None,
            },
        }
    }
}

impl Default for DownloadStatus {
    fn default() -> (s: DownloadStatus)
        ensures
            s.provider_id@.len() == 0,
            s.model_id@.len() == 0,
            s.state == DownloadState::NotStarted,
            s.bytes_total is None,
            s.bytes_downloaded is None,
            s.error is None,
    {
        DownloadStatus {
            provider_id: String::new(),
            model_id: String::new(),
            state: DownloadState::NotStarted,
            bytes_total: None,
            bytes_downloaded: None,
            error: None,
        }
    }
}

/// A recognition engine as the settings offer it.
#[derive(Debug, Clone, PartialEq, Eq)]
pub struct OcrProvider {
    pub id: String,
    pub name: String,
    pub description: String,
    pub local: bool,
    pub requires_download: bool,
    pub supported_platforms: Vec<String>,
}

/// A provider, with its texts as sequences of characters.
pub struct OcrProviderView {
    pub id: Seq<char>,
    pub name: Seq<char>,
    pub description: Seq<char>,
    pub local: bool,
    pub requires_download: bool,
    pub supported_platforms: Seq<Seq<char>>,
}

impl View for OcrProvider {
    type V = OcrProviderView;

    open spec fn view(&self) -> OcrProviderView {
        OcrProviderView {
            id: self.id@,
            name: self.name@,
            description: self.description@,
            local: self.local,
            requires_download: self.requires_download,
            supported_platforms: strings::texts(self.supported_platforms@),
        }
    }
}

/// The views of a sequence of providers.
pub open spec fn provider_views(list: Seq<OcrProvider>) -> Seq<OcrProviderView> {
    Seq::new(list.len(), |i: int| list[i]@)
}

/// What the application asks of an engine besides recognition itself.
pub trait OcrEngine {
    /// The id of the engine's provider.
    spec fn id(&self) -> Seq<char>;

    /// Whether the engine works only with downloaded models.
    spec fn wants_download(&self) -> bool;

    /// The downloads that the engine reports, given those of the table.
    spec fn reported(&self, table: Seq<DownloadStatusView>) -> Option<Seq<DownloadStatusView>>;

    fn provider_id(&self) -> (id: &str)
        ensures
            id@ == self.id(),
    ;

    fn requires_download(&self) -> (r: bool)
        ensures
            r == self.wants_download(),
    ;

    fn download_status(&self, table: &DownloadTable) -> (r: Option<Vec<DownloadStatus>>)
        ensures
            match r {
                Some(list) => self.reported(table@) == Some(status_views(list@)),
                None => self.reported(table@) is None,
            },
    ;

    /// Makes sure that the models are there; engines that need none succeed.
    fn ensure_model_downloaded(&self) -> (r: Result<(), OcrError>)
        default_ensures
            r is Ok,
    {
        Ok(())
    }

    /// Stops a download of this engine; engines that have none do nothing.
    fn cancel_download(&self) {
    }

    /// Deletes the models of this engine; engines that have none succeed.
    fn delete_model(&self) -> (r: Result<(), OcrError>)
        default_ensures
            r is Ok,
    {
        Ok(())
    }
}

/// The views of a list are those of its items, each in its place.
pub proof fn law_views_keep_their_places(
    result: OcrResult,
    statuses: Seq<DownloadStatus>,
    providers: Seq<OcrProvider>,
)
    ensures
        result@.len() == result.lines@.len(),
        forall|i: int|
            0 <= i < result.lines@.len() ==> (#[trigger] result@[i]).text == result.lines@[i].text@
                && result@[i].confidence == result.lines@[i].confidence,
        status_views(statuses).len() == statuses.len(),
        forall|i: int|
            0 <= i < statuses.len() ==> {
                &&& (#[trigger] status_views(statuses)[i]).provider_id == statuses[i].provider_id@
                &&& status_views(statuses)[i].model_id == statuses[i].model_id@
                &&& status_views(statuses)[i].state == statuses[i].state
                &&& status_views(statuses)[i].bytes_total == statuses[i].bytes_total
                &&& status_views(statuses)[i].bytes_downloaded == statuses[i].bytes_downloaded
                &&& status_views(statuses)[i].error is Some <==> statuses[i].error is Some
                &&& statuses[i].error is Some ==> status_views(statuses)[i].error->0
                    == statuses[i].error->0@
            },
        provider_views(providers).len() == providers.len(),
        forall|i: int|
            0 <= i < providers.len() ==> {
                &&& (#[trigger] provider_views(providers)[i]).id == providers[i].id@
                &&& provider_views(providers)[i].name == providers[i].name@
                &&& provider_views(providers)[i].description == providers[i].description@
                &&& provider_views(providers)[i].local == providers[i].local
                &&& provider_views(providers)[i].requires_download == providers[i].requires_download
            },
{
}

} // verus!
