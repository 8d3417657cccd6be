//! Downloads of model files: the table of all downloads, and the course of one.

use vstd::prelude::*;

use crate::ocr::engine;
use crate::ocr::engine::{DownloadState, DownloadStatus};
use crate::strings;
use crate::strings::{after_last_slash, concat2, parse_u64, same_text};

verus! {

/// The provider whose models are downloaded.
pub const PROVIDER_ID: &'static str = "rapidocr";

// ---------------------------------------------------------------------------
// The table
// ---------------------------------------------------------------------------

/// The downloads known so far, one for each model file, in the order in which they
/// were first entered.
pub struct DownloadTable {
    entries: Vec<DownloadStatus>,
}

/// No two downloads are of the same model file.
pub open spec fn ids_differ(list: Seq<engine::DownloadStatusView>) -> bool {
    forall|i: int, j: int|
        0 <= i < j < list.len() ==> (#[trigger] list[i]).model_id != (#[trigger] list[j]).model_id
}

/// Entry `i` is the download of `model_id`.
pub open spec fn is_entry(
    list: Seq<engine::DownloadStatusView>,
    model_id: Seq<char>,
    i: int,
) -> bool {
    0 <= i < list.len() && list[i].model_id == model_id
}

/// The list holds a download of `model_id`.
pub open spec fn listed(list: Seq<engine::DownloadStatusView>, model_id: Seq<char>) -> bool {
    exists|i: int| is_entry(list, model_id, i)
}

/// Where the list holds the download of `model_id`.
pub open spec fn place_of(list: Seq<engine::DownloadStatusView>, model_id: Seq<char>) -> int {
    choose|i: int| is_entry(list, model_id, i)
}

/// The list with `status` in the place of the download of the same model file, or at
/// the end where there was none.
pub open spec fn entered(
    list: Seq<engine::DownloadStatusView>,
    status: engine::DownloadStatusView,
) -> Seq<engine::DownloadStatusView> {
    if listed(list, status.model_id) {
        list.update(place_of(list, status.model_id), status)
    } else {
        list.push(status)
    }
}

/// A download after a request to stop: it is cancelled if it was in progress.
pub open spec fn stopped(status: engine::DownloadStatusView) -> engine::DownloadStatusView {
    if status.state == DownloadState::InProgress {
        engine::DownloadStatusView { state: DownloadState::Cancelled, ..status }
    } else {
        status
    }
}

/// The list after a request to stop all downloads.
pub open spec fn all_stopped(list: Seq<engine::DownloadStatusView>) -> Seq<
    engine::DownloadStatusView,
> {
    Seq::new(list.len(), |i: int| stopped(list[i]))
}

/// A download with its byte counts brought up to date.
pub open spec fn advanced(
    status: engine::DownloadStatusView,
    downloaded: u64,
    total: Option<u64>,
) -> engine::DownloadStatusView {
    engine::DownloadStatusView { bytes_downloaded: Some(downloaded), bytes_total: total, ..status }
}

/// The list with the byte counts of one download brought up to date.
pub open spec fn with_progress(
    list: Seq<engine::DownloadStatusView>,
    model_id: Seq<char>,
    downloaded: u64,
    total: Option<u64>,
) -> Seq<engine::DownloadStatusView> {
    if listed(list, model_id) {
        let i = place_of(list, model_id);
        list.update(i, advanced(list[i], downloaded, total))
    } else {
        list
    }
}

/// The download of `model_id` has been cancelled.
pub open spec fn is_cancelled(list: Seq<engine::DownloadStatusView>, model_id: Seq<char>) -> bool {
    listed(list, model_id) && list[place_of(list, model_id)].state == DownloadState::Cancelled
}

impl View for DownloadTable {
    type V = Seq<engine::DownloadStatusView>;

    closed spec fn view(&self) -> Seq<engine::DownloadStatusView> {
        engine::status_views(self.entries@)
    }
}

/// Entering a download leaves the list with one entry for each model file.
pub proof fn lemma_entered_keeps_ids(
    list: Seq<engine::DownloadStatusView>,
    status: engine::DownloadStatusView,
)
    requires
        ids_differ(list),
    ensures
        ids_differ(entered(list, status)),
{
    let after = entered(list, status);
    if listed(list, status.model_id) {
        let p = place_of(list, status.model_id);
        assert(is_entry(list, status.model_id, p));
        assert forall|i: int, j: int| 0 <= i < j < after.len() implies (
        #[trigger] after[i]).model_id != (#[trigger] after[j]).model_id by {
            assert(after[i].model_id == list[i].model_id);
            assert(after[j].model_id == list[j].model_id);
        }
    } else {
        assert forall|i: int, j: int| 0 <= i < j < after.len() implies (
        #[trigger] after[i]).model_id != (#[trigger] after[j]).model_id by {
            assert(!is_entry(list, status.model_id, i));
        }
    }
}

impl DownloadTable {
    /// The table lists every model file once.
    pub open spec fn wf(&self) -> bool {
        ids_differ(self@)
    }

    /// A table without downloads.
    pub fn new() -> (t: DownloadTable)
        ensures
            t.wf(),
            t@.len() == 0,
    {
        DownloadTable { entries: Vec::new() }
    }

    /// Where the download of `model_id` is.
    fn find(&self, model_id: &str) -> (r: Option<usize>)
        requires
            self.wf(),
        ensures
            match r {
                Some(i) => {
                    &&& i < self.entries@.len()
                    &&& is_entry(self@, model_id@, i as int)
                    &&& i == place_of(self@, model_id@)
                },
                None => !listed(self@, model_id@),
            },
    {
        let mut i: usize = 0;
        while i < self.entries.len()
            invariant
                i <= self.entries@.len(),
                self.wf(),
                forall|k: int| 0 <= k < i ==> self@[k].model_id != model_id@,
            decreases self.entries@.len() - i,
        {
            if same_text(self.entries[i].model_id.as_str(), model_id) {
                assert(is_entry(self@, model_id@, i as int));
                assert(self@[place_of(self@, model_id@)].model_id == self@[i as int].model_id);
                return Some(i);
            }
            i += 1;
        }
        None
    }

    /// Enters a download, in place of an earlier one of the same model file.
    pub fn insert(&mut self, status: DownloadStatus)
        requires
            old(self).wf(),
        ensures
            final(self).wf(),
            final(self)@ == entered(old(self)@, status@),
    {
        let ghost before = self@;
        proof {
            lemma_entered_keeps_ids(before, status@);
        }
        match self.find(status.model_id.as_str()) {
            Some(i) => {
                self.entries.set(i, status);
                assert(self@ =~= before.update(i as int, status@));
            },
            None => {
                self.entries.push(status);
                assert(self@ =~= before.push(status@));
            },
        }
    }

    /// A copy of all downloads.
    pub fn snapshot(&self) -> (list: Vec<DownloadStatus>)
        ensures
            engine::status_views(list@) == self@,
    {
        let mut list: Vec<DownloadStatus> = Vec::new();
        let mut i: usize = 0;
        while i < self.entries.len()
            invariant
                i <= self.entries@.len(),
                list@.len() == i,
                forall|k: int| 0 <= k < i ==> (#[trigger] list@[k])@ == self.entries@[k]@,
            decreases self.entries@.len() - i,
        {
            list.push(self.entries[i].duplicate());
            i += 1;
        }
        assert(engine::status_views(list@) =~= self@);
        list
    }

    /// Marks every download in progress as cancelled.
    pub fn stop_all(&mut self)
        requires
            old(self).wf(),
        ensures
            final(self).wf(),
            final(self)@ == all_stopped(old(self)@),
    {
        let ghost before = self@;
        let mut i: usize = 0;
        while i < self.entries.len()
            invariant
                i <= self.entries@.len(),
                self.entries@.len() == before.len(),
                forall|k: int| 0 <= k < i ==> (#[trigger] self.entries@[k])@ == stopped(before[k]),
                forall|k: int|
                    i <= k < before.len() ==> (#[trigger] self.entries@[k])@ == before[k],
            decreases self.entries@.len() - i,
        {
            if self.entries[i].state == DownloadState::InProgress {
                let mut entry = self.entries[i].duplicate();
                entry.state = DownloadState::Cancelled;
                self.entries.set(i, entry);
            }
            i += 1;
        }
        assert(self@ =~= all_stopped(before));
    }

    /// Notes how far a download has come, and returns whether it has been cancelled. A
    /// download that the table does not list any more is left alone.
    pub fn record_progress(&mut self, model_id: &str, downloaded: u64, total: Option<u64>) -> (r:
        bool)
        requires
            old(self).wf(),
        ensures
            final(self).wf(),
            final(self)@ == with_progress(old(self)@, model_id@, downloaded, total),
            r == is_cancelled(old(self)@, model_id@),
    {
        let ghost before = self@;
        match self.find(model_id) {
            Some(i) => {
                let mut entry = self.entries[i].duplicate();
                entry.bytes_downloaded = Some(downloaded);
                entry.bytes_total = total;
                let cancelled = entry.state == DownloadState::Cancelled;
                self.entries.set(i, entry);
                assert(self@ =~= with_progress(before, model_id@, downloaded, total));
                cancelled
            },
            None => false,
        }
    }

    /// Forgets all downloads.
    pub fn clear(&mut self)
        ensures
            final(self).wf(),
            final(self)@.len() == 0,
    {
        self.entries.clear();
    }
}

/// Cancels all downloads in progress. A running download sees it when it next notes
/// its progress.
pub fn cancel_all_downloads(table: &mut DownloadTable)
    requires
        old(table).wf(),
    ensures
        final(table).wf(),
        final(table)@ == all_stopped(old(table)@),
{
    table.stop_all();
}

/// All downloads known so far.
pub fn all_download_status(table: &DownloadTable) -> (list: Vec<DownloadStatus>)
    ensures
        engine::status_views(list@) == table@,
{
    table.snapshot()
}

// ---------------------------------------------------------------------------
// The course of one download
// ---------------------------------------------------------------------------

/// What a download waits for.
#[derive(Debug, Clone, Copy, PartialEq, Eq, Structural)]
pub enum DownloadPhase {
    /// The target directory is to be created.
    CreateDir,
    /// The HTTP client is to be built.
    BuildClient,
    /// The server is to be asked for the length of the file.
    AskLength,
    /// The file is to be requested.
    Request,
    /// The target file is to be created.
    CreateFile,
    /// The next part of the file is to be received.
    Read,
    /// The part just received is to be written.
    Write,
    /// The progress is to be noted in the table.
    Report,
    /// Nothing is left to do.
    Over,
}

/// A download under way.
#[derive(Debug, Clone)]
pub struct Download {
    pub model_id: String,
    /// The name of the target file, the last segment of the address.
    pub file_name: String,
    pub total: Option<u64>,
    pub downloaded: u64,
    pub phase: DownloadPhase,
}

/// A download under way, with its texts as sequences of characters.
pub struct DownloadView {
    pub model_id: Seq<char>,
    pub file_name: Seq<char>,
    pub total: Option<u64>,
    pub downloaded: u64,
    pub phase: DownloadPhase,
}

impl View for Download {
    type V = DownloadView;

    open spec fn view(&self) -> DownloadView {
        DownloadView {
            model_id: self.model_id@,
            file_name: self.file_name@,
            total: self.total,
            downloaded: self.downloaded,
            phase: self.phase,
        }
    }
}

/// What came of the thing that a download waited for.
#[derive(Debug, Clone)]
pub enum DownloadEvent {
    /// It was done.
    Done,
    /// It failed, for this reason.
    Failed(String),
    /// The server named this length, or none.
    Length(Option<String>),
    /// A part of so many bytes was received.
    Chunk(u64),
    /// The file was received to its end.
    End,
    /// The progress was noted; the download may have been cancelled meanwhile.
    Noted { cancelled: bool },
}

/// An event, with its texts as sequences of characters.
pub enum DownloadEventView {
    Done,
    Failed(Seq<char>),
    Length(Option<Seq<char>>),
    Chunk(u64),
    End,
    Noted { cancelled: bool },
}

impl View for DownloadEvent {
    type V = DownloadEventView;

    open spec fn view(&self) -> DownloadEventView {
        match self {
            DownloadEvent::Done => DownloadEventView::Done,
            DownloadEvent::Failed(e) => DownloadEventView::Failed(e@),
            DownloadEvent::Length(h) => DownloadEventView::Length(strings::string_opt(*h)),
            DownloadEvent::Chunk(n) => DownloadEventView::Chunk(*n),
            DownloadEvent::End => DownloadEventView::End,
            DownloadEvent::Noted { cancelled } => DownloadEventView::Noted {
                cancelled: *cancelled,
            },
        }
    }
}

/// What is to be done next.
#[derive(Debug, Clone)]
pub enum DownloadAction {
    /// The thing that the phase names.
    Perform(DownloadPhase),
    /// The download is over with this status; what has been written of the file is
    /// removed where it was cancelled.
    Finish { status: DownloadStatus, remove_file: bool },
}

/// An action, with its texts as sequences of characters.
pub enum DownloadActionView {
    Perform(DownloadPhase),
    Finish { status: engine::DownloadStatusView, remove_file: bool },
}

impl View for DownloadAction {
    type V = DownloadActionView;

    open spec fn view(&self) -> DownloadActionView {
        match self {
            DownloadAction::Perform(p) => DownloadActionView::Perform(*p),
            DownloadAction::Finish { status, remove_file } => DownloadActionView::Finish {
                status: status@,
                remove_file: *remove_file,
            },
        }
    }
}

/// The final status of a download.
pub open spec fn final_status(
    d: DownloadView,
    state: DownloadState,
    bytes_total: Option<u64>,
    bytes_downloaded: Option<u64>,
    error: Option<Seq<char>>,
) -> engine::DownloadStatusView {
    engine::DownloadStatusView {
        provider_id: PROVIDER_ID@,
        model_id: d.model_id,
        state,
        bytes_total,
        bytes_downloaded,
        error,
    }
}

/// The download goes on to `phase`.
pub open spec fn going_on(d: DownloadView, phase: DownloadPhase) -> (
    DownloadView,
    DownloadActionView,
) {
    (DownloadView { phase, ..d }, DownloadActionView::Perform(phase))
}

/// The download is over.
pub open spec fn ending(
    d: DownloadView,
    status: engine::DownloadStatusView,
    remove_file: bool,
) -> (DownloadView, DownloadActionView) {
    (
        DownloadView { phase: DownloadPhase::Over, ..d },
        DownloadActionView::Finish { status, remove_file },
    )
}

/// The download has failed. Byte counts are given as far as the phase knows them: the
/// total once the server has been asked, the bytes received once there is a file.
pub open spec fn failing(d: DownloadView, reason: Seq<char>) -> (DownloadView, DownloadActionView) {
    let (lead, total, downloaded) = match d.phase {
        DownloadPhase::CreateDir => ("create dir: "@, None, None),
        DownloadPhase::BuildClient => ("build client: "@, None, None),
        DownloadPhase::Request => ("网络请求失败: "@, d.total, None),
        DownloadPhase::CreateFile => ("create file: "@, d.total, None),
        DownloadPhase::Read => ("download stream: "@, d.total, Some(d.downloaded)),
        _ => ("write file: "@, d.total, Some(d.downloaded)),
    };
    ending(
        d,
        final_status(d, DownloadState::Failed, total, downloaded, Some(lead + reason)),
        false,
    )
}

/// What an event makes of a download. The phases follow one another, and reading,
/// writing and noting the progress are repeated until the file ends. A failure ends
/// the download, and so does a cancellation. An event that does not answer what the
/// download waits for changes nothing.
pub open spec fn stepped(d: DownloadView, e: DownloadEventView) -> (
    DownloadView,
    DownloadActionView,
) {
    match (d.phase, e) {
        (DownloadPhase::CreateDir, DownloadEventView::Done) => going_on(
            d,
            DownloadPhase::BuildClient,
        ),
        (DownloadPhase::CreateDir, DownloadEventView::Failed(reason)) => failing(d, reason),
        (DownloadPhase::BuildClient, DownloadEventView::Done) => going_on(
            d,
            DownloadPhase::AskLength,
        ),
        (DownloadPhase::BuildClient, DownloadEventView::Failed(reason)) => failing(d, reason),
        (DownloadPhase::AskLength, DownloadEventView::Length(header)) => going_on(
            DownloadView { total: named_length(header), ..d },
            DownloadPhase::Request,
        ),
        (DownloadPhase::Request, DownloadEventView::Done) => going_on(d, DownloadPhase::CreateFile),
        (DownloadPhase::Request, DownloadEventView::Failed(reason)) => failing(d, reason),
        (DownloadPhase::CreateFile, DownloadEventView::Done) => going_on(d, DownloadPhase::Read),
        (DownloadPhase::CreateFile, DownloadEventView::Failed(reason)) => failing(d, reason),
        (DownloadPhase::Read, DownloadEventView::Chunk(n)) => going_on(
            DownloadView { downloaded: (d.downloaded + n) as u64, ..d },
            DownloadPhase::Write,
        ),
        (DownloadPhase::Read, DownloadEventView::Failed(reason)) => failing(d, reason),
        (DownloadPhase::Read, DownloadEventView::End) => ending(
            d,
            final_status(d, DownloadState::Completed, d.total, Some(d.downloaded), None),
            false,
        ),
        (DownloadPhase::Write, DownloadEventView::Done) => going_on(d, DownloadPhase::Report),
        (DownloadPhase::Write, DownloadEventView::Failed(reason)) => failing(d, reason),
        (DownloadPhase::Report, DownloadEventView::Noted { cancelled }) => if cancelled {
            ending(
                d,
                final_status(d, DownloadState::Cancelled, d.total, Some(d.downloaded), None),
                true,
            )
        } else {
            going_on(d, DownloadPhase::Read)
        },
        _ => going_on(d, d.phase),
    }
}

/// The length that the server named, if it is a number.
pub open spec fn named_length(header: Option<Seq<char>>) -> Option<u64> {
    match header {
        Some(text) => strings::parsed_u64(text),
        None => None,
    }
}

/// A download of `url` that has not begun.
pub open spec fn fresh(model_id: Seq<char>, url: Seq<char>) -> DownloadView {
    DownloadView {
        model_id,
        file_name: strings::last_segment(url),
        total: None,
        downloaded: 0,
        phase: DownloadPhase::CreateDir,
    }
}

impl Download {
    /// A download of `url` that has not begun.
    pub fn new(model_id: &str, url: &str) -> (d: Download)
        ensures
            d@ == fresh(model_id@, url@),
    {
        Download {
            model_id: model_id.to_string(),
            file_name: after_last_slash(url),
            total: None,
            downloaded: 0,
            phase: DownloadPhase::CreateDir,
        }
    }

    /// Goes on to `phase`.
    fn go_on(&mut self, phase: DownloadPhase) -> (action: DownloadAction)
        ensures
            (final(self)@, action@) == going_on(old(self)@, phase),
    {
        self.phase = phase;
        DownloadAction::Perform(phase)
    }

    /// Ends the download with a status of these contents.
    fn end(
        &mut self,
        state: DownloadState,
        bytes_total: Option<u64>,
        bytes_downloaded: Option<u64>,
        error: Option<String>,
        remove_file: bool,
    ) -> (action: DownloadAction)
        ensures
            (final(self)@, action@) == ending(
                old(self)@,
                final_status(
                    old(self)@,
                    state,
                    bytes_total,
                    bytes_downloaded,
                    strings::string_opt(error),
                ),
                remove_file,
            ),
    {
        self.phase = DownloadPhase::Over;
        let status = DownloadStatus {
            provider_id: PROVIDER_ID.to_string(),
            model_id: self.model_id.clone(),
            state,
            bytes_total,
            bytes_downloaded,
            error,
        };
        DownloadAction::Finish { status, remove_file }
    }

    /// Ends the download because what it waited for has failed.
    fn fail(&mut self, reason: &str) -> (action: DownloadAction)
        ensures
            (final(self)@, action@) == failing(old(self)@, reason@),
    {
        let total = self.total;
        let downloaded = Some(self.downloaded);
        match self.phase {
            DownloadPhase::CreateDir => {
                let message = concat2("create dir: ", reason);
                self.end(DownloadState::Failed, None, None, Some(message), false)
            },
            DownloadPhase::BuildClient => {
                let message = concat2("build client: ", reason);
                self.end(DownloadState::Failed, None, None, Some(message), false)
            },
            DownloadPhase::Request => {
                let message = concat2("网络请求失败: ", reason);
                self.end(DownloadState::Failed, total, None, Some(message), false)
            },
            DownloadPhase::CreateFile => {
                let message = concat2("create file: ", reason);
                self.end(DownloadState::Failed, total, None, Some(message), false)
            },
            DownloadPhase::Read => {
                let message = concat2("download stream: ", reason);
                self.end(DownloadState::Failed, total, downloaded, Some(message), false)
            },
            _ => {
                let message = concat2("write file: ", reason);
                self.end(DownloadState::Failed, total, downloaded, Some(message), false)
            },
        }
    }

    /// Takes in what came of the thing that the download waited for, and says what is
    /// to be done next.
    pub fn step(&mut self, event: DownloadEvent) -> (action: DownloadAction)
        requires
            old(self).phase == DownloadPhase::Read ==> (event matches DownloadEvent::Chunk(n)
                ==> old(self).downloaded + n <= u64::MAX),
        ensures
            (final(self)@, action@) == stepped(old(self)@, event@),
    {
        let phase = self.phase;
        match (phase, event) {
            (DownloadPhase::CreateDir, DownloadEvent::Done) => self.go_on(
                DownloadPhase::BuildClient,
            ),
            (DownloadPhase::CreateDir, DownloadEvent::Failed(reason)) => self.fail(reason.as_str()),
            (DownloadPhase::BuildClient, DownloadEvent::Done) => self.go_on(
                DownloadPhase::AskLength,
            ),
            (DownloadPhase::BuildClient, DownloadEvent::Failed(reason)) => self.fail(
                reason.as_str(),
            ),
            (DownloadPhase::AskLength, DownloadEvent::Length(header)) => {
                self.total = match header {
                    Some(text) => parse_u64(text.as_str()),
                    None => None,
                };
                self.go_on(DownloadPhase::Request)
            },
            (DownloadPhase::Request, DownloadEvent::Done) => self.go_on(DownloadPhase::CreateFile),
            (DownloadPhase::Request, DownloadEvent::Failed(reason)) => self.fail(reason.as_str()),
            (DownloadPhase::CreateFile, DownloadEvent::Done) => self.go_on(DownloadPhase::Read),
            (DownloadPhase::CreateFile, DownloadEvent::Failed(reason)) => self.fail(
                reason.as_str(),
            ),
            (DownloadPhase::Read, DownloadEvent::Chunk(n)) => {
                self.downloaded = self.downloaded + n;
                self.go_on(DownloadPhase::Write)
            },
            (DownloadPhase::Read, DownloadEvent::Failed(reason)) => self.fail(reason.as_str()),
            (DownloadPhase::Read, DownloadEvent::End) => {
                let (total, downloaded) = (self.total, Some(self.downloaded));
                self.end(DownloadState::Completed, total, downloaded, None, false)
            },
            (DownloadPhase::Write, DownloadEvent::Done) => self.go_on(DownloadPhase::Report),
            (DownloadPhase::Write, DownloadEvent::Failed(reason)) => self.fail(reason.as_str()),
            (DownloadPhase::Report, DownloadEvent::Noted { cancelled }) => if cancelled {
                let (total, downloaded) = (self.total, Some(self.downloaded));
                self.end(DownloadState::Cancelled, total, downloaded, None, true)
            } else {
                self.go_on(DownloadPhase::Read)
            },
            _ => self.go_on(phase),
        }
    }
}

// ---------------------------------------------------------------------------
// Laws
// ---------------------------------------------------------------------------

/// Cancelling leaves no download in progress, keeps every other one as it is, and does
/// the same when done again.
pub proof fn law_cancelling_is_idempotent(list: Seq<engine::DownloadStatusView>)
    ensures
        all_stopped(all_stopped(list)) == all_stopped(list),
        forall|i: int|
            0 <= i < list.len() ==> (#[trigger] all_stopped(list)[i]).state
                != DownloadState::InProgress,
        forall|i: int|
            0 <= i < list.len() && list[i].state != DownloadState::InProgress ==> (
            #[trigger] all_stopped(list)[i]) == list[i],
{
    assert(all_stopped(all_stopped(list)) =~= all_stopped(list));
}

/// A download that is cancelled while in progress learns of it when it next notes its
/// progress, and then ends as cancelled, with what it has written removed.
pub proof fn law_running_download_sees_cancellation(
    list: Seq<engine::DownloadStatusView>,
    d: DownloadView,
)
    requires
        ids_differ(list),
        listed(list, d.model_id),
        list[place_of(list, d.model_id)].state == DownloadState::InProgress,
        d.phase == DownloadPhase::Report,
    ensures
        is_cancelled(all_stopped(list), d.model_id),
        stepped(
            d,
            DownloadEventView::Noted { cancelled: is_cancelled(all_stopped(list), d.model_id) },
        ).1 == (DownloadActionView::Finish {
            status: final_status(
                d,
                DownloadState::Cancelled,
                d.total,
                Some(d.downloaded),
                None,
            ),
            remove_file: true,
        }),
{
    let after = all_stopped(list);
    let i = place_of(list, d.model_id);
    assert(is_entry(after, d.model_id, i));
    let j = place_of(after, d.model_id);
    assert(is_entry(after, d.model_id, j));
    assert(list[i].model_id == after[i].model_id);
    assert(list[j].model_id == after[j].model_id);
}

/// However a download ends, its status names the provider and the model file, is
/// completed, failed or cancelled, carries an error exactly where it failed, and the
/// file is removed exactly where it was cancelled. It is completed only at the end of
/// the file, and cancelled only when it learns of that.
pub proof fn law_download_ends_with_one_verdict(d: DownloadView, e: DownloadEventView)
    ensures
        stepped(d, e).1 matches DownloadActionView::Finish { status, remove_file } ==> {
            &&& status.provider_id == PROVIDER_ID@
            &&& status.model_id == d.model_id
            &&& status.state == DownloadState::Completed || status.state == DownloadState::Failed
                || status.state == DownloadState::Cancelled
            &&& status.error is Some <==> status.state == DownloadState::Failed
            &&& remove_file <==> status.state == DownloadState::Cancelled
            &&& status.state == DownloadState::Completed <==> d.phase == DownloadPhase::Read && e
                is End
            &&& status.state == DownloadState::Cancelled <==> d.phase == DownloadPhase::Report
        },
        stepped(d, e).1 is Finish <==> (stepped(d, e).0.phase == DownloadPhase::Over && d.phase
            != DownloadPhase::Over),
{
}

/// The number of bytes received never falls.
pub proof fn law_progress_never_falls(d: DownloadView, e: DownloadEventView)
    requires
        e matches DownloadEventView::Chunk(n) ==> d.downloaded + n <= u64::MAX,
    ensures
        d.downloaded <= stepped(d, e).0.downloaded,
{
}

/// The course of a download through a series of events: its state and the last action.
pub open spec fn course(d: DownloadView, events: Seq<DownloadEventView>) -> (
    DownloadView,
    DownloadActionView,
)
    decreases events.len(),
{
    if events.len() == 0 {
        (d, DownloadActionView::Perform(d.phase))
    } else {
        stepped(course(d, events.drop_last()).0, events.last())
    }
}

/// The sum of the sizes.
pub open spec fn total_size(sizes: Seq<u64>) -> nat
    decreases sizes.len(),
{
    if sizes.len() == 0 {
        0
    } else {
        total_size(sizes.drop_last()) + sizes.last() as nat
    }
}

/// The events of a download that nothing disturbs, up to the end of the file.
pub open spec fn smooth_events(header: Option<Seq<char>>, sizes: Seq<u64>) -> Seq<DownloadEventView>
    decreases sizes.len(),
{
    if sizes.len() == 0 {
        seq![
            DownloadEventView::Done,
            DownloadEventView::Done,
            DownloadEventView::Length(header),
            DownloadEventView::Done,
            DownloadEventView::Done,
        ]
    } else {
        smooth_events(header, sizes.drop_last()).push(DownloadEventView::Chunk(sizes.last())).push(
            DownloadEventView::Done,
        ).push(DownloadEventView::Noted { cancelled: false })
    }
}

proof fn lemma_course_push(d: DownloadView, events: Seq<DownloadEventView>, e: DownloadEventView)
    ensures
        course(d, events.push(e)) == stepped(course(d, events).0, e),
{
    assert(events.push(e).drop_last() =~= events);
}

proof fn lemma_smooth_course(
    model_id: Seq<char>,
    url: Seq<char>,
    header: Option<Seq<char>>,
    sizes: Seq<u64>,
)
    requires
        total_size(sizes) <= u64::MAX,
    ensures
        course(fresh(model_id, url), smooth_events(header, sizes)).0 == (DownloadView {
            total: named_length(header),
            downloaded: total_size(sizes) as u64,
            phase: DownloadPhase::Read,
            ..fresh(model_id, url)
        }),
    decreases sizes.len(),
{
    let d = fresh(model_id, url);
    if sizes.len() == 0 {
        let e = Seq::<DownloadEventView>::empty();
        let e1 = e.push(DownloadEventView::Done);
        let e2 = e1.push(DownloadEventView::Done);
        let e3 = e2.push(DownloadEventView::Length(header));
        let e4 = e3.push(DownloadEventView::Done);
        let e5 = e4.push(DownloadEventView::Done);
        lemma_course_push(d, e, DownloadEventView::Done);
        lemma_course_push(d, e1, DownloadEventView::Done);
        lemma_course_push(d, e2, DownloadEventView::Length(header));
        lemma_course_push(d, e3, DownloadEventView::Done);
        lemma_course_push(d, e4, DownloadEventView::Done);
        assert(smooth_events(header, sizes) =~= e5);
    } else {
        lemma_smooth_course(model_id, url, header, sizes.drop_last());
        let e = smooth_events(header, sizes.drop_last());
        let e1 = e.push(DownloadEventView::Chunk(sizes.last()));
        let e2 = e1.push(DownloadEventView::Done);
        lemma_course_push(d, e, DownloadEventView::Chunk(sizes.last()));
        lemma_course_push(d, e1, DownloadEventView::Done);
        lemma_course_push(d, e2, DownloadEventView::Noted { cancelled: false });
    }
}

/// A download that nothing disturbs completes, and its status counts every byte
/// received and the length that the server named.
pub proof fn law_undisturbed_download_completes(
    model_id: Seq<char>,
    url: Seq<char>,
    header: Option<Seq<char>>,
    sizes: Seq<u64>,
)
    requires
        total_size(sizes) <= u64::MAX,
    ensures
        course(
            fresh(model_id, url),
            smooth_events(header, sizes).push(DownloadEventView::End),
        ).1 == (DownloadActionView::Finish {
            status: engine::DownloadStatusView {
                provider_id: PROVIDER_ID@,
                model_id,
                state: DownloadState::Completed,
                bytes_total: named_length(header),
                bytes_downloaded: Some(total_size(sizes) as u64),
                error: None,
            },
            remove_file: false,
        }),
{
    lemma_smooth_course(model_id, url, header, sizes);
    lemma_course_push(
        fresh(model_id, url),
        smooth_events(header, sizes),
        DownloadEventView::End,
    );
}

/// The phases of a download follow one another, and each leaves what is known of the
/// download as it was; reading, writing and noting the progress go round in a circle.
pub proof fn law_phases_follow_one_another(d: DownloadView)
    ensures
        d.phase == DownloadPhase::CreateDir ==> stepped(d, DownloadEventView::Done) == (
            (DownloadView {
                model_id: d.model_id,
                file_name: d.file_name,
                total: d.total,
                downloaded: d.downloaded,
                phase: DownloadPhase::BuildClient,
            }),
            DownloadActionView::Perform(DownloadPhase::BuildClient),
        ),
        d.phase == DownloadPhase::BuildClient ==> stepped(d, DownloadEventView::Done) == (
            (DownloadView {
                model_id: d.model_id,
                file_name: d.file_name,
                total: d.total,
                downloaded: d.downloaded,
                phase: DownloadPhase::AskLength,
            }),
            DownloadActionView::Perform(DownloadPhase::AskLength),
        ),
        d.phase == DownloadPhase::Request ==> stepped(d, DownloadEventView::Done) == (
            (DownloadView {
                model_id: d.model_id,
                file_name: d.file_name,
                total: d.total,
                downloaded: d.downloaded,
                phase: DownloadPhase::CreateFile,
            }),
            DownloadActionView::Perform(DownloadPhase::CreateFile),
        ),
        d.phase == DownloadPhase::CreateFile ==> stepped(d, DownloadEventView::Done) == (
            (DownloadView {
                model_id: d.model_id,
                file_name: d.file_name,
                total: d.total,
                downloaded: d.downloaded,
                phase: DownloadPhase::Read,
            }),
            DownloadActionView::Perform(DownloadPhase::Read),
        ),
        d.phase == DownloadPhase::Write ==> stepped(d, DownloadEventView::Done) == (
            (DownloadView {
                model_id: d.model_id,
                file_name: d.file_name,
                total: d.total,
                downloaded: d.downloaded,
                phase: DownloadPhase::Report,
            }),
            DownloadActionView::Perform(DownloadPhase::Report),
        ),
        d.phase == DownloadPhase::Report ==> stepped(d, (DownloadEventView::Noted { cancelled: false })) == (
            (DownloadView {
                model_id: d.model_id,
                file_name: d.file_name,
                total: d.total,
                downloaded: d.downloaded,
                phase: DownloadPhase::Read,
            }),
            DownloadActionView::Perform(DownloadPhase::Read),
        ),
{
}

/// A part that is received is counted before it is written.
pub proof fn law_received_bytes_are_counted(d: DownloadView, n: u64)
    requires
        d.downloaded + n <= u64::MAX,
    ensures
        d.phase == DownloadPhase::Read ==> stepped(d, DownloadEventView::Chunk(n)) == (
            (DownloadView {
                model_id: d.model_id,
                file_name: d.file_name,
                total: d.total,
                downloaded: (d.downloaded + n) as u64,
                phase: DownloadPhase::Write,
            }),
            DownloadActionView::Perform(DownloadPhase::Write),
        ),
        d.phase == DownloadPhase::Read ==> stepped(d, DownloadEventView::Chunk(n)).0.downloaded
            == d.downloaded + n,
{
}

/// The length that the server names is noted as the total, where it is a number that
/// fits; a text that ends with no digit counts as no length.
pub proof fn law_named_length_is_the_total(d: DownloadView, n: u64, text: Seq<char>)
    requires
        d.phase == DownloadPhase::AskLength,
        text.len() > 0,
        !('0' <= text.last() && text.last() <= '9'),
    ensures
        stepped(d, DownloadEventView::Length(Some(strings::decimal(n as nat)))).0 == (DownloadView {
            model_id: d.model_id,
            file_name: d.file_name,
            total: Some(n),
            downloaded: d.downloaded,
            phase: DownloadPhase::Request,
        }),
        stepped(d, DownloadEventView::Length(None)).0.total is None,
        stepped(d, DownloadEventView::Length(Some(text))).0.total is None,
        forall|header: Option<Seq<char>>|
            (#[trigger] stepped(d, DownloadEventView::Length(header))).1
                == DownloadActionView::Perform(DownloadPhase::Request),
{
    strings::law_numbers_read_back(n as nat);
    let front = text.drop_last();
    assert(front.push(text.last()) =~= text);
    if front.len() > 0 {
        strings::law_reading_goes_digit_by_digit(front, text.last());
    } else {
        assert(text[0] == text.last());
    }
}

/// A download completes at the end of the file and counts what it has received.
pub proof fn law_end_of_file_completes(d: DownloadView)
    ensures
        d.phase == DownloadPhase::Read ==> stepped(d, DownloadEventView::End) == (
            (DownloadView {
                model_id: d.model_id,
                file_name: d.file_name,
                total: d.total,
                downloaded: d.downloaded,
                phase: DownloadPhase::Over,
            }),
            (DownloadActionView::Finish {
                status: (engine::DownloadStatusView {
                provider_id: "rapidocr"@,
                model_id: d.model_id,
                state: DownloadState::Completed,
                bytes_total: d.total,
                bytes_downloaded: Some(d.downloaded),
                error: None,
            }),
                remove_file: false,
            }),
        ),
{
}

/// A download that learns that it was cancelled ends so, and its file is removed.
pub proof fn law_cancellation_ends_the_download(d: DownloadView)
    ensures
        d.phase == DownloadPhase::Report ==> stepped(d, (DownloadEventView::Noted { cancelled: true })) == (
            (DownloadView {
                model_id: d.model_id,
                file_name: d.file_name,
                total: d.total,
                downloaded: d.downloaded,
                phase: DownloadPhase::Over,
            }),
            (DownloadActionView::Finish {
                status: (engine::DownloadStatusView {
                provider_id: "rapidocr"@,
                model_id: d.model_id,
                state: DownloadState::Cancelled,
                bytes_total: d.total,
                bytes_downloaded: Some(d.downloaded),
                error: None,
            }),
                remove_file: true,
            }),
        ),
{
}

/// Each step that fails ends the download with a message of its own in front of the
/// reason, and with the byte counts that are known by then. What has been written stays.
pub proof fn law_failures_are_told(d: DownloadView, reason: Seq<char>)
    ensures
        d.phase == DownloadPhase::CreateDir ==> stepped(d, DownloadEventView::Failed(reason)) == (
            (DownloadView {
                model_id: d.model_id,
                file_name: d.file_name,
                total: d.total,
                downloaded: d.downloaded,
                phase: DownloadPhase::Over,
            }),
            (DownloadActionView::Finish {
                status: (engine::DownloadStatusView {
                provider_id: "rapidocr"@,
                model_id: d.model_id,
                state: DownloadState::Failed,
                bytes_total: None,
                bytes_downloaded: None,
                error: Some("create dir: "@ + reason),
            }),
                remove_file: false,
            }),
        ),
        d.phase == DownloadPhase::BuildClient ==> stepped(d, DownloadEventView::Failed(reason)) == (
            (DownloadView {
                model_id: d.model_id,
                file_name: d.file_name,
                total: d.total,
                downloaded: d.downloaded,
                phase: DownloadPhase::Over,
            }),
            (DownloadActionView::Finish {
                status: (engine::DownloadStatusView {
                provider_id: "rapidocr"@,
                model_id: d.model_id,
                state: DownloadState::Failed,
                bytes_total: None,
                bytes_downloaded: None,
                error: Some("build client: "@ + reason),
            }),
                remove_file: false,
            }),
        ),
        d.phase == DownloadPhase::Request ==> stepped(d, DownloadEventView::Failed(reason)) == (
            (DownloadView {
                model_id: d.model_id,
                file_name: d.file_name,
                total: d.total,
                downloaded: d.downloaded,
                phase: DownloadPhase::Over,
            }),
            (DownloadActionView::Finish {
                status: (engine::DownloadStatusView {
                provider_id: "rapidocr"@,
                model_id: d.model_id,
                state: DownloadState::Failed,
                bytes_total: d.total,
                bytes_downloaded: None,
                error: Some("网络请求失败: "@ + reason),
            }),
                remove_file: false,
            }),
        ),
        d.phase == DownloadPhase::CreateFile ==> stepped(d, DownloadEventView::Failed(reason)) == (
            (DownloadView {
                model_id: d.model_id,
                file_name: d.file_name,
                total: d.total,
                downloaded: d.downloaded,
                phase: DownloadPhase::Over,
            }),
            (DownloadActionView::Finish {
                status: (engine::DownloadStatusView {
                provider_id: "rapidocr"@,
                model_id: d.model_id,
                state: DownloadState::Failed,
                bytes_total: d.total,
                bytes_downloaded: None,
                error: Some("create file: "@ + reason),
            }),
                remove_file: false,
            }),
        ),
        d.phase == DownloadPhase::Read ==> stepped(d, DownloadEventView::Failed(reason)) == (
            (DownloadView {
                model_id: d.model_id,
                file_name: d.file_name,
                total: d.total,
                downloaded: d.downloaded,
                phase: DownloadPhase::Over,
            }),
            (DownloadActionView::Finish {
                status: (engine::DownloadStatusView {
                provider_id: "rapidocr"@,
                model_id: d.model_id,
                state: DownloadState::Failed,
                bytes_total: d.total,
                bytes_downloaded: Some(d.downloaded),
                error: Some("download stream: "@ + reason),
            }),
                remove_file: false,
            }),
        ),
        d.phase == DownloadPhase::Write ==> stepped(d, DownloadEventView::Failed(reason)) == (
            (DownloadView {
                model_id: d.model_id,
                file_name: d.file_name,
                total: d.total,
                downloaded: d.downloaded,
                phase: DownloadPhase::Over,
            }),
            (DownloadActionView::Finish {
                status: (engine::DownloadStatusView {
                provider_id: "rapidocr"@,
                model_id: d.model_id,
                state: DownloadState::Failed,
                bytes_total: d.total,
                bytes_downloaded: Some(d.downloaded),
                error: Some("write file: "@ + reason),
            }),
                remove_file: false,
            }),
        ),
{
}

/// An event that does not answer what the download waits for changes nothing, and the
/// same is asked for again. A download that is over stays so.
pub proof fn law_stray_event_changes_nothing(d: DownloadView, e: DownloadEventView)
    requires
        match d.phase {
            DownloadPhase::CreateDir => !(e is Done) && !(e is Failed),
            DownloadPhase::BuildClient => !(e is Done) && !(e is Failed),
            DownloadPhase::AskLength => !(e is Length),
            DownloadPhase::Request => !(e is Done) && !(e is Failed),
            DownloadPhase::CreateFile => !(e is Done) && !(e is Failed),
            DownloadPhase::Read => !(e is Chunk) && !(e is Failed) && !(e is End),
            DownloadPhase::Write => !(e is Done) && !(e is Failed),
            DownloadPhase::Report => !(e is Noted),
            DownloadPhase::Over => true,
        },
    ensures
        stepped(d, e) == (d, DownloadActionView::Perform(d.phase)),
{
}

/// A download begins with nothing received, and its file is called like the last part of
/// the address.
pub proof fn law_download_begins_with_nothing(
    model_id: Seq<char>,
    front: Seq<char>,
    name: Seq<char>,
)
    requires
        forall|i: int| 0 <= i < name.len() ==> #[trigger] name[i] != '/',
    ensures
        fresh(model_id, front + seq!['/'] + name) == (DownloadView {
            model_id,
            file_name: name,
            total: None,
            downloaded: 0,
            phase: DownloadPhase::CreateDir,
        }),
{
    strings::law_last_segment_is_behind_the_last_slash(front, name);
}

proof fn lemma_place(list: Seq<engine::DownloadStatusView>, model_id: Seq<char>, i: int)
    requires
        ids_differ(list),
        0 <= i < list.len(),
        list[i].model_id == model_id,
    ensures
        listed(list, model_id),
        place_of(list, model_id) == i,
{
    assert(is_entry(list, model_id, i));
    let p = place_of(list, model_id);
    assert(is_entry(list, model_id, p));
    assert(list[p].model_id == list[i].model_id);
}

proof fn lemma_no_place(list: Seq<engine::DownloadStatusView>, model_id: Seq<char>)
    requires
        forall|i: int| 0 <= i < list.len() ==> (#[trigger] list[i]).model_id != model_id,
    ensures
        !listed(list, model_id),
{
    assert forall|i: int| !is_entry(list, model_id, i) by {
        if 0 <= i < list.len() {
            assert(list[i].model_id != model_id);
        }
    }
}

/// A download that is entered takes the place of the one of the same model file, and
/// goes to the end where there was none; all others stay where they are.
pub proof fn law_entering_replaces_or_appends(
    list: Seq<engine::DownloadStatusView>,
    status: engine::DownloadStatusView,
    i: int,
)
    requires
        ids_differ(list),
    ensures
        0 <= i < list.len() && list[i].model_id == status.model_id ==> entered(list, status)
            == list.update(i, status),
        (forall|k: int| 0 <= k < list.len() ==> (#[trigger] list[k]).model_id != status.model_id)
            ==> entered(list, status) == list.push(status),
{
    if 0 <= i < list.len() && list[i].model_id == status.model_id {
        lemma_place(list, status.model_id, i);
    }
    if forall|k: int| 0 <= k < list.len() ==> (#[trigger] list[k]).model_id != status.model_id {
        lemma_no_place(list, status.model_id);
    }
}

/// Progress is noted with the download of the model file: its byte counts change, the
/// rest of it does not, and no other download does. Without such a download nothing
/// changes.
pub proof fn law_progress_is_noted(
    list: Seq<engine::DownloadStatusView>,
    model_id: Seq<char>,
    downloaded: u64,
    total: Option<u64>,
    i: int,
)
    requires
        ids_differ(list),
    ensures
        0 <= i < list.len() && list[i].model_id == model_id ==> with_progress(
            list,
            model_id,
            downloaded,
            total,
        ) == list.update(
            i,
            (engine::DownloadStatusView {
                provider_id: list[i].provider_id,
                model_id,
                state: list[i].state,
                bytes_total: total,
                bytes_downloaded: Some(downloaded),
                error: list[i].error,
            }),
        ),
        (forall|k: int| 0 <= k < list.len() ==> (#[trigger] list[k]).model_id != model_id)
            ==> with_progress(list, model_id, downloaded, total) == list,
{
    if 0 <= i < list.len() && list[i].model_id == model_id {
        lemma_place(list, model_id, i);
    }
    if forall|k: int| 0 <= k < list.len() ==> (#[trigger] list[k]).model_id != model_id {
        lemma_no_place(list, model_id);
    }
}

/// A download counts as cancelled exactly where the list holds it as cancelled.
pub proof fn law_cancellation_is_found(
    list: Seq<engine::DownloadStatusView>,
    model_id: Seq<char>,
    i: int,
)
    requires
        ids_differ(list),
    ensures
        0 <= i < list.len() && list[i].model_id == model_id ==> (is_cancelled(list, model_id)
            <==> list[i].state == DownloadState::Cancelled),
        (forall|k: int| 0 <= k < list.len() ==> (#[trigger] list[k]).model_id != model_id)
            ==> !is_cancelled(list, model_id),
{
    if 0 <= i < list.len() && list[i].model_id == model_id {
        lemma_place(list, model_id, i);
    }
    if forall|k: int| 0 <= k < list.len() ==> (#[trigger] list[k]).model_id != model_id {
        lemma_no_place(list, model_id);
    }
}

/// Cancelling changes no download but those in progress, and of these only the state.
pub proof fn law_cancelling_changes_the_state_only(list: Seq<engine::DownloadStatusView>, i: int)
    requires
        0 <= i < list.len(),
    ensures
        all_stopped(list).len() == list.len(),
        all_stopped(list)[i] == (engine::DownloadStatusView {
            provider_id: list[i].provider_id,
            model_id: list[i].model_id,
            state: if list[i].state == DownloadState::InProgress {
                DownloadState::Cancelled
            } else {
                list[i].state
            },
            bytes_total: list[i].bytes_total,
            bytes_downloaded: list[i].bytes_downloaded,
            error: list[i].error,
        }),
{
}

} // verus!
