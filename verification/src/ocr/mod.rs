//! Recognition of the text on the screen.
//!
//! `active_engine` chooses the engine by the preferences, and `ScreenReading` is the
//! course from a capture of the screen to its text.

use vstd::prelude::*;

use crate::ocr::clean::screen_text_of;
use crate::ocr::disabled::DisabledOcrEngine;
use crate::ocr::download::DownloadTable;
use crate::ocr::engine::OcrError;
use crate::ocr::rapidocr::RapidOcrEngine;
use crate::ocr::winrt::WinRtOcrEngine;
use crate::strings;
use crate::strings::{concat2, decimal_string, same_text};
use crate::types;
use crate::types::{Platform, UserPreferences};

pub mod capture;
pub mod clean;
pub mod disabled;
pub mod download;
pub mod engine;
pub mod preprocess;
pub mod rapidocr;
pub mod recognition;
pub mod scaling;
pub mod winrt;

pub use crate::ocr::engine::{
    DownloadState, DownloadStatus, OcrEngine, OcrLine, OcrProvider, OcrResult,
};

verus! {

// ---------------------------------------------------------------------------
// The choice of an engine
// ---------------------------------------------------------------------------

/// The engine in use.
#[derive(Debug, Clone)]
pub enum ActiveEngine {
    Disabled(DisabledOcrEngine),
    WinRt(WinRtOcrEngine),
    RapidOcr(RapidOcrEngine),
}

impl OcrEngine for ActiveEngine {
    open spec fn id(&self) -> Seq<char> {
        match self {
            ActiveEngine::Disabled(e) => e.id(),
            ActiveEngine::WinRt(e) => e.id(),
            ActiveEngine::RapidOcr(e) => e.id(),
        }
    }

    open spec fn wants_download(&self) -> bool {
        match self {
            ActiveEngine::Disabled(e) => e.wants_download(),
            ActiveEngine::WinRt(e) => e.wants_download(),
            ActiveEngine::RapidOcr(e) => e.wants_download(),
        }
    }

    open spec fn reported(&self, table: Seq<engine::DownloadStatusView>) -> Option<
        Seq<engine::DownloadStatusView>,
    > {
        match self {
            ActiveEngine::Disabled(e) => e.reported(table),
            ActiveEngine::WinRt(e) => e.reported(table),
            ActiveEngine::RapidOcr(e) => e.reported(table),
        }
    }

    fn provider_id(&self) -> (id: &str) {
        match self {
            ActiveEngine::Disabled(e) => e.provider_id(),
            ActiveEngine::WinRt(e) => e.provider_id(),
            ActiveEngine::RapidOcr(e) => e.provider_id(),
        }
    }

    fn requires_download(&self) -> (r: bool) {
        match self {
            ActiveEngine::Disabled(e) => e.requires_download(),
            ActiveEngine::WinRt(e) => e.requires_download(),
            ActiveEngine::RapidOcr(e) => e.requires_download(),
        }
    }

    fn download_status(&self, table: &DownloadTable) -> (r: Option<Vec<DownloadStatus>>) {
        match self {
            ActiveEngine::Disabled(e) => e.download_status(table),
            ActiveEngine::WinRt(e) => e.download_status(table),
            ActiveEngine::RapidOcr(e) => e.download_status(table),
        }
    }
}

/// `e` is the engine for these preferences: none while the screen is not read, else the
/// one that the preferences name, and none where they name no known one. The engine of
/// Windows is known on Windows only.
pub open spec fn is_active(
    e: ActiveEngine,
    prefs: types::UserPreferencesView,
    platform: Platform,
) -> bool {
    if !prefs.screen_context_enabled {
        e is Disabled
    } else if prefs.active_ocr_provider == winrt::PROVIDER_ID@ && platform == Platform::Windows {
        e is WinRt
    } else if prefs.active_ocr_provider == download::PROVIDER_ID@ {
        e matches ActiveEngine::RapidOcr(r) && r.models_dir@ == rapidocr::models_dir(
            prefs.ocr_models_base_dir,
        )
    } else {
        e is Disabled
    }
}

/// The engine for these preferences.
pub fn active_engine(prefs: &UserPreferences, platform: Platform) -> (e: ActiveEngine)
    ensures
        is_active(e, prefs@, platform),
{
    if !prefs.screen_context_enabled {
        return ActiveEngine::Disabled(DisabledOcrEngine);
    }
    let provider = prefs.active_ocr_provider.as_str();
    if same_text(provider, winrt::PROVIDER_ID) && platform == Platform::Windows {
        ActiveEngine::WinRt(WinRtOcrEngine::new())
    } else if same_text(provider, download::PROVIDER_ID) {
        ActiveEngine::RapidOcr(RapidOcrEngine::new(prefs))
    } else {
        ActiveEngine::Disabled(DisabledOcrEngine)
    }
}

/// The choice to recognize nothing, as the settings offer it.
pub open spec fn disabled_provider() -> engine::OcrProviderView {
    engine::OcrProviderView {
        id: disabled::PROVIDER_ID@,
        name: "关闭"@,
        description: "不注入屏幕上下文"@,
        local: true,
        requires_download: false,
        supported_platforms: seq!["windows"@, "macos"@, "linux"@],
    }
}

/// The choices that the settings offer.
pub open spec fn providers(platform: Platform) -> Seq<engine::OcrProviderView> {
    if platform == Platform::Windows {
        seq![disabled_provider(), rapidocr::provider(), winrt::provider()]
    } else {
        seq![disabled_provider(), rapidocr::provider()]
    }
}

/// The choices that the settings offer.
pub fn available_providers(platform: Platform) -> (list: Vec<OcrProvider>)
    ensures
        engine::provider_views(list@) == providers(platform),
{
    let platforms = vec!["windows".to_string(), "macos".to_string(), "linux".to_string()];
    assert(strings::texts(platforms@) =~= seq!["windows"@, "macos"@, "linux"@]);
    let mut list = vec![
        OcrProvider {
            id: disabled::PROVIDER_ID.to_string(),
            name: "关闭".to_string(),
            description: "不注入屏幕上下文".to_string(),
            local: true,
            requires_download: false,
            supported_platforms: platforms,
        },
    ];
    let mut more = RapidOcrEngine::provider_list();
    assert(engine::provider_views(more@)[0] == rapidocr::provider());
    assert(engine::provider_views(more@).len() == 1);
    list.append(&mut more);
    if platform == Platform::Windows {
        let mut native = WinRtOcrEngine::provider_list();
        assert(engine::provider_views(native@)[0] == winrt::provider());
        assert(engine::provider_views(native@).len() == 1);
        list.append(&mut native);
    }
    assert(engine::provider_views(list@) =~= providers(platform));
    list
}

// ---------------------------------------------------------------------------
// From the screen to its text
// ---------------------------------------------------------------------------

/// What a reading of the screen waits for.
#[derive(Debug, Clone, Copy, PartialEq, Eq, Structural)]
pub enum ReadingPhase {
    /// The screen is to be captured.
    Capture,
    /// The capture is to be recognized.
    Recognize,
    /// Nothing is left to do.
    Over,
}

/// What came of the thing that a reading waited for.
#[derive(Debug)]
pub enum ReadingEvent {
    /// The capture ended so.
    Captured(Result<Option<Vec<u8>>, OcrError>),
    /// The task that was to capture the screen broke off, for this reason.
    CapturePanicked(String),
    /// The recognition ended so.
    Recognized(Result<OcrResult, OcrError>),
    /// The task that was to recognize the capture broke off, for this reason.
    RecognitionPanicked(String),
}

/// What is to be done next.
#[derive(Debug)]
pub enum ReadingAction {
    /// Nothing new; the reading still waits for what its phase names.
    Wait(ReadingPhase),
    /// The screen is to be captured.
    Capture,
    /// This image is to be recognized.
    Recognize(Vec<u8>),
    /// The reading is over, with a text, with nothing, or with an error.
    Finish(Result<Option<String>, OcrError>),
}

/// An action, with its contents as sequences.
pub enum ReadingActionView {
    Wait(ReadingPhase),
    Capture,
    Recognize(Seq<u8>),
    Finish(Result<Option<Seq<char>>, Seq<char>>),
}

impl View for ReadingAction {
    type V = ReadingActionView;

    open spec fn view(&self) -> ReadingActionView {
        match self {
            ReadingAction::Wait(p) => ReadingActionView::Wait(*p),
            ReadingAction::Capture => ReadingActionView::Capture,
            ReadingAction::Recognize(image) => ReadingActionView::Recognize(image@),
            ReadingAction::Finish(Ok(text)) => ReadingActionView::Finish(
                Ok(strings::string_opt(*text)),
            ),
            ReadingAction::Finish(Err(e)) => ReadingActionView::Finish(Err(e@)),
        }
    }
}

/// A reading of the screen under way.
#[derive(Debug, Clone)]
pub struct ScreenReading {
    pub engine: ActiveEngine,
    pub phase: ReadingPhase,
}

/// What a reading with this engine does first: it is over at once where nothing is
/// recognized, and else captures the screen.
pub open spec fn first_action(e: ActiveEngine) -> ReadingActionView {
    if e is Disabled {
        ReadingActionView::Finish(Ok(None))
    } else {
        ReadingActionView::Capture
    }
}

/// What a reading with this engine waits for first.
pub open spec fn first_phase(e: ActiveEngine) -> ReadingPhase {
    if e is Disabled {
        ReadingPhase::Over
    } else {
        ReadingPhase::Capture
    }
}

/// What an event makes of a reading: the next phase and what is to be done. A capture is
/// recognized, and the lines that were recognized are cleaned and joined. A failure is
/// passed on. An event that does not answer what the reading waits for changes nothing.
pub open spec fn read_on(phase: ReadingPhase, e: ReadingEvent) -> (
    ReadingPhase,
    ReadingActionView,
) {
    match (phase, e) {
        (ReadingPhase::Capture, ReadingEvent::Captured(Ok(Some(image)))) => (
            ReadingPhase::Recognize,
            ReadingActionView::Recognize(image@),
        ),
        (ReadingPhase::Capture, ReadingEvent::Captured(Ok(None))) => (
            ReadingPhase::Over,
            ReadingActionView::Finish(Ok(None)),
        ),
        (ReadingPhase::Capture, ReadingEvent::Captured(Err(x))) => (
            ReadingPhase::Over,
            ReadingActionView::Finish(Err(x@)),
        ),
        (ReadingPhase::Capture, ReadingEvent::CapturePanicked(reason)) => (
            ReadingPhase::Over,
            ReadingActionView::Finish(Err("capture task panicked: "@ + reason@)),
        ),
        (ReadingPhase::Recognize, ReadingEvent::Recognized(Ok(result))) => (
            ReadingPhase::Over,
            ReadingActionView::Finish(Ok(clean::screen_text(result@))),
        ),
        (ReadingPhase::Recognize, ReadingEvent::Recognized(Err(x))) => (
            ReadingPhase::Over,
            ReadingActionView::Finish(Err(x@)),
        ),
        (ReadingPhase::Recognize, ReadingEvent::RecognitionPanicked(reason)) => (
            ReadingPhase::Over,
            ReadingActionView::Finish(Err("ocr task panicked: "@ + reason@)),
        ),
        _ => (phase, ReadingActionView::Wait(phase)),
    }
}

/// A reading of the screen with the engine for these preferences, and what it does
/// first.
pub fn recognize_screen_text(prefs: &UserPreferences, platform: Platform) -> (r: (
    ScreenReading,
    ReadingAction,
))
    ensures
        is_active(r.0.engine, prefs@, platform),
        r.1@ == first_action(r.0.engine),
        r.0.phase == first_phase(r.0.engine),
{
    let engine = active_engine(prefs, platform);
    if let ActiveEngine::Disabled(_) = engine {
        return (
            ScreenReading { engine, phase: ReadingPhase::Over },
            ReadingAction::Finish(Ok(None)),
        );
    }
    if engine.requires_download() {
        if let Err(e) = engine.ensure_model_downloaded() {
            return (
                ScreenReading { engine, phase: ReadingPhase::Over },
                ReadingAction::Finish(Err(e)),
            );
        }
    }
    (ScreenReading { engine, phase: ReadingPhase::Capture }, ReadingAction::Capture)
}

impl ScreenReading {
    /// Takes in what came of the thing that the reading waited for, and says what is to
    /// be done next.
    pub fn step(&mut self, event: ReadingEvent) -> (action: ReadingAction)
        ensures
            final(self).engine == old(self).engine,
            (final(self).phase, action@) == read_on(old(self).phase, event),
    {
        let phase = self.phase;
        match (phase, event) {
            (ReadingPhase::Capture, ReadingEvent::Captured(Ok(Some(image)))) => {
                self.phase = ReadingPhase::Recognize;
                ReadingAction::Recognize(image)
            },
            (ReadingPhase::Capture, ReadingEvent::Captured(Ok(None))) => {
                self.phase = ReadingPhase::Over;
                ReadingAction::Finish(Ok(None))
            },
            (ReadingPhase::Capture, ReadingEvent::Captured(Err(e))) => {
                self.phase = ReadingPhase::Over;
                ReadingAction::Finish(Err(e))
            },
            (ReadingPhase::Capture, ReadingEvent::CapturePanicked(reason)) => {
                self.phase = ReadingPhase::Over;
                let message = concat2("capture task panicked: ", reason.as_str());
                ReadingAction::Finish(Err(OcrError { message }))
            },
            (ReadingPhase::Recognize, ReadingEvent::Recognized(Ok(result))) => {
                self.phase = ReadingPhase::Over;
                ReadingAction::Finish(Ok(screen_text_of(&result)))
            },
            (ReadingPhase::Recognize, ReadingEvent::Recognized(Err(e))) => {
                self.phase = ReadingPhase::Over;
                ReadingAction::Finish(Err(e))
            },
            (ReadingPhase::Recognize, ReadingEvent::RecognitionPanicked(reason)) => {
                self.phase = ReadingPhase::Over;
                let message = concat2("ocr task panicked: ", reason.as_str());
                ReadingAction::Finish(Err(OcrError { message }))
            },
            _ => ReadingAction::Wait(phase),
        }
    }
}

// ---------------------------------------------------------------------------
// Keeping captures for inspection
// ---------------------------------------------------------------------------

/// The directory, beside that of the logs, in which captures are kept for inspection.
pub const DEBUG_DIR: &'static str = "ocr_debug";

/// Whether captures are kept for inspection, by the value of the variable
/// `OPENLESS_OCR_DEBUG`.
pub fn debug_wanted(var: Option<&str>) -> (r: bool)
    ensures
        r == (strings::text_opt(var) == Some("1"@)),
{
    match var {
        Some(text) => same_text(text, "1"),
        None => false,
    }
}

/// The names under which a capture and its text are kept, by the milliseconds since the
/// epoch.
pub fn debug_file_names(millis: u128) -> (r: (String, String))
    ensures
        r.0@ == strings::decimal(millis as nat) + "_capture.png"@,
        r.1@ == strings::decimal(millis as nat) + "_ocr.txt"@,
{
    let stamp = decimal_string(millis);
    (concat2(stamp.as_str(), "_capture.png"), concat2(stamp.as_str(), "_ocr.txt"))
}

// ---------------------------------------------------------------------------
// Laws
// ---------------------------------------------------------------------------

/// While the screen is not to be read, or the preferences name no known engine, nothing
/// is captured.
pub proof fn law_nothing_is_captured_while_disabled(
    e: ActiveEngine,
    prefs: types::UserPreferencesView,
    platform: Platform,
)
    requires
        is_active(e, prefs, platform),
        !prefs.screen_context_enabled || (prefs.active_ocr_provider != winrt::PROVIDER_ID@
            && prefs.active_ocr_provider != download::PROVIDER_ID@),
    ensures
        first_action(e) == ReadingActionView::Finish(Ok(None)),
{
}

/// The engine in use is one of the choices that the settings offer, and needs a download
/// exactly where that choice says so.
pub proof fn law_engine_is_on_offer(
    e: ActiveEngine,
    prefs: types::UserPreferencesView,
    platform: Platform,
)
    requires
        is_active(e, prefs, platform),
    ensures
        exists|i: int|
            0 <= i < providers(platform).len() && (#[trigger] providers(platform)[i]).id == e.id()
                && providers(platform)[i].requires_download == e.wants_download(),
{
    assert(providers(platform)[0] == disabled_provider());
    assert(providers(platform)[1] == rapidocr::provider());
    if platform == Platform::Windows {
        assert(providers(platform)[2] == winrt::provider());
    }
}

/// A text comes out of a reading only where lines were recognized, and then it is never
/// empty.
pub proof fn law_text_comes_from_recognition(phase: ReadingPhase, e: ReadingEvent)
    requires
        read_on(phase, e).1 matches ReadingActionView::Finish(Ok(Some(_))),
    ensures
        phase == ReadingPhase::Recognize,
        e matches ReadingEvent::Recognized(Ok(result)) && read_on(phase, e).1
            == ReadingActionView::Finish(Ok(clean::screen_text(result@))),
        read_on(phase, e).1 matches ReadingActionView::Finish(Ok(Some(text))) && text.len() > 0,
{
    match e {
        ReadingEvent::Recognized(Ok(result)) => {
            clean::law_screen_text_is_not_empty(result@);
        },
        _ => {},
    }
}

/// Which engine the preferences choose: none while the screen is not read; RapidOCR, with
/// the directory of the preferences, where they name it; the engine of Windows where they
/// name it on Windows; and none for any other name.
pub proof fn law_preferences_choose_the_engine(
    e: ActiveEngine,
    prefs: types::UserPreferencesView,
    platform: Platform,
)
    requires
        is_active(e, prefs, platform),
    ensures
        !prefs.screen_context_enabled ==> e is Disabled,
        prefs.screen_context_enabled && prefs.active_ocr_provider == "rapidocr"@ ==> {
            &&& e is RapidOcr
            &&& e->RapidOcr_0.models_dir@.subdir == "rapidocr"@
            &&& prefs.ocr_models_base_dir.len() > 0 ==> e->RapidOcr_0.models_dir@.base == Some(
                prefs.ocr_models_base_dir,
            )
            &&& prefs.ocr_models_base_dir.len() == 0 ==> e->RapidOcr_0.models_dir@.base is None
        },
        prefs.screen_context_enabled && prefs.active_ocr_provider == "winrt"@ ==> (if platform
            == Platform::Windows {
            e is WinRt
        } else {
            e is Disabled
        }),
        prefs.active_ocr_provider != "rapidocr"@ && prefs.active_ocr_provider != "winrt"@
            ==> e is Disabled,
{
    reveal_strlit("rapidocr");
    reveal_strlit("winrt");
    assert("winrt"@.len() == 5 && "rapidocr"@.len() == 8);
}

/// What the engines say of themselves: each has its id, and RapidOCR alone needs a
/// download and reports the downloads of the table.
pub proof fn law_engines_say_what_they_are(
    e: ActiveEngine,
    table: Seq<engine::DownloadStatusView>,
)
    ensures
        e is Disabled ==> e.id() == "disabled"@ && !e.wants_download() && e.reported(table) is None,
        e is WinRt ==> e.id() == "winrt"@ && !e.wants_download() && e.reported(table) is None,
        e is RapidOcr ==> e.id() == "rapidocr"@ && e.wants_download() && e.reported(table) == Some(
            table,
        ),
{
}

/// The settings offer to recognize nothing and to use RapidOCR, and on Windows its own
/// engine as a third choice; RapidOCR alone needs a download.
pub proof fn law_choices_on_offer(platform: Platform)
    ensures
        providers(platform).len() == (if platform is Windows {
            3nat
        } else {
            2nat
        }),
        providers(platform)[0].id == "disabled"@ && !providers(platform)[0].requires_download,
        providers(platform)[1].id == "rapidocr"@ && providers(platform)[1].requires_download,
        platform is Windows ==> providers(platform)[2].id == "winrt"@ && !providers(
            platform,
        )[2].requires_download,
        forall|i: int| 0 <= i < providers(platform).len() ==> (#[trigger] providers(platform)[i]).local,
        providers(platform)[0].supported_platforms == seq!["windows"@, "macos"@, "linux"@],
        providers(platform)[1].supported_platforms == seq!["windows"@, "macos"@, "linux"@],
        platform is Windows ==> providers(platform)[2].supported_platforms == seq!["windows"@],
        providers(platform)[0].name == "关闭"@,
        providers(platform)[1].name == "RapidOCR (PP-OCRv6)"@,
        platform is Windows ==> providers(platform)[2].name == "Windows 原生 OCR"@,
{
}

/// A reading with an engine captures the screen first; without one it is over at once.
pub proof fn law_reading_begins_with_a_capture(e: ActiveEngine)
    ensures
        e is Disabled ==> first_phase(e) == ReadingPhase::Over && first_action(e)
            == ReadingActionView::Finish(Ok(None)),
        e is WinRt || e is RapidOcr ==> first_phase(e) == ReadingPhase::Capture && first_action(e)
            == ReadingActionView::Capture,
{
}

/// A capture that ended with an image is recognized, that very image; one without an
/// image ends the reading without a text, and a failed one ends it with its message.
pub proof fn law_capture_leads_to_recognition(
    next: ReadingPhase,
    e: ReadingEvent,
    action: ReadingAction,
)
    requires
        read_on(ReadingPhase::Capture, e) == (next, action@),
    ensures
        e matches ReadingEvent::Captured(Ok(Some(image))) ==> next == ReadingPhase::Recognize
            && action is Recognize && action->Recognize_0@ == image@,
        e matches ReadingEvent::Captured(Ok(None)) ==> next == ReadingPhase::Over
            && action is Finish && action->Finish_0 is Ok && action->Finish_0->Ok_0 is None,
        e matches ReadingEvent::Captured(Err(x)) ==> next == ReadingPhase::Over && action is Finish
            && action->Finish_0 is Err && action->Finish_0->Err_0@ == x@,
        e matches ReadingEvent::CapturePanicked(reason) ==> next == ReadingPhase::Over
            && action is Finish && action->Finish_0 is Err && action->Finish_0->Err_0@
            == "capture task panicked: "@ + reason@,
        e is Recognized || e is RecognitionPanicked ==> next == ReadingPhase::Capture && action
            == ReadingAction::Wait(ReadingPhase::Capture),
{
}

/// A recognition that ended well ends the reading with the text of its lines, or without
/// one where no line is kept; a failed one ends it with its message. A reading that is
/// over stays so.
pub proof fn law_recognition_ends_the_reading(
    next: ReadingPhase,
    e: ReadingEvent,
    action: ReadingAction,
)
    requires
        read_on(ReadingPhase::Recognize, e) == (next, action@),
    ensures
        e matches ReadingEvent::Recognized(Ok(result)) ==> {
            &&& next == ReadingPhase::Over
            &&& action is Finish && action->Finish_0 is Ok
            &&& action->Finish_0->Ok_0 is Some <==> clean::cleaned_lines(result@).len() > 0
            &&& action->Finish_0->Ok_0 is Some ==> clean::screen_text(result@) == Some(
                action->Finish_0->Ok_0->Some_0@,
            )
        },
        e matches ReadingEvent::Recognized(Err(x)) ==> next == ReadingPhase::Over
            && action is Finish && action->Finish_0 is Err && action->Finish_0->Err_0@ == x@,
        e matches ReadingEvent::RecognitionPanicked(reason) ==> next == ReadingPhase::Over
            && action is Finish && action->Finish_0 is Err && action->Finish_0->Err_0@
            == "ocr task panicked: "@ + reason@,
        e is Captured || e is CapturePanicked ==> next == ReadingPhase::Recognize && action
            == ReadingAction::Wait(ReadingPhase::Recognize),
        read_on(ReadingPhase::Over, e) == (
            ReadingPhase::Over,
            ReadingActionView::Wait(ReadingPhase::Over),
        ),
{
}

} // verus!
