//! The OCR engine that Windows brings along.

use vstd::prelude::*;

use crate::ocr::download::DownloadTable;
use crate::ocr::engine;
use crate::ocr::engine::{DownloadStatus, OcrEngine, OcrError, OcrLine, OcrProvider, OcrResult};
use crate::strings;
use crate::strings::{concat2, concat3};

verus! {

/// The id of the engine of Windows.
pub const PROVIDER_ID: &'static str = "winrt";

/// The language that is asked for first.
pub const PREFERRED_LANGUAGE: &'static str = "zh-Hans-CN";

/// The engine of Windows.
#[derive(Debug, Clone, Copy, PartialEq, Eq, Structural)]
pub struct WinRtOcrEngine;

/// The engine of Windows as the settings offer it.
pub open spec fn provider() -> engine::OcrProviderView {
    engine::OcrProviderView {
        id: PROVIDER_ID@,
        name: "Windows 原生 OCR"@,
        description:
            "调用 Windows 10/11 内置的 Windows.Media.Ocr，无需下载模型，依赖系统已安装的 OCR 语言包"@,
        local: true,
        requires_download: false,
        supported_platforms: seq!["windows"@],
    }
}

impl WinRtOcrEngine {
    /// The engine.
    pub fn new() -> (e: WinRtOcrEngine)
        ensures
            e == WinRtOcrEngine,
    {
        WinRtOcrEngine
    }

    /// The engine of Windows as the settings offer it.
    pub fn provider_list() -> (list: Vec<OcrProvider>)
        ensures
            engine::provider_views(list@) == seq![provider()],
    {
        let platforms = vec!["windows".to_string()];
        assert(strings::texts(platforms@) =~= seq!["windows"@]);
        let list = vec![
            OcrProvider {
                id: PROVIDER_ID.to_string(),
                name: "Windows 原生 OCR".to_string(),
                description:
                    "调用 Windows 10/11 内置的 Windows.Media.Ocr，无需下载模型，依赖系统已安装的 OCR 语言包".to_string(),
                local: true,
                requires_download: false,
                supported_platforms: platforms,
            },
        ];
        assert(engine::provider_views(list@) =~= seq![provider()]);
        list
    }
}

impl Default for WinRtOcrEngine {
    fn default() -> (e: WinRtOcrEngine)
        ensures
            e == WinRtOcrEngine,
    {
        WinRtOcrEngine::new()
    }
}

impl OcrEngine for WinRtOcrEngine {
    open spec fn id(&self) -> Seq<char> {
        PROVIDER_ID@
    }

    open spec fn wants_download(&self) -> bool {
        false
    }

    open spec fn reported(&self, table: Seq<engine::DownloadStatusView>) -> Option<
        Seq<engine::DownloadStatusView>,
    > {
        None
    }

    fn provider_id(&self) -> (id: &str) {
        PROVIDER_ID
    }

    fn requires_download(&self) -> (r: bool) {
        false
    }

    fn download_status(&self, _table: &DownloadTable) -> (r: Option<Vec<DownloadStatus>>) {
        None
    }
}

// ---------------------------------------------------------------------------
// The course of a recognition
// ---------------------------------------------------------------------------

/// What a recognition waits for.
#[derive(Debug, Clone, Copy, PartialEq, Eq, Structural)]
pub enum WinRtPhase {
    /// The image is to be decoded to a bitmap.
    Decode,
    /// A recognizer for the preferred language is to be created.
    PreferredLanguage,
    /// A recognizer for the languages of the user's profile is to be created.
    ProfileLanguages,
    /// The bitmap is to be recognized.
    Recognize,
    /// Nothing is left to do.
    Over,
}

/// A recognition under way.
#[derive(Debug, Clone)]
pub struct WinRtRecognition {
    pub phase: WinRtPhase,
    /// Why there is no recognizer for the preferred language; empty before that is known.
    pub preferred_error: String,
}

/// A recognition under way, with its text as a sequence of characters.
pub struct WinRtRecognitionView {
    pub phase: WinRtPhase,
    pub preferred_error: Seq<char>,
}

impl View for WinRtRecognition {
    type V = WinRtRecognitionView;

    open spec fn view(&self) -> WinRtRecognitionView {
        WinRtRecognitionView { phase: self.phase, preferred_error: self.preferred_error@ }
    }
}

/// What came of the thing that a recognition waited for.
#[derive(Debug, Clone)]
pub enum WinRtEvent {
    /// It was done.
    Done,
    /// It failed, for this reason.
    Failed(String),
    /// The bitmap was recognized as these lines.
    Lines(Vec<String>),
}

/// An event, with its texts as sequences of characters.
pub enum WinRtEventView {
    Done,
    Failed(Seq<char>),
    Lines(Seq<Seq<char>>),
}

impl View for WinRtEvent {
    type V = WinRtEventView;

    open spec fn view(&self) -> WinRtEventView {
        match self {
            WinRtEvent::Done => WinRtEventView::Done,
            WinRtEvent::Failed(e) => WinRtEventView::Failed(e@),
            WinRtEvent::Lines(lines) => WinRtEventView::Lines(strings::texts(lines@)),
        }
    }
}

/// What is to be done next.
#[derive(Debug)]
pub enum WinRtAction {
    /// The thing that the phase names.
    Perform(WinRtPhase),
    /// The recognition is over with this result.
    Finish(Result<OcrResult, OcrError>),
}

/// An action, with its texts as sequences of characters.
pub enum WinRtActionView {
    Perform(WinRtPhase),
    Finish(Result<Seq<engine::OcrLineView>, Seq<char>>),
}

impl View for WinRtAction {
    type V = WinRtActionView;

    open spec fn view(&self) -> WinRtActionView {
        match self {
            WinRtAction::Perform(p) => WinRtActionView::Perform(*p),
            WinRtAction::Finish(r) => WinRtActionView::Finish(engine::outcome(*r)),
        }
    }
}

/// Lines without a confidence.
pub open spec fn unrated(lines: Seq<Seq<char>>) -> Seq<engine::OcrLineView> {
    Seq::new(
        lines.len(),
        |i: int| engine::OcrLineView { text: lines[i], confidence: None },
    )
}

/// The message where Windows has no recognizer to offer.
pub open spec fn language_missing(preferred: Seq<char>, profile: Seq<char>) -> Seq<char> {
    "winrtChineseOcrLanguageMissing: WinRT OCR cannot create a recognition engine for zh-Hans-CN ("@
        + preferred + ") or user profile languages ("@ + (profile
        + "); install the Chinese OCR language pack"@)
}

/// The recognition goes on to `phase`.
pub open spec fn going_on(w: WinRtRecognitionView, phase: WinRtPhase) -> (
    WinRtRecognitionView,
    WinRtActionView,
) {
    (WinRtRecognitionView { phase, ..w }, WinRtActionView::Perform(phase))
}

/// The recognition is over.
pub open spec fn ending(
    w: WinRtRecognitionView,
    result: Result<Seq<engine::OcrLineView>, Seq<char>>,
) -> (WinRtRecognitionView, WinRtActionView) {
    (WinRtRecognitionView { phase: WinRtPhase::Over, ..w }, WinRtActionView::Finish(result))
}

/// What an event makes of a recognition. A recognizer for the preferred language is
/// tried first, then one for the languages of the user's profile; where neither can be
/// had the error tells both reasons. Any other failure is passed on. An event that does
/// not answer what the recognition waits for changes nothing.
pub open spec fn stepped(w: WinRtRecognitionView, e: WinRtEventView) -> (
    WinRtRecognitionView,
    WinRtActionView,
) {
    match (w.phase, e) {
        (WinRtPhase::Decode, WinRtEventView::Done) => going_on(w, WinRtPhase::PreferredLanguage),
        (WinRtPhase::Decode, WinRtEventView::Failed(reason)) => ending(w, Err(reason)),
        (WinRtPhase::PreferredLanguage, WinRtEventView::Done) => going_on(
            w,
            WinRtPhase::Recognize,
        ),
        (WinRtPhase::PreferredLanguage, WinRtEventView::Failed(reason)) => going_on(
            WinRtRecognitionView { preferred_error: reason, ..w },
            WinRtPhase::ProfileLanguages,
        ),
        (WinRtPhase::ProfileLanguages, WinRtEventView::Done) => going_on(w, WinRtPhase::Recognize),
        (WinRtPhase::ProfileLanguages, WinRtEventView::Failed(reason)) => ending(
            w,
            Err(language_missing(w.preferred_error, reason)),
        ),
        (WinRtPhase::Recognize, WinRtEventView::Failed(reason)) => ending(w, Err(reason)),
        (WinRtPhase::Recognize, WinRtEventView::Lines(lines)) => ending(w, Ok(unrated(lines))),
        _ => going_on(w, w.phase),
    }
}

impl WinRtRecognition {
    /// A recognition that has not begun.
    pub fn new() -> (w: WinRtRecognition)
        ensures
            w@ == (WinRtRecognitionView { phase: WinRtPhase::Decode, preferred_error: Seq::empty() }),
    {
        let w = WinRtRecognition { phase: WinRtPhase::Decode, preferred_error: String::new() };
        assert(w@.preferred_error =~= Seq::<char>::empty());
        w
    }

    fn go_on(&mut self, phase: WinRtPhase) -> (action: WinRtAction)
        ensures
            (final(self)@, action@) == going_on(old(self)@, phase),
    {
        self.phase = phase;
        WinRtAction::Perform(phase)
    }

    fn fail(&mut self, message: String) -> (action: WinRtAction)
        ensures
            (final(self)@, action@) == ending(old(self)@, Err(message@)),
    {
        self.phase = WinRtPhase::Over;
        WinRtAction::Finish(Err(OcrError { message }))
    }

    /// Takes in what came of the thing that the recognition waited for, and says what is
    /// to be done next.
    pub fn step(&mut self, event: WinRtEvent) -> (action: WinRtAction)
        ensures
            (final(self)@, action@) == stepped(old(self)@, event@),
    {
        let phase = self.phase;
        match (phase, event) {
            (WinRtPhase::Decode, WinRtEvent::Done) => self.go_on(WinRtPhase::PreferredLanguage),
            (WinRtPhase::Decode, WinRtEvent::Failed(reason)) => self.fail(reason),
            (WinRtPhase::PreferredLanguage, WinRtEvent::Done) => self.go_on(WinRtPhase::Recognize),
            (WinRtPhase::PreferredLanguage, WinRtEvent::Failed(reason)) => {
                self.preferred_error = reason;
                self.go_on(WinRtPhase::ProfileLanguages)
            },
            (WinRtPhase::ProfileLanguages, WinRtEvent::Done) => self.go_on(WinRtPhase::Recognize),
            (WinRtPhase::ProfileLanguages, WinRtEvent::Failed(reason)) => {
                let front = concat3(
                    "winrtChineseOcrLanguageMissing: WinRT OCR cannot create a recognition engine for zh-Hans-CN (",
                    self.preferred_error.as_str(),
                    ") or user profile languages (",
                );
                let back = concat2(reason.as_str(), "); install the Chinese OCR language pack");
                let message = concat2(front.as_str(), back.as_str());
                self.fail(message)
            },
            (WinRtPhase::Recognize, WinRtEvent::Failed(reason)) => self.fail(reason),
            (WinRtPhase::Recognize, WinRtEvent::Lines(lines)) => {
                self.phase = WinRtPhase::Over;
                WinRtAction::Finish(Ok(unrated_lines(&lines)))
            },
            _ => self.go_on(phase),
        }
    }
}

/// Lines without a confidence.
fn unrated_lines(texts: &Vec<String>) -> (r: OcrResult)
    ensures
        r@ == unrated(strings::texts(texts@)),
{
    let mut lines: Vec<OcrLine> = Vec::new();
    let n: usize = texts.len();
    let mut i: usize = 0;
    while i < n
        invariant
            i <= n,
            n == texts@.len(),
            lines@.len() == i,
            forall|k: int|
                0 <= k < i ==> (#[trigger] lines@[k])@ == (engine::OcrLineView {
                    text: texts@[k]@,
                    confidence: None,
                }),
        decreases n - i,
    {
        lines.push(OcrLine { text: texts[i].clone(), confidence: None });
        i += 1;
    }
    let r = OcrResult { lines };
    assert(r@ =~= unrated(strings::texts(texts@)));
    r
}

/// The recognition fails for want of a language only after both kinds of recognizer
/// have been tried, and then the message carries its mark and both reasons.
pub proof fn law_missing_language_tells_both_reasons(
    w: WinRtRecognitionView,
    preferred: Seq<char>,
    profile: Seq<char>,
)
    requires
        w.phase == WinRtPhase::PreferredLanguage,
    ensures
        ({
            let (next, action) = stepped(w, WinRtEventView::Failed(preferred));
            &&& action == WinRtActionView::Perform(WinRtPhase::ProfileLanguages)
            &&& stepped(next, WinRtEventView::Done).1 == WinRtActionView::Perform(
                WinRtPhase::Recognize,
            )
            &&& stepped(next, WinRtEventView::Failed(profile)).1 == WinRtActionView::Finish(
                Err(language_missing(preferred, profile)),
            )
        }),
        strings::begins(language_missing(preferred, profile), "winrtChineseOcrLanguageMissing: "@),
        strings::holds(language_missing(preferred, profile), preferred),
        strings::holds(language_missing(preferred, profile), profile),
{
    let a =
        "winrtChineseOcrLanguageMissing: WinRT OCR cannot create a recognition engine for zh-Hans-CN ("@;
    let b = ") or user profile languages ("@;
    let c = "); install the Chinese OCR language pack"@;
    let m = language_missing(preferred, profile);
    reveal_strlit(
        "winrtChineseOcrLanguageMissing: WinRT OCR cannot create a recognition engine for zh-Hans-CN (",
    );
    reveal_strlit("winrtChineseOcrLanguageMissing: ");
    assert(m =~= a + preferred + (b + profile + c));
    strings::lemma_holds_middle(a, preferred, b + profile + c);
    assert(m =~= (a + preferred + b) + profile + c);
    strings::lemma_holds_middle(a + preferred + b, profile, c);
    assert(m.subrange(0, 32) =~= "winrtChineseOcrLanguageMissing: "@);
}

/// A recognition that ends well has as many lines as Windows read, and each of them in
/// its place, without a confidence.
pub proof fn law_lines_keep_their_places(
    w: WinRtRecognitionView,
    e: WinRtEvent,
    action: WinRtAction,
    out: OcrResult,
)
    requires
        stepped(w, e@).1 == action@,
        action == WinRtAction::Finish(Ok(out)),
    ensures
        w.phase == WinRtPhase::Recognize,
        e matches WinRtEvent::Lines(lines) && out.lines@.len() == lines@.len() && (forall|i: int|
            0 <= i < lines@.len() ==> (#[trigger] out.lines@[i]).text@ == lines@[i]@
                && out.lines@[i].confidence is None),
{
    if let WinRtEvent::Lines(lines) = e {
        assert(out@ == unrated(strings::texts(lines@)));
        assert(out@.len() == out.lines@.len());
        assert(strings::texts(lines@).len() == lines@.len());
        assert forall|i: int| 0 <= i < lines@.len() implies (#[trigger] out.lines@[i]).text@
            == lines@[i]@ && out.lines@[i].confidence is None by {
            assert(out@[i] == out.lines@[i]@);
            assert(unrated(strings::texts(lines@))[i].text == lines@[i]@);
        }
    }
}

/// Whatever Windows reads, the recognition then ends well.
pub proof fn law_lines_end_the_recognition(w: WinRtRecognitionView, lines: Seq<Seq<char>>)
    requires
        w.phase == WinRtPhase::Recognize,
    ensures
        stepped(w, WinRtEventView::Lines(lines)).1 matches WinRtActionView::Finish(Ok(out))
            && out.len() == lines.len(),
        stepped(w, WinRtEventView::Lines(lines)).0 == (WinRtRecognitionView {
            phase: WinRtPhase::Over,
            preferred_error: w.preferred_error,
        }),
{
}

/// The steps of a recognition come one after the other: the bitmap, a recognizer, the
/// lines; the languages of the profile are passed over where the preferred one serves.
pub proof fn law_steps_come_in_order(w: WinRtRecognitionView)
    ensures
        w.phase == WinRtPhase::Decode ==> stepped(w, WinRtEventView::Done) == (
            (WinRtRecognitionView { phase: WinRtPhase::PreferredLanguage, preferred_error: w.preferred_error }),
            WinRtActionView::Perform(WinRtPhase::PreferredLanguage),
        ),
        w.phase == WinRtPhase::PreferredLanguage ==> stepped(w, WinRtEventView::Done) == (
            (WinRtRecognitionView { phase: WinRtPhase::Recognize, preferred_error: w.preferred_error }),
            WinRtActionView::Perform(WinRtPhase::Recognize),
        ),
        w.phase == WinRtPhase::ProfileLanguages ==> stepped(w, WinRtEventView::Done) == (
            (WinRtRecognitionView { phase: WinRtPhase::Recognize, preferred_error: w.preferred_error }),
            WinRtActionView::Perform(WinRtPhase::Recognize),
        ),
{
}

/// A failure other than that of a language ends the recognition with its own reason. One
/// of the preferred language is remembered, and ends it together with that of the
/// profile's languages, both in one message.
pub proof fn law_failures_are_told(w: WinRtRecognitionView, reason: Seq<char>)
    ensures
        w.phase == WinRtPhase::Decode || w.phase == WinRtPhase::Recognize ==> stepped(
            w,
            WinRtEventView::Failed(reason),
        ) == (
            (WinRtRecognitionView {
                phase: WinRtPhase::Over,
                preferred_error: w.preferred_error,
            }),
            WinRtActionView::Finish(Err(reason)),
        ),
        w.phase == WinRtPhase::PreferredLanguage ==> stepped(w, WinRtEventView::Failed(reason)) == (
            (WinRtRecognitionView {
                phase: WinRtPhase::ProfileLanguages,
                preferred_error: reason,
            }),
            WinRtActionView::Perform(WinRtPhase::ProfileLanguages),
        ),
        w.phase == WinRtPhase::ProfileLanguages ==> stepped(w, WinRtEventView::Failed(reason)) == (
            (WinRtRecognitionView {
                phase: WinRtPhase::Over,
                preferred_error: w.preferred_error,
            }),
            WinRtActionView::Finish(
                Err(
                    "winrtChineseOcrLanguageMissing: WinRT OCR cannot create a recognition engine for zh-Hans-CN ("@
                        + w.preferred_error + ") or user profile languages ("@ + (reason
                        + "); install the Chinese OCR language pack"@),
                ),
            ),
        ),
{
}

/// An event that does not answer what the recognition waits for changes nothing, and the
/// same is asked for again. A recognition that is over stays so.
pub proof fn law_stray_event_changes_nothing(w: WinRtRecognitionView, e: WinRtEventView)
    requires
        match w.phase {
            WinRtPhase::Decode => e is Lines,
            WinRtPhase::PreferredLanguage => e is Lines,
            WinRtPhase::ProfileLanguages => e is Lines,
            WinRtPhase::Recognize => e is Done,
            WinRtPhase::Over => true,
        },
    ensures
        stepped(w, e) == (w, WinRtActionView::Perform(w.phase)),
{
}

} // verus!
