//! Screenshots: which window or monitor is captured, how a capture is made fit for
//! recognition, and what becomes of a failure.

use vstd::prelude::*;

use crate::ocr::engine::OcrError;
use crate::ocr::scaling;
use crate::ocr::scaling::{scaled_height, MAX_WIDTH};
use crate::strings;
use crate::strings::{concat2, contains};
use crate::types::Platform;

verus! {

// ---------------------------------------------------------------------------
// Frames
// ---------------------------------------------------------------------------

/// An image of red, green, blue and opacity, row by row.
#[derive(Debug, Clone)]
pub struct Frame {
    pub width: u32,
    pub height: u32,
    pub rgba: Vec<u8>,
}

/// A frame, with its bytes as a sequence.
pub struct FrameView {
    pub width: u32,
    pub height: u32,
    pub rgba: Seq<u8>,
}

impl View for Frame {
    type V = FrameView;

    open spec fn view(&self) -> FrameView {
        FrameView { width: self.width, height: self.height, rgba: self.rgba@ }
    }
}

/// No frame that is scaled down may be taller. Up to here the filter's positions are
/// less than half a pixel off.
pub const MAX_HEIGHT: u32 = 0x20_0000;

/// The bytes of an intermediate image: four single-precision numbers for each pixel.
pub open spec fn working_size(width: u32, height: u32) -> int {
    16 * (width * (if height == 0 {
        1
    } else {
        height as int
    }))
}

impl Frame {
    /// There are four bytes for each pixel.
    pub open spec fn wf(&self) -> bool {
        self.rgba@.len() == 4 * (self.width * self.height)
    }

    /// The frame can be scaled down where it is too wide: its height is not beyond the
    /// precision of the filter, and the intermediate image fits in memory.
    pub open spec fn scalable(&self) -> bool {
        self.width > MAX_WIDTH ==> {
            &&& self.height <= MAX_HEIGHT
            &&& working_size(self.width, scaling::scaled_height_of(self.width, self.height))
                <= isize::MAX
        }
    }
}

impl Frame {
    /// Whether the frame is whole, and can be scaled down where it is too wide.
    pub fn usable(&self) -> (r: bool)
        ensures
            r == (self.wf() && self.scalable()),
    {
        let (width, height) = (self.width, self.height);
        proof {
            assert(width * height <= 0xffff_ffff * 0xffff_ffff) by (nonlinear_arith)
                requires
                    0 <= width <= 0xffff_ffff,
                    0 <= height <= 0xffff_ffff,
            ;
        }
        let area: u128 = width as u128 * height as u128;
        if self.rgba.len() as u128 != 4 * area {
            return false;
        }
        if width <= MAX_WIDTH {
            return true;
        }
        if height > MAX_HEIGHT {
            return false;
        }
        let scaled: u32 = scaled_height(width, height);
        let rows: u128 = if scaled == 0 {
            1
        } else {
            scaled as u128
        };
        proof {
            assert(width * rows <= 0xffff_ffff * 0xffff_ffff) by (nonlinear_arith)
                requires
                    0 <= width <= 0xffff_ffff,
                    0 <= rows <= 0xffff_ffff,
            ;
        }
        16 * (width as u128 * rows) <= isize::MAX as u128
    }
}

/// The width, the height and the bytes that `DynamicImage::resize` of the image crate,
/// with the triangle filter, makes of a frame.
pub uninterp spec fn resized(
    width: u32,
    height: u32,
    rgba: Seq<u8>,
    to_width: u32,
    to_height: u32,
) -> (u32, u32, Seq<u8>);

/// Calls `DynamicImage::resize` of the image crate with the triangle filter.
///
/// Claimed of it: what comes out depends on the frame and the bounds alone; it has four
/// bytes for each pixel; and it fits within the bounds, except that it has at least one
/// row. Left out are frames so tall, and bounds so wide, that the filter may divide by
/// zero for want of precision, and frames whose intermediate image could not be
/// allocated.
#[verifier::external_body]
fn resize(frame: &Frame, to_width: u32, to_height: u32) -> (r: Frame)
    requires
        frame.wf(),
        0 < to_width < frame.width,
        to_width <= MAX_WIDTH,
        frame.height <= MAX_HEIGHT,
        working_size(frame.width, to_height) <= isize::MAX,
    ensures
        (r.width, r.height, r.rgba@) == resized(
            frame.width,
            frame.height,
            frame.rgba@,
            to_width,
            to_height,
        ),
        r.wf(),
        r.width <= to_width,
        r.height <= to_height || r.height == 1,
{
    let pixels = image::RgbaImage::from_raw(frame.width, frame.height, frame.rgba.clone());
    let picture = image::DynamicImage::ImageRgba8(pixels.unwrap_or_default());
    let filter = image::imageops::FilterType::Triangle;
    let small = picture.resize(to_width, to_height, filter).into_rgba8();
    Frame { width: small.width(), height: small.height(), rgba: small.into_raw() }
}

/// A frame as it is recognized: scaled down to the widest width where it is wider.
pub open spec fn downsampled(frame: FrameView) -> FrameView {
    if frame.width <= MAX_WIDTH {
        frame
    } else {
        let (width, height, rgba) = resized(
            frame.width,
            frame.height,
            frame.rgba,
            MAX_WIDTH,
            scaling::scaled_height_of(frame.width, frame.height),
        );
        FrameView { width, height, rgba }
    }
}

/// Scales a frame down to the widest width where it is wider, and keeps its proportions.
pub fn downsample_for_ocr(frame: Frame) -> (r: Frame)
    requires
        frame.wf(),
        frame.scalable(),
    ensures
        r.wf(),
        r@ == downsampled(frame@),
        r.width <= MAX_WIDTH,
        r.height <= frame.height || r.height == 1,
{
    if frame.width <= MAX_WIDTH {
        return frame;
    }
    let height = scaled_height(frame.width, frame.height);
    proof {
        scaling::lemma_scaled_not_taller(frame.width, frame.height);
    }
    resize(&frame, MAX_WIDTH, height)
}

/// The bytes of the PNG file that `DynamicImage::write_to` of the image crate makes of a
/// frame, or the text of the error that it returns.
pub uninterp spec fn png_of(width: u32, height: u32, rgba: Seq<u8>) -> Result<Seq<u8>, Seq<char>>;

/// The bytes of a file, or the text of the error.
pub open spec fn bytes_or_error(r: Result<Vec<u8>, String>) -> Result<Seq<u8>, Seq<char>> {
    match r {
        Ok(bytes) => Ok(bytes@),
        Err(e) => Err(e@),
    }
}

/// Calls `DynamicImage::write_to` of the image crate with the PNG format.
///
/// Claimed of it: the file or the error depends on the frame alone.
#[verifier::external_body]
fn write_png(frame: &Frame) -> (r: Result<Vec<u8>, String>)
    requires
        frame.wf(),
    ensures
        bytes_or_error(r) == png_of(frame.width, frame.height, frame.rgba@),
{
    let pixels = image::RgbaImage::from_raw(frame.width, frame.height, frame.rgba.clone());
    let picture = image::DynamicImage::ImageRgba8(pixels.unwrap_or_default());
    let mut bytes = Vec::new();
    let mut out = std::io::Cursor::new(&mut bytes);
    match picture.write_to(&mut out, image::ImageFormat::Png) {
        Ok(()) => Ok(bytes),
        Err(e) => Err(e.to_string()),
    }
}

/// What a frame becomes: the file of the frame scaled down, or the text of the error.
pub open spec fn encoded(frame: FrameView) -> Result<Seq<u8>, Seq<char>> {
    let small = downsampled(frame);
    png_of(small.width, small.height, small.rgba)
}

/// Makes a frame fit for recognition: scales it down, and writes it as a PNG file.
pub fn encode_for_ocr(frame: Frame) -> (r: Result<Vec<u8>, String>)
    requires
        frame.wf(),
        frame.scalable(),
    ensures
        bytes_or_error(r) == encoded(frame@),
{
    let small = downsample_for_ocr(frame);
    write_png(&small)
}

// ---------------------------------------------------------------------------
// What is captured
// ---------------------------------------------------------------------------

/// Item `i` is the first that is `wanted`.
pub open spec fn first_with<T>(items: Seq<Option<T>>, wanted: T, i: int) -> bool {
    &&& 0 <= i < items.len()
    &&& items[i] == Some(wanted)
    &&& forall|k: int| 0 <= k < i ==> #[trigger] items[k] != Some(wanted)
}

/// No item is `wanted`.
pub open spec fn none_with<T>(items: Seq<Option<T>>, wanted: T) -> bool {
    forall|k: int| 0 <= k < items.len() ==> #[trigger] items[k] != Some(wanted)
}

/// The window with this id, given the id of each window in turn where it has one.
pub fn window_with_id(ids: &Vec<Option<u32>>, id: u32) -> (r: Option<usize>)
    ensures
        match r {
            Some(i) => first_with(ids@, id, i as int),
            None => none_with(ids@, id),
        },
{
    let n: usize = ids.len();
    let mut i: usize = 0;
    while i < n
        invariant
            i <= n,
            n == ids@.len(),
            forall|k: int| 0 <= k < i ==> #[trigger] ids@[k] != Some(id),
        decreases n - i,
    {
        if let Some(x) = ids[i] {
            if x == id {
                return Some(i);
            }
        }
        i += 1;
    }
    None
}

/// The primary monitor, given for each monitor in turn whether it is the primary one,
/// as far as that is known.
pub fn primary_monitor(primary: &Vec<Option<bool>>) -> (r: Option<usize>)
    ensures
        match r {
            Some(i) => first_with(primary@, true, i as int),
            None => none_with(primary@, true),
        },
{
    let n: usize = primary.len();
    let mut i: usize = 0;
    while i < n
        invariant
            i <= n,
            n == primary@.len(),
            forall|k: int| 0 <= k < i ==> #[trigger] primary@[k] != Some(true),
        decreases n - i,
    {
        if let Some(x) = primary[i] {
            if x {
                return Some(i);
            }
        }
        i += 1;
    }
    None
}

// ---------------------------------------------------------------------------
// Failures
// ---------------------------------------------------------------------------

/// What the message of a refused capture begins with.
pub const DENIED_MARK: &'static str = "screenRecordingDenied";

/// The message tells that screen recording is not permitted.
pub open spec fn is_denied(message: Seq<char>) -> bool {
    strings::holds(message, DENIED_MARK@)
}

/// The reason that the system gives for a failed capture speaks of a missing permission.
/// Windows does not name functions of macOS when a window cannot be captured.
pub open spec fn sounds_denied(platform: Platform, of_window: bool, reason: Seq<char>) -> bool {
    ||| strings::holds(reason, "screen recording"@)
    ||| strings::holds(reason, "not authorized"@)
    ||| strings::holds(reason, "access denied"@)
    ||| !(of_window && platform == Platform::Windows) && (strings::holds(
        reason,
        "CGDisplayCreateImage"@,
    ) || strings::holds(reason, "kCGError"@))
}

/// The message for a failed capture.
pub open spec fn capture_error(platform: Platform, of_window: bool, reason: Seq<char>) -> Seq<
    char,
> {
    if sounds_denied(platform, of_window, reason) {
        "screenRecordingDenied: "@ + reason
    } else if of_window {
        "capture foreground window: "@ + reason
    } else {
        "capture primary screen: "@ + reason
    }
}

/// The message for a failed capture: marked where a permission is missing.
pub fn capture_failure(platform: Platform, of_window: bool, reason: &str) -> (message: String)
    ensures
        message@ == capture_error(platform, of_window, reason@),
{
    let denied = contains(reason, "screen recording") || contains(reason, "not authorized")
        || contains(reason, "access denied") || (!(of_window && platform == Platform::Windows) && (
    contains(reason, "CGDisplayCreateImage") || contains(reason, "kCGError")));
    if denied {
        concat2("screenRecordingDenied: ", reason)
    } else if of_window {
        concat2("capture foreground window: ", reason)
    } else {
        concat2("capture primary screen: ", reason)
    }
}

// ---------------------------------------------------------------------------
// The course of a capture
// ---------------------------------------------------------------------------

/// What a capture waits for.
#[derive(Debug, Clone, Copy, PartialEq, Eq, Structural)]
pub enum CapturePhase {
    /// The window in the foreground is to be asked for.
    Foreground,
    /// The windows are to be listed.
    Windows,
    /// The chosen window is to be captured.
    Window,
    /// The permission to record the screen is to be looked up.
    Access,
    /// The monitors are to be listed.
    Monitors,
    /// The monitor at the origin is to be looked up.
    Origin,
    /// The chosen monitor, or else the one at the origin, is to be captured.
    Monitor,
    /// Nothing is left to do.
    Over,
}

/// A capture under way.
#[derive(Debug, Clone, Copy, PartialEq, Eq, Structural)]
pub struct ScreenCapture {
    pub platform: Platform,
    pub phase: CapturePhase,
    /// The id of the window in the foreground, once it is known.
    pub foreground: Option<u32>,
    /// The place of the chosen window or monitor in its list, once it is chosen.
    pub chosen: Option<usize>,
}

/// What came of the thing that a capture waited for.
#[derive(Debug, Clone)]
pub enum CaptureEvent {
    /// It was done.
    Done,
    /// It failed, for this reason.
    Failed(String),
    /// The window with this id is in the foreground, or none is.
    Foreground(Option<u32>),
    /// These are the ids of the windows, from the front to the back, as far as they have
    /// one.
    Windows(Vec<Option<u32>>),
    /// The screen may be recorded, or may not.
    Access(bool),
    /// Each monitor in turn is the primary one or is not, as far as that is known.
    Monitors(Vec<Option<bool>>),
    /// This was captured.
    Image(Frame),
}

impl CaptureEvent {
    /// A captured image is whole, and can be scaled down where it is too wide.
    pub open spec fn wf(&self) -> bool {
        self matches CaptureEvent::Image(frame) ==> frame.wf() && frame.scalable()
    }
}

/// What is to be done next.
#[derive(Debug)]
pub enum CaptureAction {
    /// The thing that the phase names.
    Perform(CapturePhase),
    /// The capture is over, with a PNG file, with nothing, or with an error.
    Finish(Result<Option<Vec<u8>>, OcrError>),
}

/// An action, with its contents as sequences.
pub enum CaptureActionView {
    Perform(CapturePhase),
    Finish(Result<Option<Seq<u8>>, Seq<char>>),
}

impl View for CaptureAction {
    type V = CaptureActionView;

    open spec fn view(&self) -> CaptureActionView {
        match self {
            CaptureAction::Perform(p) => CaptureActionView::Perform(*p),
            CaptureAction::Finish(Ok(Some(bytes))) => CaptureActionView::Finish(Ok(Some(bytes@))),
            CaptureAction::Finish(Ok(None)) => CaptureActionView::Finish(Ok(None)),
            CaptureAction::Finish(Err(e)) => CaptureActionView::Finish(Err(e@)),
        }
    }
}

/// The capture goes on to `phase`.
pub open spec fn going_on(c: ScreenCapture, phase: CapturePhase) -> (
    ScreenCapture,
    CaptureActionView,
) {
    (ScreenCapture { phase, ..c }, CaptureActionView::Perform(phase))
}

/// The capture is over.
pub open spec fn ending(c: ScreenCapture, result: Result<Option<Seq<u8>>, Seq<char>>) -> (
    ScreenCapture,
    CaptureActionView,
) {
    (ScreenCapture { phase: CapturePhase::Over, ..c }, CaptureActionView::Finish(result))
}

/// The capture turns to the primary monitor. On macOS the permission is looked up first,
/// since the system hands out blank images where it is missing.
pub open spec fn turning_to_monitor(c: ScreenCapture) -> (ScreenCapture, CaptureActionView) {
    if c.platform == Platform::MacOs {
        going_on(ScreenCapture { chosen: None, ..c }, CapturePhase::Access)
    } else {
        going_on(ScreenCapture { chosen: None, ..c }, CapturePhase::Monitors)
    }
}

/// The window could not be captured: the primary monitor is captured instead, unless
/// screen recording is not permitted.
pub open spec fn window_failing(c: ScreenCapture, message: Seq<char>) -> (
    ScreenCapture,
    CaptureActionView,
) {
    if is_denied(message) {
        ending(c, Err(message))
    } else {
        turning_to_monitor(c)
    }
}

/// The primary monitor could not be captured: there is no image, and that is an error
/// only where screen recording is not permitted.
pub open spec fn monitor_failing(c: ScreenCapture, message: Seq<char>) -> (
    ScreenCapture,
    CaptureActionView,
) {
    if is_denied(message) {
        ending(c, Err(message))
    } else {
        ending(c, Ok(None))
    }
}

/// `next` and `action` are what the event makes of a capture. The window in the
/// foreground is captured, found by its id on Windows and as the frontmost one
/// elsewhere. Where that fails the primary monitor is captured, or the one at the origin
/// where none is known to be the primary one. An event that does not answer what the
/// capture waits for changes nothing.
pub open spec fn follows(
    c: ScreenCapture,
    e: CaptureEvent,
    next: ScreenCapture,
    action: CaptureActionView,
) -> bool {
    let step = (next, action);
    match (c.phase, e) {
        (CapturePhase::Foreground, CaptureEvent::Foreground(Some(id))) => step == going_on(
            ScreenCapture { foreground: Some(id), ..c },
            CapturePhase::Windows,
        ),
        (CapturePhase::Foreground, CaptureEvent::Foreground(None)) => step == turning_to_monitor(c),
        (CapturePhase::Windows, CaptureEvent::Windows(ids)) => match c.foreground {
            Some(id) => {
                ||| next.chosen matches Some(i) && first_with(ids@, id, i as int) && step
                    == going_on(ScreenCapture { chosen: next.chosen, ..c }, CapturePhase::Window)
                ||| none_with(ids@, id) && step == turning_to_monitor(c)
            },
            None => step == (if ids@.len() > 0 {
                going_on(ScreenCapture { chosen: Some(0), ..c }, CapturePhase::Window)
            } else {
                turning_to_monitor(c)
            }),
        },
        (CapturePhase::Windows, CaptureEvent::Failed(reason)) => step == window_failing(
            c,
            "list windows: "@ + reason@,
        ),
        (CapturePhase::Window, CaptureEvent::Image(frame)) => step == (match encoded(frame@) {
            Ok(bytes) => ending(c, Ok(Some(bytes))),
            Err(reason) => window_failing(c, "encode foreground window to PNG: "@ + reason),
        }),
        (CapturePhase::Window, CaptureEvent::Failed(reason)) => step == window_failing(
            c,
            capture_error(c.platform, true, reason@),
        ),
        (CapturePhase::Access, CaptureEvent::Access(granted)) => step == (if granted {
            going_on(c, CapturePhase::Monitors)
        } else {
            ending(
                c,
                Err("screenRecordingDenied: macOS screen recording permission is not granted"@),
            )
        }),
        (CapturePhase::Monitors, CaptureEvent::Monitors(primary)) => {
            ||| next.chosen matches Some(i) && first_with(primary@, true, i as int) && step
                == going_on(ScreenCapture { chosen: next.chosen, ..c }, CapturePhase::Monitor)
            ||| none_with(primary@, true) && step == going_on(
                ScreenCapture { chosen: None, ..c },
                CapturePhase::Origin,
            )
        },
        (CapturePhase::Monitors, CaptureEvent::Failed(reason)) => step == monitor_failing(
            c,
            "list monitors: "@ + reason@,
        ),
        (CapturePhase::Origin, CaptureEvent::Done) => step == going_on(c, CapturePhase::Monitor),
        (CapturePhase::Origin, CaptureEvent::Failed(reason)) => step == monitor_failing(
            c,
            "no monitor available"@,
        ),
        (CapturePhase::Monitor, CaptureEvent::Image(frame)) => step == (match encoded(frame@) {
            Ok(bytes) => ending(c, Ok(Some(bytes))),
            Err(reason) => monitor_failing(c, "encode screenshot to PNG: "@ + reason),
        }),
        (CapturePhase::Monitor, CaptureEvent::Failed(reason)) => step == monitor_failing(
            c,
            capture_error(c.platform, false, reason@),
        ),
        _ => step == going_on(c, c.phase),
    }
}

/// A capture that has not begun, and what it waits for first.
pub open spec fn starting(platform: Platform) -> (ScreenCapture, CaptureActionView) {
    let c = ScreenCapture {
        platform,
        phase: CapturePhase::Over,
        foreground: None,
        chosen: None,
    };
    match platform {
        Platform::Windows => going_on(c, CapturePhase::Foreground),
        Platform::MacOs => going_on(c, CapturePhase::Windows),
        Platform::Other => ending(c, Ok(None)),
    }
}

impl ScreenCapture {
    /// A capture that has not begun, and what it waits for first. On a platform where
    /// the screen cannot be captured it is over at once, without an image.
    pub fn start(platform: Platform) -> (r: (ScreenCapture, CaptureAction))
        ensures
            (r.0, r.1@) == starting(platform),
    {
        let mut c = ScreenCapture {
            platform,
            phase: CapturePhase::Over,
            foreground: None,
            chosen: None,
        };
        let action = match platform {
            Platform::Windows => c.go_on(CapturePhase::Foreground),
            Platform::MacOs => c.go_on(CapturePhase::Windows),
            Platform::Other => c.end(Ok(None)),
        };
        (c, action)
    }

    fn go_on(&mut self, phase: CapturePhase) -> (action: CaptureAction)
        ensures
            (*final(self), action@) == going_on(*old(self), phase),
    {
        self.phase = phase;
        CaptureAction::Perform(phase)
    }

    fn end(&mut self, result: Result<Option<Vec<u8>>, OcrError>) -> (action: CaptureAction)
        ensures
            *final(self) == (ScreenCapture { phase: CapturePhase::Over, ..*old(self) }),
            action == CaptureAction::Finish(result),
    {
        self.phase = CapturePhase::Over;
        CaptureAction::Finish(result)
    }

    fn turn_to_monitor(&mut self) -> (action: CaptureAction)
        ensures
            (*final(self), action@) == turning_to_monitor(*old(self)),
    {
        self.chosen = None;
        if self.platform == Platform::MacOs {
            self.go_on(CapturePhase::Access)
        } else {
            self.go_on(CapturePhase::Monitors)
        }
    }

    fn fail_window(&mut self, message: String) -> (action: CaptureAction)
        ensures
            (*final(self), action@) == window_failing(*old(self), message@),
    {
        if contains(message.as_str(), DENIED_MARK) {
            self.end(Err(OcrError { message }))
        } else {
            self.turn_to_monitor()
        }
    }

    fn fail_monitor(&mut self, message: String) -> (action: CaptureAction)
        ensures
            (*final(self), action@) == monitor_failing(*old(self), message@),
    {
        if contains(message.as_str(), DENIED_MARK) {
            self.end(Err(OcrError { message }))
        } else {
            self.end(Ok(None))
        }
    }

    fn choose_window(&mut self, i: usize) -> (action: CaptureAction)
        ensures
            (*final(self), action@) == going_on(
                (ScreenCapture { chosen: Some(i), ..*old(self) }),
                CapturePhase::Window,
            ),
    {
        self.chosen = Some(i);
        self.go_on(CapturePhase::Window)
    }

    /// Takes in what came of the thing that the capture waited for, and says what is to
    /// be done next.
    pub fn step(&mut self, event: CaptureEvent) -> (action: CaptureAction)
        requires
            event.wf(),
        ensures
            follows(*old(self), event, *final(self), action@),
    {
        let phase = self.phase;
        let platform = self.platform;
        match (phase, event) {
            (CapturePhase::Foreground, CaptureEvent::Foreground(Some(id))) => {
                self.foreground = Some(id);
                self.go_on(CapturePhase::Windows)
            },
            (CapturePhase::Foreground, CaptureEvent::Foreground(None)) => self.turn_to_monitor(),
            (CapturePhase::Windows, CaptureEvent::Windows(ids)) => match self.foreground {
                Some(id) => match window_with_id(&ids, id) {
                    Some(i) => self.choose_window(i),
                    None => self.turn_to_monitor(),
                },
                None => if ids.len() > 0 {
                    self.choose_window(0)
                } else {
                    self.turn_to_monitor()
                },
            },
            (CapturePhase::Windows, CaptureEvent::Failed(reason)) => self.fail_window(
                concat2("list windows: ", reason.as_str()),
            ),
            (CapturePhase::Window, CaptureEvent::Image(frame)) => match encode_for_ocr(frame) {
                Ok(bytes) => self.end(Ok(Some(bytes))),
                Err(reason) => self.fail_window(
                    concat2("encode foreground window to PNG: ", reason.as_str()),
                ),
            },
            (CapturePhase::Window, CaptureEvent::Failed(reason)) => self.fail_window(
                capture_failure(platform, true, reason.as_str()),
            ),
            (CapturePhase::Access, CaptureEvent::Access(granted)) => if granted {
                self.go_on(CapturePhase::Monitors)
            } else {
                let message =
                    "screenRecordingDenied: macOS screen recording permission is not granted".to_string();
                self.end(Err(OcrError { message }))
            },
            (CapturePhase::Monitors, CaptureEvent::Monitors(primary)) => match primary_monitor(
                &primary,
            ) {
                Some(i) => {
                    self.chosen = Some(i);
                    self.go_on(CapturePhase::Monitor)
                },
                None => {
                    self.chosen = None;
                    self.go_on(CapturePhase::Origin)
                },
            },
            (CapturePhase::Monitors, CaptureEvent::Failed(reason)) => self.fail_monitor(
                concat2("list monitors: ", reason.as_str()),
            ),
            (CapturePhase::Origin, CaptureEvent::Done) => self.go_on(CapturePhase::Monitor),
            (CapturePhase::Origin, CaptureEvent::Failed(_)) => self.fail_monitor(
                "no monitor available".to_string(),
            ),
            (CapturePhase::Monitor, CaptureEvent::Image(frame)) => match encode_for_ocr(frame) {
                Ok(bytes) => self.end(Ok(Some(bytes))),
                Err(reason) => self.fail_monitor(
                    concat2("encode screenshot to PNG: ", reason.as_str()),
                ),
            },
            (CapturePhase::Monitor, CaptureEvent::Failed(reason)) => self.fail_monitor(
                capture_failure(platform, false, reason.as_str()),
            ),
            _ => self.go_on(phase),
        }
    }
}

// ---------------------------------------------------------------------------
// Laws
// ---------------------------------------------------------------------------

/// A capture ends with an error only where screen recording is not permitted, and the
/// message says so; any other failure ends without an image.
pub proof fn law_only_denial_is_an_error(
    c: ScreenCapture,
    e: CaptureEvent,
    next: ScreenCapture,
    action: CaptureActionView,
)
    requires
        follows(c, e, next, action),
    ensures
        action matches CaptureActionView::Finish(Err(message)) ==> is_denied(message),
{
    let message = "screenRecordingDenied: macOS screen recording permission is not granted"@;
    reveal_strlit("screenRecordingDenied: macOS screen recording permission is not granted");
    reveal_strlit("screenRecordingDenied");
    assert(message.subrange(0, 21) =~= DENIED_MARK@);
    assert(strings::stands_at(message, DENIED_MARK@, 0));
}

/// A failure in which the reason speaks of a missing permission is always told as such.
pub proof fn law_missing_permission_is_told(platform: Platform, of_window: bool, reason: Seq<char>)
    requires
        sounds_denied(platform, of_window, reason),
    ensures
        is_denied(capture_error(platform, of_window, reason)),
{
    let message = capture_error(platform, of_window, reason);
    reveal_strlit("screenRecordingDenied: ");
    reveal_strlit("screenRecordingDenied");
    assert(message.subrange(0, 21) =~= DENIED_MARK@);
    assert(strings::stands_at(message, DENIED_MARK@, 0));
}

/// Whatever goes wrong with the window in the foreground, short of a missing permission,
/// the capture turns to the primary monitor; it never ends without an image before that.
pub proof fn law_window_failure_falls_back(
    c: ScreenCapture,
    e: CaptureEvent,
    next: ScreenCapture,
    action: CaptureActionView,
)
    requires
        follows(c, e, next, action),
        c.phase == CapturePhase::Foreground || c.phase == CapturePhase::Windows || c.phase
            == CapturePhase::Window,
    ensures
        action != CaptureActionView::Finish(Ok(None)),
        (e is Failed && c.phase != CapturePhase::Foreground) ==> {
            ||| action == CaptureActionView::Perform(
                if c.platform == Platform::MacOs {
                    CapturePhase::Access
                } else {
                    CapturePhase::Monitors
                },
            )
            ||| action matches CaptureActionView::Finish(Err(message)) && is_denied(message)
        },
{
}

/// An image ends the capture: whether it is of a window or of a monitor, and whatever
/// was chosen before, the capture is over with the file of that very image.
pub proof fn law_image_ends_the_capture(
    c: ScreenCapture,
    frame: Frame,
    next: ScreenCapture,
    action: CaptureAction,
    bytes: Seq<u8>,
)
    requires
        follows(c, CaptureEvent::Image(frame), next, action@),
        c.phase == CapturePhase::Window || c.phase == CapturePhase::Monitor,
        encoded(frame@) == Ok::<Seq<u8>, Seq<char>>(bytes),
    ensures
        action matches CaptureAction::Finish(Ok(Some(file))) && file@ == bytes,
        next == (ScreenCapture {
            platform: c.platform,
            phase: CapturePhase::Over,
            foreground: c.foreground,
            chosen: c.chosen,
        }),
{
}

/// The file of an image is the PNG file of the image itself where it is at most 1920
/// pixels wide, and of the image scaled down to that width where it is wider.
pub proof fn law_file_is_of_the_image(frame: FrameView)
    ensures
        frame.width <= 1920 ==> encoded(frame) == png_of(frame.width, frame.height, frame.rgba),
        frame.width > 1920 ==> encoded(frame) == ({
            let small = resized(
                frame.width,
                frame.height,
                frame.rgba,
                1920,
                scaling::scaled_height_of(frame.width, frame.height),
            );
            png_of(small.0, small.1, small.2)
        }),
{
}

/// An image that cannot be encoded is treated like one that could not be captured: from
/// a window the capture turns to the primary monitor, from the monitor it ends without an
/// image; only a reason that tells of a missing permission ends it with an error.
pub proof fn law_image_that_cannot_be_encoded(
    c: ScreenCapture,
    frame: Frame,
    next: ScreenCapture,
    action: CaptureAction,
    reason: Seq<char>,
)
    requires
        follows(c, CaptureEvent::Image(frame), next, action@),
        encoded(frame@) == Err::<Seq<u8>, Seq<char>>(reason),
    ensures
        c.phase == CapturePhase::Window && !strings::holds(
            "encode foreground window to PNG: "@ + reason,
            "screenRecordingDenied"@,
        ) ==> {
            let turn = if c.platform == Platform::MacOs {
                CapturePhase::Access
            } else {
                CapturePhase::Monitors
            };
            &&& action == CaptureAction::Perform(turn)
            &&& next == (ScreenCapture {
                platform: c.platform,
                phase: turn,
                foreground: c.foreground,
                chosen: None,
            })
        },
        c.phase == CapturePhase::Window && strings::holds(
            "encode foreground window to PNG: "@ + reason,
            "screenRecordingDenied"@,
        ) ==> action is Finish && action->Finish_0 is Err && action->Finish_0->Err_0@
            == "encode foreground window to PNG: "@ + reason && next.phase == CapturePhase::Over,
        c.phase == CapturePhase::Monitor && !strings::holds(
            "encode screenshot to PNG: "@ + reason,
            "screenRecordingDenied"@,
        ) ==> action is Finish && action->Finish_0 is Ok && action->Finish_0->Ok_0 is None
            && next.phase == CapturePhase::Over,
        c.phase == CapturePhase::Monitor && strings::holds(
            "encode screenshot to PNG: "@ + reason,
            "screenRecordingDenied"@,
        ) ==> action is Finish && action->Finish_0 is Err && action->Finish_0->Err_0@
            == "encode screenshot to PNG: "@ + reason && next.phase == CapturePhase::Over,
{
}

/// On Windows a capture asks for the window in the foreground first, on macOS for the
/// list of windows. Elsewhere it is over at once, without an image.
pub proof fn law_capture_begins_with_the_window(platform: Platform)
    ensures
        starting(platform).0.platform == platform,
        starting(platform).0.foreground is None && starting(platform).0.chosen is None,
        platform is Windows ==> starting(platform).0.phase == CapturePhase::Foreground && starting(
            platform,
        ).1 == CaptureActionView::Perform(CapturePhase::Foreground),
        platform is MacOs ==> starting(platform).0.phase == CapturePhase::Windows && starting(
            platform,
        ).1 == CaptureActionView::Perform(CapturePhase::Windows),
        platform is Other ==> starting(platform).0.phase == CapturePhase::Over && starting(
            platform,
        ).1 == CaptureActionView::Finish(Ok(None)),
{
}

/// A window in the foreground is looked up in the list of windows. Without one the
/// capture turns to the primary monitor, on macOS by way of the permission.
pub proof fn law_foreground_window_is_looked_up(
    c: ScreenCapture,
    e: CaptureEvent,
    next: ScreenCapture,
    action: CaptureAction,
)
    requires
        follows(c, e, next, action@),
        c.phase == CapturePhase::Foreground,
    ensures
        e matches CaptureEvent::Foreground(Some(id)) ==> {
            &&& action == CaptureAction::Perform(CapturePhase::Windows)
            &&& next == (ScreenCapture {
                platform: c.platform,
                phase: CapturePhase::Windows,
                foreground: Some(id),
                chosen: c.chosen,
            })
        },
        e matches CaptureEvent::Foreground(None) ==> {
            let turn = if c.platform == Platform::MacOs {
                CapturePhase::Access
            } else {
                CapturePhase::Monitors
            };
            &&& action == CaptureAction::Perform(turn)
            &&& next == (ScreenCapture {
                platform: c.platform,
                phase: turn,
                foreground: c.foreground,
                chosen: None,
            })
        },
        !(e is Foreground) ==> action == CaptureAction::Perform(c.phase) && next == c,
{
}

/// Of the listed windows the first with the id of the one in the foreground is captured;
/// where no id is known, the frontmost. Where there is none the capture turns to the
/// primary monitor.
pub proof fn law_window_is_chosen_from_the_list(
    c: ScreenCapture,
    e: CaptureEvent,
    next: ScreenCapture,
    action: CaptureAction,
)
    requires
        follows(c, e, next, action@),
        c.phase == CapturePhase::Windows,
    ensures
        e matches CaptureEvent::Windows(ids) ==> {
            let turn = if c.platform == Platform::MacOs {
                CapturePhase::Access
            } else {
                CapturePhase::Monitors
            };
            let there = match c.foreground {
                Some(id) => exists|k: int| 0 <= k < ids@.len() && #[trigger] ids@[k] == Some(id),
                None => ids@.len() > 0,
            };
            &&& next.platform == c.platform && next.foreground == c.foreground
            &&& there ==> {
                &&& action == CaptureAction::Perform(CapturePhase::Window)
                &&& next.phase == CapturePhase::Window
                &&& next.chosen is Some
                &&& c.foreground is None ==> next.chosen == Some(0usize)
                &&& c.foreground is Some ==> {
                    &&& next.chosen->0 < ids@.len()
                    &&& ids@[next.chosen->0 as int] == c.foreground
                    &&& forall|k: int| 0 <= k < next.chosen->0 ==> #[trigger] ids@[k] != c.foreground
                }
            }
            &&& !there ==> {
                &&& action == CaptureAction::Perform(turn)
                &&& next.phase == turn
                &&& next.chosen is None
            }
        },
        !(e is Windows) && !(e is Failed) ==> action == CaptureAction::Perform(c.phase) && next
            == c,
{
}

/// What a failure to list the windows or to capture one leads to: to the primary monitor,
/// on macOS by way of the permission, unless the message tells of a missing permission.
/// The message is the reason behind a few words that say what failed.
pub proof fn law_window_failure_is_told(
    c: ScreenCapture,
    reason: String,
    next: ScreenCapture,
    action: CaptureAction,
    message: Seq<char>,
)
    requires
        follows(c, CaptureEvent::Failed(reason), next, action@),
        c.phase == CapturePhase::Windows && message == "list windows: "@ + reason@ || c.phase
            == CapturePhase::Window && message == capture_error(c.platform, true, reason@),
    ensures
        !strings::holds(message, "screenRecordingDenied"@) ==> {
            let turn = if c.platform == Platform::MacOs {
                CapturePhase::Access
            } else {
                CapturePhase::Monitors
            };
            &&& action == CaptureAction::Perform(turn)
            &&& next == (ScreenCapture {
                platform: c.platform,
                phase: turn,
                foreground: c.foreground,
                chosen: None,
            })
        },
        strings::holds(message, "screenRecordingDenied"@) ==> action is Finish
            && action->Finish_0 is Err && action->Finish_0->Err_0@ == message && next == (
        ScreenCapture {
            platform: c.platform,
            phase: CapturePhase::Over,
            foreground: c.foreground,
            chosen: c.chosen,
        }),
{
}

/// What a failure to list the monitors, to find the one at the origin or to capture one
/// leads to: the capture is over without an image, and with an error where the message
/// tells of a missing permission.
pub proof fn law_monitor_failure_is_told(
    c: ScreenCapture,
    reason: String,
    next: ScreenCapture,
    action: CaptureAction,
    message: Seq<char>,
)
    requires
        follows(c, CaptureEvent::Failed(reason), next, action@),
        c.phase == CapturePhase::Monitors && message == "list monitors: "@ + reason@ || c.phase
            == CapturePhase::Origin && message == "no monitor available"@ || c.phase
            == CapturePhase::Monitor && message == capture_error(c.platform, false, reason@),
    ensures
        next == (ScreenCapture {
            platform: c.platform,
            phase: CapturePhase::Over,
            foreground: c.foreground,
            chosen: c.chosen,
        }),
        !strings::holds(message, "screenRecordingDenied"@) ==> action is Finish
            && action->Finish_0 is Ok && action->Finish_0->Ok_0 is None,
        strings::holds(message, "screenRecordingDenied"@) ==> action is Finish
            && action->Finish_0 is Err && action->Finish_0->Err_0@ == message,
{
}

/// The monitors are listed only with the permission; without it the capture is over, and
/// the error says so.
pub proof fn law_permission_comes_before_the_monitors(
    c: ScreenCapture,
    e: CaptureEvent,
    next: ScreenCapture,
    action: CaptureAction,
)
    requires
        follows(c, e, next, action@),
        c.phase == CapturePhase::Access,
    ensures
        e == CaptureEvent::Access(true) ==> action == CaptureAction::Perform(CapturePhase::Monitors)
            && next == (ScreenCapture {
            platform: c.platform,
            phase: CapturePhase::Monitors,
            foreground: c.foreground,
            chosen: c.chosen,
        }),
        e == CaptureEvent::Access(false) ==> action is Finish && action->Finish_0 is Err
            && action->Finish_0->Err_0@
            == "screenRecordingDenied: macOS screen recording permission is not granted"@ && next
            == (ScreenCapture {
            platform: c.platform,
            phase: CapturePhase::Over,
            foreground: c.foreground,
            chosen: c.chosen,
        }),
        !(e is Access) ==> action == CaptureAction::Perform(c.phase) && next == c,
{
}

/// Of the listed monitors the first that is known to be the primary one is captured.
/// Where none is, the one at the origin is looked up, and captured once it is found.
pub proof fn law_primary_monitor_is_chosen(
    c: ScreenCapture,
    e: CaptureEvent,
    next: ScreenCapture,
    action: CaptureAction,
)
    requires
        follows(c, e, next, action@),
    ensures
        c.phase == CapturePhase::Monitors ==> (e matches CaptureEvent::Monitors(primary) ==> {
            let there = exists|k: int|
                0 <= k < primary@.len() && #[trigger] primary@[k] == Some(true);
            &&& next.platform == c.platform && next.foreground == c.foreground
            &&& there ==> {
                &&& action == CaptureAction::Perform(CapturePhase::Monitor)
                &&& next.phase == CapturePhase::Monitor
                &&& next.chosen is Some && next.chosen->0 < primary@.len()
                &&& primary@[next.chosen->0 as int] == Some(true)
                &&& forall|k: int|
                    0 <= k < next.chosen->0 ==> #[trigger] primary@[k] != Some(true)
            }
            &&& !there ==> {
                &&& action == CaptureAction::Perform(CapturePhase::Origin)
                &&& next.phase == CapturePhase::Origin
                &&& next.chosen is None
            }
        }),
        c.phase == CapturePhase::Origin && e is Done ==> action == CaptureAction::Perform(
            CapturePhase::Monitor,
        ) && next == (ScreenCapture {
            platform: c.platform,
            phase: CapturePhase::Monitor,
            foreground: c.foreground,
            chosen: c.chosen,
        }),
{
}

/// An event that does not answer what the capture waits for changes nothing, and the
/// same is asked for again. A capture that is over stays so.
pub proof fn law_stray_event_changes_nothing(
    c: ScreenCapture,
    e: CaptureEvent,
    next: ScreenCapture,
    action: CaptureAction,
)
    requires
        follows(c, e, next, action@),
        match c.phase {
            CapturePhase::Foreground => !(e is Foreground),
            CapturePhase::Windows => !(e is Windows) && !(e is Failed),
            CapturePhase::Window => !(e is Image) && !(e is Failed),
            CapturePhase::Access => !(e is Access),
            CapturePhase::Monitors => !(e is Monitors) && !(e is Failed),
            CapturePhase::Origin => !(e is Done) && !(e is Failed),
            CapturePhase::Monitor => !(e is Image) && !(e is Failed),
            CapturePhase::Over => true,
        },
    ensures
        next == c,
        action == CaptureAction::Perform(c.phase),
{
}

/// Which reasons tell of a missing permission: those that speak of screen recording, of
/// authorization or of denied access, and those that name a function of macOS, except
/// where a window was captured on Windows. The message then bears the mark; otherwise it
/// says whether a window or the screen was to be captured.
pub proof fn law_reason_decides_the_message(platform: Platform, of_window: bool, reason: Seq<char>)
    ensures
        ({
            let general = strings::holds(reason, "screen recording"@) || strings::holds(
                reason,
                "not authorized"@,
            ) || strings::holds(reason, "access denied"@);
            let of_macos = strings::holds(reason, "CGDisplayCreateImage"@) || strings::holds(
                reason,
                "kCGError"@,
            );
            &&& general ==> capture_error(platform, of_window, reason)
                == "screenRecordingDenied: "@ + reason
            &&& of_macos && (platform != Platform::Windows || !of_window) ==> capture_error(
                platform,
                of_window,
                reason,
            ) == "screenRecordingDenied: "@ + reason
            &&& !general && (!of_macos || platform == Platform::Windows) ==> capture_error(
                platform,
                true,
                reason,
            ) == "capture foreground window: "@ + reason
            &&& !general && !of_macos ==> capture_error(platform, false, reason)
                == "capture primary screen: "@ + reason
        }),
{
}

/// A frame of at most 1920 pixels in width is never scaled, so any height will do. A wider
/// one must be at most 2^21 pixels high, and four single-precision numbers for each pixel
/// of the intermediate image must fit in memory; an image without rows counts as one row.
pub proof fn law_narrow_frames_need_no_scaling(frame: Frame)
    ensures
        frame.width <= 1920 ==> frame.scalable(),
        frame.width > 1920 && frame.height > 0x20_0000 ==> !frame.scalable(),
        frame.width > 1920 && frame.height <= 0x20_0000 ==> {
            let rows = scaling::scaled_height_of(frame.width, frame.height);
            &&& rows > 0 ==> (frame.scalable() <==> 16 * (frame.width * rows) <= isize::MAX)
            &&& rows == 0 ==> (frame.scalable() <==> 16 * frame.width <= isize::MAX)
        },
{
    assert(frame.width * 1 == frame.width) by (nonlinear_arith);
}

} // verus!
