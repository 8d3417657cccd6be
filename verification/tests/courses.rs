//! The courses of a capture, of the recognitions and of a reading of the screen.

use screen_context::ocr::capture::{
    capture_failure, primary_monitor, window_with_id, CaptureAction, CaptureEvent, CapturePhase,
    Frame, ScreenCapture,
};
use screen_context::ocr::engine::{OcrEngine, OcrError, OcrLine, OcrResult};
use screen_context::ocr::recognition::{
    find_onnxruntime, onnxruntime_library_name, onnxruntime_places, Recognition,
    RecognitionAction, RecognitionEvent, RecognitionPhase, RuntimePlace, ScoredLine,
};
use screen_context::ocr::winrt::{
    WinRtAction, WinRtEvent, WinRtOcrEngine, WinRtPhase, WinRtRecognition,
};
use screen_context::ocr::{
    active_engine, available_providers, debug_file_names, debug_wanted, recognize_screen_text,
    ActiveEngine, ReadingAction, ReadingEvent, ReadingPhase,
};
use screen_context::screen_context::{
    capture_screen_context, capture_screen_context_sync, context_wanted, Attempt, TIMEOUT_SECONDS,
};
use screen_context::types::{Platform, UserPreferences};

// --- capture ---------------------------------------------------------------

fn failed(reason: &str) -> CaptureEvent {
    CaptureEvent::Failed(reason.to_string())
}

fn pixel() -> Frame {
    Frame { width: 1, height: 1, rgba: vec![1, 2, 3, 255] }
}

fn capture(platform: Platform, events: Vec<CaptureEvent>) -> (ScreenCapture, CaptureAction) {
    let (mut course, mut last) = ScreenCapture::start(platform);
    for event in events {
        last = course.step(event);
    }
    (course, last)
}

fn image_or_none(action: CaptureAction) -> Result<Option<Vec<u8>>, OcrError> {
    match action {
        CaptureAction::Finish(result) => result,
        CaptureAction::Perform(phase) => panic!("still waits for {phase:?}"),
    }
}

fn waits_for(action: CaptureAction, phase: CapturePhase) -> bool {
    matches!(action, CaptureAction::Perform(p) if p == phase)
}

/// With neither a window in the foreground nor a monitor to capture, the capture falls
/// back on the primary screen and ends without an error.
#[test]
fn foreground_window_capture_failure_fallback_does_not_panic() {
    let monitors_missing = vec![
        failed("no display"),
        CaptureEvent::Monitors(vec![]),
        CaptureEvent::Monitors(vec![Some(true)]),
    ];
    for event in monitors_missing {
        let mut events = vec![CaptureEvent::Foreground(None), event.clone()];
        events.push(failed("no display"));
        let (mut course, mut last) = ScreenCapture::start(Platform::Windows);
        for event in events {
            if matches!(last, CaptureAction::Finish(_)) {
                break;
            }
            last = course.step(event);
        }
        let result = image_or_none(last);
        assert!(
            result.is_ok(),
            "前台窗口捕获失败时回退逻辑不应 panic: {:?}",
            result.err()
        );
    }
}

#[test]
fn window_in_the_foreground_is_captured() {
    let (course, action) = capture(
        Platform::Windows,
        vec![
            CaptureEvent::Foreground(Some(7)),
            CaptureEvent::Windows(vec![None, Some(5), Some(7), Some(7)]),
        ],
    );
    assert!(waits_for(action, CapturePhase::Window));
    assert_eq!(course.chosen, Some(2));
    let mut course = course;
    let bytes = image_or_none(course.step(CaptureEvent::Image(pixel()))).unwrap().unwrap();
    let back = image::load_from_memory(&bytes).unwrap().to_rgba8();
    assert_eq!(back.into_raw(), vec![1, 2, 3, 255]);
    assert_eq!(course.phase, CapturePhase::Over);
}

#[test]
fn frontmost_window_is_captured_on_macos() {
    let (course, action) = capture(
        Platform::MacOs,
        vec![CaptureEvent::Windows(vec![None, Some(3)])],
    );
    assert!(waits_for(action, CapturePhase::Window));
    assert_eq!(course.chosen, Some(0));
}

#[test]
fn failures_of_the_window_fall_back_on_the_monitor() {
    let windows = vec![
        vec![CaptureEvent::Foreground(None)],
        vec![CaptureEvent::Foreground(Some(1)), failed("x")],
        vec![CaptureEvent::Foreground(Some(1)), CaptureEvent::Windows(vec![Some(2)])],
        vec![
            CaptureEvent::Foreground(Some(1)),
            CaptureEvent::Windows(vec![Some(1)]),
            failed("kCGError 5"),
        ],
        vec![
            CaptureEvent::Foreground(Some(1)),
            CaptureEvent::Windows(vec![Some(1)]),
            CaptureEvent::Image(Frame { width: 0, height: 0, rgba: vec![] }),
        ],
    ];
    for events in windows {
        let (course, action) = capture(Platform::Windows, events);
        assert!(waits_for(action, CapturePhase::Monitors));
        assert_eq!(course.chosen, None);
    }
    let (_, action) = capture(Platform::MacOs, vec![CaptureEvent::Windows(vec![])]);
    assert!(waits_for(action, CapturePhase::Access));
}

#[test]
fn missing_permission_is_an_error() {
    let (_, action) = capture(
        Platform::Windows,
        vec![
            CaptureEvent::Foreground(Some(1)),
            CaptureEvent::Windows(vec![Some(1)]),
            failed("access denied (5)"),
        ],
    );
    assert_eq!(
        image_or_none(action).unwrap_err().message,
        "screenRecordingDenied: access denied (5)"
    );
    let (_, action) = capture(
        Platform::MacOs,
        vec![CaptureEvent::Windows(vec![]), CaptureEvent::Access(false)],
    );
    assert_eq!(
        image_or_none(action).unwrap_err().message,
        "screenRecordingDenied: macOS screen recording permission is not granted"
    );
    let (_, action) = capture(
        Platform::MacOs,
        vec![
            CaptureEvent::Windows(vec![]),
            CaptureEvent::Access(true),
            CaptureEvent::Monitors(vec![Some(true)]),
            failed("CGDisplayCreateImage"),
        ],
    );
    assert_eq!(
        image_or_none(action).unwrap_err().message,
        "screenRecordingDenied: CGDisplayCreateImage"
    );
}

#[test]
fn primary_monitor_or_the_one_at_the_origin_is_captured() {
    let none = CaptureEvent::Foreground(None);
    let (course, action) = capture(
        Platform::Windows,
        vec![
            none.clone(),
            CaptureEvent::Monitors(vec![Some(false), None, Some(true)]),
        ],
    );
    assert!(waits_for(action, CapturePhase::Monitor));
    assert_eq!(course.chosen, Some(2));
    let (_, action) = capture(
        Platform::Windows,
        vec![none.clone(), CaptureEvent::Monitors(vec![Some(false)])],
    );
    assert!(waits_for(action, CapturePhase::Origin));
    let (course, action) = capture(
        Platform::Windows,
        vec![
            none.clone(),
            CaptureEvent::Monitors(vec![None]),
            CaptureEvent::Done,
            CaptureEvent::Image(pixel()),
        ],
    );
    assert_eq!(course.chosen, None);
    assert!(image_or_none(action).unwrap().is_some());
    let (_, action) = capture(
        Platform::Windows,
        vec![none, CaptureEvent::Monitors(vec![]), failed("none")],
    );
    assert!(image_or_none(action).unwrap().is_none());
}

#[test]
fn other_platforms_capture_nothing() {
    let (_, action) = capture(Platform::Other, vec![]);
    assert!(image_or_none(action).unwrap().is_none());
}

#[test]
fn capture_failures_are_classified() {
    let windows = Platform::Windows;
    let macos = Platform::MacOs;
    assert_eq!(
        capture_failure(windows, true, "not authorized"),
        "screenRecordingDenied: not authorized"
    );
    assert_eq!(
        capture_failure(macos, true, "a screen recording b"),
        "screenRecordingDenied: a screen recording b"
    );
    assert_eq!(capture_failure(macos, true, "kCGError"), "screenRecordingDenied: kCGError");
    assert_eq!(
        capture_failure(windows, true, "kCGError"),
        "capture foreground window: kCGError"
    );
    assert_eq!(capture_failure(windows, false, "kCGError"), "screenRecordingDenied: kCGError");
    assert_eq!(capture_failure(windows, false, "gone"), "capture primary screen: gone");
}

#[test]
fn windows_and_monitors_are_found() {
    assert_eq!(window_with_id(&vec![None, Some(4), Some(4)], 4), Some(1));
    assert_eq!(window_with_id(&vec![None, Some(4)], 5), None);
    assert_eq!(primary_monitor(&vec![None, Some(false), Some(true)]), Some(2));
    assert_eq!(primary_monitor(&vec![None, Some(false)]), None);
}

// --- RapidOCR --------------------------------------------------------------

fn reason(text: &str) -> RecognitionEvent {
    RecognitionEvent::Failed(text.to_string())
}

fn recognize(events: Vec<RecognitionEvent>) -> (Recognition, RecognitionAction) {
    let (mut course, mut last) = Recognition::start(Platform::Windows);
    for event in events {
        last = course.step(event);
    }
    (course, last)
}

fn lines_or_error(action: RecognitionAction) -> Result<OcrResult, OcrError> {
    match action {
        RecognitionAction::Finish(result) => result,
        RecognitionAction::Perform(phase) => panic!("still waits for {phase:?}"),
    }
}

fn up_to_pipeline() -> Vec<RecognitionEvent> {
    vec![
        RecognitionEvent::ModelFiles(vec![true; 4]),
        RecognitionEvent::Done,
        RecognitionEvent::RuntimeFiles(vec![false, true]),
        RecognitionEvent::Done,
    ]
}

#[test]
fn undisturbed_recognition_reads_lines() {
    let mut events = up_to_pipeline();
    events.push(RecognitionEvent::PipelineHeld { built: false });
    events.push(RecognitionEvent::Done);
    events.push(RecognitionEvent::Done);
    events.push(RecognitionEvent::Lines(vec![ScoredLine {
        text: "你好".to_string(),
        score: 0.5f32.to_bits(),
    }]));
    let (course, action) = recognize(events);
    assert_eq!(course.phase, RecognitionPhase::Over);
    assert_eq!(course.runtime, Some(1));
    let result = lines_or_error(action).unwrap();
    assert_eq!(result.lines.len(), 1);
    assert_eq!(result.lines[0].text, "你好");
    assert_eq!(result.lines[0].confidence.map(f32::from_bits), Some(0.5));
}

#[test]
fn built_pipeline_is_used_again() {
    let mut events = up_to_pipeline();
    events.push(RecognitionEvent::PipelineHeld { built: true });
    let (_, action) = recognize(events);
    assert!(matches!(action, RecognitionAction::Perform(RecognitionPhase::Run)));
}

#[test]
fn each_failure_of_a_recognition_is_told() {
    let models = "RapidOCR 模型尚未下载完成，请在「设置 → 服务 → OCR」中下载模型";
    let library = "未找到 ONNX Runtime 动态库（onnxruntime.dll / libonnxruntime.dylib）。请将其放到模型目录或可执行文件旁，或设置 ORT_DYLIB_PATH 环境变量";
    let mut held = up_to_pipeline();
    held.push(RecognitionEvent::PipelineHeld { built: false });
    let mut configured = held.clone();
    configured.push(RecognitionEvent::Done);
    let mut built = configured.clone();
    built.push(RecognitionEvent::Done);
    let missing = RecognitionEvent::ModelFiles(vec![true, false, true, true]);
    let unloadable = RecognitionEvent::RuntimeFailed {
        path: "/lib/ort.so".to_string(),
        reason: "bad".to_string(),
    };
    let cases = vec![
        (vec![], missing, models),
        (up_to_pipeline()[..1].to_vec(), reason("OCR 输入图片为空"), "OCR 输入图片为空"),
        (
            up_to_pipeline()[..2].to_vec(),
            RecognitionEvent::RuntimeFiles(vec![false, false]),
            library,
        ),
        (
            up_to_pipeline()[..3].to_vec(),
            unloadable,
            "加载 ONNX Runtime 动态库失败 /lib/ort.so: bad",
        ),
        (
            up_to_pipeline(),
            RecognitionEvent::PipelinePoisoned,
            "rapidocr pipeline 锁被污染（poisoned）",
        ),
        (held, reason("RapidOCR 配置无效: x"), "RapidOCR 配置无效: x"),
        (configured, reason("x"), "初始化 RapidOCR 管线失败: x"),
        (built, reason("x"), "RapidOCR 推理失败: x"),
    ];
    for (mut events, last, message) in cases {
        events.push(last);
        let (course, action) = recognize(events);
        assert_eq!(lines_or_error(action).unwrap_err().message, message);
        assert_eq!(course.phase, RecognitionPhase::Over);
    }
}

#[test]
fn rapidocr_runs_on_windows_and_macos_only() {
    let (_, action) = Recognition::start(Platform::Other);
    assert_eq!(
        lines_or_error(action).unwrap_err().message,
        "RapidOCR ONNX 推理暂不支持当前平台（仅 Windows / macOS）"
    );
    let (_, action) = Recognition::start(Platform::MacOs);
    assert!(matches!(action, RecognitionAction::Perform(RecognitionPhase::Models)));
}

#[test]
fn library_is_looked_for_in_order() {
    let places = onnxruntime_places(Some("/opt/ort.so"), true, Some("/foundry"));
    assert_eq!(places.len(), 4);
    assert!(matches!(&places[0], RuntimePlace::File(path) if path == "/opt/ort.so"));
    assert!(matches!(&places[1], RuntimePlace::ModelsDir));
    assert!(matches!(&places[2], RuntimePlace::BesideExecutable));
    assert!(matches!(&places[3], RuntimePlace::Dir(path) if path == "/foundry"));
    let places = onnxruntime_places(Some(""), false, Some(""));
    assert_eq!(places.len(), 1);
    assert!(matches!(&places[0], RuntimePlace::ModelsDir));
    assert_eq!(onnxruntime_places(None, true, None).len(), 2);
    assert_eq!(find_onnxruntime(&vec![false, true, true]), Some(1));
    assert_eq!(find_onnxruntime(&vec![false]), None);
}

#[test]
fn library_has_a_name_on_each_platform() {
    assert_eq!(onnxruntime_library_name(Platform::Windows), "onnxruntime.dll");
    assert_eq!(onnxruntime_library_name(Platform::MacOs), "libonnxruntime.dylib");
    assert_eq!(onnxruntime_library_name(Platform::Other), "libonnxruntime.so");
}

// --- the engine of Windows -------------------------------------------------

fn winrt(events: Vec<WinRtEvent>) -> WinRtAction {
    let mut course = WinRtRecognition::new();
    let mut last = WinRtAction::Perform(course.phase);
    for event in events {
        last = course.step(event);
    }
    last
}

#[test]
fn windows_recognizer_falls_back_on_the_profile() {
    let action = winrt(vec![WinRtEvent::Done, WinRtEvent::Failed("zh".to_string())]);
    assert!(matches!(action, WinRtAction::Perform(WinRtPhase::ProfileLanguages)));
    let action = winrt(vec![
        WinRtEvent::Done,
        WinRtEvent::Failed("zh".to_string()),
        WinRtEvent::Done,
        WinRtEvent::Lines(vec!["一".to_string(), "two".to_string()]),
    ]);
    match action {
        WinRtAction::Finish(Ok(result)) => {
            assert_eq!(result.lines.len(), 2);
            assert_eq!(result.lines[1].text, "two");
            assert!(result.lines.iter().all(|line| line.confidence.is_none()));
        }
        other => panic!("{other:?}"),
    }
}

#[test]
fn missing_language_is_told_with_both_reasons() {
    let action = winrt(vec![
        WinRtEvent::Done,
        WinRtEvent::Failed("A".to_string()),
        WinRtEvent::Failed("B".to_string()),
    ]);
    match action {
        WinRtAction::Finish(Err(e)) => assert_eq!(
            e.message,
            "winrtChineseOcrLanguageMissing: WinRT OCR cannot create a recognition engine for zh-Hans-CN (A) or user profile languages (B); install the Chinese OCR language pack"
        ),
        other => panic!("{other:?}"),
    }
}

#[test]
fn other_failures_of_windows_are_passed_on() {
    let at_decoding = winrt(vec![WinRtEvent::Failed("d".to_string())]);
    assert!(matches!(at_decoding, WinRtAction::Finish(Err(e)) if e.message == "d"));
    let at_recognition = winrt(vec![
        WinRtEvent::Done,
        WinRtEvent::Done,
        WinRtEvent::Failed("r".to_string()),
    ]);
    assert!(matches!(at_recognition, WinRtAction::Finish(Err(e)) if e.message == "r"));
}

#[test]
fn windows_engine_describes_itself() {
    let engine = WinRtOcrEngine::default();
    assert_eq!(engine, WinRtOcrEngine::new());
    assert_eq!(engine.provider_id(), "winrt");
    assert!(!engine.requires_download());
    let list = WinRtOcrEngine::provider_list();
    assert_eq!(list.len(), 1);
    assert_eq!(list[0].id, "winrt");
    assert_eq!(list[0].name, "Windows 原生 OCR");
    assert_eq!(
        list[0].description,
        "调用 Windows 10/11 内置的 Windows.Media.Ocr，无需下载模型，依赖系统已安装的 OCR 语言包"
    );
    assert_eq!(list[0].supported_platforms, vec!["windows"]);
}

// --- reading the screen ----------------------------------------------------

fn prefs(enabled: bool, provider: &str) -> UserPreferences {
    let mut prefs = UserPreferences::defaults(Platform::Windows);
    prefs.screen_context_enabled = enabled;
    prefs.active_ocr_provider = provider.to_string();
    prefs
}

#[test]
fn engine_is_chosen_by_the_preferences() {
    let windows = Platform::Windows;
    let id = |enabled: bool, provider: &str, platform: Platform| -> String {
        active_engine(&prefs(enabled, provider), platform).provider_id().to_string()
    };
    assert_eq!(id(true, "rapidocr", windows), "rapidocr");
    assert_eq!(id(true, "rapidocr", Platform::Other), "rapidocr");
    assert_eq!(id(true, "winrt", windows), "winrt");
    assert_eq!(id(true, "winrt", Platform::MacOs), "disabled");
    assert_eq!(id(true, "unknown", windows), "disabled");
    assert_eq!(id(true, "", windows), "disabled");
    assert_eq!(id(false, "rapidocr", windows), "disabled");
    assert_eq!(id(false, "winrt", windows), "disabled");
}

#[test]
fn engine_in_use_is_on_offer() {
    for platform in [Platform::Windows, Platform::MacOs, Platform::Other] {
        let offered = available_providers(platform);
        for provider in ["rapidocr", "winrt", "disabled", "x"] {
            let engine = active_engine(&prefs(true, provider), platform);
            let offer = offered.iter().find(|p| p.id == engine.provider_id()).unwrap();
            assert_eq!(offer.requires_download, engine.requires_download());
        }
    }
    let ids = |platform: Platform| -> Vec<String> {
        available_providers(platform).into_iter().map(|p| p.id).collect()
    };
    assert_eq!(ids(Platform::Windows), vec!["disabled", "rapidocr", "winrt"]);
    assert_eq!(ids(Platform::MacOs), vec!["disabled", "rapidocr"]);
    let off = &available_providers(Platform::Other)[0];
    assert_eq!(off.name, "关闭");
    assert_eq!(off.description, "不注入屏幕上下文");
    assert!(off.local && !off.requires_download);
}

#[test]
fn disabled_engine_finds_nothing() {
    let engine = active_engine(&prefs(false, "rapidocr"), Platform::Windows);
    match engine {
        ActiveEngine::Disabled(e) => {
            assert!(e.recognize(&[1, 2, 3]).unwrap().lines.is_empty());
            assert_eq!(e.provider_id(), "disabled");
            assert!(!e.requires_download());
        }
        other => panic!("{other:?}"),
    }
}

#[test]
fn nothing_is_captured_while_disabled() {
    for (enabled, provider) in [(false, "rapidocr"), (true, "unknown"), (true, "disabled")] {
        let (reading, action) =
            recognize_screen_text(&prefs(enabled, provider), Platform::Windows);
        assert_eq!(reading.phase, ReadingPhase::Over);
        assert!(matches!(action, ReadingAction::Finish(Ok(None))));
    }
}

fn line(text: &str) -> OcrLine {
    OcrLine { text: text.to_string(), confidence: None }
}

#[test]
fn recognized_lines_become_a_text() {
    let (mut reading, action) = recognize_screen_text(&prefs(true, "rapidocr"), Platform::Windows);
    assert!(matches!(action, ReadingAction::Capture));
    let action = reading.step(ReadingEvent::Captured(Ok(Some(vec![9, 8]))));
    assert!(matches!(action, ReadingAction::Recognize(image) if image == vec![9, 8]));
    let lines = vec![line(" 你 好 "), line("10:30"), line("★★★"), line("Hello")];
    let action = reading.step(ReadingEvent::Recognized(Ok(OcrResult { lines })));
    assert!(matches!(action, ReadingAction::Finish(Ok(Some(text))) if text == "你好\nHello"));
    assert_eq!(reading.phase, ReadingPhase::Over);
}

#[test]
fn reading_without_lines_has_no_text() {
    let (mut reading, _) = recognize_screen_text(&prefs(true, "winrt"), Platform::Windows);
    reading.step(ReadingEvent::Captured(Ok(Some(vec![]))));
    let action = reading.step(ReadingEvent::Recognized(Ok(OcrResult { lines: vec![line("--")] })));
    assert!(matches!(action, ReadingAction::Finish(Ok(None))));
}

#[test]
fn failures_of_a_reading_are_passed_on() {
    let start = || recognize_screen_text(&prefs(true, "rapidocr"), Platform::MacOs).0;
    let error = |text: &str| OcrError { message: text.to_string() };
    let message = |action: ReadingAction| match action {
        ReadingAction::Finish(Err(e)) => e.message,
        other => panic!("{other:?}"),
    };
    assert_eq!(message(start().step(ReadingEvent::Captured(Err(error("c"))))), "c");
    assert_eq!(
        message(start().step(ReadingEvent::CapturePanicked("p".to_string()))),
        "capture task panicked: p"
    );
    let none = start().step(ReadingEvent::Captured(Ok(None)));
    assert!(matches!(none, ReadingAction::Finish(Ok(None))));
    let mut reading = start();
    reading.step(ReadingEvent::Captured(Ok(Some(vec![]))));
    assert_eq!(message(reading.step(ReadingEvent::Recognized(Err(error("r"))))), "r");
    let mut reading = start();
    reading.step(ReadingEvent::Captured(Ok(Some(vec![]))));
    assert_eq!(
        message(reading.step(ReadingEvent::RecognitionPanicked("q".to_string()))),
        "ocr task panicked: q"
    );
    let waiting = start().step(ReadingEvent::RecognitionPanicked("q".to_string()));
    assert!(matches!(waiting, ReadingAction::Wait(ReadingPhase::Capture)));
}

#[test]
fn captures_are_kept_only_when_asked_for() {
    assert!(debug_wanted(Some("1")));
    assert!(!debug_wanted(Some("0")));
    assert!(!debug_wanted(Some("11")));
    assert!(!debug_wanted(None));
    let (image, text) = debug_file_names(1_723_456_789_012);
    assert_eq!(image, "1723456789012_capture.png");
    assert_eq!(text, "1723456789012_ocr.txt");
    assert_eq!(debug_file_names(0).0, "0_capture.png");
    assert_eq!(debug_file_names(u128::MAX).1, format!("{}_ocr.txt", u128::MAX));
}

#[test]
fn dictation_goes_on_without_a_context() {
    assert_eq!(TIMEOUT_SECONDS, 5);
    assert!(context_wanted(&prefs(true, "rapidocr")));
    assert!(!context_wanted(&prefs(false, "rapidocr")));
    let text = capture_screen_context(Attempt::Finished(Ok(Some("屏幕".to_string()))));
    assert_eq!(text.as_deref(), Some("屏幕"));
    assert!(capture_screen_context(Attempt::Finished(Ok(None))).is_none());
    let failed = Attempt::Finished(Err(OcrError { message: "x".to_string() }));
    assert!(capture_screen_context(failed).is_none());
    assert!(capture_screen_context(Attempt::TimedOut).is_none());
    assert!(capture_screen_context(Attempt::Skipped).is_none());
    assert!(capture_screen_context_sync().is_none());
}
