//! The course of a recognition by RapidOCR: which steps it takes, where it looks for
//! the ONNX Runtime library, and how each failure is told.

use vstd::prelude::*;

use crate::ocr::engine;
use crate::ocr::engine::{OcrError, OcrLine, OcrResult};
use crate::ocr::rapidocr;
use crate::ocr::rapidocr::RapidOcrEngine;
use crate::strings;
use crate::strings::concat2;
use crate::types::Platform;

verus! {

// ---------------------------------------------------------------------------
// The ONNX Runtime library
// ---------------------------------------------------------------------------

/// The file name of the ONNX Runtime library.
pub open spec fn library_name(platform: Platform) -> Seq<char> {
    match platform {
        Platform::Windows => "onnxruntime.dll"@,
        Platform::MacOs => "libonnxruntime.dylib"@,
        Platform::Other => "libonnxruntime.so"@,
    }
}

/// The file name of the ONNX Runtime library.
pub fn onnxruntime_library_name(platform: Platform) -> (name: &'static str)
    ensures
        name@ == library_name(platform),
{
    match platform {
        Platform::Windows => "onnxruntime.dll",
        Platform::MacOs => "libonnxruntime.dylib",
        Platform::Other => "libonnxruntime.so",
    }
}

/// A place where the ONNX Runtime library may be.
#[derive(Debug, Clone)]
pub enum RuntimePlace {
    /// It is this file.
    File(String),
    /// It is in the directory of the models.
    ModelsDir,
    /// It is beside the executable.
    BesideExecutable,
    /// It is in this directory.
    Dir(String),
}

/// A place, with its text as a sequence of characters.
pub enum RuntimePlaceView {
    File(Seq<char>),
    ModelsDir,
    BesideExecutable,
    Dir(Seq<char>),
}

impl View for RuntimePlace {
    type V = RuntimePlaceView;

    open spec fn view(&self) -> RuntimePlaceView {
        match self {
            RuntimePlace::File(path) => RuntimePlaceView::File(path@),
            RuntimePlace::ModelsDir => RuntimePlaceView::ModelsDir,
            RuntimePlace::BesideExecutable => RuntimePlaceView::BesideExecutable,
            RuntimePlace::Dir(path) => RuntimePlaceView::Dir(path@),
        }
    }
}

/// The views of a sequence of places.
pub open spec fn place_views(places: Seq<RuntimePlace>) -> Seq<RuntimePlaceView> {
    Seq::new(places.len(), |i: int| places[i]@)
}

/// Whether a variable is set to more than nothing.
pub open spec fn is_set(var: Option<Seq<char>>) -> bool {
    var matches Some(text) && text.len() > 0
}

/// Where the library is looked for, in this order: the file that `library_var` names,
/// the directory of the models, the directory of the executable where it is known, and
/// the directory that `override_var` names.
pub open spec fn runtime_places(
    library_var: Option<Seq<char>>,
    executable_known: bool,
    override_var: Option<Seq<char>>,
) -> Seq<RuntimePlaceView> {
    let a = if is_set(library_var) {
        seq![RuntimePlaceView::File(library_var->Some_0)]
    } else {
        Seq::empty()
    };
    let b = a.push(RuntimePlaceView::ModelsDir);
    let c = if executable_known {
        b.push(RuntimePlaceView::BesideExecutable)
    } else {
        b
    };
    if is_set(override_var) {
        c.push(RuntimePlaceView::Dir(override_var->Some_0))
    } else {
        c
    }
}

/// Where the library is looked for.
pub fn onnxruntime_places(
    library_var: Option<&str>,
    executable_known: bool,
    override_var: Option<&str>,
) -> (places: Vec<RuntimePlace>)
    ensures
        place_views(places@) == runtime_places(
            strings::text_opt(library_var),
            executable_known,
            strings::text_opt(override_var),
        ),
{
    let mut places: Vec<RuntimePlace> = Vec::new();
    if let Some(path) = library_var {
        if !path.is_empty() {
            places.push(RuntimePlace::File(path.to_string()));
        }
    }
    places.push(RuntimePlace::ModelsDir);
    if executable_known {
        places.push(RuntimePlace::BesideExecutable);
    }
    if let Some(path) = override_var {
        if !path.is_empty() {
            places.push(RuntimePlace::Dir(path.to_string()));
        }
    }
    assert(place_views(places@) =~= runtime_places(
        strings::text_opt(library_var),
        executable_known,
        strings::text_opt(override_var),
    ));
    places
}

/// The first place that holds a file is `i`.
pub open spec fn first_found(found: Seq<bool>, i: int) -> bool {
    &&& 0 <= i < found.len()
    &&& found[i]
    &&& forall|k: int| 0 <= k < i ==> !#[trigger] found[k]
}

/// No place holds a file.
pub open spec fn none_found(found: Seq<bool>) -> bool {
    forall|k: int| 0 <= k < found.len() ==> !#[trigger] found[k]
}

/// The first place that holds a file, given for each in turn whether it does.
pub fn find_onnxruntime(found: &Vec<bool>) -> (r: Option<usize>)
    ensures
        match r {
            Some(i) => first_found(found@, i as int),
            None => forall|k: int| 0 <= k < found@.len() ==> !#[trigger] found@[k],
        },
{
    let n: usize = found.len();
    let mut i: usize = 0;
    while i < n
        invariant
            i <= n,
            n == found@.len(),
            forall|k: int| 0 <= k < i ==> !#[trigger] found@[k],
        decreases n - i,
    {
        if found[i] {
            return Some(i);
        }
        i += 1;
    }
    None
}

// ---------------------------------------------------------------------------
// The course of a recognition
// ---------------------------------------------------------------------------

/// What a recognition waits for.
#[derive(Debug, Clone, Copy, PartialEq, Eq, Structural)]
pub enum RecognitionPhase {
    /// The model files are to be looked for.
    Models,
    /// The image is to be decoded and prepared.
    Image,
    /// The ONNX Runtime library is to be looked for.
    FindRuntime,
    /// The library that was found is to be loaded.
    LoadRuntime,
    /// The pipeline is to be taken hold of.
    Pipeline,
    /// The pipeline is to be configured.
    Config,
    /// The pipeline is to be built.
    Build,
    /// The pipeline is to be run on the image.
    Run,
    /// Nothing is left to do.
    Over,
}

/// A recognition under way.
#[derive(Debug, Clone, Copy, PartialEq, Eq, Structural)]
pub struct Recognition {
    pub phase: RecognitionPhase,
    /// The place of the library, once it has been found.
    pub runtime: Option<usize>,
}

/// A line as the pipeline reads it. The score is given as the bits of an IEEE 754
/// single-precision number.
#[derive(Debug, Clone)]
pub struct ScoredLine {
    pub text: String,
    pub score: u32,
}

/// Lines with their scores as confidence.
pub open spec fn rated(lines: Seq<ScoredLine>) -> Seq<engine::OcrLineView> {
    Seq::new(
        lines.len(),
        |i: int| engine::OcrLineView { text: lines[i].text@, confidence: Some(lines[i].score) },
    )
}

/// What came of the thing that a recognition waited for.
#[derive(Debug, Clone)]
pub enum RecognitionEvent {
    /// It was done.
    Done,
    /// It failed, for this reason.
    Failed(String),
    /// Each model file in turn was found or not.
    ModelFiles(Vec<bool>),
    /// Each place for the library in turn holds a file or not.
    RuntimeFiles(Vec<bool>),
    /// The library at this path could not be loaded.
    RuntimeFailed { path: String, reason: String },
    /// The pipeline is at hand; it may have been built before.
    PipelineHeld { built: bool },
    /// Another thread broke off while it held the pipeline.
    PipelinePoisoned,
    /// The pipeline read these lines.
    Lines(Vec<ScoredLine>),
}

/// What is to be done next.
#[derive(Debug)]
pub enum RecognitionAction {
    /// The thing that the phase names.
    Perform(RecognitionPhase),
    /// The recognition is over with this result.
    Finish(Result<OcrResult, OcrError>),
}

/// An action, with its texts as sequences of characters.
pub enum RecognitionActionView {
    Perform(RecognitionPhase),
    Finish(Result<Seq<engine::OcrLineView>, Seq<char>>),
}

impl View for RecognitionAction {
    type V = RecognitionActionView;

    open spec fn view(&self) -> RecognitionActionView {
        match self {
            RecognitionAction::Perform(p) => RecognitionActionView::Perform(*p),
            RecognitionAction::Finish(r) => RecognitionActionView::Finish(engine::outcome(*r)),
        }
    }
}

/// The recognition goes on to `phase`.
pub open spec fn going_on(r: Recognition, phase: RecognitionPhase) -> (
    Recognition,
    RecognitionActionView,
) {
    (Recognition { phase, ..r }, RecognitionActionView::Perform(phase))
}

/// The recognition is over.
pub open spec fn ending(
    r: Recognition,
    result: Result<Seq<engine::OcrLineView>, Seq<char>>,
) -> (Recognition, RecognitionActionView) {
    (Recognition { phase: RecognitionPhase::Over, ..r }, RecognitionActionView::Finish(result))
}

/// `next` and `action` are what the event makes of a recognition: it looks for the
/// models, prepares the image, finds and loads the library, builds the pipeline where
/// that has not been done before, and runs it. Each step that fails ends it with a
/// message of its own. An event that does not answer what the recognition waits for
/// changes nothing.
pub open spec fn follows(
    r: Recognition,
    e: RecognitionEvent,
    next: Recognition,
    action: RecognitionActionView,
) -> bool {
    let step = (next, action);
    match (r.phase, e) {
        (RecognitionPhase::Models, RecognitionEvent::ModelFiles(found)) =>
            if rapidocr::all_present(found@) {
                step == going_on(r, RecognitionPhase::Image)
            } else {
                step == ending(
                    r,
                    Err("RapidOCR 模型尚未下载完成，请在「设置 → 服务 → OCR」中下载模型"@),
                )
            },
        (RecognitionPhase::Image, RecognitionEvent::Done) => step == going_on(
            r,
            RecognitionPhase::FindRuntime,
        ),
        (RecognitionPhase::Image, RecognitionEvent::Failed(reason)) => step == ending(
            r,
            Err(reason@),
        ),
        (RecognitionPhase::FindRuntime, RecognitionEvent::RuntimeFiles(found)) => {
            ||| next.runtime matches Some(i) && first_found(found@, i as int) && step == going_on(
                Recognition { runtime: next.runtime, ..r },
                RecognitionPhase::LoadRuntime,
            )
            ||| none_found(found@) && step == ending(
                r,
                Err(
                    "未找到 ONNX Runtime 动态库（onnxruntime.dll / libonnxruntime.dylib）。请将其放到模型目录或可执行文件旁，或设置 ORT_DYLIB_PATH 环境变量"@,
                ),
            )
        },
        (RecognitionPhase::LoadRuntime, RecognitionEvent::Done) => step == going_on(
            r,
            RecognitionPhase::Pipeline,
        ),
        (RecognitionPhase::LoadRuntime, RecognitionEvent::RuntimeFailed { path, reason }) => step
            == ending(r, Err("加载 ONNX Runtime 动态库失败 "@ + path@ + (": "@ + reason@))),
        (RecognitionPhase::Pipeline, RecognitionEvent::PipelineHeld { built }) => step == going_on(
            r,
            if built {
                RecognitionPhase::Run
            } else {
                RecognitionPhase::Config
            },
        ),
        (RecognitionPhase::Pipeline, RecognitionEvent::PipelinePoisoned) => step == ending(
            r,
            Err("rapidocr pipeline 锁被污染（poisoned）"@),
        ),
        (RecognitionPhase::Config, RecognitionEvent::Done) => step == going_on(
            r,
            RecognitionPhase::Build,
        ),
        (RecognitionPhase::Config, RecognitionEvent::Failed(reason)) => step == ending(
            r,
            Err(reason@),
        ),
        (RecognitionPhase::Build, RecognitionEvent::Done) => step == going_on(
            r,
            RecognitionPhase::Run,
        ),
        (RecognitionPhase::Build, RecognitionEvent::Failed(reason)) => step == ending(
            r,
            Err("初始化 RapidOCR 管线失败: "@ + reason@),
        ),
        (RecognitionPhase::Run, RecognitionEvent::Failed(reason)) => step == ending(
            r,
            Err("RapidOCR 推理失败: "@ + reason@),
        ),
        (RecognitionPhase::Run, RecognitionEvent::Lines(lines)) => step == ending(
            r,
            Ok(rated(lines@)),
        ),
        _ => step == going_on(r, r.phase),
    }
}

impl Recognition {
    /// A recognition that has not begun, and what it waits for first. On a platform that
    /// RapidOCR does not run on it is over at once.
    pub fn start(platform: Platform) -> (r: (Recognition, RecognitionAction))
        ensures
            r.0.runtime is None,
            (r.0, r.1@) == (if platform == Platform::Other {
                ending(
                    r.0,
                    Err("RapidOCR ONNX 推理暂不支持当前平台（仅 Windows / macOS）"@),
                )
            } else {
                going_on(r.0, RecognitionPhase::Models)
            }),
    {
        let mut r = Recognition { phase: RecognitionPhase::Models, runtime: None };
        let action = if platform == Platform::Other {
            r.fail("RapidOCR ONNX 推理暂不支持当前平台（仅 Windows / macOS）".to_string())
        } else {
            r.go_on(RecognitionPhase::Models)
        };
        (r, action)
    }

    fn go_on(&mut self, phase: RecognitionPhase) -> (action: RecognitionAction)
        ensures
            (*final(self), action@) == going_on(*old(self), phase),
    {
        self.phase = phase;
        RecognitionAction::Perform(phase)
    }

    fn fail(&mut self, message: String) -> (action: RecognitionAction)
        ensures
            (*final(self), action@) == ending(*old(self), Err(message@)),
    {
        self.phase = RecognitionPhase::Over;
        RecognitionAction::Finish(Err(OcrError { message }))
    }

    /// Takes in what came of the thing that the recognition waited for, and says what is
    /// to be done next.
    pub fn step(&mut self, event: RecognitionEvent) -> (action: RecognitionAction)
        ensures
            follows(*old(self), event, *final(self), action@),
    {
        let phase = self.phase;
        match (phase, event) {
            (RecognitionPhase::Models, RecognitionEvent::ModelFiles(found)) =>
                if RapidOcrEngine::all_model_files_exist(&found) {
                    self.go_on(RecognitionPhase::Image)
                } else {
                    self.fail(
                        "RapidOCR 模型尚未下载完成，请在「设置 → 服务 → OCR」中下载模型".to_string(),
                    )
                },
            (RecognitionPhase::Image, RecognitionEvent::Done) => self.go_on(
                RecognitionPhase::FindRuntime,
            ),
            (RecognitionPhase::Image, RecognitionEvent::Failed(reason)) => self.fail(reason),
            (RecognitionPhase::FindRuntime, RecognitionEvent::RuntimeFiles(found)) =>
                match find_onnxruntime(&found) {
                    Some(i) => {
                        self.runtime = Some(i);
                        self.go_on(RecognitionPhase::LoadRuntime)
                    },
                    None => self.fail(
                        "未找到 ONNX Runtime 动态库（onnxruntime.dll / libonnxruntime.dylib）。请将其放到模型目录或可执行文件旁，或设置 ORT_DYLIB_PATH 环境变量".to_string(),
                    ),
                },
            (RecognitionPhase::LoadRuntime, RecognitionEvent::Done) => self.go_on(
                RecognitionPhase::Pipeline,
            ),
            (RecognitionPhase::LoadRuntime, RecognitionEvent::RuntimeFailed { path, reason }) => {
                let front = concat2("加载 ONNX Runtime 动态库失败 ", path.as_str());
                let back = concat2(": ", reason.as_str());
                self.fail(concat2(front.as_str(), back.as_str()))
            },
            (RecognitionPhase::Pipeline, RecognitionEvent::PipelineHeld { built }) => if built {
                self.go_on(RecognitionPhase::Run)
            } else {
                self.go_on(RecognitionPhase::Config)
            },
            (RecognitionPhase::Pipeline, RecognitionEvent::PipelinePoisoned) => self.fail(
                "rapidocr pipeline 锁被污染（poisoned）".to_string(),
            ),
            (RecognitionPhase::Config, RecognitionEvent::Done) => self.go_on(
                RecognitionPhase::Build,
            ),
            (RecognitionPhase::Config, RecognitionEvent::Failed(reason)) => self.fail(reason),
            (RecognitionPhase::Build, RecognitionEvent::Done) => self.go_on(RecognitionPhase::Run),
            (RecognitionPhase::Build, RecognitionEvent::Failed(reason)) => self.fail(
                concat2("初始化 RapidOCR 管线失败: ", reason.as_str()),
            ),
            (RecognitionPhase::Run, RecognitionEvent::Failed(reason)) => self.fail(
                concat2("RapidOCR 推理失败: ", reason.as_str()),
            ),
            (RecognitionPhase::Run, RecognitionEvent::Lines(lines)) => {
                self.phase = RecognitionPhase::Over;
                RecognitionAction::Finish(Ok(rated_lines(lines)))
            },
            _ => self.go_on(phase),
        }
    }
}

/// Lines with their scores as confidence.
fn rated_lines(scored: Vec<ScoredLine>) -> (r: OcrResult)
    ensures
        r@ == rated(scored@),
{
    let mut lines: Vec<OcrLine> = Vec::new();
    let n: usize = scored.len();
    let mut i: usize = 0;
    while i < n
        invariant
            i <= n,
            n == scored@.len(),
            lines@.len() == i,
            forall|k: int|
                0 <= k < i ==> (#[trigger] lines@[k])@ == (engine::OcrLineView {
                    text: scored@[k].text@,
                    confidence: Some(scored@[k].score),
                }),
        decreases n - i,
    {
        lines.push(OcrLine { text: scored[i].text.clone(), confidence: Some(scored[i].score) });
        i += 1;
    }
    let r = OcrResult { lines };
    assert(r@ =~= rated(scored@));
    r
}

// ---------------------------------------------------------------------------
// Laws
// ---------------------------------------------------------------------------

/// A library named by its variable is taken before any other, and the directory of the
/// models is always searched.
pub proof fn law_named_library_comes_first(
    library_var: Option<Seq<char>>,
    executable_known: bool,
    override_var: Option<Seq<char>>,
)
    ensures
        is_set(library_var) ==> runtime_places(library_var, executable_known, override_var)[0]
            == RuntimePlaceView::File(library_var->Some_0),
        !is_set(library_var) ==> runtime_places(library_var, executable_known, override_var)[0]
            == RuntimePlaceView::ModelsDir,
        runtime_places(library_var, executable_known, override_var).contains(
            RuntimePlaceView::ModelsDir,
        ),
{
    let places = runtime_places(library_var, executable_known, override_var);
    assert(places[if is_set(library_var) {
        1int
    } else {
        0int
    }] == RuntimePlaceView::ModelsDir);
}

/// A recognition ends well only by running the pipeline.
pub proof fn law_lines_come_from_the_pipeline(
    r: Recognition,
    e: RecognitionEvent,
    next: Recognition,
    action: RecognitionActionView,
)
    requires
        follows(r, e, next, action),
        action matches RecognitionActionView::Finish(result) && result is Ok,
    ensures
        r.phase == RecognitionPhase::Run,
        e matches RecognitionEvent::Lines(lines) && action == RecognitionActionView::Finish(
            Ok(rated(lines@)),
        ),
{
}

/// A recognition that ends well has as many lines as the pipeline read, and each of them
/// in its place: its text, and its score as confidence.
pub proof fn law_lines_keep_their_places(
    r: Recognition,
    e: RecognitionEvent,
    next: Recognition,
    action: RecognitionAction,
    out: OcrResult,
)
    requires
        follows(r, e, next, action@),
        action == RecognitionAction::Finish(Ok(out)),
    ensures
        e matches RecognitionEvent::Lines(lines) && out.lines@.len() == lines@.len() && (forall|i: int|
            0 <= i < lines@.len() ==> (#[trigger] out.lines@[i]).text@ == lines@[i].text@
                && out.lines@[i].confidence == Some(lines@[i].score)),
        r.phase == RecognitionPhase::Run,
        next.phase == RecognitionPhase::Over,
{
    if let RecognitionEvent::Lines(lines) = e {
        assert(out@ == rated(lines@));
        assert(out@.len() == out.lines@.len());
        assert forall|i: int| 0 <= i < lines@.len() implies (#[trigger] out.lines@[i]).text@
            == lines@[i].text@ && out.lines@[i].confidence == Some(lines@[i].score) by {
            assert(out@[i] == out.lines@[i]@);
            assert(rated(lines@)[i].text == lines@[i].text@);
        }
    }
}

/// Whatever the pipeline reads, the recognition then ends well.
pub proof fn law_lines_end_the_recognition(
    r: Recognition,
    lines: Vec<ScoredLine>,
    next: Recognition,
    action: RecognitionAction,
)
    requires
        follows(r, RecognitionEvent::Lines(lines), next, action@),
        r.phase == RecognitionPhase::Run,
    ensures
        action is Finish && action->Finish_0 is Ok,
        next == (Recognition { phase: RecognitionPhase::Over, runtime: r.runtime }),
{
}

/// The steps of a recognition come one after the other: the models, the image, the
/// library, the pipeline, which is configured and built where it is new, and the run.
pub proof fn law_steps_come_in_order(
    r: Recognition,
    e: RecognitionEvent,
    next: Recognition,
    action: RecognitionAction,
)
    requires
        follows(r, e, next, action@),
    ensures
        r.phase == RecognitionPhase::Models && (e matches RecognitionEvent::ModelFiles(found)
            && found@.len() >= 4 && forall|k: int| 0 <= k < 4 ==> #[trigger] found@[k]) ==> action == RecognitionAction::Perform(RecognitionPhase::Image) && next
            == (Recognition { phase: RecognitionPhase::Image, runtime: r.runtime }),
        r.phase == RecognitionPhase::Image && e is Done ==> action == RecognitionAction::Perform(RecognitionPhase::FindRuntime) && next
            == (Recognition { phase: RecognitionPhase::FindRuntime, runtime: r.runtime }),
        r.phase == RecognitionPhase::LoadRuntime && e is Done ==> action == RecognitionAction::Perform(RecognitionPhase::Pipeline) && next
            == (Recognition { phase: RecognitionPhase::Pipeline, runtime: r.runtime }),
        r.phase == RecognitionPhase::Pipeline && (e matches RecognitionEvent::PipelineHeld {
            built,
        } && built) ==> action == RecognitionAction::Perform(RecognitionPhase::Run) && next
            == (Recognition { phase: RecognitionPhase::Run, runtime: r.runtime }),
        r.phase == RecognitionPhase::Pipeline && (e matches RecognitionEvent::PipelineHeld {
            built,
        } && !built) ==> action == RecognitionAction::Perform(RecognitionPhase::Config) && next
            == (Recognition { phase: RecognitionPhase::Config, runtime: r.runtime }),
        r.phase == RecognitionPhase::Config && e is Done ==> action == RecognitionAction::Perform(RecognitionPhase::Build) && next
            == (Recognition { phase: RecognitionPhase::Build, runtime: r.runtime }),
        r.phase == RecognitionPhase::Build && e is Done ==> action == RecognitionAction::Perform(RecognitionPhase::Run) && next
            == (Recognition { phase: RecognitionPhase::Run, runtime: r.runtime }),
{
}

/// The library is loaded from the first place that holds a file. Where no place holds
/// one the recognition is over.
pub proof fn law_first_library_is_loaded(
    r: Recognition,
    found: Vec<bool>,
    next: Recognition,
    action: RecognitionAction,
)
    requires
        follows(r, RecognitionEvent::RuntimeFiles(found), next, action@),
        r.phase == RecognitionPhase::FindRuntime,
    ensures
        (exists|k: int| 0 <= k < found@.len() && #[trigger] found@[k]) ==> {
            &&& action == RecognitionAction::Perform(RecognitionPhase::LoadRuntime)
            &&& next.phase == RecognitionPhase::LoadRuntime
            &&& next.runtime is Some && next.runtime->0 < found@.len()
            &&& found@[next.runtime->0 as int]
            &&& forall|k: int| 0 <= k < next.runtime->0 ==> !#[trigger] found@[k]
        },
        (forall|k: int| 0 <= k < found@.len() ==> !#[trigger] found@[k]) ==> action is Finish && action->Finish_0 is Err && action->Finish_0->Err_0@
            == "未找到 ONNX Runtime 动态库（onnxruntime.dll / libonnxruntime.dylib）。请将其放到模型目录或可执行文件旁，或设置 ORT_DYLIB_PATH 环境变量"@ && next == (Recognition {
            phase: RecognitionPhase::Over,
            runtime: r.runtime,
        }),
{
    if exists|k: int| 0 <= k < found@.len() && #[trigger] found@[k] {
        let k = choose|k: int| 0 <= k < found@.len() && #[trigger] found@[k];
        assert(found@[k]);
        let i = next.runtime->0;
        assert(first_found(found@, i as int));
    }
}

/// Each step that fails ends the recognition with a message that names the step; where
/// the image or the configuration fails, the message is the reason alone.
pub proof fn law_failures_are_told(
    r: Recognition,
    e: RecognitionEvent,
    next: Recognition,
    action: RecognitionAction,
)
    requires
        follows(r, e, next, action@),
    ensures
        r.phase == RecognitionPhase::Models && (e matches RecognitionEvent::ModelFiles(found)
            && (found@.len() < 4 || exists|k: int| 0 <= k < 4 && !#[trigger] found@[k])) ==> action is Finish && action->Finish_0 is Err && action->Finish_0->Err_0@
            == "RapidOCR 模型尚未下载完成，请在「设置 → 服务 → OCR」中下载模型"@ && next == (Recognition {
            phase: RecognitionPhase::Over,
            runtime: r.runtime,
        }),
        r.phase == RecognitionPhase::Image || r.phase == RecognitionPhase::Config ==> (
        e matches RecognitionEvent::Failed(reason) ==> action is Finish && action->Finish_0 is Err && action->Finish_0->Err_0@
            == reason@ && next == (Recognition {
            phase: RecognitionPhase::Over,
            runtime: r.runtime,
        })),
        r.phase == RecognitionPhase::LoadRuntime ==> (e matches RecognitionEvent::RuntimeFailed {
            path,
            reason,
        } ==> action is Finish && action->Finish_0 is Err && action->Finish_0->Err_0@
            == "加载 ONNX Runtime 动态库失败 "@ + path@ + (": "@ + reason@) && next == (Recognition {
            phase: RecognitionPhase::Over,
            runtime: r.runtime,
        })),
        r.phase == RecognitionPhase::Pipeline && e is PipelinePoisoned ==> action is Finish && action->Finish_0 is Err && action->Finish_0->Err_0@
            == "rapidocr pipeline 锁被污染（poisoned）"@ && next == (Recognition {
            phase: RecognitionPhase::Over,
            runtime: r.runtime,
        }),
        r.phase == RecognitionPhase::Build ==> (e matches RecognitionEvent::Failed(reason)
            ==> action is Finish && action->Finish_0 is Err && action->Finish_0->Err_0@
            == "初始化 RapidOCR 管线失败: "@ + reason@ && next == (Recognition {
            phase: RecognitionPhase::Over,
            runtime: r.runtime,
        })),
        r.phase == RecognitionPhase::Run ==> (e matches RecognitionEvent::Failed(reason) ==> action is Finish && action->Finish_0 is Err && action->Finish_0->Err_0@
            == "RapidOCR 推理失败: "@ + reason@ && next == (Recognition {
            phase: RecognitionPhase::Over,
            runtime: r.runtime,
        })),
{
}

/// An event that does not answer what the recognition waits for changes nothing, and the
/// same is asked for again. A recognition that is over stays so.
pub proof fn law_stray_event_changes_nothing(
    r: Recognition,
    e: RecognitionEvent,
    next: Recognition,
    action: RecognitionAction,
)
    requires
        follows(r, e, next, action@),
        match r.phase {
            RecognitionPhase::Models => !(e is ModelFiles),
            RecognitionPhase::Image => !(e is Done) && !(e is Failed),
            RecognitionPhase::FindRuntime => !(e is RuntimeFiles),
            RecognitionPhase::LoadRuntime => !(e is Done) && !(e is RuntimeFailed),
            RecognitionPhase::Pipeline => !(e is PipelineHeld) && !(e is PipelinePoisoned),
            RecognitionPhase::Config => !(e is Done) && !(e is Failed),
            RecognitionPhase::Build => !(e is Done) && !(e is Failed),
            RecognitionPhase::Run => !(e is Lines) && !(e is Failed),
            RecognitionPhase::Over => true,
        },
    ensures
        next == r,
        action == RecognitionAction::Perform(r.phase),
{
}

/// The places for the library stand in a fixed order: the file that the variable names
/// comes before all others and changes none of them; the directory that the other
/// variable names comes behind all others; the executable's directory comes right behind
/// that of the models. A variable set to nothing counts as not set.
pub proof fn law_places_stand_in_order(
    library: Seq<char>,
    dir: Seq<char>,
    library_var: Option<Seq<char>>,
    executable_known: bool,
    override_var: Option<Seq<char>>,
)
    ensures
        runtime_places(None, false, None) == seq![RuntimePlaceView::ModelsDir],
        runtime_places(None, true, None) == seq![
            RuntimePlaceView::ModelsDir,
            RuntimePlaceView::BesideExecutable,
        ],
        library.len() > 0 ==> runtime_places(Some(library), executable_known, override_var)
            == seq![RuntimePlaceView::File(library)] + runtime_places(
            None,
            executable_known,
            override_var,
        ),
        library.len() == 0 ==> runtime_places(Some(library), executable_known, override_var)
            == runtime_places(None, executable_known, override_var),
        dir.len() > 0 ==> runtime_places(library_var, executable_known, Some(dir))
            == runtime_places(library_var, executable_known, None).push(RuntimePlaceView::Dir(dir)),
        dir.len() == 0 ==> runtime_places(library_var, executable_known, Some(dir))
            == runtime_places(library_var, executable_known, None),
{
}

/// The library has the file name that each system gives to a shared library.
pub proof fn law_library_has_the_name_of_its_platform()
    ensures
        library_name(Platform::Windows) == "onnxruntime.dll"@,
        library_name(Platform::MacOs) == "libonnxruntime.dylib"@,
        library_name(Platform::Other) == "libonnxruntime.so"@,
{
}

} // verus!
