//! The RapidOCR engine: its model files, their download and its configuration.

use std::path::{PathBuf, MAIN_SEPARATOR};

use rapidocr_core::config::{PipelineConfig, RapidOcrConfig};
use vstd::prelude::*;

use crate::ocr::download;
use crate::ocr::download::{all_download_status, DownloadTable, PROVIDER_ID};
use crate::ocr::engine;
use crate::ocr::engine::{
    error_with, DownloadState, DownloadStatus, OcrEngine, OcrError, OcrProvider,
};
use crate::strings;
use crate::strings::{chars_of, concat2, concat3, starts_with, to_ascii_lower, trim_trailing};
use crate::types::{Platform, UserPreferences};

verus! {

// ---------------------------------------------------------------------------
// The model files
// ---------------------------------------------------------------------------

/// The model that finds text.
pub const DET_MODEL: &'static str = "PP-OCRv6_det_small.onnx";

/// Where the model that finds text is downloaded from by default.
pub const DET_MODEL_URL: &'static str =
    "https://www.modelscope.cn/models/RapidAI/RapidOCR/resolve/v3.9.2/onnx/PP-OCRv6/det/PP-OCRv6_det_small.onnx";

/// The model that reads text.
pub const REC_MODEL: &'static str = "PP-OCRv6_rec_small.onnx";

/// Where the model that reads text is downloaded from by default.
pub const REC_MODEL_URL: &'static str =
    "https://www.modelscope.cn/models/RapidAI/RapidOCR/resolve/v3.9.2/onnx/PP-OCRv6/rec/PP-OCRv6_rec_small.onnx";

/// The model that tells which way up text is.
pub const CLS_MODEL: &'static str = "ch_ppocr_mobile_v2.0_cls_mobile.onnx";

/// Where the model that tells which way up text is is downloaded from by default.
pub const CLS_MODEL_URL: &'static str =
    "https://www.modelscope.cn/models/RapidAI/RapidOCR/resolve/v3.9.2/onnx/PP-OCRv4/cls/ch_ppocr_mobile_v2.0_cls_mobile.onnx";

/// The dictionary of the model that reads text.
pub const REC_DICT: &'static str = "ppocrv6_dict.txt";

/// Where the dictionary is downloaded from by default.
pub const REC_DICT_URL: &'static str =
    "https://www.modelscope.cn/models/RapidAI/RapidOCR/resolve/v3.9.2/paddle/PP-OCRv6/rec/PP-OCRv6_rec_small/ppocrv6_dict.txt";

/// A model file and where it is downloaded from by default.
#[derive(Debug, Clone, Copy, PartialEq, Eq)]
pub struct ModelFile {
    pub name: &'static str,
    pub url: &'static str,
}

/// The names and default addresses of the model files.
pub open spec fn model_set() -> Seq<(Seq<char>, Seq<char>)> {
    seq![
        (DET_MODEL@, DET_MODEL_URL@),
        (REC_MODEL@, REC_MODEL_URL@),
        (CLS_MODEL@, CLS_MODEL_URL@),
        (REC_DICT@, REC_DICT_URL@),
    ]
}

/// The files that recognition needs: three models and a dictionary.
pub fn rapidocr_model_set() -> (files: Vec<ModelFile>)
    ensures
        files@.len() == model_set().len(),
        forall|i: int|
            0 <= i < files@.len() ==> ((#[trigger] files@[i]).name@, files@[i].url@)
                == model_set()[i],
{
    let mut files: Vec<ModelFile> = Vec::new();
    files.push(ModelFile { name: DET_MODEL, url: DET_MODEL_URL });
    files.push(ModelFile { name: REC_MODEL, url: REC_MODEL_URL });
    files.push(ModelFile { name: CLS_MODEL, url: CLS_MODEL_URL });
    files.push(ModelFile { name: REC_DICT, url: REC_DICT_URL });
    files
}

/// The address that a model file is downloaded from: the default one, or the file's
/// name below the mirror where there is one.
pub open spec fn download_url(
    mirror: Seq<char>,
    filename: Seq<char>,
    default_url: Seq<char>,
) -> Seq<char> {
    if mirror.len() == 0 {
        default_url
    } else {
        strings::without_trailing(mirror, '/') + "/"@ + filename
    }
}

/// The address that a model file is downloaded from. Slashes at the end of the mirror
/// do not count.
pub fn model_download_url(mirror: &str, filename: &str, default_url: &str) -> (url: String)
    ensures
        url@ == download_url(mirror@, filename@, default_url@),
{
    if mirror.is_empty() {
        default_url.to_string()
    } else {
        let front = trim_trailing(mirror, '/');
        concat3(front.as_str(), "/", filename)
    }
}

/// The id under which the download of a model file is listed.
pub open spec fn model_id_of(filename: Seq<char>) -> Seq<char> {
    PROVIDER_ID@ + "/"@ + filename
}

/// The status of a download that has just been started.
pub open spec fn just_started(filename: Seq<char>) -> engine::DownloadStatusView {
    engine::DownloadStatusView {
        provider_id: PROVIDER_ID@,
        model_id: model_id_of(filename),
        state: DownloadState::InProgress,
        bytes_total: None,
        bytes_downloaded: None,
        error: None,
    }
}

/// The table after the downloads of the first `n` model files have been started.
pub open spec fn started(list: Seq<engine::DownloadStatusView>, n: nat) -> Seq<
    engine::DownloadStatusView,
>
    decreases n,
{
    if n == 0 {
        list
    } else {
        download::entered(
            started(list, (n - 1) as nat),
            just_started(model_set()[n - 1].0),
        )
    }
}

/// A download to be run.
#[derive(Debug, Clone)]
pub struct DownloadJob {
    pub model_id: String,
    pub url: String,
}

/// Every file of the set is reported as present.
pub open spec fn all_present(present: Seq<bool>) -> bool {
    &&& present.len() >= model_set().len()
    &&& forall|i: int| 0 <= i < model_set().len() ==> #[trigger] present[i]
}

// ---------------------------------------------------------------------------
// The engine
// ---------------------------------------------------------------------------

/// The directory below the models directory that belongs to this engine.
pub const MODELS_SUBDIR: &'static str = "rapidocr";

/// The directory that holds the models of all engines.
#[derive(Debug, Clone)]
pub enum ModelsBase {
    /// The one that the application falls back on.
    Fallback,
    /// The one that the preferences name.
    Named(String),
}

/// The directory of an engine's models: `subdir` below `base`.
#[derive(Debug, Clone)]
pub struct ModelsDir {
    pub base: ModelsBase,
    pub subdir: &'static str,
}

/// A models directory; the base is `None` for the one the application falls back on.
pub struct ModelsDirView {
    pub base: Option<Seq<char>>,
    pub subdir: Seq<char>,
}

impl View for ModelsDir {
    type V = ModelsDirView;

    open spec fn view(&self) -> ModelsDirView {
        ModelsDirView {
            base: match self.base {
                ModelsBase::Fallback => None,
                ModelsBase::Named(dir) => Some(dir@),
            },
            subdir: self.subdir@,
        }
    }
}

/// Where the models are, by the preferences.
pub open spec fn models_dir(base_dir: Seq<char>) -> ModelsDirView {
    ModelsDirView {
        base: if base_dir.len() == 0 {
            None
        } else {
            Some(base_dir)
        },
        subdir: MODELS_SUBDIR@,
    }
}

/// The RapidOCR engine.
#[derive(Debug, Clone)]
pub struct RapidOcrEngine {
    pub models_dir: ModelsDir,
}

/// RapidOCR as the settings offer it.
pub open spec fn provider() -> engine::OcrProviderView {
    engine::OcrProviderView {
        id: PROVIDER_ID@,
        name: "RapidOCR (PP-OCRv6)"@,
        description: "本地 ONNX 模型，中文识别质量好，需下载约 30 MB 模型"@,
        local: true,
        requires_download: true,
        supported_platforms: seq!["windows"@, "macos"@, "linux"@],
    }
}

impl RapidOcrEngine {
    /// The directory of the models: `rapidocr` below the directory that the
    /// preferences name, or below the fallback where they name none.
    pub fn models_dir_for(prefs: &UserPreferences) -> (dir: ModelsDir)
        ensures
            dir@ == models_dir(prefs@.ocr_models_base_dir),
    {
        let base = if prefs.ocr_models_base_dir.as_str().is_empty() {
            ModelsBase::Fallback
        } else {
            ModelsBase::Named(prefs.ocr_models_base_dir.clone())
        };
        ModelsDir { base, subdir: MODELS_SUBDIR }
    }

    /// The engine for these preferences.
    pub fn new(prefs: &UserPreferences) -> (e: RapidOcrEngine)
        ensures
            e.models_dir@ == models_dir(prefs@.ocr_models_base_dir),
    {
        RapidOcrEngine { models_dir: Self::models_dir_for(prefs) }
    }

    /// Whether every file of the model set is there, given for each in turn whether it
    /// was found.
    pub fn all_model_files_exist(present: &Vec<bool>) -> (r: bool)
        ensures
            r == all_present(present@),
    {
        let files = rapidocr_model_set();
        let n: usize = files.len();
        if present.len() < n {
            return false;
        }
        let mut i: usize = 0;
        while i < n
            invariant
                i <= n,
                n == model_set().len(),
                n <= present@.len(),
                forall|k: int| 0 <= k < i ==> #[trigger] present@[k],
            decreases n - i,
        {
            if !present[i] {
                return false;
            }
            i += 1;
        }
        true
    }

    /// Enters the downloads of all model files as begun, and returns what is to be
    /// downloaded from where.
    pub fn start_download(&self, mirror: &str, table: &mut DownloadTable) -> (jobs: Vec<
        DownloadJob,
    >)
        requires
            old(table).wf(),
        ensures
            final(table).wf(),
            final(table)@ == started(old(table)@, model_set().len()),
            jobs@.len() == model_set().len(),
            forall|i: int|
                0 <= i < jobs@.len() ==> (#[trigger] jobs@[i]).model_id@ == model_id_of(
                    model_set()[i].0,
                ) && jobs@[i].url@ == download_url(mirror@, model_set()[i].0, model_set()[i].1),
    {
        let files = rapidocr_model_set();
        let mut jobs: Vec<DownloadJob> = Vec::new();
        let ghost before = table@;
        let n: usize = files.len();
        let mut i: usize = 0;
        while i < n
            invariant
                i <= n,
                n == files@.len(),
                n == model_set().len(),
                forall|k: int|
                    0 <= k < n ==> ((#[trigger] files@[k]).name@, files@[k].url@) == model_set()[k],
                table.wf(),
                table@ == started(before, i as nat),
                jobs@.len() == i,
                forall|k: int|
                    0 <= k < i ==> (#[trigger] jobs@[k]).model_id@ == model_id_of(model_set()[k].0)
                        && jobs@[k].url@ == download_url(
                        mirror@,
                        model_set()[k].0,
                        model_set()[k].1,
                    ),
            decreases n - i,
        {
            let file = files[i];
            let model_id = concat3(PROVIDER_ID, "/", file.name);
            let url = model_download_url(mirror, file.name, file.url);
            let status = DownloadStatus {
                provider_id: PROVIDER_ID.to_string(),
                model_id: model_id.clone(),
                state: DownloadState::InProgress,
                bytes_total: None,
                bytes_downloaded: None,
                error: None,
            };
            table.insert(status);
            jobs.push(DownloadJob { model_id, url });
            i += 1;
        }
        jobs
    }

    /// Takes note of the removal of the models' directory: once it is gone all downloads
    /// are forgotten; where it could not be removed they stay, and the reason is passed
    /// on.
    pub fn delete_models(&self, removed: Result<(), String>, table: &mut DownloadTable) -> (r:
        Result<(), String>)
        requires
            old(table).wf(),
        ensures
            final(table).wf(),
            match removed {
                Ok(()) => r is Ok && final(table)@.len() == 0,
                Err(e) => r matches Err(x) && x@ == e@ && final(table)@ == old(table)@,
            },
    {
        match removed {
            Ok(()) => {
                table.clear();
                Ok(())
            },
            Err(e) => Err(e),
        }
    }

    /// RapidOCR as the settings offer it.
    pub fn provider_list() -> (list: Vec<OcrProvider>)
        ensures
            engine::provider_views(list@) == seq![provider()],
    {
        let platforms = vec!["windows".to_string(), "macos".to_string(), "linux".to_string()];
        assert(strings::texts(platforms@) =~= seq!["windows"@, "macos"@, "linux"@]);
        let list = vec![
            OcrProvider {
                id: PROVIDER_ID.to_string(),
                name: "RapidOCR (PP-OCRv6)".to_string(),
                description: "本地 ONNX 模型，中文识别质量好，需下载约 30 MB 模型".to_string(),
                local: true,
                requires_download: true,
                supported_platforms: platforms,
            },
        ];
        assert(engine::provider_views(list@) =~= seq![provider()]);
        list
    }
}

impl OcrEngine for RapidOcrEngine {
    open spec fn id(&self) -> Seq<char> {
        PROVIDER_ID@
    }

    open spec fn wants_download(&self) -> bool {
        true
    }

    open spec fn reported(&self, table: Seq<engine::DownloadStatusView>) -> Option<
        Seq<engine::DownloadStatusView>,
    > {
        Some(table)
    }

    fn provider_id(&self) -> (id: &str) {
        PROVIDER_ID
    }

    fn requires_download(&self) -> (r: bool) {
        true
    }

    fn download_status(&self, table: &DownloadTable) -> (r: Option<Vec<DownloadStatus>>) {
        Some(all_download_status(table))
    }
}

// ---------------------------------------------------------------------------
// The configuration
// ---------------------------------------------------------------------------

/// The configuration of the recognition pipeline.
#[verifier::external_type_specification]
#[verifier::external_body]
pub struct ExRapidOcrConfig(RapidOcrConfig);

/// The configuration that `RapidOcrConfig::ppocr_v6_small` of rapidocr-core makes for a
/// directory, on the platform that the library is built for.
pub uninterp spec fn small_config(dir: Seq<char>) -> RapidOcrConfig;

/// The files that a configuration reads, and the stages that it runs.
#[derive(Debug, Clone)]
pub struct ConfigLayout {
    /// What stands between a directory and a file on this platform.
    pub separator: char,
    pub det_model: String,
    pub cls_model: String,
    pub rec_model: String,
    pub rec_dict: String,
    pub use_det: bool,
    pub use_cls: bool,
    pub use_rec: bool,
}

/// A configuration of the recognition pipeline, and what it reads and runs.
pub struct BuiltConfig {
    pub config: RapidOcrConfig,
    pub layout: ConfigLayout,
}

/// `dir` is a drive of Windows and nothing more, such as `C:`.
pub open spec fn is_bare_drive(dir: Seq<char>) -> bool {
    &&& dir.len() == 2
    &&& 'a' <= strings::ascii_lower(dir[0]) && strings::ascii_lower(dir[0]) <= 'z'
    &&& dir[1] == ':'
}

/// Windows takes `dir` verbatim.
pub open spec fn is_verbatim(dir: Seq<char>) -> bool {
    strings::begins(dir, "\\\\?\\"@)
}

/// Nothing stands between `dir` and the name of a file in it: `dir` is empty, ends with
/// a separator, or is a bare drive. A backslash separates, and drives and verbatim
/// directories are known, only where the backslash is the separator. In a verbatim
/// directory a slash separates nothing.
pub open spec fn needs_no_separator(dir: Seq<char>, separator: char) -> bool {
    ||| dir.len() == 0
    ||| dir.last() == '/' && !(separator == '\\' && is_verbatim(dir))
    ||| separator == '\\' && (dir.last() == '\\' || is_bare_drive(dir))
}

/// The path of the file `name` in the directory `dir`.
pub open spec fn path_in(dir: Seq<char>, name: Seq<char>, separator: char) -> Seq<char> {
    if needs_no_separator(dir, separator) {
        dir + name
    } else {
        dir.push(separator) + name
    }
}

/// The path of the file `name` in the directory `dir`.
fn join_path(dir: &str, name: &str, separator: char) -> (path: String)
    ensures
        path@ == path_in(dir@, name@, separator),
{
    let chars = chars_of(dir);
    let n: usize = chars.len();
    let backslash = separator == '\\';
    let verbatim = starts_with(dir, "\\\\?\\");
    let no_separator = if n == 0 {
        true
    } else {
        let last = chars[n - 1];
        let bare_drive = n == 2 && 'a' <= to_ascii_lower(chars[0]) && to_ascii_lower(chars[0])
            <= 'z' && chars[1] == ':';
        (last == '/' && !(backslash && verbatim)) || (backslash && (last == '\\' || bare_drive))
    };
    if no_separator {
        concat2(dir, name)
    } else {
        let mut front = dir.to_string();
        front.push(separator);
        concat2(front.as_str(), name)
    }
}

/// What stands between a directory and a file in it.
pub open spec fn separator_on(platform: Platform) -> char {
    if platform == Platform::Windows {
        '\\'
    } else {
        '/'
    }
}

/// The path of a models directory, given the base to fall back on.
pub open spec fn models_path(
    dir: ModelsDirView,
    fallback_root: Seq<char>,
    platform: Platform,
) -> Seq<char> {
    let base = match dir.base {
        Some(named) => named,
        None => fallback_root,
    };
    path_in(base, dir.subdir, separator_on(platform))
}

impl ModelsDir {
    /// The path of the directory, given the base to fall back on. A base that Windows
    /// takes verbatim is kept as it is written.
    pub fn path(&self, fallback_root: &str, platform: Platform) -> (path: String)
        ensures
            path@ == models_path(self@, fallback_root@, platform),
    {
        let separator = if platform == Platform::Windows {
            '\\'
        } else {
            '/'
        };
        match &self.base {
            ModelsBase::Fallback => join_path(fallback_root, self.subdir, separator),
            ModelsBase::Named(dir) => join_path(dir.as_str(), self.subdir, separator),
        }
    }
}

/// `path` is the file `name` in the directory `dir`. A directory that Windows takes
/// verbatim, one that begins with `\\\\?\\`, may be written otherwise in `path`.
pub open spec fn file_in(
    dir: Seq<char>,
    name: Seq<char>,
    separator: char,
    path: Seq<char>,
) -> bool {
    &&& strings::ends(path, name)
    &&& separator == '\\' && is_verbatim(dir) || path == path_in(
        dir,
        name,
        separator,
    )
}

/// The layout runs all three stages, on the files of the set in the directory `dir`.
pub open spec fn reads_model_set(layout: ConfigLayout, dir: Seq<char>) -> bool {
    &&& layout.separator == '/' || layout.separator == '\\'
    &&& file_in(dir, model_set()[0].0, layout.separator, layout.det_model@)
    &&& file_in(dir, model_set()[1].0, layout.separator, layout.rec_model@)
    &&& file_in(dir, model_set()[2].0, layout.separator, layout.cls_model@)
    &&& file_in(dir, model_set()[3].0, layout.separator, layout.rec_dict@)
    &&& layout.use_det
    &&& layout.use_cls
    &&& layout.use_rec
}

/// Calls `RapidOcrConfig::ppocr_v6_small` of rapidocr-core and then its `validate`, and
/// copies paths and switches out of the configuration.
///
/// Claimed of them: the configuration depends on the directory alone, and it passes; its
/// stages are all switched on; and the paths of its models and of its dictionary are the
/// four file names, joined to the directory as Windows, macOS and Linux do it, with the
/// separator that `MAIN_SEPARATOR` of the standard library gives. The remaining settings
/// of the configuration are not described.
#[verifier::external_body]
fn ppocr_v6_small(dir: &str) -> (r: Result<BuiltConfig, String>)
    ensures
        r is Ok,
        r->Ok_0.config == small_config(dir@),
        reads_model_set(r->Ok_0.layout, dir@),
{
    let config = RapidOcrConfig::ppocr_v6_small(dir);
    config.validate().map_err(|e| format!("{e:#}"))?;
    let text = |path: Option<&PathBuf>| path.map(|p| p.display().to_string()).unwrap_or_default();
    let PipelineConfig { use_det, use_cls, use_rec } = config.pipeline;
    let layout = ConfigLayout {
        separator: MAIN_SEPARATOR,
        det_model: text(config.det.as_ref().map(|c| &c.model_path)),
        cls_model: text(config.cls.as_ref().map(|c| &c.model_path)),
        rec_model: text(config.rec.as_ref().map(|c| &c.model_path)),
        rec_dict: text(config.rec.as_ref().map(|c| &c.dict_path)),
        use_det,
        use_cls,
        use_rec,
    };
    Ok(BuiltConfig { config, layout })
}

impl RapidOcrEngine {
    /// The configuration of the PP-OCRv6 pipeline with its models in `models_dir`. It
    /// reads the files of the model set from there, and runs all three stages.
    pub fn build_config(models_dir: &str) -> (r: Result<BuiltConfig, OcrError>)
        ensures
            r matches Ok(built) && built.config == small_config(models_dir@) && reads_model_set(
                built.layout,
                models_dir@,
            ),
    {
        match ppocr_v6_small(models_dir) {
            Ok(built) => Ok(built),
            Err(e) => Err(error_with("RapidOCR 配置无效: ", e.as_str())),
        }
    }
}

// ---------------------------------------------------------------------------
// Laws
// ---------------------------------------------------------------------------

proof fn lemma_address_ends_with(front: Seq<char>, url: Seq<char>, name: Seq<char>)
    requires
        url =~= front + seq!['/'] + name,
        forall|i: int| 0 <= i < name.len() ==> name[i] != '/',
    ensures
        strings::last_segment(url) == name,
{
    strings::lemma_last_segment_of_join(front, name);
}

proof fn lemma_default_address(i: int)
    requires
        0 <= i < model_set().len(),
    ensures
        strings::last_segment(model_set()[i].1) == model_set()[i].0,
        forall|k: int| 0 <= k < model_set()[i].0.len() ==> model_set()[i].0[k] != '/',
{
    reveal_strlit("PP-OCRv6_det_small.onnx");
    reveal_strlit(
        "https://www.modelscope.cn/models/RapidAI/RapidOCR/resolve/v3.9.2/onnx/PP-OCRv6/det/PP-OCRv6_det_small.onnx",
    );
    reveal_strlit("PP-OCRv6_rec_small.onnx");
    reveal_strlit(
        "https://www.modelscope.cn/models/RapidAI/RapidOCR/resolve/v3.9.2/onnx/PP-OCRv6/rec/PP-OCRv6_rec_small.onnx",
    );
    reveal_strlit("ch_ppocr_mobile_v2.0_cls_mobile.onnx");
    reveal_strlit(
        "https://www.modelscope.cn/models/RapidAI/RapidOCR/resolve/v3.9.2/onnx/PP-OCRv4/cls/ch_ppocr_mobile_v2.0_cls_mobile.onnx",
    );
    reveal_strlit("ppocrv6_dict.txt");
    reveal_strlit(
        "https://www.modelscope.cn/models/RapidAI/RapidOCR/resolve/v3.9.2/paddle/PP-OCRv6/rec/PP-OCRv6_rec_small/ppocrv6_dict.txt",
    );
    let (name, url) = model_set()[i];
    let front = url.subrange(0, url.len() - name.len() - 1);
    lemma_address_ends_with(front, url, name);
}

/// Whatever the mirror, a model file is saved under its own name: the last segment of
/// its address is the name that the configuration reads.
pub proof fn law_download_keeps_the_file_name(model_id: Seq<char>, mirror: Seq<char>, i: int)
    requires
        0 <= i < model_set().len(),
    ensures
        download::fresh(
            model_id,
            download_url(mirror, model_set()[i].0, model_set()[i].1),
        ).file_name == model_set()[i].0,
{
    lemma_default_address(i);
    reveal_strlit("/");
    assert("/"@ =~= seq!['/']);
    strings::lemma_last_segment_of_join(
        strings::without_trailing(mirror, '/'),
        model_set()[i].0,
    );
}

/// A slash at the end of the mirror changes no address.
pub proof fn law_trailing_slash_does_not_count(
    mirror: Seq<char>,
    filename: Seq<char>,
    default_url: Seq<char>,
)
    requires
        mirror.len() > 0,
    ensures
        download_url(mirror.push('/'), filename, default_url) == download_url(
            mirror,
            filename,
            default_url,
        ),
{
    assert(mirror.push('/').drop_last() =~= mirror);
}

/// The download of `model_id`, where the list holds it.
pub open spec fn entry_of(
    list: Seq<engine::DownloadStatusView>,
    model_id: Seq<char>,
) -> engine::DownloadStatusView {
    list[download::place_of(list, model_id)]
}

proof fn lemma_entered_entry(
    list: Seq<engine::DownloadStatusView>,
    status: engine::DownloadStatusView,
    model_id: Seq<char>,
)
    requires
        download::ids_differ(list),
    ensures
        download::ids_differ(download::entered(list, status)),
        model_id == status.model_id ==> download::listed(
            download::entered(list, status),
            model_id,
        ) && entry_of(download::entered(list, status), model_id) == status,
        model_id != status.model_id ==> download::listed(download::entered(list, status), model_id)
            == download::listed(list, model_id),
        model_id != status.model_id && download::listed(list, model_id) ==> entry_of(
            download::entered(list, status),
            model_id,
        ) == entry_of(list, model_id),
{
    download::lemma_entered_keeps_ids(list, status);
    let after = download::entered(list, status);
    let p = download::place_of(list, status.model_id);
    if download::listed(list, status.model_id) {
        assert(download::is_entry(list, status.model_id, p));
        assert(download::is_entry(after, status.model_id, p));
    } else {
        assert(download::is_entry(after, status.model_id, list.len() as int));
    }
    let here = download::place_of(after, status.model_id);
    assert(download::is_entry(after, status.model_id, here));
    if model_id != status.model_id {
        if download::listed(list, model_id) {
            let q = download::place_of(list, model_id);
            assert(download::is_entry(list, model_id, q));
            assert(download::is_entry(after, model_id, q));
            let r = download::place_of(after, model_id);
            assert(download::is_entry(after, model_id, r));
            assert(after[q].model_id == after[r].model_id);
        }
        if download::listed(after, model_id) {
            let r = download::place_of(after, model_id);
            assert(download::is_entry(after, model_id, r));
            assert(download::is_entry(list, model_id, r));
        }
    }
}

proof fn lemma_model_ids_differ(i: int, j: int)
    requires
        0 <= i < model_set().len(),
        0 <= j < model_set().len(),
        i != j,
    ensures
        model_id_of(model_set()[i].0) != model_id_of(model_set()[j].0),
{
    reveal_strlit("PP-OCRv6_det_small.onnx");
    reveal_strlit("PP-OCRv6_rec_small.onnx");
    reveal_strlit("ch_ppocr_mobile_v2.0_cls_mobile.onnx");
    reveal_strlit("ppocrv6_dict.txt");
    let lead = PROVIDER_ID@ + "/"@;
    let a = model_set()[i].0;
    let b = model_set()[j].0;
    assert(a.len() != b.len() || a[9] != b[9]);
    assert((lead + a).len() == lead.len() + a.len());
    if a.len() == b.len() {
        assert((lead + a)[lead.len() as int + 9] == a[9]);
        assert((lead + b)[lead.len() as int + 9] == b[9]);
    }
}

proof fn lemma_started_entry(list: Seq<engine::DownloadStatusView>, n: nat, model_id: Seq<char>)
    requires
        download::ids_differ(list),
        n <= model_set().len(),
    ensures
        download::ids_differ(started(list, n)),
        forall|i: int|
            0 <= i < n && model_id == #[trigger] model_id_of(model_set()[i].0)
                ==> download::listed(started(list, n), model_id) && entry_of(
                started(list, n),
                model_id,
            ) == just_started(model_set()[i].0),
        (forall|i: int| 0 <= i < n ==> model_id != #[trigger] model_id_of(model_set()[i].0)) ==> {
            &&& download::listed(started(list, n), model_id) == download::listed(list, model_id)
            &&& download::listed(list, model_id) ==> entry_of(started(list, n), model_id)
                == entry_of(list, model_id)
        },
    decreases n,
{
    if n > 0 {
        let m = (n - 1) as nat;
        lemma_started_entry(list, m, model_id);
        lemma_entered_entry(started(list, m), just_started(model_set()[n - 1].0), model_id);
        assert forall|i: int|
            0 <= i < n && model_id == #[trigger] model_id_of(
                model_set()[i].0,
            ) implies download::listed(started(list, n), model_id) && entry_of(
            started(list, n),
            model_id,
        ) == just_started(model_set()[i].0) by {
            if i < m {
                lemma_model_ids_differ(i, n - 1);
            }
        }
        if forall|i: int| 0 <= i < n ==> model_id != #[trigger] model_id_of(model_set()[i].0) {
            assert(model_id != model_id_of(model_set()[n - 1].0));
        }
    }
}

/// Starting the downloads puts every model file in progress with nothing received yet,
/// also where an earlier download of it had ended, and leaves all other downloads alone.
pub proof fn law_start_begins_every_download(
    list: Seq<engine::DownloadStatusView>,
    model_id: Seq<char>,
)
    requires
        download::ids_differ(list),
    ensures
        forall|i: int|
            0 <= i < model_set().len() && model_id == #[trigger] model_id_of(model_set()[i].0)
                ==> download::listed(started(list, model_set().len()), model_id) && entry_of(
                started(list, model_set().len()),
                model_id,
            ) == just_started(model_set()[i].0),
        (forall|i: int|
            0 <= i < model_set().len() ==> model_id != #[trigger] model_id_of(model_set()[i].0))
            ==> {
            &&& download::listed(started(list, model_set().len()), model_id) == download::listed(
                list,
                model_id,
            )
            &&& download::listed(list, model_id) ==> entry_of(
                started(list, model_set().len()),
                model_id,
            ) == entry_of(list, model_id)
        },
{
    lemma_started_entry(list, model_set().len(), model_id);
}

/// Without a mirror a file is downloaded from its default address; with one, from the
/// mirror, a slash and the name of the file, and the slashes that the mirror ends with
/// are left out.
pub proof fn law_mirror_stands_in_front_of_the_name(
    mirror: Seq<char>,
    slashes: Seq<char>,
    filename: Seq<char>,
    default_url: Seq<char>,
)
    requires
        mirror.len() > 0 ==> mirror.last() != '/',
        forall|i: int| 0 <= i < slashes.len() ==> #[trigger] slashes[i] == '/',
    ensures
        download_url(Seq::<char>::empty(), filename, default_url) == default_url,
        (mirror + slashes).len() > 0 ==> download_url(mirror + slashes, filename, default_url)
            == mirror + "/"@ + filename,
{
    strings::law_trailing_copies_are_taken_off(mirror, slashes, '/');
}

/// The path of a file: a separator stands between the directory and the name, unless the
/// directory is empty or ends with one. Windows knows the slash as a separator too, except
/// in a verbatim directory, and puts nothing behind a bare drive.
pub proof fn law_path_has_one_separator(dir: Seq<char>, name: Seq<char>)
    requires
        dir.len() > 0,
    ensures
        path_in(Seq::<char>::empty(), name, '/') == name,
        path_in(Seq::<char>::empty(), name, '\\') == name,
        dir.last() == '/' ==> path_in(dir, name, '/') == dir + name,
        dir.last() != '/' ==> path_in(dir, name, '/') == dir + seq!['/'] + name,
        dir.last() == '\\' ==> path_in(dir, name, '\\') == dir + name,
        dir.last() == '/' && !strings::begins(dir, "\\\\?\\"@) ==> path_in(dir, name, '\\') == dir
            + name,
        dir.last() == '/' && strings::begins(dir, "\\\\?\\"@) ==> path_in(dir, name, '\\') == dir
            + seq!['\\'] + name,
        dir.len() == 2 && dir[1] == ':' && (('a' <= dir[0] && dir[0] <= 'z') || ('A' <= dir[0]
            && dir[0] <= 'Z')) ==> path_in(dir, name, '\\') == dir + name,
        dir.last() != '/' && dir.last() != '\\' && !(dir.len() == 2 && dir[1] == ':' && (('a'
            <= dir[0] && dir[0] <= 'z') || ('A' <= dir[0] && dir[0] <= 'Z'))) ==> path_in(
            dir,
            name,
            '\\',
        ) == dir + seq!['\\'] + name,
{
    let empty = Seq::<char>::empty();
    assert(empty + name =~= name);
    assert(dir.push('/') =~= dir + seq!['/']);
    assert(dir.push('\\') =~= dir + seq!['\\']);
}

/// The models are in the directory `rapidocr` below the base that the preferences name,
/// and below the one to fall back on where they name none. Windows writes paths with
/// backslashes, the other systems with slashes.
pub proof fn law_models_are_below_their_base(
    base: Seq<char>,
    fallback_root: Seq<char>,
    platform: Platform,
)
    ensures
        models_path(models_dir(base), fallback_root, platform) == path_in(
            if base.len() > 0 {
                base
            } else {
                fallback_root
            },
            "rapidocr"@,
            if platform is Windows {
                '\\'
            } else {
                '/'
            },
        ),
        models_dir(base).subdir == "rapidocr"@,
        base.len() > 0 ==> models_dir(base).base == Some(base),
        base.len() == 0 ==> models_dir(base).base is None,
{
}

/// The four files of the model set and their default addresses; each is downloaded under
/// the id of RapidOCR and its name.
pub proof fn law_model_set_is_whole(filename: Seq<char>, present: Seq<bool>)
    ensures
        model_set().len() == 4,
        model_set()[0].0 == "PP-OCRv6_det_small.onnx"@,
        model_set()[1].0 == "PP-OCRv6_rec_small.onnx"@,
        model_set()[2].0 == "ch_ppocr_mobile_v2.0_cls_mobile.onnx"@,
        model_set()[3].0 == "ppocrv6_dict.txt"@,
        model_set()[0].1
            == "https://www.modelscope.cn/models/RapidAI/RapidOCR/resolve/v3.9.2/onnx/PP-OCRv6/det/PP-OCRv6_det_small.onnx"@,
        model_set()[1].1
            == "https://www.modelscope.cn/models/RapidAI/RapidOCR/resolve/v3.9.2/onnx/PP-OCRv6/rec/PP-OCRv6_rec_small.onnx"@,
        model_set()[2].1
            == "https://www.modelscope.cn/models/RapidAI/RapidOCR/resolve/v3.9.2/onnx/PP-OCRv4/cls/ch_ppocr_mobile_v2.0_cls_mobile.onnx"@,
        model_set()[3].1
            == "https://www.modelscope.cn/models/RapidAI/RapidOCR/resolve/v3.9.2/paddle/PP-OCRv6/rec/PP-OCRv6_rec_small/ppocrv6_dict.txt"@,
        model_id_of(filename) == "rapidocr"@ + "/"@ + filename,
        all_present(present) <==> present.len() >= 4 && present[0] && present[1] && present[2]
            && present[3],
{
    if present.len() >= 4 && present[0] && present[1] && present[2] && present[3] {
        assert forall|i: int| 0 <= i < model_set().len() implies #[trigger] present[i] by {}
    }
}

/// A download that has just been started is in progress, under the id of RapidOCR and its
/// file, and nothing else is known of it.
pub proof fn law_started_download_is_in_progress(filename: Seq<char>)
    ensures
        just_started(filename) == (engine::DownloadStatusView {
            provider_id: "rapidocr"@,
            model_id: "rapidocr"@ + "/"@ + filename,
            state: DownloadState::InProgress,
            bytes_total: None,
            bytes_downloaded: None,
            error: None,
        }),
{
}

proof fn lemma_started_appends(list: Seq<engine::DownloadStatusView>, n: nat)
    requires
        n <= model_set().len(),
        forall|k: int, i: int|
            0 <= k < list.len() && 0 <= i < model_set().len() ==> (#[trigger] list[k]).model_id
                != model_id_of((#[trigger] model_set()[i]).0),
    ensures
        started(list, n) == list + Seq::new(n, |i: int| just_started(model_set()[i].0)),
    decreases n,
{
    let first = Seq::new(n, |i: int| just_started(model_set()[i].0));
    if n > 0 {
        let m = (n - 1) as nat;
        let less = Seq::new(m, |i: int| just_started(model_set()[i].0));
        lemma_started_appends(list, m);
        let before = started(list, m);
        let status = just_started(model_set()[n - 1].0);
        assert forall|k: int| !download::is_entry(before, status.model_id, k) by {
            if 0 <= k < list.len() {
                assert(before[k] == list[k]);
                assert(list[k].model_id != model_id_of(model_set()[n - 1].0));
            } else if list.len() <= k < before.len() {
                assert(before[k] == less[k - list.len()]);
                lemma_model_ids_differ(k - list.len(), n - 1);
            }
        }
        assert(!download::listed(before, status.model_id));
        assert(before.push(status) =~= list + first);
    } else {
        assert(list + first =~= list);
    }
}

/// Where none of the model files is listed yet, starting adds the four downloads at the
/// end, in the order of the set.
pub proof fn law_start_lists_the_files_in_order(list: Seq<engine::DownloadStatusView>)
    requires
        forall|k: int, i: int|
            0 <= k < list.len() && 0 <= i < model_set().len() ==> (#[trigger] list[k]).model_id
                != model_id_of((#[trigger] model_set()[i]).0),
    ensures
        started(list, 4) == list + seq![
            just_started("PP-OCRv6_det_small.onnx"@),
            just_started("PP-OCRv6_rec_small.onnx"@),
            just_started("ch_ppocr_mobile_v2.0_cls_mobile.onnx"@),
            just_started("ppocrv6_dict.txt"@),
        ],
{
    lemma_started_appends(list, 4);
    assert(Seq::new(4nat, |i: int| just_started(model_set()[i].0)) =~= seq![
        just_started("PP-OCRv6_det_small.onnx"@),
        just_started("PP-OCRv6_rec_small.onnx"@),
        just_started("ch_ppocr_mobile_v2.0_cls_mobile.onnx"@),
        just_started("ppocrv6_dict.txt"@),
    ]);
}

} // verus!
