//! The model files, their addresses and the configuration of the pipeline.

use std::path::PathBuf;

use screen_context::ocr::download::{Download, DownloadTable};
use screen_context::ocr::engine::{DownloadState, DownloadStatus, OcrEngine};
use screen_context::ocr::rapidocr::{
    model_download_url, rapidocr_model_set, ModelsBase, RapidOcrEngine,
};
use screen_context::types::{Platform, UserPreferences};

/// The configuration must point to the files that are downloaded.
#[test]
fn build_config_points_to_downloaded_model_filenames() {
    let built = RapidOcrEngine::build_config("fake-models").unwrap();
    let cfg = built.config;

    let det = cfg.det.as_ref().unwrap();
    assert_eq!(
        det.model_path,
        PathBuf::from("fake-models/PP-OCRv6_det_small.onnx")
    );
    let cls = cfg.cls.as_ref().unwrap();
    assert_eq!(
        cls.model_path,
        PathBuf::from("fake-models/ch_ppocr_mobile_v2.0_cls_mobile.onnx")
    );
    let rec = cfg.rec.as_ref().unwrap();
    assert_eq!(
        rec.model_path,
        PathBuf::from("fake-models/PP-OCRv6_rec_small.onnx")
    );
    assert_eq!(rec.dict_path, PathBuf::from("fake-models/ppocrv6_dict.txt"));
    assert!(cfg.pipeline.use_det);
    assert!(cfg.pipeline.use_cls);
    assert!(cfg.pipeline.use_rec);
}

#[test]
fn layout_tells_what_the_configuration_holds() {
    for dir in ["fake-models", "", "/", "/models/", "a/b", "数据", "C:", "a\\"] {
        let built = RapidOcrEngine::build_config(dir).unwrap();
        assert_eq!(built.layout.separator, std::path::MAIN_SEPARATOR);
        let join = |name: &str| PathBuf::from(dir).join(name).to_str().unwrap().to_string();
        assert_eq!(built.layout.det_model, join("PP-OCRv6_det_small.onnx"));
        assert_eq!(built.layout.rec_model, join("PP-OCRv6_rec_small.onnx"));
        assert_eq!(
            built.layout.cls_model,
            join("ch_ppocr_mobile_v2.0_cls_mobile.onnx")
        );
        assert_eq!(built.layout.rec_dict, join("ppocrv6_dict.txt"));
        assert!(built.layout.use_det && built.layout.use_cls && built.layout.use_rec);
    }
}

/// The downloads must cover the dictionary that reading needs.
#[test]
fn model_set_includes_dictionary_asset() {
    let set = rapidocr_model_set();
    assert_eq!(set.len(), 4);
    assert!(set.iter().any(|file| file.name == "ppocrv6_dict.txt"));
}

fn sample() -> (&'static str, &'static str) {
    let file = rapidocr_model_set()[0];
    (file.name, file.url)
}

#[test]
fn mirror_prefix_joins_filename() {
    let (filename, url) = sample();
    let mirror = "https://mirror.example.com/rapidocr/v2.0.0";
    let joined = model_download_url(mirror, filename, url);
    assert_eq!(
        joined,
        format!("https://mirror.example.com/rapidocr/v2.0.0/{filename}")
    );
    assert_eq!(joined.rsplit('/').next().unwrap(), filename);
}

#[test]
fn mirror_trailing_slash_is_trimmed() {
    let (filename, url) = sample();
    assert_eq!(
        model_download_url("https://mirror.example.com/rapidocr/v2.0.0/", filename, url),
        format!("https://mirror.example.com/rapidocr/v2.0.0/{filename}")
    );
}

#[test]
fn empty_mirror_uses_default_urls() {
    for file in rapidocr_model_set() {
        let joined = model_download_url("", file.name, file.url);
        assert_eq!(joined, file.url);
        assert!(joined.ends_with(file.name));
    }
}

#[test]
fn many_trailing_slashes_are_trimmed() {
    assert_eq!(model_download_url("https://m///", "f", "d"), "https://m/f");
    assert_eq!(model_download_url("///", "f", "d"), "/f");
}

#[test]
fn every_download_is_saved_under_the_name_that_is_read() {
    for mirror in ["", "https://m", "https://m/", "m?a=/b"] {
        for file in rapidocr_model_set() {
            let url = model_download_url(mirror, file.name, file.url);
            assert_eq!(Download::new("id", &url).file_name, file.name);
        }
    }
}

#[test]
fn models_live_below_the_named_directory() {
    let mut prefs = UserPreferences::defaults(Platform::Windows);
    let dir = RapidOcrEngine::models_dir_for(&prefs);
    assert!(matches!(dir.base, ModelsBase::Fallback));
    assert_eq!(dir.subdir, "rapidocr");
    prefs.ocr_models_base_dir = "/srv/models".to_string();
    let dir = RapidOcrEngine::new(&prefs).models_dir;
    assert!(matches!(dir.base, ModelsBase::Named(base) if base == "/srv/models"));
    assert_eq!(dir.subdir, "rapidocr");
}

#[test]
fn all_model_files_must_be_there() {
    assert!(RapidOcrEngine::all_model_files_exist(&vec![true; 4]));
    assert!(!RapidOcrEngine::all_model_files_exist(&vec![true, true, true, false]));
    assert!(!RapidOcrEngine::all_model_files_exist(&vec![false, true, true, true]));
    assert!(!RapidOcrEngine::all_model_files_exist(&vec![true; 3]));
}

#[test]
fn starting_enters_every_file_as_in_progress() {
    let prefs = UserPreferences::defaults(Platform::Windows);
    let engine = RapidOcrEngine::new(&prefs);
    let mut table = DownloadTable::new();
    table.insert(DownloadStatus {
        provider_id: "rapidocr".to_string(),
        model_id: "rapidocr/ppocrv6_dict.txt".to_string(),
        state: DownloadState::Failed,
        bytes_total: Some(3),
        bytes_downloaded: Some(2),
        error: Some("create file: x".to_string()),
    });
    let jobs = engine.start_download("https://m/", &mut table);
    let urls: Vec<&str> = jobs.iter().map(|job| job.url.as_str()).collect();
    assert_eq!(
        urls,
        vec![
            "https://m/PP-OCRv6_det_small.onnx",
            "https://m/PP-OCRv6_rec_small.onnx",
            "https://m/ch_ppocr_mobile_v2.0_cls_mobile.onnx",
            "https://m/ppocrv6_dict.txt",
        ]
    );
    assert_eq!(jobs[1].model_id, "rapidocr/PP-OCRv6_rec_small.onnx");
    let list = engine.download_status(&table).unwrap();
    assert_eq!(list.len(), 4);
    for status in &list {
        assert_eq!(status.state, DownloadState::InProgress);
        assert_eq!(status.provider_id, "rapidocr");
        assert!(status.bytes_total.is_none() && status.bytes_downloaded.is_none());
        assert!(status.error.is_none());
    }
    for job in &jobs {
        assert!(list.iter().any(|status| status.model_id == job.model_id));
    }
}

#[test]
fn deleting_forgets_the_downloads_only_when_it_worked() {
    let prefs = UserPreferences::defaults(Platform::Windows);
    let engine = RapidOcrEngine::new(&prefs);
    let mut table = DownloadTable::new();
    engine.start_download("", &mut table);
    let refused = engine.delete_models(Err("busy".to_string()), &mut table);
    assert_eq!(refused, Err("busy".to_string()));
    assert_eq!(table.snapshot().len(), 4);
    assert_eq!(engine.delete_models(Ok(()), &mut table), Ok(()));
    assert!(table.snapshot().is_empty());
}

#[test]
fn rapidocr_describes_itself() {
    let engine = RapidOcrEngine::new(&UserPreferences::defaults(Platform::MacOs));
    assert_eq!(engine.provider_id(), "rapidocr");
    assert!(engine.requires_download());
    assert!(engine.ensure_model_downloaded().is_ok());
    assert!(engine.delete_model().is_ok());
    let list = RapidOcrEngine::provider_list();
    assert_eq!(list.len(), 1);
    assert_eq!(list[0].id, "rapidocr");
    assert_eq!(list[0].name, "RapidOCR (PP-OCRv6)");
    assert_eq!(
        list[0].description,
        "本地 ONNX 模型，中文识别质量好，需下载约 30 MB 模型"
    );
    assert!(list[0].local && list[0].requires_download);
    assert_eq!(list[0].supported_platforms, vec!["windows", "macos", "linux"]);
}
