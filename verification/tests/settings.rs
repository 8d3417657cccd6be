//! What the settings page asks for.

use screen_context::commands::{
    active_provider_requires_download, cancel_ocr_model_download, delete_ocr_models,
    get_ocr_download_status, get_ocr_providers, get_ocr_settings, ocr_models_root,
    set_ocr_settings,
    start_ocr_model_download, test_ocr_recognition,
};
use screen_context::ocr::download::DownloadTable;
use screen_context::ocr::engine::DownloadState;
use screen_context::ocr::ReadingAction;
use screen_context::types::{Platform, UserPreferences};

#[test]
fn fresh_preferences_do_not_read_the_screen() {
    let windows = UserPreferences::defaults(Platform::Windows);
    assert!(!windows.screen_context_enabled);
    assert_eq!(windows.active_ocr_provider, "rapidocr");
    assert!(windows.ocr_models_base_dir.is_empty() && windows.ocr_download_mirror.is_empty());
    assert_eq!(UserPreferences::defaults(Platform::MacOs).active_ocr_provider, "disabled");
}

#[test]
fn settings_read_back_trimmed() {
    let mut prefs = UserPreferences::defaults(Platform::Windows);
    set_ocr_settings(
        &mut prefs,
        true,
        "winrt".to_string(),
        " /a b/c \n".to_string(),
        "\u{3000}https://m/\t".to_string(),
    );
    let shown = get_ocr_settings(&prefs, Platform::Windows, "C:\\root");
    assert!(shown.screen_context_enabled);
    assert_eq!(shown.active_provider_id, "winrt");
    assert_eq!(shown.models_base_dir, "/a b/c");
    assert_eq!(shown.download_mirror, "https://m/");
    assert_eq!(shown.models_root_dir, "/a b/c\\rapidocr");
    assert_eq!(shown.providers.len(), 3);
    assert!(!shown.requires_download);
}

#[test]
fn download_is_asked_for_by_the_chosen_engine() {
    let mut prefs = UserPreferences::defaults(Platform::Windows);
    let offered = get_ocr_providers(Platform::Windows);
    for (provider, needed) in [("rapidocr", true), ("winrt", false), ("disabled", false), ("x", false)] {
        prefs.active_ocr_provider = provider.to_string();
        assert_eq!(active_provider_requires_download(&prefs, &offered), needed);
        assert_eq!(get_ocr_settings(&prefs, Platform::Windows, "").requires_download, needed);
    }
}

#[test]
fn downloads_are_started_cancelled_and_deleted() {
    let mut prefs = UserPreferences::defaults(Platform::Windows);
    prefs.ocr_download_mirror = "https://preferred".to_string();
    let mut table = DownloadTable::new();
    let jobs = start_ocr_model_download(&prefs, None, &mut table);
    assert_eq!(jobs[3].url, "https://preferred/ppocrv6_dict.txt");
    let jobs = start_ocr_model_download(&prefs, Some("https://asked/".to_string()), &mut table);
    assert_eq!(jobs[3].url, "https://asked/ppocrv6_dict.txt");
    assert_eq!(get_ocr_download_status(&table).len(), 4);
    cancel_ocr_model_download(&mut table);
    assert!(get_ocr_download_status(&table).iter().all(|s| s.state == DownloadState::Cancelled));
    assert_eq!(
        delete_ocr_models(&prefs, Err("in use".to_string()), &mut table),
        Err("in use".to_string())
    );
    assert_eq!(get_ocr_download_status(&table).len(), 4);
    assert_eq!(delete_ocr_models(&prefs, Ok(()), &mut table), Ok(()));
    assert!(get_ocr_download_status(&table).is_empty());
}

#[test]
fn empty_mirror_that_is_asked_for_wins() {
    let mut prefs = UserPreferences::defaults(Platform::Windows);
    prefs.ocr_download_mirror = "https://preferred".to_string();
    let mut table = DownloadTable::new();
    let jobs = start_ocr_model_download(&prefs, Some(String::new()), &mut table);
    assert!(jobs[0].url.starts_with("https://www.modelscope.cn/"));
}

#[test]
fn trial_recognition_needs_the_screen_context() {
    let mut prefs = UserPreferences::defaults(Platform::Windows);
    let (_, action) = test_ocr_recognition(&prefs, Platform::Windows);
    assert!(matches!(action, ReadingAction::Finish(Ok(None))));
    prefs.screen_context_enabled = true;
    let (_, action) = test_ocr_recognition(&prefs, Platform::Windows);
    assert!(matches!(action, ReadingAction::Capture));
}

#[test]
fn page_shows_where_the_models_are() {
    let mut prefs = UserPreferences::defaults(Platform::Windows);
    assert_eq!(ocr_models_root(&prefs, Platform::Windows, "C:\\models"), "C:\\models\\rapidocr");
    assert_eq!(ocr_models_root(&prefs, Platform::MacOs, "/models"), "/models/rapidocr");
    for (base, windows, other) in [
        ("D:", "D:rapidocr", "D:/rapidocr"),
        ("D:\\", "D:\\rapidocr", "D:\\/rapidocr"),
        ("D:/m/", "D:/m/rapidocr", "D:/m/rapidocr"),
        ("/", "/rapidocr", "/rapidocr"),
        ("\\\\?\\D:\\m", "\\\\?\\D:\\m\\rapidocr", "\\\\?\\D:\\m/rapidocr"),
        ("模型", "模型\\rapidocr", "模型/rapidocr"),
    ] {
        prefs.ocr_models_base_dir = base.to_string();
        assert_eq!(ocr_models_root(&prefs, Platform::Windows, "x"), windows);
        assert_eq!(ocr_models_root(&prefs, Platform::Other, "x"), other);
        let joined = std::path::Path::new(base).join("rapidocr");
        let here = if std::path::MAIN_SEPARATOR == '/' { Platform::Other } else { Platform::Windows };
        assert_eq!(ocr_models_root(&prefs, here, "x"), joined.to_str().unwrap());
        assert_eq!(get_ocr_settings(&prefs, here, "x").models_root_dir, joined.to_str().unwrap());
    }
}
