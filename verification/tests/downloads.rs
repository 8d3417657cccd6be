//! The table of downloads and the course of one download.

use screen_context::ocr::download::{
    all_download_status, cancel_all_downloads, Download, DownloadAction, DownloadEvent,
    DownloadPhase, DownloadTable,
};
use screen_context::ocr::engine::{DownloadState, DownloadStatus};

const URL: &str = "https://host/dir/model.onnx";

fn status(model_id: &str, state: DownloadState) -> DownloadStatus {
    DownloadStatus {
        provider_id: "rapidocr".to_string(),
        model_id: model_id.to_string(),
        state,
        ..DownloadStatus::default()
    }
}

fn failed(reason: &str) -> DownloadEvent {
    DownloadEvent::Failed(reason.to_string())
}

fn run(events: Vec<DownloadEvent>) -> (Download, DownloadAction) {
    let mut download = Download::new("rapidocr/model.onnx", URL);
    let mut last = DownloadAction::Perform(download.phase);
    for event in events {
        last = download.step(event);
    }
    (download, last)
}

fn finished(action: DownloadAction) -> (DownloadStatus, bool) {
    match action {
        DownloadAction::Finish { status, remove_file } => (status, remove_file),
        DownloadAction::Perform(phase) => panic!("still waits for {phase:?}"),
    }
}

fn begun(header: Option<&str>) -> Vec<DownloadEvent> {
    vec![
        DownloadEvent::Done,
        DownloadEvent::Done,
        DownloadEvent::Length(header.map(|text| text.to_string())),
        DownloadEvent::Done,
        DownloadEvent::Done,
    ]
}

#[test]
fn undisturbed_download_completes_with_every_byte_counted() {
    let mut events = begun(Some("30"));
    for size in [10, 0, 20] {
        events.push(DownloadEvent::Chunk(size));
        events.push(DownloadEvent::Done);
        events.push(DownloadEvent::Noted { cancelled: false });
    }
    events.push(DownloadEvent::End);
    let (download, action) = run(events);
    assert_eq!(download.phase, DownloadPhase::Over);
    let (status, remove) = finished(action);
    assert!(!remove);
    assert_eq!(status.state, DownloadState::Completed);
    assert_eq!(status.bytes_total, Some(30));
    assert_eq!(status.bytes_downloaded, Some(30));
    assert_eq!(status.provider_id, "rapidocr");
    assert_eq!(status.model_id, "rapidocr/model.onnx");
    assert!(status.error.is_none());
}

#[test]
fn phases_follow_one_another() {
    let mut download = Download::new("id", URL);
    assert_eq!(download.file_name, "model.onnx");
    let mut phases = vec![download.phase];
    let events = vec![
        DownloadEvent::Done,
        DownloadEvent::Done,
        DownloadEvent::Length(None),
        DownloadEvent::Done,
        DownloadEvent::Done,
        DownloadEvent::Chunk(1),
        DownloadEvent::Done,
        DownloadEvent::Noted { cancelled: false },
    ];
    for event in events {
        match download.step(event) {
            DownloadAction::Perform(phase) => phases.push(phase),
            DownloadAction::Finish { .. } => panic!("over too early"),
        }
    }
    assert_eq!(
        phases,
        vec![
            DownloadPhase::CreateDir,
            DownloadPhase::BuildClient,
            DownloadPhase::AskLength,
            DownloadPhase::Request,
            DownloadPhase::CreateFile,
            DownloadPhase::Read,
            DownloadPhase::Write,
            DownloadPhase::Report,
            DownloadPhase::Read,
        ]
    );
}

#[test]
fn each_failure_is_told_with_its_step() {
    let cases = vec![
        (vec![], "create dir: why", None, None),
        (vec![DownloadEvent::Done], "build client: why", None, None),
        (begun(Some("7"))[..3].to_vec(), "网络请求失败: why", Some(7), None),
        (begun(Some("7"))[..4].to_vec(), "create file: why", Some(7), None),
        (begun(Some("7")), "download stream: why", Some(7), Some(0)),
    ];
    for (mut events, message, total, downloaded) in cases {
        events.push(failed("why"));
        let (status, remove) = finished(run(events).1);
        assert_eq!(status.state, DownloadState::Failed);
        assert_eq!(status.error.as_deref(), Some(message));
        assert_eq!(status.bytes_total, total);
        assert_eq!(status.bytes_downloaded, downloaded);
        assert!(!remove);
    }
}

#[test]
fn request_without_a_network_fails_with_a_chinese_message() {
    let mut events = begun(None)[..3].to_vec();
    events.push(failed("dns error"));
    let (status, _) = finished(run(events).1);
    assert_eq!(status.state, DownloadState::Failed);
    let error = status.error.unwrap();
    assert!(error.chars().any(|c| ('\u{4E00}'..='\u{9FFF}').contains(&c)));
    assert!(error.ends_with("dns error"));
}

#[test]
fn failed_write_counts_the_bytes_received() {
    let mut events = begun(None);
    events.push(DownloadEvent::Chunk(5));
    events.push(failed("disk full"));
    let (status, _) = finished(run(events).1);
    assert_eq!(status.error.as_deref(), Some("write file: disk full"));
    assert_eq!(status.bytes_total, None);
    assert_eq!(status.bytes_downloaded, Some(5));
}

#[test]
fn length_that_is_no_number_is_unknown() {
    for header in [Some("12a"), Some(""), Some("-1"), Some(" 5"), Some("18446744073709551616"), None] {
        let mut events = begun(header);
        events.push(DownloadEvent::End);
        let (status, _) = finished(run(events).1);
        assert_eq!(status.bytes_total, None, "{header:?}");
        assert_eq!(status.bytes_total, header.and_then(|t| t.parse::<u64>().ok()));
    }
    for header in ["0", "+5", "007", "18446744073709551615"] {
        let mut events = begun(Some(header));
        events.push(DownloadEvent::End);
        let (status, _) = finished(run(events).1);
        assert_eq!(status.bytes_total, header.parse::<u64>().ok());
    }
}

#[test]
fn cancelled_download_removes_its_file() {
    let mut table = DownloadTable::new();
    table.insert(status("rapidocr/model.onnx", DownloadState::InProgress));
    let mut events = begun(Some("9"));
    events.push(DownloadEvent::Chunk(4));
    events.push(DownloadEvent::Done);
    assert!(!table.record_progress("rapidocr/model.onnx", 0, Some(9)));
    cancel_all_downloads(&mut table);
    let cancelled = table.record_progress("rapidocr/model.onnx", 4, Some(9));
    assert!(cancelled);
    events.push(DownloadEvent::Noted { cancelled });
    let (ended, remove) = finished(run(events).1);
    assert!(remove);
    assert_eq!(ended.state, DownloadState::Cancelled);
    assert_eq!(ended.bytes_downloaded, Some(4));
    assert_eq!(ended.bytes_total, Some(9));
    assert!(ended.error.is_none());
}

#[test]
fn event_out_of_turn_changes_nothing() {
    let mut download = Download::new("id", URL);
    for event in [
        DownloadEvent::Chunk(1),
        DownloadEvent::End,
        DownloadEvent::Length(Some("1".to_string())),
        DownloadEvent::Noted { cancelled: true },
    ] {
        let action = download.step(event);
        assert!(matches!(action, DownloadAction::Perform(DownloadPhase::CreateDir)));
    }
    assert_eq!(download.downloaded, 0);
    assert_eq!(download.total, None);
}

#[test]
fn cancelling_touches_only_what_is_in_progress_and_is_idempotent() {
    let mut table = DownloadTable::new();
    table.insert(status("a", DownloadState::InProgress));
    table.insert(status("b", DownloadState::Completed));
    table.insert(status("c", DownloadState::Failed));
    table.insert(status("d", DownloadState::NotStarted));
    let states = |table: &DownloadTable| -> Vec<DownloadState> {
        all_download_status(table).iter().map(|s| s.state).collect()
    };
    cancel_all_downloads(&mut table);
    let after = states(&table);
    assert_eq!(
        after,
        vec![
            DownloadState::Cancelled,
            DownloadState::Completed,
            DownloadState::Failed,
            DownloadState::NotStarted,
        ]
    );
    cancel_all_downloads(&mut table);
    assert_eq!(states(&table), after);
}

#[test]
fn entering_again_replaces() {
    let mut table = DownloadTable::new();
    table.insert(status("a", DownloadState::InProgress));
    table.insert(status("b", DownloadState::InProgress));
    table.insert(status("a", DownloadState::Completed));
    let list = all_download_status(&table);
    assert_eq!(list.len(), 2);
    assert_eq!((list[0].model_id.as_str(), list[0].state), ("a", DownloadState::Completed));
    assert_eq!((list[1].model_id.as_str(), list[1].state), ("b", DownloadState::InProgress));
}

#[test]
fn progress_of_an_unknown_download_is_ignored() {
    let mut table = DownloadTable::new();
    assert!(!table.record_progress("a", 1, None));
    assert!(all_download_status(&table).is_empty());
    table.insert(status("a", DownloadState::InProgress));
    assert!(!table.record_progress("a", 8, Some(10)));
    let list = all_download_status(&table);
    assert_eq!(list[0].bytes_downloaded, Some(8));
    assert_eq!(list[0].bytes_total, Some(10));
    table.clear();
    assert!(all_download_status(&table).is_empty());
}

#[test]
fn fresh_status_is_empty() {
    let fresh = DownloadStatus::default();
    assert_eq!(fresh.state, DownloadState::NotStarted);
    assert_eq!(fresh.state, DownloadState::default());
    assert!(fresh.model_id.is_empty() && fresh.provider_id.is_empty());
    assert!(fresh.error.is_none());
}
