use download_core::control::{
    cancel_download, check_start, classify_kind, list_downloads, parse_kind, pause_download,
    read_download_info, remove_download, restart_download, resume_download, set_speed_limits,
    start_download, start_with, update_download_info,
};
use download_core::model::{
    DownloadInfo, DownloadKind, DownloadStatus, SpeedLimits, StartDownloadPayload,
};
use download_core::registry::{DownloadManager, RecordChange};
use download_core::urls::{file_name_from_url, ParsedUrl};

fn payload(url: &str) -> StartDownloadPayload {
    StartDownloadPayload { url: url.to_string(), file_name: None, directory: None, kind: None }
}

fn record(id: &str, status: DownloadStatus) -> DownloadInfo {
    DownloadInfo {
        id: id.to_string(),
        url: "https://example.test/a.bin".to_string(),
        file_name: "a.bin".to_string(),
        save_path: "/dl/a.bin".to_string(),
        temp_path: "/dl/a.bin.part".to_string(),
        status,
        total_bytes: Some(1000),
        downloaded_bytes: 400,
        speed_bps: 77,
        error: Some("old error".to_string()),
        created_at: 10,
        updated_at: 20,
        resume_supported: true,
        kind: DownloadKind::Http,
    }
}

fn manager_with(id: &str, status: DownloadStatus) -> DownloadManager {
    let mut m = DownloadManager::new();
    m.insert(record(id, status));
    m
}

#[test]
fn new_manager_is_empty_and_unlimited() {
    let m = DownloadManager::new();
    assert!(m.list().is_empty());
    assert_eq!(m.download_limit(), 0);
    assert!(list_downloads(&m).unwrap().is_empty());
}

#[test]
fn start_http_download_creates_queued_record() {
    let mut m = DownloadManager::new();
    let info = start_download(&mut m, payload("https://example.test/a.bin"), "/dl", &vec![]).unwrap();
    assert_eq!(info.kind, DownloadKind::Http);
    assert_eq!(info.status, DownloadStatus::Queued);
    assert_eq!(info.url, "https://example.test/a.bin");
    assert_eq!(info.file_name, "a.bin");
    assert_eq!(info.save_path, "/dl/a.bin");
    assert_eq!(info.temp_path, "/dl/a.bin.part");
    assert_eq!(info.total_bytes, None);
    assert_eq!(info.downloaded_bytes, 0);
    assert_eq!(info.speed_bps, 0);
    assert_eq!(info.error, None);
    assert!(info.resume_supported);
    assert!(info.created_at > 1_600_000_000_000);
    assert_eq!(info.created_at, info.updated_at);
    assert_eq!(info.id.len(), 36);
    let listed = m.list();
    assert_eq!(listed.len(), 1);
    assert_eq!(listed[0].id, info.id);
    assert_eq!(read_download_info(&m, &info.id).unwrap().save_path, "/dl/a.bin");
}

#[test]
fn start_gives_every_transfer_an_id_of_its_own() {
    let mut m = DownloadManager::new();
    let a = start_download(&mut m, payload("https://example.test/a.bin"), "/dl", &vec![]).unwrap();
    let b = start_download(&mut m, payload("https://example.test/a.bin"), "/dl", &vec![]).unwrap();
    assert_ne!(a.id, b.id);
    assert_eq!(m.list().len(), 2);
}

#[test]
fn start_sanitizes_the_requested_name() {
    let mut m = DownloadManager::new();
    let mut p = payload("https://example.test/a.bin");
    p.file_name = Some(" my:file?.zip ".to_string());
    let info = start_download(&mut m, p, "/dl", &vec![]).unwrap();
    assert_eq!(info.file_name, "my-file-.zip");
    assert_eq!(info.save_path, "/dl/my-file-.zip");
    assert_eq!(info.temp_path, "/dl/my-file-.zip.part");
}

#[test]
fn start_avoids_occupied_paths() {
    let mut m = DownloadManager::new();
    let occupied = vec!["/dl/a.bin".to_string(), "/dl/a (1).bin".to_string()];
    let info = start_download(&mut m, payload("https://example.test/x/a.bin?q=1"), "/dl", &occupied).unwrap();
    assert_eq!(info.file_name, "a (2).bin");
    assert_eq!(info.save_path, "/dl/a (2).bin");
    assert_eq!(info.temp_path, "/dl/a (2).bin.part");
}

#[test]
fn start_names_the_file_download_when_the_url_has_no_name() {
    let mut m = DownloadManager::new();
    let a = start_download(&mut m, payload("https://example.test"), "/dl", &vec![]).unwrap();
    assert_eq!(a.file_name, "download");
    let b = start_download(&mut m, payload("http://example.test/"), "/dl", &vec![]).unwrap();
    assert_eq!(b.file_name, "download");
    assert_eq!(b.save_path, "/dl/download");
}

#[test]
fn start_names_the_file_after_the_last_segment_that_is_not_empty() {
    let mut m = DownloadManager::new();
    let a = start_download(&mut m, payload("https://example.test/dir/"), "/dl", &vec![]).unwrap();
    assert_eq!(a.file_name, "dir");
    assert_eq!(a.save_path, "/dl/dir");
    assert_eq!(a.temp_path, "/dl/dir.part");
    let b = start_download(&mut m, payload("https://example.test/a/b.zip//"), "/dl", &vec![]).unwrap();
    assert_eq!(b.file_name, "b.zip");
}

#[test]
fn start_never_gives_out_an_id_that_is_held() {
    let mut m = manager_with("taken", DownloadStatus::Failed);
    let parts = Some(ParsedUrl {
        scheme: "https".to_string(),
        path_segments: Some(vec!["f.txt".to_string()]),
    });
    let r = start_with(
        &mut m,
        &payload("https://h.test/f.txt"),
        DownloadKind::Http,
        &parts,
        "/dl",
        &vec![],
        "taken".to_string(),
        77,
    );
    assert_eq!(r.unwrap_err(), "Download id is already in use");
    let r = start_with(
        &mut m,
        &payload("magnet:?xt=urn:btih:abc"),
        DownloadKind::Magnet,
        &None,
        "",
        &vec![],
        "taken".to_string(),
        78,
    );
    assert_eq!(r.unwrap_err(), "Download id is already in use");
    let listed = m.list();
    assert_eq!(listed.len(), 1);
    assert_eq!(listed[0].status, DownloadStatus::Failed);
    assert_eq!(listed[0].updated_at, 20);
    // a URL that is refused is refused first
    let r = start_with(&mut m, &payload("x"), DownloadKind::Http, &None, "/dl", &vec![], "taken".to_string(), 79);
    assert_eq!(r.unwrap_err(), "Invalid URL");
    // the records held stay as they are, the new one comes behind them
    let r = start_with(&mut m, &payload("https://h.test/f.txt"), DownloadKind::Http, &parts, "/dl", &vec![], "free".to_string(), 80).unwrap();
    assert_eq!(r.id, "free");
    let listed = m.list();
    assert_eq!(listed.len(), 2);
    assert_eq!(listed[0].id, "taken");
    assert_eq!(listed[1].id, "free");
    assert!(m.holds("free") && m.holds("taken") && !m.holds("other"));
}

#[test]
fn start_rejects_what_is_no_url() {
    let mut m = DownloadManager::new();
    let r = start_download(&mut m, payload("not a url"), "/dl", &vec![]);
    assert_eq!(r.unwrap_err(), "Invalid URL");
    assert!(m.list().is_empty());
}

#[test]
fn start_rejects_other_schemes() {
    let mut m = DownloadManager::new();
    let r = start_download(&mut m, payload("ftp://example.test/a.bin"), "/dl", &vec![]);
    assert_eq!(r.unwrap_err(), "Only http and https URLs are supported.");
    let r = start_download(&mut m, payload("file:///etc/passwd"), "/dl", &vec![]);
    assert_eq!(r.unwrap_err(), "Only http and https URLs are supported.");
    assert!(m.list().is_empty());
}

#[test]
fn start_accepts_an_upper_case_scheme() {
    let mut m = DownloadManager::new();
    let info = start_download(&mut m, payload("HTTPS://Example.Test/File.BIN"), "/dl", &vec![]).unwrap();
    assert_eq!(info.file_name, "File.BIN");
}

#[test]
fn check_start_tells_kind_or_refusal() {
    assert_eq!(check_start(&payload("https://example.test/a.bin")), Ok(DownloadKind::Http));
    assert_eq!(check_start(&payload("magnet:?xt=urn:btih:abc")), Ok(DownloadKind::Magnet));
    assert_eq!(check_start(&payload("nonsense")), Err("Invalid URL".to_string()));
    assert_eq!(
        check_start(&payload("ftp://example.test/a")),
        Err("Only http and https URLs are supported.".to_string())
    );
}

#[test]
fn magnet_record_is_external_and_cannot_be_resumed() {
    let mut m = DownloadManager::new();
    let info = start_download(&mut m, payload("magnet:?xt=urn:btih:0123456789abcdef"), "", &vec![]).unwrap();
    assert_eq!(info.kind, DownloadKind::Magnet);
    assert_eq!(info.status, DownloadStatus::External);
    assert_eq!(info.file_name, "External Transfer");
    assert_eq!(info.save_path, "");
    assert_eq!(info.temp_path, "");
    assert!(!info.resume_supported);
    assert!(download_core::worker::Worker::start(&m, &info.id).is_none());
    assert_eq!(
        resume_download(&mut m, info.id.clone()).unwrap_err(),
        "Resume is only available for HTTP downloads."
    );
    assert_eq!(
        restart_download(&mut m, info.id.clone()).unwrap_err(),
        "Restart is only available for HTTP downloads."
    );
    assert_eq!(m.get(&info.id).unwrap().status, DownloadStatus::External);
}

#[test]
fn external_record_takes_the_requested_name() {
    let mut m = DownloadManager::new();
    let mut p = payload("https://example.test/some.torrent");
    p.file_name = Some("linux/iso".to_string());
    let info = start_download(&mut m, p, "", &vec![]).unwrap();
    assert_eq!(info.kind, DownloadKind::Torrent);
    assert_eq!(info.status, DownloadStatus::External);
    assert_eq!(info.file_name, "linux-iso");
}

#[test]
fn kind_follows_the_tag_first() {
    assert_eq!(parse_kind(Some("magnet".to_string()), "https://x.test/a"), DownloadKind::Magnet);
    assert_eq!(parse_kind(Some("torrent".to_string()), "https://x.test/a"), DownloadKind::Torrent);
    assert_eq!(parse_kind(Some("http".to_string()), "magnet:?x"), DownloadKind::Http);
    assert_eq!(parse_kind(Some("MAGNET".to_string()), "magnet:?x"), DownloadKind::Http);
    assert_eq!(parse_kind(Some("".to_string()), "a.torrent"), DownloadKind::Http);
}

#[test]
fn kind_is_inferred_from_the_url_in_any_case() {
    assert_eq!(parse_kind(None, "magnet:?xt=urn:btih:abc"), DownloadKind::Magnet);
    assert_eq!(parse_kind(None, "  MAGNET:?xt=urn:btih:abc  "), DownloadKind::Magnet);
    assert_eq!(parse_kind(None, "https://x.test/a.torrent"), DownloadKind::Torrent);
    assert_eq!(parse_kind(None, "https://x.test/A.TORRENT\n"), DownloadKind::Torrent);
    assert_eq!(parse_kind(None, "https://x.test/a.torrent?x=1"), DownloadKind::Http);
    assert_eq!(parse_kind(None, "https://x.test/magnet:"), DownloadKind::Http);
    assert_eq!(parse_kind(None, ""), DownloadKind::Http);
}

#[test]
fn classify_reads_the_lowered_url_as_it_is() {
    assert_eq!(classify_kind(&None, "magnet:x"), DownloadKind::Magnet);
    assert_eq!(classify_kind(&None, "MAGNET:x"), DownloadKind::Http);
    assert_eq!(classify_kind(&None, "x.torrent"), DownloadKind::Torrent);
    assert_eq!(classify_kind(&Some("torrent".to_string()), "magnet:x"), DownloadKind::Torrent);
}

#[test]
fn file_name_comes_from_the_last_segment() {
    let url = |segments: Option<Vec<&str>>| ParsedUrl {
        scheme: "https".to_string(),
        path_segments: segments.map(|v| v.into_iter().map(|s| s.to_string()).collect()),
    };
    assert_eq!(file_name_from_url(&url(Some(vec!["a", "b.zip"]))), "b.zip");
    assert_eq!(file_name_from_url(&url(Some(vec!["a", ""]))), "a");
    assert_eq!(file_name_from_url(&url(Some(vec!["a", "b", "", ""]))), "b");
    assert_eq!(file_name_from_url(&url(Some(vec!["", ""]))), "download");
    assert_eq!(file_name_from_url(&url(Some(vec![""]))), "download");
    assert_eq!(file_name_from_url(&url(Some(vec![]))), "download");
    assert_eq!(file_name_from_url(&url(None)), "download");
    assert_eq!(file_name_from_url(&url(Some(vec!["x:y"]))), "x-y");
    assert_eq!(file_name_from_url(&url(Some(vec!["%20"]))), "%20");
}

#[test]
fn start_with_takes_id_and_time_as_given() {
    let mut m = DownloadManager::new();
    let parts = Some(ParsedUrl {
        scheme: "http".to_string(),
        path_segments: Some(vec!["f.txt".to_string()]),
    });
    let info = start_with(
        &mut m,
        &payload("http://h.test/f.txt"),
        DownloadKind::Http,
        &parts,
        "/dl/",
        &vec![],
        "id-1".to_string(),
        1234,
    )
    .unwrap();
    assert_eq!(info.id, "id-1");
    assert_eq!(info.created_at, 1234);
    assert_eq!(info.updated_at, 1234);
    assert_eq!(info.save_path, "/dl/f.txt");
    let r = start_with(&mut m, &payload("x"), DownloadKind::Http, &None, "/dl", &vec![], "id-2".to_string(), 1);
    assert_eq!(r.unwrap_err(), "Invalid URL");
    assert_eq!(m.list().len(), 1);
}

#[test]
fn insert_replaces_a_record_with_the_same_id() {
    let mut m = manager_with("a", DownloadStatus::Failed);
    m.insert(record("b", DownloadStatus::Queued));
    m.insert(record("a", DownloadStatus::Completed));
    let listed = m.list();
    assert_eq!(listed.len(), 2);
    assert_eq!(listed[0].id, "a");
    assert_eq!(listed[0].status, DownloadStatus::Completed);
    assert_eq!(listed[1].id, "b");
}

#[test]
fn pause_only_touches_running_transfers() {
    let mut m = manager_with("a", DownloadStatus::Running);
    let info = m.pause("a", 50).unwrap();
    assert_eq!(info.status, DownloadStatus::Paused);
    assert_eq!(info.updated_at, 50);
    assert_eq!(m.get("a").unwrap().status, DownloadStatus::Paused);
    for status in [
        DownloadStatus::Queued,
        DownloadStatus::Paused,
        DownloadStatus::Completed,
        DownloadStatus::Failed,
        DownloadStatus::Canceled,
        DownloadStatus::External,
    ] {
        let mut m = manager_with("a", status);
        let info = m.pause("a", 50).unwrap();
        assert_eq!(info.status, status);
        assert_eq!(info.updated_at, 20);
    }
    assert_eq!(m.pause("zzz", 50).unwrap_err(), "Download not found");
    assert_eq!(pause_download(&mut m, "zzz".to_string()).unwrap_err(), "Download not found");
}

#[test]
fn cancel_leaves_completed_and_canceled_alone() {
    for status in [DownloadStatus::Completed, DownloadStatus::Canceled] {
        let mut m = manager_with("a", status);
        let info = m.cancel("a", 50).unwrap();
        assert_eq!(info.status, status);
        assert_eq!(info.updated_at, 20);
    }
    for status in [
        DownloadStatus::Queued,
        DownloadStatus::Running,
        DownloadStatus::Paused,
        DownloadStatus::Failed,
    ] {
        let mut m = manager_with("a", status);
        let info = m.cancel("a", 50).unwrap();
        assert_eq!(info.status, DownloadStatus::Canceled);
        assert_eq!(info.updated_at, 50);
        assert_eq!(m.get("a").unwrap().status, DownloadStatus::Canceled);
    }
    let mut m = DownloadManager::new();
    assert_eq!(cancel_download(&mut m, "a".to_string()).unwrap_err(), "Download not found");
}

#[test]
fn cancel_leaves_an_external_record_alone() {
    let mut m = DownloadManager::new();
    let info = start_download(&mut m, payload("magnet:?xt=urn:btih:0123456789abcdef"), "", &vec![]).unwrap();
    let watch = m.cancel_handle(&info.id).unwrap();
    let after = cancel_download(&mut m, info.id.clone()).unwrap();
    assert_eq!(after.status, DownloadStatus::External);
    assert_eq!(after.kind, DownloadKind::Magnet);
    assert_eq!(after.updated_at, info.updated_at);
    assert_eq!(m.get(&info.id).unwrap().status, DownloadStatus::External);
    assert!(!watch.is_tripped());
    assert_eq!(pause_download(&mut m, info.id.clone()).unwrap().status, DownloadStatus::External);
    // an external record can still be removed
    assert_eq!(remove_download(&mut m, info.id.clone()), Ok(()));
    let mut m = manager_with("a", DownloadStatus::External);
    let after = m.cancel("a", 50).unwrap();
    assert_eq!((after.status, after.updated_at), (DownloadStatus::External, 20));
}

#[test]
fn running_change_leaves_a_canceled_record_canceled() {
    let mut m = manager_with("a", DownloadStatus::Canceled);
    m.update("a", RecordChange::Running, 30);
    let r = m.get("a").unwrap();
    assert_eq!(r.status, DownloadStatus::Canceled);
    assert_eq!(r.error, Some("old error".to_string()));
    assert_eq!(r.updated_at, 30);
    for status in [
        DownloadStatus::Queued,
        DownloadStatus::Paused,
        DownloadStatus::Failed,
        DownloadStatus::Completed,
    ] {
        let mut m = manager_with("a", status);
        m.update("a", RecordChange::Running, 30);
        let r = m.get("a").unwrap();
        assert_eq!((r.status, r.error), (DownloadStatus::Running, None));
    }
}

#[test]
fn resume_queues_and_clears_the_error() {
    let mut m = manager_with("a", DownloadStatus::Paused);
    let info = m.resume("a", 99).unwrap();
    assert_eq!(info.status, DownloadStatus::Queued);
    assert_eq!(info.error, None);
    assert_eq!(info.updated_at, 99);
    assert_eq!(info.downloaded_bytes, 400);
    assert_eq!(info.total_bytes, Some(1000));
}

#[test]
fn resume_returns_a_completed_transfer_as_it_is() {
    let mut m = manager_with("a", DownloadStatus::Completed);
    let info = resume_download(&mut m, "a".to_string()).unwrap();
    assert_eq!(info.status, DownloadStatus::Completed);
    assert_eq!(info.updated_at, 20);
    assert_eq!(info.error, Some("old error".to_string()));
}

#[test]
fn resume_is_refused_where_the_server_does_not_resume() {
    let mut m = DownloadManager::new();
    let mut r = record("a", DownloadStatus::Failed);
    r.resume_supported = false;
    m.insert(r);
    assert_eq!(
        m.resume("a", 99).unwrap_err(),
        "Server does not support resume. Restart the download instead."
    );
    assert_eq!(m.get("a").unwrap().status, DownloadStatus::Failed);
    // with nothing received yet there is nothing to lose
    let mut r = record("b", DownloadStatus::Failed);
    r.resume_supported = false;
    r.downloaded_bytes = 0;
    m.insert(r);
    assert_eq!(m.resume("b", 99).unwrap().status, DownloadStatus::Queued);
    assert_eq!(m.resume("zzz", 99).unwrap_err(), "Download not found");
}

#[test]
fn restart_forgets_progress() {
    let mut m = manager_with("a", DownloadStatus::Failed);
    let info = m.restart("a", 123).unwrap();
    assert_eq!(info.status, DownloadStatus::Queued);
    assert_eq!(info.downloaded_bytes, 0);
    assert_eq!(info.total_bytes, None);
    assert_eq!(info.speed_bps, 0);
    assert_eq!(info.error, None);
    assert_eq!(info.updated_at, 123);
    assert_eq!(info.created_at, 10);
    assert_eq!(info.temp_path, "/dl/a.bin.part");
    assert_eq!(restart_download(&mut m, "zzz".to_string()).unwrap_err(), "Download not found");
}

#[test]
fn remove_while_running_is_rejected() {
    let mut m = DownloadManager::new();
    let info = start_download(&mut m, payload("https://example.test/slow.bin"), "/dl", &vec![]).unwrap();
    assert_eq!(
        remove_download(&mut m, info.id.clone()).unwrap_err(),
        "Stop the download before removing it."
    );
    assert!(m.get(&info.id).is_some());
    for status in [DownloadStatus::Running, DownloadStatus::Queued, DownloadStatus::Paused] {
        let mut m = manager_with("a", status);
        assert_eq!(m.remove("a").unwrap_err(), "Stop the download before removing it.");
        assert_eq!(m.list().len(), 1);
    }
}

#[test]
fn removed_record_is_no_longer_listed() {
    for status in [
        DownloadStatus::Completed,
        DownloadStatus::Failed,
        DownloadStatus::Canceled,
        DownloadStatus::External,
    ] {
        let mut m = manager_with("a", status);
        m.insert(record("b", DownloadStatus::Running));
        m.insert(record("c", DownloadStatus::Failed));
        assert_eq!(m.remove("a"), Ok(()));
        let listed = m.list();
        assert_eq!(listed.len(), 2);
        assert!(listed.iter().all(|r| r.id != "a"));
        assert_eq!(listed[0].id, "b");
        assert_eq!(listed[1].id, "c");
        assert_eq!(m.remove("a").unwrap_err(), "Download not found");
    }
}

#[test]
fn updated_at_does_not_go_back_while_the_clock_does_not() {
    let mut m = manager_with("a", DownloadStatus::Running);
    let mut last = m.get("a").unwrap().updated_at;
    let mut now = last;
    let steps: Vec<Box<dyn Fn(&mut DownloadManager, i64)>> = vec![
        Box::new(|m, t| { m.pause("a", t).unwrap(); }),
        Box::new(|m, t| { m.resume("a", t).unwrap(); }),
        Box::new(|m, t| m.update("a", RecordChange::Running, t)),
        Box::new(|m, t| m.update("a", RecordChange::Progress { downloaded_bytes: 5, speed_bps: 1 }, t)),
        Box::new(|m, t| { m.pause("a", t).unwrap(); }),
        Box::new(|m, t| { m.pause("a", t).unwrap(); }),
        Box::new(|m, t| { m.cancel("a", t).unwrap(); }),
        Box::new(|m, t| { m.restart("a", t).unwrap(); }),
    ];
    for step in steps {
        now += 3;
        step(&mut m, now);
        let stamp = m.get("a").unwrap().updated_at;
        assert!(stamp >= last);
        last = stamp;
    }
}

#[test]
fn updated_at_does_not_go_back_when_the_clock_does() {
    let mut m = manager_with("a", DownloadStatus::Running);
    assert_eq!(m.pause("a", 5).unwrap().updated_at, 20);
    assert_eq!(m.get("a").unwrap().status, DownloadStatus::Paused);
    assert_eq!(m.resume("a", -3).unwrap().updated_at, 20);
    m.update("a", RecordChange::Running, 19);
    assert_eq!(m.get("a").unwrap().updated_at, 20);
    assert_eq!(m.cancel("a", i64::MIN).unwrap().updated_at, 20);
    assert_eq!(m.restart("a", 0).unwrap().updated_at, 20);
    assert_eq!(m.pause("a", 20).unwrap().updated_at, 20);
    m.update("a", RecordChange::Running, 21);
    assert_eq!(m.get("a").unwrap().updated_at, 21);
}

#[test]
fn worker_changes_are_applied_and_stamped() {
    let mut m = manager_with("a", DownloadStatus::Queued);
    m.update("a", RecordChange::Running, 30);
    let r = m.get("a").unwrap();
    assert_eq!((r.status, r.error.clone(), r.updated_at), (DownloadStatus::Running, None, 30));
    m.update("a", RecordChange::Sizes { total_bytes: None, resume_supported: false }, 31);
    let r = m.get("a").unwrap();
    assert_eq!((r.total_bytes, r.resume_supported, r.updated_at), (None, false, 31));
    m.update("a", RecordChange::Progress { downloaded_bytes: 500, speed_bps: 9 }, 32);
    let r = m.get("a").unwrap();
    assert_eq!((r.downloaded_bytes, r.speed_bps, r.updated_at), (500, 9, 32));
    m.update("a", RecordChange::Downloaded { downloaded_bytes: 600 }, 33);
    assert_eq!(m.get("a").unwrap().downloaded_bytes, 600);
    m.update("a", RecordChange::Completed { downloaded_bytes: 600 }, 34);
    let r = m.get("a").unwrap();
    assert_eq!((r.status, r.total_bytes, r.speed_bps), (DownloadStatus::Completed, Some(600), 0));
    m.update("a", RecordChange::Failed { reason: "boom".to_string() }, 35);
    let r = m.get("a").unwrap();
    assert_eq!((r.status, r.error.clone(), r.resume_supported), (DownloadStatus::Failed, Some("boom".to_string()), false));
    m.update("a", RecordChange::Sizes { total_bytes: Some(7), resume_supported: true }, 36);
    m.update("a", RecordChange::Completed { downloaded_bytes: 600 }, 37);
    assert_eq!(m.get("a").unwrap().total_bytes, Some(7));
    m.update("a", RecordChange::FailedNoResume { reason: "no".to_string() }, 38);
    let r = m.get("a").unwrap();
    assert_eq!((r.status, r.error.clone(), r.resume_supported), (DownloadStatus::Failed, Some("no".to_string()), false));
    m.update("a", RecordChange::PausedUnlessCanceled, 39);
    assert_eq!(m.get("a").unwrap().status, DownloadStatus::Paused);
    m.cancel("a", 40).unwrap();
    m.update("a", RecordChange::PausedUnlessCanceled, 41);
    let r = m.get("a").unwrap();
    assert_eq!((r.status, r.updated_at), (DownloadStatus::Canceled, 41));
    // a transfer that is gone stays gone
    m.update("zzz", RecordChange::Running, 42);
    assert_eq!(m.list().len(), 1);
    update_download_info(&mut m, "a", RecordChange::Running);
    assert!(m.get("a").unwrap().updated_at > 1_600_000_000_000);
}

#[test]
fn speed_limits_are_normalized_and_stored() {
    let mut m = DownloadManager::new();
    let stored = set_speed_limits(&mut m, SpeedLimits { download_bps: Some(50_000), upload_bps: Some(0) }).unwrap();
    assert_eq!(stored.download_bps, Some(50_000));
    assert_eq!(stored.upload_bps, None);
    assert_eq!(m.download_limit(), 50_000);
    let stored = set_speed_limits(&mut m, SpeedLimits { download_bps: Some(0), upload_bps: None }).unwrap();
    assert_eq!(stored.download_bps, None);
    assert_eq!(m.download_limit(), 0);
}
