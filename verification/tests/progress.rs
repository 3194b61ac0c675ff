use service_supervisor::progress::UpdateProgress;

#[test]
fn default_is_idle_zero() {
    let p = UpdateProgress::default();
    assert!(!p.downloading);
    assert_eq!(p.percent_centi, 0);
    assert_eq!(p.downloaded, 0);
    assert_eq!(p.total, None);
    assert!(!p.complete);
    assert!(p.error.is_none());
}

#[test]
fn two_chunks_reach_fifty_percent() {
    let mut p = UpdateProgress::new();
    p.begin_download();
    p.on_chunk(100, Some(1000));
    p.on_chunk(400, Some(1000));
    assert_eq!(p.downloaded, 500);
    assert_eq!(p.percent_centi, 5000);
    assert_eq!(p.percent_centi as f64 / 100.0, 50.0);
}

#[test]
fn chunk_without_total_keeps_percent() {
    let mut p = UpdateProgress::new();
    p.begin_download();
    p.on_chunk(100, Some(1000));
    assert_eq!(p.percent_centi, 1000);
    p.on_chunk(300, None);
    assert_eq!(p.percent_centi, 1000);
    assert_eq!(p.downloaded, 400);
    assert_eq!(p.total, None);
}

#[test]
fn chunk_with_zero_total_keeps_percent() {
    let mut p = UpdateProgress::new();
    p.begin_download();
    p.on_chunk(100, Some(1000));
    p.on_chunk(1, Some(0));
    assert_eq!(p.percent_centi, 1000);
    assert_eq!(p.total, Some(0));
}

#[test]
fn complete_sets_hundred_percent_whatever_came_before() {
    let mut p = UpdateProgress::new();
    p.begin_download();
    p.on_chunk(7, Some(1_000_000));
    p.on_complete();
    assert!(p.complete);
    assert_eq!(p.percent_centi, 10_000);
    assert_eq!(p.downloaded, 7);

    let mut q = UpdateProgress::new();
    q.on_complete();
    assert!(q.complete);
    assert_eq!(q.percent_centi, 10_000);
}

#[test]
fn percent_is_capped_at_hundred() {
    let mut p = UpdateProgress::new();
    p.begin_download();
    p.on_chunk(200, Some(100));
    assert_eq!(p.percent_centi, 10_000);
}

#[test]
fn error_keeps_byte_counts_and_downloading() {
    let mut p = UpdateProgress::new();
    p.begin_download();
    p.on_chunk(250, Some(1000));
    p.on_error(String::from("connection reset"));
    assert!(p.downloading);
    assert_eq!(p.downloaded, 250);
    assert_eq!(p.percent_centi, 2500);
    assert_eq!(p.error.as_deref(), Some("connection reset"));
}

#[test]
fn begin_download_resets_for_a_fresh_attempt() {
    let mut p = UpdateProgress::new();
    p.begin_download();
    p.on_chunk(250, Some(1000));
    p.on_error(String::from("gone"));
    p.begin_download();
    assert!(p.downloading);
    assert_eq!(p.percent_centi, 0);
    assert_eq!(p.downloaded, 0);
    assert!(!p.complete);
    assert!(p.error.is_none());
}

#[test]
fn snapshot_copies_every_field() {
    let mut p = UpdateProgress::new();
    p.begin_download();
    p.on_chunk(10, Some(40));
    p.on_error(String::from("slow"));
    let s = p.snapshot();
    assert_eq!(s.downloading, p.downloading);
    assert_eq!(s.percent_centi, p.percent_centi);
    assert_eq!(s.downloaded, p.downloaded);
    assert_eq!(s.total, p.total);
    assert_eq!(s.complete, p.complete);
    assert_eq!(s.error.as_deref(), Some("slow"));
}
