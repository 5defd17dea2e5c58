use zundalink::download::{
    chunk_dir_for, chunk_path_for, chunk_range, chunk_status_accepted, file_path_for, first_step,
    merge_order, plan_chunk, progress_report, range_header, temp_path_for,
    verification_failed_message, ChunkPlan, DownloadStatus, FileDigest, FirstStep,
    MirrorAttempts, DOWNLOAD_THREADS_PER_FILE, MAX_CONCURRENT_FILES,
};

#[test]
fn ranges_cover_the_file() {
    assert_eq!(DOWNLOAD_THREADS_PER_FILE, 16);
    assert_eq!(MAX_CONCURRENT_FILES, 5);
    let total = 1000u64;
    let mut next = 0u64;
    for id in 0..16 {
        let (s, e) = chunk_range(total, id);
        assert_eq!(s, next);
        assert!(s <= e);
        next = e + 1;
    }
    assert_eq!(next, total);
    assert_eq!(chunk_range(1000, 0), (0, 61));
    assert_eq!(chunk_range(1000, 15), (930, 999));
    assert_eq!(chunk_range(16, 7), (7, 7));
}

#[test]
fn chunk_plans() {
    assert_eq!(plan_chunk(0, 99, Some(100)), ChunkPlan::AlreadyComplete(100));
    assert_eq!(
        plan_chunk(0, 99, None),
        ChunkPlan::Fetch { from: 0, to: 99, append: false, discard_existing: false }
    );
    assert_eq!(
        plan_chunk(100, 199, Some(40)),
        ChunkPlan::Fetch { from: 140, to: 199, append: true, discard_existing: false }
    );
    assert_eq!(
        plan_chunk(100, 199, Some(0)),
        ChunkPlan::Fetch { from: 100, to: 199, append: false, discard_existing: false }
    );
    assert_eq!(
        plan_chunk(100, 199, Some(150)),
        ChunkPlan::Fetch { from: 100, to: 199, append: false, discard_existing: true }
    );
}

#[test]
fn range_headers_and_status() {
    assert_eq!(range_header(140, 199), "bytes=140-199");
    assert_eq!(range_header(0, 0), "bytes=0-0");
    assert!(chunk_status_accepted(200));
    assert!(chunk_status_accepted(206));
    assert!(!chunk_status_accepted(403));
    assert!(!chunk_status_accepted(302));
}

#[test]
fn merge_order_sorts_task_ids() {
    let ids = vec![3, 0, 15, 1, 2, 4, 5, 6, 7, 8, 9, 10, 11, 12, 13, 14];
    assert_eq!(merge_order(&ids), (0..16).collect::<Vec<usize>>());
    assert_eq!(merge_order(&[2, 2, 1]), vec![1, 2, 2]);
}

#[test]
fn paths() {
    let p = file_path_for("./temp", "a.pack");
    assert_eq!(p, "./temp/a.pack");
    let t = temp_path_for(&p);
    assert_eq!(t, "./temp/a.pack.tmp");
    let d = chunk_dir_for(&t);
    assert_eq!(d, "./temp/a.pack.tmp.chunks");
    assert_eq!(chunk_path_for(&d, 12), "./temp/a.pack.tmp.chunks/chunk_12");
}

#[test]
fn first_steps() {
    assert_eq!(first_step(0, Some(5)), FirstStep::CreateEmpty);
    assert_eq!(first_step(10, Some(10)), FirstStep::CheckExisting);
    assert_eq!(first_step(10, Some(9)), FirstStep::Fetch);
    assert_eq!(first_step(10, None), FirstStep::Fetch);
}

#[test]
fn mirrors_are_tried_in_order() {
    let mut m = MirrorAttempts::new(2);
    assert_eq!(m.next_url(), Some(0));
    m.record_failure("HTTP error: 403 Forbidden for chunk 3".to_string());
    assert_eq!(m.next_url(), Some(1));
    m.record_failure(verification_failed_message());
    assert_eq!(m.next_url(), None);
    let (shown, returned) = m.failure();
    assert_eq!(shown, "SHA256 verification failed");
    assert_eq!(returned, "SHA256 verification failed");
    let none = MirrorAttempts::new(0);
    assert_eq!(none.next_url(), None);
    assert_eq!(none.failure(), (String::new(), "All download URLs failed".to_string()));
}

#[test]
fn sha256_check() {
    let mut d = FileDigest::new();
    d.absorb(b"a");
    d.absorb(b"bc");
    assert_eq!(d.hashed(), 3);
    assert!(d.matches("ba7816bf8f01cfea414140de5dae2223b00361a396177a9cb410ff61f20015ad"));
    let mut d = FileDigest::new();
    d.absorb(b"abc");
    assert!(d.matches("BA7816BF8F01CFEA414140DE5DAE2223B00361A396177A9CB410FF61F20015AD"));
    let mut d = FileDigest::new();
    d.absorb(b"abd");
    assert!(!d.matches("ba7816bf8f01cfea414140de5dae2223b00361a396177a9cb410ff61f20015ad"));
    let d = FileDigest::new();
    assert!(d.matches("e3b0c44298fc1c149afbf4c8996fb92427ae41e4649b934ca495991b7852b855"));
}

#[test]
fn progress_reports() {
    let p = progress_report("a.pack", 5, 10, DownloadStatus::Downloading);
    assert_eq!(p.filename, "a.pack");
    assert_eq!(p.downloaded, 5);
    assert_eq!(p.total, 10);
    assert_eq!(p.status, DownloadStatus::Downloading);
    assert_eq!(p.verified_bytes, 0);
}
