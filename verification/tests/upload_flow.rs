use openspace_sync::chunks::{chunk_bounds, chunk_count, CHUNK_SIZE};
use openspace_sync::store::{is_file_skipped, CredentialStore};
use openspace_sync::upload::{
    CheckOutcome, ChunkOutcome, Coordinator, FileInfo, UploadAction, UploadEvent,
};

const MIB: i64 = 1024 * 1024;

fn file(path: &str, filename: &str, size: i64) -> FileInfo {
    FileInfo {
        path: path.to_string(),
        filename: filename.to_string(),
        size,
        content_type: "video/insv".to_string(),
    }
}

#[test]
fn chunk_count_values() {
    assert_eq!(chunk_count(0), 0);
    assert_eq!(chunk_count(1), 1);
    assert_eq!(chunk_count(CHUNK_SIZE - 1), 1);
    assert_eq!(chunk_count(CHUNK_SIZE), 1);
    assert_eq!(chunk_count(CHUNK_SIZE + 1), 2);
    assert_eq!(chunk_count(16 * MIB), 2);
    assert_eq!(chunk_count(20 * MIB), 3);
}

#[test]
fn chunk_bounds_values() {
    // A 20 MiB file splits into 8 MiB, 8 MiB and 4 MiB.
    let size = 20 * MIB;
    assert_eq!(chunk_bounds(0, size), (0, 8 * MIB - 1));
    assert_eq!(chunk_bounds(1, size), (8 * MIB, 16 * MIB - 1));
    assert_eq!(chunk_bounds(2, size), (16 * MIB, 20 * MIB - 1));
    // An exact multiple has only full chunks.
    let size = 16 * MIB;
    assert_eq!(chunk_bounds(1, size), (8 * MIB, 16 * MIB - 1));
    // A file smaller than one chunk is a single chunk.
    assert_eq!(chunk_bounds(0, 5), (0, 4));
}

#[test]
fn chunk_lengths_sum_to_file_size() {
    let size = 20 * MIB + 12345;
    let n = chunk_count(size);
    let mut total = 0;
    for part in 0..n {
        let (start, end) = chunk_bounds(part, size);
        assert!(end - start + 1 <= CHUNK_SIZE);
        total += end - start + 1;
    }
    assert_eq!(total, size);
}

#[test]
fn absent_device_is_an_empty_result() {
    // No supported device attached: an empty outcome, not an error, and
    // a run over no files emits nothing per file and finishes at once.
    let ids: Vec<u16> = vec![0x1234, 0x5678];
    assert!(openspace_sync::device::match_camera(&ids).is_none());
    assert!(openspace_sync::device::match_camera(&Vec::new()).is_none());

    let store = CredentialStore::new();
    let (coordinator, events) = Coordinator::new("serial-1".to_string(), &Vec::new(), &store);
    assert_eq!(events.len(), 1);
    assert!(matches!(&events[0], UploadEvent::CameraFound { device_id } if device_id == "serial-1"));
    assert!(matches!(coordinator.next_action(), UploadAction::Finished));
}

#[test]
fn single_file_upload_emits_pending_started_progress_completed() {
    // One 20 MiB file the remote wants uploaded as "u1".
    let mut store = CredentialStore::new();
    let files = vec![file("/vol/DCIM/clip.insv", "clip.insv", 20 * MIB)];
    let (mut c, events) = Coordinator::new("dev-1".to_string(), &files, &store);
    assert_eq!(events.len(), 1); // CameraFound only

    let request = match c.next_action() {
        UploadAction::CheckFile { request } => request,
        _ => panic!("expected a check"),
    };
    assert_eq!(request.device_id, "dev-1");
    assert_eq!(request.filename, "clip.insv");
    assert_eq!(request.size_bytes, 20 * MIB);
    assert_eq!(request.part_count, 3);

    let events = c.on_check_result(CheckOutcome::NeedsUpload("u1".to_string()), &mut store);
    assert_eq!(events.len(), 2);
    assert!(matches!(&events[0], UploadEvent::FilePending { filename, total_bytes }
        if filename == "clip.insv" && *total_bytes == 20 * MIB));
    assert!(matches!(&events[1], UploadEvent::FileStarted { filename, total_bytes }
        if filename == "clip.insv" && *total_bytes == 20 * MIB));

    let mut progress = Vec::new();
    let mut completed = false;
    loop {
        match c.next_action() {
            UploadAction::UploadChunk { upload_id, path, start, end, total } => {
                assert_eq!(upload_id, "u1");
                assert_eq!(path, "/vol/DCIM/clip.insv");
                assert_eq!(total, 20 * MIB);
                assert!(end >= start);
                let events = c.on_chunk_result(ChunkOutcome::Accepted);
                for e in events {
                    match e {
                        UploadEvent::FileProgress { filename, bytes_uploaded, total_bytes } => {
                            assert_eq!(filename, "clip.insv");
                            assert_eq!(total_bytes, 20 * MIB);
                            progress.push(bytes_uploaded);
                        }
                        UploadEvent::FileCompleted { filename } => {
                            assert_eq!(filename, "clip.insv");
                            completed = true;
                        }
                        _ => panic!("unexpected event"),
                    }
                }
            }
            UploadAction::Finished => break,
            UploadAction::CheckFile { .. } => panic!("check after the check pass"),
        }
    }
    assert!(completed);
    assert_eq!(progress, vec![8 * MIB, 16 * MIB, 20 * MIB]);
    // The cumulative reports cover the file exactly once: the per-chunk
    // deltas sum to the size with no gap and no double counting.
    let mut previous = 0;
    let mut sum = 0;
    for p in &progress {
        sum += p - previous;
        previous = *p;
    }
    assert_eq!(sum, 20 * MIB);
}

#[test]
fn remote_duplicate_is_skipped_and_cached() {
    let mut store = CredentialStore::new();
    let files = vec![file("/vol/DCIM/clip.insv", "clip.insv", 20 * MIB)];
    let (mut c, _) = Coordinator::new("dev-1".to_string(), &files, &store);
    assert!(matches!(c.next_action(), UploadAction::CheckFile { .. }));

    let events = c.on_check_result(CheckOutcome::AlreadyUploaded, &mut store);
    assert_eq!(events.len(), 1);
    assert!(matches!(&events[0], UploadEvent::FileSkipped { filename } if filename == "clip.insv"));
    assert!(matches!(c.next_action(), UploadAction::Finished));

    // The remote confirmation was persisted into the dedup cache.
    assert!(is_file_skipped(&store, "clip.insv", 20 * MIB, "dev-1"));
    assert!(!is_file_skipped(&store, "clip.insv", 19 * MIB, "dev-1"));
    assert!(!is_file_skipped(&store, "clip.insv", 20 * MIB, "dev-2"));
}

#[test]
fn failed_chunk_fails_the_file_and_moves_on() {
    // Two queued files; chunk 2 of 3 of the first is rejected with a 500.
    let mut store = CredentialStore::new();
    let files = vec![
        file("/vol/a.insv", "a.insv", 20 * MIB),
        file("/vol/b.insv", "b.insv", MIB),
    ];
    let (mut c, _) = Coordinator::new("dev-1".to_string(), &files, &store);
    c.on_check_result(CheckOutcome::NeedsUpload("u1".to_string()), &mut store);
    let events = c.on_check_result(CheckOutcome::NeedsUpload("u2".to_string()), &mut store);
    // End of the check pass: the first queued file starts.
    assert!(matches!(&events[1], UploadEvent::FileStarted { filename, .. } if filename == "a.insv"));

    // Chunk 1 accepted.
    assert!(matches!(c.next_action(), UploadAction::UploadChunk { start: 0, .. }));
    c.on_chunk_result(ChunkOutcome::Accepted);
    // Chunk 2 rejected with a 500.
    let status = openspace_sync::strutil::u64_to_string(500);
    let error = "Failed to upload chunk: ".to_string() + &status;
    let events = c.on_chunk_result(ChunkOutcome::Rejected(error));
    assert_eq!(events.len(), 2);
    match &events[0] {
        UploadEvent::FileFailed { filename, error } => {
            assert_eq!(filename, "a.insv");
            assert!(error.contains("500"));
        }
        _ => panic!("expected a failure event"),
    }
    // The run continues with the next queued file.
    assert!(matches!(&events[1], UploadEvent::FileStarted { filename, .. } if filename == "b.insv"));
    match c.next_action() {
        UploadAction::UploadChunk { upload_id, path, start, end, total } => {
            assert_eq!(upload_id, "u2");
            assert_eq!(path, "/vol/b.insv");
            assert_eq!((start, end, total), (0, MIB - 1, MIB));
        }
        _ => panic!("expected the next file's chunk"),
    }
    let events = c.on_chunk_result(ChunkOutcome::Accepted);
    assert!(matches!(&events[1], UploadEvent::FileCompleted { filename } if filename == "b.insv"));
    assert!(matches!(c.next_action(), UploadAction::Finished));
}

#[test]
fn check_error_fails_that_file_only() {
    let mut store = CredentialStore::new();
    let files = vec![
        file("/vol/a.insv", "a.insv", MIB),
        file("/vol/b.insv", "b.insv", MIB),
    ];
    let (mut c, _) = Coordinator::new("dev-1".to_string(), &files, &store);
    let events = c.on_check_result(
        CheckOutcome::CheckFailed("Failed to create upload: 502".to_string()),
        &mut store,
    );
    assert!(matches!(&events[0], UploadEvent::FileFailed { filename, .. } if filename == "a.insv"));
    // The run goes on: the second file is still checked.
    assert!(matches!(c.next_action(), UploadAction::CheckFile { .. }));
}

#[test]
fn cached_files_are_never_uploaded() {
    // A file in the dedup cache is dropped in the local pass: no check and
    // no chunk request is ever issued for it.
    let mut store = CredentialStore::new();
    openspace_sync::store::add_skipped_file(&mut store, "old.insv", MIB, "dev-1");
    let files = vec![
        file("/vol/old.insv", "old.insv", MIB),
        file("/vol/new.insv", "new.insv", MIB),
    ];
    let (mut c, events) = Coordinator::new("dev-1".to_string(), &files, &store);
    assert_eq!(events.len(), 2);
    assert!(matches!(&events[1], UploadEvent::FileSkipped { filename } if filename == "old.insv"));

    let mut touched = Vec::new();
    loop {
        match c.next_action() {
            UploadAction::CheckFile { request } => {
                touched.push(request.filename.clone());
                c.on_check_result(CheckOutcome::NeedsUpload("u1".to_string()), &mut store);
            }
            UploadAction::UploadChunk { path, .. } => {
                touched.push(path.clone());
                c.on_chunk_result(ChunkOutcome::Accepted);
            }
            UploadAction::Finished => break,
        }
    }
    assert!(touched.iter().all(|t| !t.contains("old.insv")));
    assert!(touched.contains(&"new.insv".to_string()));
}

#[test]
fn discovery_and_dedup_classify_the_same_way_twice() {
    // First run: the remote already has a.insv (skipped remotely, cached)
    // and wants b.insv (queued). Against an unchanged remote, a second run
    // classifies both the same way: a.insv skipped (now locally), b.insv
    // queued again.
    let mut store = CredentialStore::new();
    let files = vec![
        file("/vol/a.insv", "a.insv", MIB),
        file("/vol/b.insv", "b.insv", MIB),
    ];

    let (mut c1, _) = Coordinator::new("dev-1".to_string(), &files, &store);
    let e1 = c1.on_check_result(CheckOutcome::AlreadyUploaded, &mut store);
    assert!(matches!(&e1[0], UploadEvent::FileSkipped { filename } if filename == "a.insv"));
    let e2 = c1.on_check_result(CheckOutcome::NeedsUpload("u1".to_string()), &mut store);
    assert!(matches!(&e2[0], UploadEvent::FilePending { filename, .. } if filename == "b.insv"));

    // Second run, remote unchanged: b.insv gets the same upload id again.
    let (mut c2, events) = Coordinator::new("dev-1".to_string(), &files, &store);
    assert_eq!(events.len(), 2);
    assert!(matches!(&events[1], UploadEvent::FileSkipped { filename } if filename == "a.insv"));
    let request = match c2.next_action() {
        UploadAction::CheckFile { request } => request,
        _ => panic!("expected a check"),
    };
    assert_eq!(request.filename, "b.insv");
    let e = c2.on_check_result(CheckOutcome::NeedsUpload("u1".to_string()), &mut store);
    assert!(matches!(&e[0], UploadEvent::FilePending { filename, .. } if filename == "b.insv"));
}

#[test]
fn zero_byte_file_completes_without_chunks() {
    let mut store = CredentialStore::new();
    let files = vec![file("/vol/empty.insv", "empty.insv", 0)];
    let (mut c, _) = Coordinator::new("dev-1".to_string(), &files, &store);
    let request = match c.next_action() {
        UploadAction::CheckFile { request } => request,
        _ => panic!("expected a check"),
    };
    assert_eq!(request.part_count, 0);
    let events = c.on_check_result(CheckOutcome::NeedsUpload("u1".to_string()), &mut store);
    assert_eq!(events.len(), 3);
    assert!(matches!(&events[0], UploadEvent::FilePending { .. }));
    assert!(matches!(&events[1], UploadEvent::FileStarted { .. }));
    assert!(matches!(&events[2], UploadEvent::FileCompleted { .. }));
    assert!(matches!(c.next_action(), UploadAction::Finished));
}
