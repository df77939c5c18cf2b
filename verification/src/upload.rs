//! The upload coordinator: a two-pass state machine per run.
//!
//! Pass one walks the discovered files, drops the ones the dedup cache
//! already knows, and asks the remote once per remaining file whether it must
//! be uploaded. Pass two uploads the queued files in discovery order, in
//! chunks of [`crate::chunks::CHUNK_SIZE`] bytes. The caller owns the HTTP
//! transport and the file reads; this module owns every decision and the
//! emitted event stream.

use vstd::prelude::*;
use crate::chunks::CHUNK_SIZE;
use crate::chunks::chunk_bounds;
use crate::chunks::chunk_count;
use crate::chunks::spec_bytes_after;
use crate::chunks::spec_chunk_count;
use crate::chunks::spec_chunk_end;
use crate::chunks::spec_chunk_start;
use crate::store::CredentialStore;
use crate::store::add_skipped_file;
use crate::store::is_file_skipped;
use crate::store::spec_is_skipped;
use crate::store::spec_skipped_wf;

verus! {

/// A lifecycle event of the run or of one file, as the caller observes it.
pub enum UploadEvent {
    CameraFound { device_id: String },
    FilePending { filename: String, total_bytes: i64 },
    FileStarted { filename: String, total_bytes: i64 },
    FileProgress { filename: String, bytes_uploaded: i64, total_bytes: i64 },
    FileSkipped { filename: String },
    FileCompleted { filename: String },
    FileFailed { filename: String, error: String },
}

/// The mathematical image of an [`UploadEvent`].
pub enum UploadEventV {
    CameraFound { device_id: Seq<char> },
    FilePending { filename: Seq<char>, total_bytes: int },
    FileStarted { filename: Seq<char>, total_bytes: int },
    FileProgress { filename: Seq<char>, bytes_uploaded: int, total_bytes: int },
    FileSkipped { filename: Seq<char> },
    FileCompleted { filename: Seq<char> },
    FileFailed { filename: Seq<char>, error: Seq<char> },
}

impl View for UploadEvent {
    type V = UploadEventV;

    open spec fn view(&self) -> UploadEventV {
        match self {
            UploadEvent::CameraFound { device_id } => UploadEventV::CameraFound {
                device_id: device_id@,
            },
            UploadEvent::FilePending { filename, total_bytes } => UploadEventV::FilePending {
                filename: filename@,
                total_bytes: *total_bytes as int,
            },
            UploadEvent::FileStarted { filename, total_bytes } => UploadEventV::FileStarted {
                filename: filename@,
                total_bytes: *total_bytes as int,
            },
            UploadEvent::FileProgress { filename, bytes_uploaded, total_bytes } => (
            UploadEventV::FileProgress {
                filename: filename@,
                bytes_uploaded: *bytes_uploaded as int,
                total_bytes: *total_bytes as int,
            }),
            UploadEvent::FileSkipped { filename } => UploadEventV::FileSkipped {
                filename: filename@,
            },
            UploadEvent::FileCompleted { filename } => UploadEventV::FileCompleted {
                filename: filename@,
            },
            UploadEvent::FileFailed { filename, error } => UploadEventV::FileFailed {
                filename: filename@,
                error: error@,
            },
        }
    }
}

/// The character views of a sequence of events.
pub open spec fn spec_events_view(s: Seq<UploadEvent>) -> Seq<UploadEventV> {
    s.map_values(|e: UploadEvent| e@)
}

/// A candidate file found on the device.
pub struct FileInfo {
    pub path: String,
    pub filename: String,
    pub size: i64,
    pub content_type: String,
}

/// The mathematical image of a [`FileInfo`].
pub struct FileInfoV {
    pub path: Seq<char>,
    pub filename: Seq<char>,
    pub size: int,
    pub content_type: Seq<char>,
}

impl View for FileInfo {
    type V = FileInfoV;

    open spec fn view(&self) -> FileInfoV {
        FileInfoV {
            path: self.path@,
            filename: self.filename@,
            size: self.size as int,
            content_type: self.content_type@,
        }
    }
}

impl FileInfo {
    /// A copy of this record.
    pub fn duplicate(&self) -> (r: FileInfo)
        ensures
            r@ == self@,
    {
        FileInfo {
            path: self.path.clone(),
            filename: self.filename.clone(),
            size: self.size,
            content_type: self.content_type.clone(),
        }
    }
}

/// A file's size is usable for chunk arithmetic.
pub open spec fn spec_file_wf(f: FileInfoV) -> bool {
    0 <= f.size && f.size + CHUNK_SIZE <= i64::MAX
}

/// The character views of a sequence of files.
pub open spec fn spec_files_view(s: Seq<FileInfo>) -> Seq<FileInfoV> {
    s.map_values(|f: FileInfo| f@)
}

/// Body of the get-or-create-upload request sent once per candidate file.
pub struct UploadRequest {
    pub device_id: String,
    pub filename: String,
    pub content_type: String,
    pub size_bytes: i64,
    pub part_count: i64,
}

impl UploadRequest {
    /// A request from its parts.
    pub fn new(
        device_id: String,
        filename: String,
        content_type: String,
        size_bytes: i64,
        part_count: i64,
    ) -> (r: UploadRequest)
        ensures
            r.device_id == device_id,
            r.filename == filename,
            r.content_type == content_type,
            r.size_bytes == size_bytes,
            r.part_count == part_count,
    {
        UploadRequest { device_id, filename, content_type, size_bytes, part_count }
    }
}

/// The remote's answer to a get-or-create-upload request.
pub enum CheckOutcome {
    /// No upload id: the remote already has the complete file.
    AlreadyUploaded,
    /// The file must be uploaded under this upload id.
    NeedsUpload(String),
    /// Transport or server error; fatal for this file only.
    CheckFailed(String),
}

/// The remote's answer to one chunk PUT.
pub enum ChunkOutcome {
    /// The chunk was accepted.
    Accepted,
    /// Non-success status; fatal for this file only.
    Rejected(String),
}

/// What the caller must do next.
pub enum UploadAction {
    /// Send the get-or-create-upload request and report the answer through
    /// `on_check_result`.
    CheckFile { request: UploadRequest },
    /// Read bytes `start..=end` of the file at `path` and PUT them under
    /// `Content-Range: bytes start-end/total`; report the answer through
    /// `on_chunk_result`.
    UploadChunk { upload_id: String, path: String, start: i64, end: i64, total: i64 },
    /// The run is over; the event stream ends here.
    Finished,
}

/// A file the remote asked to have uploaded, waiting in the queue.
pub struct QueuedUpload {
    /// Index into the coordinator's candidate files.
    pub file_index: usize,
    /// The upload id the remote assigned.
    pub upload_id: String,
}

/// Phase of a coordinator run: the whole check pass completes before any
/// upload begins.
#[derive(Clone, Copy, Debug, PartialEq, Eq, Structural)]
pub enum RunPhase {
    Checking,
    Uploading,
    Done,
}

/// Is the file at `files[i]` known to the dedup cache of `store`?
pub open spec fn spec_locally_skipped(
    store: CredentialStore,
    f: FileInfoV,
    device_id: Seq<char>,
) -> bool {
    spec_is_skipped(store, f.filename, f.size, device_id)
}

/// The files of `files` that survive the local filter pass, in order.
pub open spec fn spec_kept(
    files: Seq<FileInfo>,
    store: CredentialStore,
    device_id: Seq<char>,
) -> Seq<FileInfoV>
    decreases files.len(),
{
    if files.len() == 0 {
        Seq::empty()
    } else {
        let init = spec_kept(files.drop_last(), store, device_id);
        if spec_locally_skipped(store, files.last()@, device_id) {
            init
        } else {
            init.push(files.last()@)
        }
    }
}

/// The `FileSkipped` events the local filter pass emits, in order.
pub open spec fn spec_skip_events(
    files: Seq<FileInfo>,
    store: CredentialStore,
    device_id: Seq<char>,
) -> Seq<UploadEventV>
    decreases files.len(),
{
    if files.len() == 0 {
        Seq::empty()
    } else {
        let init = spec_skip_events(files.drop_last(), store, device_id);
        if spec_locally_skipped(store, files.last()@, device_id) {
            init.push(UploadEventV::FileSkipped { filename: files.last()@.filename })
        } else {
            init
        }
    }
}

/// The file a queue entry points at.
pub open spec fn spec_queue_file(files: Seq<FileInfo>, queue: Seq<QueuedUpload>, qi: int) -> FileInfoV {
    files[queue[qi].file_index as int]@
}

/// Well-formedness of the upload queue against the candidate files: every
/// entry points at a real candidate below `bound`, never at a file that was
/// classified skipped, and only at files with at least one chunk.
pub open spec fn spec_queue_wf(
    files: Seq<FileInfo>,
    queue: Seq<QueuedUpload>,
    skipped: Set<int>,
    bound: int,
) -> bool {
    forall|i: int|
        0 <= i < queue.len() ==> {
            &&& (#[trigger] queue[i]).file_index < bound
            &&& !skipped.contains(queue[i].file_index as int)
            &&& spec_chunk_count(spec_queue_file(files, queue, i).size) > 0
        }
}

/// The `FileStarted` event for the queue entry at `idx`, or nothing when
/// `idx` is past the end of the queue.
pub open spec fn spec_start_event(
    files: Seq<FileInfo>,
    queue: Seq<QueuedUpload>,
    idx: int,
) -> Seq<UploadEventV> {
    if 0 <= idx < queue.len() {
        seq![
            UploadEventV::FileStarted {
                filename: spec_queue_file(files, queue, idx).filename,
                total_bytes: spec_queue_file(files, queue, idx).size,
            },
        ]
    } else {
        Seq::empty()
    }
}

/// The events one check answer produces for the file it is about. A file of
/// zero bytes has zero chunks, so an upload id for it completes the file on
/// the spot.
pub open spec fn spec_check_step_events(f: FileInfoV, outcome: CheckOutcome) -> Seq<
    UploadEventV,
> {
    match outcome {
        CheckOutcome::AlreadyUploaded => seq![
            UploadEventV::FileSkipped { filename: f.filename },
        ],
        CheckOutcome::NeedsUpload(id) => if spec_chunk_count(f.size) == 0 {
            seq![
                UploadEventV::FilePending { filename: f.filename, total_bytes: f.size },
                UploadEventV::FileStarted { filename: f.filename, total_bytes: f.size },
                UploadEventV::FileCompleted { filename: f.filename },
            ]
        } else {
            seq![UploadEventV::FilePending { filename: f.filename, total_bytes: f.size }]
        },
        CheckOutcome::CheckFailed(e) => seq![
            UploadEventV::FileFailed { filename: f.filename, error: e@ },
        ],
    }
}

/// The upload coordinator for one run against one device.
pub struct Coordinator {
    pub device_id: String,
    /// Candidates that survived the local filter, in discovery order.
    pub files: Vec<FileInfo>,
    /// Next file the check pass will ask the remote about.
    pub check_idx: usize,
    /// Files the remote asked to have uploaded, in discovery order.
    pub queue: Vec<QueuedUpload>,
    /// Current file of the upload pass, as an index into `queue`.
    pub upload_idx: usize,
    /// Next chunk of the current file.
    pub part_idx: i64,
    pub phase: RunPhase,
    /// Indices into `files` this run classified as skipped remotely.
    pub skipped_ids: Ghost<Set<int>>,
}

impl Coordinator {
    /// The file the upload pass is currently working on.
    pub open spec fn spec_current_file(self) -> FileInfoV {
        spec_queue_file(self.files@, self.queue@, self.upload_idx as int)
    }

    /// Well-formedness of a run's state.
    pub open spec fn wf(self) -> bool {
        &&& self.check_idx <= self.files@.len()
        &&& forall|i: int| 0 <= i < self.files@.len() ==> spec_file_wf(#[trigger] self.files@[i]@)
        &&& spec_queue_wf(self.files@, self.queue@, self.skipped_ids@, self.check_idx as int)
        &&& forall|id: int| self.skipped_ids@.contains(id) ==> 0 <= id < self.check_idx
        &&& self.phase is Checking ==> {
            &&& self.check_idx < self.files@.len()
            &&& self.upload_idx == 0
            &&& self.part_idx == 0
        }
        &&& self.phase is Uploading ==> {
            &&& self.check_idx == self.files@.len()
            &&& self.upload_idx < self.queue@.len()
            &&& 0 <= self.part_idx < spec_chunk_count(self.spec_current_file().size)
        }
        &&& self.phase is Done ==> self.upload_idx >= self.queue@.len()
    }

    /// Start a run: emit the camera-found event, drop every file the dedup
    /// cache already knows (emitting a skipped event for each), and keep the
    /// rest for the check pass.
    pub fn new(device_id: String, files: &Vec<FileInfo>, store: &CredentialStore) -> (r: (
        Coordinator,
        Vec<UploadEvent>,
    ))
        requires
            forall|i: int| 0 <= i < files@.len() ==> spec_file_wf(#[trigger] files@[i]@),
        ensures
            r.0.wf(),
            r.0.device_id@ == device_id@,
            spec_files_view(r.0.files@) == spec_kept(files@, *store, device_id@),
            r.0.check_idx == 0,
            r.0.queue@.len() == 0,
            r.0.skipped_ids@ == Set::<int>::empty(),
            r.0.phase is Done <==> spec_kept(files@, *store, device_id@).len() == 0,
            r.0.phase is Done || r.0.phase is Checking,
            spec_events_view(r.1@) == seq![
                UploadEventV::CameraFound { device_id: device_id@ },
            ] + spec_skip_events(files@, *store, device_id@),
    {
        let mut kept: Vec<FileInfo> = Vec::new();
        let mut events: Vec<UploadEvent> = Vec::new();
        events.push(UploadEvent::CameraFound { device_id: device_id.clone() });
        let mut i: usize = 0;
        while i < files.len()
            invariant
                i <= files.len(),
                forall|k: int| 0 <= k < files@.len() ==> spec_file_wf(#[trigger] files@[k]@),
                spec_files_view(kept@) == spec_kept(files@.take(i as int), *store, device_id@),
                spec_events_view(events@) == seq![
                    UploadEventV::CameraFound { device_id: device_id@ },
                ] + spec_skip_events(files@.take(i as int), *store, device_id@),
                forall|k: int| 0 <= k < kept@.len() ==> spec_file_wf(#[trigger] kept@[k]@),
            decreases files.len() - i,
        {
            let ghost prefix = files@.take(i as int);
            let ghost pre_events = events@;
            let ghost pre_kept = kept@;
            assert(files@.take(i as int + 1).drop_last() =~= prefix);
            assert(files@.take(i as int + 1).last() == files@[i as int]);
            let f = &files[i];
            if is_file_skipped(store, f.filename.as_str(), f.size, device_id.as_str()) {
                events.push(UploadEvent::FileSkipped { filename: f.filename.clone() });
                proof {
                    assert(spec_events_view(events@) =~= spec_events_view(pre_events).push(
                        UploadEventV::FileSkipped { filename: f@.filename },
                    ));
                    assert(spec_events_view(events@) =~= seq![
                        UploadEventV::CameraFound { device_id: device_id@ },
                    ] + spec_skip_events(files@.take(i as int + 1), *store, device_id@));
                }
            } else {
                kept.push(f.duplicate());
                proof {
                    assert(spec_files_view(kept@) =~= spec_files_view(pre_kept).push(f@));
                    assert(spec_files_view(kept@) =~= spec_kept(
                        files@.take(i as int + 1),
                        *store,
                        device_id@,
                    ));
                }
            }
            i += 1;
        }
        proof {
            assert(files@.take(files@.len() as int) =~= files@);
        }
        let phase = if kept.len() == 0 {
            RunPhase::Done
        } else {
            RunPhase::Checking
        };
        let c = Coordinator {
            device_id,
            files: kept,
            check_idx: 0,
            queue: Vec::new(),
            upload_idx: 0,
            part_idx: 0,
            phase,
            skipped_ids: Ghost(Set::empty()),
        };
        (c, events)
    }

    /// What the caller must do next: ask the remote about the current
    /// candidate, upload the current chunk of the current queued file, or
    /// stop.
    pub fn next_action(&self) -> (r: UploadAction)
        requires
            self.wf(),
        ensures
            self.phase is Checking ==> (r matches UploadAction::CheckFile { request } && {
                let f = self.files@[self.check_idx as int]@;
                &&& request.device_id@ == self.device_id@
                &&& request.filename@ == f.filename
                &&& request.content_type@ == f.content_type
                &&& request.size_bytes == f.size
                &&& request.part_count == spec_chunk_count(f.size)
            }),
            self.phase is Uploading ==> (r matches UploadAction::UploadChunk {
                upload_id,
                path,
                start,
                end,
                total,
            } && {
                let f = self.spec_current_file();
                &&& upload_id@ == self.queue@[self.upload_idx as int].upload_id@
                &&& path@ == f.path
                &&& start == spec_chunk_start(self.part_idx as int)
                &&& end == spec_chunk_end(self.part_idx as int, f.size)
                &&& total == f.size
            }),
            self.phase is Done ==> r is Finished,
    {
        match self.phase {
            RunPhase::Checking => {
                let f = &self.files[self.check_idx];
                assert(spec_file_wf(self.files@[self.check_idx as int]@));
                let parts = chunk_count(f.size);
                UploadAction::CheckFile {
                    request: UploadRequest::new(
                        self.device_id.clone(),
                        f.filename.clone(),
                        f.content_type.clone(),
                        f.size,
                        parts,
                    ),
                }
            },
            RunPhase::Uploading => {
                let q = &self.queue[self.upload_idx];
                let f = &self.files[q.file_index];
                let (start, end) = chunk_bounds(self.part_idx, f.size);
                UploadAction::UploadChunk {
                    upload_id: q.upload_id.clone(),
                    path: f.path.clone(),
                    start,
                    end,
                    total: f.size,
                }
            },
            RunPhase::Done => UploadAction::Finished,
        }
    }

    /// Feed the remote's answer for the current candidate into the run.
    ///
    /// A file the remote already has is recorded in the dedup cache and
    /// skipped; a file with an upload id is queued (or, with zero chunks,
    /// completed on the spot); a check error fails that file only. When this
    /// was the last candidate, the upload pass begins and the first queued
    /// file is started.
    pub fn on_check_result(&mut self, outcome: CheckOutcome, store: &mut CredentialStore) -> (
    events: Vec<UploadEvent>)
        requires
            old(self).wf(),
            old(self).phase is Checking,
            spec_skipped_wf(*old(store)),
        ensures
            final(self).wf(),
            spec_skipped_wf(*final(store)),
            final(self).device_id == old(self).device_id,
            final(self).files == old(self).files,
            final(self).check_idx == old(self).check_idx + 1,
            match outcome {
                CheckOutcome::AlreadyUploaded => {
                    let f = old(self).files@[old(self).check_idx as int]@;
                    &&& final(self).queue == old(self).queue
                    &&& final(self).skipped_ids@ == old(self).skipped_ids@.insert(
                        old(self).check_idx as int,
                    )
                    &&& spec_is_skipped(*final(store), f.filename, f.size, old(self).device_id@)
                    &&& forall|fk: Seq<char>, sk: int, dk: Seq<char>|
                        (fk, sk, dk) != (f.filename, f.size, old(self).device_id@)
                            ==> #[trigger] spec_is_skipped(*final(store), fk, sk, dk)
                            == spec_is_skipped(*old(store), fk, sk, dk)
                    &&& final(store).user_config == old(store).user_config
                    &&& final(store).oauth_config == old(store).oauth_config
                },
                CheckOutcome::NeedsUpload(id) => {
                    let f = old(self).files@[old(self).check_idx as int]@;
                    &&& final(self).skipped_ids@ == old(self).skipped_ids@
                    &&& *final(store) == *old(store)
                    &&& (spec_chunk_count(f.size) == 0 ==> final(self).queue == old(self).queue)
                    &&& (spec_chunk_count(f.size) > 0 ==> final(self).queue@ == old(
                        self,
                    ).queue@.push(
                        QueuedUpload { file_index: old(self).check_idx, upload_id: id },
                    ))
                },
                CheckOutcome::CheckFailed(e) => {
                    &&& final(self).queue == old(self).queue
                    &&& final(self).skipped_ids@ == old(self).skipped_ids@
                    &&& *final(store) == *old(store)
                },
            },
            spec_events_view(events@) == spec_check_step_events(
                old(self).files@[old(self).check_idx as int]@,
                outcome,
            ) + (if old(self).check_idx + 1 == old(self).files@.len() {
                spec_start_event(final(self).files@, final(self).queue@, 0)
            } else {
                Seq::<UploadEventV>::empty()
            }),
            old(self).check_idx + 1 < old(self).files@.len() ==> final(self).phase is Checking,
            old(self).check_idx + 1 == old(self).files@.len() ==> {
                &&& final(self).upload_idx == 0
                &&& final(self).part_idx == 0
                &&& (final(self).phase is Uploading <==> final(self).queue@.len() > 0)
                &&& (final(self).phase is Done <==> final(self).queue@.len() == 0)
            },
    {
        let mut events: Vec<UploadEvent> = Vec::new();
        let f = &self.files[self.check_idx];
        assert(spec_file_wf(self.files@[self.check_idx as int]@));
        let ghost pre_queue = self.queue@;
        match outcome {
            CheckOutcome::AlreadyUploaded => {
                events.push(UploadEvent::FileSkipped { filename: f.filename.clone() });
                add_skipped_file(
                    store,
                    f.filename.as_str(),
                    f.size,
                    self.device_id.as_str(),
                );
                proof {
                    self.skipped_ids@ = self.skipped_ids@.insert(self.check_idx as int);
                }
            },
            CheckOutcome::NeedsUpload(id) => {
                events.push(
                    UploadEvent::FilePending { filename: f.filename.clone(), total_bytes: f.size },
                );
                let parts = chunk_count(f.size);
                if parts == 0 {
                    events.push(
                        UploadEvent::FileStarted {
                            filename: f.filename.clone(),
                            total_bytes: f.size,
                        },
                    );
                    events.push(UploadEvent::FileCompleted { filename: f.filename.clone() });
                } else {
                    let entry = QueuedUpload { file_index: self.check_idx, upload_id: id };
                    self.queue.push(entry);
                }
            },
            CheckOutcome::CheckFailed(e) => {
                events.push(
                    UploadEvent::FileFailed { filename: f.filename.clone(), error: e },
                );
            },
        }
        let n = self.files.len();
        assert(self.check_idx < n);
        self.check_idx += 1;
        if self.check_idx == self.files.len() {
            if self.queue.len() > 0 {
                let q = &self.queue[0];
                let first = &self.files[q.file_index];
                events.push(
                    UploadEvent::FileStarted {
                        filename: first.filename.clone(),
                        total_bytes: first.size,
                    },
                );
                self.phase = RunPhase::Uploading;
            } else {
                self.phase = RunPhase::Done;
            }
            self.upload_idx = 0;
            self.part_idx = 0;
        }
        events
    }

    /// Feed the remote's answer for the current chunk into the run.
    ///
    /// An accepted chunk advances the progress of the current file and, when
    /// it was the last chunk, completes the file; a rejected chunk fails the
    /// file with the given status text. Either way the run then proceeds to
    /// the next queued file, or finishes.
    pub fn on_chunk_result(&mut self, outcome: ChunkOutcome) -> (events: Vec<UploadEvent>)
        requires
            old(self).wf(),
            old(self).phase is Uploading,
        ensures
            final(self).wf(),
            final(self).device_id == old(self).device_id,
            final(self).files == old(self).files,
            final(self).queue == old(self).queue,
            final(self).check_idx == old(self).check_idx,
            final(self).skipped_ids@ == old(self).skipped_ids@,
            match outcome {
                ChunkOutcome::Accepted => {
                    let f = old(self).spec_current_file();
                    let parts = old(self).part_idx + 1;
                    if parts < spec_chunk_count(f.size) {
                        &&& final(self).phase is Uploading
                        &&& final(self).upload_idx == old(self).upload_idx
                        &&& final(self).part_idx == parts
                        &&& spec_events_view(events@) == seq![
                            UploadEventV::FileProgress {
                                filename: f.filename,
                                bytes_uploaded: spec_bytes_after(parts, f.size),
                                total_bytes: f.size,
                            },
                        ]
                    } else {
                        &&& final(self).upload_idx == old(self).upload_idx + 1
                        &&& final(self).part_idx == 0
                        &&& spec_events_view(events@) == seq![
                            UploadEventV::FileProgress {
                                filename: f.filename,
                                bytes_uploaded: f.size,
                                total_bytes: f.size,
                            },
                            UploadEventV::FileCompleted { filename: f.filename },
                        ] + spec_start_event(
                            old(self).files@,
                            old(self).queue@,
                            old(self).upload_idx + 1,
                        )
                        &&& (final(self).phase is Uploading <==> old(self).upload_idx + 1 < old(
                            self,
                        ).queue@.len())
                    }
                },
                ChunkOutcome::Rejected(err) => {
                    let f = old(self).spec_current_file();
                    &&& final(self).upload_idx == old(self).upload_idx + 1
                    &&& final(self).part_idx == 0
                    &&& spec_events_view(events@) == seq![
                        UploadEventV::FileFailed { filename: f.filename, error: err@ },
                    ] + spec_start_event(
                        old(self).files@,
                        old(self).queue@,
                        old(self).upload_idx + 1,
                    )
                    &&& (final(self).phase is Uploading <==> old(self).upload_idx + 1 < old(
                        self,
                    ).queue@.len())
                },
            },
    {
        let mut events: Vec<UploadEvent> = Vec::new();
        let ghost out = outcome;
        let qi = self.upload_idx;
        let fidx = self.queue[qi].file_index;
        let f = &self.files[fidx];
        assert(spec_file_wf(self.files@[fidx as int]@));
        proof {
            crate::chunks::lemma_chunk_count_bounds(f@.size);
        }
        let mut advance = false;
        match outcome {
            ChunkOutcome::Accepted => {
                let (start, end) = chunk_bounds(self.part_idx, f.size);
                let bytes = end + 1;
                events.push(
                    UploadEvent::FileProgress {
                        filename: f.filename.clone(),
                        bytes_uploaded: bytes,
                        total_bytes: f.size,
                    },
                );
                let parts_total = chunk_count(f.size);
                self.part_idx += 1;
                if self.part_idx == parts_total {
                    events.push(UploadEvent::FileCompleted { filename: f.filename.clone() });
                    advance = true;
                }
            },
            ChunkOutcome::Rejected(err) => {
                events.push(
                    UploadEvent::FileFailed { filename: f.filename.clone(), error: err },
                );
                advance = true;
            },
        }
        if advance {
            let m = self.queue.len();
            assert(self.upload_idx < m);
            self.upload_idx += 1;
            self.part_idx = 0;
            if self.upload_idx < m {
                let q2 = &self.queue[self.upload_idx];
                let f2 = &self.files[q2.file_index];
                events.push(
                    UploadEvent::FileStarted {
                        filename: f2.filename.clone(),
                        total_bytes: f2.size,
                    },
                );
                self.phase = RunPhase::Uploading;
            } else {
                self.phase = RunPhase::Done;
            }
        }
        proof {
            let f0 = old(self).spec_current_file();
            match out {
                ChunkOutcome::Accepted => {
                    if old(self).part_idx + 1 < spec_chunk_count(f0.size) {
                        assert(spec_events_view(events@) =~= seq![
                            UploadEventV::FileProgress {
                                filename: f0.filename,
                                bytes_uploaded: spec_bytes_after(
                                    old(self).part_idx + 1,
                                    f0.size,
                                ),
                                total_bytes: f0.size,
                            },
                        ]);
                    } else {
                        assert(spec_events_view(events@) =~= seq![
                            UploadEventV::FileProgress {
                                filename: f0.filename,
                                bytes_uploaded: f0.size,
                                total_bytes: f0.size,
                            },
                            UploadEventV::FileCompleted { filename: f0.filename },
                        ] + spec_start_event(
                            old(self).files@,
                            old(self).queue@,
                            old(self).upload_idx + 1,
                        ));
                    }
                },
                ChunkOutcome::Rejected(err) => {
                    assert(spec_events_view(events@) =~= seq![
                        UploadEventV::FileFailed { filename: f0.filename, error: err@ },
                    ] + spec_start_event(
                        old(self).files@,
                        old(self).queue@,
                        old(self).upload_idx + 1,
                    ));
                },
            }
        }
        events
    }
}

/// The local filter pass is complete: no file the dedup cache knows
/// survives it, so a locally skipped file is never among a run's candidates.
pub proof fn lemma_kept_excludes_cached(
    files: Seq<FileInfo>,
    store: CredentialStore,
    device_id: Seq<char>,
    j: int,
)
    requires
        0 <= j < spec_kept(files, store, device_id).len(),
    ensures
        !spec_locally_skipped(store, spec_kept(files, store, device_id)[j], device_id),
    decreases files.len(),
{
    if files.len() > 0 {
        let init = spec_kept(files.drop_last(), store, device_id);
        if spec_locally_skipped(store, files.last()@, device_id) {
            lemma_kept_excludes_cached(files.drop_last(), store, device_id, j);
        } else {
            if j < init.len() {
                lemma_kept_excludes_cached(files.drop_last(), store, device_id, j);
            }
        }
    }
}

/// A skipped file is never the subject of a chunk upload: locally skipped
/// files are not among a run's candidates at all (see [`Coordinator::new`]),
/// and remotely skipped files never enter the queue, from which every chunk
/// action is drawn (see [`Coordinator::next_action`]).
pub proof fn lemma_skipped_never_uploaded(c: Coordinator)
    requires
        c.wf(),
        c.phase is Uploading,
    ensures
        !c.skipped_ids@.contains(c.queue@[c.upload_idx as int].file_index as int),
{
}

/// How the discovery and dedup passes classify one file, given whether the
/// dedup cache already holds it and what the remote answers for it.
pub enum FileClass {
    SkippedLocally,
    SkippedRemotely,
    QueuedForUpload,
    Failed,
}

/// The classification of one file: a cache hit is skipped locally with no
/// network call; otherwise the remote's answer decides.
pub open spec fn spec_classify(in_cache: bool, remote: CheckOutcome) -> FileClass {
    if in_cache {
        FileClass::SkippedLocally
    } else {
        match remote {
            CheckOutcome::AlreadyUploaded => FileClass::SkippedRemotely,
            CheckOutcome::NeedsUpload(_) => FileClass::QueuedForUpload,
            CheckOutcome::CheckFailed(_) => FileClass::Failed,
        }
    }
}

/// Both skipped classifications count as skipped.
pub open spec fn spec_class_is_skipped(c: FileClass) -> bool {
    c is SkippedLocally || c is SkippedRemotely
}

/// Whether the dedup cache holds the file after one discovery + dedup run:
/// a remote confirmation is persisted, everything else leaves the cache
/// entry as it was.
pub open spec fn spec_cache_after_run(in_cache: bool, remote: CheckOutcome) -> bool {
    in_cache || remote is AlreadyUploaded
}

/// Idempotence of discovery + dedup: against an unchanged remote and an
/// unchanged device, a second run classifies a file as skipped exactly when
/// the first run did, and as queued exactly when the first run did. The only
/// movement is from skipped-remotely to skipped-locally, once the first run
/// has persisted the remote confirmation into the cache.
pub proof fn lemma_dedup_idempotent(in_cache: bool, remote: CheckOutcome)
    ensures
        spec_class_is_skipped(spec_classify(spec_cache_after_run(in_cache, remote), remote))
            == spec_class_is_skipped(spec_classify(in_cache, remote)),
        (spec_classify(spec_cache_after_run(in_cache, remote), remote) is QueuedForUpload)
            == (spec_classify(in_cache, remote) is QueuedForUpload),
        (spec_classify(spec_cache_after_run(in_cache, remote), remote) is Failed)
            == (spec_classify(in_cache, remote) is Failed),
{
}

} // verus!
