//! The ingest pipeline for one uploaded item.
//!
//! Each item runs through a strictly sequential state machine: its bytes are
//! streamed to a fresh original blob, a preview is derived once the original
//! is fully written, the preview is stored, and only then is a metadata row
//! committed.  Any failure aborts the item with no row — a partially written
//! blob may be orphaned, but no record ever points at a partial ingest.
//!
//! The driver that performs the streaming and the blob writes reports each
//! step's outcome as an event; the machine here decides the next stage and
//! the next action, and the commit itself is the verified step at the end.

use vstd::prelude::*;

use crate::database::Database;
use crate::media::resolve_media_type;
use crate::media::guessed_media_type;
use crate::record::FileRecord;
use crate::record::FileResponse;
use crate::state::StorageLayout;

verus! {

/// Where one item stands in its ingest.  `Completed` and `Failed` are
/// terminal.
#[derive(Clone, Copy, Debug, PartialEq, Eq, Structural)]
pub enum IngestStage {
    Receiving,
    Deriving,
    Committing,
    Completed,
    Failed,
}

/// What the driver reports back after performing the pending action.
#[derive(Clone, Copy, Debug, PartialEq, Eq, Structural)]
pub enum IngestEvent {
    ChunkWritten,
    StreamEnded,
    StreamFailed,
    PreviewDerived,
    PreviewRejected,
    PreviewStored,
    PreviewStoreFailed,
    RecordCommitted,
}

/// What the driver must do next for this item.
#[derive(Clone, Copy, Debug, PartialEq, Eq, Structural)]
pub enum IngestAction {
    ReceiveMore,
    DerivePreview,
    StorePreview,
    CommitRecord,
    ReportIdentifier,
    ReportFailure,
}

/// The transition relation of the per-item machine.  An event a stage does
/// not expect aborts the item: the pipeline is strictly sequential, and no
/// step may be skipped or reordered.
pub open spec fn spec_step(stage: IngestStage, event: IngestEvent) -> (IngestStage, IngestAction) {
    match (stage, event) {
        (IngestStage::Receiving, IngestEvent::ChunkWritten) => (
            IngestStage::Receiving,
            IngestAction::ReceiveMore,
        ),
        (IngestStage::Receiving, IngestEvent::StreamEnded) => (
            IngestStage::Deriving,
            IngestAction::DerivePreview,
        ),
        (IngestStage::Deriving, IngestEvent::PreviewDerived) => (
            IngestStage::Committing,
            IngestAction::StorePreview,
        ),
        (IngestStage::Committing, IngestEvent::PreviewStored) => (
            IngestStage::Committing,
            IngestAction::CommitRecord,
        ),
        (IngestStage::Committing, IngestEvent::RecordCommitted) => (
            IngestStage::Completed,
            IngestAction::ReportIdentifier,
        ),
        _ => (IngestStage::Failed, IngestAction::ReportFailure),
    }
}

/// One transition of the per-item machine.
pub fn ingest_step(stage: IngestStage, event: IngestEvent) -> (r: (IngestStage, IngestAction))
    ensures
        r == spec_step(stage, event),
{
    match (stage, event) {
        (IngestStage::Receiving, IngestEvent::ChunkWritten) => (
            IngestStage::Receiving,
            IngestAction::ReceiveMore,
        ),
        (IngestStage::Receiving, IngestEvent::StreamEnded) => (
            IngestStage::Deriving,
            IngestAction::DerivePreview,
        ),
        (IngestStage::Deriving, IngestEvent::PreviewDerived) => (
            IngestStage::Committing,
            IngestAction::StorePreview,
        ),
        (IngestStage::Committing, IngestEvent::PreviewStored) => (
            IngestStage::Committing,
            IngestAction::CommitRecord,
        ),
        (IngestStage::Committing, IngestEvent::RecordCommitted) => (
            IngestStage::Completed,
            IngestAction::ReportIdentifier,
        ),
        _ => (IngestStage::Failed, IngestAction::ReportFailure),
    }
}

/// The actions the machine asks for along a trace of events.
pub open spec fn trace_actions(stage: IngestStage, events: Seq<IngestEvent>) -> Seq<IngestAction>
    decreases events.len(),
{
    if events.len() == 0 {
        Seq::<IngestAction>::empty()
    } else {
        seq![spec_step(stage, events.first()).1] + trace_actions(
            spec_step(stage, events.first()).0,
            events.drop_first(),
        )
    }
}

/// The commit action arises in exactly one place: in the committing stage,
/// on the report that the preview is durably stored.
pub proof fn lemma_commit_needs_stored_preview(stage: IngestStage, event: IngestEvent)
    ensures
        spec_step(stage, event).1 == IngestAction::CommitRecord <==> (stage
            == IngestStage::Committing && event == IngestEvent::PreviewStored),
{
}

/// An item whose preview is never reported stored is never committed: along
/// any event trace without `PreviewStored`, from any stage, the machine
/// never asks for a commit — so an aborted item leaves no metadata row.
pub proof fn lemma_no_commit_without_stored_preview(stage: IngestStage, events: Seq<IngestEvent>)
    requires
        forall|i: int| 0 <= i < events.len() ==> events[i] != IngestEvent::PreviewStored,
    ensures
        forall|i: int|
            0 <= i < trace_actions(stage, events).len() ==> trace_actions(stage, events)[i]
                != IngestAction::CommitRecord,
    decreases events.len(),
{
    if events.len() > 0 {
        let next = spec_step(stage, events.first()).0;
        let rest = events.drop_first();
        assert(events[0] != IngestEvent::PreviewStored);
        assert(forall|i: int| 0 <= i < rest.len() ==> rest[i] == events[i + 1]);
        lemma_no_commit_without_stored_preview(next, rest);
        assert forall|i: int|
            0 <= i < trace_actions(stage, events).len() implies trace_actions(stage, events)[i]
            != IngestAction::CommitRecord by {
            if i > 0 {
                assert(trace_actions(stage, events)[i] == trace_actions(next, rest)[i - 1]);
            }
        }
    }
}

/// Relies on uuid::Uuid::new_v4 and its hyphenated rendering: a freshly
/// drawn random identifier, 36 characters long.  Nothing more is promised
/// of a random value.
#[verifier::external_body]
fn random_blob_name() -> (r: String)
    ensures
        r@.len() == 36,
{
    uuid::Uuid::new_v4().to_string()
}

/// A fresh opaque name for one upload's blobs, used identically across both
/// trees so the original and the preview share a stem.
pub fn fresh_storage_name() -> (r: String)
    ensures
        r@.len() == 36,
{
    random_blob_name()
}

/// Commits one fully ingested item: resolves the media type from the
/// declared file name, takes the two blob locations under the item's
/// generated stem, and registers the metadata row.  Runs only once both
/// blobs are durably written; the row it creates carries the assigned
/// identifier, returned in the outward projection.
pub fn commit_item(
    db: &mut Database,
    layout: &StorageLayout,
    name: &str,
    file_name: &Option<String>,
    now: u64,
) -> (r: FileResponse)
    requires
        old(db).wf(),
        old(db).spec_next_id() < u64::MAX,
    ensures
        final(db).wf(),
        final(db).spec_next_id() == old(db).spec_next_id() + 1,
        final(db)@.len() == old(db)@.len() + 1,
        forall|r0: FileRecord| #[trigger] old(db)@.contains(r0) ==> final(db)@.contains(r0),
        r.id == old(db).spec_next_id(),
        r.created_at == now,
        (match *file_name {
            Some(n) => r.mime@ == guessed_media_type(n@),
            None => r.mime@ == guessed_media_type("DEFAULT"@),
        }),
        exists|p: int, rec: FileRecord|
            {
                &&& 0 <= p <= old(db)@.len()
                &&& final(db)@ == #[trigger] old(db)@.insert(p, rec)
                &&& rec.id == r.id
                &&& rec.mime == r.mime
                &&& rec.created_at == now
                &&& rec.full_path@ == layout.full_directory@ + name@
                &&& rec.thumb_path@ == layout.thumbnails_directory@ + name@
            },
{
    let ghost pre = *db;
    let mime = resolve_media_type(file_name);
    let (full_path, thumb_path) = layout.blob_locations(name);
    let rec = db.add_file(full_path, thumb_path, mime.as_str(), now);
    proof {
        let p = choose|p: int| 0 <= p <= pre@.len() && db@ == #[trigger] pre@.insert(p, rec);
        assert(0 <= p <= pre@.len() && db@ == pre@.insert(p, rec));
    }
    FileResponse { id: rec.id, mime: rec.mime, created_at: rec.created_at }
}

} // verus!
