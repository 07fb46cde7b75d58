//! The metadata row kept per ingested file, and its outward projection.

use vstd::prelude::*;

verus! {

/// One row of the metadata index, created once per successful ingest and
/// never updated.  `id` is assigned by the index and is the only stable
/// external reference; `full_path` and `thumb_path` locate the original and
/// the derived preview in the blob store; `created_at` is the sole ordering
/// key for listings.
#[derive(Debug, PartialEq)]
pub struct FileRecord {
    pub id: u64,
    pub mime: String,
    pub full_path: String,
    pub thumb_path: String,
    pub created_at: u64,
}

impl FileRecord {
    /// A field-by-field copy, equal to the original as a value.
    pub fn duplicate(&self) -> (r: Self)
        ensures
            r == *self,
    {
        FileRecord {
            id: self.id,
            mime: self.mime.clone(),
            full_path: self.full_path.clone(),
            thumb_path: self.thumb_path.clone(),
            created_at: self.created_at,
        }
    }
}

/// What a listing exposes per record: the identifier, the media type and the
/// creation time — never the internal blob locations.
#[derive(Debug, PartialEq)]
pub struct FileResponse {
    pub id: u64,
    pub mime: String,
    pub created_at: u64,
}

/// The projection of a record into its outward form.
pub open spec fn spec_response_of(rec: FileRecord) -> FileResponse {
    FileResponse { id: rec.id, mime: rec.mime, created_at: rec.created_at }
}

impl From<FileRecord> for FileResponse {
    fn from(rec: FileRecord) -> (r: Self) {
        FileResponse { id: rec.id, mime: rec.mime, created_at: rec.created_at }
    }
}

impl vstd::std_specs::convert::FromSpecImpl<FileRecord> for FileResponse {
    open spec fn obeys_from_spec() -> bool {
        true
    }

    open spec fn from_spec(rec: FileRecord) -> Self {
        spec_response_of(rec)
    }
}

} // verus!
