//! The retrieval paths: paginated listings and blob resolution by
//! identifier.
//!
//! Listings expose only the outward projection of each record; the fetch
//! paths resolve an identifier to a blob location and the media type to
//! serve it with.  The streaming of the blob bytes themselves happens
//! outside the library, against the locations resolved here.

use vstd::prelude::*;

use crate::database::Database;
use crate::database::page_slice;
use crate::errors::AppError;
use crate::record::FileResponse;
use crate::record::spec_response_of;

verus! {

/// The media type every preview is served with: the generator's fixed
/// output format, independent of the original's recorded type.
pub fn preview_media_type() -> (r: &'static str)
    ensures
        r@ == "image/png"@,
{
    "image/png"
}

/// One page of the listing under the external, one-based contract: `page`
/// and `size` must both be positive, else the request is rejected as a
/// client error.  The page shows at most `size` records, newest first, in
/// their outward form — never the internal blob locations.
pub fn list_page(db: &Database, page: u16, size: u16) -> (r: Result<Vec<FileResponse>, AppError>)
    ensures
        r is Err <==> (page == 0 || size == 0),
        r is Err ==> r->Err_0 == AppError::InvalidArgument,
        r is Ok ==> r->Ok_0@.len() == page_slice(db@, page - 1, size as int).len(),
        r is Ok ==> forall|i: int|
            0 <= i < r->Ok_0@.len() ==> r->Ok_0@[i] == spec_response_of(
                #[trigger] page_slice(db@, page - 1, size as int)[i],
            ),
        r is Ok ==> r->Ok_0@.len() <= size,
{
    if page == 0 || size == 0 {
        return Err(AppError::InvalidArgument);
    }
    let records = match db.get_files(page - 1, size) {
        Ok(v) => v,
        Err(e) => {
            return Err(e);
        },
    };
    let n = records.len();
    let mut out: Vec<FileResponse> = Vec::new();
    let mut i: usize = 0;
    while i < n
        invariant
            n == records@.len(),
            records@ == page_slice(db@, page - 1, size as int),
            0 <= i <= n,
            out@.len() == i,
            forall|k: int| 0 <= k < i ==> out@[k] == spec_response_of(#[trigger] records@[k]),
        decreases n - i,
    {
        let rec = &records[i];
        out.push(FileResponse { id: rec.id, mime: rec.mime.clone(), created_at: rec.created_at });
        i += 1;
    }
    Ok(out)
}

/// Resolves an identifier to the original blob: its stored location and the
/// recorded media type to serve the bytes with.  Fails with `NotFound`
/// exactly when the index holds no record under the identifier.
pub fn resolve_original(db: &Database, id: u64) -> (r: Result<(String, String), AppError>)
    ensures
        r is Ok <==> exists|i: int| 0 <= i < db@.len() && #[trigger] db@[i].id == id,
        r is Ok ==> exists|i: int|
            0 <= i < db@.len() && #[trigger] db@[i].id == id && r->Ok_0.0 == db@[i].full_path
                && r->Ok_0.1 == db@[i].mime,
        r is Err ==> r->Err_0 == AppError::NotFound,
{
    match db.get_file(id) {
        Ok(rec) => Ok((rec.full_path, rec.mime)),
        Err(e) => Err(e),
    }
}

/// Resolves an identifier to the preview blob's stored location; the bytes
/// there are served with the fixed preview media type.  Fails with
/// `NotFound` exactly when the index holds no record under the identifier.
pub fn resolve_preview(db: &Database, id: u64) -> (r: Result<String, AppError>)
    ensures
        r is Ok <==> exists|i: int| 0 <= i < db@.len() && #[trigger] db@[i].id == id,
        r is Ok ==> exists|i: int|
            0 <= i < db@.len() && #[trigger] db@[i].id == id && r->Ok_0 == db@[i].thumb_path,
        r is Err ==> r->Err_0 == AppError::NotFound,
{
    match db.get_file(id) {
        Ok(rec) => Ok(rec.thumb_path),
        Err(e) => Err(e),
    }
}

} // verus!
