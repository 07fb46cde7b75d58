//! The service's storage configuration: where the two blob trees live.
//!
//! The storage root is threaded through explicitly — never read from ambient
//! state — so distinct instances can run over distinct roots.

use vstd::prelude::*;
use vstd::string::StringExecFns;

verus! {

/// The two parallel blob trees under one storage root: originals under
/// `full/`, derived previews under `thumbnails/`.  Each field names a
/// directory and ends with the path separator, ready to take a blob name.
pub struct StorageLayout {
    pub full_directory: String,
    pub thumbnails_directory: String,
}

impl StorageLayout {
    /// Lays the two trees out under `root`, which names a directory and ends
    /// with the path separator.
    pub fn new(root: &str) -> (r: Self)
        ensures
            r.full_directory@ == root@ + "full/"@,
            r.thumbnails_directory@ == root@ + "thumbnails/"@,
    {
        StorageLayout {
            full_directory: root.to_owned().concat("full/"),
            thumbnails_directory: root.to_owned().concat("thumbnails/"),
        }
    }

    /// The locations of one upload's blobs: the same generated stem under
    /// both trees, so original and preview share it.
    pub fn blob_locations(&self, name: &str) -> (r: (String, String))
        ensures
            r.0@ == self.full_directory@ + name@,
            r.1@ == self.thumbnails_directory@ + name@,
    {
        (
            self.full_directory.clone().concat(name),
            self.thumbnails_directory.clone().concat(name),
        )
    }
}

/// The storage root a builder resolves to: the configured directory, or the
/// fixed default when none was given.
pub open spec fn spec_storage_root(b: AppStateBuilder) -> Seq<char> {
    match b.storage_directory {
        Some(d) => d@,
        None => "storage/"@,
    }
}

/// Collects the configuration the service starts from.  Only the storage
/// root is configurable; a builder with none set falls back to `storage/`.
pub struct AppStateBuilder {
    pub storage_directory: Option<String>,
}

impl Default for AppStateBuilder {
    fn default() -> (r: Self)
        ensures
            r.storage_directory is None,
    {
        AppStateBuilder { storage_directory: None }
    }
}

impl AppStateBuilder {
    /// Configures the storage root, a directory name ending with the path
    /// separator.
    pub fn with_storage_directory(self, dir: String) -> (r: Self)
        ensures
            r.storage_directory == Some(dir),
    {
        AppStateBuilder { storage_directory: Some(dir) }
    }

    /// The storage root this builder resolves to.
    pub fn storage_root(self) -> (r: String)
        ensures
            r@ == spec_storage_root(self),
    {
        match self {
            AppStateBuilder { storage_directory: Some(d) } => d,
            AppStateBuilder { storage_directory: None } => "storage/".to_owned(),
        }
    }

    /// The blob-store layout under the root this builder resolves to.
    pub fn build_layout(self) -> (r: StorageLayout)
        ensures
            r.full_directory@ == spec_storage_root(self) + "full/"@,
            r.thumbnails_directory@ == spec_storage_root(self) + "thumbnails/"@,
    {
        let ghost b = self;
        let root = self.storage_root();
        let layout = StorageLayout::new(root.as_str());
        proof {
            assert(root@ == spec_storage_root(b));
        }
        layout
    }
}

} // verus!
