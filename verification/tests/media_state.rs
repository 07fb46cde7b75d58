use file_storage::errors::AppError;
use file_storage::media::resolve_media_type;
use file_storage::state::{AppStateBuilder, StorageLayout};

#[test]
fn media_type_follows_the_declared_extension() {
    assert_eq!(resolve_media_type(&Some("test.png".to_string())), "image/png");
    assert_eq!(resolve_media_type(&Some("photo.jpg".to_string())), "image/jpeg");
    assert_eq!(resolve_media_type(&Some("notes.txt".to_string())), "text/plain");
}

#[test]
fn unrecognized_extension_falls_back_to_generic_binary() {
    assert_eq!(
        resolve_media_type(&Some("archive.nosuchext".to_string())),
        "application/octet-stream"
    );
    assert_eq!(
        resolve_media_type(&Some("noextension".to_string())),
        "application/octet-stream"
    );
}

#[test]
fn missing_file_name_falls_back_to_generic_binary() {
    assert_eq!(resolve_media_type(&None), "application/octet-stream");
}

#[test]
fn layout_places_both_trees_under_the_root() {
    let layout = StorageLayout::new("data/");
    assert_eq!(layout.full_directory, "data/full/");
    assert_eq!(layout.thumbnails_directory, "data/thumbnails/");

    let (full, thumb) = layout.blob_locations("stem");
    assert_eq!(full, "data/full/stem");
    assert_eq!(thumb, "data/thumbnails/stem");
}

#[test]
fn builder_defaults_to_the_storage_directory() {
    let builder = AppStateBuilder::default();
    assert_eq!(builder.storage_root(), "storage/");

    let layout = AppStateBuilder::default().build_layout();
    assert_eq!(layout.full_directory, "storage/full/");
    assert_eq!(layout.thumbnails_directory, "storage/thumbnails/");
}

#[test]
fn builder_takes_a_configured_directory() {
    let builder = AppStateBuilder::default().with_storage_directory("elsewhere/".to_string());
    assert_eq!(builder.storage_root(), "elsewhere/");
}

#[test]
fn client_errors_and_server_errors_are_kept_apart() {
    assert_eq!(AppError::NotFound.status_code(), 404);
    assert_eq!(AppError::InvalidArgument.status_code(), 400);
    assert_eq!(AppError::UnsupportedInput.status_code(), 500);
    assert_eq!(AppError::IOError.status_code(), 500);
    assert_eq!(AppError::IngestFailed.status_code(), 500);
}

#[test]
fn error_messages_name_the_failure() {
    assert_eq!(AppError::NotFound.message(), "not found");
    assert_eq!(AppError::InvalidArgument.message(), "invalid argument");
    assert_eq!(AppError::UnsupportedInput.message(), "unsupported input");
    assert_eq!(AppError::IOError.message(), "i/o failure");
    assert_eq!(AppError::IngestFailed.message(), "ingest failed");
}
