use file_storage::database::Database;
use file_storage::errors::AppError;
use file_storage::record::{FileRecord, FileResponse};

#[test]
fn database_adding_file() {
    let mut db = Database::new();

    db.add_file("test".to_string(), "test_thumb".to_string(), "xyz", 1);

    let files = db.get_files(0, 5).unwrap();
    assert_eq!(files.len(), 1);
    let first_file = files.first().unwrap();
    assert_eq!(first_file.id, 1);
    assert_eq!(first_file.mime, "xyz");
    assert_eq!(first_file.full_path, "test".to_string());
}

#[test]
fn database_get_one_file() {
    let mut db = Database::new();

    db.add_file("test".to_string(), "test_thumb".to_string(), "xyz", 1);

    let file = db.get_file(1).unwrap();

    assert_eq!(file.id, 1);
    assert_eq!(file.mime, "xyz");
    assert_eq!(file.full_path, "test".to_string());
}

#[test]
fn ids_strictly_increase() {
    let mut db = Database::new();
    let r1 = db.add_file("a".to_string(), "at".to_string(), "m", 10);
    let r2 = db.add_file("b".to_string(), "bt".to_string(), "m", 10);
    let r3 = db.add_file("c".to_string(), "ct".to_string(), "m", 5);
    assert_eq!(r1.id, 1);
    assert_eq!(r2.id, 2);
    assert_eq!(r3.id, 3);
    assert_eq!(db.peek_next_id(), 4);
}

#[test]
fn listing_is_newest_first_with_id_tiebreak() {
    let mut db = Database::new();
    db.add_file("a".to_string(), "at".to_string(), "m", 5);
    db.add_file("b".to_string(), "bt".to_string(), "m", 3);
    db.add_file("c".to_string(), "ct".to_string(), "m", 5);

    let files = db.get_files(0, 10).unwrap();
    let ids: Vec<u64> = files.iter().map(|f| f.id).collect();
    // created_at descending, ties by id descending: (5, 3), (5, 1), (3, 2)
    assert_eq!(ids, vec![3, 1, 2]);
}

#[test]
fn listing_orders_by_creation_time_even_when_the_clock_jumps_back() {
    let mut db = Database::new();
    db.add_file("a".to_string(), "at".to_string(), "m", 5);
    db.add_file("b".to_string(), "bt".to_string(), "m", 3);
    db.add_file("c".to_string(), "ct".to_string(), "m", 4);

    let files = db.get_files(0, 10).unwrap();
    let ids: Vec<u64> = files.iter().map(|f| f.id).collect();
    // created_at descending: 5 (id 1), 4 (id 3), 3 (id 2)
    assert_eq!(ids, vec![1, 3, 2]);
}

#[test]
fn page_never_exceeds_size() {
    let mut db = Database::new();
    for i in 0..7u64 {
        db.add_file(format!("f{i}"), format!("t{i}"), "m", i);
    }
    for page in 0..5u16 {
        let files = db.get_files(page, 3).unwrap();
        assert!(files.len() <= 3);
    }
}

#[test]
fn pages_concatenate_to_full_listing() {
    let mut db = Database::new();
    for i in 0..7u64 {
        db.add_file(format!("f{i}"), format!("t{i}"), "m", 100 - i);
    }
    let full: Vec<u64> = db.get_files(0, 100).unwrap().iter().map(|f| f.id).collect();
    assert_eq!(full.len(), 7);

    let mut paged: Vec<u64> = Vec::new();
    for page in 0..4u16 {
        for f in db.get_files(page, 2).unwrap() {
            paged.push(f.id);
        }
    }
    assert_eq!(paged, full);
}

#[test]
fn out_of_range_page_is_empty() {
    let mut db = Database::new();
    db.add_file("a".to_string(), "at".to_string(), "m", 1);
    let files = db.get_files(5, 10).unwrap();
    assert!(files.is_empty());
}

#[test]
fn zero_size_is_invalid_argument() {
    let db = Database::new();
    let err = db.get_files(0, 0).unwrap_err();
    assert_eq!(err, AppError::InvalidArgument);
}

#[test]
fn missing_id_is_not_found() {
    let mut db = Database::new();
    db.add_file("a".to_string(), "at".to_string(), "m", 1);
    let err = db.get_file(17).unwrap_err();
    assert_eq!(err, AppError::NotFound);
}

#[test]
fn response_projects_the_record() {
    let rec = FileRecord {
        id: 4,
        mime: "image/png".to_string(),
        full_path: "full/x".to_string(),
        thumb_path: "thumbnails/x".to_string(),
        created_at: 99,
    };
    let resp = FileResponse::from(rec);
    assert_eq!(resp.id, 4);
    assert_eq!(resp.mime, "image/png");
    assert_eq!(resp.created_at, 99);
}

#[test]
fn empty_index_lists_nothing() {
    let db = Database::new();
    assert_eq!(db.len(), 0);
    let files = db.get_files(0, 5).unwrap();
    assert!(files.is_empty());
}
