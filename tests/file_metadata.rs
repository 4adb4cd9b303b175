use backend::models::file_metadata::{FileMetadata, FileUploadResponse};
use uuid::Uuid;

#[test]
fn test_file_metadata_creation() {
    let user_id = Uuid::new_v4();
    let file = FileMetadata::new(
        user_id,
        "test.pdf".to_string(),
        "application/pdf".to_string(),
        1024,
        "/files/test.pdf".to_string(),
    );

    assert_eq!(file.filename, "test.pdf");
    assert_eq!(file.mime_type, "application/pdf");
    assert_eq!(file.size_bytes, 1024);
    assert!(!file.is_public);
    assert!(file.stored_filename.ends_with("_test.pdf"));
    assert_eq!(file.stored_filename.len(), 36 + 1 + 8);
}

#[test]
fn test_file_extension() {
    let user_id = Uuid::new_v4();
    let file = FileMetadata::new(
        user_id,
        "document.pdf".to_string(),
        "application/pdf".to_string(),
        1024,
        "/path".to_string(),
    );

    assert_eq!(file.extension(), Some("pdf"));
}

#[test]
fn extension_edge_cases() {
    let mut file = FileMetadata::new_at(Uuid::new_v4(), "archive.tar.gz".to_string(), "x".to_string(), 1, "/p".to_string(), 0);
    assert_eq!(file.extension(), Some("gz"));
    file.filename = "README".to_string();
    assert_eq!(file.extension(), None);
    file.filename = "trailing.".to_string();
    assert_eq!(file.extension(), Some(""));
}

#[test]
fn test_file_type_checks() {
    let user_id = Uuid::new_v4();

    let image = FileMetadata::new(user_id, "image.jpg".to_string(), "image/jpeg".to_string(), 1024, "/path".to_string());
    assert!(image.is_image());
    assert!(!image.is_video());
    assert!(!image.is_document());

    let video = FileMetadata::new(user_id, "video.mp4".to_string(), "video/mp4".to_string(), 1024, "/path".to_string());
    assert!(video.is_video());
    assert!(!video.is_image());

    let pdf = FileMetadata::new(user_id, "doc.pdf".to_string(), "application/pdf".to_string(), 1024, "/path".to_string());
    assert!(pdf.is_document());
    assert!(!pdf.is_image());
}

#[test]
fn test_increment_downloads() {
    let user_id = Uuid::new_v4();
    let mut file = FileMetadata::new(user_id, "test.pdf".to_string(), "application/pdf".to_string(), 1024, "/path".to_string());

    assert_eq!(file.download_count, 0);
    file.increment_downloads();
    assert_eq!(file.download_count, 1);
}

#[test]
fn test_make_public_private() {
    let user_id = Uuid::new_v4();
    let mut file = FileMetadata::new(user_id, "test.pdf".to_string(), "application/pdf".to_string(), 1024, "/path".to_string());

    assert!(!file.is_public);
    file.make_public();
    assert!(file.is_public);
    file.make_private();
    assert!(!file.is_public);
}

#[test]
fn test_file_expiration() {
    let user_id = Uuid::new_v4();
    let mut file = FileMetadata::new(user_id, "temp.txt".to_string(), "text/plain".to_string(), 1024, "/path".to_string());

    assert!(!file.is_expired());

    file.expires_at = Some(chrono::Utc::now().timestamp_millis() - 3_600_000);
    assert!(file.is_expired());
}

#[test]
fn upload_response_uses_the_storage_path() {
    let file = FileMetadata::new_at(Uuid::new_v4(), "a.txt".to_string(), "text/plain".to_string(), 3, "/files/a".to_string(), 9);
    let id = file.id;
    let response = FileUploadResponse::from(file);
    assert_eq!(response.id, id);
    assert_eq!(response.url, "/files/a");
    assert_eq!(response.created_at, 9);
}
