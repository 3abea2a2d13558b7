use pubky_app_specs::file::MAX_FILE_SIZE;
use pubky_app_specs::{timestamp, PubkyAppFile, APP_PATH, PUBLIC_PATH};

#[test]
fn file_test_new() {
    let file = PubkyAppFile::new(
        "example.png".to_string(),
        "pubky://user_id/pub/pubky.app/blobs/id".to_string(),
        "image/png".to_string(),
        1024,
    );
    assert_eq!(file.name, "example.png");
    assert_eq!(file.src, "pubky://user_id/pub/pubky.app/blobs/id");
    assert_eq!(file.content_type, "image/png");
    assert_eq!(file.size, 1024);
    // Check that created_at is recent
    let now = timestamp();
    assert!(file.created_at <= now && file.created_at >= now - 1_000_000); // within 1 second
}

#[test]
fn file_test_create_path() {
    let file = PubkyAppFile::new(
        "example.png".to_string(),
        "pubky://user_id/pub/pubky.app/blobs/id".to_string(),
        "image/png".to_string(),
        1024,
    );
    let file_id = file.create_id();
    let path = file.create_path();

    // Check if the path starts with the expected prefix
    let prefix = format!("{}{}files/", PUBLIC_PATH, APP_PATH);
    assert!(path.starts_with(&prefix));

    let expected_path_len = prefix.len() + file_id.len();
    assert_eq!(path.len(), expected_path_len);
}

#[test]
fn file_test_validate_valid() {
    let file = PubkyAppFile::new(
        "example.png".to_string(),
        "pubky://user_id/pub/pubky.app/blobs/id".to_string(),
        "image/png".to_string(),
        1024,
    );
    let id = file.create_id();
    let result = file.validate(Some(&id));
    assert!(result.is_ok());
}

#[test]
fn file_test_validate_invalid_id() {
    let file = PubkyAppFile::new(
        "example.png".to_string(),
        "pubky://user_id/pub/pubky.app/blobs/id".to_string(),
        "image/png".to_string(),
        1024,
    );
    let invalid_id = "INVALIDID";
    let result = file.validate(Some(invalid_id));
    assert!(result.is_err());
}

#[test]
fn test_validate_invalid_content_type() {
    let file = PubkyAppFile::new(
        "example.png".to_string(),
        "pubky://user_id/pub/pubky.app/blobs/id".to_string(),
        "notavalid/content_type".to_string(),
        1024,
    );
    let id = file.create_id();
    let result = file.validate(Some(&id));
    assert!(result.is_err());
}

#[test]
fn test_validate_invalid_size() {
    let file = PubkyAppFile::new(
        "example.png".to_string(),
        "pubky://user_id/pub/pubky.app/blobs/id".to_string(),
        "notavalid/content_type".to_string(),
        MAX_FILE_SIZE + 1,
    );
    let id = file.create_id();
    let result = file.validate(Some(&id));
    assert!(result.is_err());
}

#[test]
fn test_validate_invalid_src() {
    let file = PubkyAppFile::new(
        "example.png".to_string(),
        "not_a_url".to_string(),
        "notavalid/content_type".to_string(),
        MAX_FILE_SIZE + 1,
    );
    let id = file.create_id();
    let result = file.validate(Some(&id));
    assert!(result.is_err());
}

#[test]
fn file_test_try_from_valid() {
    let file_json = r#"
    {
        "name": "example.png",
        "created_at": 1627849723,
        "src": "pubky://user_id/pub/pubky.app/blobs/id",
        "content_type": "image/png",
        "size": 1024
    }
    "#;

    let file = PubkyAppFile::new(
        "example.png".to_string(),
        "pubky://user_id/pub/pubky.app/blobs/id".to_string(),
        "image/png".to_string(),
        1024,
    );
    let id = file.create_id();

    let blob = file_json.as_bytes();
    let file_parsed = PubkyAppFile::try_from(blob, &id).unwrap();

    assert_eq!(file_parsed.name, "example.png");
    assert_eq!(file_parsed.src, "pubky://user_id/pub/pubky.app/blobs/id");
    assert_eq!(file_parsed.content_type, "image/png");
    assert_eq!(file_parsed.size, 1024);
}
