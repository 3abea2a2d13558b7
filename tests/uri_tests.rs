use pubky_app_specs::{
    blob_uri_builder, bookmark_uri_builder, feed_uri_builder, file_uri_builder,
    follow_uri_builder, last_read_uri_builder, mute_uri_builder, post_uri_builder,
    tag_uri_builder, user_uri_builder, ParsedUri, PubkyId, Resource,
};

const USER_ID: &str = "operrr8wsbpr3ue9d4qj41ge1kcc6r7fdiy6o3ugjrrhi4y77rdo";

#[test]
fn test_empty_bookmark_uri() {
    let uri = bookmark_uri_builder(USER_ID.into(), "".into());
    let parsed_uri = ParsedUri::try_from(&uri).unwrap();
    assert_eq!(
        parsed_uri.resource,
        Resource::Unknown,
        "The provided URI has bookmark_id"
    );
}

#[test]
fn test_some_bookmark_uri() {
    let uri = bookmark_uri_builder(USER_ID.into(), "00".into());
    let parsed_uri = ParsedUri::try_from(&uri).unwrap();
    assert_eq!(
        parsed_uri.resource,
        Resource::Bookmark("00".to_string()),
        "The provided URI has wrong id"
    );
}

#[test]
fn test_user() {
    let uri = user_uri_builder(USER_ID.into());
    let parsed_uri = ParsedUri::try_from(&uri).unwrap();
    assert_eq!(
        parsed_uri.resource,
        Resource::User,
        "The provided URI is not user resource type"
    );
}

// Successful cases

#[test]
fn test_valid_user_uri() {
    let user_id = PubkyId::try_from(USER_ID).unwrap();

    // A valid user URI ends with profile.json.
    let uri = user_uri_builder(USER_ID.into());
    let parsed = ParsedUri::try_from(&uri).expect("Failed to parse valid user URI");
    assert_eq!(parsed.user_id, user_id);
    assert_eq!(parsed.resource, Resource::User);

    // Repeat same checks for ParsedUri derived directly from PubkyId
    let parsed_uri_from_pubky_id = user_id.to_uri();
    assert_eq!(parsed_uri_from_pubky_id.user_id, user_id);
    assert_eq!(parsed_uri_from_pubky_id.resource, Resource::User);
}

#[test]
fn test_valid_last_read_uri() {
    // A valid last_read URI ends with last_read.
    let uri = last_read_uri_builder(USER_ID.into());
    let parsed = ParsedUri::try_from(&uri).expect("Failed to parse valid last_read URI");
    assert_eq!(parsed.user_id, PubkyId::try_from(USER_ID).unwrap());
    assert_eq!(parsed.resource, Resource::LastRead);
}

#[test]
fn test_valid_post_uri() {
    // A valid post URI includes the posts/ segment followed by an identifier.
    let uri = post_uri_builder(USER_ID.into(), "0032SSN7Q4EVG".into());
    let parsed = ParsedUri::try_from(&uri).expect("Failed to parse valid post URI");
    assert_eq!(parsed.user_id, PubkyId::try_from(USER_ID).unwrap());
    assert_eq!(parsed.resource, Resource::Post("0032SSN7Q4EVG".to_string()));
}

#[test]
fn test_valid_follow_uri() {
    // A valid follow URI.
    let uri = follow_uri_builder(USER_ID.into(), USER_ID.into());
    let parsed = ParsedUri::try_from(&uri).expect("Failed to parse valid follow URI");
    assert_eq!(parsed.user_id, PubkyId::try_from(USER_ID).unwrap());
    // Assuming PubkyId::try_from("def456") returns a PubkyId that equals PubkyId::try_from("def456")
    assert_eq!(
        parsed.resource,
        Resource::Follow(PubkyId::try_from(USER_ID).unwrap())
    );
}

#[test]
fn test_valid_bookmark_uri() {
    let bookmark_id = "8Z8CWH8NVYQY39ZEBFGKQWWEKG";
    let uri = bookmark_uri_builder(USER_ID.into(), bookmark_id.into());
    let parsed = ParsedUri::try_from(&uri).expect("Failed to parse valid bookmark URI");
    assert_eq!(parsed.user_id, PubkyId::try_from(USER_ID).unwrap());
    assert_eq!(parsed.resource, Resource::Bookmark(bookmark_id.to_string()));
}

#[test]
fn test_valid_tag_uri() {
    let uri = tag_uri_builder(USER_ID.into(), "8Z8CWH8NVYQY39ZEBFGKQWWEKG".into());
    let parsed = ParsedUri::try_from(&uri).expect("Failed to parse valid tag URI");
    assert_eq!(parsed.user_id, PubkyId::try_from(USER_ID).unwrap());
    assert_eq!(
        parsed.resource,
        Resource::Tag("8Z8CWH8NVYQY39ZEBFGKQWWEKG".to_string())
    );
}

#[test]
fn test_valid_file_uri() {
    let uri = file_uri_builder(USER_ID.into(), "file003".into());
    let parsed = ParsedUri::try_from(&uri).expect("Failed to parse valid file URI");
    assert_eq!(parsed.user_id, PubkyId::try_from(USER_ID).unwrap());
    assert_eq!(parsed.resource, Resource::File("file003".to_string()));
}

#[test]
fn test_valid_blob_uri() {
    let uri = blob_uri_builder(USER_ID.into(), "8Z8CWH8NVYQY39ZEBFGKQWWEKG".into());
    let parsed = ParsedUri::try_from(&uri).expect("Failed to parse valid blob URI");
    assert_eq!(parsed.user_id, PubkyId::try_from(USER_ID).unwrap());
    assert_eq!(
        parsed.resource,
        Resource::Blob("8Z8CWH8NVYQY39ZEBFGKQWWEKG".to_string())
    );
}

#[test]
fn test_valid_feed_uri() {
    let uri = feed_uri_builder(USER_ID.into(), "8Z8CWH8NVYQY39ZEBFGKQWWEKG".into());
    let parsed = ParsedUri::try_from(&uri).expect("Failed to parse valid feed URI");
    assert_eq!(parsed.user_id, PubkyId::try_from(USER_ID).unwrap());
    assert_eq!(
        parsed.resource,
        Resource::Feed("8Z8CWH8NVYQY39ZEBFGKQWWEKG".to_string())
    );
}

#[test]
fn test_no_resource_segments() {
    // When there are no segments beyond the public and app paths,
    // the resource should be Unknown.
    let uri = format!("pubky://{USER_ID}/pub/pubky.app/");
    let parsed =
        ParsedUri::try_from(&uri).expect("Failed to parse URI with no resource segments");
    assert_eq!(parsed.user_id, PubkyId::try_from(USER_ID).unwrap());
    assert_eq!(parsed.resource, Resource::Unknown);
}

#[test]
fn test_unknown_resource() {
    // Unknown resource type yields Resource::Unknown.
    let uri = format!("pubky://{USER_ID}/pub/pubky.app/unknown/xyz");
    let parsed = ParsedUri::try_from(&uri).expect("Failed to parse URI with unknown resource");
    assert_eq!(parsed.user_id, PubkyId::try_from(USER_ID).unwrap());
    assert_eq!(parsed.resource, Resource::Unknown);
}

// Failure cases

#[test]
fn test_invalid_scheme() {
    let uri = format!("http://{USER_ID}/pub/pubky.app/profile.json");
    let result = ParsedUri::try_from(&uri);
    assert!(result.is_err());
}

#[test]
fn test_invalid_public_path() {
    // Change the public path so it doesn't match.
    let uri = format!("pubky://{USER_ID}/invalid/pubky.app/profile.json");
    let result = ParsedUri::try_from(&uri);
    assert!(result.is_err());
}

#[test]
fn test_invalid_app_path() {
    // Change the app path so it doesn't match.
    let uri = format!("pubky://{USER_ID}/pub/other.app/profile.json");
    let result = ParsedUri::try_from(&uri);
    assert!(result.is_err());
}

#[test]
fn test_missing_host() {
    // URL with missing host.
    let uri = "pubky:///pub/pubky.app/profile.json";
    let result = ParsedUri::try_from(&uri);
    assert!(result.is_err());
}

#[test]
fn test_invalid_url() {
    let uri = "not a url";
    let result = ParsedUri::try_from(&uri);
    assert!(result.is_err());
}

// Reverse conversion tests: ParsedUri::try_to_uri_str should produce the same string as the builder functions

#[test]
fn test_user_uri_roundtrip() {
    let original_uri = user_uri_builder(USER_ID.into());
    let parsed = ParsedUri::try_from(&original_uri.clone()).expect("Failed to parse user URI");
    let reconstructed_uri = parsed
        .try_to_uri_str()
        .expect("Failed to convert to URI string");
    assert_eq!(original_uri, reconstructed_uri, "User URI roundtrip failed");
}

#[test]
fn test_last_read_uri_roundtrip() {
    let original_uri = last_read_uri_builder(USER_ID.into());
    let parsed =
        ParsedUri::try_from(&original_uri.clone()).expect("Failed to parse last_read URI");
    let reconstructed_uri = parsed
        .try_to_uri_str()
        .expect("Failed to convert to URI string");
    assert_eq!(
        original_uri, reconstructed_uri,
        "LastRead URI roundtrip failed"
    );
}

#[test]
fn test_post_uri_roundtrip() {
    let post_id = "0032SSN7Q4EVG";
    let original_uri = post_uri_builder(USER_ID.into(), post_id.into());
    let parsed = ParsedUri::try_from(&original_uri.clone()).expect("Failed to parse post URI");
    let reconstructed_uri = parsed
        .try_to_uri_str()
        .expect("Failed to convert to URI string");
    assert_eq!(original_uri, reconstructed_uri, "Post URI roundtrip failed");
}

#[test]
fn test_follow_uri_roundtrip() {
    let original_uri = follow_uri_builder(USER_ID.into(), USER_ID.into());
    let parsed = ParsedUri::try_from(&original_uri.clone()).expect("Failed to parse follow URI");
    let reconstructed_uri = parsed
        .try_to_uri_str()
        .expect("Failed to convert to URI string");
    assert_eq!(
        original_uri, reconstructed_uri,
        "Follow URI roundtrip failed"
    );
}

#[test]
fn test_mute_uri_roundtrip() {
    let original_uri = mute_uri_builder(USER_ID.into(), USER_ID.into());
    let parsed = ParsedUri::try_from(&original_uri.clone()).expect("Failed to parse mute URI");
    let reconstructed_uri = parsed
        .try_to_uri_str()
        .expect("Failed to convert to URI string");
    assert_eq!(original_uri, reconstructed_uri, "Mute URI roundtrip failed");
}

#[test]
fn test_bookmark_uri_roundtrip() {
    let bookmark_id = "8Z8CWH8NVYQY39ZEBFGKQWWEKG";
    let original_uri = bookmark_uri_builder(USER_ID.into(), bookmark_id.into());
    let parsed =
        ParsedUri::try_from(&original_uri.clone()).expect("Failed to parse bookmark URI");
    let reconstructed_uri = parsed
        .try_to_uri_str()
        .expect("Failed to convert to URI string");
    assert_eq!(
        original_uri, reconstructed_uri,
        "Bookmark URI roundtrip failed"
    );
}

#[test]
fn test_tag_uri_roundtrip() {
    let tag_id = "8Z8CWH8NVYQY39ZEBFGKQWWEKG";
    let original_uri = tag_uri_builder(USER_ID.into(), tag_id.into());
    let parsed = ParsedUri::try_from(&original_uri.clone()).expect("Failed to parse tag URI");
    let reconstructed_uri = parsed
        .try_to_uri_str()
        .expect("Failed to convert to URI string");
    assert_eq!(original_uri, reconstructed_uri, "Tag URI roundtrip failed");
}

#[test]
fn test_file_uri_roundtrip() {
    let file_id = "file003";
    let original_uri = file_uri_builder(USER_ID.into(), file_id.into());
    let parsed = ParsedUri::try_from(&original_uri.clone()).expect("Failed to parse file URI");
    let reconstructed_uri = parsed
        .try_to_uri_str()
        .expect("Failed to convert to URI string");
    assert_eq!(original_uri, reconstructed_uri, "File URI roundtrip failed");
}

#[test]
fn test_blob_uri_roundtrip() {
    let blob_id = "8Z8CWH8NVYQY39ZEBFGKQWWEKG";
    let original_uri = blob_uri_builder(USER_ID.into(), blob_id.into());
    let parsed = ParsedUri::try_from(&original_uri.clone()).expect("Failed to parse blob URI");
    let reconstructed_uri = parsed
        .try_to_uri_str()
        .expect("Failed to convert to URI string");
    assert_eq!(original_uri, reconstructed_uri, "Blob URI roundtrip failed");
}

#[test]
fn test_feed_uri_roundtrip() {
    let feed_id = "8Z8CWH8NVYQY39ZEBFGKQWWEKG";
    let original_uri = feed_uri_builder(USER_ID.into(), feed_id.into());
    let parsed = ParsedUri::try_from(&original_uri.clone()).expect("Failed to parse feed URI");
    let reconstructed_uri = parsed
        .try_to_uri_str()
        .expect("Failed to convert to URI string");
    assert_eq!(original_uri, reconstructed_uri, "Feed URI roundtrip failed");
}

#[test]
fn test_unknown_resource_to_uri_str_fails() {
    let uri = format!("pubky://{USER_ID}/pub/pubky.app/unknown/xyz");
    let parsed = ParsedUri::try_from(&uri).expect("Failed to parse URI with unknown resource");
    assert_eq!(parsed.resource, Resource::Unknown);
    let result = parsed.try_to_uri_str();
    assert!(
        result.is_err(),
        "Unknown resource should fail to convert to URI string"
    );
}

#[test]
fn types_test_try_from_valid() {
    let valid_key = "operrr8wsbpr3ue9d4qj41ge1kcc6r7fdiy6o3ugjrrhi4y77rdo";
    let result = PubkyId::try_from(valid_key);
    assert!(result.is_ok());
    assert_eq!(result.unwrap().as_ref(), valid_key);
}

#[test]
fn test_try_from_invalid_length() {
    let invalid_key = "short";
    let result = PubkyId::try_from(invalid_key);
    assert!(result.is_err());
    assert_eq!(
        result.unwrap_err(),
        "Validation Error: the string is not 52 utf chars"
    );
}

#[test]
fn test_try_from_invalid_encoding() {
    // 52 characters but invalid z-base-32 (contains invalid char '0')
    let invalid_key = "0perrr8wsbpr3ue9d4qj41ge1kcc6r7fdiy6o3ugjrrhi4y77rd0";
    let result = PubkyId::try_from(invalid_key);
    assert!(result.is_err());
    assert_eq!(
        result.unwrap_err(),
        "Validation Error: invalid public key encoding"
    );
}
