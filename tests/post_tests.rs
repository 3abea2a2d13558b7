use pubky_app_specs::post::{MAX_ATTACHMENTS, MAX_ATTACHMENT_URL_LENGTH};
use pubky_app_specs::{PubkyAppPost, PubkyAppPostEmbed, PubkyAppPostKind, APP_PATH, PUBLIC_PATH};

#[test]
fn post_test_create_id() {
    let post = PubkyAppPost::new(
        "Hello World!".to_string(),
        PubkyAppPostKind::Short,
        None,
        None,
        None,
    );

    let post_id = post.create_id();
    println!("Generated Post ID: {}", post_id);

    // Assert that the post ID is 13 characters long
    assert_eq!(post_id.len(), 13);
}

#[test]
fn post_test_new() {
    let content = "This is a test post".to_string();
    let kind = PubkyAppPostKind::Short;
    let post = PubkyAppPost::new(content.clone(), kind.clone(), None, None, None);

    assert_eq!(post.content, content);
    assert_eq!(post.kind, kind);
    assert!(post.parent.is_none());
    assert!(post.embed.is_none());
    assert!(post.attachments.is_none());
}

#[test]
fn post_test_create_path() {
    let post = PubkyAppPost::new(
        "Test post".to_string(),
        PubkyAppPostKind::Short,
        None,
        None,
        None,
    );

    let post_id = post.create_id();
    let path = PubkyAppPost::create_path(&post_id);

    // Check if the path starts with the expected prefix
    let prefix = format!("{}{}posts/", PUBLIC_PATH, APP_PATH);
    assert!(path.starts_with(&prefix));

    let expected_path_len = prefix.len() + post_id.len();
    assert_eq!(path.len(), expected_path_len);
}

#[test]
fn post_test_sanitize() {
    let content = "  This is a test post with extra whitespace   ".to_string();
    let post = PubkyAppPost::new(
        content.clone(),
        PubkyAppPostKind::Short,
        Some("invalid uri".to_string()),
        Some(PubkyAppPostEmbed {
            kind: PubkyAppPostKind::Link,
            uri: "invalid uri".to_string(),
        }),
        Some(vec![
            "pubky://6mfxozzqmb36rc9rgy3rykoyfghfao74n8igt5tf1boehproahoy/pub/pubky.app/files/0034A0X7NJ52G".to_string(),
            "invalid uri".to_string(), // Should be filtered out
            "  pubky://6mfxozzqmb36rc9rgy3rykoyfghfao74n8igt5tf1boehproahoy/pub/pubky.app/files/0034A0X7Q3D80  ".to_string(), // Should be trimmed and normalized
        ]),
    );

    let sanitized_post = post.sanitize();
    assert_eq!(sanitized_post.content, content.trim());
    assert!(sanitized_post.parent.is_none());
    assert!(sanitized_post.embed.is_none());
    assert!(sanitized_post.attachments.is_some());
    let attachments = sanitized_post.attachments.unwrap();
    assert_eq!(attachments.len(), 2); // Invalid URL should be filtered out
    assert!(attachments[0].starts_with("pubky://"));
    assert!(attachments[1].starts_with("pubky://"));
    // Check that whitespace was trimmed
    assert!(!attachments[1].starts_with("  pubky://"));
    assert!(!attachments[1].ends_with("  "));
}

#[test]
fn test_sanitize_trims_parent_and_embed() {
    let valid_parent_uri = "  pubky://6mfxozzqmb36rc9rgy3rykoyfghfao74n8igt5tf1boehproahoy/pub/pubky.app/posts/0034A0X7NJ52G  ".to_string();
    let valid_embed_uri = "  pubky://6mfxozzqmb36rc9rgy3rykoyfghfao74n8igt5tf1boehproahoy/pub/pubky.app/files/0034A0X7Q3D80  ".to_string();

    let post = PubkyAppPost::new(
        "Test content".to_string(),
        PubkyAppPostKind::Short,
        Some(valid_parent_uri.clone()),
        Some(PubkyAppPostEmbed {
            kind: PubkyAppPostKind::Link,
            uri: valid_embed_uri.clone(),
        }),
        None,
    );

    let sanitized_post = post.sanitize();

    // Check that parent URI was trimmed and normalized
    assert!(sanitized_post.parent.is_some());
    let parent = sanitized_post.parent.unwrap();
    assert!(!parent.starts_with("  "));
    assert!(!parent.ends_with("  "));
    assert!(parent.starts_with("pubky://"));

    // Check that embed URI was trimmed and normalized
    assert!(sanitized_post.embed.is_some());
    let embed = sanitized_post.embed.unwrap();
    assert!(!embed.uri.starts_with("  "));
    assert!(!embed.uri.ends_with("  "));
    assert!(embed.uri.starts_with("pubky://"));
}

#[test]
fn post_test_validate() {
    let post = PubkyAppPost::new(
        "Valid content".to_string(),
        PubkyAppPostKind::Short,
        None,
        None,
        None,
    );

    let id = post.create_id();
    let result = post.validate(Some(&id));
    assert!(result.is_ok());
}

#[test]
fn post_test_validate_invalid_id() {
    let post = PubkyAppPost::new(
        "Valid content".to_string(),
        PubkyAppPostKind::Short,
        None,
        None,
        None,
    );

    let invalid_id = "INVALIDID12345";
    let result = post.validate(Some(invalid_id));
    assert!(result.is_err());
}

#[test]
fn post_test_try_from_valid() {
    let post_json = r#"
    {
        "content": "Hello World!",
        "kind": "short",
        "parent": null,
        "embed": null,
        "attachments": null
    }
    "#;

    let id = PubkyAppPost::new(
        "Hello World!".to_string(),
        PubkyAppPostKind::Short,
        None,
        None,
        None,
    )
    .create_id();

    let blob = post_json.as_bytes();
    let post = PubkyAppPost::try_from(blob, &id).unwrap();

    assert_eq!(post.content, "Hello World!");
}

#[test]
fn test_validate_reserved_keyword() {
    let post = PubkyAppPost::new(
        "[DELETED]".to_string(),
        PubkyAppPostKind::Short,
        None,
        None,
        None,
    );

    let id = post.create_id();
    let result = post.validate(Some(&id));
    assert!(result.is_err());
    assert!(result.unwrap_err().contains("reserved keyword"));
}

#[test]
fn post_test_try_from_invalid_content() {
    let content = "[DELETED]".to_string();
    let post_json = format!(
        r#"{{
            "content": "{}",
            "kind": "short",
            "parent": null,
            "embed": null,
            "attachments": null
        }}"#,
        content
    );

    let id = PubkyAppPost::new(content.clone(), PubkyAppPostKind::Short, None, None, None)
        .create_id();

    let blob = post_json.as_bytes();
    let result = PubkyAppPost::try_from(blob, &id);

    // Should fail validation because [DELETED] is a reserved keyword
    assert!(result.is_err());
    assert!(result.unwrap_err().contains("reserved keyword"));
}

#[test]
fn test_validate_attachments_valid_protocols() {
    // Test allowed protocols (limited to MAX_ATTACHMENTS)
    let protocols = vec![
        "pubky://6mfxozzqmb36rc9rgy3rykoyfghfao74n8igt5tf1boehproahoy/pub/pubky.app/files/0034A0X7NJ52G".to_string(),
        "https://example.com/file.png".to_string(),
        "http://example.com/file.jpg".to_string(),
    ];
    assert!(
        protocols.len() <= MAX_ATTACHMENTS,
        "Test uses more than MAX_ATTACHMENTS"
    );

    let post = PubkyAppPost::new(
        "Valid content".to_string(),
        PubkyAppPostKind::Image,
        None,
        None,
        Some(protocols),
    );

    let id = post.create_id();
    let result = post.validate(Some(&id));
    assert!(result.is_ok());
}

#[test]
fn test_validate_attachments_all_allowed_protocols() {
    // Test each allowed protocol individually to ensure all are accepted
    let allowed_protocols = vec![
        "pubky://6mfxozzqmb36rc9rgy3rykoyfghfao74n8igt5tf1boehproahoy/pub/pubky.app/files/0034A0X7NJ52G",
        "http://example.com/file.jpg",
        "https://example.com/file.png",
    ];

    for protocol_url in allowed_protocols {
        let post = PubkyAppPost::new(
            "Valid content".to_string(),
            PubkyAppPostKind::Image,
            None,
            None,
            Some(vec![protocol_url.to_string()]),
        );

        let id = post.create_id();
        let result = post.validate(Some(&id));
        assert!(result.is_ok(), "Should accept protocol: {}", protocol_url);
    }
}

#[test]
fn test_validate_attachments_too_many() {
    let mut attachments = Vec::new();
    for i in 0..MAX_ATTACHMENTS + 1 {
        attachments.push(format!(
            "pubky://6mfxozzqmb36rc9rgy3rykoyfghfao74n8igt5tf1boehproahoy/pub/pubky.app/files/{}",
            i
        ));
    }

    let post = PubkyAppPost::new(
        "Valid content".to_string(),
        PubkyAppPostKind::Image,
        None,
        None,
        Some(attachments),
    );

    let id = post.create_id();
    let result = post.validate(Some(&id));
    assert!(result.is_err());
    assert!(result.unwrap_err().contains("Too many attachments"));
}

#[test]
fn test_validate_attachments_invalid_protocol() {
    // Test that disallowed protocols are rejected
    let invalid_protocols = vec!["ftp://example.com/file", "file:///path/to/file"];

    for invalid_url in invalid_protocols {
        let post = PubkyAppPost {
            content: "Valid content".to_string(),
            kind: PubkyAppPostKind::Image,
            parent: None,
            embed: None,
            attachments: Some(vec![invalid_url.to_string()]),
        };

        let id = post.create_id();
        let result = post.validate(Some(&id));
        assert!(result.is_err(), "Should reject protocol: {}", invalid_url);
        assert!(result.unwrap_err().contains("protocol"));
    }
}

#[test]
fn test_validate_attachments_invalid_url_format() {
    // Create post directly without sanitization to test validation logic
    let post = PubkyAppPost {
        content: "Valid content".to_string(),
        kind: PubkyAppPostKind::Image,
        parent: None,
        embed: None,
        attachments: Some(vec!["not a valid url".to_string()]),
    };

    let id = post.create_id();
    let result = post.validate(Some(&id));
    assert!(result.is_err());
    assert!(result
        .unwrap_err()
        .contains("Invalid attachment URL format"));
}

#[test]
fn test_validate_attachments_url_too_long() {
    // Create a URL that exceeds MAX_ATTACHMENT_URL_LENGTH (200)
    // Base URL structure: "pubky://<52-char-user-id>/pub/pubky.app/files/" = ~80 chars
    // So we need a file ID that makes the total exceed 200
    let long_file_id = "a".repeat(150); // This will make total > 200
    let long_url = format!(
        "pubky://6mfxozzqmb36rc9rgy3rykoyfghfao74n8igt5tf1boehproahoy/pub/pubky.app/files/{}",
        long_file_id
    );

    // Verify the URL is actually too long
    assert!(
        long_url.chars().count() > MAX_ATTACHMENT_URL_LENGTH,
        "URL length {} should exceed {}",
        long_url.chars().count(),
        MAX_ATTACHMENT_URL_LENGTH
    );

    let post = PubkyAppPost::new(
        "Valid content".to_string(),
        PubkyAppPostKind::Image,
        None,
        None,
        Some(vec![long_url]),
    );

    let id = post.create_id();
    let result = post.validate(Some(&id));
    assert!(result.is_err());
    assert!(result.unwrap_err().contains("exceeds maximum length"));
}

#[test]
fn test_validate_attachments_empty_url() {
    // Create post directly without sanitization to test validation logic
    let post = PubkyAppPost {
        content: "Valid content".to_string(),
        kind: PubkyAppPostKind::Image,
        parent: None,
        embed: None,
        attachments: Some(vec!["   ".to_string()]), // Whitespace only
    };

    let id = post.create_id();
    let result = post.validate(Some(&id));
    assert!(result.is_err());
    assert!(result.unwrap_err().contains("cannot be empty"));
}

#[test]
fn test_sanitize_attachments_filters_invalid() {
    let post = PubkyAppPost::new(
        "Valid content".to_string(),
        PubkyAppPostKind::Image,
        None,
        None,
        Some(vec![
            "pubky://6mfxozzqmb36rc9rgy3rykoyfghfao74n8igt5tf1boehproahoy/pub/pubky.app/files/0034A0X7NJ52G".to_string(),
            "https://example.com/file.jpg".to_string(), // Valid
            "invalid url".to_string(), // Should be filtered out
            "not a url".to_string(),   // Should be filtered out
        ]),
    );

    let sanitized = post.sanitize();
    assert!(sanitized.attachments.is_some());
    let attachments = sanitized.attachments.unwrap();
    assert_eq!(attachments.len(), 2); // Only valid URLs should remain
    assert!(attachments[0].starts_with("pubky://"));
    assert!(attachments[1].starts_with("https://"));
}

#[test]
fn test_sanitize_attachments_all_invalid_becomes_none() {
    let post = PubkyAppPost::new(
        "Valid content".to_string(),
        PubkyAppPostKind::Image,
        None,
        None,
        Some(vec!["invalid url".to_string(), "not a url".to_string()]),
    );

    let sanitized = post.sanitize();
    assert!(sanitized.attachments.is_none()); // All invalid, should become None
}

#[test]
fn test_validate_empty_post_rejected() {
    // Post with empty content, no embed, and no attachments should be rejected
    let post = PubkyAppPost::new("".to_string(), PubkyAppPostKind::Short, None, None, None);

    let id = post.create_id();
    let result = post.validate(Some(&id));
    assert!(result.is_err());
    assert!(result
        .unwrap_err()
        .contains("must have content, an embed, or attachments"));
}

#[test]
fn test_validate_empty_content_with_embed_accepted() {
    // Post with empty content but with embed should be valid
    let post = PubkyAppPost::new(
        "".to_string(),
        PubkyAppPostKind::Short,
        None,
        Some(PubkyAppPostEmbed {
            kind: PubkyAppPostKind::Short,
            uri: "pubky://user123/pub/pubky.app/posts/0033SSE3B1FQ0".to_string(),
        }),
        None,
    );

    let id = post.create_id();
    let result = post.validate(Some(&id));
    assert!(
        result.is_ok(),
        "Post with embed but no content should be valid"
    );
}

#[test]
fn test_validate_empty_content_with_attachments_accepted() {
    // Post with empty content but with attachments should be valid
    let post = PubkyAppPost::new(
        "".to_string(),
        PubkyAppPostKind::Image,
        None,
        None,
        Some(vec![
            "pubky://user123/pub/pubky.app/files/0034A0X7NJ52G".to_string()
        ]),
    );

    let id = post.create_id();
    let result = post.validate(Some(&id));
    assert!(
        result.is_ok(),
        "Post with attachments but no content should be valid"
    );
}

#[test]
fn post_test_validate_valid() {
    let post = PubkyAppPost::new(
        "Valid content".to_string(),
        PubkyAppPostKind::Short,
        None,
        None,
        None,
    );

    let id = post.create_id();
    let result = post.validate(Some(&id));
    assert!(result.is_ok());
}
