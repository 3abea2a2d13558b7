use pubky_app_specs::{timestamp, PubkyAppFollow, PubkyAppLastRead, PubkyAppMute, APP_PATH, PUBLIC_PATH};

#[test]
fn follow_test_new() {
    let follow = PubkyAppFollow::new();
    // Check that created_at is recent
    let now = timestamp();
    // within 1 second
    assert!(follow.created_at <= now && follow.created_at >= now - 1_000_000);
}

#[test]
fn follow_test_create_path_with_id() {
    let mute = PubkyAppFollow::new();
    let path = mute.create_path("user_id123");
    assert_eq!(path, "/pub/pubky.app/follows/user_id123");
}

#[test]
fn follow_test_validate() {
    let follow = PubkyAppFollow::new();
    let result = follow.validate(Some("operrr8wsbpr3ue9d4qj41ge1kcc6r7fdiy6o3ugjrrhi4y77rdo"));
    assert!(result.is_ok());
}

#[test]
fn follow_test_try_from_valid() {
    let follow_json = r#"
    {
        "created_at": 1627849723
    }
    "#;

    let blob = follow_json.as_bytes();
    let follow_parsed = PubkyAppFollow::try_from(
        blob,
        "operrr8wsbpr3ue9d4qj41ge1kcc6r7fdiy6o3ugjrrhi4y77rdo",
    )
    .unwrap();

    assert_eq!(follow_parsed.created_at, 1627849723);
}

#[test]
fn mute_test_new() {
    let mute = PubkyAppMute::new();
    // Check that created_at is recent
    let now = timestamp();
    assert!(mute.created_at <= now && mute.created_at >= now - 1_000_000);
    // within 1 second
}

#[test]
fn mute_test_create_path_with_id() {
    let path =
        PubkyAppMute::create_path("operrr8wsbpr3ue9d4qj41ge1kcc6r7fdiy6o3ugjrrhi4y77rdo");
    assert_eq!(
        path,
        "/pub/pubky.app/mutes/operrr8wsbpr3ue9d4qj41ge1kcc6r7fdiy6o3ugjrrhi4y77rdo"
    );
}

#[test]
fn mute_test_validate() {
    let mute = PubkyAppMute::new();
    let result = mute.validate(Some("operrr8wsbpr3ue9d4qj41ge1kcc6r7fdiy6o3ugjrrhi4y77rdo"));
    assert!(result.is_ok());
}

#[test]
fn mute_test_try_from_valid() {
    let mute_json = r#"
    {
        "created_at": 1627849723
    }
    "#;

    let blob = mute_json.as_bytes();
    let mute_parsed = PubkyAppMute::try_from(
        blob,
        "operrr8wsbpr3ue9d4qj41ge1kcc6r7fdiy6o3ugjrrhi4y77rdo",
    )
    .unwrap();

    assert_eq!(mute_parsed.created_at, 1627849723);
}

#[test]
fn last_read_test_new() {
    let last_read = PubkyAppLastRead::new();
    let now = timestamp() / 1_000;
    // within 1 second
    assert!(last_read.timestamp <= now && last_read.timestamp >= now - 1_000);
}

#[test]
fn last_read_test_create_path() {
    let last_read = PubkyAppLastRead::new();
    let path = last_read.create_path();
    assert_eq!(path, format!("{}{}last_read", PUBLIC_PATH, APP_PATH));
}

#[test]
fn last_read_test_validate() {
    let last_read = PubkyAppLastRead::new();
    let result = last_read.validate(None);
    assert!(result.is_ok());
}

#[test]
fn test_validate_invalid_timestamp() {
    let last_read = PubkyAppLastRead { timestamp: -1 };
    let result = last_read.validate(None);
    assert!(result.is_err());
}

#[test]
fn last_read_test_try_from_valid() {
    let last_read_json = r#"
    {
        "timestamp": 1700000000
    }
    "#;

    let blob = last_read_json.as_bytes();
    let last_read = PubkyAppLastRead::try_from(blob, "").unwrap();
    assert_eq!(last_read.timestamp, 1700000000);
}
