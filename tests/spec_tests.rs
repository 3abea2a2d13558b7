use pubky_app_specs::ids::{
    hash_id, timestamp_id_at, validate_timestamp_id_at, ID_EPOCH_MICROS, MAX_FUTURE_MICROS,
};
use pubky_app_specs::{
    bookmark_uri_builder, feed_uri_builder, file_uri_builder, follow_uri_builder,
    last_read_uri_builder, mute_uri_builder, post_uri_builder, sanitize_tag_label,
    tag_uri_builder, user_uri_builder, blob_uri_builder, validate_tag_label, ParsedUri,
    PubkyAppBlob, PubkyAppFeed, PubkyAppFeedLayout, PubkyAppFeedReach, PubkyAppFeedSort,
    PubkyAppFile, PubkyAppObject, PubkyAppPost, PubkyAppPostEmbed, PubkyAppPostKind,
    PubkyAppTag, PubkyAppUser, PubkyAppUserLink, PubkyId, Resource,
};

const OWNER: &str = "operrr8wsbpr3ue9d4qj41ge1kcc6r7fdiy6o3ugjrrhi4y77rdo";

#[test]
fn owner_id_round_trips_and_rejects_bad_text() {
    let id = PubkyId::try_from(OWNER).unwrap();
    assert_eq!(id.to_string(), OWNER);
    assert_eq!(id.as_ref(), OWNER);
    assert!(PubkyId::try_from(&OWNER[..51]).is_err());
    let with_l = format!("l{}", &OWNER[1..]);
    assert!(PubkyId::try_from(&with_l).is_err());
    let with_v = format!("{}v", &OWNER[..51]);
    assert!(PubkyId::try_from(&with_v).is_err());
}

#[test]
fn content_hash_ids_are_deterministic_and_sensitive() {
    let a = PubkyAppBlob::new(vec![7, 8, 9]).create_id();
    let b = PubkyAppBlob::new(vec![7, 8, 9]).create_id();
    let c = PubkyAppBlob::new(vec![7, 8, 10]).create_id();
    assert_eq!(a, b);
    assert_ne!(a, c);
    assert_eq!(a.len(), 26);
    assert_eq!(hash_id(&[1, 2]), "PZBQ010FF079VVZPQG1RNFN6DR");
}

#[test]
fn time_ids_validate_inside_the_window_only() {
    let now: i64 = 1_750_000_000_000_000;
    let fresh = timestamp_id_at(now);
    assert_eq!(fresh.len(), 13);
    assert!(validate_timestamp_id_at(&fresh, now).is_ok());
    let lower = fresh.to_lowercase();
    assert!(validate_timestamp_id_at(&lower, now).is_ok());
    let edge = timestamp_id_at(now + MAX_FUTURE_MICROS);
    assert!(validate_timestamp_id_at(&edge, now).is_ok());
    let too_far = timestamp_id_at(now + MAX_FUTURE_MICROS + 1);
    assert!(validate_timestamp_id_at(&too_far, now).is_err());
    let old = timestamp_id_at(ID_EPOCH_MICROS - 1);
    assert!(validate_timestamp_id_at(&old, now).is_err());
    let epoch = timestamp_id_at(ID_EPOCH_MICROS);
    assert!(validate_timestamp_id_at(&epoch, now).is_ok());
    assert!(validate_timestamp_id_at("0032SSN7Q4EVU", now).is_err());
    assert!(validate_timestamp_id_at("0032SSN7Q4EV", now).is_err());
}

#[test]
fn uri_build_parse_build_is_lossless_for_every_kind() {
    let id = "0032SSN7Q4EVG".to_string();
    let uris = vec![
        user_uri_builder(OWNER.into()),
        last_read_uri_builder(OWNER.into()),
        post_uri_builder(OWNER.into(), id.clone()),
        follow_uri_builder(OWNER.into(), OWNER.into()),
        mute_uri_builder(OWNER.into(), OWNER.into()),
        bookmark_uri_builder(OWNER.into(), id.clone()),
        tag_uri_builder(OWNER.into(), id.clone()),
        file_uri_builder(OWNER.into(), id.clone()),
        blob_uri_builder(OWNER.into(), id.clone()),
        feed_uri_builder(OWNER.into(), id.clone()),
    ];
    for uri in uris {
        let parsed = ParsedUri::try_from(&uri).unwrap();
        let built = parsed.try_to_uri_str().unwrap();
        assert_eq!(built, uri);
        let again = ParsedUri::try_from(&built).unwrap();
        assert_eq!(again.user_id, parsed.user_id);
        assert_eq!(again.resource, parsed.resource);
        assert_eq!(again.try_to_uri_str().unwrap(), built);
    }
}

#[test]
fn uri_parser_errors_and_unknowns() {
    let bad_follow = format!("pubky://{}/pub/pubky.app/follows/notanid", OWNER);
    assert!(ParsedUri::try_from(&bad_follow).is_err());
    let short_path = format!("pubky://{}/pub", OWNER);
    assert!(ParsedUri::try_from(&short_path).is_err());
    let bad_owner = "pubky://notanowner/pub/pubky.app/profile.json";
    assert!(ParsedUri::try_from(bad_owner).is_err());
    let empty_id = bookmark_uri_builder(OWNER.into(), "".into());
    assert_eq!(ParsedUri::try_from(&empty_id).unwrap().resource, Resource::Unknown);
    let other_single = format!("pubky://{}/pub/pubky.app/posts", OWNER);
    assert_eq!(ParsedUri::try_from(&other_single).unwrap().resource, Resource::Unknown);
    let wrong_scheme = format!("https://{}/pub/pubky.app/profile.json", OWNER);
    assert!(ParsedUri::try_from(&wrong_scheme).is_err());
}

#[test]
fn resource_names_and_ids() {
    let post = Resource::Post("abc".to_string());
    assert_eq!(post.id(), Some("abc".to_string()));
    assert_eq!(post.to_string(), "posts");
    assert_eq!(Resource::User.id(), None);
    assert_eq!(Resource::User.to_string(), "profile.json");
    assert_eq!(Resource::Unknown.to_string(), "unknown");
    let follow = Resource::Follow(PubkyId::try_from(OWNER).unwrap());
    assert_eq!(follow.id(), Some(OWNER.to_string()));
}

#[test]
fn sanitize_twice_is_sanitize_once() {
    let user = PubkyAppUser::new(
        "  [DELETED] ".to_string(),
        Some(" bio ".to_string()),
        Some(" https://example.com/a.png ".to_string()),
        Some(vec![
            PubkyAppUserLink { title: " t ".to_string(), url: " https://alice.dev ".to_string() },
            PubkyAppUserLink { title: "x".to_string(), url: "nope".to_string() },
        ]),
        Some(" s ".to_string()),
    );
    assert_eq!(user.name, "anonymous");
    assert_eq!(user.links.as_ref().unwrap()[0].url, "https://alice.dev/");
    assert_eq!(user.clone().sanitize(), user);

    let post = PubkyAppPost::new(
        "  hi ".to_string(),
        PubkyAppPostKind::Short,
        Some(" https://example.com/p ".to_string()),
        Some(PubkyAppPostEmbed::new("https://example.com/e".to_string(), PubkyAppPostKind::Link)),
        Some(vec!["https://example.com/x".to_string(), "bad url".to_string()]),
    );
    assert_eq!(post.clone().sanitize(), post);

    let tag = PubkyAppTag::new("https://example.com/t".to_string(), " CoOl ".to_string());
    assert_eq!(tag.label, "cool");
    assert_eq!(tag.clone().sanitize(), tag);

    let file = PubkyAppFile::new(
        "  name.png ".to_string(),
        " https://example.com/f ".to_string(),
        " image/png ".to_string(),
        10,
    );
    assert_eq!(file.clone().sanitize(), file);

    let feed = PubkyAppFeed::new(
        Some(vec![" A ".to_string()]),
        PubkyAppFeedReach::All,
        PubkyAppFeedLayout::Wide,
        PubkyAppFeedSort::Popularity,
        Some(PubkyAppPostKind::Long),
        " feed ".to_string(),
    );
    assert_eq!(feed.clone().sanitize(), feed);
}

#[test]
fn tag_scenario_cool() {
    let uri = format!("pubky://{}/pub/pubky.app/posts/0032SSN7Q4EVG", OWNER);
    let tag = PubkyAppTag { uri: uri.clone(), label: "CoOl".to_string(), created_at: 1 }.sanitize();
    assert_eq!(tag.label, "cool");
    assert_eq!(tag.uri, uri);
    let id = tag.create_id();
    assert_eq!(id.len(), 26);
    assert_eq!(id, tag.create_id());
    assert!(tag.validate(Some(&id)).is_ok());
}

#[test]
fn tag_label_rules() {
    assert!(validate_tag_label("ok").is_ok());
    assert!(validate_tag_label("").is_err());
    assert!(validate_tag_label(&"a".repeat(21)).is_err());
    assert!(validate_tag_label(&"a".repeat(20)).is_ok());
    assert!(validate_tag_label("a b").is_err());
    assert!(validate_tag_label("a:b").is_err());
    assert!(validate_tag_label("a,b").is_err());
    assert_eq!(sanitize_tag_label("  HeLLo\t"), "hello");
}

#[test]
fn blob_boundaries() {
    assert!(PubkyAppBlob::new(vec![]).validate(None).unwrap_err().contains("cannot be zero"));
    assert!(PubkyAppBlob::new(vec![1]).validate(None).is_ok());
}

#[test]
fn post_rules() {
    let long = PubkyAppPost::new("a".repeat(2001), PubkyAppPostKind::Short, None, None, None);
    assert!(long.validate(None).is_err());
    let long_ok = PubkyAppPost::new("a".repeat(2001), PubkyAppPostKind::Long, None, None, None);
    assert!(long_ok.validate(None).is_ok());
    let too_long = PubkyAppPost::new("a".repeat(50001), PubkyAppPostKind::Long, None, None, None);
    assert!(too_long.validate(None).is_err());
    let four = PubkyAppPost {
        content: "x".to_string(),
        kind: PubkyAppPostKind::Image,
        parent: None,
        embed: None,
        attachments: Some(vec!["https://a.b/1".to_string(); 4]),
    };
    assert!(four.validate(None).unwrap_err().contains("Too many attachments"));
    assert_eq!(PubkyAppPostKind::from_str("video").unwrap(), PubkyAppPostKind::Video);
    assert!(PubkyAppPostKind::from_str("Video").is_err());
    assert_eq!(PubkyAppPostKind::Link.to_string(), "link");
}

#[test]
fn file_content_types() {
    let mut file = PubkyAppFile::new(
        "a.png".to_string(),
        "https://example.com/a".to_string(),
        "image/png; charset=utf-8".to_string(),
        1,
    );
    assert!(file.validate(None).is_ok());
    file.content_type = "image/bmp".to_string();
    assert!(file.validate(None).is_err());
    file.content_type = "image/png".to_string();
    file.size = 10 * 1024 * 1024;
    assert!(file.validate(None).is_ok());
    file.size = 10 * 1024 * 1024 + 1;
    assert!(file.validate(None).is_err());
    file.size = 0;
    assert!(file.validate(None).is_err());
}

#[test]
fn feed_id_data_is_compact_json() {
    let feed = PubkyAppFeed::new(
        Some(vec!["bitcoin".to_string(), "ru\"st".to_string()]),
        PubkyAppFeedReach::Following,
        PubkyAppFeedLayout::Columns,
        PubkyAppFeedSort::Recent,
        None,
        "n".to_string(),
    );
    assert_eq!(
        feed.get_id_data(),
        "{\"tags\":[\"bitcoin\",\"ru\\\"st\"],\"reach\":\"following\",\"layout\":\"columns\",\"sort\":\"recent\",\"content\":null}"
    );
    assert!(feed.validate(Some(&feed.create_id())).is_ok());
    assert_eq!(PubkyAppFeedReach::from_str("friends").unwrap(), PubkyAppFeedReach::Friends);
    assert!(PubkyAppFeedLayout::from_str("grid").is_err());
    assert_eq!(PubkyAppFeedSort::Popularity.to_string(), "popularity");
}

#[test]
fn import_errors() {
    let uri = user_uri_builder(OWNER.into());
    assert!(PubkyAppObject::from_uri(&uri, b"not json").is_err());
    assert!(PubkyAppObject::from_uri(&uri, b"{\"name\": 3}").is_err());
    assert!(PubkyAppObject::from_uri(&uri, b"{\"name\": \"Al\"}").is_err());
    assert!(PubkyAppObject::from_uri("http://x/pub/pubky.app/profile.json", b"{}").is_err());
    let follow = follow_uri_builder(OWNER.into(), OWNER.into());
    assert!(PubkyAppObject::from_uri(&follow, b"{\"created_at\": 1.5}").is_err());
    let blob = blob_uri_builder(OWNER.into(), "CDW1T5RM4PHP64QT0P6RE4PNT0".into());
    assert!(PubkyAppObject::from_uri(&blob, b"[1,2,3,4]").unwrap_err().starts_with("Invalid ID"));
    let scheme_err = PubkyAppObject::from_uri("http://x/pub/pubky.app/profile.json", b"{}");
    assert!(scheme_err.unwrap_err().starts_with("Invalid URI, must start with 'pubky://'"));
    let unknown = format!("pubky://{}/pub/pubky.app/unknown/ID", OWNER);
    assert_eq!(PubkyAppObject::from_uri(&unknown, b"not json").unwrap_err(), "Unrecognized resource Unknown");
    let last_read = last_read_uri_builder(OWNER.into());
    assert!(PubkyAppObject::from_uri(&last_read, b"{\"timestamp\": 0}").is_err());
    match PubkyAppObject::from_uri(&uri, b"{\"name\": \" Alice \", \"extra\": true}").unwrap() {
        PubkyAppObject::User(u) => assert_eq!(u.name, "Alice"),
        other => panic!("unexpected {:?}", other),
    }
}

#[test]
fn blob_import_takes_raw_bytes() {
    let data: Vec<u8> = vec![0xFF, 0xD8, 0xFF, 0x00, 0x10];
    let id = PubkyAppBlob::new(data.clone()).create_id();
    let uri = blob_uri_builder(OWNER.into(), id);
    match PubkyAppObject::from_uri(&uri, &data).unwrap() {
        PubkyAppObject::Blob(b) => assert_eq!(b.0, data),
        other => panic!("unexpected {:?}", other),
    }
}

#[test]
fn file_sanitize_cuts_then_trims() {
    let name = format!("{} b", "a".repeat(254));
    let file = PubkyAppFile::new(name, "https://example.com/f".to_string(), "image/png".to_string(), 1);
    assert_eq!(file.name, "a".repeat(254));
    assert_eq!(file.clone().sanitize(), file);
}

#[test]
fn rebuilt_uri_is_the_plain_concatenation() {
    let p = ParsedUri { user_id: PubkyId::try_from(OWNER).unwrap(), resource: Resource::Post("a b".to_string()) };
    assert_eq!(p.try_to_uri_str().unwrap(), format!("pubky://{}/pub/pubky.app/posts/a b", OWNER));
    let u = ParsedUri { user_id: PubkyId::try_from(OWNER).unwrap(), resource: Resource::Unknown };
    assert_eq!(u.try_to_uri_str().unwrap_err(), "Cannot convert Unknown resource to URI");
}

#[test]
fn attachment_errors_name_the_index() {
    let post = PubkyAppPost {
        content: "x".to_string(),
        kind: PubkyAppPostKind::Image,
        parent: None,
        embed: None,
        attachments: Some(vec!["https://a.b/1".to_string(), "   ".to_string()]),
    };
    assert_eq!(
        post.validate(None).unwrap_err(),
        "Validation Error: Attachment URL at index 1 cannot be empty"
    );
}
