//! Reading stored objects: bytes are decoded, sanitized and validated by the
//! rules of the kind that the URI names.
use crate::decode::{
    dec_bookmark, dec_feed, dec_file, dec_post, dec_stamp, dec_tag, dec_user, decode_bookmark,
    decode_feed, decode_file, decode_follow, decode_last_read, decode_mute, decode_post,
    decode_tag, decode_user,
};
use crate::feed::{feed_error, feed_valid, sanitize_feed, FeedView, PubkyAppFeed};
use crate::file::{
    blob_error, blob_valid, file_error, file_valid, sanitize_file, FileView, PubkyAppBlob,
    PubkyAppFile,
};
use crate::json::{json_parse_of, parse_json};
use crate::post::{post_error, post_valid, sanitize_post, PostView, PubkyAppPost};
use crate::relations::{
    last_read_valid, relation_error, relation_valid, PubkyAppFollow, PubkyAppLastRead,
    PubkyAppMute,
};
use crate::tag::{
    bookmark_error, bookmark_valid, sanitize_tag, tag_error, tag_valid, BookmarkView,
    PubkyAppBookmark, PubkyAppTag, TagView,
};
use crate::uri::{parse_error, parse_uri, ParsedUri, Resource, ResourceView};
use crate::user::{sanitize_user, user_error, user_valid, PubkyAppUser, UserView};
use vstd::prelude::*;

verus! {

/// Any object of the application.
#[derive(Debug, Clone)]
pub enum PubkyAppObject {
    User(PubkyAppUser),
    Post(PubkyAppPost),
    Follow(PubkyAppFollow),
    Mute(PubkyAppMute),
    Bookmark(PubkyAppBookmark),
    Tag(PubkyAppTag),
    File(PubkyAppFile),
    Blob(PubkyAppBlob),
    Feed(PubkyAppFeed),
    LastRead(PubkyAppLastRead),
}

/// The model of a [`PubkyAppObject`].
pub enum ObjectView {
    User(UserView),
    Post(PostView),
    Follow(PubkyAppFollow),
    Mute(PubkyAppMute),
    Bookmark(BookmarkView),
    Tag(TagView),
    File(FileView),
    Blob(Seq<u8>),
    Feed(FeedView),
    LastRead(PubkyAppLastRead),
}

impl View for PubkyAppObject {
    type V = ObjectView;

    open spec fn view(&self) -> ObjectView {
        match self {
            PubkyAppObject::User(x) => ObjectView::User(x@),
            PubkyAppObject::Post(x) => ObjectView::Post(x@),
            PubkyAppObject::Follow(x) => ObjectView::Follow(*x),
            PubkyAppObject::Mute(x) => ObjectView::Mute(*x),
            PubkyAppObject::Bookmark(x) => ObjectView::Bookmark(x@),
            PubkyAppObject::Tag(x) => ObjectView::Tag(x@),
            PubkyAppObject::File(x) => ObjectView::File(x@),
            PubkyAppObject::Blob(x) => ObjectView::Blob(x.0@),
            PubkyAppObject::Feed(x) => ObjectView::Feed(x@),
            PubkyAppObject::LastRead(x) => ObjectView::LastRead(*x),
        }
    }
}

/// The profile that `b` holds, once sanitized, where it is valid.
pub open spec fn import_user(b: Seq<u8>) -> Option<UserView> {
    match json_parse_of(b) {
        Some(t) => match dec_user(t) {
            Some(u) => if user_valid(sanitize_user(u)) {
                Some(sanitize_user(u))
            } else {
                None
            },
            None => None,
        },
        None => None,
    }
}

/// The post that `b` holds, once sanitized, where it is valid under `id`
/// at the clock reading `now`.
pub open spec fn import_post(b: Seq<u8>, id: Seq<char>, now: int) -> Option<PostView> {
    match json_parse_of(b) {
        Some(t) => match dec_post(t) {
            Some(p) => if post_valid(sanitize_post(p), Some(id), now) {
                Some(sanitize_post(p))
            } else {
                None
            },
            None => None,
        },
        None => None,
    }
}

/// The follow or mute time that `b` holds, where `id` is a valid owner.
pub open spec fn import_relation(b: Seq<u8>, id: Seq<char>) -> Option<i64> {
    match json_parse_of(b) {
        Some(t) => match dec_stamp(t, "created_at"@) {
            Some(c) => if relation_valid(Some(id)) {
                Some(c)
            } else {
                None
            },
            None => None,
        },
        None => None,
    }
}

/// The bookmark that `b` holds, where it is valid under `id`.
pub open spec fn import_bookmark(b: Seq<u8>, id: Seq<char>) -> Option<BookmarkView> {
    match json_parse_of(b) {
        Some(t) => match dec_bookmark(t) {
            Some(x) => if bookmark_valid(x, Some(id)) {
                Some(x)
            } else {
                None
            },
            None => None,
        },
        None => None,
    }
}

/// The tag that `b` holds, once sanitized, where it is valid under `id`.
pub open spec fn import_tag(b: Seq<u8>, id: Seq<char>) -> Option<TagView> {
    match json_parse_of(b) {
        Some(t) => match dec_tag(t) {
            Some(x) => if tag_valid(sanitize_tag(x), Some(id)) {
                Some(sanitize_tag(x))
            } else {
                None
            },
            None => None,
        },
        None => None,
    }
}

/// The file record that `b` holds, once sanitized, where it is valid under
/// `id` at the clock reading `now`.
pub open spec fn import_file(b: Seq<u8>, id: Seq<char>, now: int) -> Option<FileView> {
    match json_parse_of(b) {
        Some(t) => match dec_file(t) {
            Some(x) => if file_valid(sanitize_file(x), Some(id), now) {
                Some(sanitize_file(x))
            } else {
                None
            },
            None => None,
        },
        None => None,
    }
}

/// The blob that the raw bytes `b` make, where it is valid under `id`.
pub open spec fn import_blob(b: Seq<u8>, id: Seq<char>) -> Option<Seq<u8>> {
    if blob_valid(b, Some(id)) {
        Some(b)
    } else {
        None
    }
}

/// The feed that `b` holds, once sanitized, where it is valid under `id`.
pub open spec fn import_feed(b: Seq<u8>, id: Seq<char>) -> Option<FeedView> {
    match json_parse_of(b) {
        Some(t) => match dec_feed(t) {
            Some(x) => if feed_valid(sanitize_feed(x), Some(id)) {
                Some(sanitize_feed(x))
            } else {
                None
            },
            None => None,
        },
        None => None,
    }
}

/// The last-read time that `b` holds, where it is positive.
pub open spec fn import_last_read(b: Seq<u8>) -> Option<i64> {
    match json_parse_of(b) {
        Some(t) => match dec_stamp(t, "timestamp"@) {
            Some(c) => if last_read_valid(PubkyAppLastRead { timestamp: c }) {
                Some(c)
            } else {
                None
            },
            None => None,
        },
        None => None,
    }
}

/// The object that the bytes `b` stored at resource `r` stand for, checked
/// at the clock reading `now`; `None` where they do not decode or do not
/// validate, and for an unknown resource.
pub open spec fn import_resource(r: ResourceView, b: Seq<u8>, now: int) -> Option<ObjectView> {
    match r {
        ResourceView::User => match import_user(b) {
            Some(x) => Some(ObjectView::User(x)),
            None => None,
        },
        ResourceView::Post(id) => match import_post(b, id, now) {
            Some(x) => Some(ObjectView::Post(x)),
            None => None,
        },
        ResourceView::Follow(id) => match import_relation(b, id) {
            Some(c) => Some(ObjectView::Follow(PubkyAppFollow { created_at: c })),
            None => None,
        },
        ResourceView::Mute(id) => match import_relation(b, id) {
            Some(c) => Some(ObjectView::Mute(PubkyAppMute { created_at: c })),
            None => None,
        },
        ResourceView::Bookmark(id) => match import_bookmark(b, id) {
            Some(x) => Some(ObjectView::Bookmark(x)),
            None => None,
        },
        ResourceView::Tag(id) => match import_tag(b, id) {
            Some(x) => Some(ObjectView::Tag(x)),
            None => None,
        },
        ResourceView::File(id) => match import_file(b, id, now) {
            Some(x) => Some(ObjectView::File(x)),
            None => None,
        },
        ResourceView::Blob(id) => match import_blob(b, id) {
            Some(x) => Some(ObjectView::Blob(x)),
            None => None,
        },
        ResourceView::Feed(id) => match import_feed(b, id) {
            Some(x) => Some(ObjectView::Feed(x)),
            None => None,
        },
        ResourceView::LastRead => match import_last_read(b) {
            Some(c) => Some(ObjectView::LastRead(PubkyAppLastRead { timestamp: c })),
            None => None,
        },
        ResourceView::Unknown => None,
    }
}

/// The object that the bytes `b` stored at `uri` stand for.
pub open spec fn import_uri(uri: Seq<char>, b: Seq<u8>, now: int) -> Option<ObjectView> {
    match parse_uri(uri) {
        Some((_, r)) => import_resource(r, b, now),
        None => None,
    }
}

/// The error that reading a profile from `b` reports.
pub open spec fn import_user_error(b: Seq<u8>) -> Option<Seq<char>> {
    match json_parse_of(b) {
        Some(t) => match dec_user(t) {
            Some(u) => user_error(sanitize_user(u)),
            None => Some("Invalid profile"@),
        },
        None => Some("Invalid JSON"@),
    }
}

/// The error that reading a post from `b` under `id` at the clock reading
/// `now` reports.
pub open spec fn import_post_error(b: Seq<u8>, id: Seq<char>, now: int) -> Option<Seq<char>> {
    match json_parse_of(b) {
        Some(t) => match dec_post(t) {
            Some(p) => post_error(sanitize_post(p), Some(id), now),
            None => Some("Invalid post"@),
        },
        None => Some("Invalid JSON"@),
    }
}

/// The error that reading a follow or mute of `id` from `b` reports;
/// `undecodable` where the bytes hold no such record.
pub open spec fn import_relation_error(b: Seq<u8>, id: Seq<char>, undecodable: Seq<char>) -> Option<
    Seq<char>,
> {
    match json_parse_of(b) {
        Some(t) => match dec_stamp(t, "created_at"@) {
            Some(_) => relation_error(Some(id)),
            None => Some(undecodable),
        },
        None => Some("Invalid JSON"@),
    }
}

/// The error that reading a bookmark from `b` under `id` reports.
pub open spec fn import_bookmark_error(b: Seq<u8>, id: Seq<char>) -> Option<Seq<char>> {
    match json_parse_of(b) {
        Some(t) => match dec_bookmark(t) {
            Some(x) => bookmark_error(x, Some(id)),
            None => Some("Invalid bookmark"@),
        },
        None => Some("Invalid JSON"@),
    }
}

/// The error that reading a tag from `b` under `id` reports.
pub open spec fn import_tag_error(b: Seq<u8>, id: Seq<char>) -> Option<Seq<char>> {
    match json_parse_of(b) {
        Some(t) => match dec_tag(t) {
            Some(x) => tag_error(sanitize_tag(x), Some(id)),
            None => Some("Invalid tag"@),
        },
        None => Some("Invalid JSON"@),
    }
}

/// The error that reading a file record from `b` under `id` at the clock
/// reading `now` reports.
pub open spec fn import_file_error(b: Seq<u8>, id: Seq<char>, now: int) -> Option<Seq<char>> {
    match json_parse_of(b) {
        Some(t) => match dec_file(t) {
            Some(x) => file_error(sanitize_file(x), Some(id), now),
            None => Some("Invalid file"@),
        },
        None => Some("Invalid JSON"@),
    }
}

/// The error that reading a feed from `b` under `id` reports.
pub open spec fn import_feed_error(b: Seq<u8>, id: Seq<char>) -> Option<Seq<char>> {
    match json_parse_of(b) {
        Some(t) => match dec_feed(t) {
            Some(x) => feed_error(sanitize_feed(x), Some(id)),
            None => Some("Invalid feed"@),
        },
        None => Some("Invalid JSON"@),
    }
}

/// The error that reading a last-read marker from `b` reports.
pub open spec fn import_last_read_error(b: Seq<u8>) -> Option<Seq<char>> {
    match json_parse_of(b) {
        Some(t) => match dec_stamp(t, "timestamp"@) {
            Some(c) => if c > 0 {
                None
            } else {
                Some("Validation Error: Timestamp must be a positive integer"@)
            },
            None => Some("Invalid last-read marker"@),
        },
        None => Some("Invalid JSON"@),
    }
}

/// The error that reading the bytes `b` stored at resource `r` reports, at
/// the clock reading `now`: the first failure of decoding, then of the
/// kind's rules; for an unknown resource, that it is not recognised.
pub open spec fn import_resource_error(r: ResourceView, b: Seq<u8>, now: int) -> Option<Seq<char>> {
    match r {
        ResourceView::User => import_user_error(b),
        ResourceView::Post(id) => import_post_error(b, id, now),
        ResourceView::Follow(id) => import_relation_error(b, id, "Invalid follow"@),
        ResourceView::Mute(id) => import_relation_error(b, id, "Invalid mute"@),
        ResourceView::Bookmark(id) => import_bookmark_error(b, id),
        ResourceView::Tag(id) => import_tag_error(b, id),
        ResourceView::File(id) => import_file_error(b, id, now),
        ResourceView::Blob(id) => blob_error(b, Some(id)),
        ResourceView::Feed(id) => import_feed_error(b, id),
        ResourceView::LastRead => import_last_read_error(b),
        ResourceView::Unknown => Some("Unrecognized resource Unknown"@),
    }
}

/// The error that reading the bytes `b` stored at `uri` reports: the URI's
/// parse error, else the error of the resource it names.
pub open spec fn import_uri_error(uri: Seq<char>, b: Seq<u8>, now: int) -> Option<Seq<char>> {
    match parse_uri(uri) {
        Some((_, r)) => import_resource_error(r, b, now),
        None => Some(parse_error(uri)),
    }
}

fn parse_or_fail(blob: &[u8]) -> (r: Result<serde_json::Value, String>)
    ensures
        match r {
            Ok(v) => json_parse_of(blob@) == Some(crate::json::json_tree(v)),
            Err(e) => json_parse_of(blob@) is None && e@ == "Invalid JSON"@,
        },
{
    match parse_json(blob) {
        Some(v) => Ok(v),
        None => Err("Invalid JSON".to_string()),
    }
}

impl PubkyAppUser {
    /// Decodes, sanitizes and validates a stored profile; the first error is returned as it is.
    pub fn try_from(blob: &[u8], _id: &str) -> (r: Result<PubkyAppUser, String>)
        ensures
            match r {
                Ok(x) => import_user(blob@) == Some(x@),
                Err(e) => import_user(blob@) is None && import_user_error(blob@) == Some(e@),
            },
    {
        let v = match parse_or_fail(blob) {
            Ok(v) => v,
            Err(e) => {
                return Err(e);
            },
        };
        let x = match decode_user(&v) {
            Some(x) => x.sanitize(),
            None => {
                return Err("Invalid profile".to_string());
            },
        };
        match x.validate(None) {
            Ok(()) => Ok(x),
            Err(e) => Err(e),
        }
    }
}

impl PubkyAppPost {
    /// Decodes, sanitizes and validates a stored post, its identifier
    /// checked against the clock reading `now`; the first error is returned
    /// as it is.
    pub fn try_from_at(blob: &[u8], id: &str, now: i64) -> (r: Result<PubkyAppPost, String>)
        ensures
            match r {
                Ok(x) => import_post(blob@, id@, now as int) == Some(x@),
                Err(e) => import_post(blob@, id@, now as int) is None && import_post_error(
                    blob@,
                    id@,
                    now as int,
                ) == Some(e@),
            },
    {
        let v = match parse_or_fail(blob) {
            Ok(v) => v,
            Err(e) => {
                return Err(e);
            },
        };
        let x = match decode_post(&v) {
            Some(x) => x.sanitize(),
            None => {
                return Err("Invalid post".to_string());
            },
        };
        match x.validate_at(Some(id), now) {
            Ok(()) => Ok(x),
            Err(e) => Err(e),
        }
    }

    /// Decodes, sanitizes and validates a stored post, its identifier
    /// checked against the current time.
    pub fn try_from(blob: &[u8], id: &str) -> (r: Result<PubkyAppPost, String>)
        ensures
            exists|now: int|
                #![trigger import_post(blob@, id@, now)]
                match r {
                    Ok(x) => import_post(blob@, id@, now) == Some(x@),
                    Err(e) => import_post(blob@, id@, now) is None && import_post_error(
                        blob@,
                        id@,
                        now,
                    ) == Some(e@),
                },
    {
        let now = crate::codec::timestamp();
        PubkyAppPost::try_from_at(blob, id, now)
    }
}

impl PubkyAppFollow {
    /// Decodes and validates a stored follow of the owner `id`; the first error is returned as it is.
    pub fn try_from(blob: &[u8], id: &str) -> (r: Result<PubkyAppFollow, String>)
        ensures
            match r {
                Ok(x) => import_relation(blob@, id@) == Some(x.created_at),
                Err(e) => import_relation(blob@, id@) is None && import_relation_error(blob@, id@, "Invalid follow"@) == Some(e@),
            },
    {
        let v = match parse_or_fail(blob) {
            Ok(v) => v,
            Err(e) => {
                return Err(e);
            },
        };
        let x = match decode_follow(&v) {
            Some(x) => x,
            None => {
                return Err("Invalid follow".to_string());
            },
        };
        match x.validate(Some(id)) {
            Ok(()) => Ok(x),
            Err(e) => Err(e),
        }
    }
}

impl PubkyAppMute {
    /// Decodes and validates a stored mute of the owner `id`; the first error is returned as it is.
    pub fn try_from(blob: &[u8], id: &str) -> (r: Result<PubkyAppMute, String>)
        ensures
            match r {
                Ok(x) => import_relation(blob@, id@) == Some(x.created_at),
                Err(e) => import_relation(blob@, id@) is None && import_relation_error(blob@, id@, "Invalid mute"@) == Some(e@),
            },
    {
        let v = match parse_or_fail(blob) {
            Ok(v) => v,
            Err(e) => {
                return Err(e);
            },
        };
        let x = match decode_mute(&v) {
            Some(x) => x,
            None => {
                return Err("Invalid mute".to_string());
            },
        };
        match x.validate(Some(id)) {
            Ok(()) => Ok(x),
            Err(e) => Err(e),
        }
    }
}

impl PubkyAppBookmark {
    /// Decodes and validates a stored bookmark; the first error is returned as it is.
    pub fn try_from(blob: &[u8], id: &str) -> (r: Result<PubkyAppBookmark, String>)
        ensures
            match r {
                Ok(x) => import_bookmark(blob@, id@) == Some(x@),
                Err(e) => import_bookmark(blob@, id@) is None && import_bookmark_error(blob@, id@) == Some(e@),
            },
    {
        let v = match parse_or_fail(blob) {
            Ok(v) => v,
            Err(e) => {
                return Err(e);
            },
        };
        let x = match decode_bookmark(&v) {
            Some(x) => x.sanitize(),
            None => {
                return Err("Invalid bookmark".to_string());
            },
        };
        match x.validate(Some(id)) {
            Ok(()) => Ok(x),
            Err(e) => Err(e),
        }
    }
}

impl PubkyAppTag {
    /// Decodes, sanitizes and validates a stored tag; the first error is returned as it is.
    pub fn try_from(blob: &[u8], id: &str) -> (r: Result<PubkyAppTag, String>)
        ensures
            match r {
                Ok(x) => import_tag(blob@, id@) == Some(x@),
                Err(e) => import_tag(blob@, id@) is None && import_tag_error(blob@, id@) == Some(e@),
            },
    {
        let v = match parse_or_fail(blob) {
            Ok(v) => v,
            Err(e) => {
                return Err(e);
            },
        };
        let x = match decode_tag(&v) {
            Some(x) => x.sanitize(),
            None => {
                return Err("Invalid tag".to_string());
            },
        };
        match x.validate(Some(id)) {
            Ok(()) => Ok(x),
            Err(e) => Err(e),
        }
    }
}

impl PubkyAppFile {
    /// Decodes, sanitizes and validates a stored file record, its identifier
    /// checked against the clock reading `now`; the first error is returned
    /// as it is.
    pub fn try_from_at(blob: &[u8], id: &str, now: i64) -> (r: Result<PubkyAppFile, String>)
        ensures
            match r {
                Ok(x) => import_file(blob@, id@, now as int) == Some(x@),
                Err(e) => import_file(blob@, id@, now as int) is None && import_file_error(
                    blob@,
                    id@,
                    now as int,
                ) == Some(e@),
            },
    {
        let v = match parse_or_fail(blob) {
            Ok(v) => v,
            Err(e) => {
                return Err(e);
            },
        };
        let x = match decode_file(&v) {
            Some(x) => x.sanitize(),
            None => {
                return Err("Invalid file".to_string());
            },
        };
        match x.validate_at(Some(id), now) {
            Ok(()) => Ok(x),
            Err(e) => Err(e),
        }
    }

    /// Decodes, sanitizes and validates a stored file record, its identifier
    /// checked against the current time.
    pub fn try_from(blob: &[u8], id: &str) -> (r: Result<PubkyAppFile, String>)
        ensures
            exists|now: int|
                #![trigger import_file(blob@, id@, now)]
                match r {
                    Ok(x) => import_file(blob@, id@, now) == Some(x@),
                    Err(e) => import_file(blob@, id@, now) is None && import_file_error(
                        blob@,
                        id@,
                        now,
                    ) == Some(e@),
                },
    {
        let now = crate::codec::timestamp();
        PubkyAppFile::try_from_at(blob, id, now)
    }
}

impl PubkyAppFeed {
    /// Decodes, sanitizes and validates a stored feed; the first error is returned as it is.
    pub fn try_from(blob: &[u8], id: &str) -> (r: Result<PubkyAppFeed, String>)
        ensures
            match r {
                Ok(x) => import_feed(blob@, id@) == Some(x@),
                Err(e) => import_feed(blob@, id@) is None && import_feed_error(blob@, id@) == Some(e@),
            },
    {
        let v = match parse_or_fail(blob) {
            Ok(v) => v,
            Err(e) => {
                return Err(e);
            },
        };
        let x = match decode_feed(&v) {
            Some(x) => x.sanitize(),
            None => {
                return Err("Invalid feed".to_string());
            },
        };
        match x.validate(Some(id)) {
            Ok(()) => Ok(x),
            Err(e) => Err(e),
        }
    }
}

impl PubkyAppLastRead {
    /// Decodes and validates a stored last-read marker; the first error is returned as it is.
    pub fn try_from(blob: &[u8], _id: &str) -> (r: Result<PubkyAppLastRead, String>)
        ensures
            match r {
                Ok(x) => import_last_read(blob@) == Some(x.timestamp),
                Err(e) => import_last_read(blob@) is None && import_last_read_error(blob@) == Some(e@),
            },
    {
        let v = match parse_or_fail(blob) {
            Ok(v) => v,
            Err(e) => {
                return Err(e);
            },
        };
        let x = match decode_last_read(&v) {
            Some(x) => x,
            None => {
                return Err("Invalid last-read marker".to_string());
            },
        };
        match x.validate(None) {
            Ok(()) => Ok(x),
            Err(e) => Err(e),
        }
    }
}

impl PubkyAppObject {
    /// The object stored at resource `resource`, checked at the clock
    /// reading `now`: the kind's bytes are decoded, sanitized and validated,
    /// and the first error is returned as it is. An unknown resource is an
    /// error, and its bytes are not read. A blob is its raw bytes.
    pub fn from_resource_at(resource: &Resource, blob: &[u8], now: i64) -> (r: Result<
        PubkyAppObject,
        String,
    >)
        ensures
            match r {
                Ok(o) => import_resource(resource@, blob@, now as int) == Some(o@),
                Err(e) => import_resource(resource@, blob@, now as int) is None
                    && import_resource_error(resource@, blob@, now as int) == Some(e@),
            },
            resource@ is Unknown ==> (r matches Err(e) && e@ == "Unrecognized resource Unknown"@),
    {
        match resource {
            Resource::User => match PubkyAppUser::try_from(blob, "") {
                Ok(x) => Ok(PubkyAppObject::User(x)),
                Err(e) => Err(e),
            },
            Resource::Post(id) => match PubkyAppPost::try_from_at(blob, id.as_str(), now) {
                Ok(x) => Ok(PubkyAppObject::Post(x)),
                Err(e) => Err(e),
            },
            Resource::Follow(id) => match PubkyAppFollow::try_from(blob, id.as_ref()) {
                Ok(x) => Ok(PubkyAppObject::Follow(x)),
                Err(e) => Err(e),
            },
            Resource::Mute(id) => match PubkyAppMute::try_from(blob, id.as_ref()) {
                Ok(x) => Ok(PubkyAppObject::Mute(x)),
                Err(e) => Err(e),
            },
            Resource::Bookmark(id) => match PubkyAppBookmark::try_from(blob, id.as_str()) {
                Ok(x) => Ok(PubkyAppObject::Bookmark(x)),
                Err(e) => Err(e),
            },
            Resource::Tag(id) => match PubkyAppTag::try_from(blob, id.as_str()) {
                Ok(x) => Ok(PubkyAppObject::Tag(x)),
                Err(e) => Err(e),
            },
            Resource::File(id) => match PubkyAppFile::try_from_at(blob, id.as_str(), now) {
                Ok(x) => Ok(PubkyAppObject::File(x)),
                Err(e) => Err(e),
            },
            Resource::Blob(id) => match PubkyAppBlob::try_from(blob, id.as_str()) {
                Ok(x) => Ok(PubkyAppObject::Blob(x)),
                Err(e) => Err(e),
            },
            Resource::Feed(id) => match PubkyAppFeed::try_from(blob, id.as_str()) {
                Ok(x) => Ok(PubkyAppObject::Feed(x)),
                Err(e) => Err(e),
            },
            Resource::LastRead => match PubkyAppLastRead::try_from(blob, "") {
                Ok(x) => Ok(PubkyAppObject::LastRead(x)),
                Err(e) => Err(e),
            },
            Resource::Unknown => Err("Unrecognized resource Unknown".to_string()),
        }
    }

    /// The object stored at resource `resource`, checked at the current time.
    pub fn from_resource(resource: &Resource, blob: &[u8]) -> (r: Result<PubkyAppObject, String>)
        ensures
            exists|now: int|
                #![trigger import_resource(resource@, blob@, now)]
                match r {
                    Ok(o) => import_resource(resource@, blob@, now) == Some(o@),
                    Err(e) => import_resource(resource@, blob@, now) is None
                        && import_resource_error(resource@, blob@, now) == Some(e@),
                },
            resource@ is Unknown ==> (r matches Err(e) && e@ == "Unrecognized resource Unknown"@),
    {
        let now = crate::codec::timestamp();
        PubkyAppObject::from_resource_at(resource, blob, now)
    }

    /// The object stored at `uri`, checked at the clock reading `now`: a
    /// URI that does not parse gives its parse error as it is; otherwise as
    /// [`PubkyAppObject::from_resource_at`] on the resource it names.
    pub fn from_uri_at(uri: &str, blob: &[u8], now: i64) -> (r: Result<PubkyAppObject, String>)
        ensures
            match r {
                Ok(o) => import_uri(uri@, blob@, now as int) == Some(o@),
                Err(e) => import_uri(uri@, blob@, now as int) is None && import_uri_error(
                    uri@,
                    blob@,
                    now as int,
                ) == Some(e@),
            },
            parse_uri(uri@) is None ==> (r matches Err(e) && e@ == parse_error(uri@)),
            parse_uri(uri@) matches Some((_, res)) && res is Unknown ==> (r matches Err(e) && e@
                == "Unrecognized resource Unknown"@),
    {
        match ParsedUri::try_from(uri) {
            Ok(parsed) => PubkyAppObject::from_resource_at(&parsed.resource, blob, now),
            Err(e) => Err(e),
        }
    }

    /// The object stored at `uri`, checked at the current time: the URI is
    /// parsed, then the bytes are decoded, sanitized and validated by the
    /// rules of the kind it names.
    pub fn from_uri(uri: &str, blob: &[u8]) -> (r: Result<PubkyAppObject, String>)
        ensures
            exists|now: int|
                #![trigger import_uri(uri@, blob@, now)]
                match r {
                    Ok(o) => import_uri(uri@, blob@, now) == Some(o@),
                    Err(e) => import_uri(uri@, blob@, now) is None && import_uri_error(
                        uri@,
                        blob@,
                        now,
                    ) == Some(e@),
                },
            parse_uri(uri@) is None ==> (r matches Err(e) && e@ == parse_error(uri@)),
            parse_uri(uri@) matches Some((_, res)) && res is Unknown ==> (r matches Err(e) && e@
                == "Unrecognized resource Unknown"@),
    {
        let now = crate::codec::timestamp();
        PubkyAppObject::from_uri_at(uri, blob, now)
    }
}

/// The object stored at `uri`, checked at the current time; as
/// [`PubkyAppObject::from_uri`].
pub fn import_object(uri: &str, blob: &[u8]) -> (r: Result<PubkyAppObject, String>)
    ensures
        exists|now: int|
            #![trigger import_uri(uri@, blob@, now)]
            match r {
                Ok(o) => import_uri(uri@, blob@, now) == Some(o@),
                Err(e) => import_uri(uri@, blob@, now) is None && import_uri_error(uri@, blob@, now)
                    == Some(e@),
            },
        parse_uri(uri@) is None ==> (r matches Err(e) && e@ == parse_error(uri@)),
        parse_uri(uri@) matches Some((_, res)) && res is Unknown ==> (r matches Err(e) && e@
            == "Unrecognized resource Unknown"@),
{
    PubkyAppObject::from_uri(uri, blob)
}

/// The object stored at resource `resource`, checked at the current time; as
/// [`PubkyAppObject::from_resource`].
pub fn import_object_from_resource(resource: &Resource, blob: &[u8]) -> (r: Result<
    PubkyAppObject,
    String,
>)
    ensures
        exists|now: int|
            #![trigger import_resource(resource@, blob@, now)]
            match r {
                Ok(o) => import_resource(resource@, blob@, now) == Some(o@),
                Err(e) => import_resource(resource@, blob@, now) is None && import_resource_error(
                    resource@,
                    blob@,
                    now,
                ) == Some(e@),
            },
        resource@ is Unknown ==> (r matches Err(e) && e@ == "Unrecognized resource Unknown"@),
{
    PubkyAppObject::from_resource(resource, blob)
}

} // verus!
