//! Naming, addressing and validation of the data objects of the pubky.app
//! social protocol: time-derived and content-hash identifiers, the
//! `pubky://` URI parser and its inverse, and the sanitize-then-validate
//! rules of every object kind.
pub mod builders;
pub mod codec;
pub mod common;
pub mod decode;
pub mod feed;
pub mod file;
pub mod ids;
pub mod json;
pub mod laws;
pub mod object;
pub mod post;
pub mod pubky_id;
pub mod relations;
pub mod tag;
pub mod text;
pub mod uri;
pub mod urls;
pub mod user;

pub use builders::{
    base_uri_builder, blob_path_builder, blob_uri_builder, bookmark_path_builder,
    bookmark_uri_builder, feed_path_builder, feed_uri_builder, file_path_builder,
    file_uri_builder, follow_path_builder, follow_uri_builder, last_read_path_builder,
    last_read_uri_builder, mute_path_builder, mute_uri_builder, post_path_builder,
    post_uri_builder, tag_path_builder, tag_uri_builder, user_path_builder, user_uri_builder,
};
pub use codec::timestamp;
pub use feed::{
    PubkyAppFeed, PubkyAppFeedConfig, PubkyAppFeedLayout, PubkyAppFeedReach, PubkyAppFeedSort,
};
pub use file::{PubkyAppBlob, PubkyAppFile, MAX_SIZE};
pub use object::{import_object, import_object_from_resource, PubkyAppObject};
pub use post::{PubkyAppPost, PubkyAppPostEmbed, PubkyAppPostKind};
pub use pubky_id::PubkyId;
pub use relations::{PubkyAppFollow, PubkyAppLastRead, PubkyAppMute};
pub use tag::{sanitize_tag_label, validate_tag_label, PubkyAppBookmark, PubkyAppTag};
pub use uri::{ParsedUri, Resource, APP_PATH, PROTOCOL, PUBLIC_PATH, VERSION};
pub use user::{PubkyAppUser, PubkyAppUserLink};
