//! Builders of the storage paths and URIs of each kind.
use crate::uri::{app_id_path, app_path, resource_path, resource_uri, uri_of_path, ResourceView};
use crate::urls::path_text;
use vstd::prelude::*;

verus! {

/// `pubky://<user_id>/pub/pubky.app/`, the root of a user's application data.
pub fn base_uri_builder(user_id: String) -> (r: String)
    ensures
        r@ == seq!['p', 'u', 'b', 'k', 'y', ':', '/', '/'] + user_id@ + path_text(
            seq!["pub"@, "pubky.app"@, Seq::empty()],
        ),
{
    proof {
        reveal_strlit("");
        assert(""@ =~= Seq::<char>::empty());
    }
    let path = app_path("");
    uri_of_path(user_id.as_str(), path.as_str())
}

/// The profile path, `/pub/pubky.app/profile.json`.
pub fn user_path_builder() -> (r: String)
    ensures
        r@ == resource_path(ResourceView::User),
{
    app_path("profile.json")
}

/// The URI of a user's profile.
pub fn user_uri_builder(user_id: String) -> (r: String)
    ensures
        r@ == resource_uri(user_id@, ResourceView::User),
{
    let path = user_path_builder();
    uri_of_path(user_id.as_str(), path.as_str())
}

/// The last-read marker's path, `/pub/pubky.app/last_read`.
pub fn last_read_path_builder() -> (r: String)
    ensures
        r@ == resource_path(ResourceView::LastRead),
{
    app_path("last_read")
}

/// The URI of a user's last-read marker.
pub fn last_read_uri_builder(user_id: String) -> (r: String)
    ensures
        r@ == resource_uri(user_id@, ResourceView::LastRead),
{
    let path = last_read_path_builder();
    uri_of_path(user_id.as_str(), path.as_str())
}

/// The path `/pub/pubky.app/posts/<id>`.
pub fn post_path_builder(id: &str) -> (r: String)
    ensures
        r@ == resource_path(ResourceView::Post(id@)),
{
    app_id_path("posts", id)
}

/// The URI `pubky://<author_id>/pub/pubky.app/posts/<post_id>`.
pub fn post_uri_builder(author_id: String, post_id: String) -> (r: String)
    ensures
        r@ == resource_uri(author_id@, ResourceView::Post(post_id@)),
{
    let path = post_path_builder(post_id.as_str());
    uri_of_path(author_id.as_str(), path.as_str())
}

/// The path `/pub/pubky.app/follows/<id>`.
pub fn follow_path_builder(id: &str) -> (r: String)
    ensures
        r@ == resource_path(ResourceView::Follow(id@)),
{
    app_id_path("follows", id)
}

/// The URI `pubky://<author_id>/pub/pubky.app/follows/<follow_id>`.
pub fn follow_uri_builder(author_id: String, follow_id: String) -> (r: String)
    ensures
        r@ == resource_uri(author_id@, ResourceView::Follow(follow_id@)),
{
    let path = follow_path_builder(follow_id.as_str());
    uri_of_path(author_id.as_str(), path.as_str())
}

/// The path `/pub/pubky.app/mutes/<id>`.
pub fn mute_path_builder(id: &str) -> (r: String)
    ensures
        r@ == resource_path(ResourceView::Mute(id@)),
{
    app_id_path("mutes", id)
}

/// The URI `pubky://<author_id>/pub/pubky.app/mutes/<mute_id>`.
pub fn mute_uri_builder(author_id: String, mute_id: String) -> (r: String)
    ensures
        r@ == resource_uri(author_id@, ResourceView::Mute(mute_id@)),
{
    let path = mute_path_builder(mute_id.as_str());
    uri_of_path(author_id.as_str(), path.as_str())
}

/// The path `/pub/pubky.app/bookmarks/<id>`.
pub fn bookmark_path_builder(id: &str) -> (r: String)
    ensures
        r@ == resource_path(ResourceView::Bookmark(id@)),
{
    app_id_path("bookmarks", id)
}

/// The URI `pubky://<author_id>/pub/pubky.app/bookmarks/<bookmark_id>`.
pub fn bookmark_uri_builder(author_id: String, bookmark_id: String) -> (r: String)
    ensures
        r@ == resource_uri(author_id@, ResourceView::Bookmark(bookmark_id@)),
{
    let path = bookmark_path_builder(bookmark_id.as_str());
    uri_of_path(author_id.as_str(), path.as_str())
}

/// The path `/pub/pubky.app/tags/<id>`.
pub fn tag_path_builder(id: &str) -> (r: String)
    ensures
        r@ == resource_path(ResourceView::Tag(id@)),
{
    app_id_path("tags", id)
}

/// The URI `pubky://<author_id>/pub/pubky.app/tags/<tag_id>`.
pub fn tag_uri_builder(author_id: String, tag_id: String) -> (r: String)
    ensures
        r@ == resource_uri(author_id@, ResourceView::Tag(tag_id@)),
{
    let path = tag_path_builder(tag_id.as_str());
    uri_of_path(author_id.as_str(), path.as_str())
}

/// The path `/pub/pubky.app/files/<id>`.
pub fn file_path_builder(id: &str) -> (r: String)
    ensures
        r@ == resource_path(ResourceView::File(id@)),
{
    app_id_path("files", id)
}

/// The URI `pubky://<author_id>/pub/pubky.app/files/<file_id>`.
pub fn file_uri_builder(author_id: String, file_id: String) -> (r: String)
    ensures
        r@ == resource_uri(author_id@, ResourceView::File(file_id@)),
{
    let path = file_path_builder(file_id.as_str());
    uri_of_path(author_id.as_str(), path.as_str())
}

/// The path `/pub/pubky.app/blobs/<id>`.
pub fn blob_path_builder(id: &str) -> (r: String)
    ensures
        r@ == resource_path(ResourceView::Blob(id@)),
{
    app_id_path("blobs", id)
}

/// The URI `pubky://<author_id>/pub/pubky.app/blobs/<blob_id>`.
pub fn blob_uri_builder(author_id: String, blob_id: String) -> (r: String)
    ensures
        r@ == resource_uri(author_id@, ResourceView::Blob(blob_id@)),
{
    let path = blob_path_builder(blob_id.as_str());
    uri_of_path(author_id.as_str(), path.as_str())
}

/// The path `/pub/pubky.app/feeds/<id>`.
pub fn feed_path_builder(id: &str) -> (r: String)
    ensures
        r@ == resource_path(ResourceView::Feed(id@)),
{
    app_id_path("feeds", id)
}

/// The URI `pubky://<author_id>/pub/pubky.app/feeds/<feed_id>`.
pub fn feed_uri_builder(author_id: String, feed_id: String) -> (r: String)
    ensures
        r@ == resource_uri(author_id@, ResourceView::Feed(feed_id@)),
{
    let path = feed_path_builder(feed_id.as_str());
    uri_of_path(author_id.as_str(), path.as_str())
}

} // verus!
