//! The wire format of each object kind: a JSON object whose members carry
//! the fields by name. A missing optional member, or `null`, is absent;
//! members that the kind does not know are ignored.
use crate::feed::{
    layout_of_name, reach_of_name, sort_of_name, FeedConfigView, FeedView, PubkyAppFeed,
    PubkyAppFeedConfig, PubkyAppFeedLayout, PubkyAppFeedReach, PubkyAppFeedSort,
};
use crate::file::{FileView, PubkyAppFile};
use crate::json::{
    dec_i64, dec_opt_str, dec_opt_str_list, dec_str, field, get_i64, get_opt_str,
    get_opt_str_list, get_str, json_as_array, json_get, json_is_null, json_tree, JsonTree,
};
use crate::post::{kind_of_name, EmbedView, PostView, PubkyAppPost, PubkyAppPostEmbed, PubkyAppPostKind};
use crate::relations::{PubkyAppFollow, PubkyAppLastRead, PubkyAppMute};
use crate::tag::{BookmarkView, PubkyAppBookmark, PubkyAppTag, TagView};
use crate::user::{links_view, LinkView, PubkyAppUser, PubkyAppUserLink, UserView};
use vstd::prelude::*;

verus! {

/// A post kind given by name.
pub open spec fn dec_kind(o: Option<JsonTree>) -> Option<PubkyAppPostKind> {
    match dec_str(o) {
        Some(s) => kind_of_name(s),
        None => None,
    }
}

fn get_kind(v: &serde_json::Value, key: &str) -> (r: Option<PubkyAppPostKind>)
    ensures
        r == dec_kind(field(json_tree(*v), key@)),
{
    match get_str(v, key) {
        Some(s) => match PubkyAppPostKind::from_str(s.as_str()) {
            Ok(k) => Some(k),
            Err(_) => None,
        },
        None => None,
    }
}

/// A user link: an object with a title and a URL.
pub open spec fn dec_link(t: JsonTree) -> Option<LinkView> {
    match (dec_str(field(t, "title"@)), dec_str(field(t, "url"@))) {
        (Some(title), Some(url)) => Some(LinkView { title, url }),
        _ => None,
    }
}

pub open spec fn all_links(items: Seq<JsonTree>) -> bool {
    forall|i: int| 0 <= i < items.len() ==> #[trigger] dec_link(items[i]) is Some
}

/// An optional list of links.
pub open spec fn dec_links(o: Option<JsonTree>) -> Option<Option<Seq<LinkView>>> {
    match o {
        None => Some(None),
        Some(JsonTree::Null) => Some(None),
        Some(JsonTree::Array(items)) => if all_links(items) {
            Some(Some(items.map_values(|x: JsonTree| dec_link(x)->0)))
        } else {
            None
        },
        _ => None,
    }
}

/// A user profile.
pub open spec fn dec_user(t: JsonTree) -> Option<UserView> {
    let name = dec_str(field(t, "name"@));
    let bio = dec_opt_str(field(t, "bio"@));
    let image = dec_opt_str(field(t, "image"@));
    let links = dec_links(field(t, "links"@));
    let status = dec_opt_str(field(t, "status"@));
    if t is Object && name is Some && bio is Some && image is Some && links is Some && status is Some {
        Some(
            UserView {
                name: name->0,
                bio: bio->0,
                image: image->0,
                links: links->0,
                status: status->0,
            },
        )
    } else {
        None
    }
}

fn get_links(v: &serde_json::Value) -> (r: Option<Option<Vec<PubkyAppUserLink>>>)
    ensures
        match r {
            Some(Some(l)) => dec_links(field(json_tree(*v), "links"@)) == Some(
                Some(links_view(l@)),
            ),
            Some(None) => dec_links(field(json_tree(*v), "links"@)) == Some(
                None::<Seq<LinkView>>,
            ),
            None => dec_links(field(json_tree(*v), "links"@)) is None,
        },
{
    let x = match json_get(v, "links") {
        Some(x) => x,
        None => {
            return Some(None);
        },
    };
    if json_is_null(x) {
        return Some(None);
    }
    let items = match json_as_array(x) {
        Some(a) => a,
        None => {
            return None;
        },
    };
    let ghost t = json_tree(*x)->Array_0;
    let mut out: Vec<PubkyAppUserLink> = Vec::new();
    let mut i: usize = 0;
    while i < items.len()
        invariant
            0 <= i <= items@.len(),
            json_tree(*x) is Array,
            t == json_tree(*x)->Array_0,
            field(json_tree(*v), "links"@) == Some(json_tree(*x)),
            items@.len() == t.len(),
            forall|k: int| 0 <= k < t.len() ==> json_tree(#[trigger] items@[k]) == t[k],
            out@.len() == i,
            forall|k: int|
                0 <= k < i ==> (#[trigger] dec_link(t[k]) is Some) && out@[k]@ == dec_link(
                    t[k],
                )->0,
        decreases items.len() - i,
    {
        assert(json_tree(items@[i as int]) == t[i as int]);
        let title = get_str(&items[i], "title");
        let url = get_str(&items[i], "url");
        match (title, url) {
            (Some(title), Some(url)) => {
                out.push(PubkyAppUserLink { title, url });
            },
            _ => {
                assert(dec_link(t[i as int]) is None);
                return None;
            },
        }
        i = i + 1;
    }
    assert(links_view(out@) =~= t.map_values(|x: JsonTree| dec_link(x)->0));
    Some(Some(out))
}

/// Reads a user profile.
pub fn decode_user(v: &serde_json::Value) -> (r: Option<PubkyAppUser>)
    ensures
        match r {
            Some(u) => dec_user(json_tree(*v)) == Some(u@),
            None => dec_user(json_tree(*v)) is None,
        },
{
    let name = get_str(v, "name");
    let bio = get_opt_str(v, "bio");
    let image = get_opt_str(v, "image");
    let links = get_links(v);
    let status = get_opt_str(v, "status");
    match (name, bio, image, links, status) {
        (Some(name), Some(bio), Some(image), Some(links), Some(status)) => {
            proof {
                if !(json_tree(*v) is Object) {
                    assert(field(json_tree(*v), "name"@) is None);
                }
            }
            Some(PubkyAppUser { name, bio, image, links, status })
        },
        _ => None,
    }
}

/// An optional embed: an object with a kind and a URI.
pub open spec fn dec_embed(o: Option<JsonTree>) -> Option<Option<EmbedView>> {
    match o {
        None => Some(None),
        Some(JsonTree::Null) => Some(None),
        Some(t) => match (dec_kind(field(t, "kind"@)), dec_str(field(t, "uri"@))) {
            (Some(kind), Some(uri)) => Some(Some(EmbedView { kind, uri })),
            _ => None,
        },
    }
}

/// A post.
pub open spec fn dec_post(t: JsonTree) -> Option<PostView> {
    let content = dec_str(field(t, "content"@));
    let kind = dec_kind(field(t, "kind"@));
    let parent = dec_opt_str(field(t, "parent"@));
    let embed = dec_embed(field(t, "embed"@));
    let attachments = dec_opt_str_list(field(t, "attachments"@));
    if t is Object && content is Some && kind is Some && parent is Some && embed is Some
        && attachments is Some {
        Some(
            PostView {
                content: content->0,
                kind: kind->0,
                parent: parent->0,
                embed: embed->0,
                attachments: attachments->0,
            },
        )
    } else {
        None
    }
}

fn get_embed(v: &serde_json::Value) -> (r: Option<Option<PubkyAppPostEmbed>>)
    ensures
        match r {
            Some(Some(e)) => dec_embed(field(json_tree(*v), "embed"@)) == Some(Some(e@)),
            Some(None) => dec_embed(field(json_tree(*v), "embed"@)) == Some(None::<EmbedView>),
            None => dec_embed(field(json_tree(*v), "embed"@)) is None,
        },
{
    let x = match json_get(v, "embed") {
        Some(x) => x,
        None => {
            return Some(None);
        },
    };
    if json_is_null(x) {
        return Some(None);
    }
    match (get_kind(x, "kind"), get_str(x, "uri")) {
        (Some(kind), Some(uri)) => Some(Some(PubkyAppPostEmbed { kind, uri })),
        _ => None,
    }
}

/// Reads a post.
pub fn decode_post(v: &serde_json::Value) -> (r: Option<PubkyAppPost>)
    ensures
        match r {
            Some(p) => dec_post(json_tree(*v)) == Some(p@),
            None => dec_post(json_tree(*v)) is None,
        },
{
    let content = get_str(v, "content");
    let kind = get_kind(v, "kind");
    let parent = get_opt_str(v, "parent");
    let embed = get_embed(v);
    let attachments = get_opt_str_list(v, "attachments");
    match (content, kind, parent, embed, attachments) {
        (Some(content), Some(kind), Some(parent), Some(embed), Some(attachments)) => {
            proof {
                if !(json_tree(*v) is Object) {
                    assert(field(json_tree(*v), "content"@) is None);
                }
            }
            Some(PubkyAppPost { content, kind, parent, embed, attachments })
        },
        _ => None,
    }
}

/// An object with the one integer member `key`.
pub open spec fn dec_stamp(t: JsonTree, key: Seq<char>) -> Option<i64> {
    if t is Object {
        dec_i64(field(t, key))
    } else {
        None
    }
}

/// Reads a follow.
pub fn decode_follow(v: &serde_json::Value) -> (r: Option<PubkyAppFollow>)
    ensures
        match r {
            Some(f) => dec_stamp(json_tree(*v), "created_at"@) == Some(f.created_at),
            None => dec_stamp(json_tree(*v), "created_at"@) is None,
        },
{
    match get_i64(v, "created_at") {
        Some(created_at) => Some(PubkyAppFollow { created_at }),
        None => None,
    }
}

/// Reads a mute.
pub fn decode_mute(v: &serde_json::Value) -> (r: Option<PubkyAppMute>)
    ensures
        match r {
            Some(f) => dec_stamp(json_tree(*v), "created_at"@) == Some(f.created_at),
            None => dec_stamp(json_tree(*v), "created_at"@) is None,
        },
{
    match get_i64(v, "created_at") {
        Some(created_at) => Some(PubkyAppMute { created_at }),
        None => None,
    }
}

/// Reads a last-read marker.
pub fn decode_last_read(v: &serde_json::Value) -> (r: Option<PubkyAppLastRead>)
    ensures
        match r {
            Some(l) => dec_stamp(json_tree(*v), "timestamp"@) == Some(l.timestamp),
            None => dec_stamp(json_tree(*v), "timestamp"@) is None,
        },
{
    match get_i64(v, "timestamp") {
        Some(timestamp) => Some(PubkyAppLastRead { timestamp }),
        None => None,
    }
}

/// A bookmark.
pub open spec fn dec_bookmark(t: JsonTree) -> Option<BookmarkView> {
    match (dec_str(field(t, "uri"@)), dec_i64(field(t, "created_at"@))) {
        (Some(uri), Some(created_at)) => Some(BookmarkView { uri, created_at }),
        _ => None,
    }
}

/// Reads a bookmark.
pub fn decode_bookmark(v: &serde_json::Value) -> (r: Option<PubkyAppBookmark>)
    ensures
        match r {
            Some(b) => dec_bookmark(json_tree(*v)) == Some(b@),
            None => dec_bookmark(json_tree(*v)) is None,
        },
{
    match (get_str(v, "uri"), get_i64(v, "created_at")) {
        (Some(uri), Some(created_at)) => Some(PubkyAppBookmark { uri, created_at }),
        _ => None,
    }
}

/// A tag.
pub open spec fn dec_tag(t: JsonTree) -> Option<TagView> {
    match (
        dec_str(field(t, "uri"@)),
        dec_str(field(t, "label"@)),
        dec_i64(field(t, "created_at"@)),
    ) {
        (Some(uri), Some(label), Some(created_at)) => Some(TagView { uri, label, created_at }),
        _ => None,
    }
}

/// Reads a tag.
pub fn decode_tag(v: &serde_json::Value) -> (r: Option<PubkyAppTag>)
    ensures
        match r {
            Some(t) => dec_tag(json_tree(*v)) == Some(t@),
            None => dec_tag(json_tree(*v)) is None,
        },
{
    match (get_str(v, "uri"), get_str(v, "label"), get_i64(v, "created_at")) {
        (Some(uri), Some(label), Some(created_at)) => Some(PubkyAppTag { uri, label, created_at }),
        _ => None,
    }
}

/// A file record.
pub open spec fn dec_file(t: JsonTree) -> Option<FileView> {
    match (
        dec_str(field(t, "name"@)),
        dec_i64(field(t, "created_at"@)),
        dec_str(field(t, "src"@)),
        dec_str(field(t, "content_type"@)),
        dec_i64(field(t, "size"@)),
    ) {
        (Some(name), Some(created_at), Some(src), Some(content_type), Some(size)) => Some(
            FileView { name, created_at, src, content_type, size },
        ),
        _ => None,
    }
}

/// Reads a file record.
pub fn decode_file(v: &serde_json::Value) -> (r: Option<PubkyAppFile>)
    ensures
        match r {
            Some(f) => dec_file(json_tree(*v)) == Some(f@),
            None => dec_file(json_tree(*v)) is None,
        },
{
    match (
        get_str(v, "name"),
        get_i64(v, "created_at"),
        get_str(v, "src"),
        get_str(v, "content_type"),
        get_i64(v, "size"),
    ) {
        (Some(name), Some(created_at), Some(src), Some(content_type), Some(size)) => Some(
            PubkyAppFile { name, created_at, src, content_type, size },
        ),
        _ => None,
    }
}

/// An optional post kind given by name.
pub open spec fn dec_opt_kind(o: Option<JsonTree>) -> Option<Option<PubkyAppPostKind>> {
    match o {
        None => Some(None),
        Some(JsonTree::Null) => Some(None),
        Some(t) => match dec_kind(Some(t)) {
            Some(k) => Some(Some(k)),
            None => None,
        },
    }
}

/// Feed settings.
pub open spec fn dec_feed_config(o: Option<JsonTree>) -> Option<FeedConfigView> {
    match o {
        Some(t) => {
            let tags = dec_opt_str_list(field(t, "tags"@));
            let reach = match dec_str(field(t, "reach"@)) {
                Some(s) => reach_of_name(s),
                None => None,
            };
            let layout = match dec_str(field(t, "layout"@)) {
                Some(s) => layout_of_name(s),
                None => None,
            };
            let sort = match dec_str(field(t, "sort"@)) {
                Some(s) => sort_of_name(s),
                None => None,
            };
            let content = dec_opt_kind(field(t, "content"@));
            if t is Object && tags is Some && reach is Some && layout is Some && sort is Some
                && content is Some {
                Some(
                    FeedConfigView {
                        tags: tags->0,
                        reach: reach->0,
                        layout: layout->0,
                        sort: sort->0,
                        content: content->0,
                    },
                )
            } else {
                None
            }
        },
        None => None,
    }
}

/// A feed.
pub open spec fn dec_feed(t: JsonTree) -> Option<FeedView> {
    match (
        dec_feed_config(field(t, "feed"@)),
        dec_str(field(t, "name"@)),
        dec_i64(field(t, "created_at"@)),
    ) {
        (Some(feed), Some(name), Some(created_at)) => Some(FeedView { feed, name, created_at }),
        _ => None,
    }
}

fn get_opt_kind(v: &serde_json::Value, key: &str) -> (r: Option<Option<PubkyAppPostKind>>)
    ensures
        r == dec_opt_kind(field(json_tree(*v), key@)),
{
    match json_get(v, key) {
        Some(x) => {
            if json_is_null(x) {
                Some(None)
            } else {
                match crate::json::json_as_str(x) {
                    Some(s) => match PubkyAppPostKind::from_str(s.as_str()) {
                        Ok(k) => Some(Some(k)),
                        Err(_) => None,
                    },
                    None => None,
                }
            }
        },
        None => Some(None),
    }
}

fn get_feed_config(v: &serde_json::Value) -> (r: Option<PubkyAppFeedConfig>)
    ensures
        match r {
            Some(c) => dec_feed_config(field(json_tree(*v), "feed"@)) == Some(c@),
            None => dec_feed_config(field(json_tree(*v), "feed"@)) is None,
        },
{
    let x = match json_get(v, "feed") {
        Some(x) => x,
        None => {
            return None;
        },
    };
    let tags = get_opt_str_list(x, "tags");
    let reach = match get_str(x, "reach") {
        Some(s) => match PubkyAppFeedReach::from_str(s.as_str()) {
            Ok(r) => Some(r),
            Err(_) => None,
        },
        None => None,
    };
    let layout = match get_str(x, "layout") {
        Some(s) => match PubkyAppFeedLayout::from_str(s.as_str()) {
            Ok(l) => Some(l),
            Err(_) => None,
        },
        None => None,
    };
    let sort = match get_str(x, "sort") {
        Some(s) => match PubkyAppFeedSort::from_str(s.as_str()) {
            Ok(o) => Some(o),
            Err(_) => None,
        },
        None => None,
    };
    let content = get_opt_kind(x, "content");
    match (tags, reach, layout, sort, content) {
        (Some(tags), Some(reach), Some(layout), Some(sort), Some(content)) => {
            proof {
                if !(json_tree(*x) is Object) {
                    assert(field(json_tree(*x), "reach"@) is None);
                }
            }
            Some(PubkyAppFeedConfig { tags, reach, layout, sort, content })
        },
        _ => None,
    }
}

/// Reads a feed.
pub fn decode_feed(v: &serde_json::Value) -> (r: Option<PubkyAppFeed>)
    ensures
        match r {
            Some(f) => dec_feed(json_tree(*v)) == Some(f@),
            None => dec_feed(json_tree(*v)) is None,
        },
{
    match (get_feed_config(v), get_str(v, "name"), get_i64(v, "created_at")) {
        (Some(feed), Some(name), Some(created_at)) => Some(PubkyAppFeed { feed, name, created_at }),
        _ => None,
    }
}

} // verus!
