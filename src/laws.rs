//! Sanitizing is idempotent: a sanitized object is left as it is by a second
//! pass. Where a pass goes through URL parsing or case folding, the law
//! holds of values on which those are themselves stable.
use crate::common::{lemma_url_norm_stable, url_norm, url_ok, url_stable};
use crate::feed::{feed_config_json, feed_id, sanitize_feed, FeedConfigView, FeedView};
use crate::file::{sanitize_file, take, FileView, MAX_NAME_LENGTH, MAX_SRC_LENGTH};
use crate::post::{sanitize_attachments, sanitize_post, PostView};
use crate::ids::hash_id_of;
use crate::tag::{bookmark_id, sanitize_label, sanitize_tag, tag_id, tag_id_data, BookmarkView, TagView};
use crate::text::{lemma_trim_fixed, lemma_trim_idempotent, trim};
use crate::user::{sanitize_link, sanitize_links, sanitize_name, sanitize_user, LinkView, UserView};
use vstd::prelude::*;

verus! {

/// Case folding leaves the trimmed, folded label trimmed and folded.
pub open spec fn label_stable(s: Seq<char>) -> bool {
    &&& trim(sanitize_label(s)) == sanitize_label(s)
    &&& crate::text::lower_of(sanitize_label(s)) == sanitize_label(s)
}

/// Every link's URL is stable under normalisation.
pub open spec fn links_stable(ls: Seq<LinkView>) -> bool {
    forall|i: int| 0 <= i < ls.len() ==> url_stable(#[trigger] ls[i].url)
}

/// Every URL of the list is stable under normalisation.
pub open spec fn urls_stable(v: Seq<Seq<char>>) -> bool {
    forall|i: int| 0 <= i < v.len() ==> url_stable(#[trigger] v[i])
}

proof fn lemma_name_idempotent(n: Seq<char>)
    ensures
        sanitize_name(sanitize_name(n)) == sanitize_name(n),
{
    reveal_strlit("anonymous");
    reveal_strlit("[DELETED]");
    lemma_trim_idempotent(n);
    lemma_trim_fixed("anonymous"@);
    assert("anonymous"@[0] != "[DELETED]"@[0]);
}

proof fn lemma_link_idempotent(l: LinkView)
    requires
        url_stable(l.url),
        sanitize_link(l).url.len() > 0,
    ensures
        sanitize_link(sanitize_link(l)) == sanitize_link(l),
        url_stable(sanitize_link(l).url),
{
    lemma_trim_idempotent(l.title);
    lemma_url_norm_stable(l.url);
}

proof fn lemma_links_shape(ls: Seq<LinkView>)
    requires
        links_stable(ls),
    ensures
        links_stable(sanitize_links(ls)),
        forall|i: int|
            0 <= i < sanitize_links(ls).len() ==> (#[trigger] sanitize_links(ls)[i]).url.len() > 0
                && sanitize_link(sanitize_links(ls)[i]) == sanitize_links(ls)[i],
    decreases ls.len(),
{
    if ls.len() > 0 {
        assert(links_stable(ls.drop_last()));
        lemma_links_shape(ls.drop_last());
        let l = sanitize_link(ls.last());
        assert(url_stable(ls[ls.len() - 1].url));
        if l.url.len() > 0 {
            lemma_link_idempotent(ls.last());
        }
    }
}

proof fn lemma_links_fixed(ls: Seq<LinkView>)
    requires
        forall|i: int|
            0 <= i < ls.len() ==> (#[trigger] ls[i]).url.len() > 0 && sanitize_link(ls[i])
                == ls[i],
    ensures
        sanitize_links(ls) == ls,
    decreases ls.len(),
{
    if ls.len() > 0 {
        lemma_links_fixed(ls.drop_last());
        assert(ls.drop_last().push(ls.last()) =~= ls);
    }
}

/// Sanitizing a profile twice is sanitizing it once, where the links' URLs
/// are stable under normalisation.
pub proof fn lemma_user_sanitize_idempotent(u: UserView)
    requires
        u.links matches Some(ls) ==> links_stable(ls),
    ensures
        sanitize_user(sanitize_user(u)) == sanitize_user(u),
{
    lemma_name_idempotent(u.name);
    if let Some(b) = u.bio {
        lemma_trim_idempotent(b);
    }
    if let Some(i) = u.image {
        lemma_trim_idempotent(i);
    }
    if let Some(s) = u.status {
        lemma_trim_idempotent(s);
    }
    if let Some(ls) = u.links {
        lemma_links_shape(ls);
        lemma_links_fixed(sanitize_links(ls));
    }
}

proof fn lemma_attachments_shape(v: Seq<Seq<char>>)
    requires
        urls_stable(v),
    ensures
        forall|i: int|
            0 <= i < sanitize_attachments(v).len() ==> url_norm(
                trim(#[trigger] sanitize_attachments(v)[i]),
            ) == Some(sanitize_attachments(v)[i]),
    decreases v.len(),
{
    if v.len() > 0 {
        assert(urls_stable(v.drop_last()));
        lemma_attachments_shape(v.drop_last());
        assert(url_stable(v[v.len() - 1]));
        lemma_url_norm_stable(v.last());
    }
}

proof fn lemma_attachments_fixed(v: Seq<Seq<char>>)
    requires
        forall|i: int| 0 <= i < v.len() ==> url_norm(trim(#[trigger] v[i])) == Some(v[i]),
    ensures
        sanitize_attachments(v) == v,
    decreases v.len(),
{
    if v.len() > 0 {
        lemma_attachments_fixed(v.drop_last());
        assert(v.drop_last().push(v.last()) =~= v);
    }
}

/// Sanitizing a post twice is sanitizing it once, where its URLs are
/// stable under normalisation.
pub proof fn lemma_post_sanitize_idempotent(p: PostView)
    requires
        p.parent matches Some(u) ==> url_stable(u),
        p.embed matches Some(e) ==> url_stable(e.uri),
        p.attachments matches Some(v) ==> urls_stable(v),
    ensures
        sanitize_post(sanitize_post(p)) == sanitize_post(p),
{
    lemma_trim_idempotent(p.content);
    if let Some(u) = p.parent {
        lemma_url_norm_stable(u);
    }
    if let Some(e) = p.embed {
        lemma_url_norm_stable(e.uri);
    }
    if let Some(v) = p.attachments {
        lemma_attachments_shape(v);
        lemma_attachments_fixed(sanitize_attachments(v));
    }
}

/// Sanitizing a tag twice is sanitizing it once, where case folding is
/// stable on its label and URL parsing on its URI.
pub proof fn lemma_tag_sanitize_idempotent(t: TagView)
    requires
        label_stable(t.label),
        url_norm(t.uri) matches Some(n) ==> url_norm(n) == Some(n),
        url_norm(t.uri) is None ==> url_norm(trim(t.uri)) is None,
    ensures
        sanitize_tag(sanitize_tag(t)) == sanitize_tag(t),
{
    lemma_trim_idempotent(t.uri);
}

/// Sanitizing a file record twice is sanitizing it once.
pub proof fn lemma_file_sanitize_idempotent(f: FileView)
    ensures
        sanitize_file(sanitize_file(f)) == sanitize_file(f),
{
    let name = take(f.name, MAX_NAME_LENGTH as nat);
    let src = take(f.src, MAX_SRC_LENGTH as nat);
    lemma_trim_idempotent(f.content_type);
    lemma_trim_idempotent(name);
    lemma_trim_idempotent(src);
    crate::text::lemma_trim_start_shape(name);
    crate::text::lemma_trim_end_shape(crate::text::trim_start(name));
    crate::text::lemma_trim_start_shape(src);
    crate::text::lemma_trim_end_shape(crate::text::trim_start(src));
    reveal_strlit("");
    if !url_ok(trim(src)) {
        let e = Seq::<char>::empty();
        assert(trim(e) =~= e);
        assert(take(e, MAX_SRC_LENGTH as nat) =~= e);
    }
}

/// Sanitizing a feed twice is sanitizing it once, where case folding is
/// stable on its tags.
pub proof fn lemma_feed_sanitize_idempotent(f: FeedView)
    requires
        f.feed.tags matches Some(t) ==> forall|i: int| 0 <= i < t.len() ==> label_stable(#[trigger] t[i]),
    ensures
        sanitize_feed(sanitize_feed(f)) == sanitize_feed(f),
{
    lemma_trim_idempotent(f.name);
    if let Some(t) = f.feed.tags {
        let once = t.map_values(|s: Seq<char>| sanitize_label(s));
        let twice = once.map_values(|s: Seq<char>| sanitize_label(s));
        assert forall|i: int| 0 <= i < once.len() implies #[trigger] twice[i] == once[i] by {
            assert(label_stable(t[i]));
        }
        assert(twice =~= once);
    }
}

/// Content-hash identifiers depend on the content alone: objects with the
/// same identifier data have the same identifier.
pub proof fn lemma_content_ids_deterministic(
    t1: TagView,
    t2: TagView,
    b1: BookmarkView,
    b2: BookmarkView,
    c1: FeedConfigView,
    c2: FeedConfigView,
    d1: Seq<u8>,
    d2: Seq<u8>,
)
    ensures
        tag_id_data(t1) == tag_id_data(t2) ==> tag_id(t1) == tag_id(t2),
        b1.uri == b2.uri ==> bookmark_id(b1) == bookmark_id(b2),
        feed_config_json(c1) == feed_config_json(c2) ==> feed_id(c1) == feed_id(c2),
        d1 == d2 ==> hash_id_of(d1) == hash_id_of(d2),
{
}

} // verus!
