//! Resource locations: storage paths, `pubky://` URIs, and the parser that
//! reads a URI back into an owner and a typed resource.
use crate::pubky_id::{pubky_id_error, valid_pubky_id, PubkyId};
use crate::text::str_eq;
use crate::urls::{
    is_plain_host, is_plain_segment, parse_url, path_text, pubky_url_text, strs_view,
    url_parse_of,
};
use vstd::prelude::*;

verus! {

/// The root of every user's public data.
pub const PUBLIC_PATH: &'static str = "/pub/";

/// The application's directory under the public root.
pub const APP_PATH: &'static str = "pubky.app/";

/// The scheme of every resource URI, with its separator.
pub const PROTOCOL: &'static str = "pubky://";

/// The version of the data model.
pub const VERSION: &'static str = "0.4.0";

/// What a URI addresses.
#[derive(Debug, Clone, PartialEq, Eq)]
pub enum Resource {
    User,
    Post(String),
    Follow(PubkyId),
    Mute(PubkyId),
    Bookmark(String),
    Tag(String),
    File(String),
    Blob(String),
    Feed(String),
    LastRead,
    Unknown,
}

/// The model of a [`Resource`]: its kind and the text of its identifier.
pub enum ResourceView {
    User,
    Post(Seq<char>),
    Follow(Seq<char>),
    Mute(Seq<char>),
    Bookmark(Seq<char>),
    Tag(Seq<char>),
    File(Seq<char>),
    Blob(Seq<char>),
    Feed(Seq<char>),
    LastRead,
    Unknown,
}

impl View for Resource {
    type V = ResourceView;

    open spec fn view(&self) -> ResourceView {
        match self {
            Resource::User => ResourceView::User,
            Resource::Post(id) => ResourceView::Post(id@),
            Resource::Follow(id) => ResourceView::Follow(id@),
            Resource::Mute(id) => ResourceView::Mute(id@),
            Resource::Bookmark(id) => ResourceView::Bookmark(id@),
            Resource::Tag(id) => ResourceView::Tag(id@),
            Resource::File(id) => ResourceView::File(id@),
            Resource::Blob(id) => ResourceView::Blob(id@),
            Resource::Feed(id) => ResourceView::Feed(id@),
            Resource::LastRead => ResourceView::LastRead,
            Resource::Unknown => ResourceView::Unknown,
        }
    }
}

/// The directory of each kind that carries an identifier.
pub open spec fn kind_segment(r: ResourceView) -> Seq<char> {
    match r {
        ResourceView::Post(_) => "posts"@,
        ResourceView::Follow(_) => "follows"@,
        ResourceView::Mute(_) => "mutes"@,
        ResourceView::Bookmark(_) => "bookmarks"@,
        ResourceView::Tag(_) => "tags"@,
        ResourceView::File(_) => "files"@,
        ResourceView::Blob(_) => "blobs"@,
        ResourceView::Feed(_) => "feeds"@,
        ResourceView::User => "profile.json"@,
        ResourceView::LastRead => "last_read"@,
        ResourceView::Unknown => Seq::empty(),
    }
}

/// The identifier that a resource carries, if any.
pub open spec fn resource_id(r: ResourceView) -> Option<Seq<char>> {
    match r {
        ResourceView::Post(id) => Some(id),
        ResourceView::Follow(id) => Some(id),
        ResourceView::Mute(id) => Some(id),
        ResourceView::Bookmark(id) => Some(id),
        ResourceView::Tag(id) => Some(id),
        ResourceView::File(id) => Some(id),
        ResourceView::Blob(id) => Some(id),
        ResourceView::Feed(id) => Some(id),
        _ => None,
    }
}

/// The path segments under which a concrete resource is stored.
pub open spec fn resource_segments(r: ResourceView) -> Seq<Seq<char>> {
    match resource_id(r) {
        Some(id) => seq!["pub"@, "pubky.app"@, kind_segment(r), id],
        None => seq!["pub"@, "pubky.app"@, kind_segment(r)],
    }
}

/// The storage path of a concrete resource.
pub open spec fn resource_path(r: ResourceView) -> Seq<char> {
    path_text(resource_segments(r))
}

/// The URI of a concrete resource of `owner`.
pub open spec fn resource_uri(owner: Seq<char>, r: ResourceView) -> Seq<char> {
    pubky_url_text(owner, resource_segments(r))
}

/// Reads the segments below the application root as a resource; `None`
/// where a followed or muted owner identifier is malformed.
pub open spec fn resource_of_segments(rest: Seq<Seq<char>>) -> Option<ResourceView> {
    if rest.len() == 0 {
        Some(ResourceView::Unknown)
    } else if rest.len() == 1 {
        if rest[0] == "profile.json"@ {
            Some(ResourceView::User)
        } else if rest[0] == "last_read"@ {
            Some(ResourceView::LastRead)
        } else {
            Some(ResourceView::Unknown)
        }
    } else if rest[1].len() == 0 {
        Some(ResourceView::Unknown)
    } else {
        let (kind, id) = (rest[0], rest[1]);
        if kind == "posts"@ {
            Some(ResourceView::Post(id))
        } else if kind == "follows"@ {
            if valid_pubky_id(id) {
                Some(ResourceView::Follow(id))
            } else {
                None
            }
        } else if kind == "mutes"@ {
            if valid_pubky_id(id) {
                Some(ResourceView::Mute(id))
            } else {
                None
            }
        } else if kind == "bookmarks"@ {
            Some(ResourceView::Bookmark(id))
        } else if kind == "tags"@ {
            Some(ResourceView::Tag(id))
        } else if kind == "files"@ {
            Some(ResourceView::File(id))
        } else if kind == "blobs"@ {
            Some(ResourceView::Blob(id))
        } else if kind == "feeds"@ {
            Some(ResourceView::Feed(id))
        } else {
            Some(ResourceView::Unknown)
        }
    }
}

/// The error of segments that name a followed or muted owner that is not
/// well formed.
pub open spec fn segments_error(rest: Seq<Seq<char>>) -> Seq<char> {
    pubky_id_error(rest[1])->0
}

/// The error that parsing `uri` reports: the first rule it breaks.
pub open spec fn parse_error(uri: Seq<char>) -> Seq<char> {
    match url_parse_of(uri) {
        Some((scheme, host, segments, _text)) => {
            if scheme != "pubky"@ {
                "Invalid URI, must start with 'pubky://': "@ + uri
            } else if host is None {
                "Missing user ID in URI: "@ + uri
            } else if pubky_id_error(host->0) is Some {
                pubky_id_error(host->0)->0
            } else if segments is None {
                "Cannot parse path segments from URI: "@ + uri
            } else if segments->0.len() < 2 {
                "Not enough path segments in URI: "@ + uri
            } else if segments->0[0] != "pub"@ {
                "Expected public path '/pub/' but got '"@ + segments->0[0] + "' in URI: "@ + uri
            } else if segments->0[1] != "pubky.app"@ {
                "Expected app path 'pubky.app/' but got '"@ + segments->0[1] + "' in URI: "@
                    + uri
            } else {
                segments_error(segments->0.subrange(2, segments->0.len() as int))
            }
        },
        None => "Invalid URL"@,
    }
}

/// What parsing `uri` gives: the owner and the resource, or `None` where
/// the URI is malformed, of another scheme, has no valid owner, or lies
/// outside the application root.
pub open spec fn parse_uri(uri: Seq<char>) -> Option<(Seq<char>, ResourceView)> {
    match url_parse_of(uri) {
        Some((scheme, host, segments, _text)) => {
            if scheme == "pubky"@ && host is Some && valid_pubky_id(host->0) && segments is Some
                && segments->0.len() >= 2 && segments->0[0] == "pub"@ && segments->0[1]
                == "pubky.app"@ {
                match resource_of_segments(segments->0.subrange(2, segments->0.len() as int)) {
                    Some(r) => Some((host->0, r)),
                    None => None,
                }
            } else {
                None
            }
        },
        None => None,
    }
}

/// Identifiers that a URI carries unchanged: plain characters, not empty,
/// not a dot segment.
pub open spec fn plain_resource(r: ResourceView) -> bool {
    match resource_id(r) {
        Some(id) => id.len() > 0 && is_plain_segment(id),
        None => true,
    }
}

/// A followed or muted owner is well formed.
pub open spec fn owners_valid(r: ResourceView) -> bool {
    &&& (r matches ResourceView::Follow(id) ==> valid_pubky_id(id))
    &&& (r matches ResourceView::Mute(id) ==> valid_pubky_id(id))
}

impl Resource {
    /// The identifier of the resource, for the kinds that carry one.
    pub fn id(&self) -> (r: Option<String>)
        ensures
            match r {
                Some(s) => resource_id(self@) == Some(s@),
                None => resource_id(self@) is None,
            },
    {
        match self {
            Resource::Post(id) => Some(id.clone()),
            Resource::Follow(id) => Some(id.to_string()),
            Resource::Mute(id) => Some(id.to_string()),
            Resource::Bookmark(id) => Some(id.clone()),
            Resource::Tag(id) => Some(id.clone()),
            Resource::File(id) => Some(id.clone()),
            Resource::Blob(id) => Some(id.clone()),
            Resource::Feed(id) => Some(id.clone()),
            Resource::User | Resource::LastRead | Resource::Unknown => None,
        }
    }

    /// The name of the resource's kind, without an identifier.
    pub fn to_string(&self) -> (r: String)
        ensures
            !(self@ is Unknown) ==> r@ == kind_segment(self@),
            self@ is Unknown ==> r@ == "unknown"@,
    {
        match self {
            Resource::User => "profile.json".to_string(),
            Resource::LastRead => "last_read".to_string(),
            Resource::Post(_) => "posts".to_string(),
            Resource::Follow(_) => "follows".to_string(),
            Resource::Mute(_) => "mutes".to_string(),
            Resource::Bookmark(_) => "bookmarks".to_string(),
            Resource::Tag(_) => "tags".to_string(),
            Resource::File(_) => "files".to_string(),
            Resource::Blob(_) => "blobs".to_string(),
            Resource::Feed(_) => "feeds".to_string(),
            Resource::Unknown => "unknown".to_string(),
        }
    }

    /// A copy of the resource.
    pub fn duplicate(&self) -> (r: Resource)
        ensures
            r@ == self@,
    {
        match self {
            Resource::User => Resource::User,
            Resource::Post(id) => Resource::Post(id.clone()),
            Resource::Follow(id) => Resource::Follow(id.duplicate()),
            Resource::Mute(id) => Resource::Mute(id.duplicate()),
            Resource::Bookmark(id) => Resource::Bookmark(id.clone()),
            Resource::Tag(id) => Resource::Tag(id.clone()),
            Resource::File(id) => Resource::File(id.clone()),
            Resource::Blob(id) => Resource::Blob(id.clone()),
            Resource::Feed(id) => Resource::Feed(id.clone()),
            Resource::LastRead => Resource::LastRead,
            Resource::Unknown => Resource::Unknown,
        }
    }
}

/// Appends `/seg` to `s`.
fn push_segment(s: &mut String, seg: &str)
    ensures
        final(s)@ == old(s)@ + seq!['/'] + seg@,
{
    proof {
        reveal_strlit("/");
    }
    s.append("/");
    s.append(seg);
}

proof fn lemma_path_push(segs: Seq<Seq<char>>, x: Seq<char>)
    ensures
        path_text(segs.push(x)) == path_text(segs) + seq!['/'] + x,
{
    assert(segs.push(x).drop_last() =~= segs);
}

/// The path `/pub/pubky.app/<name>`.
pub(crate) fn app_path(name: &str) -> (r: String)
    ensures
        r@ == path_text(seq!["pub"@, "pubky.app"@, name@]),
{
    let mut s = String::new();
    push_segment(&mut s, "pub");
    push_segment(&mut s, "pubky.app");
    push_segment(&mut s, name);
    proof {
        let s0: Seq<Seq<char>> = seq![];
        lemma_path_push(s0, "pub"@);
        lemma_path_push(seq!["pub"@], "pubky.app"@);
        lemma_path_push(seq!["pub"@, "pubky.app"@], name@);
        assert(s0.push("pub"@) =~= seq!["pub"@]);
        assert(seq!["pub"@].push("pubky.app"@) =~= seq!["pub"@, "pubky.app"@]);
        assert(seq!["pub"@, "pubky.app"@].push(name@) =~= seq!["pub"@, "pubky.app"@, name@]);
    }
    s
}

/// The path `/pub/pubky.app/<kind>/<id>`.
pub(crate) fn app_id_path(kind: &str, id: &str) -> (r: String)
    ensures
        r@ == path_text(seq!["pub"@, "pubky.app"@, kind@, id@]),
{
    let mut s = app_path(kind);
    push_segment(&mut s, id);
    proof {
        lemma_path_push(seq!["pub"@, "pubky.app"@, kind@], id@);
        assert(seq!["pub"@, "pubky.app"@, kind@].push(id@) =~= seq![
            "pub"@,
            "pubky.app"@,
            kind@,
            id@,
        ]);
    }
    s
}

/// The storage path of a concrete resource; `None` for `Unknown`.
pub fn resource_path_of(r: &Resource) -> (p: Option<String>)
    ensures
        r@ is Unknown <==> p is None,
        p matches Some(s) ==> s@ == resource_path(r@),
{
    match r {
        Resource::User => Some(app_path("profile.json")),
        Resource::LastRead => Some(app_path("last_read")),
        Resource::Post(id) => Some(app_id_path("posts", id.as_str())),
        Resource::Follow(id) => Some(app_id_path("follows", id.as_ref())),
        Resource::Mute(id) => Some(app_id_path("mutes", id.as_ref())),
        Resource::Bookmark(id) => Some(app_id_path("bookmarks", id.as_str())),
        Resource::Tag(id) => Some(app_id_path("tags", id.as_str())),
        Resource::File(id) => Some(app_id_path("files", id.as_str())),
        Resource::Blob(id) => Some(app_id_path("blobs", id.as_str())),
        Resource::Feed(id) => Some(app_id_path("feeds", id.as_str())),
        Resource::Unknown => None,
    }
}

/// `pubky://<owner><path>`.
pub(crate) fn uri_of_path(owner: &str, path: &str) -> (r: String)
    ensures
        r@ == seq!['p', 'u', 'b', 'k', 'y', ':', '/', '/'] + owner@ + path@,
{
    proof {
        reveal_strlit("pubky://");
    }
    let mut s = "pubky://".to_string();
    s.append(owner);
    s.append(path);
    s
}

/// An owner together with the resource it addresses.
#[derive(Debug, Clone)]
pub struct ParsedUri {
    pub user_id: PubkyId,
    pub resource: Resource,
}

impl View for ParsedUri {
    type V = (Seq<char>, ResourceView);

    open spec fn view(&self) -> (Seq<char>, ResourceView) {
        (self.user_id@, self.resource@)
    }
}

impl PubkyId {
    /// The location of the owner's profile.
    pub fn to_uri(&self) -> (r: ParsedUri)
        ensures
            r@ == (self@, ResourceView::User),
    {
        ParsedUri { user_id: self.duplicate(), resource: Resource::User }
    }
}

/// Compares a path segment with a fixed name.
fn seg_is(seg: &String, name: &str) -> (r: bool)
    ensures
        r == (seg@ == name@),
{
    str_eq(seg.as_str(), name)
}

/// Reads the segments below the application root.
fn resource_from_segments(segs: &Vec<String>, start: usize) -> (r: Result<Resource, String>)
    requires
        start <= segs@.len(),
    ensures
        match r {
            Ok(res) => resource_of_segments(strs_view(segs@).subrange(start as int, segs@.len() as int)) == Some(res@),
            Err(e) => resource_of_segments(strs_view(segs@).subrange(start as int, segs@.len() as int)) is None
                && e@ == segments_error(strs_view(segs@).subrange(start as int, segs@.len() as int)),
        },
{
    let ghost rest = strs_view(segs@).subrange(start as int, segs@.len() as int);
    let n = segs.len() - start;
    assert(rest.len() == n);
    if n == 0 {
        return Ok(Resource::Unknown);
    }
    assert(rest[0] == segs@[start as int]@);
    if n == 1 {
        let seg = &segs[start];
        if seg_is(seg, "profile.json") {
            return Ok(Resource::User);
        } else if seg_is(seg, "last_read") {
            return Ok(Resource::LastRead);
        } else {
            return Ok(Resource::Unknown);
        }
    }
    assert(rest[1] == segs@[start + 1]@);
    let kind = &segs[start];
    let id = &segs[start + 1];
    if id.as_str().is_empty() {
        proof {
            vstd::utf8::encode_utf8_decode_utf8(id@);
        }
        return Ok(Resource::Unknown);
    }
    proof {
        if id@.len() == 0 {
            assert(vstd::utf8::encode_utf8(id@) =~= Seq::<u8>::empty());
        }
    }
    if seg_is(kind, "posts") {
        Ok(Resource::Post(id.clone()))
    } else if seg_is(kind, "follows") {
        match PubkyId::try_from(id.as_str()) {
            Ok(p) => Ok(Resource::Follow(p)),
            Err(e) => Err(e),
        }
    } else if seg_is(kind, "mutes") {
        match PubkyId::try_from(id.as_str()) {
            Ok(p) => Ok(Resource::Mute(p)),
            Err(e) => Err(e),
        }
    } else if seg_is(kind, "bookmarks") {
        Ok(Resource::Bookmark(id.clone()))
    } else if seg_is(kind, "tags") {
        Ok(Resource::Tag(id.clone()))
    } else if seg_is(kind, "files") {
        Ok(Resource::File(id.clone()))
    } else if seg_is(kind, "blobs") {
        Ok(Resource::Blob(id.clone()))
    } else if seg_is(kind, "feeds") {
        Ok(Resource::Feed(id.clone()))
    } else {
        Ok(Resource::Unknown)
    }
}

impl ParsedUri {
    /// Parses a `pubky://<owner>/pub/pubky.app/...` URI. A structure below
    /// the application root that names no known resource gives `Unknown`;
    /// a malformed URI, another scheme, an invalid owner, a path outside the
    /// application root, or an invalid followed or muted owner is an error.
    pub fn try_from(uri: &str) -> (r: Result<ParsedUri, String>)
        ensures
            match r {
                Ok(p) => parse_uri(uri@) == Some(p@),
                Err(e) => parse_uri(uri@) is None && e@ == parse_error(uri@),
            },
            forall|owner: Seq<char>, res: ResourceView|
                #![trigger resource_uri(owner, res)]
                uri@ == resource_uri(owner, res) && valid_pubky_id(owner) && plain_resource(res)
                    && owners_valid(res) && !(res is Unknown) ==> (r matches Ok(p) && p@ == (
                    owner,
                    res,
                )),
            forall|owner: Seq<char>, seg: Seq<char>|
                #![trigger empty_id_uri(owner, seg)]
                uri@ == empty_id_uri(owner, seg) && valid_pubky_id(owner) && is_plain_segment(seg)
                    ==> (r matches Ok(p) && p@ == (owner, ResourceView::Unknown)),
    {
        let parsed = parse_url(uri);
        proof {
            assert forall|owner: Seq<char>, res: ResourceView|
                uri@ == resource_uri(owner, res) && valid_pubky_id(owner) && plain_resource(res)
                    && owners_valid(res) && !(res is Unknown) implies parse_uri(uri@) == Some(
                (owner, res),
            ) by {
                lemma_uri_reads_back(owner, res);
                assert(pubky_url_text(owner, resource_segments(res)) == uri@);
            }
            assert forall|owner: Seq<char>, seg: Seq<char>|
                uri@ == empty_id_uri(owner, seg) && valid_pubky_id(owner) && is_plain_segment(
                    seg,
                ) implies parse_uri(uri@) == Some((owner, ResourceView::Unknown)) by {
                lemma_empty_id_reads_back(owner, seg);
                assert(pubky_url_text(owner, empty_id_segments(seg)) == uri@);
            }
        }
        let parts = match parsed {
            Some(p) => p,
            None => {
                return Err("Invalid URL".to_string());
            },
        };
        proof {
            reveal_strlit("pubky");
        }
        if !str_eq(parts.scheme.as_str(), "pubky") {
            let mut msg = "Invalid URI, must start with 'pubky://': ".to_string();
            msg.append(uri);
            return Err(msg);
        }
        let host = match &parts.host {
            Some(h) => h,
            None => {
                let mut msg = "Missing user ID in URI: ".to_string();
                msg.append(uri);
                return Err(msg);
            },
        };
        let user_id = match PubkyId::try_from(host.as_str()) {
            Ok(u) => u,
            Err(e) => {
                return Err(e);
            },
        };
        let segs = match &parts.segments {
            Some(s) => s,
            None => {
                let mut msg = "Cannot parse path segments from URI: ".to_string();
                msg.append(uri);
                return Err(msg);
            },
        };
        if segs.len() < 2 {
            let mut msg = "Not enough path segments in URI: ".to_string();
            msg.append(uri);
            return Err(msg);
        }
        assert(strs_view(segs@)[0] == segs@[0]@);
        assert(strs_view(segs@)[1] == segs@[1]@);
        if !seg_is(&segs[0], "pub") {
            let mut msg = "Expected public path '/pub/' but got '".to_string();
            msg.append(segs[0].as_str());
            msg.append("' in URI: ");
            msg.append(uri);
            return Err(msg);
        }
        if !seg_is(&segs[1], "pubky.app") {
            let mut msg = "Expected app path 'pubky.app/' but got '".to_string();
            msg.append(segs[1].as_str());
            msg.append("' in URI: ");
            msg.append(uri);
            return Err(msg);
        }
        let resource = match resource_from_segments(segs, 2) {
            Ok(r) => r,
            Err(e) => {
                return Err(e);
            },
        };
        Ok(ParsedUri { user_id, resource })
    }

    /// The URI of the location: `pubky://`, the owner, then the resource's
    /// path; `Unknown` has none. Where the identifier is plain text, the URI
    /// parses back to this location (see [`ParsedUri::try_from`]).
    pub fn try_to_uri_str(&self) -> (r: Result<String, String>)
        ensures
            self.resource@ is Unknown <==> r is Err,
            r matches Err(e) ==> e@ == "Cannot convert Unknown resource to URI"@,
            r matches Ok(s) ==> s@ == resource_uri(self.user_id@, self.resource@),
    {
        let path = match resource_path_of(&self.resource) {
            Some(p) => p,
            None => {
                return Err("Cannot convert Unknown resource to URI".to_string());
            },
        };
        let text = uri_of_path(self.user_id.as_ref(), path.as_str());
        assert(text@ == resource_uri(self.user_id@, self.resource@));
        Ok(text)
    }
}

/// The segments of a URI whose identifier after `seg` is empty.
pub open spec fn empty_id_segments(seg: Seq<char>) -> Seq<Seq<char>> {
    seq!["pub"@, "pubky.app"@, seg, Seq::empty()]
}

/// `pubky://<owner>/pub/pubky.app/<seg>/`: a URI with an empty identifier.
pub open spec fn empty_id_uri(owner: Seq<char>, seg: Seq<char>) -> Seq<char> {
    pubky_url_text(owner, empty_id_segments(seg))
}

proof fn lemma_empty_id_reads_back(owner: Seq<char>, seg: Seq<char>)
    requires
        valid_pubky_id(owner),
        is_plain_segment(seg),
    ensures
        crate::urls::simple_pubky_parts(owner, empty_id_segments(seg)),
        resource_of_segments(empty_id_segments(seg).subrange(2, 4)) == Some(ResourceView::Unknown),
        empty_id_segments(seg)[0] == "pub"@,
        empty_id_segments(seg)[1] == "pubky.app"@,
        "pubky"@ == seq!['p', 'u', 'b', 'k', 'y'],
{
    reveal_strlit("pubky");
    reveal_strlit("pub");
    reveal_strlit("pubky.app");
    assert forall|i: int| 0 <= i < owner.len() implies ('a' <= #[trigger] owner[i] && owner[i]
        <= 'z') || ('0' <= owner[i] && owner[i] <= '9') by {
        assert(crate::codec::is_z32_char(owner[i]));
    }
    let segs = empty_id_segments(seg);
    assert(segs[0] =~= seq!['p', 'u', 'b']);
    assert(segs[1] =~= seq!['p', 'u', 'b', 'k', 'y', '.', 'a', 'p', 'p']);
    assert(is_plain_segment(segs[0]));
    assert(is_plain_segment(segs[1]));
    assert(is_plain_segment(segs[3]));
    assert forall|i: int| 0 <= i < segs.len() implies is_plain_segment(#[trigger] segs[i]) by {}
    assert(segs.subrange(2, 4) =~= seq![seg, Seq::<char>::empty()]);
}

proof fn lemma_uri_reads_back(owner: Seq<char>, r: ResourceView)
    requires
        valid_pubky_id(owner),
        plain_resource(r),
        owners_valid(r),
        !(r is Unknown),
    ensures
        is_plain_host(owner),
        resource_segments(r).len() > 0,
        forall|i: int|
            0 <= i < resource_segments(r).len() ==> is_plain_segment(
                #[trigger] resource_segments(r)[i],
            ),
        resource_of_segments(resource_segments(r).subrange(2, resource_segments(r).len() as int))
            == Some(r),
        resource_segments(r)[0] == "pub"@,
        resource_segments(r)[1] == "pubky.app"@,
        resource_segments(r).len() >= 2,
        "pubky"@ == seq!['p', 'u', 'b', 'k', 'y'],
{
    reveal_strlit("pubky");
    reveal_strlit("pub");
    reveal_strlit("pubky.app");
    reveal_strlit("profile.json");
    reveal_strlit("last_read");
    reveal_strlit("posts");
    reveal_strlit("follows");
    reveal_strlit("mutes");
    reveal_strlit("bookmarks");
    reveal_strlit("tags");
    reveal_strlit("files");
    reveal_strlit("blobs");
    reveal_strlit("feeds");
    assert forall|i: int| 0 <= i < owner.len() implies ('a' <= #[trigger] owner[i] && owner[i]
        <= 'z') || ('0' <= owner[i] && owner[i] <= '9') by {
        assert(crate::codec::is_z32_char(owner[i]));
    }
    assert("posts"@[0] == 'p' && "mutes"@[0] == 'm' && "files"@[0] == 'f' && "blobs"@[0] == 'b'
        && "feeds"@[0] == 'f' && "files"@[1] == 'i' && "feeds"@[1] == 'e');
    assert("profile.json"@.len() == 12 && "last_read"@.len() == 9);
    let segs = resource_segments(r);
    let rest = segs.subrange(2, segs.len() as int);
    assert(segs[0] =~= seq!['p', 'u', 'b']);
    assert(segs[1] =~= seq!['p', 'u', 'b', 'k', 'y', '.', 'a', 'p', 'p']);
    assert(segs[1].len() == 9);
    assert(is_plain_segment(segs[0]));
    assert(is_plain_segment(segs[1]));
    assert(kind_segment(r).len() > 2);
    assert(is_plain_segment(segs[2]));
    match resource_id(r) {
        Some(id) => {
            assert(rest =~= seq![kind_segment(r), id]);
        },
        None => {
            assert(rest =~= seq![kind_segment(r)]);
        },
    }
    assert forall|i: int| 0 <= i < segs.len() implies is_plain_segment(#[trigger] segs[i]) by {
        if i == 3 {
            assert(segs[3] == resource_id(r)->0);
        }
    }
}

} // verus!
