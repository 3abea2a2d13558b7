//! Posts, stored at `/pub/pubky.app/posts/<time-derived id>`.
use crate::common::{normalize_url, opt_str, opt_view, url_norm};
use crate::ids::{timestamp_id_error, timestamp_id_valid, validate_timestamp_id_at};
use crate::text::{char_count, decimal, decimal_text, str_eq, trim, trim_str};
use crate::urls::{parse_url, url_parse_of};
use vstd::prelude::*;

verus! {

pub const MAX_SHORT_CONTENT_LENGTH: usize = 2000;

pub const MAX_LONG_CONTENT_LENGTH: usize = 50000;

pub const MAX_ATTACHMENTS: usize = 3;

pub const MAX_ATTACHMENT_URL_LENGTH: usize = 200;

/// What a post holds, which decides how it is shown.
#[derive(Debug, Clone, Copy, PartialEq, Eq)]
pub enum PubkyAppPostKind {
    Short,
    Long,
    Image,
    Video,
    Link,
    File,
}

/// The wire name of a post kind.
pub open spec fn kind_name(k: PubkyAppPostKind) -> Seq<char> {
    match k {
        PubkyAppPostKind::Short => "short"@,
        PubkyAppPostKind::Long => "long"@,
        PubkyAppPostKind::Image => "image"@,
        PubkyAppPostKind::Video => "video"@,
        PubkyAppPostKind::Link => "link"@,
        PubkyAppPostKind::File => "file"@,
    }
}

/// The kind whose wire name is `s`.
pub open spec fn kind_of_name(s: Seq<char>) -> Option<PubkyAppPostKind> {
    if s == "short"@ {
        Some(PubkyAppPostKind::Short)
    } else if s == "long"@ {
        Some(PubkyAppPostKind::Long)
    } else if s == "image"@ {
        Some(PubkyAppPostKind::Image)
    } else if s == "video"@ {
        Some(PubkyAppPostKind::Video)
    } else if s == "link"@ {
        Some(PubkyAppPostKind::Link)
    } else if s == "file"@ {
        Some(PubkyAppPostKind::File)
    } else {
        None
    }
}

impl PubkyAppPostKind {
    /// The kind named `s`, in lower case.
    pub fn from_str(s: &str) -> (r: Result<PubkyAppPostKind, String>)
        ensures
            match r {
                Ok(k) => kind_of_name(s@) == Some(k),
                Err(_) => kind_of_name(s@) is None,
            },
    {
        if str_eq(s, "short") {
            Ok(PubkyAppPostKind::Short)
        } else if str_eq(s, "long") {
            Ok(PubkyAppPostKind::Long)
        } else if str_eq(s, "image") {
            Ok(PubkyAppPostKind::Image)
        } else if str_eq(s, "video") {
            Ok(PubkyAppPostKind::Video)
        } else if str_eq(s, "link") {
            Ok(PubkyAppPostKind::Link)
        } else if str_eq(s, "file") {
            Ok(PubkyAppPostKind::File)
        } else {
            let mut msg = "Invalid content kind: ".to_string();
            msg.append(s);
            Err(msg)
        }
    }

    /// The kind's wire name.
    pub fn to_string(&self) -> (r: String)
        ensures
            r@ == kind_name(*self),
    {
        match self {
            PubkyAppPostKind::Short => "short".to_string(),
            PubkyAppPostKind::Long => "long".to_string(),
            PubkyAppPostKind::Image => "image".to_string(),
            PubkyAppPostKind::Video => "video".to_string(),
            PubkyAppPostKind::Link => "link".to_string(),
            PubkyAppPostKind::File => "file".to_string(),
        }
    }
}

/// Content embedded in a post.
#[derive(Debug, Clone, PartialEq, Eq)]
pub struct PubkyAppPostEmbed {
    pub kind: PubkyAppPostKind,
    pub uri: String,
}

/// The model of a [`PubkyAppPostEmbed`], its texts as character sequences.
pub struct EmbedView {
    pub kind: PubkyAppPostKind,
    pub uri: Seq<char>,
}

impl View for PubkyAppPostEmbed {
    type V = EmbedView;

    open spec fn view(&self) -> EmbedView {
        EmbedView { kind: self.kind, uri: self.uri@ }
    }
}

impl PubkyAppPostEmbed {
    pub fn new(uri: String, kind: PubkyAppPostKind) -> (r: Self)
        ensures
            r@ == (EmbedView { kind, uri: uri@ }),
    {
        PubkyAppPostEmbed { kind, uri }
    }
}

/// A post.
#[derive(Debug, Clone, PartialEq, Eq)]
pub struct PubkyAppPost {
    pub content: String,
    pub kind: PubkyAppPostKind,
    pub parent: Option<String>,
    pub embed: Option<PubkyAppPostEmbed>,
    pub attachments: Option<Vec<String>>,
}

/// The model of a [`PubkyAppPost`], its texts as character sequences.
pub struct PostView {
    pub content: Seq<char>,
    pub kind: PubkyAppPostKind,
    pub parent: Option<Seq<char>>,
    pub embed: Option<EmbedView>,
    pub attachments: Option<Seq<Seq<char>>>,
}

impl View for PubkyAppPost {
    type V = PostView;

    open spec fn view(&self) -> PostView {
        PostView {
            content: self.content@,
            kind: self.kind,
            parent: opt_view(self.parent),
            embed: match self.embed {
                Some(e) => Some(e@),
                None => None,
            },
            attachments: match self.attachments {
                Some(v) => Some(crate::urls::strs_view(v@)),
                None => None,
            },
        }
    }
}

/// The attachments that parse as URLs, in normal form.
pub open spec fn sanitize_attachments(v: Seq<Seq<char>>) -> Seq<Seq<char>>
    decreases v.len(),
{
    if v.len() == 0 {
        Seq::empty()
    } else {
        let prev = sanitize_attachments(v.drop_last());
        match url_norm(trim(v.last())) {
            Some(u) => prev.push(u),
            None => prev,
        }
    }
}

/// The sanitized post: content trimmed; parent, embed and attachments in
/// normal form, each dropped where it does not parse; an attachment list
/// left empty dropped.
pub open spec fn sanitize_post(p: PostView) -> PostView {
    PostView {
        content: trim(p.content),
        kind: p.kind,
        parent: match p.parent {
            Some(u) => url_norm(trim(u)),
            None => None,
        },
        embed: match p.embed {
            Some(e) => match url_norm(trim(e.uri)) {
                Some(u) => Some(EmbedView { kind: e.kind, uri: u }),
                None => None,
            },
            None => None,
        },
        attachments: match p.attachments {
            Some(v) => if sanitize_attachments(v).len() == 0 {
                None
            } else {
                Some(sanitize_attachments(v))
            },
            None => None,
        },
    }
}

/// The most characters a post of kind `k` may hold.
pub open spec fn max_content(k: PubkyAppPostKind) -> nat {
    if k is Long {
        MAX_LONG_CONTENT_LENGTH as nat
    } else {
        MAX_SHORT_CONTENT_LENGTH as nat
    }
}

/// The error for content longer than kind `k` allows.
pub open spec fn content_length_error(k: PubkyAppPostKind) -> Seq<char> {
    match k {
        PubkyAppPostKind::Short =>
            "Validation Error: Post content exceeds maximum length for Short kind (max: 2000 characters)"@,
        PubkyAppPostKind::Long =>
            "Validation Error: Post content exceeds maximum length for Long kind (max: 50000 characters)"@,
        _ =>
            "Validation Error: Post content exceeds maximum length for Image/Video/Link/File kind (max: 2000 characters)"@,
    }
}

/// A scheme that attachments may use.
pub open spec fn allowed_attachment_scheme(s: Seq<char>) -> bool {
    s == "pubky"@ || s == "http"@ || s == "https"@
}

/// The rules an attachment URL must meet.
pub open spec fn attachment_valid(u: Seq<char>) -> bool {
    &&& trim(u).len() > 0
    &&& u.len() <= MAX_ATTACHMENT_URL_LENGTH
    &&& match url_parse_of(u) {
        Some((scheme, _, _, _)) => allowed_attachment_scheme(scheme),
        None => false,
    }
}

/// The rules a post must meet, its identifier checked against the clock
/// reading `now`.
pub open spec fn post_valid(p: PostView, id: Option<Seq<char>>, now: int) -> bool {
    &&& (id matches Some(i) ==> timestamp_id_valid(i, now))
    &&& !(trim(p.content).len() == 0 && p.embed is None && p.attachments is None)
    &&& p.content != "[DELETED]"@
    &&& p.content.len() <= max_content(p.kind)
    &&& (p.attachments matches Some(v) ==> v.len() <= MAX_ATTACHMENTS && forall|k: int|
        0 <= k < v.len() ==> attachment_valid(#[trigger] v[k]))
}

fn sanitize_attachments_exec(v: &Vec<String>) -> (r: Vec<String>)
    ensures
        crate::urls::strs_view(r@) == sanitize_attachments(crate::urls::strs_view(v@)),
{
    let ghost sv = crate::urls::strs_view(v@);
    let mut out: Vec<String> = Vec::new();
    let mut i: usize = 0;
    while i < v.len()
        invariant
            0 <= i <= v@.len(),
            sv == crate::urls::strs_view(v@),
            crate::urls::strs_view(out@) == sanitize_attachments(sv.subrange(0, i as int)),
        decreases v.len() - i,
    {
        proof {
            assert(sv.subrange(0, i + 1).drop_last() =~= sv.subrange(0, i as int));
            assert(sv.subrange(0, i + 1).last() == v@[i as int]@);
        }
        match normalize_url(v[i].as_str()) {
            Some(u) => {
                out.push(u);
                proof {
                    assert(crate::urls::strs_view(out@) =~= sanitize_attachments(
                        sv.subrange(0, i as int),
                    ).push(out@.last()@));
                }
            },
            None => {},
        }
        i = i + 1;
    }
    proof {
        assert(sv.subrange(0, v@.len() as int) =~= sv);
    }
    out
}

/// The error that checking the attachment URL `u` at position `index`
/// reports.
pub open spec fn attachment_error(u: Seq<char>, index: nat) -> Option<Seq<char>> {
    let at = "Validation Error: Attachment URL at index "@ + decimal(index);
    if trim(u).len() == 0 {
        Some(at + " cannot be empty"@)
    } else if u.len() > MAX_ATTACHMENT_URL_LENGTH {
        Some(at + " exceeds maximum length (max: 200 characters)"@)
    } else {
        match url_parse_of(u) {
            Some((scheme, _, _, _)) => if allowed_attachment_scheme(scheme) {
                None
            } else {
                Some(
                    at
                        + " must use one of the allowed protocols: pubky://, http://, https://"@,
                )
            },
            None => Some("Validation Error: Invalid attachment URL format at index "@ + decimal(
                index,
            )),
        }
    }
}

/// The error of the first attachment that breaks a rule.
pub open spec fn first_attachment_error(v: Seq<Seq<char>>) -> Option<Seq<char>>
    decreases v.len(),
{
    if v.len() == 0 {
        None
    } else {
        match first_attachment_error(v.drop_last()) {
            Some(e) => Some(e),
            None => attachment_error(v.last(), (v.len() - 1) as nat),
        }
    }
}

proof fn lemma_first_attachment_error_prefix(v: Seq<Seq<char>>, n: int)
    requires
        0 <= n <= v.len(),
        first_attachment_error(v.subrange(0, n)) is Some,
    ensures
        first_attachment_error(v) == first_attachment_error(v.subrange(0, n)),
    decreases v.len() - n,
{
    if n < v.len() {
        assert(v.subrange(0, n + 1).drop_last() =~= v.subrange(0, n));
        lemma_first_attachment_error_prefix(v, n + 1);
    } else {
        assert(v.subrange(0, n) =~= v);
    }
}

/// The error that checking a post reports, its identifier checked against
/// the clock reading `now`: the first rule it breaks.
pub open spec fn post_error(p: PostView, id: Option<Seq<char>>, now: int) -> Option<Seq<char>> {
    if id is Some && timestamp_id_error(id->0, now) is Some {
        timestamp_id_error(id->0, now)
    } else if trim(p.content).len() == 0 && p.embed is None && p.attachments is None {
        Some("Validation Error: Post must have content, an embed, or attachments"@)
    } else if p.content == "[DELETED]"@ {
        Some("Validation Error: Content cannot be the reserved keyword '[DELETED]'"@)
    } else if p.content.len() > max_content(p.kind) {
        Some(content_length_error(p.kind))
    } else if p.attachments matches Some(v) && v.len() > MAX_ATTACHMENTS {
        Some("Validation Error: Too many attachments (max: 3)"@)
    } else if p.attachments matches Some(v) && first_attachment_error(v) is Some {
        first_attachment_error(p.attachments->0)
    } else {
        None
    }
}

/// Checks the attachment URL `u` at position `index`.
fn check_attachment(u: &String, index: usize) -> (r: Result<(), String>)
    ensures
        r is Ok <==> attachment_valid(u@),
        match r {
            Ok(()) => attachment_error(u@, index as nat) is None,
            Err(e) => attachment_error(u@, index as nat) == Some(e@),
        },
{
    let at = {
        let mut m = "Validation Error: Attachment URL at index ".to_string();
        m.append(decimal_text(index).as_str());
        m
    };
    if char_count(trim_str(u.as_str()).as_str()) == 0 {
        let mut msg = at;
        msg.append(" cannot be empty");
        return Err(msg);
    }
    if char_count(u.as_str()) > MAX_ATTACHMENT_URL_LENGTH {
        let mut msg = at;
        msg.append(" exceeds maximum length (max: 200 characters)");
        return Err(msg);
    }
    match parse_url(u.as_str()) {
        Some(p) => {
            if str_eq(p.scheme.as_str(), "pubky") || str_eq(p.scheme.as_str(), "http") || str_eq(
                p.scheme.as_str(),
                "https",
            ) {
                Ok(())
            } else {
                let mut msg = at;
                msg.append(" must use one of the allowed protocols: pubky://, http://, https://");
                Err(msg)
            }
        },
        None => {
            let mut msg = "Validation Error: Invalid attachment URL format at index ".to_string();
            msg.append(decimal_text(index).as_str());
            Err(msg)
        },
    }
}

impl PubkyAppPost {
    /// A sanitized post.
    pub fn new(
        content: String,
        kind: PubkyAppPostKind,
        parent: Option<String>,
        embed: Option<PubkyAppPostEmbed>,
        attachments: Option<Vec<String>>,
    ) -> (r: Self)
        ensures
            r@ == sanitize_post(PubkyAppPost { content, kind, parent, embed, attachments }@),
    {
        PubkyAppPost { content, kind, parent, embed, attachments }.sanitize()
    }

    /// Trims the content and normalises the URLs, dropping those that do
    /// not parse.
    pub fn sanitize(self) -> (r: Self)
        ensures
            r@ == sanitize_post(self@),
    {
        let content = trim_str(self.content.as_str());
        let parent = match &self.parent {
            Some(u) => normalize_url(u.as_str()),
            None => None,
        };
        let embed = match &self.embed {
            Some(e) => match normalize_url(e.uri.as_str()) {
                Some(u) => Some(PubkyAppPostEmbed { kind: e.kind, uri: u }),
                None => None,
            },
            None => None,
        };
        let attachments = match &self.attachments {
            Some(v) => {
                let s = sanitize_attachments_exec(v);
                if s.len() == 0 {
                    None
                } else {
                    Some(s)
                }
            },
            None => None,
        };
        PubkyAppPost { content, kind: self.kind, parent, embed, attachments }
    }

    /// Checks the post's rules, its time-derived identifier against the
    /// clock reading `now`.
    pub fn validate_at(&self, id: Option<&str>, now: i64) -> (r: Result<(), String>)
        ensures
            r is Ok <==> post_valid(self@, opt_str(id), now as int),
            r matches Err(e) ==> post_error(self@, opt_str(id), now as int) == Some(e@),
    {
        if let Some(i) = id {
            match validate_timestamp_id_at(i, now) {
                Ok(()) => {},
                Err(e) => {
                    return Err(e);
                },
            }
        }
        if char_count(trim_str(self.content.as_str()).as_str()) == 0 && self.embed.is_none()
            && self.attachments.is_none() {
            return Err(
                "Validation Error: Post must have content, an embed, or attachments".to_string(),
            );
        }
        if str_eq(self.content.as_str(), "[DELETED]") {
            return Err(
                "Validation Error: Content cannot be the reserved keyword '[DELETED]'".to_string(),
            );
        }
        let max_length = match self.kind {
            PubkyAppPostKind::Long => MAX_LONG_CONTENT_LENGTH,
            _ => MAX_SHORT_CONTENT_LENGTH,
        };
        if char_count(self.content.as_str()) > max_length {
            let msg = match self.kind {
                PubkyAppPostKind::Short =>
                    "Validation Error: Post content exceeds maximum length for Short kind (max: 2000 characters)",
                PubkyAppPostKind::Long =>
                    "Validation Error: Post content exceeds maximum length for Long kind (max: 50000 characters)",
                _ =>
                    "Validation Error: Post content exceeds maximum length for Image/Video/Link/File kind (max: 2000 characters)",
            };
            return Err(msg.to_string());
        }
        if let Some(attachments) = &self.attachments {
            if attachments.len() > MAX_ATTACHMENTS {
                return Err("Validation Error: Too many attachments (max: 3)".to_string());
            }
            let mut i: usize = 0;
            while i < attachments.len()
                invariant
                    0 <= i <= attachments@.len(),
                    self.attachments == Some(*attachments),
                    forall|k: int|
                        0 <= k < i ==> attachment_valid(
                            #[trigger] crate::urls::strs_view(attachments@)[k],
                        ),
                    first_attachment_error(crate::urls::strs_view(attachments@).subrange(0, i as int))
                        is None,
                    attachments@.len() <= MAX_ATTACHMENTS,
                    id matches Some(x) ==> timestamp_id_error(x@, now as int) is None,
                    !(trim(self.content@).len() == 0 && self.embed is None && self.attachments is None),
                    self.content@ != "[DELETED]"@,
                    self.content@.len() <= max_content(self.kind),
                decreases attachments.len() - i,
            {
                let ghost sv = crate::urls::strs_view(attachments@);
                assert(sv[i as int] == attachments@[i as int]@);
                assert(sv.subrange(0, i + 1).drop_last() =~= sv.subrange(0, i as int));
                match check_attachment(&attachments[i], i) {
                    Ok(()) => {},
                    Err(e) => {
                        proof {
                            lemma_first_attachment_error_prefix(sv, i + 1);
                        }
                        return Err(e);
                    },
                }
                i = i + 1;
            }
            assert(crate::urls::strs_view(attachments@).subrange(0, attachments@.len() as int)
                =~= crate::urls::strs_view(attachments@));
        }
        Ok(())
    }

    /// Checks the post's rules, its identifier against the current time.
    pub fn validate(&self, id: Option<&str>) -> (r: Result<(), String>)
        ensures
            exists|now: int|
                #![trigger post_valid(self@, opt_str(id), now)]
                (r is Ok) == post_valid(self@, opt_str(id), now) && (r matches Err(e) ==> post_error(
                    self@,
                    opt_str(id),
                    now,
                ) == Some(e@)),
    {
        let now = crate::codec::timestamp();
        self.validate_at(id, now)
    }

    /// A time-derived identifier for a new post.
    pub fn create_id(&self) -> (r: String)
        ensures
            r@.len() == 13,
            exists|t: i64| #[trigger] crate::ids::timestamp_id_of(t) == r@,
    {
        crate::ids::create_timestamp_id()
    }

    /// The path of the post with identifier `id`.
    pub fn create_path(id: &str) -> (r: String)
        ensures
            r@ == crate::uri::resource_path(crate::uri::ResourceView::Post(id@)),
    {
        crate::uri::app_id_path("posts", id)
    }
}

} // verus!
