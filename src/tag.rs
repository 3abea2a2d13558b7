//! Tags and bookmarks, whose identifiers are content hashes.
use crate::common::{is_url, opt_str, url_norm, url_ok};
use crate::ids::{hash_id, hash_id_error, hash_id_of, validate_hash_id};
use crate::text::{any_ws, chars_of, has_ws, lower_of, lowercase, trim, trim_str};
use crate::urls::parse_url;
use vstd::prelude::*;

verus! {

pub const MAX_TAG_LABEL_LENGTH: usize = 20;

pub const MIN_TAG_LABEL_LENGTH: usize = 1;

/// A character that no tag label may hold, besides whitespace.
pub open spec fn is_invalid_tag_char(c: char) -> bool {
    c == ',' || c == ':'
}

/// The rules a tag label must meet: 1 to 20 characters, no whitespace, no
/// comma and no colon.
pub open spec fn tag_label_valid(s: Seq<char>) -> bool {
    &&& MIN_TAG_LABEL_LENGTH <= s.len() <= MAX_TAG_LABEL_LENGTH
    &&& !has_ws(s)
    &&& forall|i: int| 0 <= i < s.len() ==> !is_invalid_tag_char(#[trigger] s[i])
}

/// The error that checking a tag label reports: the first rule it breaks.
pub open spec fn tag_label_error(s: Seq<char>) -> Option<Seq<char>> {
    if s.len() > MAX_TAG_LABEL_LENGTH {
        Some("Validation Error: Tag '"@ + s + "' exceeds maximum length of 20 characters"@)
    } else if s.len() < MIN_TAG_LABEL_LENGTH {
        Some("Validation Error: Tag '"@ + s + "' is shorter than minimum length of 1 character"@)
    } else if has_ws(s) {
        Some("Validation Error: Tag '"@ + s + "' contains whitespace characters"@)
    } else if exists|i: int| 0 <= i < s.len() && is_invalid_tag_char(#[trigger] s[i]) {
        Some("Validation Error: Tag '"@ + s + "' contains invalid character"@)
    } else {
        None
    }
}

/// The error that an invalid URI reports.
pub open spec fn uri_format_error(uri: Seq<char>) -> Option<Seq<char>> {
    if url_ok(uri) {
        None
    } else {
        Some("Validation Error: Invalid URI format: "@ + uri)
    }
}

/// A label trimmed, then in lower case.
pub open spec fn sanitize_label(s: Seq<char>) -> Seq<char> {
    lower_of(trim(s))
}

/// Trims a tag label and puts it in lower case.
pub fn sanitize_tag_label(tag: &str) -> (r: String)
    ensures
        r@ == sanitize_label(tag@),
{
    let t = trim_str(tag);
    lowercase(t.as_str())
}

/// Checks a tag label's rules.
pub fn validate_tag_label(tag: &str) -> (r: Result<(), String>)
    ensures
        r is Ok <==> tag_label_valid(tag@),
        r matches Err(e) ==> tag_label_error(tag@) == Some(e@),
{
    let chars = chars_of(tag);
    if chars.len() > MAX_TAG_LABEL_LENGTH {
        let mut msg = "Validation Error: Tag '".to_string();
        msg.append(tag);
        msg.append("' exceeds maximum length of 20 characters");
        return Err(msg);
    }
    if chars.len() < MIN_TAG_LABEL_LENGTH {
        let mut msg = "Validation Error: Tag '".to_string();
        msg.append(tag);
        msg.append("' is shorter than minimum length of 1 character");
        return Err(msg);
    }
    if any_ws(chars.as_slice()) {
        let mut msg = "Validation Error: Tag '".to_string();
        msg.append(tag);
        msg.append("' contains whitespace characters");
        return Err(msg);
    }
    let mut i: usize = 0;
    while i < chars.len()
        invariant
            0 <= i <= chars@.len(),
            chars@ == tag@,
            forall|k: int| 0 <= k < i ==> !is_invalid_tag_char(#[trigger] chars@[k]),
            !has_ws(tag@),
            MIN_TAG_LABEL_LENGTH <= tag@.len() <= MAX_TAG_LABEL_LENGTH,
        decreases chars.len() - i,
    {
        if chars[i] == ',' || chars[i] == ':' {
            assert(is_invalid_tag_char(tag@[i as int]));
            let mut msg = "Validation Error: Tag '".to_string();
            msg.append(tag);
            msg.append("' contains invalid character");
            assert(!has_ws(tag@));
            assert(exists|j: int| 0 <= j < tag@.len() && is_invalid_tag_char(#[trigger] tag@[j]));
            return Err(msg);
        }
        i = i + 1;
    }
    Ok(())
}

/// A tag that a user puts on a resource.
#[derive(Debug, Clone, PartialEq, Eq)]
pub struct PubkyAppTag {
    pub uri: String,
    pub label: String,
    pub created_at: i64,
}

/// The model of a [`PubkyAppTag`], its texts as character sequences.
pub struct TagView {
    pub uri: Seq<char>,
    pub label: Seq<char>,
    pub created_at: i64,
}

impl View for PubkyAppTag {
    type V = TagView;

    open spec fn view(&self) -> TagView {
        TagView { uri: self.uri@, label: self.label@, created_at: self.created_at }
    }
}

/// The sanitized tag: label trimmed and in lower case; URI in normal form,
/// or only trimmed where it does not parse.
pub open spec fn sanitize_tag(t: TagView) -> TagView {
    TagView {
        uri: match url_norm(t.uri) {
            Some(u) => u,
            None => trim(t.uri),
        },
        label: sanitize_label(t.label),
        created_at: t.created_at,
    }
}

/// The text a tag's identifier is the hash of: `<uri>:<label>`.
pub open spec fn tag_id_data(t: TagView) -> Seq<char> {
    t.uri + seq![':'] + t.label
}

/// The identifier of a tag.
pub open spec fn tag_id(t: TagView) -> Seq<char> {
    hash_id_of(vstd::utf8::encode_utf8(tag_id_data(t)))
}

/// The error that checking a tag reports: the first rule it breaks.
pub open spec fn tag_error(t: TagView, id: Option<Seq<char>>) -> Option<Seq<char>> {
    if id is Some && hash_id_error(tag_id(t), id->0) is Some {
        hash_id_error(tag_id(t), id->0)
    } else if tag_label_error(t.label) is Some {
        tag_label_error(t.label)
    } else {
        uri_format_error(t.uri)
    }
}

/// The rules a tag must meet.
pub open spec fn tag_valid(t: TagView, id: Option<Seq<char>>) -> bool {
    &&& (id matches Some(i) ==> i == tag_id(t))
    &&& tag_label_valid(t.label)
    &&& url_ok(t.uri)
}

impl PubkyAppTag {
    /// A sanitized tag created now.
    pub fn new(uri: String, label: String) -> (r: Self)
        ensures
            r@ == sanitize_tag(TagView { uri: uri@, label: label@, created_at: r.created_at }),
    {
        let created_at = crate::codec::timestamp();
        PubkyAppTag { uri, label, created_at }.sanitize()
    }

    /// Puts the label in lower case and the URI in normal form.
    pub fn sanitize(self) -> (r: Self)
        ensures
            r@ == sanitize_tag(self@),
    {
        let label = sanitize_tag_label(self.label.as_str());
        let uri = match parse_url(self.uri.as_str()) {
            Some(p) => p.text,
            None => trim_str(self.uri.as_str()),
        };
        PubkyAppTag { uri, label, created_at: self.created_at }
    }

    /// `<uri>:<label>`, the text the identifier is the hash of.
    pub fn get_id_data(&self) -> (r: String)
        ensures
            r@ == tag_id_data(self@),
    {
        proof {
            reveal_strlit(":");
        }
        let mut s = self.uri.clone();
        s.append(":");
        s.append(self.label.as_str());
        s
    }

    /// The tag's identifier.
    pub fn create_id(&self) -> (r: String)
        ensures
            r@ == tag_id(self@),
            r@.len() == 26,
    {
        let data = self.get_id_data();
        hash_id(data.as_str().as_bytes())
    }

    /// Checks the identifier, the label and the URI.
    pub fn validate(&self, id: Option<&str>) -> (r: Result<(), String>)
        ensures
            r is Ok <==> tag_valid(self@, opt_str(id)),
            r matches Err(e) ==> tag_error(self@, opt_str(id)) == Some(e@),
    {
        if let Some(i) = id {
            let data = self.get_id_data();
            match validate_hash_id(data.as_str().as_bytes(), i) {
                Ok(()) => {},
                Err(e) => {
                    return Err(e);
                },
            }
        }
        match validate_tag_label(self.label.as_str()) {
            Ok(()) => {},
            Err(e) => {
                return Err(e);
            },
        }
        if !is_url(self.uri.as_str()) {
            let mut msg = "Validation Error: Invalid URI format: ".to_string();
            msg.append(self.uri.as_str());
            return Err(msg);
        }
        Ok(())
    }

    /// The tagged URI.
    pub fn uri(&self) -> (r: String)
        ensures
            r@ == self.uri@,
    {
        self.uri.clone()
    }

    /// The label.
    pub fn label(&self) -> (r: String)
        ensures
            r@ == self.label@,
    {
        self.label.clone()
    }

    /// The path of the tag with identifier `id`.
    pub fn create_path(id: &str) -> (r: String)
        ensures
            r@ == crate::uri::resource_path(crate::uri::ResourceView::Tag(id@)),
    {
        crate::uri::app_id_path("tags", id)
    }
}

/// A bookmark of a resource.
#[derive(Debug, Clone, PartialEq, Eq)]
pub struct PubkyAppBookmark {
    pub uri: String,
    pub created_at: i64,
}

/// The model of a [`PubkyAppBookmark`], its texts as character sequences.
pub struct BookmarkView {
    pub uri: Seq<char>,
    pub created_at: i64,
}

impl View for PubkyAppBookmark {
    type V = BookmarkView;

    open spec fn view(&self) -> BookmarkView {
        BookmarkView { uri: self.uri@, created_at: self.created_at }
    }
}

/// The identifier of a bookmark: the hash of the bookmarked URI.
pub open spec fn bookmark_id(b: BookmarkView) -> Seq<char> {
    hash_id_of(vstd::utf8::encode_utf8(b.uri))
}

/// The error that checking a bookmark reports: the first rule it breaks.
pub open spec fn bookmark_error(b: BookmarkView, id: Option<Seq<char>>) -> Option<Seq<char>> {
    if id is Some && hash_id_error(bookmark_id(b), id->0) is Some {
        hash_id_error(bookmark_id(b), id->0)
    } else {
        uri_format_error(b.uri)
    }
}

/// The rules a bookmark must meet.
pub open spec fn bookmark_valid(b: BookmarkView, id: Option<Seq<char>>) -> bool {
    &&& (id matches Some(i) ==> i == bookmark_id(b))
    &&& url_ok(b.uri)
}

impl PubkyAppBookmark {
    /// A bookmark of `uri`, created now.
    pub fn new(uri: String) -> (r: Self)
        ensures
            r.uri@ == uri@,
    {
        let created_at = crate::codec::timestamp();
        PubkyAppBookmark { uri, created_at }.sanitize()
    }

    /// A bookmark needs no normalisation.
    pub fn sanitize(self) -> (r: Self)
        ensures
            r@ == self@,
    {
        self
    }

    /// The bookmarked URI, which the identifier is the hash of.
    pub fn get_id_data(&self) -> (r: String)
        ensures
            r@ == self.uri@,
    {
        self.uri.clone()
    }

    /// The bookmark's identifier.
    pub fn create_id(&self) -> (r: String)
        ensures
            r@ == bookmark_id(self@),
            r@.len() == 26,
    {
        hash_id(self.uri.as_str().as_bytes())
    }

    /// Checks the identifier and the URI.
    pub fn validate(&self, id: Option<&str>) -> (r: Result<(), String>)
        ensures
            r is Ok <==> bookmark_valid(self@, opt_str(id)),
            r matches Err(e) ==> bookmark_error(self@, opt_str(id)) == Some(e@),
    {
        if let Some(i) = id {
            match validate_hash_id(self.uri.as_str().as_bytes(), i) {
                Ok(()) => {},
                Err(e) => {
                    return Err(e);
                },
            }
        }
        if !is_url(self.uri.as_str()) {
            let mut msg = "Validation Error: Invalid URI format: ".to_string();
            msg.append(self.uri.as_str());
            return Err(msg);
        }
        Ok(())
    }

    /// The bookmarked URI.
    pub fn uri(&self) -> (r: String)
        ensures
            r@ == self.uri@,
    {
        self.uri.clone()
    }

    /// The path of the bookmark with identifier `id`.
    pub fn create_path(id: &str) -> (r: String)
        ensures
            r@ == crate::uri::resource_path(crate::uri::ResourceView::Bookmark(id@)),
    {
        crate::uri::app_id_path("bookmarks", id)
    }
}

} // verus!
