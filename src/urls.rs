//! Generic URL parsing, through the `url` crate.
use vstd::prelude::*;

verus! {

/// What a parsed URL offers to the rest of the library: its scheme, its
/// host, its path segments and its normalised text.
pub struct UrlParts {
    pub scheme: String,
    pub host: Option<String>,
    pub segments: Option<Vec<String>>,
    pub text: String,
}

/// The model of a parsed URL: scheme, host, path segments, normalised text.
pub type UrlModel = (Seq<char>, Option<Seq<char>>, Option<Seq<Seq<char>>>, Seq<char>);

pub open spec fn opt_str_view(o: Option<String>) -> Option<Seq<char>> {
    match o {
        Some(s) => Some(s@),
        None => None,
    }
}

pub open spec fn strs_view(v: Seq<String>) -> Seq<Seq<char>> {
    v.map_values(|s: String| s@)
}

impl View for UrlParts {
    type V = UrlModel;

    open spec fn view(&self) -> UrlModel {
        (
            self.scheme@,
            opt_str_view(self.host),
            match self.segments {
                Some(v) => Some(strs_view(v@)),
                None => None,
            },
            self.text@,
        )
    }
}

/// A name for what `url::Url::parse` makes of `s`, read through `scheme`,
/// `host_str`, `path_segments` and `to_string`.
pub uninterp spec fn url_parse_of(s: Seq<char>) -> Option<UrlModel>;

/// A character that stands for itself anywhere in a URL path or host.
pub open spec fn is_plain_char(c: char) -> bool {
    ('a' <= c && c <= 'z') || ('A' <= c && c <= 'Z') || ('0' <= c && c <= '9') || c == '-' || c
        == '.' || c == '_' || c == '~'
}

/// A path segment made of plain characters that is not a dot segment.
pub open spec fn is_plain_segment(s: Seq<char>) -> bool {
    &&& forall|i: int| 0 <= i < s.len() ==> is_plain_char(#[trigger] s[i])
    &&& s != seq!['.']
    &&& s != seq!['.', '.']
}

/// A host of lower-case letters and digits.
pub open spec fn is_plain_host(h: Seq<char>) -> bool {
    &&& h.len() > 0
    &&& forall|i: int|
        0 <= i < h.len() ==> (('a' <= #[trigger] h[i] && h[i] <= 'z') || ('0' <= h[i] && h[i]
            <= '9'))
}

/// The path `/s0/s1/.../sn`.
pub open spec fn path_text(segs: Seq<Seq<char>>) -> Seq<char>
    decreases segs.len(),
{
    if segs.len() == 0 {
        Seq::empty()
    } else {
        path_text(segs.drop_last()) + seq!['/'] + segs.last()
    }
}

/// The text `pubky://host/s0/.../sn`.
pub open spec fn pubky_url_text(host: Seq<char>, segs: Seq<Seq<char>>) -> Seq<char> {
    seq!['p', 'u', 'b', 'k', 'y', ':', '/', '/'] + host + path_text(segs)
}

/// A plain host and a non-empty list of plain segments.
pub open spec fn simple_pubky_parts(host: Seq<char>, segs: Seq<Seq<char>>) -> bool {
    &&& is_plain_host(host)
    &&& segs.len() > 0
    &&& forall|i: int| 0 <= i < segs.len() ==> is_plain_segment(#[trigger] segs[i])
}

/// Relies on `url::Url::parse` and the accessors of `url::Url`. A URL of the
/// `pubky` scheme whose host and non-empty path are made of plain characters
/// is read back as written: scheme, host, segments and text unchanged.
#[verifier::external_body]
pub(crate) fn parse_url(s: &str) -> (r: Option<UrlParts>)
    ensures
        r is Some <==> url_parse_of(s@) is Some,
        r matches Some(p) ==> url_parse_of(s@) == Some(p@),
        r matches Some(p) ==> forall|host: Seq<char>, segs: Seq<Seq<char>>|
            #![trigger pubky_url_text(host, segs)]
            s@ == pubky_url_text(host, segs) && simple_pubky_parts(host, segs) ==> p@ == (
                seq!['p', 'u', 'b', 'k', 'y'],
                Some(host),
                Some(segs),
                s@,
            ),
        r is None ==> forall|host: Seq<char>, segs: Seq<Seq<char>>|
            #![trigger pubky_url_text(host, segs)]
            !(s@ == pubky_url_text(host, segs) && simple_pubky_parts(host, segs)),
{
    match url::Url::parse(s) {
        Ok(u) => Some(UrlParts {
            scheme: u.scheme().to_string(),
            host: u.host_str().map(|h| h.to_string()),
            segments: u.path_segments().map(|it| it.map(|x| x.to_string()).collect()),
            text: u.to_string(),
        }),
        Err(_) => None,
    }
}

} // verus!
