//! The user profile, stored at `/pub/pubky.app/profile.json`.
use crate::common::{is_url, normalize_url, opt_view, url_norm, url_ok};
use crate::text::{char_count, str_eq, trim, trim_str};
use vstd::prelude::*;

verus! {

pub const MIN_USERNAME_LENGTH: usize = 3;

pub const MAX_USERNAME_LENGTH: usize = 50;

pub const MAX_BIO_LENGTH: usize = 160;

pub const MAX_IMAGE_LENGTH: usize = 300;

pub const MAX_LINKS: usize = 5;

pub const MAX_LINK_TITLE_LENGTH: usize = 100;

pub const MAX_LINK_URL_LENGTH: usize = 300;

pub const MAX_STATUS_LENGTH: usize = 50;

/// A titled link on a user's profile.
#[derive(Debug, Clone, PartialEq, Eq)]
pub struct PubkyAppUserLink {
    pub title: String,
    pub url: String,
}

/// The model of a [`PubkyAppUserLink`], its texts as character sequences.
pub struct LinkView {
    pub title: Seq<char>,
    pub url: Seq<char>,
}

impl View for PubkyAppUserLink {
    type V = LinkView;

    open spec fn view(&self) -> LinkView {
        LinkView { title: self.title@, url: self.url@ }
    }
}

/// A user's profile.
#[derive(Debug, Clone, PartialEq, Eq)]
pub struct PubkyAppUser {
    pub name: String,
    pub bio: Option<String>,
    pub image: Option<String>,
    pub links: Option<Vec<PubkyAppUserLink>>,
    pub status: Option<String>,
}

/// The model of a [`PubkyAppUser`], its texts as character sequences.
pub struct UserView {
    pub name: Seq<char>,
    pub bio: Option<Seq<char>>,
    pub image: Option<Seq<char>>,
    pub links: Option<Seq<LinkView>>,
    pub status: Option<Seq<char>>,
}

pub open spec fn links_view(v: Seq<PubkyAppUserLink>) -> Seq<LinkView> {
    v.map_values(|l: PubkyAppUserLink| l@)
}

impl View for PubkyAppUser {
    type V = UserView;

    open spec fn view(&self) -> UserView {
        UserView {
            name: self.name@,
            bio: opt_view(self.bio),
            image: opt_view(self.image),
            links: match self.links {
                Some(v) => Some(links_view(v@)),
                None => None,
            },
            status: opt_view(self.status),
        }
    }
}

/// A link with its title trimmed and its URL in normal form, or emptied
/// where it does not parse.
pub open spec fn sanitize_link(l: LinkView) -> LinkView {
    LinkView {
        title: trim(l.title),
        url: match url_norm(trim(l.url)) {
            Some(u) => u,
            None => Seq::empty(),
        },
    }
}

/// The links, sanitized, without those whose URL was emptied.
pub open spec fn sanitize_links(ls: Seq<LinkView>) -> Seq<LinkView>
    decreases ls.len(),
{
    if ls.len() == 0 {
        Seq::empty()
    } else {
        let prev = sanitize_links(ls.drop_last());
        let l = sanitize_link(ls.last());
        if l.url.len() > 0 {
            prev.push(l)
        } else {
            prev
        }
    }
}

pub open spec fn trim_opt(o: Option<Seq<char>>) -> Option<Seq<char>> {
    match o {
        Some(s) => Some(trim(s)),
        None => None,
    }
}

/// The name a profile takes in place of the reserved `[DELETED]`.
pub open spec fn sanitize_name(n: Seq<char>) -> Seq<char> {
    if trim(n) == "[DELETED]"@ {
        "anonymous"@
    } else {
        trim(n)
    }
}

/// The sanitized profile: texts trimmed, the reserved name replaced, an
/// image that is not a URL dropped, links normalised and filtered.
pub open spec fn sanitize_user(u: UserView) -> UserView {
    UserView {
        name: sanitize_name(u.name),
        bio: trim_opt(u.bio),
        image: match u.image {
            Some(i) => if url_ok(trim(i)) {
                Some(trim(i))
            } else {
                None
            },
            None => None,
        },
        links: match u.links {
            Some(ls) => Some(sanitize_links(ls)),
            None => None,
        },
        status: trim_opt(u.status),
    }
}

/// The rules a link must meet.
pub open spec fn link_valid(l: LinkView) -> bool {
    &&& trim(l.title).len() > 0
    &&& l.title.len() <= MAX_LINK_TITLE_LENGTH
    &&& trim(l.url).len() > 0
    &&& l.url.len() <= MAX_LINK_URL_LENGTH
    &&& url_ok(l.url)
}

/// The rules a profile must meet.
pub open spec fn user_valid(u: UserView) -> bool {
    &&& MIN_USERNAME_LENGTH <= u.name.len() <= MAX_USERNAME_LENGTH
    &&& (u.bio matches Some(b) ==> b.len() <= MAX_BIO_LENGTH)
    &&& (u.image matches Some(i) ==> i.len() > 0 && i.len() <= MAX_IMAGE_LENGTH && url_ok(i))
    &&& (u.links matches Some(ls) ==> ls.len() <= MAX_LINKS && forall|k: int|
        0 <= k < ls.len() ==> link_valid(#[trigger] ls[k]))
    &&& (u.status matches Some(s) ==> s.len() <= MAX_STATUS_LENGTH)
}

/// The error that checking a link reports: the first rule it breaks.
pub open spec fn link_error(l: LinkView) -> Option<Seq<char>> {
    if trim(l.title).len() == 0 {
        Some("Validation Error: Link title cannot be empty"@)
    } else if l.title.len() > MAX_LINK_TITLE_LENGTH {
        Some("Validation Error: Link title exceeds maximum length"@)
    } else if trim(l.url).len() == 0 {
        Some("Validation Error: Link URL cannot be empty"@)
    } else if l.url.len() > MAX_LINK_URL_LENGTH {
        Some("Validation Error: Link URL exceeds maximum length"@)
    } else if !url_ok(l.url) {
        Some("Validation Error: Invalid URL format"@)
    } else {
        None
    }
}

/// The error of the first link that breaks a rule.
pub open spec fn first_link_error(ls: Seq<LinkView>) -> Option<Seq<char>>
    decreases ls.len(),
{
    if ls.len() == 0 {
        None
    } else {
        match first_link_error(ls.drop_last()) {
            Some(e) => Some(e),
            None => link_error(ls.last()),
        }
    }
}

proof fn lemma_first_link_error_prefix(ls: Seq<LinkView>, n: int)
    requires
        0 <= n <= ls.len(),
        first_link_error(ls.subrange(0, n)) is Some,
    ensures
        first_link_error(ls) == first_link_error(ls.subrange(0, n)),
    decreases ls.len() - n,
{
    if n < ls.len() {
        assert(ls.subrange(0, n + 1).drop_last() =~= ls.subrange(0, n));
        lemma_first_link_error_prefix(ls, n + 1);
    } else {
        assert(ls.subrange(0, n) =~= ls);
    }
}

/// The error that checking a profile reports: the first rule it breaks.
pub open spec fn user_error(u: UserView) -> Option<Seq<char>> {
    if !(MIN_USERNAME_LENGTH <= u.name.len() <= MAX_USERNAME_LENGTH) {
        Some("Validation Error: Invalid name length"@)
    } else if u.bio matches Some(b) && b.len() > MAX_BIO_LENGTH {
        Some("Validation Error: Bio exceeds maximum length"@)
    } else if u.image matches Some(i) && i.len() == 0 {
        Some("Validation Error: Image URI cannot be empty"@)
    } else if u.image matches Some(i) && i.len() > MAX_IMAGE_LENGTH {
        Some("Validation Error: Image URI exceeds maximum length"@)
    } else if u.image matches Some(i) && !url_ok(i) {
        Some("Validation Error: Invalid image URI format"@)
    } else if u.links matches Some(ls) && ls.len() > MAX_LINKS {
        Some("Validation Error: Too many links"@)
    } else if u.links matches Some(ls) && first_link_error(ls) is Some {
        first_link_error(u.links->0)
    } else if u.status matches Some(s) && s.len() > MAX_STATUS_LENGTH {
        Some("Validation Error: Status exceeds maximum length"@)
    } else {
        None
    }
}

impl PubkyAppUserLink {
    /// A sanitized link.
    pub fn new(title: String, url: String) -> (r: Self)
        ensures
            r@ == sanitize_link(LinkView { title: title@, url: url@ }),
    {
        PubkyAppUserLink { title, url }.sanitize()
    }

    /// Trims the title and normalises the URL, emptying one that does not parse.
    pub fn sanitize(self) -> (r: Self)
        ensures
            r@ == sanitize_link(self@),
    {
        let title = trim_str(self.title.as_str());
        let url = match normalize_url(self.url.as_str()) {
            Some(u) => u,
            None => String::new(),
        };
        PubkyAppUserLink { title, url }
    }

    /// Checks the link's rules.
    pub fn validate(&self, _id: Option<&str>) -> (r: Result<(), String>)
        ensures
            r is Ok <==> link_valid(self@),
            r matches Err(e) ==> link_error(self@) == Some(e@),
    {
        if char_count(trim_str(self.title.as_str()).as_str()) == 0 {
            return Err("Validation Error: Link title cannot be empty".to_string());
        }
        if char_count(self.title.as_str()) > MAX_LINK_TITLE_LENGTH {
            return Err("Validation Error: Link title exceeds maximum length".to_string());
        }
        if char_count(trim_str(self.url.as_str()).as_str()) == 0 {
            return Err("Validation Error: Link URL cannot be empty".to_string());
        }
        if char_count(self.url.as_str()) > MAX_LINK_URL_LENGTH {
            return Err("Validation Error: Link URL exceeds maximum length".to_string());
        }
        if !is_url(self.url.as_str()) {
            return Err("Validation Error: Invalid URL format".to_string());
        }
        Ok(())
    }

    /// The link's title.
    pub fn title(&self) -> (r: String)
        ensures
            r@ == self.title@,
    {
        self.title.clone()
    }

    /// The link's URL.
    pub fn url(&self) -> (r: String)
        ensures
            r@ == self.url@,
    {
        self.url.clone()
    }
}

fn trim_opt_exec(o: &Option<String>) -> (r: Option<String>)
    ensures
        opt_view(r) == trim_opt(opt_view(*o)),
{
    match o {
        Some(s) => Some(trim_str(s.as_str())),
        None => None,
    }
}

fn sanitize_links_exec(ls: Vec<PubkyAppUserLink>) -> (r: Vec<PubkyAppUserLink>)
    ensures
        links_view(r@) == sanitize_links(links_view(ls@)),
{
    let mut out: Vec<PubkyAppUserLink> = Vec::new();
    let mut i: usize = 0;
    let n = ls.len();
    let ghost lv = links_view(ls@);
    while i < n
        invariant
            0 <= i <= n,
            n == lv.len(),
            lv == links_view(ls@),
            links_view(out@) == sanitize_links(lv.subrange(0, i as int)),
        decreases n - i,
    {
        let l = &ls[i];
        let s = PubkyAppUserLink {
            title: trim_str(l.title.as_str()),
            url: match normalize_url(l.url.as_str()) {
                Some(u) => u,
                None => String::new(),
            },
        };
        proof {
            assert(lv.subrange(0, i + 1).drop_last() =~= lv.subrange(0, i as int));
            assert(lv.subrange(0, i + 1).last() == lv[i as int]);
        }
        if s.url.as_str().is_empty() {
            proof {
                vstd::utf8::encode_utf8_decode_utf8(s.url@);
            }
        } else {
            proof {
                if s.url@.len() == 0 {
                    assert(vstd::utf8::encode_utf8(s.url@) =~= Seq::<u8>::empty());
                }
            }
            out.push(s);
            proof {
                assert(links_view(out@) =~= sanitize_links(lv.subrange(0, i as int)).push(s@));
            }
        }
        i = i + 1;
    }
    proof {
        assert(lv.subrange(0, n as int) =~= lv);
    }
    out
}

impl PubkyAppUser {
    /// A sanitized profile.
    pub fn new(
        name: String,
        bio: Option<String>,
        image: Option<String>,
        links: Option<Vec<PubkyAppUserLink>>,
        status: Option<String>,
    ) -> (r: Self)
        ensures
            r@ == sanitize_user(
                PubkyAppUser { name, bio, image, links, status }@,
            ),
    {
        PubkyAppUser { name, bio, image, links, status }.sanitize()
    }

    /// The default profile: the name `anonymous` and nothing else.
    pub fn default() -> (r: Self)
        ensures
            r@.name == "anonymous"@,
            r@.bio is None && r@.image is None && r@.links is None && r@.status is None,
    {
        let r = PubkyAppUser {
            name: "anonymous".to_string(),
            bio: None,
            image: None,
            links: None,
            status: None,
        }.sanitize();
        proof {
            reveal_strlit("anonymous");
            reveal_strlit("[DELETED]");
            crate::text::lemma_trim_fixed("anonymous"@);
            assert("anonymous"@ != "[DELETED]"@);
        }
        r
    }

    /// Trims the texts, replaces the reserved name, drops an image that is
    /// not a URL, normalises the links and drops those that do not parse.
    pub fn sanitize(self) -> (r: Self)
        ensures
            r@ == sanitize_user(self@),
    {
        let trimmed = trim_str(self.name.as_str());
        let name = if str_eq(trimmed.as_str(), "[DELETED]") {
            "anonymous".to_string()
        } else {
            trimmed
        };
        let bio = trim_opt_exec(&self.bio);
        let image = match &self.image {
            Some(i) => {
                let t = trim_str(i.as_str());
                if is_url(t.as_str()) {
                    Some(t)
                } else {
                    None
                }
            },
            None => None,
        };
        let status = trim_opt_exec(&self.status);
        let links = match self.links {
            Some(ls) => Some(sanitize_links_exec(ls)),
            None => None,
        };
        PubkyAppUser { name, bio, image, links, status }
    }

    /// Checks the profile's rules, the links' among them.
    pub fn validate(&self, _id: Option<&str>) -> (r: Result<(), String>)
        ensures
            r is Ok <==> user_valid(self@),
            r matches Err(e) ==> user_error(self@) == Some(e@),
    {
        let name_length = char_count(self.name.as_str());
        if name_length < MIN_USERNAME_LENGTH || name_length > MAX_USERNAME_LENGTH {
            return Err("Validation Error: Invalid name length".to_string());
        }
        if let Some(bio) = &self.bio {
            if char_count(bio.as_str()) > MAX_BIO_LENGTH {
                return Err("Validation Error: Bio exceeds maximum length".to_string());
            }
        }
        if let Some(image) = &self.image {
            let len = char_count(image.as_str());
            if len == 0 {
                return Err("Validation Error: Image URI cannot be empty".to_string());
            }
            if len > MAX_IMAGE_LENGTH {
                return Err("Validation Error: Image URI exceeds maximum length".to_string());
            }
            if !is_url(image.as_str()) {
                return Err("Validation Error: Invalid image URI format".to_string());
            }
        }
        if let Some(links) = &self.links {
            if links.len() > MAX_LINKS {
                return Err("Validation Error: Too many links".to_string());
            }
            let mut i: usize = 0;
            while i < links.len()
                invariant
                    0 <= i <= links@.len(),
                    self.links == Some(*links),
                    forall|k: int| 0 <= k < i ==> link_valid(#[trigger] links_view(links@)[k]),
                    first_link_error(links_view(links@).subrange(0, i as int)) is None,
                    links@.len() <= MAX_LINKS,
                    MIN_USERNAME_LENGTH <= self.name@.len() <= MAX_USERNAME_LENGTH,
                    self.bio matches Some(b) ==> b@.len() <= MAX_BIO_LENGTH,
                    self.image matches Some(im) ==> im@.len() > 0 && im@.len() <= MAX_IMAGE_LENGTH
                        && url_ok(im@),
                decreases links.len() - i,
            {
                let ghost lv = links_view(links@);
                assert(lv[i as int] == links@[i as int]@);
                assert(lv.subrange(0, i + 1).drop_last() =~= lv.subrange(0, i as int));
                match links[i].validate(None) {
                    Ok(()) => {},
                    Err(e) => {
                        proof {
                            lemma_first_link_error_prefix(lv, i + 1);
                        }
                        return Err(e);
                    },
                }
                i = i + 1;
            }
            assert(links_view(links@).subrange(0, links@.len() as int) =~= links_view(links@));
        }
        if let Some(status) = &self.status {
            if char_count(status.as_str()) > MAX_STATUS_LENGTH {
                return Err("Validation Error: Status exceeds maximum length".to_string());
            }
        }
        Ok(())
    }

    /// The profile's path, `/pub/pubky.app/profile.json`.
    pub fn create_path() -> (r: String)
        ensures
            r@ == crate::uri::resource_path(crate::uri::ResourceView::User),
    {
        crate::uri::app_path("profile.json")
    }
}

} // verus!
