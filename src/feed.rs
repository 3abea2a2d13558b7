//! Saved feed configurations, identified by the hash of their settings.
use crate::common::opt_str;
use crate::ids::{hash_id, hash_id_error, hash_id_of, validate_hash_id};
use crate::post::{kind_name, PubkyAppPostKind};
use crate::tag::{sanitize_label, sanitize_tag_label};
use crate::text::{char_count, str_eq, trim, trim_str};
use crate::urls::strs_view;
use vstd::prelude::*;

verus! {

/// Whose posts a feed shows.
#[derive(Debug, Clone, Copy, PartialEq, Eq)]
pub enum PubkyAppFeedReach {
    Following,
    Followers,
    Friends,
    All,
}

/// How a feed is laid out.
#[derive(Debug, Clone, Copy, PartialEq, Eq)]
pub enum PubkyAppFeedLayout {
    Columns,
    Wide,
    Visual,
}

/// How a feed is ordered.
#[derive(Debug, Clone, Copy, PartialEq, Eq)]
pub enum PubkyAppFeedSort {
    Recent,
    Popularity,
}

/// The reach whose wire name is `s`.
pub open spec fn reach_of_name(s: Seq<char>) -> Option<PubkyAppFeedReach> {
    if s == "following"@ {
        Some(PubkyAppFeedReach::Following)
    } else if s == "followers"@ {
        Some(PubkyAppFeedReach::Followers)
    } else if s == "friends"@ {
        Some(PubkyAppFeedReach::Friends)
    } else if s == "all"@ {
        Some(PubkyAppFeedReach::All)
    } else {
        None
    }
}

pub open spec fn reach_name(r: PubkyAppFeedReach) -> Seq<char> {
    match r {
        PubkyAppFeedReach::Following => "following"@,
        PubkyAppFeedReach::Followers => "followers"@,
        PubkyAppFeedReach::Friends => "friends"@,
        PubkyAppFeedReach::All => "all"@,
    }
}

/// The layout whose wire name is `s`.
pub open spec fn layout_of_name(s: Seq<char>) -> Option<PubkyAppFeedLayout> {
    if s == "columns"@ {
        Some(PubkyAppFeedLayout::Columns)
    } else if s == "wide"@ {
        Some(PubkyAppFeedLayout::Wide)
    } else if s == "visual"@ {
        Some(PubkyAppFeedLayout::Visual)
    } else {
        None
    }
}

pub open spec fn layout_name(l: PubkyAppFeedLayout) -> Seq<char> {
    match l {
        PubkyAppFeedLayout::Columns => "columns"@,
        PubkyAppFeedLayout::Wide => "wide"@,
        PubkyAppFeedLayout::Visual => "visual"@,
    }
}

/// The sort whose wire name is `s`.
pub open spec fn sort_of_name(s: Seq<char>) -> Option<PubkyAppFeedSort> {
    if s == "recent"@ {
        Some(PubkyAppFeedSort::Recent)
    } else if s == "popularity"@ {
        Some(PubkyAppFeedSort::Popularity)
    } else {
        None
    }
}

pub open spec fn sort_name(s: PubkyAppFeedSort) -> Seq<char> {
    match s {
        PubkyAppFeedSort::Recent => "recent"@,
        PubkyAppFeedSort::Popularity => "popularity"@,
    }
}

impl PubkyAppFeedReach {
    /// The reach named `s`.
    pub fn from_str(s: &str) -> (r: Result<PubkyAppFeedReach, String>)
        ensures
            match r {
                Ok(v) => reach_of_name(s@) == Some(v),
                Err(_) => reach_of_name(s@) is None,
            },
    {
        if str_eq(s, "following") {
            Ok(PubkyAppFeedReach::Following)
        } else if str_eq(s, "followers") {
            Ok(PubkyAppFeedReach::Followers)
        } else if str_eq(s, "friends") {
            Ok(PubkyAppFeedReach::Friends)
        } else if str_eq(s, "all") {
            Ok(PubkyAppFeedReach::All)
        } else {
            let mut msg = "Invalid feed reach: ".to_string();
            msg.append(s);
            Err(msg)
        }
    }

    /// The reach's wire name.
    pub fn to_string(&self) -> (r: String)
        ensures
            r@ == reach_name(*self),
    {
        match self {
            PubkyAppFeedReach::Following => "following".to_string(),
            PubkyAppFeedReach::Followers => "followers".to_string(),
            PubkyAppFeedReach::Friends => "friends".to_string(),
            PubkyAppFeedReach::All => "all".to_string(),
        }
    }
}

impl PubkyAppFeedLayout {
    /// The layout named `s`.
    pub fn from_str(s: &str) -> (r: Result<PubkyAppFeedLayout, String>)
        ensures
            match r {
                Ok(v) => layout_of_name(s@) == Some(v),
                Err(_) => layout_of_name(s@) is None,
            },
    {
        if str_eq(s, "columns") {
            Ok(PubkyAppFeedLayout::Columns)
        } else if str_eq(s, "wide") {
            Ok(PubkyAppFeedLayout::Wide)
        } else if str_eq(s, "visual") {
            Ok(PubkyAppFeedLayout::Visual)
        } else {
            let mut msg = "Invalid feed layout: ".to_string();
            msg.append(s);
            Err(msg)
        }
    }

    /// The layout's wire name.
    pub fn to_string(&self) -> (r: String)
        ensures
            r@ == layout_name(*self),
    {
        match self {
            PubkyAppFeedLayout::Columns => "columns".to_string(),
            PubkyAppFeedLayout::Wide => "wide".to_string(),
            PubkyAppFeedLayout::Visual => "visual".to_string(),
        }
    }
}

impl PubkyAppFeedSort {
    /// The order named `s`.
    pub fn from_str(s: &str) -> (r: Result<PubkyAppFeedSort, String>)
        ensures
            match r {
                Ok(v) => sort_of_name(s@) == Some(v),
                Err(_) => sort_of_name(s@) is None,
            },
    {
        if str_eq(s, "recent") {
            Ok(PubkyAppFeedSort::Recent)
        } else if str_eq(s, "popularity") {
            Ok(PubkyAppFeedSort::Popularity)
        } else {
            let mut msg = "Invalid feed sort: ".to_string();
            msg.append(s);
            Err(msg)
        }
    }

    /// The order's wire name.
    pub fn to_string(&self) -> (r: String)
        ensures
            r@ == sort_name(*self),
    {
        match self {
            PubkyAppFeedSort::Recent => "recent".to_string(),
            PubkyAppFeedSort::Popularity => "popularity".to_string(),
        }
    }
}

/// The settings of a feed.
#[derive(Debug, Clone, PartialEq, Eq)]
pub struct PubkyAppFeedConfig {
    pub tags: Option<Vec<String>>,
    pub reach: PubkyAppFeedReach,
    pub layout: PubkyAppFeedLayout,
    pub sort: PubkyAppFeedSort,
    pub content: Option<PubkyAppPostKind>,
}

/// The model of a [`PubkyAppFeedConfig`], its texts as character sequences.
pub struct FeedConfigView {
    pub tags: Option<Seq<Seq<char>>>,
    pub reach: PubkyAppFeedReach,
    pub layout: PubkyAppFeedLayout,
    pub sort: PubkyAppFeedSort,
    pub content: Option<PubkyAppPostKind>,
}

impl View for PubkyAppFeedConfig {
    type V = FeedConfigView;

    open spec fn view(&self) -> FeedConfigView {
        FeedConfigView {
            tags: match self.tags {
                Some(v) => Some(strs_view(v@)),
                None => None,
            },
            reach: self.reach,
            layout: self.layout,
            sort: self.sort,
            content: self.content,
        }
    }
}

/// A saved feed.
#[derive(Debug, Clone, PartialEq, Eq)]
pub struct PubkyAppFeed {
    pub feed: PubkyAppFeedConfig,
    pub name: String,
    pub created_at: i64,
}

/// The model of a [`PubkyAppFeed`], its texts as character sequences.
pub struct FeedView {
    pub feed: FeedConfigView,
    pub name: Seq<char>,
    pub created_at: i64,
}

impl View for PubkyAppFeed {
    type V = FeedView;

    open spec fn view(&self) -> FeedView {
        FeedView { feed: self.feed@, name: self.name@, created_at: self.created_at }
    }
}

/// A name for what `serde_json::to_string` makes of a list of strings.
pub uninterp spec fn json_strings_of(v: Seq<Seq<char>>) -> Seq<char>;

/// Relies on `serde_json::to_string` on a `Vec<String>`: a JSON array of
/// JSON strings, which cannot fail.
#[verifier::external_body]
fn json_strings(v: &Vec<String>) -> (r: String)
    ensures
        r@ == json_strings_of(strs_view(v@)),
{
    match serde_json::to_string(v) {
        Ok(s) => s,
        Err(_) => String::new(),
    }
}

/// The settings as compact JSON, fields in declaration order: the text a
/// feed's identifier is the hash of.
pub open spec fn feed_config_json(c: FeedConfigView) -> Seq<char> {
    "{\"tags\":"@ + match c.tags {
        Some(t) => json_strings_of(t),
        None => "null"@,
    } + ",\"reach\":\""@ + reach_name(c.reach) + "\",\"layout\":\""@ + layout_name(c.layout)
        + "\",\"sort\":\""@ + sort_name(c.sort) + "\",\"content\":"@ + match c.content {
        Some(k) => "\""@ + kind_name(k) + "\""@,
        None => "null"@,
    } + "}"@
}

/// The identifier of a feed.
pub open spec fn feed_id(c: FeedConfigView) -> Seq<char> {
    hash_id_of(vstd::utf8::encode_utf8(feed_config_json(c)))
}

/// The sanitized feed: name trimmed, tags trimmed and in lower case.
pub open spec fn sanitize_feed(f: FeedView) -> FeedView {
    FeedView {
        feed: FeedConfigView {
            tags: match f.feed.tags {
                Some(t) => Some(t.map_values(|s: Seq<char>| sanitize_label(s))),
                None => None,
            },
            ..f.feed
        },
        name: trim(f.name),
        created_at: f.created_at,
    }
}

/// The error that checking a feed reports: the first rule it breaks.
pub open spec fn feed_error(f: FeedView, id: Option<Seq<char>>) -> Option<Seq<char>> {
    if id is Some && hash_id_error(feed_id(f.feed), id->0) is Some {
        hash_id_error(feed_id(f.feed), id->0)
    } else if trim(f.name).len() == 0 {
        Some("Validation Error: Feed name cannot be empty"@)
    } else {
        None
    }
}

/// The rules a feed must meet.
pub open spec fn feed_valid(f: FeedView, id: Option<Seq<char>>) -> bool {
    &&& (id matches Some(i) ==> i == feed_id(f.feed))
    &&& trim(f.name).len() > 0
}

impl PubkyAppFeedConfig {
    /// The settings as compact JSON.
    pub fn to_json_string(&self) -> (r: String)
        ensures
            r@ == feed_config_json(self@),
    {
        let mut s = "{\"tags\":".to_string();
        match &self.tags {
            Some(t) => s.append(json_strings(t).as_str()),
            None => s.append("null"),
        }
        s.append(",\"reach\":\"");
        s.append(self.reach.to_string().as_str());
        s.append("\",\"layout\":\"");
        s.append(self.layout.to_string().as_str());
        s.append("\",\"sort\":\"");
        s.append(self.sort.to_string().as_str());
        s.append("\",\"content\":");
        match &self.content {
            Some(k) => {
                s.append("\"");
                s.append(k.to_string().as_str());
                s.append("\"");
            },
            None => s.append("null"),
        }
        s.append("}");
        s
    }

    /// Settings need no normalisation of their own.
    pub fn sanitize(self) -> (r: Self)
        ensures
            r@ == self@,
    {
        self
    }

    /// Settings need no check of their own.
    pub fn validate(&self, _id: Option<&str>) -> (r: Result<(), String>)
        ensures
            r is Ok,
    {
        Ok(())
    }
}

fn sanitize_tags(v: &Vec<String>) -> (r: Vec<String>)
    ensures
        strs_view(r@) == strs_view(v@).map_values(|s: Seq<char>| sanitize_label(s)),
{
    let mut out: Vec<String> = Vec::new();
    let mut i: usize = 0;
    while i < v.len()
        invariant
            0 <= i <= v@.len(),
            out@.len() == i,
            forall|k: int| 0 <= k < i ==> #[trigger] out@[k]@ == sanitize_label(v@[k]@),
        decreases v.len() - i,
    {
        out.push(sanitize_tag_label(v[i].as_str()));
        i = i + 1;
    }
    assert(strs_view(out@) =~= strs_view(v@).map_values(|s: Seq<char>| sanitize_label(s)));
    out
}

impl PubkyAppFeed {
    /// A sanitized feed created now.
    pub fn new(
        tags: Option<Vec<String>>,
        reach: PubkyAppFeedReach,
        layout: PubkyAppFeedLayout,
        sort: PubkyAppFeedSort,
        content: Option<PubkyAppPostKind>,
        name: String,
    ) -> (r: Self)
        ensures
            r@ == sanitize_feed(
                PubkyAppFeed {
                    feed: PubkyAppFeedConfig { tags, reach, layout, sort, content },
                    name,
                    created_at: r.created_at,
                }@,
            ),
    {
        let created_at = crate::codec::timestamp();
        let feed = PubkyAppFeedConfig { tags, reach, layout, sort, content };
        PubkyAppFeed { feed, name, created_at }.sanitize()
    }

    /// Trims the name, and trims and lower-cases the tags.
    pub fn sanitize(self) -> (r: Self)
        ensures
            r@ == sanitize_feed(self@),
    {
        let name = trim_str(self.name.as_str());
        let tags = match &self.feed.tags {
            Some(t) => Some(sanitize_tags(t)),
            None => None,
        };
        let feed = PubkyAppFeedConfig {
            tags,
            reach: self.feed.reach,
            layout: self.feed.layout,
            sort: self.feed.sort,
            content: self.feed.content,
        };
        PubkyAppFeed { feed, name, created_at: self.created_at }
    }

    /// The settings as compact JSON, which the identifier is the hash of.
    pub fn get_id_data(&self) -> (r: String)
        ensures
            r@ == feed_config_json(self.feed@),
    {
        self.feed.to_json_string()
    }

    /// The feed's identifier.
    pub fn create_id(&self) -> (r: String)
        ensures
            r@ == feed_id(self.feed@),
            r@.len() == 26,
    {
        let data = self.get_id_data();
        hash_id(data.as_str().as_bytes())
    }

    /// Checks the identifier and that the name is not blank.
    pub fn validate(&self, id: Option<&str>) -> (r: Result<(), String>)
        ensures
            r is Ok <==> feed_valid(self@, opt_str(id)),
            r matches Err(e) ==> feed_error(self@, opt_str(id)) == Some(e@),
    {
        if let Some(i) = id {
            let data = self.get_id_data();
            match validate_hash_id(data.as_str().as_bytes(), i) {
                Ok(()) => {},
                Err(e) => {
                    return Err(e);
                },
            }
        }
        if char_count(trim_str(self.name.as_str()).as_str()) == 0 {
            return Err("Validation Error: Feed name cannot be empty".to_string());
        }
        Ok(())
    }

    /// The path of the feed with identifier `id`.
    pub fn create_path(id: &str) -> (r: String)
        ensures
            r@ == crate::uri::resource_path(crate::uri::ResourceView::Feed(id@)),
    {
        crate::uri::app_id_path("feeds", id)
    }
}

} // verus!
