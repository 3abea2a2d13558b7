//! Follows, mutes and the last-read marker: records whose meaning lies in
//! their path.
use crate::common::opt_str;
use crate::pubky_id::{pubky_id_error, valid_pubky_id, PubkyId};
use vstd::prelude::*;

verus! {

/// A follow of the user named in the path.
#[derive(Debug, Clone, Copy, PartialEq, Eq)]
pub struct PubkyAppFollow {
    pub created_at: i64,
}

/// A mute of the user named in the path.
#[derive(Debug, Clone, Copy, PartialEq, Eq)]
pub struct PubkyAppMute {
    pub created_at: i64,
}

/// When the user last read their notifications, in milliseconds.
#[derive(Debug, Clone, Copy, PartialEq, Eq)]
pub struct PubkyAppLastRead {
    pub timestamp: i64,
}

/// A followed or muted owner, where given, is well formed.
pub open spec fn relation_valid(id: Option<Seq<char>>) -> bool {
    id matches Some(i) ==> valid_pubky_id(i)
}

/// A last-read marker holds a positive time.
pub open spec fn last_read_valid(l: PubkyAppLastRead) -> bool {
    l.timestamp > 0
}

/// The error that checking a followed or muted owner reports.
pub open spec fn relation_error(id: Option<Seq<char>>) -> Option<Seq<char>> {
    match id {
        Some(i) => pubky_id_error(i),
        None => None,
    }
}

fn check_owner(id: Option<&str>) -> (r: Result<(), String>)
    ensures
        r is Ok <==> relation_valid(opt_str(id)),
        r matches Err(e) ==> relation_error(opt_str(id)) == Some(e@),
{
    if let Some(i) = id {
        match PubkyId::try_from(i) {
            Ok(_) => {},
            Err(e) => {
                return Err(e);
            },
        }
    }
    Ok(())
}

impl PubkyAppFollow {
    /// A follow created now.
    pub fn new() -> (r: Self) {
        PubkyAppFollow { created_at: crate::codec::timestamp() }
    }

    /// A follow needs no normalisation.
    pub fn sanitize(self) -> (r: Self)
        ensures
            r == self,
    {
        self
    }

    /// Checks that the followed owner is well formed.
    pub fn validate(&self, id: Option<&str>) -> (r: Result<(), String>)
        ensures
            r is Ok <==> relation_valid(opt_str(id)),
            r matches Err(e) ==> relation_error(opt_str(id)) == Some(e@),
    {
        check_owner(id)
    }

    /// The path of the follow of `pubky_id`.
    pub fn create_path(&self, pubky_id: &str) -> (r: String)
        ensures
            r@ == crate::uri::resource_path(crate::uri::ResourceView::Follow(pubky_id@)),
    {
        crate::uri::app_id_path("follows", pubky_id)
    }
}

impl PubkyAppMute {
    /// A mute created now.
    pub fn new() -> (r: Self) {
        PubkyAppMute { created_at: crate::codec::timestamp() }
    }

    /// A mute needs no normalisation.
    pub fn sanitize(self) -> (r: Self)
        ensures
            r == self,
    {
        self
    }

    /// Checks that the muted owner is well formed.
    pub fn validate(&self, id: Option<&str>) -> (r: Result<(), String>)
        ensures
            r is Ok <==> relation_valid(opt_str(id)),
            r matches Err(e) ==> relation_error(opt_str(id)) == Some(e@),
    {
        check_owner(id)
    }

    /// The path of the mute of `pubky_id`.
    pub fn create_path(pubky_id: &str) -> (r: String)
        ensures
            r@ == crate::uri::resource_path(crate::uri::ResourceView::Mute(pubky_id@)),
    {
        crate::uri::app_id_path("mutes", pubky_id)
    }
}

impl PubkyAppLastRead {
    /// A marker for now, in milliseconds.
    pub fn new() -> (r: Self) {
        let micros = crate::codec::timestamp();
        PubkyAppLastRead { timestamp: micros / 1000 }
    }

    /// A marker needs no normalisation.
    pub fn sanitize(self) -> (r: Self)
        ensures
            r == self,
    {
        self
    }

    /// Checks that the time is positive.
    pub fn validate(&self, _id: Option<&str>) -> (r: Result<(), String>)
        ensures
            r is Ok <==> last_read_valid(*self),
            r matches Err(e) ==> e@ == "Validation Error: Timestamp must be a positive integer"@,
    {
        if self.timestamp <= 0 {
            return Err("Validation Error: Timestamp must be a positive integer".to_string());
        }
        Ok(())
    }

    /// The marker's path, `/pub/pubky.app/last_read`.
    pub fn create_path(&self) -> (r: String)
        ensures
            r@ == crate::uri::resource_path(crate::uri::ResourceView::LastRead),
    {
        crate::uri::app_path("last_read")
    }
}

} // verus!
