//! The owner identifier: a z-base-32 encoded public key of 52 characters.
use crate::codec::{all_z32, z32_decodes};
use crate::text::char_count;
use vstd::prelude::*;

verus! {

/// A well-formed owner identifier: 52 characters of the z-base-32 alphabet.
pub open spec fn valid_pubky_id(s: Seq<char>) -> bool {
    s.len() == 52 && all_z32(s)
}

/// The error that reading `s` as an owner identifier reports.
pub open spec fn pubky_id_error(s: Seq<char>) -> Option<Seq<char>> {
    if s.len() != 52 {
        Some("Validation Error: the string is not 52 utf chars"@)
    } else if !all_z32(s) {
        Some("Validation Error: invalid public key encoding"@)
    } else {
        None
    }
}

/// A validated owner identifier.
#[derive(Debug, PartialEq, Eq)]
pub struct PubkyId(String);

impl Clone for PubkyId {
    fn clone(&self) -> (r: Self)
        ensures
            r@ == self@,
    {
        self.duplicate()
    }
}

impl View for PubkyId {
    type V = Seq<char>;

    closed spec fn view(&self) -> Seq<char> {
        self.0@
    }
}

impl PubkyId {
    /// An owner identifier is well formed.
    #[verifier::type_invariant]
    pub open spec fn inv(&self) -> bool {
        valid_pubky_id(self@)
    }

    /// Accepts `s` exactly when it is 52 characters of the z-base-32 alphabet.
    pub fn try_from(s: &str) -> (r: Result<PubkyId, String>)
        ensures
            r is Ok <==> valid_pubky_id(s@),
            r matches Ok(id) ==> id@ == s@,
            r matches Err(e) ==> pubky_id_error(s@) == Some(e@),
    {
        if char_count(s) != 52 {
            return Err("Validation Error: the string is not 52 utf chars".to_string());
        }
        if !z32_decodes(s) {
            return Err("Validation Error: invalid public key encoding".to_string());
        }
        Ok(PubkyId(s.to_string()))
    }

    /// The identifier's text.
    pub fn as_ref(&self) -> (r: &str)
        ensures
            r@ == self@,
    {
        self.0.as_str()
    }

    /// The identifier's text, as an owned string.
    pub fn to_string(&self) -> (r: String)
        ensures
            r@ == self@,
    {
        self.0.clone()
    }

    /// A copy of the identifier.
    pub fn duplicate(&self) -> (r: PubkyId)
        ensures
            r@ == self@,
    {
        proof {
            use_type_invariant(self);
        }
        PubkyId(self.0.clone())
    }
}

} // verus!
