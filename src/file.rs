//! Files and the binary blobs behind them.
use crate::common::{is_url, opt_str, url_ok};
use crate::ids::{
    hash_id, hash_id_error, hash_id_of, timestamp_id_error, timestamp_id_valid, validate_hash_id,
    validate_timestamp_id_at,
};
use crate::text::{char_count, chars_of, string_of, str_eq, trim, trim_str};
use vstd::prelude::*;

verus! {

pub const MIN_NAME_LENGTH: usize = 1;

pub const MAX_NAME_LENGTH: usize = 255;

pub const MAX_SRC_LENGTH: usize = 1024;

/// The largest size a file record may declare: 10 MiB.
pub const MAX_FILE_SIZE: i64 = 10485760;

/// The largest blob: 100 MiB.
pub const MAX_SIZE: usize = 104857600;

/// A name for what `mime::Mime::from_str` gives, read through `essence_str`.
pub uninterp spec fn mime_essence_of(s: Seq<char>) -> Option<Seq<char>>;

/// Relies on `mime::Mime::from_str` and `Mime::essence_str`: the type and
/// subtype of a media type, without its parameters, or `None` where it does
/// not parse.
#[verifier::external_body]
fn mime_essence(s: &str) -> (r: Option<String>)
    ensures
        match r {
            Some(e) => mime_essence_of(s@) == Some(e@),
            None => mime_essence_of(s@) is None,
        },
{
    match <mime::Mime as std::str::FromStr>::from_str(s) {
        Ok(m) => Some(m.essence_str().to_string()),
        Err(_) => None,
    }
}

/// A media type that a file may declare.
pub open spec fn allowed_mime(e: Seq<char>) -> bool {
    e == "application/javascript"@ || e == "application/json"@ || e
        == "application/octet-stream"@ || e == "application/pdf"@ || e
        == "application/x-www-form-urlencoded"@ || e == "application/xml"@ || e
        == "application/zip"@ || e == "audio/mpeg"@ || e == "audio/wav"@ || e == "image/gif"@
        || e == "image/jpeg"@ || e == "image/png"@ || e == "image/svg+xml"@ || e
        == "image/webp"@ || e == "multipart/form-data"@ || e == "text/css"@ || e == "text/html"@
        || e == "text/plain"@ || e == "text/xml"@ || e == "video/mp4"@ || e == "video/mpeg"@
}

fn is_allowed_mime(e: &str) -> (r: bool)
    ensures
        r == allowed_mime(e@),
{
    str_eq(e, "application/javascript") || str_eq(e, "application/json") || str_eq(
        e,
        "application/octet-stream",
    ) || str_eq(e, "application/pdf") || str_eq(e, "application/x-www-form-urlencoded")
        || str_eq(e, "application/xml") || str_eq(e, "application/zip") || str_eq(e, "audio/mpeg")
        || str_eq(e, "audio/wav") || str_eq(e, "image/gif") || str_eq(e, "image/jpeg") || str_eq(
        e,
        "image/png",
    ) || str_eq(e, "image/svg+xml") || str_eq(e, "image/webp") || str_eq(
        e,
        "multipart/form-data",
    ) || str_eq(e, "text/css") || str_eq(e, "text/html") || str_eq(e, "text/plain") || str_eq(
        e,
        "text/xml",
    ) || str_eq(e, "video/mp4") || str_eq(e, "video/mpeg")
}

/// The first `n` characters of `s`, or all of them.
pub open spec fn take(s: Seq<char>, n: nat) -> Seq<char> {
    if s.len() <= n {
        s
    } else {
        s.subrange(0, n as int)
    }
}

fn take_exec(s: &[char], n: usize) -> (r: String)
    ensures
        r@ == take(s@, n as nat),
{
    if s.len() <= n {
        string_of(s)
    } else {
        let mut v: Vec<char> = Vec::new();
        let mut i: usize = 0;
        while i < n
            invariant
                0 <= i <= n < s@.len(),
                v@ == s@.subrange(0, i as int),
            decreases n - i,
        {
            v.push(s[i]);
            i = i + 1;
            proof {
                assert(v@ =~= s@.subrange(0, i as int));
            }
        }
        string_of(v.as_slice())
    }
}

/// The description of an uploaded file.
#[derive(Debug, Clone, PartialEq, Eq)]
pub struct PubkyAppFile {
    pub name: String,
    pub created_at: i64,
    pub src: String,
    pub content_type: String,
    pub size: i64,
}

/// The model of a [`PubkyAppFile`], its texts as character sequences.
pub struct FileView {
    pub name: Seq<char>,
    pub created_at: i64,
    pub src: Seq<char>,
    pub content_type: Seq<char>,
    pub size: i64,
}

impl View for PubkyAppFile {
    type V = FileView;

    open spec fn view(&self) -> FileView {
        FileView {
            name: self.name@,
            created_at: self.created_at,
            src: self.src@,
            content_type: self.content_type@,
            size: self.size,
        }
    }
}

/// The sanitized file: name cut to 255 characters, then trimmed; source
/// cut to 1024 characters, then trimmed, and emptied where it is not a URL;
/// content type trimmed.
pub open spec fn sanitize_file(f: FileView) -> FileView {
    let src = trim(take(f.src, MAX_SRC_LENGTH as nat));
    FileView {
        name: trim(take(f.name, MAX_NAME_LENGTH as nat)),
        created_at: f.created_at,
        src: if url_ok(src) {
            src
        } else {
            Seq::empty()
        },
        content_type: trim(f.content_type),
        size: f.size,
    }
}

/// The rules a file must meet, its time-derived identifier checked against
/// the clock reading `now`.
pub open spec fn file_valid(f: FileView, id: Option<Seq<char>>, now: int) -> bool {
    &&& (id matches Some(i) ==> timestamp_id_valid(i, now))
    &&& MIN_NAME_LENGTH <= f.name.len() <= MAX_NAME_LENGTH
    &&& 0 < f.src.len() <= MAX_SRC_LENGTH
    &&& (mime_essence_of(f.content_type) matches Some(e) && allowed_mime(e))
    &&& 0 < f.size <= MAX_FILE_SIZE
}

/// The error that checking a file record reports: the first rule it breaks.
pub open spec fn file_error(f: FileView, id: Option<Seq<char>>, now: int) -> Option<Seq<char>> {
    if id is Some && timestamp_id_error(id->0, now) is Some {
        timestamp_id_error(id->0, now)
    } else if !(MIN_NAME_LENGTH <= f.name.len() <= MAX_NAME_LENGTH) {
        Some("Validation Error: Invalid name length"@)
    } else if f.src.len() == 0 {
        Some("Validation Error: Invalid src"@)
    } else if f.src.len() > MAX_SRC_LENGTH {
        Some("Validation Error: src exceeds maximum length"@)
    } else if !(mime_essence_of(f.content_type) matches Some(e) && allowed_mime(e)) {
        Some("Validation Error: Invalid content type"@)
    } else if !(0 < f.size <= MAX_FILE_SIZE) {
        Some("Validation Error: Invalid size"@)
    } else {
        None
    }
}

impl PubkyAppFile {
    /// A sanitized file record created now.
    pub fn new(name: String, src: String, content_type: String, size: i64) -> (r: Self)
        ensures
            r@ == sanitize_file(
                FileView {
                    name: name@,
                    created_at: r.created_at,
                    src: src@,
                    content_type: content_type@,
                    size,
                },
            ),
    {
        let created_at = crate::codec::timestamp();
        PubkyAppFile { name, created_at, src, content_type, size }.sanitize()
    }

    /// Trims and cuts the texts, and empties a source that is not a URL.
    pub fn sanitize(self) -> (r: Self)
        ensures
            r@ == sanitize_file(self@),
    {
        let name_chars = chars_of(self.name.as_str());
        let name = trim_str(take_exec(name_chars.as_slice(), MAX_NAME_LENGTH).as_str());
        let src_chars = chars_of(self.src.as_str());
        let cut = trim_str(take_exec(src_chars.as_slice(), MAX_SRC_LENGTH).as_str());
        let src = if is_url(cut.as_str()) {
            cut
        } else {
            String::new()
        };
        let content_type = trim_str(self.content_type.as_str());
        PubkyAppFile { name, created_at: self.created_at, src, content_type, size: self.size }
    }

    /// Checks the file's rules, its identifier against the clock reading `now`.
    pub fn validate_at(&self, id: Option<&str>, now: i64) -> (r: Result<(), String>)
        ensures
            r is Ok <==> file_valid(self@, opt_str(id), now as int),
            r matches Err(e) ==> file_error(self@, opt_str(id), now as int) == Some(e@),
    {
        if let Some(i) = id {
            match validate_timestamp_id_at(i, now) {
                Ok(()) => {},
                Err(e) => {
                    return Err(e);
                },
            }
        }
        let name_length = char_count(self.name.as_str());
        if name_length < MIN_NAME_LENGTH || name_length > MAX_NAME_LENGTH {
            return Err("Validation Error: Invalid name length".to_string());
        }
        let src_length = char_count(self.src.as_str());
        if src_length == 0 {
            return Err("Validation Error: Invalid src".to_string());
        }
        if src_length > MAX_SRC_LENGTH {
            return Err("Validation Error: src exceeds maximum length".to_string());
        }
        match mime_essence(self.content_type.as_str()) {
            Some(e) => {
                if !is_allowed_mime(e.as_str()) {
                    return Err("Validation Error: Invalid content type".to_string());
                }
            },
            None => {
                return Err("Validation Error: Invalid content type".to_string());
            },
        }
        if self.size <= 0 || self.size > MAX_FILE_SIZE {
            return Err("Validation Error: Invalid size".to_string());
        }
        Ok(())
    }

    /// Checks the file's rules, its identifier against the current time.
    pub fn validate(&self, id: Option<&str>) -> (r: Result<(), String>)
        ensures
            exists|now: int|
                #![trigger file_valid(self@, opt_str(id), now)]
                (r is Ok) == file_valid(self@, opt_str(id), now) && (r matches Err(e) ==> file_error(
                    self@,
                    opt_str(id),
                    now,
                ) == Some(e@)),
    {
        let now = crate::codec::timestamp();
        self.validate_at(id, now)
    }

    /// A time-derived identifier for a new file.
    pub fn create_id(&self) -> (r: String)
        ensures
            r@.len() == 13,
            exists|t: i64| #[trigger] crate::ids::timestamp_id_of(t) == r@,
    {
        crate::ids::create_timestamp_id()
    }

    /// The path of the file under a new time-derived identifier.
    pub fn create_path(&self) -> (r: String)
        ensures
            exists|id: Seq<char>|
                #![trigger crate::uri::resource_path(crate::uri::ResourceView::File(id))]
                id.len() == 13 && r@ == crate::uri::resource_path(crate::uri::ResourceView::File(id)),
    {
        let id = self.create_id();
        let r = crate::uri::app_id_path("files", id.as_str());
        assert(r@ == crate::uri::resource_path(crate::uri::ResourceView::File(id@)));
        r
    }

    /// The file's name.
    pub fn name(&self) -> (r: String)
        ensures
            r@ == self.name@,
    {
        self.name.clone()
    }

    /// Where the file's content lies.
    pub fn src(&self) -> (r: String)
        ensures
            r@ == self.src@,
    {
        self.src.clone()
    }

    /// The file's declared media type.
    pub fn content_type(&self) -> (r: String)
        ensures
            r@ == self.content_type@,
    {
        self.content_type.clone()
    }
}

/// The bytes of an uploaded file.
#[derive(Debug, Clone, PartialEq, Eq)]
pub struct PubkyAppBlob(pub Vec<u8>);

/// The error that checking a blob reports: the first rule it breaks.
pub open spec fn blob_error(data: Seq<u8>, id: Option<Seq<char>>) -> Option<Seq<char>> {
    if data.len() == 0 {
        Some("Validation Error: Blob size cannot be zero"@)
    } else if data.len() > MAX_SIZE {
        Some("Validation Error: Blob size exceeds maximum limit of 100MB"@)
    } else if id is Some {
        hash_id_error(hash_id_of(data), id->0)
    } else {
        None
    }
}

/// The rules a blob must meet: not empty, at most 100 MiB, and named by the
/// hash of all its bytes.
pub open spec fn blob_valid(data: Seq<u8>, id: Option<Seq<char>>) -> bool {
    &&& 0 < data.len() <= MAX_SIZE
    &&& (id matches Some(i) ==> i == hash_id_of(data))
}

impl PubkyAppBlob {
    /// A blob of `data`.
    pub fn new(data: Vec<u8>) -> (r: Self)
        ensures
            r.0@ == data@,
    {
        PubkyAppBlob(data)
    }

    /// A blob needs no normalisation.
    pub fn sanitize(self) -> (r: Self)
        ensures
            r.0@ == self.0@,
    {
        self
    }

    /// The blob's identifier: the hash of all its bytes.
    pub fn create_id(&self) -> (r: String)
        ensures
            r@ == hash_id_of(self.0@),
            r@.len() == 26,
    {
        hash_id(self.0.as_slice())
    }

    /// Checks the size and the identifier.
    pub fn validate(&self, id: Option<&str>) -> (r: Result<(), String>)
        ensures
            r is Ok <==> blob_valid(self.0@, opt_str(id)),
            r matches Err(e) ==> blob_error(self.0@, opt_str(id)) == Some(e@),
    {
        if self.0.len() == 0 {
            return Err("Validation Error: Blob size cannot be zero".to_string());
        }
        if self.0.len() > MAX_SIZE {
            return Err("Validation Error: Blob size exceeds maximum limit of 100MB".to_string());
        }
        if let Some(i) = id {
            match validate_hash_id(self.0.as_slice(), i) {
                Ok(()) => {},
                Err(e) => {
                    return Err(e);
                },
            }
        }
        Ok(())
    }

    /// A blob of the raw bytes `blob`, checked against `id`.
    pub fn try_from(blob: &[u8], id: &str) -> (r: Result<PubkyAppBlob, String>)
        ensures
            r is Ok <==> blob_valid(blob@, Some(id@)),
            r matches Ok(b) ==> b.0@ == blob@,
            r matches Err(e) ==> blob_error(blob@, Some(id@)) == Some(e@),
    {
        let instance = PubkyAppBlob(vstd::slice::slice_to_vec(blob));
        match instance.validate(Some(id)) {
            Ok(()) => Ok(instance),
            Err(e) => Err(e),
        }
    }

    /// The path of the blob with identifier `id`.
    pub fn create_path(id: &str) -> (r: String)
        ensures
            r@ == crate::uri::resource_path(crate::uri::ResourceView::Blob(id@)),
    {
        crate::uri::app_id_path("blobs", id)
    }
}

} // verus!
