//! The manifest record: what upstream returns for a manifest, what the
//! cache stores as JSON, and the headers it is answered with.
use vstd::prelude::*;

verus! {

/// A manifest as raw bytes, media type and optional content digest.
pub struct Manifest {
    pub manifest: Vec<u8>,
    pub media_type: String,
    pub digest: Option<String>,
}

/// The text of an optional string.
pub open spec fn opt_text(s: Option<String>) -> Option<Seq<char>> {
    match s {
        Some(t) => Some(t@),
        None => None,
    }
}

impl View for Manifest {
    type V = (Seq<u8>, Seq<char>, Option<Seq<char>>);

    open spec fn view(&self) -> (Seq<u8>, Seq<char>, Option<Seq<char>>) {
        (self.manifest@, self.media_type@, opt_text(self.digest))
    }
}

/// The record of an optional manifest.
pub open spec fn opt_record(m: Option<Manifest>) -> Option<(Seq<u8>, Seq<char>, Option<Seq<char>>)> {
    match m {
        Some(v) => Some(v@),
        None => None,
    }
}

/// The JSON text that serde_json writes for a record `(bytes, media type,
/// digest)`, or `None` where it refuses.
pub uninterp spec fn json_of_record(
    manifest: Seq<u8>,
    media_type: Seq<char>,
    digest: Option<Seq<char>>,
) -> Option<Seq<u8>>;

/// The record `(bytes, media type, digest)` that serde_json reads from the
/// given text, or `None` where the text is no such record.
pub uninterp spec fn record_of_json(b: Seq<u8>) -> Option<
    (Seq<u8>, Seq<char>, Option<Seq<char>>),
>;

/// The optional bytes' contents.
pub open spec fn opt_bytes(v: Option<Vec<u8>>) -> Option<Seq<u8>> {
    match v {
        Some(b) => Some(b@),
        None => None,
    }
}

/// Relies on serde_json::to_vec, on the triple of bytes, media type and
/// digest, for the JSON text stored in the cache.
#[verifier::external_body]
fn record_to_json(m: &Manifest) -> (r: Option<Vec<u8>>)
    ensures
        opt_bytes(r) == json_of_record(m.manifest@, m.media_type@, opt_text(m.digest)),
{
    serde_json::to_vec(&(&m.manifest, &m.media_type, &m.digest)).ok()
}

/// Relies on serde_json::from_slice, into a triple of bytes, media type and
/// digest, to read a record back from the cache.
#[verifier::external_body]
fn record_from_json(b: &[u8]) -> (r: Option<Manifest>)
    ensures
        opt_record(r) == record_of_json(b@),
{
    match serde_json::from_slice::<(Vec<u8>, String, Option<String>)>(b) {
        Ok((manifest, media_type, digest)) => Some(Manifest { manifest, media_type, digest }),
        Err(_) => None,
    }
}

/// The header that carries a manifest's media type.
pub open spec fn content_type_header() -> Seq<char> {
    "Content-Type"@
}

/// The header that carries a manifest's content digest.
pub open spec fn digest_header() -> Seq<char> {
    "Docker-Content-Digest"@
}

/// The headers a manifest is answered with: its media type, and its digest
/// where it has one.
pub open spec fn headers_of(media_type: Seq<char>, digest: Option<Seq<char>>) -> Seq<
    (Seq<char>, Seq<char>),
> {
    match digest {
        Some(d) => seq![(content_type_header(), media_type), (digest_header(), d)],
        None => seq![(content_type_header(), media_type)],
    }
}

/// The text of each header.
pub open spec fn header_texts(h: Seq<(String, String)>) -> Seq<(Seq<char>, Seq<char>)> {
    h.map_values(|p: (String, String)| (p.0@, p.1@))
}

impl Manifest {
    pub fn new(manifest: Vec<u8>, media_type: String, digest: Option<String>) -> (r: Manifest)
        ensures
            r@ == (manifest@, media_type@, opt_text(digest)),
    {
        Manifest { manifest, media_type, digest }
    }

    /// The record as stored in the cache, or `None` where it cannot be
    /// written.
    pub fn to_record(&self) -> (r: Option<Vec<u8>>)
        ensures
            opt_bytes(r) == json_of_record(self@.0, self@.1, self@.2),
    {
        record_to_json(self)
    }

    /// Reads a record that the cache held; `None` where it is corrupt.
    pub fn from_record(b: &[u8]) -> (r: Option<Manifest>)
        ensures
            opt_record(r) == record_of_json(b@),
    {
        record_from_json(b)
    }

    /// The response headers: `Content-Type` with the media type, then
    /// `Docker-Content-Digest` where the digest is known.
    pub fn headers(&self) -> (r: Vec<(String, String)>)
        ensures
            header_texts(r@) == headers_of(self@.1, self@.2),
    {
        let mut r: Vec<(String, String)> = Vec::new();
        proof {
            reveal_strlit("Content-Type");
            reveal_strlit("Docker-Content-Digest");
        }
        r.push((String::from_str("Content-Type"), self.media_type.clone()));
        match &self.digest {
            Some(d) => {
                r.push((String::from_str("Docker-Content-Digest"), d.clone()));
            },
            None => {},
        }
        assert(header_texts(r@) =~= headers_of(self@.1, self@.2));
        r
    }
}

} // verus!
