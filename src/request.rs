//! Manifest and blob requests, the storage keys they derive, and the
//! upstream authentication scope for an image.
use vstd::prelude::*;

use crate::error::Error;
use crate::image::ImageName;
use crate::image::ImageReference;

verus! {

/// The storage key of a manifest: `{image}/manifests/{reference}`.
pub open spec fn manifest_storage_path(image: Seq<char>, reference: Seq<char>) -> Seq<char> {
    image + "/manifests/"@ + reference
}

/// The storage key of a blob: `{image}/blobs/{digest}`.
pub open spec fn blob_storage_path(image: Seq<char>, digest: Seq<char>) -> Seq<char> {
    image + "/blobs/"@ + digest
}

/// The scope that grants pulling from a repository: `repository:{image}:pull`.
pub open spec fn pull_scope(image: Seq<char>) -> Seq<char> {
    "repository:"@ + image + ":pull"@
}

/// The algorithm prefix every blob digest must carry.
pub open spec fn digest_prefix() -> Seq<char> {
    "sha256:"@
}

/// The digest names its content under the expected algorithm.
pub open spec fn has_digest_prefix(d: Seq<char>) -> bool {
    d.len() >= digest_prefix().len() && d.subrange(0, digest_prefix().len() as int)
        == digest_prefix()
}

/// Builds `repository:{image}:pull` for the given image.
pub fn pull_scope_for(image: &ImageName) -> (r: String)
    ensures
        r@ == pull_scope(image@),
{
    let r = String::from_str("repository:");
    let r = r.concat(image.as_str());
    r.concat(":pull")
}

/// `d` starts with `sha256:`.
pub fn digest_has_prefix(d: &str) -> (r: bool)
    ensures
        r == has_digest_prefix(d@),
{
    let prefix = "sha256:";
    proof {
        reveal_strlit("sha256:");
    }
    let n = d.unicode_len();
    let m = prefix.unicode_len();
    if n < m {
        return false;
    }
    let mut i: usize = 0;
    while i < m
        invariant
            m == prefix@.len(),
            prefix@ == digest_prefix(),
            n == d@.len(),
            m <= n,
            0 <= i <= m,
            forall|j: int| 0 <= j < i ==> d@[j] == prefix@[j],
        decreases m - i,
    {
        if d.get_char(i) != prefix.get_char(i) {
            assert(d@.subrange(0, m as int)[i as int] != prefix@[i as int]);
            return false;
        }
        i = i + 1;
    }
    assert(d@.subrange(0, m as int) =~= prefix@);
    true
}

/// A request for one manifest of one image.
pub struct ManifestRequest {
    image: ImageName,
    reference: ImageReference,
}

impl ManifestRequest {
    pub fn new(image: ImageName, reference: ImageReference) -> (r: ManifestRequest)
        ensures
            r.image() == image@,
            r.reference() == reference@,
    {
        ManifestRequest { image, reference }
    }

    /// The requested image's name.
    pub closed spec fn image(&self) -> Seq<char> {
        self.image@
    }

    /// The requested reference, as text.
    pub closed spec fn reference(&self) -> Seq<char> {
        self.reference@
    }

    pub fn image_name(&self) -> (r: &ImageName)
        ensures
            r@ == self.image(),
    {
        &self.image
    }

    pub fn image_reference(&self) -> (r: &ImageReference)
        ensures
            r@ == self.reference(),
    {
        &self.reference
    }

    /// The request's path: `/{image}/manifests/{reference}`.
    pub fn path(&self) -> (r: String)
        ensures
            r@ == seq!['/'] + manifest_storage_path(self.image(), self.reference()),
    {
        let r = String::from_str("/");
        proof {
            reveal_strlit("/");
        }
        let r = r.concat(self.storage_path().as_str());
        r
    }

    /// The key under which the manifest is cached: the path without its
    /// leading `/`.
    pub fn storage_path(&self) -> (r: String)
        ensures
            r@ == manifest_storage_path(self.image(), self.reference()),
    {
        let r = String::from_str(self.image.as_str());
        let r = r.concat("/manifests/");
        r.concat(self.reference.as_str())
    }

    /// The scope to authenticate for before fetching this manifest.
    pub fn scope(&self) -> (r: String)
        ensures
            r@ == pull_scope(self.image()),
    {
        pull_scope_for(&self.image)
    }
}

/// A request for one blob of one image, named by its digest.
pub struct BlobRequest {
    image: ImageName,
    digest: String,
}

impl BlobRequest {
    pub fn new(image: ImageName, digest: String) -> (r: BlobRequest)
        ensures
            r.image() == image@,
            r.digest() == digest@,
    {
        BlobRequest { image, digest }
    }

    /// The requested image's name.
    pub closed spec fn image(&self) -> Seq<char> {
        self.image@
    }

    /// The requested digest, as text.
    pub closed spec fn digest(&self) -> Seq<char> {
        self.digest@
    }

    pub fn image_name(&self) -> (r: &ImageName)
        ensures
            r@ == self.image(),
    {
        &self.image
    }

    pub fn digest_str(&self) -> (r: &str)
        ensures
            r@ == self.digest(),
    {
        self.digest.as_str()
    }

    /// Refuses a digest without the `sha256:` prefix; nothing else is
    /// looked at.
    pub fn validate(&self) -> (r: Result<(), Error>)
        ensures
            r is Ok <==> has_digest_prefix(self.digest()),
            r matches Err(e) ==> e == Error::InvalidDigest,
    {
        if digest_has_prefix(self.digest.as_str()) {
            Ok(())
        } else {
            Err(Error::InvalidDigest)
        }
    }

    /// The request's path: `/{image}/blobs/{digest}`.
    pub fn path(&self) -> (r: String)
        ensures
            r@ == seq!['/'] + blob_storage_path(self.image(), self.digest()),
    {
        let r = String::from_str("/");
        proof {
            reveal_strlit("/");
        }
        r.concat(self.storage_path().as_str())
    }

    /// The key under which the blob is cached: the path without its
    /// leading `/`.
    pub fn storage_path(&self) -> (r: String)
        ensures
            r@ == blob_storage_path(self.image(), self.digest()),
    {
        let r = String::from_str(self.image.as_str());
        let r = r.concat("/blobs/");
        r.concat(self.digest.as_str())
    }

    /// The scope to authenticate for before fetching this blob.
    pub fn scope(&self) -> (r: String)
        ensures
            r@ == pull_scope(self.image()),
    {
        pull_scope_for(&self.image)
    }
}

} // verus!
