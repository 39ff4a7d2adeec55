use regcache::error::Error;
use regcache::image::ImageName;
use regcache::image::ImageReference;
use regcache::request::digest_has_prefix;
use regcache::request::pull_scope_for;
use regcache::request::BlobRequest;
use regcache::request::ManifestRequest;

fn manifest_request(image: &str, reference: &str) -> ManifestRequest {
    ManifestRequest::new(ImageName::parse(image).unwrap(), ImageReference::parse(reference).unwrap())
}

#[test]
fn image_names_are_validated() {
    assert!(ImageName::parse("lib/myapp").is_some());
    assert!(ImageName::parse("a").is_some());
    assert!(ImageName::parse("my-org/my_app.v2").is_some());
    assert!(ImageName::parse("").is_none());
    assert!(ImageName::parse("/lib").is_none());
    assert!(ImageName::parse("lib/").is_none());
    assert!(ImageName::parse("lib//app").is_none());
    assert!(ImageName::parse("lib/-app").is_none());
    assert!(ImageName::parse("Lib/app").is_none());
    assert_eq!(ImageName::parse("lib/myapp").unwrap().as_str(), "lib/myapp");
}

#[test]
fn references_are_tags_or_digests() {
    assert!(matches!(ImageReference::parse("latest"), Some(ImageReference::Tag(_))));
    assert!(matches!(ImageReference::parse("v1.2-rc_3"), Some(ImageReference::Tag(_))));
    assert!(matches!(ImageReference::parse("sha256:abc"), Some(ImageReference::Digest(_))));
    assert!(ImageReference::parse("").is_none());
    assert!(ImageReference::parse(".hidden").is_none());
    assert!(ImageReference::parse(":abc").is_none());
    assert!(ImageReference::parse("sha256:").is_none());
    assert!(ImageReference::parse("sha256:ab:cd").is_none());
    assert!(ImageReference::parse("SHA256:abc").is_none());
    let longest = "a".repeat(128);
    assert!(ImageReference::parse(&longest).is_some());
    let too_long = "a".repeat(129);
    assert!(ImageReference::parse(&too_long).is_none());
    assert_eq!(ImageReference::parse("sha256:abc").unwrap().as_str(), "sha256:abc");
}

#[test]
fn manifest_paths_and_scope() {
    let req = manifest_request("lib/myapp", "latest");
    assert_eq!(req.path(), "/lib/myapp/manifests/latest");
    assert_eq!(req.storage_path(), "lib/myapp/manifests/latest");
    assert_eq!(req.scope(), "repository:lib/myapp:pull");
    let req = manifest_request("lib/myapp", "sha256:abc");
    assert_eq!(req.path(), "/lib/myapp/manifests/sha256:abc");
}

#[test]
fn blob_paths_and_scope() {
    let req = BlobRequest::new(ImageName::parse("lib/myapp").unwrap(), "sha256:abc".to_string());
    assert_eq!(req.path(), "/lib/myapp/blobs/sha256:abc");
    assert_eq!(req.storage_path(), "lib/myapp/blobs/sha256:abc");
    assert_eq!(req.scope(), "repository:lib/myapp:pull");
    assert_eq!(req.validate(), Ok(()));
}

#[test]
fn digest_prefix_is_checked() {
    assert!(digest_has_prefix("sha256:abc"));
    assert!(digest_has_prefix("sha256:"));
    assert!(!digest_has_prefix("sha256"));
    assert!(!digest_has_prefix("md5:deadbeef"));
    assert!(!digest_has_prefix(""));
    assert!(!digest_has_prefix("SHA256:abc"));
    let req = BlobRequest::new(ImageName::parse("lib/myapp").unwrap(), "md5:deadbeef".to_string());
    assert_eq!(req.validate(), Err(Error::InvalidDigest));
}

#[test]
fn pull_scope_names_the_image() {
    assert_eq!(pull_scope_for(&ImageName::parse("x").unwrap()), "repository:x:pull");
}

#[test]
fn error_statuses() {
    assert_eq!(Error::InvalidDigest.status_code(), 400);
    assert_eq!(Error::UpstreamAuth.status_code(), 401);
    assert_eq!(Error::UpstreamFetch.status_code(), 502);
}
