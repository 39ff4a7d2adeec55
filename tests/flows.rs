use regcache::blob_flow::BlobAction;
use regcache::blob_flow::BlobEvent;
use regcache::blob_flow::BlobFlow;
use regcache::config::announce_length;
use regcache::config::length_of;
use regcache::config::InvalidationTime;
use regcache::config::FAN_OUT_CAPACITY;
use regcache::error::Error;
use regcache::fan_out::Producer;
use regcache::fan_out::ProducerAction;
use regcache::image::ImageName;
use regcache::image::ImageReference;
use regcache::manifest::Manifest;
use regcache::manifest_flow::ManifestAction;
use regcache::manifest_flow::ManifestEvent;
use regcache::manifest_flow::ManifestFlow;
use regcache::request::BlobRequest;
use regcache::request::ManifestRequest;

const MEDIA_TYPE: &str = "application/vnd.oci.image.manifest.v1+json";

fn times() -> InvalidationTime {
    InvalidationTime { manifest: 60, blob: 86400 }
}

fn latest() -> ManifestRequest {
    ManifestRequest::new(ImageName::parse("lib/myapp").unwrap(), ImageReference::parse("latest").unwrap())
}

fn upstream_manifest() -> Manifest {
    Manifest::new(b"{\"schemaVersion\":2}".to_vec(), MEDIA_TYPE.to_string(), Some("sha256:abc".to_string()))
}

fn same(a: &Manifest, b: &Manifest) -> bool {
    a.manifest == b.manifest && a.media_type == b.media_type && a.digest == b.digest
}

fn blob(digest: &str) -> BlobRequest {
    BlobRequest::new(ImageName::parse("lib/myapp").unwrap(), digest.to_string())
}

#[test]
fn manifest_miss_then_hit() {
    let (mut flow, action) = ManifestFlow::start(latest(), &times());
    match action {
        ManifestAction::ReadCache { path, max_age } => {
            assert_eq!(path, "lib/myapp/manifests/latest");
            assert_eq!(max_age, 60);
        },
        _ => panic!("expected a cache read"),
    }
    let scope = match flow.step(ManifestEvent::CacheRead(None)) {
        ManifestAction::Authenticate { scope } => scope,
        _ => panic!("expected authentication"),
    };
    assert_eq!(scope, "repository:lib/myapp:pull");
    match flow.step(ManifestEvent::Authenticated(true)) {
        ManifestAction::FetchManifest { image, reference } => {
            assert_eq!(image, "lib/myapp");
            assert_eq!(reference, "latest");
        },
        _ => panic!("expected a fetch"),
    }
    let stored = match flow.step(ManifestEvent::Fetched(Some(upstream_manifest()))) {
        ManifestAction::WriteCache { path, body, length } => {
            assert_eq!(path, "lib/myapp/manifests/latest");
            assert_eq!(length, body.len() as i64);
            body
        },
        _ => panic!("expected a write-back"),
    };
    let answer = match flow.step(ManifestEvent::Written(true)) {
        ManifestAction::Respond(Ok(m)) => m,
        _ => panic!("expected an answer"),
    };
    assert!(same(&answer, &upstream_manifest()));
    let headers = answer.headers();
    assert_eq!(headers.len(), 2);
    assert_eq!(headers[0], ("Content-Type".to_string(), MEDIA_TYPE.to_string()));
    assert_eq!(headers[1], ("Docker-Content-Digest".to_string(), "sha256:abc".to_string()));
    assert_eq!(answer.manifest, b"{\"schemaVersion\":2}".to_vec());

    // The same request again, with the cache now holding what was written:
    // answered from the cache, upstream is not asked.
    let (mut again, _) = ManifestFlow::start(latest(), &times());
    match again.step(ManifestEvent::CacheRead(Some(stored))) {
        ManifestAction::Respond(Ok(m)) => assert!(same(&m, &upstream_manifest())),
        _ => panic!("expected a cache hit"),
    }
    assert!(!again.accepts(&ManifestEvent::Authenticated(true)));
}

#[test]
fn manifest_write_failure_keeps_the_answer() {
    let mut answers = Vec::new();
    for ok in [true, false] {
        let (mut flow, _) = ManifestFlow::start(latest(), &times());
        flow.step(ManifestEvent::CacheRead(None));
        flow.step(ManifestEvent::Authenticated(true));
        flow.step(ManifestEvent::Fetched(Some(upstream_manifest())));
        match flow.step(ManifestEvent::Written(ok)) {
            ManifestAction::Respond(Ok(m)) => answers.push(m),
            _ => panic!("expected an answer"),
        }
    }
    assert!(same(&answers[0], &answers[1]));
}

#[test]
fn manifest_corrupt_cache_entry_is_a_miss() {
    let (mut flow, _) = ManifestFlow::start(latest(), &times());
    match flow.step(ManifestEvent::CacheRead(Some(b"not json".to_vec()))) {
        ManifestAction::Authenticate { scope } => assert_eq!(scope, "repository:lib/myapp:pull"),
        _ => panic!("expected authentication"),
    }
}

#[test]
fn manifest_upstream_errors() {
    let (mut flow, _) = ManifestFlow::start(latest(), &times());
    flow.step(ManifestEvent::CacheRead(None));
    assert!(matches!(flow.step(ManifestEvent::Authenticated(false)), ManifestAction::Respond(Err(Error::UpstreamAuth))));
    let (mut flow, _) = ManifestFlow::start(latest(), &times());
    flow.step(ManifestEvent::CacheRead(None));
    flow.step(ManifestEvent::Authenticated(true));
    assert!(matches!(flow.step(ManifestEvent::Fetched(None)), ManifestAction::Respond(Err(Error::UpstreamFetch))));
}

#[test]
fn manifest_without_digest_has_one_header() {
    let m = Manifest::new(vec![1, 2, 3], "text/plain".to_string(), None);
    let headers = m.headers();
    assert_eq!(headers, vec![("Content-Type".to_string(), "text/plain".to_string())]);
}

#[test]
fn manifest_record_round_trip() {
    let m = upstream_manifest();
    let body = m.to_record().unwrap();
    assert!(!body.is_empty());
    let back = Manifest::from_record(&body).unwrap();
    assert!(same(&back, &m));
    let m = Manifest::new(vec![], String::new(), None);
    let back = Manifest::from_record(&m.to_record().unwrap()).unwrap();
    assert!(same(&back, &m));
    assert!(Manifest::from_record(b"").is_none());
}

#[test]
fn blob_invalid_digest_touches_nothing() {
    let (flow, action) = BlobFlow::start(blob("md5:deadbeef"), &times());
    assert!(matches!(action, BlobAction::Fail(Error::InvalidDigest)));
    assert!(!flow.accepts(&BlobEvent::CacheRead(true)));
    assert!(!flow.accepts(&BlobEvent::CacheRead(false)));
}

#[test]
fn blob_cache_hit_is_served() {
    let (mut flow, action) = BlobFlow::start(blob("sha256:abc"), &times());
    match action {
        BlobAction::ReadCache { path, max_age } => {
            assert_eq!(path, "lib/myapp/blobs/sha256:abc");
            assert_eq!(max_age, 86400);
        },
        _ => panic!("expected a cache read"),
    }
    assert!(matches!(flow.step(BlobEvent::CacheRead(true)), BlobAction::ServeCached));
}

#[test]
fn blob_miss_fans_out() {
    let (mut flow, _) = BlobFlow::start(blob("sha256:abc"), &times());
    match flow.step(BlobEvent::CacheRead(false)) {
        BlobAction::Authenticate { scope } => assert_eq!(scope, "repository:lib/myapp:pull"),
        _ => panic!("expected authentication"),
    }
    match flow.step(BlobEvent::Authenticated(true)) {
        BlobAction::FetchBlob { image, digest } => {
            assert_eq!(image, "lib/myapp");
            assert_eq!(digest, "sha256:abc");
        },
        _ => panic!("expected a fetch"),
    }
    match flow.step(BlobEvent::Fetched(Some(Some(1234)))) {
        BlobAction::FanOut { capacity, path, length } => {
            assert_eq!(capacity, FAN_OUT_CAPACITY);
            assert_eq!(capacity, 16);
            assert_eq!(path, "lib/myapp/blobs/sha256:abc");
            assert_eq!(length, 1234);
        },
        _ => panic!("expected a fan-out"),
    }
}

#[test]
fn blob_unknown_length_is_announced_as_largest() {
    let (mut flow, _) = BlobFlow::start(blob("sha256:abc"), &times());
    flow.step(BlobEvent::CacheRead(false));
    flow.step(BlobEvent::Authenticated(true));
    match flow.step(BlobEvent::Fetched(Some(None))) {
        BlobAction::FanOut { length, .. } => assert_eq!(length, i64::MAX),
        _ => panic!("expected a fan-out"),
    }
}

#[test]
fn blob_upstream_errors() {
    let (mut flow, _) = BlobFlow::start(blob("sha256:abc"), &times());
    flow.step(BlobEvent::CacheRead(false));
    assert!(matches!(flow.step(BlobEvent::Authenticated(false)), BlobAction::Fail(Error::UpstreamAuth)));
    let (mut flow, _) = BlobFlow::start(blob("sha256:abc"), &times());
    flow.step(BlobEvent::CacheRead(false));
    flow.step(BlobEvent::Authenticated(true));
    assert!(matches!(flow.step(BlobEvent::Fetched(None)), BlobAction::Fail(Error::UpstreamFetch)));
}

#[test]
fn announced_lengths() {
    assert_eq!(announce_length(None), i64::MAX);
    assert_eq!(announce_length(Some(0)), 0);
    assert_eq!(announce_length(Some(i64::MAX as u64)), i64::MAX);
    assert_eq!(announce_length(Some(u64::MAX)), i64::MAX);
    assert_eq!(length_of(42), 42);
}

#[test]
fn producer_passes_chunks_in_order() {
    let (mut p, first) = Producer::<Vec<u8>, String>::new();
    assert!(matches!(first, ProducerAction::Pull));
    let chunks = vec![vec![1u8], vec![2u8, 3], vec![4u8]];
    let mut published = Vec::new();
    for c in chunks.clone() {
        match p.on_pulled(Some(Ok(c))) {
            ProducerAction::Publish(Ok(x)) => published.push(x),
            _ => panic!("expected a publish"),
        }
        assert!(matches!(p.on_published(true), ProducerAction::Pull));
    }
    assert_eq!(published, chunks);
    assert!(matches!(p.on_pulled(None), ProducerAction::Stop));
    assert!(p.is_stopped());
}

#[test]
fn producer_stops_when_no_reader_is_left() {
    let (mut p, _) = Producer::<Vec<u8>, String>::new();
    assert!(matches!(p.on_pulled(Some(Ok(vec![1u8]))), ProducerAction::Publish(_)));
    assert!(matches!(p.on_published(false), ProducerAction::Stop));
    assert!(p.is_stopped());
    assert!(matches!(p.on_pulled(Some(Ok(vec![2u8]))), ProducerAction::Stop));
    assert!(matches!(p.on_published(true), ProducerAction::Stop));
}

#[test]
fn producer_failure_is_the_last_item() {
    let (mut p, _) = Producer::<Vec<u8>, String>::new();
    match p.on_pulled(Some(Err("reset".to_string()))) {
        ProducerAction::Publish(Err(e)) => assert_eq!(e, "reset"),
        _ => panic!("expected the failure to be published"),
    }
    assert!(matches!(p.on_published(true), ProducerAction::Stop));
    assert!(p.is_stopped());
}

#[test]
fn blob_fan_out_capacity_is_configurable() {
    let (mut flow, _) = BlobFlow::start_with_capacity(blob("sha256:abc"), &times(), 4);
    flow.step(BlobEvent::CacheRead(false));
    flow.step(BlobEvent::Authenticated(true));
    match flow.step(BlobEvent::Fetched(Some(Some(7)))) {
        BlobAction::FanOut { capacity, length, .. } => {
            assert_eq!(capacity, 4);
            assert_eq!(length, 7);
        },
        _ => panic!("expected a fan-out"),
    }
}
