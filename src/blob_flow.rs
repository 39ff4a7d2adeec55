//! The decisions taken while serving a blob: refuse a malformed digest,
//! look in the cache, and on a miss authenticate, fetch from upstream and
//! set up the fan-out to the client and the cache writer.
use vstd::prelude::*;

use crate::config::announce_length;
use crate::config::announced_length;
use crate::config::InvalidationTime;
use crate::config::FAN_OUT_CAPACITY;
use crate::error::Error;
use crate::request::blob_storage_path;
use crate::request::has_digest_prefix;
use crate::request::pull_scope;
use crate::request::BlobRequest;

verus! {

/// Where a blob request stands.
#[derive(Debug, Clone, Copy, PartialEq, Eq, Structural)]
pub enum BlobPhase {
    ReadingCache,
    Authenticating,
    Fetching,
    Done,
}

/// What the outside world reports back.
#[derive(Debug, Clone, Copy, PartialEq, Eq, Structural)]
pub enum BlobEvent {
    /// Whether the cache had a fresh entry (its stream stays with the caller).
    CacheRead(bool),
    /// Whether upstream authenticated the scope.
    Authenticated(bool),
    /// The blob's declared size where upstream answered (`Some(None)` where
    /// it declared none), or `None` where the fetch failed.
    Fetched(Option<Option<u64>>),
}

/// What to do next.
pub enum BlobAction {
    /// Read the path from the cache, accepting entries no older than
    /// `max_age` seconds.
    ReadCache { path: String, max_age: u64 },
    /// Answer with the stream the cache returned.
    ServeCached,
    /// Authenticate with upstream for the scope.
    Authenticate { scope: String },
    /// Fetch the blob `digest` of `image` from upstream as a stream.
    FetchBlob { image: String, digest: String },
    /// Broadcast the upstream stream, `capacity` chunks in flight, to the
    /// client and to a cache write of `length` bytes under `path`.
    FanOut { capacity: usize, path: String, length: i64 },
    /// Answer with the error.
    Fail(Error),
}

/// The event each phase waits for.
pub open spec fn blob_event_fits(phase: BlobPhase, e: BlobEvent) -> bool {
    match phase {
        BlobPhase::ReadingCache => e is CacheRead,
        BlobPhase::Authenticating => e is Authenticated,
        BlobPhase::Fetching => e is Fetched,
        BlobPhase::Done => false,
    }
}

/// One blob request in progress.
pub struct BlobFlow {
    request: BlobRequest,
    phase: BlobPhase,
    capacity: usize,
}

impl BlobFlow {
    pub closed spec fn phase(&self) -> BlobPhase {
        self.phase
    }

    pub closed spec fn image(&self) -> Seq<char> {
        self.request.image()
    }

    pub closed spec fn digest(&self) -> Seq<char> {
        self.request.digest()
    }

    #[verifier::type_invariant]
    spec fn has_room(&self) -> bool {
        self.capacity > 0
    }

    /// How many chunks the fan-out will hold in flight.
    pub closed spec fn capacity(&self) -> usize {
        self.capacity
    }

    /// Starts serving `request` with the default fan-out capacity.
    pub fn start(request: BlobRequest, invalidation: &InvalidationTime) -> (r: (BlobFlow, BlobAction))
        ensures
            r.0.image() == request.image(),
            r.0.digest() == request.digest(),
            r.0.capacity() == FAN_OUT_CAPACITY,
            !has_digest_prefix(request.digest()) ==> (r.1 matches BlobAction::Fail(e) && e
                == Error::InvalidDigest) && r.0.phase() == BlobPhase::Done,
            has_digest_prefix(request.digest()) ==> (r.1 matches BlobAction::ReadCache {
                path,
                max_age,
            } && path@ == blob_storage_path(request.image(), request.digest()) && max_age
                == invalidation.blob) && r.0.phase() == BlobPhase::ReadingCache,
    {
        BlobFlow::start_with_capacity(request, invalidation, FAN_OUT_CAPACITY)
    }

    /// Starts serving `request`, with `capacity` chunks in flight in the
    /// fan-out. A digest without the expected prefix ends the request at
    /// once with `InvalidDigest`, before the cache or upstream is touched;
    /// otherwise the first step is a cache read under the storage path with
    /// the blob freshness time.
    pub fn start_with_capacity(
        request: BlobRequest,
        invalidation: &InvalidationTime,
        capacity: usize,
    ) -> (r: (BlobFlow, BlobAction))
        requires
            capacity > 0,
        ensures
            r.0.image() == request.image(),
            r.0.digest() == request.digest(),
            r.0.capacity() == capacity,
            !has_digest_prefix(request.digest()) ==> (r.1 matches BlobAction::Fail(e) && e
                == Error::InvalidDigest) && r.0.phase() == BlobPhase::Done,
            has_digest_prefix(request.digest()) ==> (r.1 matches BlobAction::ReadCache {
                path,
                max_age,
            } && path@ == blob_storage_path(request.image(), request.digest()) && max_age
                == invalidation.blob) && r.0.phase() == BlobPhase::ReadingCache,
    {
        match request.validate() {
            Err(e) => (BlobFlow { request, phase: BlobPhase::Done, capacity }, BlobAction::Fail(e)),
            Ok(()) => {
                let path = request.storage_path();
                (
                    BlobFlow { request, phase: BlobPhase::ReadingCache, capacity },
                    BlobAction::ReadCache { path, max_age: invalidation.blob },
                )
            },
        }
    }

    /// Whether `event` is the one the flow waits for.
    pub fn accepts(&self, event: &BlobEvent) -> (r: bool)
        ensures
            r == blob_event_fits(self.phase(), *event),
    {
        match (self.phase, event) {
            (BlobPhase::ReadingCache, BlobEvent::CacheRead(_)) => true,
            (BlobPhase::Authenticating, BlobEvent::Authenticated(_)) => true,
            (BlobPhase::Fetching, BlobEvent::Fetched(_)) => true,
            _ => false,
        }
    }

    /// Takes the next step on `event`.
    pub fn step(&mut self, event: BlobEvent) -> (r: BlobAction)
        requires
            blob_event_fits(old(self).phase(), event),
        ensures
            final(self).image() == old(self).image(),
            final(self).digest() == old(self).digest(),
            final(self).capacity() == old(self).capacity(),
            match event {
                BlobEvent::CacheRead(hit) => if hit {
                    r is ServeCached && final(self).phase() == BlobPhase::Done
                } else {
                    (r matches BlobAction::Authenticate { scope } && scope@ == pull_scope(
                        old(self).image(),
                    )) && final(self).phase() == BlobPhase::Authenticating
                },
                BlobEvent::Authenticated(ok) => if ok {
                    (r matches BlobAction::FetchBlob { image, digest } && image@ == old(self).image()
                        && digest@ == old(self).digest()) && final(self).phase()
                        == BlobPhase::Fetching
                } else {
                    (r matches BlobAction::Fail(e) && e == Error::UpstreamAuth) && final(self).phase()
                        == BlobPhase::Done
                },
                BlobEvent::Fetched(fetched) => match fetched {
                    Some(size) => (r matches BlobAction::FanOut { capacity, path, length }
                        && capacity == old(self).capacity() && capacity > 0 && path@ == blob_storage_path(
                        old(self).image(),
                        old(self).digest(),
                    ) && length == announced_length(size)) && final(self).phase()
                        == BlobPhase::Done,
                    None => (r matches BlobAction::Fail(e) && e == Error::UpstreamFetch)
                        && final(self).phase() == BlobPhase::Done,
                },
            },
    {
        proof {
            use_type_invariant(&*self);
        }
        match event {
            BlobEvent::CacheRead(hit) => {
                if hit {
                    self.phase = BlobPhase::Done;
                    BlobAction::ServeCached
                } else {
                    self.phase = BlobPhase::Authenticating;
                    BlobAction::Authenticate { scope: self.request.scope() }
                }
            },
            BlobEvent::Authenticated(ok) => {
                if ok {
                    self.phase = BlobPhase::Fetching;
                    let image = String::from_str(self.request.image_name().as_str());
                    let digest = String::from_str(self.request.digest_str());
                    BlobAction::FetchBlob { image, digest }
                } else {
                    self.phase = BlobPhase::Done;
                    BlobAction::Fail(Error::UpstreamAuth)
                }
            },
            BlobEvent::Fetched(fetched) => {
                self.phase = BlobPhase::Done;
                match fetched {
                    Some(size) => BlobAction::FanOut {
                        capacity: self.capacity,
                        path: self.request.storage_path(),
                        length: announce_length(size),
                    },
                    None => BlobAction::Fail(Error::UpstreamFetch),
                }
            },
        }
    }
}

} // verus!
