//! The decisions taken while serving a manifest: look in the cache, and on a
//! miss authenticate, fetch from upstream, write back, and answer.
use vstd::prelude::*;

use crate::config::announced_length;
use crate::config::length_of;
use crate::config::InvalidationTime;
use crate::error::Error;
use crate::manifest::json_of_record;
use crate::manifest::opt_record;
use crate::manifest::record_of_json;
use crate::manifest::Manifest;
use crate::request::manifest_storage_path;
use crate::request::pull_scope;
use crate::request::ManifestRequest;

verus! {

/// Where a manifest request stands.
#[derive(Debug, Clone, Copy, PartialEq, Eq, Structural)]
pub enum ManifestPhase {
    ReadingCache,
    Authenticating,
    Fetching,
    WritingBack,
    Done,
}

/// What the outside world reports back.
pub enum ManifestEvent {
    /// The bytes the cache held under the path, or `None` where it had no
    /// fresh entry or could not be read.
    CacheRead(Option<Vec<u8>>),
    /// Whether upstream authenticated the scope.
    Authenticated(bool),
    /// The manifest upstream returned, or `None` where the fetch failed.
    Fetched(Option<Manifest>),
    /// Whether the write-back succeeded.
    Written(bool),
}

/// What to do next.
pub enum ManifestAction {
    /// Read the path from the cache, accepting entries no older than
    /// `max_age` seconds.
    ReadCache { path: String, max_age: u64 },
    /// Authenticate with upstream for the scope.
    Authenticate { scope: String },
    /// Fetch the manifest of `image` at `reference` from upstream.
    FetchManifest { image: String, reference: String },
    /// Store `body`, of `length` bytes, in the cache under `path`.
    WriteCache { path: String, body: Vec<u8>, length: i64 },
    /// Answer the client.
    Respond(Result<Manifest, Error>),
}

/// The event each phase waits for.
pub open spec fn event_fits(phase: ManifestPhase, e: ManifestEvent) -> bool {
    match phase {
        ManifestPhase::ReadingCache => e is CacheRead,
        ManifestPhase::Authenticating => e is Authenticated,
        ManifestPhase::Fetching => e is Fetched,
        ManifestPhase::WritingBack => e is Written,
        ManifestPhase::Done => false,
    }
}

/// The action answers with `Ok` and the given record.
pub open spec fn responds_with(a: ManifestAction, rec: (Seq<u8>, Seq<char>, Option<Seq<char>>)) -> bool {
    a matches ManifestAction::Respond(Ok(m)) && m@ == rec
}

/// The action answers with the given error.
pub open spec fn fails_with(a: ManifestAction, e: Error) -> bool {
    a matches ManifestAction::Respond(Err(x)) && x == e
}

/// One manifest request in progress.
pub struct ManifestFlow {
    request: ManifestRequest,
    phase: ManifestPhase,
    pending: Option<Manifest>,
}

impl ManifestFlow {
    pub closed spec fn phase(&self) -> ManifestPhase {
        self.phase
    }

    pub closed spec fn image(&self) -> Seq<char> {
        self.request.image()
    }

    pub closed spec fn reference(&self) -> Seq<char> {
        self.request.reference()
    }

    /// The manifest waiting for its write-back to finish.
    pub closed spec fn pending(&self) -> Option<(Seq<u8>, Seq<char>, Option<Seq<char>>)> {
        opt_record(self.pending)
    }

    /// A manifest is pending exactly while it is written back.
    pub open spec fn wf(&self) -> bool {
        (self.phase() == ManifestPhase::WritingBack) == (self.pending() is Some)
    }

    /// Starts serving `request`: the first step is always a cache read under
    /// the request's storage path with the manifest freshness time.
    pub fn start(request: ManifestRequest, invalidation: &InvalidationTime) -> (r: (
        ManifestFlow,
        ManifestAction,
    ))
        ensures
            r.0.wf(),
            r.0.phase() == ManifestPhase::ReadingCache,
            r.0.image() == request.image(),
            r.0.reference() == request.reference(),
            r.1 matches ManifestAction::ReadCache { path, max_age } && path@
                == manifest_storage_path(request.image(), request.reference()) && max_age
                == invalidation.manifest,
    {
        let path = request.storage_path();
        let flow = ManifestFlow { request, phase: ManifestPhase::ReadingCache, pending: None };
        (flow, ManifestAction::ReadCache { path, max_age: invalidation.manifest })
    }

    /// Whether `event` is the one the flow waits for.
    pub fn accepts(&self, event: &ManifestEvent) -> (r: bool)
        ensures
            r == event_fits(self.phase(), *event),
    {
        match (self.phase, event) {
            (ManifestPhase::ReadingCache, ManifestEvent::CacheRead(_)) => true,
            (ManifestPhase::Authenticating, ManifestEvent::Authenticated(_)) => true,
            (ManifestPhase::Fetching, ManifestEvent::Fetched(_)) => true,
            (ManifestPhase::WritingBack, ManifestEvent::Written(_)) => true,
            _ => false,
        }
    }

    /// Decides on what the cache held, already read as a record: a record
    /// is answered as it is; none sends the request on to upstream, whose
    /// first step is authenticating for the image's pull scope.
    pub fn on_cached(&mut self, record: Option<Manifest>) -> (r: ManifestAction)
        requires
            old(self).phase() == ManifestPhase::ReadingCache,
            old(self).wf(),
        ensures
            final(self).wf(),
            final(self).image() == old(self).image(),
            final(self).reference() == old(self).reference(),
            match opt_record(record) {
                Some(rec) => responds_with(r, rec) && final(self).phase() == ManifestPhase::Done,
                None => (r matches ManifestAction::Authenticate { scope } && scope@ == pull_scope(
                    old(self).image(),
                )) && final(self).phase() == ManifestPhase::Authenticating,
            },
    {
        match record {
            Some(m) => {
                self.phase = ManifestPhase::Done;
                ManifestAction::Respond(Ok(m))
            },
            None => {
                self.phase = ManifestPhase::Authenticating;
                ManifestAction::Authenticate { scope: self.request.scope() }
            },
        }
    }

    /// Decides on the upstream manifest: it is kept to answer with, and
    /// its record is written back where it can be encoded; otherwise the
    /// answer is given at once.
    pub fn on_fetched(&mut self, m: Manifest) -> (r: ManifestAction)
        requires
            old(self).phase() == ManifestPhase::Fetching,
            old(self).wf(),
        ensures
            final(self).wf(),
            final(self).image() == old(self).image(),
            final(self).reference() == old(self).reference(),
            match json_of_record(m@.0, m@.1, m@.2) {
                Some(body) => (r matches ManifestAction::WriteCache { path, body: b, length }
                    && path@ == manifest_storage_path(old(self).image(), old(self).reference())
                    && b@ == body && length == announced_length(Some(body.len() as u64)))
                    && final(self).phase() == ManifestPhase::WritingBack && final(self).pending()
                    == Some(m@),
                None => responds_with(r, m@) && final(self).phase() == ManifestPhase::Done,
            },
    {
        match m.to_record() {
            Some(body) => {
                let path = self.request.storage_path();
                let length = length_of(body.len());
                self.phase = ManifestPhase::WritingBack;
                self.pending = Some(m);
                ManifestAction::WriteCache { path, body, length }
            },
            None => {
                self.phase = ManifestPhase::Done;
                ManifestAction::Respond(Ok(m))
            },
        }
    }

    /// Takes the next step on `event`.
    pub fn step(&mut self, event: ManifestEvent) -> (r: ManifestAction)
        requires
            old(self).wf(),
            event_fits(old(self).phase(), event),
        ensures
            final(self).wf(),
            final(self).image() == old(self).image(),
            final(self).reference() == old(self).reference(),
            match event {
                ManifestEvent::CacheRead(read) => {
                    let rec = match read {
                        Some(b) => record_of_json(b@),
                        None => None,
                    };
                    match rec {
                        Some(rec) => responds_with(r, rec) && final(self).phase()
                            == ManifestPhase::Done,
                        None => (r matches ManifestAction::Authenticate { scope } && scope@
                            == pull_scope(old(self).image())) && final(self).phase()
                            == ManifestPhase::Authenticating,
                    }
                },
                ManifestEvent::Authenticated(ok) => if ok {
                    (r matches ManifestAction::FetchManifest { image, reference } && image@
                        == old(self).image() && reference@ == old(self).reference())
                        && final(self).phase() == ManifestPhase::Fetching
                } else {
                    fails_with(r, Error::UpstreamAuth) && final(self).phase()
                        == ManifestPhase::Done
                },
                ManifestEvent::Fetched(fetched) => match fetched {
                    Some(m) => match json_of_record(m@.0, m@.1, m@.2) {
                        Some(body) => (r matches ManifestAction::WriteCache { path, body: b, length }
                            && path@ == manifest_storage_path(old(self).image(), old(self).reference())
                            && b@ == body && length == announced_length(Some(body.len() as u64)))
                            && final(self).phase() == ManifestPhase::WritingBack
                            && final(self).pending() == Some(m@),
                        None => responds_with(r, m@) && final(self).phase() == ManifestPhase::Done,
                    },
                    None => fails_with(r, Error::UpstreamFetch) && final(self).phase()
                        == ManifestPhase::Done,
                },
                ManifestEvent::Written(_) => responds_with(r, old(self).pending()->0)
                    && final(self).phase() == ManifestPhase::Done,
            },
    {
        match event {
            ManifestEvent::CacheRead(read) => {
                let record = match read {
                    Some(b) => Manifest::from_record(b.as_slice()),
                    None => None,
                };
                self.on_cached(record)
            },
            ManifestEvent::Authenticated(ok) => {
                if ok {
                    self.phase = ManifestPhase::Fetching;
                    let image = String::from_str(self.request.image_name().as_str());
                    let reference = String::from_str(self.request.image_reference().as_str());
                    ManifestAction::FetchManifest { image, reference }
                } else {
                    self.phase = ManifestPhase::Done;
                    ManifestAction::Respond(Err(Error::UpstreamAuth))
                }
            },
            ManifestEvent::Fetched(fetched) => match fetched {
                Some(m) => self.on_fetched(m),
                None => {
                    self.phase = ManifestPhase::Done;
                    ManifestAction::Respond(Err(Error::UpstreamFetch))
                },
            },
            ManifestEvent::Written(_) => {
                let m = self.pending.take().unwrap();
                self.phase = ManifestPhase::Done;
                ManifestAction::Respond(Ok(m))
            },
        }
    }
}

} // verus!
