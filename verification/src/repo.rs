//! The repository's lifecycle core.
//!
//! The repository owns the engine binding, the task registry and the
//! execution context.  What this layer decides — whether an operation may
//! still reach the engine, which identifier a lookup string denotes,
//! whether a connection target is well-formed — lives here; performing
//! the connection, the lookup and the shutdown against the engine is the
//! surrounding runtime's part.

use vstd::prelude::*;

use crate::errors::RepoError;

verus! {

/// Whether the transport layer's endpoint grammar accepts a string;
/// depends on the characters alone.
pub uninterp spec fn endpoint_parses(s: Seq<char>) -> bool;

/// Relies on the URL parser the transport dials with (`url::Url` via
/// `str::parse`): acceptance depends on the string alone.
#[verifier::external_body]
fn endpoint_is_valid(target: &str) -> (r: bool)
    ensures
        r == endpoint_parses(target@),
{
    target.parse::<url::Url>().is_ok()
}

/// The lifecycle state of one repository: its stable peer identifier and
/// whether it has been stopped.
pub struct RepoCore {
    peer_id: String,
    stopped: bool,
}

impl RepoCore {
    /// The peer identifier assigned at construction.
    pub closed spec fn peer_id_spec(self) -> Seq<char> {
        self.peer_id@
    }

    /// Whether the repository has been stopped.
    pub closed spec fn is_stopped(self) -> bool {
        self.stopped
    }

    /// The state after a shutdown: the same repository, stopped.
    pub closed spec fn stopped_spec(self) -> RepoCore {
        RepoCore { stopped: true, ..self }
    }

    /// A running repository under the given peer identifier.
    pub fn new(peer_id: String) -> (r: RepoCore)
        ensures
            r.peer_id_spec() == peer_id@,
            !r.is_stopped(),
    {
        RepoCore { peer_id, stopped: false }
    }

    /// The stable peer identifier; never fails and never changes.
    pub fn peer_id(&self) -> (r: String)
        ensures
            r@ == self.peer_id_spec(),
    {
        self.peer_id.clone()
    }

    /// Gate for every operation that needs the engine: passes exactly
    /// while the repository has not been stopped, and fails with
    /// `RepositoryStopped` afterwards.
    pub fn check_running(&self) -> (r: Result<(), RepoError>)
        ensures
            (r is Ok <==> !self.is_stopped()),
            (r matches Err(e) ==> e == RepoError::RepositoryStopped),
    {
        if self.stopped {
            Err(RepoError::RepositoryStopped)
        } else {
            Ok(())
        }
    }

    /// Marks the repository stopped.  Safe to call in any state and any
    /// number of times; never an error.
    pub fn stop(&mut self)
        ensures
            *final(self) == old(self).stopped_spec(),
            final(self).is_stopped(),
            final(self).peer_id_spec() == old(self).peer_id_spec(),
    {
        self.stopped = true;
    }

    /// Gate for a connection attempt: rejects a malformed endpoint with
    /// `InvalidEndpoint` and passes exactly the strings the transport
    /// layer's endpoint grammar accepts — the same grammar the dial
    /// itself parses with.
    pub fn check_endpoint(&self, url: &str) -> (r: Result<(), RepoError>)
        ensures
            (r is Ok <==> endpoint_parses(url@)),
            (r matches Err(e) ==> e == RepoError::InvalidEndpoint),
    {
        if endpoint_is_valid(url) {
            Ok(())
        } else {
            Err(RepoError::InvalidEndpoint)
        }
    }
}

/// Law: stopping is idempotent — a second shutdown changes nothing, so
/// calling `stop` twice produces no error on either call and leaves the
/// same stopped state.
pub proof fn lemma_stop_idempotent(r: RepoCore)
    ensures
        r.stopped_spec().stopped_spec() == r.stopped_spec(),
{
}

} // verus!
