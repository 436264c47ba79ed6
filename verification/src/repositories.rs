//! What the use cases ask of the stores behind them.

use vstd::prelude::*;
use crate::domain::{Application, ApplicationId, Contributor, ContributorId};
use crate::errors::Error;

verus! {

/// The contributor under `id`, where there is one.
pub open spec fn contributor_at(contributors: Map<ContributorId, Contributor>, id: ContributorId) -> Option<
    Contributor,
> {
    if contributors.contains_key(id) {
        Some(contributors[id])
    } else {
        None
    }
}

/// A store of contributors, looked up by identity.
pub trait ContributorRepository {
    /// The contributors that the store holds.
    spec fn contributors(&self) -> Map<ContributorId, Contributor>;

    /// Whether the store answers every lookup.
    spec fn always_answers(&self) -> bool;

    /// The contributor `id`, if the store holds one. A store that answers
    /// at all answers with what it holds.
    fn by_id(&self, id: ContributorId) -> (found: Result<Option<Contributor>, Error>)
        ensures
            found matches Ok(contributor) ==> contributor == contributor_at(self.contributors(), id),
            self.always_answers() ==> found is Ok,
    ;
}

/// A store of applications.
pub trait ApplicationRepository {
    /// The applications that the store holds, oldest first.
    spec fn applications(&self) -> Seq<Application>;

    /// Whether the store takes every application.
    spec fn always_stores(&self) -> bool;

    /// Records `application` behind those already held; a store that fails
    /// holds what it held.
    fn store(&mut self, application: Application) -> (stored: Result<(), Error>)
        ensures
            stored is Ok ==> final(self).applications() == old(self).applications().push(
                application,
            ),
            stored is Err ==> final(self).applications() == old(self).applications(),
            old(self).always_stores() ==> stored is Ok,
            final(self).always_stores() == old(self).always_stores(),
    ;
}

/// A source of fresh identities for applications.
pub trait UuidRepository {
    /// An identity that was not handed out before, as far as the source can
    /// tell; nothing can be said of which.
    fn new_random(&self) -> ApplicationId;
}

} // verus!
