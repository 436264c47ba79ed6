//! The use cases that the request handlers call.

use vstd::prelude::*;
use crate::domain::{Application, ApplicationId, ContributionId, Contributor, ContributorId};
use crate::errors::Error;
use crate::repositories::{
    contributor_at, ApplicationRepository, ContributorRepository, UuidRepository,
};

verus! {

/// Looking a contributor up by identity.
pub trait Usecase {
    /// The contributors that can be found.
    spec fn known(&self) -> Map<ContributorId, Contributor>;

    /// Whether every lookup is answered.
    spec fn always_answers(&self) -> bool;

    /// The contributor `contributor_id`, if there is one.
    fn execute(&self, contributor_id: ContributorId) -> (found: Result<Option<Contributor>, Error>)
        ensures
            found matches Ok(contributor) ==> contributor == contributor_at(
                self.known(),
                contributor_id,
            ),
            self.always_answers() ==> found is Ok,
    ;
}

/// Looks a contributor up in a repository.
pub struct GetContributorById<R: ContributorRepository> {
    pub contributor_repository: R,
}

impl<R: ContributorRepository> GetContributorById<R> {
    /// The use case over `contributor_repository`.
    pub fn new(contributor_repository: R) -> (usecase: Self)
        ensures
            usecase.contributor_repository == contributor_repository,
    {
        GetContributorById { contributor_repository }
    }
}

impl<R: ContributorRepository> Usecase for GetContributorById<R> {
    open spec fn known(&self) -> Map<ContributorId, Contributor> {
        self.contributor_repository.contributors()
    }

    open spec fn always_answers(&self) -> bool {
        self.contributor_repository.always_answers()
    }

    fn execute(&self, contributor_id: ContributorId) -> (found: Result<Option<Contributor>, Error>) {
        self.contributor_repository.by_id(contributor_id)
    }
}

/// Records the application of `contributor_id` to `contribution_id` under
/// the identity `id`.
pub fn store_application<A: ApplicationRepository>(
    application_repository: &mut A,
    id: ApplicationId,
    contribution_id: ContributionId,
    contributor_id: ContributorId,
) -> (stored: Result<(), Error>)
    ensures
        stored is Ok ==> final(application_repository).applications() == old(
            application_repository,
        ).applications().push(Application { id, contribution_id, contributor_id }),
        stored is Err ==> final(application_repository).applications() == old(
            application_repository,
        ).applications(),
        old(application_repository).always_stores() ==> stored is Ok,
        final(application_repository).always_stores() == old(application_repository).always_stores(),
{
    let application = Application::new(id, contribution_id, contributor_id);
    application_repository.store(application)
}

/// Records the application of `contributor_id` to `contribution_id` under
/// a fresh identity taken from `uuid_repository`.
pub fn apply_to_contribution<A: ApplicationRepository, U: UuidRepository>(
    application_repository: &mut A,
    uuid_repository: &U,
    contribution_id: ContributionId,
    contributor_id: ContributorId,
) -> (stored: Result<(), Error>)
    ensures
        stored is Ok ==> exists|id: ApplicationId|
            final(application_repository).applications() == old(
                application_repository,
            ).applications().push(#[trigger] Application::new_spec(id, contribution_id, contributor_id)),
        stored is Err ==> final(application_repository).applications() == old(
            application_repository,
        ).applications(),
        old(application_repository).always_stores() ==> stored is Ok,
        final(application_repository).always_stores() == old(application_repository).always_stores(),
{
    let id = uuid_repository.new_random();
    let stored = store_application(application_repository, id, contribution_id, contributor_id);
    proof {
        if stored is Ok {
            assert(final(application_repository).applications() == old(
                application_repository,
            ).applications().push(Application::new_spec(id, contribution_id, contributor_id)));
        }
    }
    stored
}

} // verus!
