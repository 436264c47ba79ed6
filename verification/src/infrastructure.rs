//! The stores of the use cases, kept in the relational cache.

use vstd::prelude::*;
use crate::connection::{Connection, Tables};
use crate::domain::{Application, Contributor, ContributorId};
use crate::errors::Error;
use crate::repositories::{ApplicationRepository, ContributorRepository};

verus! {

/// A client of the relational cache, which serves as every repository that
/// the use cases need.
pub struct Client {
    connection: Connection,
}

impl View for Client {
    type V = Tables;

    closed spec fn view(&self) -> Tables {
        self.connection@
    }
}

impl Client {
    /// A client over `connection`.
    pub fn new(connection: Connection) -> (client: Client)
        ensures
            client@ == connection@,
    {
        Self { connection }
    }

    /// The connection that the client works on.
    pub fn connection(&self) -> (connection: &Connection)
        ensures
            connection@ == self@,
    {
        &self.connection
    }

    /// Caches `contributor`, in place of whoever was cached under the same
    /// identity.
    pub fn upsert_contributor(&mut self, contributor: Contributor)
        ensures
            final(self)@ == (Tables {
                contributors: old(self)@.contributors.insert(contributor.id, contributor),
                ..old(self)@
            }),
            old(self)@.keyed() ==> final(self)@.keyed(),
    {
        self.connection.upsert_contributor(contributor)
    }
}

impl ContributorRepository for Client {
    open spec fn contributors(&self) -> Map<ContributorId, Contributor> {
        self@.contributors
    }

    open spec fn always_answers(&self) -> bool {
        true
    }

    /// The cached contributor `id`; the cache always answers.
    fn by_id(&self, id: ContributorId) -> (found: Result<Option<Contributor>, Error>) {
        Ok(self.connection.contributor(id))
    }
}

impl ApplicationRepository for Client {
    open spec fn applications(&self) -> Seq<Application> {
        self@.applications
    }

    open spec fn always_stores(&self) -> bool {
        true
    }

    /// Records `application` in the cache, which always takes it, and
    /// touches no other table.
    fn store(&mut self, application: Application) -> (stored: Result<(), Error>)
        ensures
            final(self)@ == (Tables {
                applications: old(self)@.applications.push(application),
                ..old(self)@
            }),
    {
        self.connection.store_application(application);
        Ok(())
    }
}

} // verus!
