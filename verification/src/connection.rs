//! The tables of the relational cache.

use vstd::prelude::*;
use std::collections::HashMap;
use crate::domain::{
    Application, ContributionId, Contributor, ContributorId, ProjectFilter, ProjectId, WorkItem,
    WorkItemId,
};
use crate::errors::StoreError;
use crate::models::{
    AssignContributionForm, CacheWrite, CacheWriteView, ContributionRow, ContributionRowView,
    NewContribution, ProjectRow, ValidateContributionForm,
};

verus! {

/// What the cache holds, table by table.
pub struct Tables {
    pub contributions: Map<ContributionId, ContributionRowView>,
    pub projects: Seq<ProjectRow>,
    pub contributors: Map<ContributorId, Contributor>,
    pub work_items: Map<WorkItemId, WorkItem>,
    pub applications: Seq<Application>,
}

impl Tables {
    /// Every row is found under its own identity, a project's identity is
    /// its position, and no two projects share owner and name.
    pub open spec fn keyed(&self) -> bool {
        &&& forall|id: ContributionId| #[trigger]
            self.contributions.contains_key(id) ==> self.contributions[id].contribution.id == id
        &&& forall|id: ContributorId| #[trigger]
            self.contributors.contains_key(id) ==> self.contributors[id].id == id
        &&& forall|id: WorkItemId| #[trigger]
            self.work_items.contains_key(id) ==> self.work_items[id].id == id
        &&& forall|i: int| 0 <= i < self.projects.len() ==> (#[trigger] self.projects[i]).id == i
        &&& forall|i: int, j: int|
            0 <= i < j < self.projects.len() ==> !#[trigger] same_name(
                self.projects[i],
                self.projects[j],
            )
    }

    /// Whether some project has the given owner and name.
    pub open spec fn has_project(&self, owner: Seq<char>, name: Seq<char>) -> bool {
        exists|i: int| 0 <= i < self.projects.len() && named(#[trigger] self.projects[i], owner, name)
    }
}

/// Whether `row` is the project with the given owner and name.
pub open spec fn named(row: ProjectRow, owner: Seq<char>, name: Seq<char>) -> bool {
    row.owner@ == owner && row.name@ == name
}

/// Whether two rows stand for the same project: same owner, same name.
pub open spec fn same_name(first: ProjectRow, second: ProjectRow) -> bool {
    named(first, second.owner@, second.name@)
}

/// The table of contributions after `write`, or the reason why the write
/// does not apply: an insertion needs the identity to be free, an update
/// needs the row to be there.
pub open spec fn written(
    rows: Map<ContributionId, ContributionRowView>,
    write: CacheWriteView,
) -> Result<Map<ContributionId, ContributionRowView>, StoreError> {
    if write is Insert {
        if rows.contains_key(write.id()) {
            Err(StoreError::RowExists)
        } else {
            Ok(rows.insert(write.id(), write.row(arbitrary())))
        }
    } else {
        if rows.contains_key(write.id()) {
            Ok(rows.insert(write.id(), write.row(rows[write.id()])))
        } else {
            Err(StoreError::RowMissing)
        }
    }
}

/// A handle on the tables of the relational cache.
pub struct Connection {
    contributions: HashMap<u64, ContributionRow>,
    projects: Vec<ProjectRow>,
    contributors: HashMap<u64, Contributor>,
    work_items: HashMap<u64, WorkItem>,
    applications: Vec<Application>,
}

impl View for Connection {
    type V = Tables;

    closed spec fn view(&self) -> Tables {
        Tables {
            contributions: Map::new(
                |id: ContributionId| self.contributions@.contains_key(id.0),
                |id: ContributionId| self.contributions@[id.0]@,
            ),
            projects: self.projects@,
            contributors: Map::new(
                |id: ContributorId| self.contributors@.contains_key(id.0),
                |id: ContributorId| self.contributors@[id.0],
            ),
            work_items: Map::new(
                |id: WorkItemId| self.work_items@.contains_key(id.0),
                |id: WorkItemId| self.work_items@[id.0],
            ),
            applications: self.applications@,
        }
    }
}

impl Connection {
    /// A cache with nothing in it.
    pub fn new() -> (connection: Connection)
        ensures
            connection@.contributions == Map::<ContributionId, ContributionRowView>::empty(),
            connection@.projects == Seq::<ProjectRow>::empty(),
            connection@.contributors == Map::<ContributorId, Contributor>::empty(),
            connection@.work_items == Map::<WorkItemId, WorkItem>::empty(),
            connection@.applications == Seq::<Application>::empty(),
            connection@.keyed(),
    {
        let connection = Connection {
            contributions: HashMap::new(),
            projects: Vec::new(),
            contributors: HashMap::new(),
            work_items: HashMap::new(),
            applications: Vec::new(),
        };
        proof {
            assert(connection@.contributions =~= Map::<ContributionId, ContributionRowView>::empty());
            assert(connection@.contributors =~= Map::<ContributorId, Contributor>::empty());
            assert(connection@.work_items =~= Map::<WorkItemId, WorkItem>::empty());
        }
        connection
    }

    /// The cached row of contribution `id`, if there is one.
    pub fn contribution(&self, id: ContributionId) -> (found: Option<ContributionRow>)
        ensures
            match found {
                Some(row) => self@.contributions.contains_key(id) && row@
                    == self@.contributions[id],
                None => !self@.contributions.contains_key(id),
            },
    {
        match self.contributions.get(&id.0) {
            Some(row) => Some(row.clone()),
            None => None,
        }
    }

    /// Inserts a contribution, unless its identity is taken.
    pub fn insert_contribution(&mut self, form: NewContribution) -> (result: Result<(), StoreError>)
        ensures
            match written(old(self)@.contributions, CacheWrite::Insert(form)@) {
                Ok(rows) => result is Ok && final(self)@ == (Tables {
                    contributions: rows,
                    ..old(self)@
                }),
                Err(error) => result == Err::<(), StoreError>(error) && final(self)@ == old(self)@,
            },
            old(self)@.keyed() ==> final(self)@.keyed(),
    {
        let ghost write = CacheWrite::Insert(form)@;
        if self.contributions.contains_key(&form.id.0) {
            return Err(StoreError::RowExists);
        }
        let row = ContributionRow {
            contribution: crate::domain::Contribution {
                id: form.id,
                project_id: form.project_id,
                reference: form.reference,
                status: form.status,
                contributor_id: form.contributor_id,
            },
            transaction_hash: form.transaction_hash,
        };
        self.contributions.insert(form.id.0, row);
        proof {
            assert(self@.contributions =~= written(old(self)@.contributions, write).unwrap());
            assert(self@.contributors =~= old(self)@.contributors);
            assert(self@.work_items =~= old(self)@.work_items);
        }
        Ok(())
    }

    /// Updates status and contributor of a cached contribution, and the
    /// transaction it is tagged with.
    pub fn save_assignment(&mut self, form: AssignContributionForm) -> (result: Result<
        (),
        StoreError,
    >)
        ensures
            match written(old(self)@.contributions, CacheWrite::Assign(form)@) {
                Ok(rows) => result is Ok && final(self)@ == (Tables {
                    contributions: rows,
                    ..old(self)@
                }),
                Err(error) => result == Err::<(), StoreError>(error) && final(self)@ == old(self)@,
            },
            old(self)@.keyed() ==> final(self)@.keyed(),
    {
        let ghost write = CacheWrite::Assign(form)@;
        let before = match self.contributions.get(&form.id.0) {
            Some(row) => row.contribution,
            None => {
                return Err(StoreError::RowMissing);
            },
        };
        let row = ContributionRow {
            contribution: crate::domain::Contribution {
                id: before.id,
                project_id: before.project_id,
                reference: before.reference,
                status: form.status,
                contributor_id: form.contributor_id,
            },
            transaction_hash: form.transaction_hash,
        };
        self.contributions.insert(form.id.0, row);
        proof {
            assert(self@.contributions =~= written(old(self)@.contributions, write).unwrap());
            assert(self@.contributors =~= old(self)@.contributors);
            assert(self@.work_items =~= old(self)@.work_items);
        }
        Ok(())
    }

    /// Updates the status of a cached contribution, and the transaction it
    /// is tagged with.
    pub fn save_validation(&mut self, form: ValidateContributionForm) -> (result: Result<
        (),
        StoreError,
    >)
        ensures
            match written(old(self)@.contributions, CacheWrite::Validate(form)@) {
                Ok(rows) => result is Ok && final(self)@ == (Tables {
                    contributions: rows,
                    ..old(self)@
                }),
                Err(error) => result == Err::<(), StoreError>(error) && final(self)@ == old(self)@,
            },
            old(self)@.keyed() ==> final(self)@.keyed(),
    {
        let ghost write = CacheWrite::Validate(form)@;
        let before = match self.contributions.get(&form.id.0) {
            Some(row) => row.contribution,
            None => {
                return Err(StoreError::RowMissing);
            },
        };
        let row = ContributionRow {
            contribution: crate::domain::Contribution {
                id: before.id,
                project_id: before.project_id,
                reference: before.reference,
                status: form.status,
                contributor_id: before.contributor_id,
            },
            transaction_hash: form.transaction_hash,
        };
        self.contributions.insert(form.id.0, row);
        proof {
            assert(self@.contributions =~= written(old(self)@.contributions, write).unwrap());
            assert(self@.contributors =~= old(self)@.contributors);
            assert(self@.work_items =~= old(self)@.work_items);
        }
        Ok(())
    }

    /// Carries out one write to the table of contributions.
    pub fn perform(&mut self, write: CacheWrite) -> (result: Result<(), StoreError>)
        ensures
            match written(old(self)@.contributions, write@) {
                Ok(rows) => result is Ok && final(self)@ == (Tables {
                    contributions: rows,
                    ..old(self)@
                }),
                Err(error) => result == Err::<(), StoreError>(error) && final(self)@ == old(self)@,
            },
            old(self)@.keyed() ==> final(self)@.keyed(),
    {
        match write {
            CacheWrite::Insert(form) => self.insert_contribution(form),
            CacheWrite::Assign(form) => self.save_assignment(form),
            CacheWrite::Validate(form) => self.save_validation(form),
        }
    }

    /// The cached projects that pass `filter`, in the order in which they
    /// were cached.
    pub fn load_projects(&self, filter: &ProjectFilter) -> (rows: Vec<ProjectRow>)
        ensures
            rows@ == self@.projects.filter(selects(*filter)),
    {
        let mut rows: Vec<ProjectRow> = Vec::new();
        let mut index: usize = 0;
        proof {
            reveal(Seq::filter);
            assert(self.projects@.take(0) =~= Seq::<ProjectRow>::empty());
        }
        while index < self.projects.len()
            invariant
                index <= self.projects@.len(),
                rows@ == self.projects@.take(index as int).filter(selects(*filter)),
            decreases self.projects@.len() - index,
        {
            let row = &self.projects[index];
            proof {
                reveal(Seq::filter);
                let longer = self.projects@.take(index as int + 1);
                assert(longer.drop_last() =~= self.projects@.take(index as int));
                assert(longer.last() == self.projects@[index as int]);
            }
            if filter.matches(&row.owner, &row.name) {
                rows.push(row.clone());
            }
            index += 1;
        }
        proof {
            assert(self.projects@.take(index as int) =~= self.projects@);
        }
        rows
    }

    /// The identity of the project with the given owner and name, cached
    /// now if it was not cached before.
    pub fn upsert_project(&mut self, owner: String, name: String) -> (id: ProjectId)
        ensures
            old(self)@.keyed() ==> final(self)@.keyed(),
            id.0 < final(self)@.projects.len(),
            named(final(self)@.projects[id.0 as int], owner@, name@),
            old(self)@.has_project(owner@, name@) ==> final(self)@ == old(self)@,
            !old(self)@.has_project(owner@, name@) ==> final(self)@ == (Tables {
                projects: old(self)@.projects.push(
                    ProjectRow { id: old(self)@.projects.len() as u64, owner, name },
                ),
                ..old(self)@
            }),
    {
        let mut index: usize = 0;
        while index < self.projects.len()
            invariant
                index <= self.projects@.len(),
                *self == *old(self),
                forall|k: int| 0 <= k < index ==> !named(#[trigger] self.projects@[k], owner@, name@),
            decreases self.projects@.len() - index,
        {
            let row = &self.projects[index];
            if row.owner == owner && row.name == name {
                return ProjectId(index as u64);
            }
            index += 1;
        }
        let id = index as u64;
        let ghost pushed = ProjectRow { id, owner, name };
        self.projects.push(ProjectRow { id, owner, name });
        proof {
            assert(self@.contributions =~= old(self)@.contributions);
            assert(self@.contributors =~= old(self)@.contributors);
            assert(self@.work_items =~= old(self)@.work_items);
            assert(self@.projects =~= old(self)@.projects.push(pushed));
            if old(self)@.keyed() {
                assert forall|i: int, j: int|
                    0 <= i < j < self@.projects.len() implies !#[trigger] same_name(
                    self@.projects[i],
                    self@.projects[j],
                ) by {
                    if j < old(self)@.projects.len() {
                        assert(!same_name(old(self)@.projects[i], old(self)@.projects[j]));
                    }
                }
            }
        }
        ProjectId(id)
    }

    /// The cached contributor `id`, if there is one.
    pub fn contributor(&self, id: ContributorId) -> (found: Option<Contributor>)
        ensures
            found == (if self@.contributors.contains_key(id) {
                Some(self@.contributors[id])
            } else {
                None
            }),
    {
        match self.contributors.get(&id.0) {
            Some(contributor) => Some(*contributor),
            None => None,
        }
    }

    /// Caches `contributor`, in place of whoever was cached under the same
    /// identity.
    pub fn upsert_contributor(&mut self, contributor: Contributor)
        ensures
            final(self)@ == (Tables {
                contributors: old(self)@.contributors.insert(contributor.id, contributor),
                ..old(self)@
            }),
            old(self)@.keyed() ==> final(self)@.keyed(),
    {
        self.contributors.insert(contributor.id.0, contributor);
        proof {
            assert(self@.contributions =~= old(self)@.contributions);
            assert(self@.contributors =~= old(self)@.contributors.insert(
                contributor.id,
                contributor,
            ));
            assert(self@.work_items =~= old(self)@.work_items);
        }
    }

    /// The cached work item `id`, if there is one.
    pub fn work_item(&self, id: WorkItemId) -> (found: Option<WorkItem>)
        ensures
            found == (if self@.work_items.contains_key(id) {
                Some(self@.work_items[id])
            } else {
                None
            }),
    {
        match self.work_items.get(&id.0) {
            Some(item) => Some(*item),
            None => None,
        }
    }

    /// Caches `item`, in place of what was cached under the same identity.
    pub fn upsert_work_item(&mut self, item: WorkItem)
        ensures
            final(self)@ == (Tables {
                work_items: old(self)@.work_items.insert(item.id, item),
                ..old(self)@
            }),
            old(self)@.keyed() ==> final(self)@.keyed(),
    {
        self.work_items.insert(item.id.0, item);
        proof {
            assert(self@.contributions =~= old(self)@.contributions);
            assert(self@.contributors =~= old(self)@.contributors);
            assert(self@.work_items =~= old(self)@.work_items.insert(item.id, item));
        }
    }

    /// Records `application` behind those already recorded.
    pub fn store_application(&mut self, application: Application)
        ensures
            final(self)@ == (Tables {
                applications: old(self)@.applications.push(application),
                ..old(self)@
            }),
            old(self)@.keyed() ==> final(self)@.keyed(),
    {
        self.applications.push(application);
        proof {
            assert(self@.contributions =~= old(self)@.contributions);
            assert(self@.contributors =~= old(self)@.contributors);
            assert(self@.work_items =~= old(self)@.work_items);
        }
    }

    /// The recorded applications, oldest first.
    pub fn applications(&self) -> (recorded: Vec<Application>)
        ensures
            recorded@ == self@.applications,
    {
        self.applications.clone()
    }
}

/// The test that `filter` makes of a cached project.
pub open spec fn selects(filter: ProjectFilter) -> spec_fn(ProjectRow) -> bool {
    |row: ProjectRow| filter.admits(row.owner@, row.name@)
}

} // verus!
