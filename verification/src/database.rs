//! Applying ledger-confirmed actions to the relational cache.

use vstd::prelude::*;
use itertools::Itertools;
use crate::connection::{named, selects, written, Connection, Tables};
use crate::domain::{
    Action, Contribution, ContributionId, ContributionStatus, ContributorId, Project,
    ProjectFilter, WorkItem, WorkItemId,
};
use crate::errors::{BatchFailure, StateError, StoreError};
use crate::models::{
    project_of, AssignContributionForm, CacheWrite, CacheWriteView, ContributionRow,
    ContributionRowView, NewContribution, ProjectRow, ValidateContributionForm,
};
use crate::state_machine::{apply, outcome, transition};

verus! {

/// The insertion of `contribution` as an open contribution with nobody
/// assigned, tagged with `hash`.
pub fn new_contribution(contribution: Contribution, hash: Option<String>) -> (form: NewContribution)
    ensures
        form == (NewContribution {
            id: contribution.id,
            project_id: contribution.project_id,
            reference: contribution.reference,
            status: ContributionStatus::Open,
            contributor_id: None,
            transaction_hash: hash,
        }),
{
    let mut form = NewContribution::from(contribution);
    form.status = ContributionStatus::Open;
    form.contributor_id = None;
    form.transaction_hash = hash;
    form
}

/// The update that assigns contribution `id` to `contributor_id`, tagged
/// with `hash`.
pub fn assign_contribution(
    id: ContributionId,
    contributor_id: ContributorId,
    hash: Option<String>,
) -> (form: AssignContributionForm)
    ensures
        form == (AssignContributionForm {
            id,
            status: ContributionStatus::Assigned,
            contributor_id: Some(contributor_id),
            transaction_hash: hash,
        }),
{
    AssignContributionForm {
        id,
        status: ContributionStatus::Assigned,
        contributor_id: Some(contributor_id),
        transaction_hash: hash,
    }
}

/// The update that reopens contribution `id` with nobody assigned, tagged
/// with `hash`.
pub fn unassign_contribution(id: ContributionId, hash: Option<String>) -> (form:
    AssignContributionForm)
    ensures
        form == (AssignContributionForm {
            id,
            status: ContributionStatus::Open,
            contributor_id: None,
            transaction_hash: hash,
        }),
{
    AssignContributionForm {
        id,
        status: ContributionStatus::Open,
        contributor_id: None,
        transaction_hash: hash,
    }
}

/// The update that completes contribution `id`, tagged with `hash`.
pub fn validate_contribution(id: ContributionId, hash: Option<String>) -> (form:
    ValidateContributionForm)
    ensures
        form == (ValidateContributionForm {
            id,
            status: ContributionStatus::Completed,
            transaction_hash: hash,
        }),
{
    ValidateContributionForm { id, status: ContributionStatus::Completed, transaction_hash: hash }
}

/// The one write that mirrors `action`, tagged with `reference`.
pub open spec fn planned_write(action: Action, reference: Seq<char>) -> CacheWriteView {
    match action {
        Action::CreateContribution { .. } => CacheWriteView::Insert {
            row: ContributionRowView {
                contribution: outcome(None, action),
                transaction_hash: Some(reference),
            },
        },
        Action::AssignContributor { contribution_id, contributor_id } => CacheWriteView::Assign {
            id: contribution_id,
            status: ContributionStatus::Assigned,
            contributor_id: Some(contributor_id),
            transaction_hash: Some(reference),
        },
        Action::UnassignContributor { contribution_id } => CacheWriteView::Assign {
            id: contribution_id,
            status: ContributionStatus::Open,
            contributor_id: None,
            transaction_hash: Some(reference),
        },
        Action::ValidateContribution { contribution_id } => CacheWriteView::Validate {
            id: contribution_id,
            status: ContributionStatus::Completed,
            transaction_hash: Some(reference),
        },
    }
}

/// Maps `action` to the one write that mirrors it in the cache, tagged with
/// the ledger transaction `hash`.
pub fn cache_write(action: &Action, hash: &str) -> (write: CacheWrite)
    ensures
        write@ == planned_write(*action, hash@),
{
    match *action {
        Action::CreateContribution { contribution } => CacheWrite::Insert(
            new_contribution(contribution, Some(hash.to_owned())),
        ),
        Action::AssignContributor { contribution_id, contributor_id } => CacheWrite::Assign(
            assign_contribution(contribution_id, contributor_id, Some(hash.to_owned())),
        ),
        Action::UnassignContributor { contribution_id } => CacheWrite::Assign(
            unassign_contribution(contribution_id, Some(hash.to_owned())),
        ),
        Action::ValidateContribution { contribution_id } => CacheWrite::Validate(
            validate_contribution(contribution_id, Some(hash.to_owned())),
        ),
    }
}

/// Whether `row` is tagged with `reference` and already stands as `action`
/// leaves it: applying the pair once more would change nothing.
pub open spec fn reflects(row: ContributionRowView, action: Action, reference: Seq<char>) -> bool {
    &&& row.transaction_hash == Some(reference)
    &&& match action {
        Action::CreateContribution { .. } => row.contribution == outcome(None, action),
        Action::AssignContributor { contributor_id, .. } => row.contribution.status
            == ContributionStatus::Assigned && row.contribution.contributor_id == Some(
            contributor_id,
        ),
        Action::UnassignContributor { .. } => row.contribution.status == ContributionStatus::Open
            && row.contribution.contributor_id is None,
        Action::ValidateContribution { .. } => row.contribution.status
            == ContributionStatus::Completed,
    }
}

/// The cached contribution of a row, where there is a row.
pub open spec fn cached(row: Option<ContributionRowView>) -> Option<Contribution> {
    match row {
        Some(row) => Some(row.contribution),
        None => None,
    }
}

/// The row under `id`, where there is one.
pub open spec fn row_at(
    rows: Map<ContributionId, ContributionRowView>,
    id: ContributionId,
) -> Option<ContributionRowView> {
    if rows.contains_key(id) {
        Some(rows[id])
    } else {
        None
    }
}

/// What a confirmed action asks of the cache, given the row it finds:
/// nothing where the row already reflects the pair, the write that mirrors
/// the action where the transition rules admit it, and the refusal where
/// they do not.
pub open spec fn planned(
    current: Option<ContributionRowView>,
    action: Action,
    reference: Seq<char>,
) -> Result<Option<CacheWriteView>, StoreError> {
    if current is Some && reflects(current.unwrap(), action, reference) {
        Ok(None)
    } else {
        match transition(cached(current), action) {
            Ok(_) => Ok(Some(planned_write(action, reference))),
            Err(refusal) => Err(StoreError::Refused(refusal)),
        }
    }
}

/// The table of contributions once the confirmed `action` has been mirrored
/// under `reference`: unchanged where the row already reflects the pair,
/// else holding the contribution as the state machine leaves it, tagged with
/// `reference`; or the refusal of the state machine, and then nothing is
/// written.
pub open spec fn confirmed(
    rows: Map<ContributionId, ContributionRowView>,
    action: Action,
    reference: Seq<char>,
) -> Result<Map<ContributionId, ContributionRowView>, StoreError> {
    let id = action.contribution_id();
    if rows.contains_key(id) && reflects(rows[id], action, reference) {
        Ok(rows)
    } else {
        match transition(cached(row_at(rows, id)), action) {
            Ok(next) => Ok(
                rows.insert(
                    id,
                    ContributionRowView { contribution: next, transaction_hash: Some(reference) },
                ),
            ),
            Err(refusal) => Err(StoreError::Refused(refusal)),
        }
    }
}

/// The view of a row, where there is one.
pub open spec fn row_view(row: Option<ContributionRow>) -> Option<ContributionRowView> {
    match row {
        Some(row) => Some(row@),
        None => None,
    }
}

/// Decides what the confirmed `action` asks of the cache, given `current`,
/// the cached row of the contribution that the action names: `Ok(None)` for
/// a pair that the row already reflects, the write to carry out, or the
/// refusal of the transition rules.
pub fn plan_confirmed(current: &Option<ContributionRow>, action: &Action, reference: &str) -> (plan:
    Result<Option<CacheWrite>, StoreError>)
    ensures
        match planned(row_view(*current), *action, reference@) {
            Ok(None) => plan matches Ok(None),
            Ok(Some(expected)) => plan matches Ok(Some(write)) && write@ == expected,
            Err(error) => plan matches Err(refused) && refused == error,
        },
{
    let tag = reference.to_owned();
    let existing = match current {
        Some(row) => {
            let tagged = match &row.transaction_hash {
                Some(hash) => *hash == tag,
                None => false,
            };
            let stands = match *action {
                Action::CreateContribution { contribution } => {
                    row.contribution.id == contribution.id && row.contribution.project_id
                        == contribution.project_id && row.contribution.reference
                        == contribution.reference && row.contribution.status
                        == ContributionStatus::Open && row.contribution.contributor_id.is_none()
                },
                Action::AssignContributor { contributor_id, .. } => {
                    row.contribution.status == ContributionStatus::Assigned
                        && row.contribution.contributor_id == Some(contributor_id)
                },
                Action::UnassignContributor { .. } => {
                    row.contribution.status == ContributionStatus::Open
                        && row.contribution.contributor_id.is_none()
                },
                Action::ValidateContribution { .. } => {
                    row.contribution.status == ContributionStatus::Completed
                },
            };
            if tagged && stands {
                return Ok(None);
            }
            Some(row.contribution)
        },
        None => None,
    };
    match apply(existing, action) {
        Ok(_) => Ok(Some(cache_write(action, reference))),
        Err(refusal) => Err(StoreError::Refused(refusal)),
    }
}

/// Converts each row into the project it stands for with
/// `itertools::Itertools::map_into`, which hands every item of the iterator to
/// `Into::into` and yields the results in the same order, one for one.
#[verifier::external_body]
fn rows_into_projects(rows: Vec<ProjectRow>) -> (projects: Vec<Project>)
    ensures
        projects@ == rows@.map_values(|row: ProjectRow| project_of(row)),
{
    rows.into_iter().map_into().collect()
}

/// The test of having the given owner and name.
pub open spec fn named_as(owner: Seq<char>, name: Seq<char>) -> spec_fn(ProjectRow) -> bool {
    |row: ProjectRow| named(row, owner, name)
}

/// Two tests that agree on every row select the same rows.
proof fn lemma_filter_agrees(
    rows: Seq<ProjectRow>,
    first: spec_fn(ProjectRow) -> bool,
    second: spec_fn(ProjectRow) -> bool,
)
    requires
        forall|row: ProjectRow| #[trigger] first(row) == second(row),
    ensures
        rows.filter(first) == rows.filter(second),
    decreases rows.len(),
{
    reveal(Seq::filter);
    if rows.len() > 0 {
        lemma_filter_agrees(rows.drop_last(), first, second);
    }
}

/// A test that no two rows of `rows` pass together selects at most one row.
proof fn lemma_exclusive_filter_is_short(rows: Seq<ProjectRow>, test: spec_fn(ProjectRow) -> bool)
    requires
        forall|i: int, j: int|
            0 <= i < j < rows.len() ==> !(test(#[trigger] rows[i]) && test(#[trigger] rows[j])),
    ensures
        rows.filter(test).len() <= 1,
    decreases rows.len(),
{
    reveal(Seq::filter);
    if rows.len() > 0 {
        let earlier = rows.drop_last();
        assert forall|i: int, j: int| 0 <= i < j < earlier.len() implies !(test(
            #[trigger] earlier[i],
        ) && test(#[trigger] earlier[j])) by {
            assert(earlier[i] == rows[i] && earlier[j] == rows[j]);
        }
        lemma_exclusive_filter_is_short(earlier, test);
        if test(rows.last()) {
            assert forall|i: int| 0 <= i < earlier.len() implies !test(#[trigger] earlier[i]) by {
                assert(earlier[i] == rows[i]);
                assert(rows.last() == rows[rows.len() - 1]);
            }
            earlier.lemma_all_neg_filter_empty(test);
        }
    }
}

/// The cache as the reconciliation worker writes it.
pub struct API {
    connection: Connection,
}

impl View for API {
    type V = Tables;

    closed spec fn view(&self) -> Tables {
        self.connection@
    }
}

impl API {
    /// A cache layer over `connection`.
    pub fn new(connection: Connection) -> (api: API)
        ensures
            api@ == connection@,
    {
        API { connection }
    }

    /// The cached row of contribution `id`, if there is one.
    pub fn contribution(&self, id: ContributionId) -> (found: Option<ContributionRow>)
        ensures
            row_view(found) == row_at(self@.contributions, id),
    {
        self.connection.contribution(id)
    }

    /// The connection that the cache layer works on.
    pub fn connection(&self) -> (connection: &Connection)
        ensures
            connection@ == self@,
    {
        &self.connection
    }

    /// The cached projects with the given owner and name, as a list; owner
    /// and name are unique together, so there is at most one.
    pub fn find_projects_by_owner_and_name(&self, project_owner: &str, project_name: &str) -> (projects:
        Vec<Project>)
        ensures
            projects@ == self@.projects.filter(named_as(project_owner@, project_name@)).map_values(
                |row: ProjectRow| project_of(row),
            ),
            self@.keyed() ==> projects@.len() <= 1,
    {
        let filter = ProjectFilter {
            owner: Some(project_owner.to_owned()),
            name: Some(project_name.to_owned()),
        };
        let results = self.connection.load_projects(&filter);
        proof {
            lemma_filter_agrees(
                self@.projects,
                selects(filter),
                named_as(project_owner@, project_name@),
            );
            if self@.keyed() {
                let test = named_as(project_owner@, project_name@);
                assert forall|i: int, j: int| 0 <= i < j < self@.projects.len() implies !(test(
                    #[trigger] self@.projects[i],
                ) && test(#[trigger] self@.projects[j])) by {
                    assert(!crate::connection::same_name(self@.projects[i], self@.projects[j]));
                }
                lemma_exclusive_filter_is_short(self@.projects, test);
            }
        }
        rows_into_projects(results)
    }

    /// The cached projects that pass `filter`, in the order in which they
    /// were cached.
    pub fn find_projects(&self, filter: &ProjectFilter) -> (projects: Vec<Project>)
        ensures
            projects@ == self@.projects.filter(selects(*filter)).map_values(
                |row: ProjectRow| project_of(row),
            ),
    {
        let results = self.connection.load_projects(filter);
        rows_into_projects(results)
    }

    /// The identity of the project with the given owner and name, cached
    /// now if it was not cached before.
    pub fn upsert_project(&mut self, owner: String, name: String) -> (id: crate::domain::ProjectId)
        ensures
            old(self)@.keyed() ==> final(self)@.keyed(),
            id.0 < final(self)@.projects.len(),
            named(final(self)@.projects[id.0 as int], owner@, name@),
            old(self)@.has_project(owner@, name@) ==> final(self)@ == old(self)@,
            !old(self)@.has_project(owner@, name@) ==> final(self)@ == (Tables {
                projects: old(self)@.projects.push(
                    ProjectRow { id: old(self)@.projects.len() as u64, owner, name },
                ),
                ..old(self)@
            }),
    {
        self.connection.upsert_project(owner, name)
    }

    /// The cached work item `id`, if there is one.
    pub fn work_item(&self, id: WorkItemId) -> (found: Option<WorkItem>)
        ensures
            found == (if self@.work_items.contains_key(id) {
                Some(self@.work_items[id])
            } else {
                None
            }),
    {
        self.connection.work_item(id)
    }

    /// Caches `item`, in place of what was cached under the same identity.
    pub fn upsert_work_item(&mut self, item: WorkItem)
        ensures
            final(self)@ == (Tables {
                work_items: old(self)@.work_items.insert(item.id, item),
                ..old(self)@
            }),
            old(self)@.keyed() ==> final(self)@.keyed(),
    {
        self.connection.upsert_work_item(item)
    }

    /// Mirrors the ledger-confirmed `action` in the cache, tagged with the
    /// transaction `reference`. Applying a pair that the cache already
    /// reflects changes nothing and succeeds.
    pub fn apply_confirmed(&mut self, action: &Action, reference: &str) -> (result: Result<
        (),
        StoreError,
    >)
        ensures
            match confirmed(old(self)@.contributions, *action, reference@) {
                Ok(rows) => result is Ok && final(self)@ == (Tables {
                    contributions: rows,
                    ..old(self)@
                }),
                Err(error) => result == Err::<(), StoreError>(error) && final(self)@ == old(self)@,
            },
            old(self)@.keyed() ==> final(self)@.keyed(),
    {
        let current = self.connection.contribution(action.contribution_id());
        match plan_confirmed(&current, action, reference) {
            Ok(None) => Ok(()),
            Ok(Some(write)) => {
                proof {
                    lemma_planned_write_applies(
                        old(self)@.contributions,
                        *action,
                        reference@,
                    );
                }
                self.connection.perform(write)
            },
            Err(error) => Err(error),
        }
    }

    /// Mirrors a batch of ledger-confirmed actions under one transaction
    /// `hash`, in order. The batch is not atomic: it stops at the first
    /// action that fails and reports it, and what was applied before stays
    /// applied.
    pub fn execute_actions(&mut self, actions: &[Action], hash: &str) -> (result: Result<
        (),
        BatchFailure,
    >)
        ensures
            match result {
                Ok(()) => executed(old(self)@.contributions, actions@, hash@) == Ok::<
                    Map<ContributionId, ContributionRowView>,
                    StoreError,
                >(final(self)@.contributions),
                Err(failure) => {
                    &&& failure.index < actions@.len()
                    &&& executed(
                        old(self)@.contributions,
                        actions@.take(failure.index as int),
                        hash@,
                    ) == Ok::<Map<ContributionId, ContributionRowView>, StoreError>(
                        final(self)@.contributions,
                    )
                    &&& confirmed(
                        final(self)@.contributions,
                        actions@[failure.index as int],
                        hash@,
                    ) == Err::<Map<ContributionId, ContributionRowView>, StoreError>(failure.error)
                },
            },
            final(self)@ == (Tables { contributions: final(self)@.contributions, ..old(self)@ }),
            old(self)@.keyed() ==> final(self)@.keyed(),
    {
        let mut index: usize = 0;
        proof {
            assert(actions@.take(0) =~= Seq::<Action>::empty());
        }
        while index < actions.len()
            invariant
                index <= actions@.len(),
                executed(old(self)@.contributions, actions@.take(index as int), hash@) == Ok::<
                    Map<ContributionId, ContributionRowView>,
                    StoreError,
                >(self@.contributions),
                self@ == (Tables { contributions: self@.contributions, ..old(self)@ }),
                old(self)@.keyed() ==> self@.keyed(),
            decreases actions@.len() - index,
        {
            match self.apply_confirmed(&actions[index], hash) {
                Ok(()) => {
                    proof {
                        let longer = actions@.take(index as int + 1);
                        assert(longer.drop_last() =~= actions@.take(index as int));
                        assert(longer.last() == actions@[index as int]);
                    }
                },
                Err(error) => {
                    return Err(BatchFailure { index, error });
                },
            }
            index += 1;
        }
        proof {
            assert(actions@.take(index as int) =~= actions@);
        }
        Ok(())
    }
}

/// The table of contributions once every action of the batch has been
/// mirrored in order, or the failure of the first action that fails.
pub open spec fn executed(
    rows: Map<ContributionId, ContributionRowView>,
    actions: Seq<Action>,
    reference: Seq<char>,
) -> Result<Map<ContributionId, ContributionRowView>, StoreError>
    decreases actions.len(),
{
    if actions.len() == 0 {
        Ok(rows)
    } else {
        match executed(rows, actions.drop_last(), reference) {
            Ok(so_far) => confirmed(so_far, actions.last(), reference),
            Err(error) => Err(error),
        }
    }
}

/// The write that is planned for an action agrees with the state machine:
/// carried out on the table, it leaves the contribution exactly as the
/// transition does, tagged with the reference, and it never fails for want
/// of a row or for a row in the way.
pub proof fn lemma_planned_write_applies(
    rows: Map<ContributionId, ContributionRowView>,
    action: Action,
    reference: Seq<char>,
)
    ensures
        match planned(row_at(rows, action.contribution_id()), action, reference) {
            Ok(None) => confirmed(rows, action, reference) == Ok::<
                Map<ContributionId, ContributionRowView>,
                StoreError,
            >(rows),
            Ok(Some(write)) => written(rows, write) == confirmed(rows, action, reference)
                && confirmed(rows, action, reference) is Ok,
            Err(error) => confirmed(rows, action, reference) == Err::<
                Map<ContributionId, ContributionRowView>,
                StoreError,
            >(error),
        },
{
}

/// Every row is found under the identity of the contribution it holds.
pub open spec fn keyed(rows: Map<ContributionId, ContributionRowView>) -> bool {
    forall|id: ContributionId| #[trigger]
        rows.contains_key(id) ==> rows[id].contribution.id == id
}

/// Every cached contribution records a contributor exactly while it is
/// assigned or completed.
pub open spec fn all_valid(rows: Map<ContributionId, ContributionRowView>) -> bool {
    forall|id: ContributionId| #[trigger]
        rows.contains_key(id) ==> rows[id].contribution.valid()
}

/// Mirroring the same action under the same reference twice leaves the
/// cache as mirroring it once does, and the second time succeeds.
pub proof fn lemma_apply_confirmed_idempotent(
    rows: Map<ContributionId, ContributionRowView>,
    action: Action,
    reference: Seq<char>,
)
    ensures
        confirmed(rows, action, reference) matches Ok(once) ==> confirmed(once, action, reference)
            == Ok::<Map<ContributionId, ContributionRowView>, StoreError>(once),
{
}

/// Once a contribution has been created in the cache, creating it again
/// changes nothing. The same contribution under the same reference is taken
/// as a replay and succeeds; under any other reference, or with other
/// contents, the creation is refused as `AlreadyExists`.
pub proof fn lemma_second_creation_changes_nothing(
    rows: Map<ContributionId, ContributionRowView>,
    first: Contribution,
    first_reference: Seq<char>,
    second: Contribution,
    second_reference: Seq<char>,
)
    requires
        first.id == second.id,
        confirmed(rows, Action::CreateContribution { contribution: first }, first_reference) is Ok,
    ensures
        ({
            let once = confirmed(
                rows,
                Action::CreateContribution { contribution: first },
                first_reference,
            ).unwrap();
            let again = confirmed(
                once,
                Action::CreateContribution { contribution: second },
                second_reference,
            );
            let replayed = second_reference == first_reference && second.project_id
                == first.project_id && second.reference == first.reference;
            if replayed {
                again == Ok::<Map<ContributionId, ContributionRowView>, StoreError>(once)
            } else {
                again == Err::<Map<ContributionId, ContributionRowView>, StoreError>(
                    StoreError::Refused(StateError::AlreadyExists),
                )
            }
        }),
{
}

/// A mirrored action touches the row of its own contribution only, keeps
/// rows under their identities and valid, and moves the status of a row that
/// was there along the lifecycle or not at all.
pub proof fn lemma_confirmed_keeps_cache_consistent(
    rows: Map<ContributionId, ContributionRowView>,
    action: Action,
    reference: Seq<char>,
)
    requires
        keyed(rows),
    ensures
        confirmed(rows, action, reference) matches Ok(after) ==> {
            &&& keyed(after)
            &&& all_valid(rows) ==> all_valid(after)
            &&& after.dom() == rows.dom().insert(action.contribution_id())
            &&& forall|id: ContributionId|
                id != action.contribution_id() && rows.contains_key(id) ==> #[trigger] after[id]
                    == rows[id]
            &&& rows.contains_key(action.contribution_id()) ==> {
                let before = rows[action.contribution_id()].contribution.status;
                let now = after[action.contribution_id()].contribution.status;
                now == before || crate::state_machine::lifecycle_step(before, now)
            }
        },
{
    if confirmed(rows, action, reference) is Ok {
        let after = confirmed(rows, action, reference).unwrap();
        if all_valid(rows) {
            crate::state_machine::lemma_transition_keeps_validity(
                cached(row_at(rows, action.contribution_id())),
                action,
            );
        }
        assert(after.dom() =~= rows.dom().insert(action.contribution_id()));
    }
}

/// An action that the transition rules admit on the cached contribution is
/// mirrored as the state machine leaves it, tagged with the reference of its
/// confirmation, whatever the reference is.
pub proof fn lemma_admitted_action_is_mirrored(
    rows: Map<ContributionId, ContributionRowView>,
    action: Action,
    reference: Seq<char>,
)
    ensures
        transition(cached(row_at(rows, action.contribution_id())), action) matches Ok(next)
            ==> confirmed(rows, action, reference) == Ok::<
            Map<ContributionId, ContributionRowView>,
            StoreError,
        >(
            rows.insert(
                action.contribution_id(),
                ContributionRowView { contribution: next, transaction_hash: Some(reference) },
            ),
        ),
{
}

} // verus!
