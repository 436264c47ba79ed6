use deathnote_contributions_feeder::application::{
    apply_to_contribution, store_application, GetContributorById, Usecase,
};
use deathnote_contributions_feeder::connection::Connection;
use deathnote_contributions_feeder::domain::{
    Application, ApplicationId, ContributionId, Contributor, ContributorId,
};
use deathnote_contributions_feeder::infrastructure::Client;
use deathnote_contributions_feeder::repositories::{
    ApplicationRepository, ContributorRepository, UuidRepository,
};

struct FixedId(u128);

impl UuidRepository for FixedId {
    fn new_random(&self) -> ApplicationId {
        ApplicationId(self.0)
    }
}

#[test]
fn contributor_is_found_by_identity() {
    let mut client = Client::new(Connection::new());
    let contributor = Contributor { id: ContributorId(11), github_identifier: 990 };
    client.upsert_contributor(contributor);
    let usecase = GetContributorById::new(client);
    assert_eq!(usecase.execute(ContributorId(11)).unwrap(), Some(contributor));
    assert_eq!(usecase.execute(ContributorId(12)).unwrap(), None);
}

#[test]
fn later_contributor_replaces_earlier_one() {
    let mut client = Client::new(Connection::new());
    client.upsert_contributor(Contributor { id: ContributorId(11), github_identifier: 1 });
    client.upsert_contributor(Contributor { id: ContributorId(11), github_identifier: 2 });
    assert_eq!(
        client.by_id(ContributorId(11)).unwrap(),
        Some(Contributor { id: ContributorId(11), github_identifier: 2 })
    );
    assert_eq!(
        client.connection().contributor(ContributorId(11)),
        Some(Contributor { id: ContributorId(11), github_identifier: 2 })
    );
}

#[test]
fn application_is_stored_under_the_fresh_identity() {
    let mut client = Client::new(Connection::new());
    assert!(apply_to_contribution(&mut client, &FixedId(77), ContributionId(3), ContributorId(4))
        .is_ok());
    assert!(apply_to_contribution(&mut client, &FixedId(78), ContributionId(3), ContributorId(5))
        .is_ok());
    assert_eq!(
        client.connection().applications(),
        vec![
            Application {
                id: ApplicationId(77),
                contribution_id: ContributionId(3),
                contributor_id: ContributorId(4),
            },
            Application {
                id: ApplicationId(78),
                contribution_id: ContributionId(3),
                contributor_id: ContributorId(5),
            },
        ]
    );
}

#[test]
fn application_is_stored_under_the_given_identity() {
    let mut client = Client::new(Connection::new());
    assert!(store_application(&mut client, ApplicationId(5), ContributionId(1), ContributorId(2))
        .is_ok());
    assert_eq!(
        client.connection().applications(),
        vec![Application::new(ApplicationId(5), ContributionId(1), ContributorId(2))]
    );
    assert!(client
        .store(Application::new(ApplicationId(6), ContributionId(1), ContributorId(3)))
        .is_ok());
    assert_eq!(client.connection().applications().len(), 2);
}
