use sned_server::auth::{
    add_new_authenticator, authenticate_user, judge_message, open_message,
    update_and_get_authenticators, verify_signed_authenticator, AuthenticatorUpdate,
};
use sned_server::fresh::Fresh;
use sned_server::models::{Authenticator, User};
use sned_server::requests::{authenticator, resume_authenticator};
use sned_server::responses::{Refusal, Response};
use sned_server::statements::{Progress, Reply, Statement, StoreError};
use sned_server::time::{Timestamp, LAST_SECOND};
use sodiumoxide::base64;
use sodiumoxide::crypto::sign;

fn at(secs: i64) -> Timestamp {
    Timestamp { secs, nanos: 0 }
}

fn row(id: &str, expires: i64) -> Authenticator {
    Authenticator {
        id: id.to_string(),
        authenticator: format!("value of {}", id),
        expiration_date: at(expires),
    }
}

fn fresh(id: &str, secs: i64) -> Fresh {
    Fresh {
        id: id.to_string(),
        authenticator: format!("value of {}", id),
        now: at(secs),
        timestamp: at(secs),
    }
}

fn run(table: &mut Vec<Authenticator>, secs: i64) -> Result<Vec<Authenticator>, StoreError> {
    let mut step = update_and_get_authenticators();
    let mut turn = 0;
    loop {
        let (statement, machine) = match step {
            Progress::Ask(statement, machine) => (statement, machine),
            Progress::Done(list) => return Ok(list),
            Progress::Failed(error) => return Err(error),
        };
        let reply = match statement {
            Statement::AllAuthenticators => {
                table.sort_by_key(|row| (row.expiration_date.secs, row.expiration_date.nanos));
                Reply::Authenticators(table.clone())
            }
            Statement::DeleteAuthenticator { id } => {
                table.retain(|row| row.id != id);
                Reply::Executed
            }
            Statement::InsertAuthenticator(row) => {
                table.push(row);
                Reply::Executed
            }
            other => panic!("{:?}", other),
        };
        turn += 1;
        step = machine.resume(reply, fresh(&format!("new{}", turn), secs));
    }
}

#[test]
fn an_empty_table_is_filled_with_two() {
    let mut table = vec![];
    let list = run(&mut table, 1_000).unwrap();
    assert_eq!(list.len(), 2);
    assert_eq!(list, table);
    for row in &list {
        assert_eq!(row.expiration_date, at(1_300));
    }
}

#[test]
fn two_that_are_still_accepted_are_kept() {
    let mut table = vec![row("a", 880), row("b", 1_200)];
    let list = run(&mut table, 1_000).unwrap();
    assert_eq!(list, vec![row("a", 880), row("b", 1_200)]);
}

#[test]
fn one_whose_grace_period_is_over_is_replaced() {
    let mut table = vec![row("a", 879), row("b", 1_200)];
    let list = run(&mut table, 1_000).unwrap();
    assert_eq!(list.len(), 2);
    assert_eq!(list[0], row("b", 1_200));
    assert_eq!(list[1].expiration_date, at(1_300));
    assert!(table.iter().all(|row| row.id != "a"));
}

#[test]
fn two_whose_grace_periods_are_over_are_replaced() {
    let mut table = vec![row("a", 10), row("b", 879)];
    let list = run(&mut table, 1_000).unwrap();
    assert_eq!(list.len(), 2);
    assert!(list.iter().all(|row| row.expiration_date == at(1_300)));
}

#[test]
fn more_than_two_are_trimmed_from_the_front() {
    let mut table = vec![row("a", 990), row("b", 1_010), row("c", 1_020), row("d", 1_030)];
    let list = run(&mut table, 1_000).unwrap();
    assert_eq!(list, vec![row("c", 1_020), row("d", 1_030)]);
}

#[test]
fn a_new_authenticator_expires_after_its_lifespan() {
    match add_new_authenticator(&fresh("x", 100)) {
        Some(Statement::InsertAuthenticator(inserted)) => assert_eq!(inserted, row("x", 400)),
        other => panic!("{:?}", other),
    }
    assert_eq!(add_new_authenticator(&fresh("x", LAST_SECOND)), None);
}

#[test]
fn an_update_fails_where_the_calendar_ends() {
    let mut table = vec![];
    assert_eq!(run(&mut table, LAST_SECOND - 100), Err(StoreError::Failed));
    let mut table = vec![row("a", LAST_SECOND), row("b", LAST_SECOND)];
    assert_eq!(run(&mut table, 1_000), Err(StoreError::Failed));
}

#[test]
fn an_update_fails_with_the_database() {
    let machine = AuthenticatorUpdate::Filling { clock: None };
    let step = machine.resume(Reply::Failed(StoreError::Failed), fresh("x", 0));
    assert_eq!(step, Progress::Failed(StoreError::Failed));
    let machine = AuthenticatorUpdate::Listing;
    let step = machine.resume(Reply::Executed, fresh("x", 0));
    assert_eq!(step, Progress::Failed(StoreError::Failed));
}

#[test]
fn the_current_authenticator_is_the_one_that_expires_last() {
    let update = match authenticator() {
        Progress::Ask(statement, update) => {
            assert_eq!(statement, Statement::AllAuthenticators);
            update
        }
        other => panic!("{:?}", other),
    };
    let rows = vec![row("a", 1_000), row("b", 1_100)];
    let listing = match resume_authenticator(
        update,
        Reply::Authenticators(rows.clone()),
        fresh("x", 1_000),
    ) {
        Progress::Ask(statement, update) => {
            assert_eq!(statement, Statement::AllAuthenticators);
            update
        }
        other => panic!("{:?}", other),
    };
    let end = resume_authenticator(listing, Reply::Authenticators(rows), fresh("x", 1_000));
    assert_eq!(
        end,
        Progress::Done(Response { status: 200, body: "value of b".to_string() })
    );
}

#[test]
fn a_request_for_an_authenticator_fails_with_the_database() {
    let update = AuthenticatorUpdate::Filling { clock: None };
    let end = resume_authenticator(update, Reply::Failed(StoreError::Failed), fresh("x", 0));
    assert_eq!(end, Progress::Failed(Refusal::server_error()));
    let update = AuthenticatorUpdate::Listing;
    let end = resume_authenticator(update, Reply::Authenticators(vec![]), fresh("x", 0));
    assert_eq!(end, Progress::Failed(Refusal::Abandon));
}

fn encoded(bytes: &[u8]) -> String {
    base64::encode(bytes, base64::Variant::Original)
}

fn failed() -> Result<(), Refusal> {
    Err(Refusal::Answer(Response { status: 401, body: "Authentication failed".to_string() }))
}

#[test]
fn a_signature_under_either_authenticator_is_accepted() {
    sodiumoxide::init().unwrap();
    let (public, secret) = sign::gen_keypair();
    let key = encoded(&public.0);
    let rows = vec![row("a", 1), row("b", 2)];
    for name in vec!["value of a", "value of b"] {
        let signed = encoded(&sign::sign(name.as_bytes(), &secret));
        assert_eq!(verify_signed_authenticator(&rows, &key, &signed), Ok(()));
    }
    let other = encoded(&sign::sign(b"value of c", &secret));
    assert_eq!(verify_signed_authenticator(&rows, &key, &other), failed());
}

#[test]
fn only_the_right_key_opens_a_signature() {
    sodiumoxide::init().unwrap();
    let (public, secret) = sign::gen_keypair();
    let (stranger, _) = sign::gen_keypair();
    let rows = vec![row("a", 1), row("b", 2)];
    let message = sign::sign(b"value of a", &secret);
    let signed = encoded(&message);
    let key = encoded(&public.0);
    assert_eq!(verify_signed_authenticator(&rows, &encoded(&stranger.0), &signed), failed());
    assert_eq!(verify_signed_authenticator(&rows, "no base64!", &signed), failed());
    assert_eq!(verify_signed_authenticator(&rows, &key, "no base64!"), failed());
    assert_eq!(verify_signed_authenticator(&rows, &encoded(&public.0[1..]), &signed), failed());
    assert_eq!(verify_signed_authenticator(&rows, &encoded(&[7; 33]), &signed), failed());
    assert_eq!(verify_signed_authenticator(&rows, &key, ""), failed());
    assert_eq!(verify_signed_authenticator(&rows, &key, &encoded(b"value of a")), failed());
    let mut forged = message.clone();
    let last = forged.len() - 1;
    forged[last] ^= 1;
    assert_eq!(verify_signed_authenticator(&rows, &key, &encoded(&forged)), failed());
}

#[test]
fn a_signed_message_is_opened_with_the_key() {
    sodiumoxide::init().unwrap();
    let (public, secret) = sign::gen_keypair();
    let key = Some(public.0.to_vec());
    let signed = Some(sign::sign(b"hello", &secret));
    assert_eq!(open_message(&key, &signed), Some(b"hello".to_vec()));
    assert_eq!(open_message(&key, &Some(vec![0; 63])), None);
    assert_eq!(open_message(&key, &None), None);
    assert_eq!(open_message(&None, &signed), None);
    assert_eq!(open_message(&Some(public.0[..31].to_vec()), &signed), None);
}

#[test]
fn a_message_is_judged_by_the_first_two_authenticators() {
    let rows = vec![row("a", 1), row("b", 2), row("c", 3)];
    let message = |name: &str| Some(name.as_bytes().to_vec());
    assert_eq!(judge_message(&message("value of a"), &rows), Ok(()));
    assert_eq!(judge_message(&message("value of b"), &rows), Ok(()));
    assert_eq!(judge_message(&message("value of c"), &rows), failed());
    assert_eq!(judge_message(&None, &rows), failed());
    assert_eq!(judge_message(&message("value of a"), &vec![row("a", 1)]), Ok(()));
    assert_eq!(
        judge_message(&message("value of b"), &vec![row("a", 1)]),
        Err(Refusal::Abandon)
    );
    assert_eq!(judge_message(&message("value of a"), &vec![]), Err(Refusal::Abandon));
    assert_eq!(judge_message(&None, &vec![]), failed());
}

#[test]
fn a_user_has_to_be_approved() {
    let user = User {
        id: "u".to_string(),
        username: "ann".to_string(),
        public_key: "pk".to_string(),
        signing_public_key: "spk".to_string(),
        transfer_count: 0,
        transfer_quota: 0,
        date_registered: at(0),
        approved: false,
    };
    let body = "Your account has yet to be approved by the server administrator".to_string();
    assert_eq!(
        authenticate_user(&user, "signed"),
        Progress::Failed(Refusal::Answer(Response { status: 401, body }))
    );
    let approved = User { approved: true, ..user };
    match authenticate_user(&approved, "signed") {
        Progress::Ask(statement, authentication) => {
            assert_eq!(statement, Statement::AllAuthenticators);
            let end = authentication.resume(Reply::Failed(StoreError::Failed), fresh("x", 0));
            assert_eq!(end, Progress::Failed(Refusal::server_error()));
        }
        other => panic!("{:?}", other),
    }
}
