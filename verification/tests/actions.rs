use sned_server::actions::{
    delete_authenticator, delete_file_metadata_item, delete_transfer_record,
    delete_transfer_record_by_user_id_and_download_id, get_all_approved_users,
    get_all_authenticators, get_expired_transfer_records,
    get_file_metadata_by_recipient_and_download_id, get_file_metadata_item,
    get_transfer_records_and_file_metadata_for_recipient, get_used_quota, get_used_quota_result,
    get_user_from_username, get_user_from_username_result, insert_new_authenticator,
    insert_new_file_metadata_item, insert_new_transfer_record, insert_new_user,
    is_file_unreferenced, is_file_unreferenced_result, update_user_transfer_count, Insertion,
    NewTransfer,
};
use sned_server::fresh::Fresh;
use sned_server::models::{Authenticator, FileMetadataItem, TransferRecord, User};
use sned_server::settings::Settings;
use sned_server::statements::{Progress, Reply, Statement, StoreError};
use sned_server::time::Timestamp;

fn at(secs: i64) -> Timestamp {
    Timestamp { secs, nanos: 0 }
}

fn fresh(id: &str, secs: i64) -> Fresh {
    Fresh {
        id: id.to_string(),
        authenticator: "abcdefghij012345".to_string(),
        now: at(secs),
        timestamp: at(secs),
    }
}

fn user(id: &str, count: i32) -> User {
    User {
        id: id.to_string(),
        username: "ann".to_string(),
        public_key: "pk".to_string(),
        signing_public_key: "spk".to_string(),
        transfer_count: count,
        transfer_quota: 100,
        date_registered: at(0),
        approved: true,
    }
}

fn record(id: &str) -> TransferRecord {
    TransferRecord {
        id: id.to_string(),
        download_id: "1".to_string(),
        sender: "s".to_string(),
        recipient: "r".to_string(),
        shared_key: "k".to_string(),
        shared_header: "h".to_string(),
        shared_nonce: "n".to_string(),
        file_id: "f".to_string(),
        date_created: at(1),
        expires_on: at(2),
    }
}

fn file(id: &str) -> FileMetadataItem {
    FileMetadataItem {
        id: id.to_string(),
        uploader: "s".to_string(),
        file_name: "name".to_string(),
        file_url: "url".to_string(),
        file_size: 3,
        date_created: at(1),
    }
}

fn settings(approval: Option<&str>, quota: Option<&str>) -> Settings {
    Settings {
        storage_dir: None,
        require_approval: approval.map(|s| s.to_string()),
        default_file_lifetime_mins: None,
        default_quota_bytes: quota.map(|s| s.to_string()),
    }
}

#[test]
fn single_statements_are_as_asked() {
    let name = "ann".to_string();
    assert_eq!(get_user_from_username("ann"), Statement::UserByUsername { username: name });
    assert_eq!(get_all_approved_users(), Statement::ApprovedUsernames);
    assert_eq!(get_used_quota("u"), Statement::FileSizeTotal { uploader: "u".to_string() });
    assert_eq!(
        get_transfer_records_and_file_metadata_for_recipient("u"),
        Statement::RecordsWithFiles { recipient: "u".to_string() }
    );
    assert_eq!(delete_transfer_record("t"), Statement::DeleteRecord { id: "t".to_string() });
    assert_eq!(get_file_metadata_item("f"), Statement::FileById { id: "f".to_string() });
    assert_eq!(
        is_file_unreferenced("f"),
        Statement::CountReferences { file_id: "f".to_string() }
    );
    assert_eq!(delete_file_metadata_item("f"), Statement::DeleteFile { id: "f".to_string() });
    assert_eq!(get_all_authenticators(), Statement::AllAuthenticators);
    assert_eq!(
        delete_authenticator("a"),
        Statement::DeleteAuthenticator { id: "a".to_string() }
    );
    assert_eq!(
        insert_new_authenticator("value", at(9), "a"),
        Statement::InsertAuthenticator(Authenticator {
            id: "a".to_string(),
            authenticator: "value".to_string(),
            expiration_date: at(9),
        })
    );
    assert_eq!(get_expired_transfer_records(at(7)), Statement::ExpiredRecords { now: at(7) });
}

#[test]
fn a_user_who_does_not_exist_is_no_error() {
    let found = get_user_from_username_result(Reply::User(user("u", 0)));
    assert_eq!(found, Ok(Some(user("u", 0))));
    let absent = get_user_from_username_result(Reply::Failed(StoreError::NotFound));
    assert_eq!(absent, Ok(None));
    let failed = get_user_from_username_result(Reply::Failed(StoreError::Failed));
    assert_eq!(failed, Err(StoreError::Failed));
    let wrong = get_user_from_username_result(Reply::Executed);
    assert_eq!(wrong, Err(StoreError::Failed));
}

#[test]
fn a_new_user_is_approved_unless_approval_is_required() {
    let free = settings(Some("false"), Some("500"));
    let step = insert_new_user("ann", "pk", "spk", &free, fresh("u1", 77));
    let mut row = user("u1", 0);
    row.transfer_quota = 500;
    row.date_registered = at(77);
    match step {
        Progress::Ask(Statement::InsertUser(inserted), insertion) => {
            assert_eq!(inserted, row);
            assert_eq!(insertion.resume(Reply::Executed), Progress::Done("u1".to_string()));
        }
        other => panic!("{:?}", other),
    }
    let strict = settings(Some("true"), Some("500"));
    match insert_new_user("ann", "pk", "spk", &strict, fresh("u1", 77)) {
        Progress::Ask(Statement::InsertUser(inserted), _) => assert!(!inserted.approved),
        other => panic!("{:?}", other),
    }
}

#[test]
fn a_user_needs_settings_that_can_be_read() {
    assert!(settings(Some("false"), Some("-5")).admit_users());
    for (approval, quota) in vec![
        (None, Some("500")),
        (Some("maybe"), Some("500")),
        (Some("true"), None),
        (Some("true"), Some("much")),
    ] {
        assert!(!settings(approval, quota).admit_users());
    }
}

#[test]
fn an_insertion_fails_with_the_database() {
    let insertion = Insertion { id: "x".to_string() };
    let step = insertion.resume(Reply::Failed(StoreError::Failed));
    assert_eq!(step, Progress::Failed(StoreError::Failed));
}

#[test]
fn the_transfer_count_goes_up_by_one() {
    match update_user_transfer_count("u") {
        Progress::Ask(statement, update) => {
            assert_eq!(statement, Statement::UserById { id: "u".to_string() });
            match update.resume(Reply::User(user("u", 41))) {
                Progress::Ask(statement, update) => {
                    assert_eq!(
                        statement,
                        Statement::SetTransferCount { id: "u".to_string(), count: 42 }
                    );
                    assert_eq!(update.resume(Reply::User(user("u", 42))), Progress::Done(42));
                }
                other => panic!("{:?}", other),
            }
        }
        other => panic!("{:?}", other),
    }
}

#[test]
fn a_transfer_count_cannot_pass_its_end() {
    match update_user_transfer_count("u") {
        Progress::Ask(_, update) => assert_eq!(
            update.resume(Reply::User(user("u", i32::MAX))),
            Progress::Failed(StoreError::Failed)
        ),
        other => panic!("{:?}", other),
    }
    match update_user_transfer_count("u") {
        Progress::Ask(_, update) => assert_eq!(
            update.resume(Reply::Failed(StoreError::NotFound)),
            Progress::Failed(StoreError::NotFound)
        ),
        other => panic!("{:?}", other),
    }
}

#[test]
fn the_used_quota_is_a_number_of_bytes() {
    assert_eq!(get_used_quota_result(Reply::Total(None)), Ok(0));
    assert_eq!(get_used_quota_result(Reply::Total(Some(0))), Ok(0));
    assert_eq!(get_used_quota_result(Reply::Total(Some(12_345))), Ok(12_345));
    let most = u64::MAX as i128;
    assert_eq!(get_used_quota_result(Reply::Total(Some(most))), Ok(u64::MAX));
    assert_eq!(
        get_used_quota_result(Reply::Total(Some(most + 1))),
        Err(StoreError::Failed)
    );
    assert_eq!(get_used_quota_result(Reply::Total(Some(-1))), Err(StoreError::Failed));
    assert_eq!(
        get_used_quota_result(Reply::Failed(StoreError::NotFound)),
        Err(StoreError::NotFound)
    );
}

fn transfer() -> NewTransfer {
    NewTransfer {
        sender_id: "s".to_string(),
        recipient_id: "r".to_string(),
        shared_key: "k".to_string(),
        shared_header: "h".to_string(),
        shared_nonce: "n".to_string(),
        file_id: "f".to_string(),
    }
}

#[test]
fn a_record_has_the_count_as_download_id() {
    let step = insert_new_transfer_record(transfer(), Some(10), fresh("t1", 1_000));
    let update = match step {
        Progress::Ask(statement, machine) => {
            assert_eq!(statement, Statement::UserById { id: "r".to_string() });
            machine
        }
        other => panic!("{:?}", other),
    };
    let writing = match update.resume(Reply::User(user("r", 1_233)), fresh("t2", 1_001)) {
        Progress::Ask(statement, machine) => {
            assert_eq!(
                statement,
                Statement::SetTransferCount { id: "r".to_string(), count: 1_234 }
            );
            machine
        }
        other => panic!("{:?}", other),
    };
    let inserting = match writing.resume(Reply::User(user("r", 1_234)), fresh("t3", 1_002)) {
        Progress::Ask(Statement::InsertRecord(row), machine) => {
            assert_eq!(row.id, "t1");
            assert_eq!(row.download_id, "1234");
            assert_eq!(row.sender, "s");
            assert_eq!(row.recipient, "r");
            assert_eq!(row.shared_key, "k");
            assert_eq!(row.file_id, "f");
            assert_eq!(row.date_created, at(1_002));
            assert_eq!(row.expires_on, at(1_600));
            machine
        }
        other => panic!("{:?}", other),
    };
    let end = inserting.resume(Reply::Executed, fresh("t4", 1_003));
    assert_eq!(end, Progress::Done("t1".to_string()));
}

#[test]
fn negative_counts_are_written_with_a_sign() {
    let mut machine = match insert_new_transfer_record(transfer(), Some(1), fresh("t", 0)) {
        Progress::Ask(_, machine) => machine,
        other => panic!("{:?}", other),
    };
    machine = match machine.resume(Reply::User(user("r", -8)), fresh("t", 0)) {
        Progress::Ask(_, machine) => machine,
        other => panic!("{:?}", other),
    };
    match machine.resume(Reply::User(user("r", -7)), fresh("t", 0)) {
        Progress::Ask(Statement::InsertRecord(row), _) => assert_eq!(row.download_id, "-7"),
        other => panic!("{:?}", other),
    }
}

#[test]
fn a_record_needs_a_lifetime_that_ends() {
    let unknown = insert_new_transfer_record(transfer(), None, fresh("t", 0));
    assert_eq!(unknown, Progress::Failed(StoreError::Failed));
    let endless = insert_new_transfer_record(transfer(), Some(i64::MAX), fresh("t", 0));
    assert_eq!(endless, Progress::Failed(StoreError::Failed));
}

#[test]
fn a_file_is_inserted_under_a_new_id() {
    match insert_new_file_metadata_item("s", "name", "url", 3, fresh("f1", 1)) {
        Progress::Ask(statement, insertion) => {
            assert_eq!(statement, Statement::InsertFile(file("f1")));
            assert_eq!(insertion.resume(Reply::Executed), Progress::Done("f1".to_string()));
        }
        other => panic!("{:?}", other),
    }
}

#[test]
fn a_file_is_found_by_its_record() {
    let search = match get_file_metadata_by_recipient_and_download_id("r", "1") {
        Progress::Ask(statement, search) => {
            assert_eq!(
                statement,
                Statement::RecordByDownload {
                    recipient: "r".to_string(),
                    download_id: "1".to_string(),
                }
            );
            search
        }
        other => panic!("{:?}", other),
    };
    match search.resume(Reply::Record(record("t"))) {
        Progress::Ask(statement, search) => {
            assert_eq!(statement, Statement::FileById { id: "f".to_string() });
            assert_eq!(search.resume(Reply::File(file("f"))), Progress::Done(file("f")));
            assert_eq!(
                search.resume(Reply::Failed(StoreError::NotFound)),
                Progress::Failed(StoreError::NotFound)
            );
        }
        other => panic!("{:?}", other),
    }
    assert_eq!(
        search.resume(Reply::Failed(StoreError::NotFound)),
        Progress::Failed(StoreError::NotFound)
    );
}

#[test]
fn a_record_is_read_before_it_is_deleted() {
    let removal = match delete_transfer_record_by_user_id_and_download_id("r", "1") {
        Progress::Ask(statement, removal) => {
            assert_eq!(
                statement,
                Statement::RecordByDownload {
                    recipient: "r".to_string(),
                    download_id: "1".to_string(),
                }
            );
            removal
        }
        other => panic!("{:?}", other),
    };
    match removal.resume(Reply::Record(record("t"))) {
        Progress::Ask(statement, removal) => {
            assert_eq!(
                statement,
                Statement::DeleteRecordsByDownload {
                    recipient: "r".to_string(),
                    download_id: "1".to_string(),
                }
            );
            assert_eq!(removal.resume(Reply::Executed), Progress::Done(record("t")));
        }
        other => panic!("{:?}", other),
    }
}

#[test]
fn a_file_without_references_is_unreferenced() {
    assert_eq!(is_file_unreferenced_result(Reply::Count(0)), Ok(true));
    assert_eq!(is_file_unreferenced_result(Reply::Count(2)), Ok(false));
    assert_eq!(
        is_file_unreferenced_result(Reply::Failed(StoreError::Failed)),
        Err(StoreError::Failed)
    );
}
