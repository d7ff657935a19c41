use sned_server::cleanup::{start_file_cleanup, CLEANUP_PROCESS_SLEEP_SECONDS};
use sned_server::download::{clean_up_transfer_record, download};
use sned_server::fresh::Fresh;
use sned_server::models::{
    Authenticator, FileMetadataItem, TransferRecord, TransferRecordWithFileMetadata, User,
};
use sned_server::payloads::{
    DownloadRequestPayload, InboxRequestPayload, ListUsersRequestPayload, LookupRequestPayload,
    RegisterRequestPayload, TransferRequestMetadataPayload,
};
use sned_server::requests::{
    inbox, list_users, lookup, lookup_result, register, resume_inbox, resume_list_users,
};
use sned_server::responses::{Refusal, Response};
use sned_server::settings::Settings;
use sned_server::statements::{Progress, Reply, Statement, StoreError};
use sned_server::tasks::{Event, Task};
use sned_server::time::Timestamp;
use sned_server::transfer::transfer;
use sodiumoxide::base64;
use sodiumoxide::crypto::sign;
use std::collections::BTreeMap;

fn at(secs: i64) -> Timestamp {
    Timestamp { secs, nanos: 0 }
}

/// A server with a database, a disk and a clock of its own.
struct Server {
    users: Vec<User>,
    authenticators: Vec<Authenticator>,
    records: Vec<TransferRecord>,
    files: Vec<FileMetadataItem>,
    disk: BTreeMap<String, Vec<u8>>,
    open: Option<String>,
    payload: Vec<Vec<u8>>,
    /// What is answered where the payload breaks off.
    broken: Option<Response>,
    clock: i64,
    drawn: usize,
    /// After how many more statements one fails.
    fails_in: Option<usize>,
    settings: [Option<&'static str>; 4],
}

impl Server {
    fn new() -> Server {
        sodiumoxide::init().unwrap();
        Server {
            users: vec![],
            authenticators: vec![],
            records: vec![],
            files: vec![],
            disk: BTreeMap::new(),
            open: None,
            payload: vec![],
            broken: None,
            clock: 1_000_000,
            drawn: 0,
            fails_in: None,
            settings: [Some("store"), Some("false"), Some("60"), Some("1000")],
        }
    }

    fn settings(&self) -> Settings {
        let text = |i: usize| self.settings[i].map(|s| s.to_string());
        Settings {
            storage_dir: text(0),
            require_approval: text(1),
            default_file_lifetime_mins: text(2),
            default_quota_bytes: text(3),
        }
    }

    fn fresh(&mut self) -> Fresh {
        self.drawn += 1;
        Fresh {
            id: format!("id{}", self.drawn),
            authenticator: format!("authenticator {}", self.drawn),
            now: at(self.clock),
            timestamp: at(self.clock),
        }
    }

    fn run(&mut self, statement: Statement) -> Reply {
        if let Some(n) = self.fails_in {
            if n == 0 {
                self.fails_in = None;
                return Reply::Failed(StoreError::Failed);
            }
            self.fails_in = Some(n - 1);
        }
        let none = Reply::Failed(StoreError::NotFound);
        match statement {
            Statement::UserByUsername { username } => {
                match self.users.iter().find(|row| row.username == username) {
                    Some(row) => Reply::User(row.clone()),
                    None => none,
                }
            }
            Statement::UserById { id } => match self.users.iter().find(|row| row.id == id) {
                Some(row) => Reply::User(row.clone()),
                None => none,
            },
            Statement::InsertUser(row) => {
                self.users.push(row);
                Reply::Executed
            }
            Statement::SetTransferCount { id, count } => {
                match self.users.iter_mut().find(|row| row.id == id) {
                    Some(row) => {
                        row.transfer_count = count;
                        Reply::User(row.clone())
                    }
                    None => none,
                }
            }
            Statement::ApprovedUsernames => Reply::Usernames(
                self.users.iter().filter(|row| row.approved).map(|row| row.username.clone()).collect(),
            ),
            Statement::FileSizeTotal { uploader } => {
                let sizes: Vec<i128> = self
                    .files
                    .iter()
                    .filter(|row| row.uploader == uploader)
                    .map(|row| row.file_size as i128)
                    .collect();
                Reply::Total(if sizes.is_empty() { None } else { Some(sizes.iter().sum()) })
            }
            Statement::RecordsWithFiles { recipient } => Reply::RecordsWithFiles(
                self.records
                    .iter()
                    .filter(|row| row.recipient == recipient)
                    .filter_map(|row| {
                        let file = self.files.iter().find(|file| file.id == row.file_id)?;
                        let sender = self.users.iter().find(|user| user.id == row.sender)?;
                        Some(TransferRecordWithFileMetadata {
                            download_id: row.download_id.clone(),
                            sender: sender.username.clone(),
                            shared_key: row.shared_key.clone(),
                            shared_header: row.shared_header.clone(),
                            shared_nonce: row.shared_nonce.clone(),
                            date_created: row.date_created,
                            file_name: file.file_name.clone(),
                            file_size: file.file_size,
                        })
                    })
                    .collect(),
            ),
            Statement::InsertRecord(row) => {
                self.records.push(row);
                Reply::Executed
            }
            Statement::InsertFile(row) => {
                self.files.push(row);
                Reply::Executed
            }
            Statement::RecordByDownload { recipient, download_id } => {
                let found = self
                    .records
                    .iter()
                    .find(|row| row.recipient == recipient && row.download_id == download_id);
                match found {
                    Some(row) => Reply::Record(row.clone()),
                    None => none,
                }
            }
            Statement::DeleteRecord { id } => {
                self.records.retain(|row| row.id != id);
                Reply::Executed
            }
            Statement::DeleteRecordsByDownload { recipient, download_id } => {
                self.records
                    .retain(|row| row.recipient != recipient || row.download_id != download_id);
                Reply::Executed
            }
            Statement::FileById { id } => match self.files.iter().find(|row| row.id == id) {
                Some(row) => Reply::File(row.clone()),
                None => none,
            },
            Statement::CountReferences { file_id } => Reply::Count(
                self.records.iter().filter(|row| row.file_id == file_id).count() as i64,
            ),
            Statement::DeleteFile { id } => {
                self.files.retain(|row| row.id != id);
                Reply::Executed
            }
            Statement::AllAuthenticators => {
                self.authenticators.sort_by_key(|row| row.expiration_date.secs);
                Reply::Authenticators(self.authenticators.clone())
            }
            Statement::DeleteAuthenticator { id } => {
                self.authenticators.retain(|row| row.id != id);
                Reply::Executed
            }
            Statement::InsertAuthenticator(row) => {
                self.authenticators.push(row);
                Reply::Executed
            }
            Statement::ExpiredRecords { now } => Reply::Records(
                self.records.iter().filter(|row| !now.before(row.expires_on)).cloned().collect(),
            ),
        }
    }

    fn perform(&mut self, task: Task) -> Event {
        match task {
            Task::Run(statement) => Event::Reply(self.run(statement)),
            Task::ReadChunk => {
                if !self.payload.is_empty() {
                    Event::Chunk(self.payload.remove(0))
                } else if let Some(answer) = self.broken.take() {
                    Event::Broken(answer)
                } else {
                    Event::End
                }
            }
            Task::ParseMetadata(text) => match parse(&text) {
                Some(metadata) => Event::Parsed(metadata),
                None => Event::Unparsable,
            },
            Task::CreateFile(path) => {
                self.disk.insert(path.clone(), vec![]);
                self.open = Some(path);
                Event::Completed
            }
            Task::AppendToFile(bytes) => {
                let path = self.open.clone().unwrap();
                self.disk.get_mut(&path).unwrap().extend(bytes);
                Event::Completed
            }
            Task::FlushFile => Event::Completed,
            Task::RemoveFile(path) => match self.disk.remove(&path) {
                Some(_) => Event::Completed,
                None => Event::TaskFailed,
            },
            Task::OpenFile(path) => {
                if self.disk.contains_key(&path) {
                    Event::Completed
                } else {
                    Event::TaskFailed
                }
            }
        }
    }

    fn drive<M, V, E>(
        &mut self,
        first: Progress<M, V, E>,
        resume: impl Fn(M, Reply, Fresh) -> Progress<M, V, E>,
    ) -> Result<V, E> {
        let mut step = first;
        loop {
            match step {
                Progress::Ask(statement, machine) => {
                    let reply = self.run(statement);
                    let fresh = self.fresh();
                    step = resume(machine, reply, fresh);
                }
                Progress::Done(value) => return Ok(value),
                Progress::Failed(error) => return Err(error),
            }
        }
    }

    fn register(&mut self, name: &str, signing_key: &str) -> Result<Response, Refusal> {
        let payload = RegisterRequestPayload {
            username: name.to_string(),
            public_key: format!("public key of {}", name),
            signing_public_key: signing_key.to_string(),
        };
        let first = register(payload, self.settings());
        self.drive(first, |machine, reply, fresh| machine.resume(reply, fresh))
    }

    fn lookup(&mut self, name: &str) -> Result<Response, Refusal> {
        let reply = self.run(lookup(&LookupRequestPayload { username: name.to_string() }));
        lookup_result(reply)
    }

    /// A registered user, and the key with which the user signs.
    fn join(&mut self, name: &str) -> sign::SecretKey {
        let (public, secret) = sign::gen_keypair();
        let key = base64::encode(&public.0, base64::Variant::Original);
        assert_eq!(self.register(name, &key), Ok(answer(200, "")));
        secret
    }

    /// The current authenticator, signed.
    fn sign(&mut self, key: &sign::SecretKey) -> String {
        let first = sned_server::requests::authenticator();
        let response = self
            .drive(first, sned_server::requests::resume_authenticator)
            .unwrap();
        assert_eq!(response.status, 200);
        let signed = sign::sign(response.body.as_bytes(), key);
        base64::encode(signed, base64::Variant::Original)
    }

    fn inbox(
        &mut self,
        name: &str,
        signed: &str,
    ) -> Result<Vec<TransferRecordWithFileMetadata>, Refusal> {
        let first = inbox(&InboxRequestPayload {
            username: name.to_string(),
            signed_authenticator: signed.to_string(),
        });
        self.drive(first, resume_inbox)
    }

    fn list_users(&mut self, name: &str, signed: &str) -> Result<Response, Refusal> {
        let first = list_users(&ListUsersRequestPayload {
            username: name.to_string(),
            signed_authenticator: signed.to_string(),
        });
        self.drive(first, resume_list_users)
    }

    fn transfer(&mut self, chunks: Vec<Vec<u8>>) -> Result<Response, Refusal> {
        self.payload = chunks;
        let mut step = transfer(self.settings());
        loop {
            match step {
                Progress::Ask(task, machine) => {
                    let event = self.perform(task);
                    let fresh = self.fresh();
                    step = machine.resume(event, fresh);
                }
                Progress::Done(response) => return Ok(response),
                Progress::Failed(refusal) => return Err(refusal),
            }
        }
    }

    /// Downloads; the content of the file that was opened.
    fn download(&mut self, name: &str, download_id: &str, signed: &str) -> Result<Vec<u8>, Refusal> {
        let payload = DownloadRequestPayload {
            username: name.to_string(),
            download_id: download_id.to_string(),
            signed_authenticator: signed.to_string(),
        };
        let mut content = vec![];
        let mut step = download(payload, self.settings());
        loop {
            match step {
                Progress::Ask(task, machine) => {
                    if let Task::OpenFile(path) = &task {
                        content = self.disk.get(path).cloned().unwrap_or(vec![]);
                    }
                    let event = self.perform(task);
                    let fresh = self.fresh();
                    step = machine.resume(event, fresh);
                }
                Progress::Done(()) => return Ok(content),
                Progress::Failed(refusal) => return Err(refusal),
            }
        }
    }

    fn clean_up(&mut self) -> Result<(), Refusal> {
        let mut step = start_file_cleanup(self.settings().storage_dir, at(self.clock));
        loop {
            match step {
                Progress::Ask(task, machine) => {
                    let event = self.perform(task);
                    step = machine.resume(event);
                }
                Progress::Done(()) => return Ok(()),
                Progress::Failed(refusal) => return Err(refusal),
            }
        }
    }

    fn user(&self, name: &str) -> User {
        self.users.iter().find(|row| row.username == name).unwrap().clone()
    }
}

fn answer(status: u16, body: &str) -> Response {
    Response { status, body: body.to_string() }
}

fn refusal(status: u16, body: &str) -> Refusal {
    Refusal::Answer(answer(status, body))
}

fn parse(text: &str) -> Option<TransferRequestMetadataPayload> {
    let value: serde_json::Value = serde_json::from_str(text).ok()?;
    let text = |name: &str| Some(value.get(name)?.as_str()?.to_string());
    let texts = |name: &str| {
        let list = value.get(name)?.as_array()?;
        list.iter().map(|item| Some(item.as_str()?.to_string())).collect::<Option<Vec<String>>>()
    };
    Some(TransferRequestMetadataPayload {
        sender: text("sender")?,
        recipients: texts("recipients")?,
        name: text("name")?,
        shared_keys: texts("shared_keys")?,
        shared_header: text("shared_header")?,
        shared_nonce: text("shared_nonce")?,
        data_len: value.get("data_len")?.as_u64()?,
        signed_authenticator: text("signed_authenticator")?,
    })
}

/// The head of an upload.
struct Head {
    sender: &'static str,
    recipients: Vec<&'static str>,
    name: &'static str,
    keys: Vec<&'static str>,
    data_len: u64,
    signed: String,
}

impl Head {
    fn bytes(&self) -> Vec<u8> {
        let text = format!(
            "{{\"sender\":{:?},\"recipients\":{:?},\"name\":{:?},\"shared_keys\":{:?},\
             \"shared_header\":\"header\",\"shared_nonce\":\"nonce\",\"data_len\":{},\
             \"signed_authenticator\":{:?}}}",
            self.sender, self.recipients, self.name, self.keys, self.data_len, self.signed
        );
        let mut bytes = (text.len() as u64).to_be_bytes().to_vec();
        bytes.extend_from_slice(text.as_bytes());
        bytes
    }
}

fn from_ann(signed: String) -> Head {
    Head {
        sender: "ann",
        recipients: vec!["bob"],
        name: "photo.png",
        keys: vec!["key for bob"],
        data_len: 6,
        signed,
    }
}

#[test]
fn a_user_registers_once() {
    let mut server = Server::new();
    assert_eq!(server.register("ann", "key"), Ok(answer(200, "")));
    assert_eq!(server.users.len(), 1);
    let row = server.user("ann");
    assert_eq!(row.public_key, "public key of ann");
    assert_eq!(row.signing_public_key, "key");
    assert_eq!(row.transfer_count, 0);
    assert_eq!(row.transfer_quota, 1000);
    assert_eq!(row.date_registered, at(1_000_000));
    assert!(row.approved);
    assert_eq!(server.register("ann", "other"), Ok(answer(409, "Username taken")));
    assert_eq!(server.users, vec![row]);
}

#[test]
fn a_username_has_at_most_fifteen_bytes() {
    let mut server = Server::new();
    let body = "Username field must not exceed 15 characters";
    assert_eq!(server.register("abcdefghijklmnop", "key"), Ok(answer(400, body)));
    assert_eq!(server.register("\u{e9}\u{e9}\u{e9}\u{e9}\u{e9}\u{e9}\u{e9}\u{e9}", "key"), Ok(answer(400, body)));
    assert!(server.users.is_empty());
    assert_eq!(server.register("abcdefghijklmno", "key"), Ok(answer(200, "")));
}

#[test]
fn a_registration_that_fails_inserts_nothing() {
    let mut server = Server::new();
    server.fails_in = Some(0);
    assert_eq!(server.register("ann", "key"), Err(Refusal::server_error()));
    server.fails_in = Some(1);
    assert_eq!(server.register("ann", "key"), Err(Refusal::server_error()));
    for (i, text) in [(3, None), (3, Some("much")), (1, None), (1, Some("maybe"))] {
        let before = server.settings;
        server.settings[i] = text;
        assert_eq!(server.register("ann", "key"), Err(Refusal::server_error()));
        server.settings = before;
    }
    assert!(server.users.is_empty());
    server.join("ann");
    server.settings = [None; 4];
    assert_eq!(server.register("ann", "key"), Ok(answer(409, "Username taken")));
    let body = "Username field must not exceed 15 characters";
    assert_eq!(server.register("abcdefghijklmnop", "key"), Ok(answer(400, body)));
    assert_eq!(server.users.len(), 1);
}

#[test]
fn the_key_that_was_registered_is_looked_up() {
    let mut server = Server::new();
    assert_eq!(server.lookup("ann"), Ok(answer(400, "User does not exist")));
    server.join("ann");
    server.join("bob");
    assert_eq!(server.lookup("ann"), Ok(answer(200, "public key of ann")));
    server.fails_in = Some(0);
    assert_eq!(server.lookup("ann"), Err(Refusal::server_error()));
}

#[test]
fn an_account_stays_as_registered() {
    let mut server = Server::new();
    let ann = server.join("ann");
    server.join("bob");
    let before = server.user("bob");
    let chunks = vec![from_ann(server.sign(&ann)).bytes(), b"abcdef".to_vec()];
    assert_eq!(server.transfer(chunks), Ok(answer(200, "Transfer Completed")));
    server.join("cid");
    server.clock += 10_000;
    assert_eq!(server.clean_up(), Ok(()));
    assert_eq!(server.lookup("bob"), Ok(answer(200, "public key of bob")));
    assert_eq!(server.register("bob", "other"), Ok(answer(409, "Username taken")));
    assert_eq!(server.user("bob"), User { transfer_count: 1, ..before });
}

#[test]
fn the_handed_out_authenticator_is_accepted_until_its_grace_period_ends() {
    let mut server = Server::new();
    let ann = server.join("ann");
    let signed = server.sign(&ann);
    assert_eq!(server.authenticators.len(), 2);
    server.clock += 300 + 120;
    assert_eq!(server.inbox("ann", &signed), Ok(vec![]));
    server.clock += 1;
    assert_eq!(server.inbox("ann", &signed), Err(refusal(401, "Authentication failed")));
    assert_eq!(server.authenticators.len(), 2);
}

#[test]
fn requests_take_no_more_turns_than_their_limit() {
    let mut server = Server::new();
    let ann = server.join("ann");
    server.join("bob");
    assert_eq!(server.drawn, 4);
    let signed = server.sign(&ann);
    assert!(server.drawn - 4 <= 10);
    server.clock += 10_000;
    let before = server.drawn;
    server.sign(&ann);
    assert_eq!(server.drawn - before, 6);
    let before = server.drawn;
    let mut chunks = vec![from_ann(server.sign(&ann)).bytes()];
    let update = server.drawn - before;
    chunks.extend(b"abcdef".iter().map(|byte| vec![*byte]));
    let before = server.drawn;
    assert_eq!(server.transfer(chunks), Ok(answer(200, "Transfer Completed")));
    assert!(update <= 6 && server.drawn - before <= 2 * 7 + 4 + 6 + 12);
    let before = server.drawn;
    assert_eq!(server.inbox("ann", &signed), Err(refusal(401, "Authentication failed")));
    assert!(server.drawn - before <= 6 + 2);
}

#[test]
fn authenticators_that_are_too_many_go_by_their_age() {
    let mut server = Server::new();
    let row = |id: &str, secs: i64| Authenticator {
        id: id.to_string(),
        authenticator: format!("authenticator {}", id),
        expiration_date: at(secs),
    };
    let now = server.clock;
    server.authenticators =
        vec![row("b", now + 20), row("d", now + 40), row("a", now + 10), row("c", now + 30)];
    let ann = server.join("ann");
    server.sign(&ann);
    assert_eq!(server.authenticators, vec![row("c", now + 30), row("d", now + 40)]);
    server.authenticators.push(row("e", now + 50));
    server.clock = now + 30 + 121;
    server.sign(&ann);
    let kept: Vec<&str> = server.authenticators.iter().map(|row| row.id.as_str()).collect();
    assert_eq!(kept, vec!["d", "e"]);
}

#[test]
fn the_handed_out_authenticator_outlives_other_requests() {
    let mut server = Server::new();
    let ann = server.join("ann");
    let bob = server.join("bob");
    let signed = server.sign(&ann);
    for _ in 0..4 {
        server.clock += 100;
        server.sign(&bob);
        server.join(&format!("user{}", server.clock));
        assert_eq!(server.inbox("ann", &signed), Ok(vec![]));
    }
    server.clock += 20;
    assert_eq!(server.clean_up(), Ok(()));
    assert_eq!(server.inbox("ann", &signed), Ok(vec![]));
    server.clock += 1;
    assert_eq!(server.inbox("ann", &signed), Err(refusal(401, "Authentication failed")));
}

#[test]
fn whoever_cannot_sign_in_is_refused() {
    let mut server = Server::new();
    let ann = server.join("ann");
    let signed = server.sign(&ann);
    assert_eq!(
        server.inbox("eve", &signed),
        Err(refusal(400, "User eve does not exist"))
    );
    server.join("bob");
    assert_eq!(server.inbox("bob", &signed), Err(refusal(401, "Authentication failed")));
    assert_eq!(server.inbox("ann", "nonsense"), Err(refusal(401, "Authentication failed")));
    server.users[0].approved = false;
    let body = "Your account has yet to be approved by the server administrator";
    assert_eq!(server.inbox("ann", &signed), Err(refusal(401, body)));
    assert_eq!(server.list_users("ann", &signed), Err(refusal(401, body)));
    server.fails_in = Some(0);
    assert_eq!(server.inbox("ann", &signed), Err(Refusal::server_error()));
}

#[test]
fn approved_users_are_listed_one_in_a_line() {
    let mut server = Server::new();
    let ann = server.join("ann");
    server.join("bob");
    server.settings[1] = Some("true");
    server.join("cid");
    let signed = server.sign(&ann);
    assert_eq!(server.list_users("ann", &signed), Ok(answer(200, "ann\nbob")));
}

#[test]
fn what_was_sent_is_received_once() {
    let mut server = Server::new();
    let ann = server.join("ann");
    let bob = server.join("bob");
    let signed = server.sign(&ann);
    let head = from_ann(signed);
    let chunks = vec![head.bytes(), b"abc".to_vec(), b"def".to_vec()];
    assert_eq!(server.transfer(chunks), Ok(answer(200, "Transfer Completed")));
    assert_eq!(server.user("bob").transfer_count, 1);
    assert_eq!(server.files.len(), 1);
    assert_eq!(server.files[0].uploader, server.user("ann").id);
    assert_eq!(server.files[0].file_size, 6);
    let path = format!("store/{}", server.files[0].file_url);
    assert_eq!(server.disk.get(&path), Some(&b"abcdef".to_vec()));
    assert_eq!(server.records[0].expires_on, at(1_000_000 + 3_600));

    let signed = server.sign(&bob);
    let items = server.inbox("bob", &signed).unwrap();
    assert_eq!(
        items,
        vec![TransferRecordWithFileMetadata {
            download_id: "1".to_string(),
            sender: "ann".to_string(),
            shared_key: "key for bob".to_string(),
            shared_header: "header".to_string(),
            shared_nonce: "nonce".to_string(),
            date_created: at(1_000_000),
            file_name: "photo.png".to_string(),
            file_size: 6,
        }]
    );
    assert_eq!(server.download("bob", "2", &signed), Err(refusal(400, "Invalid download id")));
    assert_eq!(server.download("bob", "1", &signed), Ok(b"abcdef".to_vec()));
    assert!(server.records.is_empty());
    assert!(server.files.is_empty());
    assert!(server.disk.is_empty());
    assert_eq!(server.download("bob", "1", &signed), Err(refusal(400, "Invalid download id")));
    assert_eq!(server.inbox("bob", &signed), Ok(vec![]));
}

#[test]
fn a_file_is_received_whole_wherever_the_chunks_end() {
    let mut server = Server::new();
    let ann = server.join("ann");
    let bob = server.join("bob");
    let signed_by_ann = server.sign(&ann);
    let signed_by_bob = server.sign(&bob);
    let mut body = from_ann(signed_by_ann).bytes();
    let start_of_data = body.len();
    body.extend_from_slice(b"abcdef");
    let mut uploads = vec![vec![body.clone()], body.iter().map(|byte| vec![*byte]).collect()];
    for cut in [0, 4, 8, 20, start_of_data, start_of_data + 1, start_of_data + 5, body.len()] {
        uploads.push(vec![body[..cut].to_vec(), body[cut..].to_vec()]);
    }
    for (i, chunks) in uploads.into_iter().enumerate() {
        assert_eq!(server.transfer(chunks), Ok(answer(200, "Transfer Completed")));
        let download_id = (i + 1).to_string();
        let content = server.download("bob", &download_id, &signed_by_bob);
        assert_eq!(content, Ok(b"abcdef".to_vec()));
    }
}

#[test]
fn data_in_the_chunk_of_the_head_counts_towards_its_length() {
    let mut server = Server::new();
    let ann = server.join("ann");
    server.join("bob");
    let signed = server.sign(&ann);
    let mut chunk = from_ann(signed).bytes();
    chunk.extend_from_slice(b"abcde");
    assert_eq!(
        server.transfer(vec![chunk.clone()]),
        Err(refusal(400, "File length does not match expected length"))
    );
    chunk.extend_from_slice(b"fg");
    assert_eq!(
        server.transfer(vec![chunk]),
        Err(refusal(400, "Size of data exceeds expected size"))
    );
    assert!(server.disk.is_empty());
    assert!(server.records.is_empty());
}

#[test]
fn a_file_waits_while_other_requests_are_served() {
    let mut server = Server::new();
    let ann = server.join("ann");
    let bob = server.join("bob");
    let signed = server.sign(&ann);
    let first = vec![from_ann(signed.clone()).bytes(), b"abcdef".to_vec()];
    assert_eq!(server.transfer(first), Ok(answer(200, "Transfer Completed")));
    let second = vec![from_ann(signed.clone()).bytes(), b"ghijkl".to_vec()];
    assert_eq!(server.transfer(second), Ok(answer(200, "Transfer Completed")));
    let broken = vec![from_ann(signed).bytes(), b"ghijklm".to_vec()];
    assert!(server.transfer(broken).is_err());
    server.join("cid");
    let signed_by_bob = server.sign(&bob);
    assert_eq!(server.download("bob", "2", &signed_by_bob), Ok(b"ghijkl".to_vec()));
    assert_eq!(server.list_users("bob", &signed_by_bob), Ok(answer(200, "ann\nbob\ncid")));
    server.clock += 3_599;
    assert_eq!(server.clean_up(), Ok(()));
    let signed_by_bob = server.sign(&bob);
    assert_eq!(server.inbox("bob", &signed_by_bob).unwrap().len(), 1);
    assert_eq!(server.download("bob", "1", &signed_by_bob), Ok(b"abcdef".to_vec()));
    assert!(server.disk.is_empty());
}

#[test]
fn a_download_id_is_never_good_again() {
    let mut server = Server::new();
    let ann = server.join("ann");
    let bob = server.join("bob");
    let signed = server.sign(&ann);
    let signed_by_bob = server.sign(&bob);
    let chunks = || vec![from_ann(signed.clone()).bytes(), b"abcdef".to_vec()];
    let invalid = Err(refusal(400, "Invalid download id"));
    assert_eq!(server.transfer(chunks()), Ok(answer(200, "Transfer Completed")));
    assert_eq!(server.download("bob", "1", &signed_by_bob), Ok(b"abcdef".to_vec()));
    assert_eq!(server.transfer(chunks()), Ok(answer(200, "Transfer Completed")));
    server.join("cid");
    assert_eq!(server.inbox("bob", &signed_by_bob).unwrap().len(), 1);
    assert_eq!(server.download("bob", "1", &signed_by_bob), invalid);
    assert_eq!(server.download("bob", "2", &signed_by_bob), Ok(b"abcdef".to_vec()));
    server.clock += 10_000;
    assert_eq!(server.clean_up(), Ok(()));
    let signed_by_bob = server.sign(&bob);
    assert_eq!(server.download("bob", "1", &signed_by_bob), invalid);
    assert_eq!(server.download("bob", "2", &signed_by_bob), invalid);
}

#[test]
fn each_recipient_gets_one_record() {
    let mut server = Server::new();
    let ann = server.join("ann");
    let bob = server.join("bob");
    let cid = server.join("cid");
    let head = Head {
        recipients: vec!["bob", "cid", "bob"],
        keys: vec!["first", "second", "third"],
        ..from_ann(server.sign(&ann))
    };
    let result = server.transfer(vec![head.bytes(), b"abcdef".to_vec()]);
    assert_eq!(result, Ok(answer(200, "Transfer Completed")));
    assert_eq!(server.records.len(), 2);
    assert_eq!(server.records[0].recipient, server.user("bob").id);
    assert_eq!(server.records[0].shared_key, "first");
    assert_eq!(server.records[1].recipient, server.user("cid").id);
    assert_eq!(server.records[1].shared_key, "second");
    assert_eq!(server.user("bob").transfer_count, 1);

    let signed = server.sign(&bob);
    assert_eq!(server.download("bob", "1", &signed), Ok(b"abcdef".to_vec()));
    assert_eq!(server.records.len(), 1);
    assert_eq!(server.files.len(), 1);
    assert!(server.disk.is_empty());
    let signed = server.sign(&cid);
    let body = "Could not find file, the file may have expired";
    assert_eq!(server.download("cid", "1", &signed), Err(refusal(500, body)));
    assert_eq!(server.records.len(), 1);
}

#[test]
fn download_ids_count_up() {
    let mut server = Server::new();
    let ann = server.join("ann");
    server.join("bob");
    for _ in 0..3 {
        let head = from_ann(server.sign(&ann));
        server.transfer(vec![head.bytes(), b"abcdef".to_vec()]).unwrap();
    }
    let ids: Vec<String> = server.records.iter().map(|row| row.download_id.clone()).collect();
    assert_eq!(ids, vec!["1".to_string(), "2".to_string(), "3".to_string()]);
}

#[test]
fn a_malformed_upload_is_refused() {
    let mut server = Server::new();
    let malformed = Err(refusal(400, "Malformed Request"));
    assert_eq!(server.transfer(vec![]), malformed);
    assert_eq!(server.transfer(vec![vec![0, 0, 0]]), malformed);
    assert_eq!(server.transfer(vec![vec![0, 0, 0, 0, 0, 0, 0, 9], vec![b'{']]), malformed);
    let unreadable = Err(refusal(400, "Could not parse request"));
    assert_eq!(server.transfer(vec![vec![0; 8]]), unreadable);
    assert_eq!(server.transfer(vec![vec![0, 0, 0, 0, 0, 0, 0, 2, b'{', b'}']]), unreadable);
    assert!(server.files.is_empty() && server.disk.is_empty());
}

#[test]
fn an_upload_that_is_not_admitted_stores_nothing() {
    let mut server = Server::new();
    let ann = server.join("ann");
    server.join("bob");
    let signed = server.sign(&ann);

    let long = Head { name: "abcdefghijklmnopqrstu", ..from_ann(signed.clone()) };
    let body = "Name field must not exceed 20 characters";
    assert_eq!(server.transfer(vec![long.bytes()]), Ok(answer(400, body)));

    let unsigned = Head { name: "abcdefghijklmnopqrstu", ..from_ann("nonsense".to_string()) };
    let before = server.authenticators.clone();
    server.clock += 10_000;
    assert_eq!(server.transfer(vec![unsigned.bytes()]), Ok(answer(400, body)));
    assert_eq!(server.authenticators, before);
    server.clock -= 10_000;

    let nobody = Head { sender: "eve", name: "abcdefghijklmnopqrstu", ..from_ann(signed.clone()) };
    assert_eq!(
        server.transfer(vec![nobody.bytes()]),
        Err(refusal(400, "User eve does not exist"))
    );

    let stranger = Head { sender: "eve", ..from_ann(signed.clone()) };
    assert_eq!(
        server.transfer(vec![stranger.bytes()]),
        Err(refusal(400, "User eve does not exist"))
    );

    let impostor = Head { sender: "bob", ..from_ann(signed.clone()) };
    assert_eq!(
        server.transfer(vec![impostor.bytes()]),
        Err(refusal(401, "Authentication failed"))
    );

    let large = Head { data_len: 1001, ..from_ann(signed.clone()) };
    assert_eq!(
        server.transfer(vec![large.bytes()]),
        Err(refusal(403, "Transfer quota reached"))
    );

    assert!(server.files.is_empty());
    assert!(server.records.is_empty());
    assert!(server.disk.is_empty());
    assert_eq!(server.user("bob").transfer_count, 0);
}

#[test]
fn a_new_user_cannot_upload_before_approval() {
    let mut server = Server::new();
    server.join("bob");
    server.settings[1] = Some("true");
    let ann = server.join("ann");
    let head = from_ann(server.sign(&ann));
    let upload = || vec![head.bytes(), b"abcdef".to_vec()];
    let body = "Your account has yet to be approved by the server administrator";
    assert_eq!(server.transfer(upload()), Err(refusal(401, body)));
    assert!(server.files.is_empty());
    server.users[1].approved = true;
    assert_eq!(server.transfer(upload()), Ok(answer(200, "Transfer Completed")));
}

#[test]
fn the_quota_counts_all_files_of_the_sender() {
    let mut server = Server::new();
    let ann = server.join("ann");
    server.join("bob");
    server.users[0].transfer_quota = 10;
    let head = from_ann(server.sign(&ann));
    let upload = || vec![head.bytes(), b"abcdef".to_vec()];
    assert_eq!(server.transfer(upload()), Ok(answer(200, "Transfer Completed")));
    assert_eq!(server.transfer(upload()), Err(refusal(403, "Transfer quota reached")));
    assert_eq!(server.files.len(), 1);
}

#[test]
fn an_upload_of_the_wrong_length_leaves_no_record_and_no_file_on_disk() {
    let mut server = Server::new();
    let ann = server.join("ann");
    server.join("bob");
    let head = from_ann(server.sign(&ann));
    let result = server.transfer(vec![head.bytes(), b"abcdefg".to_vec()]);
    assert_eq!(result, Err(refusal(400, "Size of data exceeds expected size")));
    let result = server.transfer(vec![head.bytes(), b"abcde".to_vec()]);
    assert_eq!(result, Err(refusal(400, "File length does not match expected length")));
    assert!(server.records.is_empty());
    assert!(server.disk.is_empty());
    assert_eq!(server.files.len(), 2);
    assert_eq!(server.user("bob").transfer_count, 0);
}

#[test]
fn an_upload_that_breaks_off_is_answered_and_leaves_no_file_on_disk() {
    let mut server = Server::new();
    let ann = server.join("ann");
    server.join("bob");
    let head = from_ann(server.sign(&ann));
    server.broken = Some(answer(400, "broken"));
    assert_eq!(server.transfer(vec![head.bytes()[..9].to_vec()]), Err(refusal(400, "broken")));
    assert!(server.files.is_empty());
    server.broken = Some(answer(413, "overflow"));
    let result = server.transfer(vec![head.bytes(), b"abcdef".to_vec()]);
    assert_eq!(result, Err(refusal(413, "overflow")));
    assert_eq!(server.files.len(), 1);
    assert!(server.records.is_empty());
    assert!(server.disk.is_empty());
}

#[test]
fn a_delivery_that_cannot_be_completed_is_refused() {
    let mut server = Server::new();
    let ann = server.join("ann");
    server.join("bob");
    let undelivered = Err(refusal(500, "Could not parse transfer request"));
    let head = Head { recipients: vec!["bob", "eve"], ..from_ann(server.sign(&ann)) };
    assert_eq!(server.transfer(vec![head.bytes(), b"abcdef".to_vec()]), undelivered);
    let head = Head { keys: vec![], ..from_ann(server.sign(&ann)) };
    assert_eq!(server.transfer(vec![head.bytes(), b"abcdef".to_vec()]), undelivered);
    server.settings[2] = Some("soon");
    let head = from_ann(server.sign(&ann));
    assert_eq!(server.transfer(vec![head.bytes(), b"abcdef".to_vec()]), undelivered);
    assert_eq!(server.records.len(), 1);
}

#[test]
fn a_server_without_storage_abandons_the_request() {
    let mut server = Server::new();
    let ann = server.join("ann");
    let bob = server.join("bob");
    let head = from_ann(server.sign(&ann));
    server.transfer(vec![head.bytes(), b"abcdef".to_vec()]).unwrap();
    server.settings[0] = None;
    assert_eq!(server.transfer(vec![head.bytes(), b"abcdef".to_vec()]), Err(Refusal::Abandon));
    let signed = server.sign(&bob);
    assert_eq!(server.download("bob", "1", &signed), Err(Refusal::Abandon));
    server.clock += 3_600;
    assert_eq!(server.clean_up(), Err(Refusal::Abandon));
}

#[test]
fn a_download_fails_with_the_database() {
    let mut server = Server::new();
    let ann = server.join("ann");
    let bob = server.join("bob");
    let head = from_ann(server.sign(&ann));
    server.transfer(vec![head.bytes(), b"abcdef".to_vec()]).unwrap();
    let signed = server.sign(&bob);
    // The user, the authenticators twice, and the record.
    server.fails_in = Some(3);
    assert_eq!(server.download("bob", "1", &signed), Err(refusal(500, "")));
    server.fails_in = Some(5);
    assert_eq!(server.download("bob", "1", &signed), Err(refusal(500, "Server error")));
    assert_eq!(server.download("bob", "1", &signed), Ok(b"abcdef".to_vec()));
}

#[test]
fn a_file_that_others_have_stays_in_the_database() {
    let mut server = Server::new();
    let ann = server.join("ann");
    server.join("bob");
    server.join("cid");
    let head = Head {
        recipients: vec!["bob", "cid"],
        keys: vec!["1", "2"],
        ..from_ann(server.sign(&ann))
    };
    server.transfer(vec![head.bytes(), b"abcdef".to_vec()]).unwrap();
    let (bob, cid) = (server.user("bob").id, server.user("cid").id);
    let file_id = server.files[0].id.clone();
    let first = clean_up_transfer_record(&bob, "1", &file_id);
    let done = server.drive(first, |machine, reply, _| machine.resume(reply));
    assert_eq!(done, Ok(()));
    assert_eq!(server.files.len(), 1);
    let first = clean_up_transfer_record(&cid, "1", &file_id);
    let done = server.drive(first, |machine, reply, _| machine.resume(reply));
    assert_eq!(done, Ok(()));
    assert!(server.files.is_empty());
    let first = clean_up_transfer_record(&cid, "1", &file_id);
    let done = server.drive(first, |machine, reply, _| machine.resume(reply));
    assert_eq!(done, Err(StoreError::NotFound));
}

#[test]
fn a_file_that_is_gone_from_the_disk_does_not_stop_the_clean_up() {
    let mut server = Server::new();
    let ann = server.join("ann");
    let bob = server.join("bob");
    server.join("cid");
    let head = Head {
        recipients: vec!["bob", "cid"],
        keys: vec!["1", "2"],
        ..from_ann(server.sign(&ann))
    };
    server.transfer(vec![head.bytes(), b"abcdef".to_vec()]).unwrap();
    let signed = server.sign(&bob);
    assert_eq!(server.download("bob", "1", &signed), Ok(b"abcdef".to_vec()));
    assert!(server.disk.is_empty());
    assert_eq!((server.records.len(), server.files.len()), (1, 1));
    server.clock += 3_600;
    assert_eq!(server.clean_up(), Ok(()));
    assert!(server.records.is_empty() && server.files.is_empty());
}

#[test]
fn expired_transfers_are_cleared_away() {
    let mut server = Server::new();
    let ann = server.join("ann");
    server.join("bob");
    server.join("cid");
    let head = Head {
        recipients: vec!["bob", "cid"],
        keys: vec!["1", "2"],
        ..from_ann(server.sign(&ann))
    };
    server.transfer(vec![head.bytes(), b"abcdef".to_vec()]).unwrap();
    server.clock += 100;
    let head = from_ann(server.sign(&ann));
    server.transfer(vec![head.bytes(), b"ghijkl".to_vec()]).unwrap();

    server.clock = 1_000_000 + 3_599;
    assert_eq!(server.clean_up(), Ok(()));
    assert_eq!(server.records.len(), 3);

    server.clock += 1;
    assert_eq!(server.clean_up(), Ok(()));
    assert_eq!(server.records.len(), 1);
    assert_eq!(server.files.len(), 1);
    assert_eq!(server.disk.values().collect::<Vec<_>>(), vec![&b"ghijkl".to_vec()]);

    server.clock += 100;
    assert_eq!(server.clean_up(), Ok(()));
    assert!(server.records.is_empty());
    assert!(server.files.is_empty());
    assert!(server.disk.is_empty());
    assert_eq!(CLEANUP_PROCESS_SLEEP_SECONDS, 300);
}

#[test]
fn what_cannot_be_deleted_is_passed_over() {
    let mut server = Server::new();
    let ann = server.join("ann");
    server.join("bob");
    for _ in 0..2 {
        let head = from_ann(server.sign(&ann));
        server.transfer(vec![head.bytes(), b"abcdef".to_vec()]).unwrap();
    }
    server.clock += 3_600;
    server.fails_in = Some(0);
    assert_eq!(server.clean_up(), Ok(()));
    assert_eq!(server.records.len(), 2);
    server.fails_in = Some(1);
    assert_eq!(server.clean_up(), Ok(()));
    assert_eq!(server.records.len(), 1);
    assert_eq!(server.files.len(), 1);
    assert_eq!(server.clean_up(), Ok(()));
    assert!(server.records.is_empty() && server.files.is_empty() && server.disk.is_empty());
}
