//! The actions on the database.
//!
//! An action of one statement is a function that gives the statement; where its
//! result is more than the row that comes back, a second function, whose name
//! ends in `_result`, reads it from the reply. An action of several statements
//! is a machine, and its function gives the first step.

use crate::fresh::Fresh;
use crate::models::{Authenticator, FileMetadataItem, TransferRecord, User};
use crate::settings::Settings;
use crate::statements::{model_of, Progress, Reply, ReplyModel, Statement, StoreError};
use crate::text::{decimal, i32_to_string, Text};
use crate::time::Timestamp;
use bigdecimal::{BigDecimal, ToPrimitive};
use std::str::FromStr;
use vstd::prelude::*;

verus! {

/// Asks for the user with this name.
pub fn get_user_from_username(username_to_query: &str) -> (r: Statement)
    ensures
        r.deep_view() == (Statement::UserByUsername { username: username_to_query@ }),
{
    Statement::UserByUsername { username: username_to_query.to_owned() }
}

/// The user that was asked for, if there is one.
pub open spec fn found_user(reply: ReplyModel) -> Result<Option<User<Text>>, StoreError> {
    match reply.user() {
        Ok(user) => Ok(Some(user)),
        Err(StoreError::NotFound) => Ok(None),
        Err(error) => Err(error),
    }
}

/// Reads the user that was asked for: that there is none is no error.
pub fn get_user_from_username_result(reply: Reply) -> (r: Result<Option<User>, StoreError>)
    ensures
        model_of(r) == found_user(reply.deep_view()),
{
    match reply.into_user() {
        Ok(user) => Ok(Some(user)),
        Err(StoreError::NotFound) => Ok(None),
        Err(error) => Err(error),
    }
}

/// An insertion that ends with the id of the new row.
#[derive(Debug, PartialEq)]
pub struct Insertion<S = String> {
    pub id: S,
}

impl DeepView for Insertion {
    type V = Insertion<Text>;

    open spec fn deep_view(&self) -> Insertion<Text> {
        Insertion { id: self.id@ }
    }
}

impl Insertion<Text> {
    /// The step after `reply`.
    pub open spec fn next(self, reply: ReplyModel) -> Progress<
        Insertion<Text>,
        Text,
        StoreError,
        Statement<Text>,
    > {
        match reply.executed() {
            Ok(()) => Progress::Done(self.id),
            Err(error) => Progress::Failed(error),
        }
    }
}

impl Insertion {
    /// Goes on after `reply`.
    pub fn resume(self, reply: Reply) -> (r: Progress<Insertion, String, StoreError>)
        ensures
            r.deep_view() == self.deep_view().next(reply.deep_view()),
    {
        match reply.into_executed() {
            Ok(()) => Progress::Done(self.id),
            Err(error) => Progress::Failed(error),
        }
    }
}

/// The row of a new user: no transfers yet, and approved unless approval is
/// required.
pub open spec fn new_user(
    username: Text,
    public_key: Text,
    signing_public_key: Text,
    approval_required: bool,
    quota: i64,
    fresh: Fresh<Text>,
) -> User<Text> {
    User {
        id: fresh.id,
        username,
        public_key,
        signing_public_key,
        transfer_count: 0,
        transfer_quota: quota,
        date_registered: fresh.timestamp,
        approved: !approval_required,
    }
}

/// The first step of inserting a user, where the settings can be read.
pub open spec fn user_insertion(
    username: Text,
    public_key: Text,
    signing_public_key: Text,
    settings: Settings<Text>,
    fresh: Fresh<Text>,
) -> Progress<Insertion<Text>, Text, StoreError, Statement<Text>> {
    Progress::Ask(
        Statement::InsertUser(
            new_user(
                username,
                public_key,
                signing_public_key,
                settings.approval()->0,
                settings.quota()->0,
                fresh,
            ),
        ),
        Insertion { id: fresh.id },
    )
}

/// Inserts a new user. The settings must say whether approval is required and
/// how large the quota is.
pub fn insert_new_user(
    new_username: &str,
    new_public_key: &str,
    new_signing_public_key: &str,
    settings: &Settings,
    fresh: Fresh,
) -> (r: Progress<Insertion, String, StoreError>)
    requires
        settings.deep_view().admits_users(),
    ensures
        r.deep_view() == user_insertion(
            new_username@,
            new_public_key@,
            new_signing_public_key@,
            settings.deep_view(),
            fresh.deep_view(),
        ),
{
    let approval_required: bool = settings.approval_required().unwrap();
    let quota: i64 = settings.quota_bytes().unwrap();
    let new_id = fresh.id.clone();
    let row = User {
        id: new_id.clone(),
        username: new_username.to_owned(),
        public_key: new_public_key.to_owned(),
        signing_public_key: new_signing_public_key.to_owned(),
        transfer_count: 0,
        transfer_quota: quota,
        date_registered: fresh.timestamp,
        approved: !approval_required,
    };
    Progress::Ask(Statement::InsertUser(row), Insertion { id: new_id })
}

/// Counting one more transfer to a user.
#[derive(Debug, PartialEq)]
pub enum TransferCountUpdate<S = String> {
    /// Waits for the user.
    Reading { user_id: S },
    /// Waits for the new count to be set.
    Writing { next_count: i32 },
}

impl DeepView for TransferCountUpdate {
    type V = TransferCountUpdate<Text>;

    open spec fn deep_view(&self) -> TransferCountUpdate<Text> {
        match *self {
            TransferCountUpdate::Reading { user_id } => TransferCountUpdate::Reading {
                user_id: user_id@,
            },
            TransferCountUpdate::Writing { next_count } => TransferCountUpdate::Writing {
                next_count,
            },
        }
    }
}

impl TransferCountUpdate<Text> {
    /// The first step.
    pub open spec fn first(user_id: Text) -> Progress<
        TransferCountUpdate<Text>,
        i32,
        StoreError,
        Statement<Text>,
    > {
        Progress::Ask(Statement::UserById { id: user_id }, TransferCountUpdate::Reading { user_id })
    }

    /// The step after `reply`.
    pub open spec fn next(self, reply: ReplyModel) -> Progress<
        TransferCountUpdate<Text>,
        i32,
        StoreError,
        Statement<Text>,
    > {
        match (self, reply.user()) {
            (_, Err(error)) => Progress::Failed(error),
            (TransferCountUpdate::Reading { user_id }, Ok(user)) => if user.transfer_count
                == i32::MAX {
                Progress::Failed(StoreError::Failed)
            } else {
                let next_count = (user.transfer_count + 1) as i32;
                Progress::Ask(
                    Statement::SetTransferCount { id: user_id, count: next_count },
                    TransferCountUpdate::Writing { next_count },
                )
            },
            (TransferCountUpdate::Writing { next_count }, Ok(_)) => Progress::Done(next_count),
        }
    }
}

/// Counts one more transfer to the user; ends with the new count.
pub fn update_user_transfer_count(user_id: &str) -> (r: Progress<
    TransferCountUpdate,
    i32,
    StoreError,
>)
    ensures
        r.deep_view() == TransferCountUpdate::first(user_id@),
{
    Progress::Ask(
        Statement::UserById { id: user_id.to_owned() },
        TransferCountUpdate::Reading { user_id: user_id.to_owned() },
    )
}

impl TransferCountUpdate {
    /// Goes on after `reply`. A count that has reached its end cannot be
    /// raised: that is a failure.
    pub fn resume(self, reply: Reply) -> (r: Progress<TransferCountUpdate, i32, StoreError>)
        ensures
            r.deep_view() == self.deep_view().next(reply.deep_view()),
    {
        let user = match reply.into_user() {
            Ok(user) => user,
            Err(error) => {
                return Progress::Failed(error);
            },
        };
        match self {
            TransferCountUpdate::Reading { user_id } => {
                if user.transfer_count == i32::MAX {
                    return Progress::Failed(StoreError::Failed);
                }
                let next_count: i32 = user.transfer_count + 1;
                Progress::Ask(
                    Statement::SetTransferCount { id: user_id, count: next_count },
                    TransferCountUpdate::Writing { next_count },
                )
            },
            TransferCountUpdate::Writing { next_count } => Progress::Done(next_count),
        }
    }
}

/// Asks for the names of all approved users.
pub fn get_all_approved_users() -> (r: Statement)
    ensures
        r == Statement::<String>::ApprovedUsernames,
{
    Statement::ApprovedUsernames
}

/// Asks for the sum of the sizes of the user's files.
pub fn get_used_quota(user_id: &str) -> (r: Statement)
    ensures
        r.deep_view() == (Statement::FileSizeTotal { uploader: user_id@ }),
{
    Statement::FileSizeTotal { uploader: user_id.to_owned() }
}

/// The number of bytes in use: zero where there is no file, and a failure where
/// the sum is no `u64`.
pub open spec fn used_quota(reply: ReplyModel) -> Result<u64, StoreError> {
    match reply.total() {
        Ok(None) => Ok(0),
        Ok(Some(total)) => if 0 <= total <= u64::MAX {
            Ok(total as u64)
        } else {
            Err(StoreError::Failed)
        },
        Err(error) => Err(error),
    }
}

/// Calls `BigDecimal::to_u64` on the decimal number equal to `total`.
///
/// The conversion succeeds exactly on the numbers that a `u64` can hold, and
/// keeps the number.
#[verifier::external_body]
fn decimal_to_u64(total: i128) -> (r: Option<u64>)
    ensures
        r is Some <==> 0 <= total <= u64::MAX,
        r matches Some(n) ==> n == total,
{
    BigDecimal::from_str(&total.to_string()).ok().and_then(|number| number.to_u64())
}

/// Reads the number of bytes that the user's files take.
pub fn get_used_quota_result(reply: Reply) -> (r: Result<u64, StoreError>)
    ensures
        r == used_quota(reply.deep_view()),
{
    match reply.into_total() {
        Ok(None) => Ok(0),
        Ok(Some(total)) => match decimal_to_u64(total) {
            Some(used) => Ok(used),
            None => Err(StoreError::Failed),
        },
        Err(error) => Err(error),
    }
}

/// Asks for the records for this recipient, with their senders and files.
pub fn get_transfer_records_and_file_metadata_for_recipient(recipient_id: &str) -> (r: Statement)
    ensures
        r.deep_view() == (Statement::RecordsWithFiles { recipient: recipient_id@ }),
{
    Statement::RecordsWithFiles { recipient: recipient_id.to_owned() }
}

/// A transfer record that still lacks its download id and date.
#[derive(Debug, PartialEq)]
pub struct TransferDraft<S = String> {
    pub id: S,
    pub sender: S,
    pub recipient: S,
    pub shared_key: S,
    pub shared_header: S,
    pub shared_nonce: S,
    pub file_id: S,
    pub expires_on: Timestamp,
}

impl DeepView for TransferDraft {
    type V = TransferDraft<Text>;

    open spec fn deep_view(&self) -> TransferDraft<Text> {
        TransferDraft {
            id: self.id@,
            sender: self.sender@,
            recipient: self.recipient@,
            shared_key: self.shared_key@,
            shared_header: self.shared_header@,
            shared_nonce: self.shared_nonce@,
            file_id: self.file_id@,
            expires_on: self.expires_on,
        }
    }
}

impl TransferDraft<Text> {
    /// The record: its download id is the recipient's transfer count in decimal.
    pub open spec fn record(self, count: i32, date_created: Timestamp) -> TransferRecord<Text> {
        TransferRecord {
            id: self.id,
            download_id: decimal(count as int),
            sender: self.sender,
            recipient: self.recipient,
            shared_key: self.shared_key,
            shared_header: self.shared_header,
            shared_nonce: self.shared_nonce,
            file_id: self.file_id,
            date_created,
            expires_on: self.expires_on,
        }
    }
}

/// Inserting a transfer record.
#[derive(Debug, PartialEq)]
pub enum TransferRecordInsertion<S = String> {
    /// Counts the transfer.
    Counting { draft: TransferDraft<S>, update: TransferCountUpdate<S> },
    /// Waits for the record to be inserted.
    Inserting { id: S },
}

impl DeepView for TransferRecordInsertion {
    type V = TransferRecordInsertion<Text>;

    open spec fn deep_view(&self) -> TransferRecordInsertion<Text> {
        match *self {
            TransferRecordInsertion::Counting { draft, update } => {
                TransferRecordInsertion::Counting {
                    draft: draft.deep_view(),
                    update: update.deep_view(),
                }
            },
            TransferRecordInsertion::Inserting { id } => TransferRecordInsertion::Inserting {
                id: id@,
            },
        }
    }
}

/// What a new transfer record is made of, apart from what the server adds.
#[derive(Debug, PartialEq)]
pub struct NewTransfer<S = String> {
    pub sender_id: S,
    pub recipient_id: S,
    pub shared_key: S,
    pub shared_header: S,
    pub shared_nonce: S,
    pub file_id: S,
}

impl DeepView for NewTransfer {
    type V = NewTransfer<Text>;

    open spec fn deep_view(&self) -> NewTransfer<Text> {
        NewTransfer {
            sender_id: self.sender_id@,
            recipient_id: self.recipient_id@,
            shared_key: self.shared_key@,
            shared_header: self.shared_header@,
            shared_nonce: self.shared_nonce@,
            file_id: self.file_id@,
        }
    }
}

impl TransferRecordInsertion<Text> {
    /// The draft of the record, where the calendar has its expiry date.
    pub open spec fn draft(
        transfer: NewTransfer<Text>,
        lifetime: Option<i64>,
        fresh: Fresh<Text>,
    ) -> Option<TransferDraft<Text>> {
        match lifetime {
            Some(minutes) => match fresh.timestamp.later_by(60 * minutes) {
                Some(expires_on) => Some(
                    TransferDraft {
                        id: fresh.id,
                        sender: transfer.sender_id,
                        recipient: transfer.recipient_id,
                        shared_key: transfer.shared_key,
                        shared_header: transfer.shared_header,
                        shared_nonce: transfer.shared_nonce,
                        file_id: transfer.file_id,
                        expires_on,
                    },
                ),
                None => None,
            },
            None => None,
        }
    }

    /// The first step.
    pub open spec fn first(
        transfer: NewTransfer<Text>,
        lifetime: Option<i64>,
        fresh: Fresh<Text>,
    ) -> Progress<TransferRecordInsertion<Text>, Text, StoreError, Statement<Text>> {
        match Self::draft(transfer, lifetime, fresh) {
            Some(draft) => Self::counted(
                draft,
                TransferCountUpdate::first(draft.recipient),
                fresh,
            ),
            None => Progress::Failed(StoreError::Failed),
        }
    }

    /// The step that follows from a step of counting.
    pub open spec fn counted(
        draft: TransferDraft<Text>,
        counting: Progress<TransferCountUpdate<Text>, i32, StoreError, Statement<Text>>,
        fresh: Fresh<Text>,
    ) -> Progress<TransferRecordInsertion<Text>, Text, StoreError, Statement<Text>> {
        match counting {
            Progress::Ask(statement, update) => Progress::Ask(
                statement,
                TransferRecordInsertion::Counting { draft, update },
            ),
            Progress::Done(count) => Progress::Ask(
                Statement::InsertRecord(draft.record(count, fresh.timestamp)),
                TransferRecordInsertion::Inserting { id: draft.id },
            ),
            Progress::Failed(error) => Progress::Failed(error),
        }
    }

    /// The step after `reply`.
    pub open spec fn next(self, reply: ReplyModel, fresh: Fresh<Text>) -> Progress<
        TransferRecordInsertion<Text>,
        Text,
        StoreError,
        Statement<Text>,
    > {
        match self {
            TransferRecordInsertion::Counting { draft, update } => Self::counted(
                draft,
                update.next(reply),
                fresh,
            ),
            TransferRecordInsertion::Inserting { id } => match reply.executed() {
                Ok(()) => Progress::Done(id),
                Err(error) => Progress::Failed(error),
            },
        }
    }
}

/// Counts a transfer to the recipient and inserts its record; ends with the id
/// of the record. Fails before it asks for anything where the lifetime is not
/// known or the calendar lacks the expiry date.
pub fn insert_new_transfer_record(
    transfer: NewTransfer,
    lifetime_mins: Option<i64>,
    fresh: Fresh,
) -> (r: Progress<TransferRecordInsertion, String, StoreError>)
    ensures
        r.deep_view() == TransferRecordInsertion::first(
            transfer.deep_view(),
            lifetime_mins,
            fresh.deep_view(),
        ),
{
    let expiry_date = match lifetime_mins {
        Some(minutes) => fresh.timestamp.plus_minutes(minutes),
        None => None,
    };
    match expiry_date {
        Some(expires_on) => {
            let draft = TransferDraft {
                id: fresh.id.clone(),
                sender: transfer.sender_id,
                recipient: transfer.recipient_id,
                shared_key: transfer.shared_key,
                shared_header: transfer.shared_header,
                shared_nonce: transfer.shared_nonce,
                file_id: transfer.file_id,
                expires_on,
            };
            let counting = update_user_transfer_count(draft.recipient.as_str());
            after_counting(draft, counting, fresh)
        },
        None => Progress::Failed(StoreError::Failed),
    }
}

fn after_counting(
    draft: TransferDraft,
    counting: Progress<TransferCountUpdate, i32, StoreError>,
    fresh: Fresh,
) -> (r: Progress<TransferRecordInsertion, String, StoreError>)
    ensures
        r.deep_view() == TransferRecordInsertion::counted(
            draft.deep_view(),
            counting.deep_view(),
            fresh.deep_view(),
        ),
{
    match counting {
        Progress::Ask(statement, update) => Progress::Ask(
            statement,
            TransferRecordInsertion::Counting { draft, update },
        ),
        Progress::Done(count) => {
            let id = draft.id.clone();
            let row = TransferRecord {
                id: draft.id,
                download_id: i32_to_string(count),
                sender: draft.sender,
                recipient: draft.recipient,
                shared_key: draft.shared_key,
                shared_header: draft.shared_header,
                shared_nonce: draft.shared_nonce,
                file_id: draft.file_id,
                date_created: fresh.timestamp,
                expires_on: draft.expires_on,
            };
            Progress::Ask(
                Statement::InsertRecord(row),
                TransferRecordInsertion::Inserting { id },
            )
        },
        Progress::Failed(error) => Progress::Failed(error),
    }
}

impl TransferRecordInsertion {
    /// Goes on after `reply`.
    pub fn resume(self, reply: Reply, fresh: Fresh) -> (r: Progress<
        TransferRecordInsertion,
        String,
        StoreError,
    >)
        ensures
            r.deep_view() == self.deep_view().next(reply.deep_view(), fresh.deep_view()),
    {
        match self {
            TransferRecordInsertion::Counting { draft, update } => {
                after_counting(draft, update.resume(reply), fresh)
            },
            TransferRecordInsertion::Inserting { id } => match reply.into_executed() {
                Ok(()) => Progress::Done(id),
                Err(error) => Progress::Failed(error),
            },
        }
    }
}

/// The row of a new file.
pub open spec fn new_file(
    uploader_id: Text,
    file_name: Text,
    file_url: Text,
    file_size: i64,
    fresh: Fresh<Text>,
) -> FileMetadataItem<Text> {
    FileMetadataItem {
        id: fresh.id,
        uploader: uploader_id,
        file_name,
        file_url,
        file_size,
        date_created: fresh.timestamp,
    }
}

/// Inserts the metadata of a new file.
pub fn insert_new_file_metadata_item(
    uploader_id: &str,
    new_file_name: &str,
    new_file_url: &str,
    new_file_size: i64,
    fresh: Fresh,
) -> (r: Progress<Insertion, String, StoreError>)
    ensures
        r.deep_view() == Progress::<Insertion<Text>, Text, StoreError, Statement<Text>>::Ask(
            Statement::InsertFile(
                new_file(
                    uploader_id@,
                    new_file_name@,
                    new_file_url@,
                    new_file_size,
                    fresh.deep_view(),
                ),
            ),
            Insertion { id: fresh.id@ },
        ),
{
    let new_id = fresh.id.clone();
    let row = FileMetadataItem {
        id: new_id.clone(),
        uploader: uploader_id.to_owned(),
        file_name: new_file_name.to_owned(),
        file_url: new_file_url.to_owned(),
        file_size: new_file_size,
        date_created: fresh.timestamp,
    };
    Progress::Ask(Statement::InsertFile(row), Insertion { id: new_id })
}

/// Finding the file of a transfer.
#[derive(Debug, Clone, Copy, PartialEq, Eq)]
pub enum FileSearch {
    /// Waits for the record.
    Record,
    /// Waits for the file.
    File,
}

impl DeepView for FileSearch {
    type V = FileSearch;

    open spec fn deep_view(&self) -> FileSearch {
        *self
    }
}

impl FileSearch {
    /// The step after `reply`.
    pub open spec fn next(self, reply: ReplyModel) -> Progress<
        FileSearch,
        FileMetadataItem<Text>,
        StoreError,
        Statement<Text>,
    > {
        match self {
            FileSearch::Record => match reply.record() {
                Ok(record) => Progress::Ask(
                    Statement::FileById { id: record.file_id },
                    FileSearch::File,
                ),
                Err(error) => Progress::Failed(error),
            },
            FileSearch::File => match reply.file() {
                Ok(file) => Progress::Done(file),
                Err(error) => Progress::Failed(error),
            },
        }
    }

    /// Goes on after `reply`.
    pub fn resume(self, reply: Reply) -> (r: Progress<FileSearch, FileMetadataItem, StoreError>)
        ensures
            r.deep_view() == self.next(reply.deep_view()),
    {
        match self {
            FileSearch::Record => match reply.into_record() {
                Ok(record) => Progress::Ask(
                    get_file_metadata_item(record.file_id.as_str()),
                    FileSearch::File,
                ),
                Err(error) => Progress::Failed(error),
            },
            FileSearch::File => match reply.into_file() {
                Ok(file) => Progress::Done(file),
                Err(error) => Progress::Failed(error),
            },
        }
    }
}

/// Finds the file of the transfer that the user knows by this download id.
pub fn get_file_metadata_by_recipient_and_download_id(user_id: &str, dl_id: &str) -> (r: Progress<
    FileSearch,
    FileMetadataItem,
    StoreError,
>)
    ensures
        r.deep_view() == Progress::<
            FileSearch,
            FileMetadataItem<Text>,
            StoreError,
            Statement<Text>,
        >::Ask(
            Statement::RecordByDownload { recipient: user_id@, download_id: dl_id@ },
            FileSearch::Record,
        ),
{
    Progress::Ask(
        Statement::RecordByDownload {
            recipient: user_id.to_owned(),
            download_id: dl_id.to_owned(),
        },
        FileSearch::Record,
    )
}

/// Deletes the record with this id.
pub fn delete_transfer_record(record_id: &str) -> (r: Statement)
    ensures
        r.deep_view() == (Statement::DeleteRecord { id: record_id@ }),
{
    Statement::DeleteRecord { id: record_id.to_owned() }
}

/// Deleting the transfers that a user knows by one download id.
#[derive(Debug, PartialEq)]
pub enum RecordRemoval<S = String> {
    /// Waits for one of the records.
    Finding { user_id: S, download_id: S },
    /// Waits for the records to be deleted.
    Deleting { record: TransferRecord<S> },
}

impl DeepView for RecordRemoval {
    type V = RecordRemoval<Text>;

    open spec fn deep_view(&self) -> RecordRemoval<Text> {
        match *self {
            RecordRemoval::Finding { user_id, download_id } => RecordRemoval::Finding {
                user_id: user_id@,
                download_id: download_id@,
            },
            RecordRemoval::Deleting { record } => RecordRemoval::Deleting {
                record: record.deep_view(),
            },
        }
    }
}

impl RecordRemoval<Text> {
    /// The first step.
    pub open spec fn first(user_id: Text, download_id: Text) -> Progress<
        RecordRemoval<Text>,
        TransferRecord<Text>,
        StoreError,
        Statement<Text>,
    > {
        Progress::Ask(
            Statement::RecordByDownload { recipient: user_id, download_id },
            RecordRemoval::Finding { user_id, download_id },
        )
    }

    /// The step after `reply`.
    pub open spec fn next(self, reply: ReplyModel) -> Progress<
        RecordRemoval<Text>,
        TransferRecord<Text>,
        StoreError,
        Statement<Text>,
    > {
        match self {
            RecordRemoval::Finding { user_id, download_id } => match reply.record() {
                Ok(record) => Progress::Ask(
                    Statement::DeleteRecordsByDownload { recipient: user_id, download_id },
                    RecordRemoval::Deleting { record },
                ),
                Err(error) => Progress::Failed(error),
            },
            RecordRemoval::Deleting { record } => match reply.executed() {
                Ok(()) => Progress::Done(record),
                Err(error) => Progress::Failed(error),
            },
        }
    }
}

impl RecordRemoval {
    /// Goes on after `reply`.
    pub fn resume(self, reply: Reply) -> (r: Progress<RecordRemoval, TransferRecord, StoreError>)
        ensures
            r.deep_view() == self.deep_view().next(reply.deep_view()),
    {
        match self {
            RecordRemoval::Finding { user_id, download_id } => match reply.into_record() {
                Ok(record) => Progress::Ask(
                    Statement::DeleteRecordsByDownload { recipient: user_id, download_id },
                    RecordRemoval::Deleting { record },
                ),
                Err(error) => Progress::Failed(error),
            },
            RecordRemoval::Deleting { record } => match reply.into_executed() {
                Ok(()) => Progress::Done(record),
                Err(error) => Progress::Failed(error),
            },
        }
    }
}

/// Deletes the records that the user knows by this download id; ends with one
/// of them.
pub fn delete_transfer_record_by_user_id_and_download_id(user_id: &str, dl_id: &str) -> (r: Progress<
    RecordRemoval,
    TransferRecord,
    StoreError,
>)
    ensures
        r.deep_view() == RecordRemoval::first(user_id@, dl_id@),
{
    Progress::Ask(
        Statement::RecordByDownload {
            recipient: user_id.to_owned(),
            download_id: dl_id.to_owned(),
        },
        RecordRemoval::Finding { user_id: user_id.to_owned(), download_id: dl_id.to_owned() },
    )
}

/// Asks for the file with this id.
pub fn get_file_metadata_item(file_id: &str) -> (r: Statement)
    ensures
        r.deep_view() == (Statement::FileById { id: file_id@ }),
{
    Statement::FileById { id: file_id.to_owned() }
}

/// Asks for the number of records with this file.
pub fn is_file_unreferenced(file_id_val: &str) -> (r: Statement)
    ensures
        r.deep_view() == (Statement::CountReferences { file_id: file_id_val@ }),
{
    Statement::CountReferences { file_id: file_id_val.to_owned() }
}

/// Whether no record has the file.
pub open spec fn unreferenced(reply: ReplyModel) -> Result<bool, StoreError> {
    match reply.count() {
        Ok(count) => Ok(count == 0),
        Err(error) => Err(error),
    }
}

/// Reads whether no record has the file.
pub fn is_file_unreferenced_result(reply: Reply) -> (r: Result<bool, StoreError>)
    ensures
        r == unreferenced(reply.deep_view()),
{
    match reply.into_count() {
        Ok(num_references) => Ok(num_references == 0),
        Err(error) => Err(error),
    }
}

/// Deletes the metadata of the file with this id.
pub fn delete_file_metadata_item(file_id: &str) -> (r: Statement)
    ensures
        r.deep_view() == (Statement::DeleteFile { id: file_id@ }),
{
    Statement::DeleteFile { id: file_id.to_owned() }
}

/// Asks for all authenticators, the one that expires first in front.
pub fn get_all_authenticators() -> (r: Statement)
    ensures
        r == Statement::<String>::AllAuthenticators,
{
    Statement::AllAuthenticators
}

/// Deletes the authenticator with this id.
pub fn delete_authenticator(authenticator_id: &str) -> (r: Statement)
    ensures
        r.deep_view() == (Statement::DeleteAuthenticator { id: authenticator_id@ }),
{
    Statement::DeleteAuthenticator { id: authenticator_id.to_owned() }
}

/// Inserts an authenticator under a new id.
pub fn insert_new_authenticator(
    authenticator_value: &str,
    expiry_date: Timestamp,
    new_id: &str,
) -> (r: Statement)
    ensures
        r.deep_view() == Statement::InsertAuthenticator(
            Authenticator {
                id: new_id@,
                authenticator: authenticator_value@,
                expiration_date: expiry_date,
            },
        ),
{
    Statement::InsertAuthenticator(
        Authenticator {
            id: new_id.to_owned(),
            authenticator: authenticator_value.to_owned(),
            expiration_date: expiry_date,
        },
    )
}

/// Asks for all records that have expired at `now`.
pub fn get_expired_transfer_records(now: Timestamp) -> (r: Statement)
    ensures
        r.deep_view() == (Statement::<Text>::ExpiredRecords { now }),
{
    Statement::ExpiredRecords { now }
}

} // verus!
