//! What is asked of the database, and what it replies.

use crate::models::{
    Authenticator, FileMetadataItem, TransferRecord, TransferRecordWithFileMetadata, User,
};
use crate::text::Text;
use crate::time::Timestamp;
use vstd::prelude::*;

verus! {

/// A database statement.
#[derive(Debug, PartialEq)]
pub enum Statement<S = String> {
    /// One user with this name.
    UserByUsername { username: S },
    /// The user with this id.
    UserById { id: S },
    InsertUser(User<S>),
    /// Sets the transfer count of the user with this id; the user as it is then.
    SetTransferCount { id: S, count: i32 },
    /// The names of all approved users.
    ApprovedUsernames,
    /// The sum of the sizes of all files of this uploader.
    FileSizeTotal { uploader: S },
    /// The records for this recipient, each with its sender's name and its file.
    RecordsWithFiles { recipient: S },
    InsertRecord(TransferRecord<S>),
    InsertFile(FileMetadataItem<S>),
    /// One record for this recipient with this download id.
    RecordByDownload { recipient: S, download_id: S },
    /// Deletes the record with this id.
    DeleteRecord { id: S },
    /// Deletes all records for this recipient with this download id.
    DeleteRecordsByDownload { recipient: S, download_id: S },
    /// The file with this id.
    FileById { id: S },
    /// The number of records with this file.
    CountReferences { file_id: S },
    /// Deletes the file with this id.
    DeleteFile { id: S },
    /// All authenticators, the one that expires first in front.
    AllAuthenticators,
    /// Deletes the authenticator with this id.
    DeleteAuthenticator { id: S },
    InsertAuthenticator(Authenticator<S>),
    /// All records that expire at this time or before.
    ExpiredRecords { now: Timestamp },
}

impl DeepView for Statement {
    type V = Statement<Text>;

    open spec fn deep_view(&self) -> Statement<Text> {
        match *self {
            Statement::UserByUsername { username } => Statement::UserByUsername {
                username: username@,
            },
            Statement::UserById { id } => Statement::UserById { id: id@ },
            Statement::InsertUser(row) => Statement::InsertUser(row.deep_view()),
            Statement::SetTransferCount { id, count } => Statement::SetTransferCount {
                id: id@,
                count,
            },
            Statement::ApprovedUsernames => Statement::ApprovedUsernames,
            Statement::FileSizeTotal { uploader } => Statement::FileSizeTotal {
                uploader: uploader@,
            },
            Statement::RecordsWithFiles { recipient } => Statement::RecordsWithFiles {
                recipient: recipient@,
            },
            Statement::InsertRecord(row) => Statement::InsertRecord(row.deep_view()),
            Statement::InsertFile(row) => Statement::InsertFile(row.deep_view()),
            Statement::RecordByDownload {
                recipient,
                download_id,
            } => Statement::RecordByDownload { recipient: recipient@, download_id: download_id@ },
            Statement::DeleteRecord { id } => Statement::DeleteRecord { id: id@ },
            Statement::DeleteRecordsByDownload {
                recipient,
                download_id,
            } => Statement::DeleteRecordsByDownload {
                recipient: recipient@,
                download_id: download_id@,
            },
            Statement::FileById { id } => Statement::FileById { id: id@ },
            Statement::CountReferences { file_id } => Statement::CountReferences {
                file_id: file_id@,
            },
            Statement::DeleteFile { id } => Statement::DeleteFile { id: id@ },
            Statement::AllAuthenticators => Statement::AllAuthenticators,
            Statement::DeleteAuthenticator { id } => Statement::DeleteAuthenticator { id: id@ },
            Statement::InsertAuthenticator(row) => Statement::InsertAuthenticator(
                row.deep_view(),
            ),
            Statement::ExpiredRecords { now } => Statement::ExpiredRecords { now },
        }
    }
}

/// Why a database statement, or a step that depends on it, did not succeed.
#[derive(Debug, Clone, Copy, PartialEq, Eq)]
pub enum StoreError {
    /// One row was asked for and there is none.
    NotFound,
    /// Anything else.
    Failed,
}

impl DeepView for StoreError {
    type V = StoreError;

    open spec fn deep_view(&self) -> StoreError {
        *self
    }
}

/// The reply to a database statement.
#[derive(Debug, PartialEq)]
pub enum Reply<
    S = String,
    Names = Vec<String>,
    Items = Vec<TransferRecordWithFileMetadata>,
    Authenticators = Vec<Authenticator>,
    Records = Vec<TransferRecord>,
> {
    User(User<S>),
    Usernames(Names),
    /// A sum of sizes, absent where there was nothing to sum up.
    Total(Option<i128>),
    RecordsWithFiles(Items),
    Record(TransferRecord<S>),
    File(FileMetadataItem<S>),
    Count(i64),
    Authenticators(Authenticators),
    Records(Records),
    /// A statement that returns no row was carried out.
    Executed,
    Failed(StoreError),
}

/// The model of a reply.
pub type ReplyModel = Reply<
    Text,
    Seq<Text>,
    Seq<TransferRecordWithFileMetadata<Text>>,
    Seq<Authenticator<Text>>,
    Seq<TransferRecord<Text>>,
>;

impl DeepView for Reply {
    type V = ReplyModel;

    open spec fn deep_view(&self) -> ReplyModel {
        match *self {
            Reply::User(row) => Reply::User(row.deep_view()),
            Reply::Usernames(names) => Reply::Usernames(names.deep_view()),
            Reply::Total(total) => Reply::Total(total),
            Reply::RecordsWithFiles(items) => Reply::RecordsWithFiles(items.deep_view()),
            Reply::Record(row) => Reply::Record(row.deep_view()),
            Reply::File(row) => Reply::File(row.deep_view()),
            Reply::Count(count) => Reply::Count(count),
            Reply::Authenticators(rows) => Reply::Authenticators(rows.deep_view()),
            Reply::Records(rows) => Reply::Records(rows.deep_view()),
            Reply::Executed => Reply::Executed,
            Reply::Failed(error) => Reply::Failed(error),
        }
    }
}

/// The model of a result.
pub open spec fn model_of<T: DeepView>(r: Result<T, StoreError>) -> Result<T::V, StoreError> {
    match r {
        Ok(value) => Ok(value.deep_view()),
        Err(error) => Err(error),
    }
}

/// How a reply is read where one kind of reply is due. A reply of another kind
/// counts as a failure.
impl<Names, Items, Authenticators, Records> Reply<
    Text,
    Names,
    Items,
    Authenticators,
    Records,
> {
    /// The error in the reply; `Failed` where it is of a kind that is not due.
    pub open spec fn error(self) -> StoreError {
        match self {
            Reply::Failed(error) => error,
            _ => StoreError::Failed,
        }
    }

    /// Whether the statement failed although it might have succeeded.
    pub open spec fn is_fault(self) -> bool {
        match self {
            Reply::Failed(StoreError::Failed) => true,
            _ => false,
        }
    }

    pub open spec fn user(self) -> Result<User<Text>, StoreError> {
        match self {
            Reply::User(row) => Ok(row),
            _ => Err(self.error()),
        }
    }

    pub open spec fn usernames(self) -> Result<Names, StoreError> {
        match self {
            Reply::Usernames(names) => Ok(names),
            _ => Err(self.error()),
        }
    }

    pub open spec fn total(self) -> Result<Option<i128>, StoreError> {
        match self {
            Reply::Total(total) => Ok(total),
            _ => Err(self.error()),
        }
    }

    pub open spec fn items(self) -> Result<Items, StoreError> {
        match self {
            Reply::RecordsWithFiles(items) => Ok(items),
            _ => Err(self.error()),
        }
    }

    pub open spec fn record(self) -> Result<TransferRecord<Text>, StoreError> {
        match self {
            Reply::Record(row) => Ok(row),
            _ => Err(self.error()),
        }
    }

    pub open spec fn file(self) -> Result<FileMetadataItem<Text>, StoreError> {
        match self {
            Reply::File(row) => Ok(row),
            _ => Err(self.error()),
        }
    }

    pub open spec fn count(self) -> Result<i64, StoreError> {
        match self {
            Reply::Count(count) => Ok(count),
            _ => Err(self.error()),
        }
    }

    pub open spec fn authenticators(self) -> Result<Authenticators, StoreError> {
        match self {
            Reply::Authenticators(rows) => Ok(rows),
            _ => Err(self.error()),
        }
    }

    pub open spec fn records(self) -> Result<Records, StoreError> {
        match self {
            Reply::Records(rows) => Ok(rows),
            _ => Err(self.error()),
        }
    }

    pub open spec fn executed(self) -> Result<(), StoreError> {
        match self {
            Reply::Executed => Ok(()),
            _ => Err(self.error()),
        }
    }
}

impl Reply {
    /// The error in the reply; `Failed` where it is of a kind that is not due.
    fn into_error(self) -> (r: StoreError)
        ensures
            r == self.deep_view().error(),
    {
        match self {
            Reply::Failed(error) => error,
            _ => StoreError::Failed,
        }
    }

    /// The user in the reply.
    pub fn into_user(self) -> (r: Result<User, StoreError>)
        ensures
            model_of(r) == self.deep_view().user(),
    {
        match self {
            Reply::User(row) => Ok(row),
            other => Err(other.into_error()),
        }
    }

    /// The usernames in the reply.
    pub fn into_usernames(self) -> (r: Result<Vec<String>, StoreError>)
        ensures
            model_of(r) == self.deep_view().usernames(),
    {
        match self {
            Reply::Usernames(names) => Ok(names),
            other => Err(other.into_error()),
        }
    }

    /// The sum in the reply.
    pub fn into_total(self) -> (r: Result<Option<i128>, StoreError>)
        ensures
            r == self.deep_view().total(),
    {
        match self {
            Reply::Total(total) => Ok(total),
            other => Err(other.into_error()),
        }
    }

    /// The records with their files in the reply.
    pub fn into_items(self) -> (r: Result<Vec<TransferRecordWithFileMetadata>, StoreError>)
        ensures
            model_of(r) == self.deep_view().items(),
    {
        match self {
            Reply::RecordsWithFiles(items) => Ok(items),
            other => Err(other.into_error()),
        }
    }

    /// The record in the reply.
    pub fn into_record(self) -> (r: Result<TransferRecord, StoreError>)
        ensures
            model_of(r) == self.deep_view().record(),
    {
        match self {
            Reply::Record(row) => Ok(row),
            other => Err(other.into_error()),
        }
    }

    /// The file in the reply.
    pub fn into_file(self) -> (r: Result<FileMetadataItem, StoreError>)
        ensures
            model_of(r) == self.deep_view().file(),
    {
        match self {
            Reply::File(row) => Ok(row),
            other => Err(other.into_error()),
        }
    }

    /// The number in the reply.
    pub fn into_count(self) -> (r: Result<i64, StoreError>)
        ensures
            r == self.deep_view().count(),
    {
        match self {
            Reply::Count(count) => Ok(count),
            other => Err(other.into_error()),
        }
    }

    /// The authenticators in the reply.
    pub fn into_authenticators(self) -> (r: Result<Vec<Authenticator>, StoreError>)
        ensures
            model_of(r) == self.deep_view().authenticators(),
    {
        match self {
            Reply::Authenticators(rows) => Ok(rows),
            other => Err(other.into_error()),
        }
    }

    /// The records in the reply.
    pub fn into_records(self) -> (r: Result<Vec<TransferRecord>, StoreError>)
        ensures
            model_of(r) == self.deep_view().records(),
    {
        match self {
            Reply::Records(rows) => Ok(rows),
            other => Err(other.into_error()),
        }
    }

    /// Whether the statement was carried out.
    pub fn into_executed(self) -> (r: Result<(), StoreError>)
        ensures
            r == self.deep_view().executed(),
    {
        match self {
            Reply::Executed => Ok(()),
            other => Err(other.into_error()),
        }
    }
}

/// Where a machine stands after a step: it asks for one more piece of work, or
/// it has ended.
#[derive(Debug, PartialEq)]
pub enum Progress<Machine, Value, Error, Work = Statement> {
    /// The machine waits for the result of this work.
    Ask(Work, Machine),
    /// The machine has ended with this value.
    Done(Value),
    /// The machine has ended with this error.
    Failed(Error),
}

impl<
    Machine: DeepView,
    Value: DeepView,
    Error: DeepView,
    Work: DeepView,
> DeepView for Progress<Machine, Value, Error, Work> {
    type V = Progress<Machine::V, Value::V, Error::V, Work::V>;

    open spec fn deep_view(&self) -> Progress<Machine::V, Value::V, Error::V, Work::V> {
        match *self {
            Progress::Ask(work, machine) => Progress::Ask(work.deep_view(), machine.deep_view()),
            Progress::Done(value) => Progress::Done(value.deep_view()),
            Progress::Failed(error) => Progress::Failed(error.deep_view()),
        }
    }
}

} // verus!
