//! What the models of rows, requests, statements and answers show: each part,
//! and each in its place.

use crate::fresh::Fresh;
use crate::models::{
    Authenticator, FileMetadataItem, TransferRecord, TransferRecordWithFileMetadata, User,
};
use crate::payloads::{
    DownloadRequestPayload, InboxRequestPayload, ListUsersRequestPayload, LookupRequestPayload,
    RegisterRequestPayload, TransferRequestMetadataPayload,
};
use crate::responses::{Refusal, Response};
use crate::settings::Settings;
use crate::statements::{Progress, Reply, Statement};
use crate::tasks::{Event, Task};
use crate::text::Text;
use crate::time::Timestamp;
use vstd::prelude::*;

verus! {

/// The model of a user shows each field in its place.
pub proof fn user_is_shown(row: User)
    ensures
        row.deep_view().id == row.id@,
        row.deep_view().username == row.username@,
        row.deep_view().public_key == row.public_key@,
        row.deep_view().signing_public_key == row.signing_public_key@,
        row.deep_view().transfer_count == row.transfer_count,
        row.deep_view().transfer_quota == row.transfer_quota,
        row.deep_view().date_registered == row.date_registered,
        row.deep_view().approved == row.approved,
{
}

/// The model of an authenticator shows each field in its place.
pub proof fn authenticator_is_shown(row: Authenticator)
    ensures
        row.deep_view().id == row.id@,
        row.deep_view().authenticator == row.authenticator@,
        row.deep_view().expiration_date == row.expiration_date,
{
}

/// The model of a transfer record shows each field in its place.
pub proof fn record_is_shown(row: TransferRecord)
    ensures
        row.deep_view().id == row.id@,
        row.deep_view().download_id == row.download_id@,
        row.deep_view().sender == row.sender@,
        row.deep_view().recipient == row.recipient@,
        row.deep_view().shared_key == row.shared_key@,
        row.deep_view().shared_header == row.shared_header@,
        row.deep_view().shared_nonce == row.shared_nonce@,
        row.deep_view().file_id == row.file_id@,
        row.deep_view().date_created == row.date_created,
        row.deep_view().expires_on == row.expires_on,
{
}

/// The model of a file shows each field in its place.
pub proof fn file_is_shown(row: FileMetadataItem)
    ensures
        row.deep_view().id == row.id@,
        row.deep_view().uploader == row.uploader@,
        row.deep_view().file_name == row.file_name@,
        row.deep_view().file_url == row.file_url@,
        row.deep_view().file_size == row.file_size,
        row.deep_view().date_created == row.date_created,
{
}

/// The model of an item of an inbox shows each field in its place.
pub proof fn item_is_shown(item: TransferRecordWithFileMetadata)
    ensures
        item.deep_view().download_id == item.download_id@,
        item.deep_view().sender == item.sender@,
        item.deep_view().shared_key == item.shared_key@,
        item.deep_view().shared_header == item.shared_header@,
        item.deep_view().shared_nonce == item.shared_nonce@,
        item.deep_view().date_created == item.date_created,
        item.deep_view().file_name == item.file_name@,
        item.deep_view().file_size == item.file_size,
{
}

/// The model of the metadata of an upload shows each field in its place.
pub proof fn metadata_are_shown(metadata: TransferRequestMetadataPayload)
    ensures
        metadata.deep_view().sender == metadata.sender@,
        metadata.deep_view().recipients.len() == metadata.recipients@.len(),
        forall|i: int|
            0 <= i < metadata.recipients@.len() ==> #[trigger] metadata.deep_view().recipients[i]
                == metadata.recipients@[i]@,
        metadata.deep_view().name == metadata.name@,
        metadata.deep_view().shared_keys.len() == metadata.shared_keys@.len(),
        forall|i: int|
            0 <= i < metadata.shared_keys@.len() ==> #[trigger] metadata.deep_view().shared_keys[i]
                == metadata.shared_keys@[i]@,
        metadata.deep_view().shared_header == metadata.shared_header@,
        metadata.deep_view().shared_nonce == metadata.shared_nonce@,
        metadata.deep_view().data_len == metadata.data_len,
        metadata.deep_view().signed_authenticator == metadata.signed_authenticator@,
{
}

/// The models of the other requests show each field in its place.
pub proof fn requests_are_shown(
    download: DownloadRequestPayload,
    register: RegisterRequestPayload,
    lookup: LookupRequestPayload,
    inbox: InboxRequestPayload,
    list_users: ListUsersRequestPayload,
)
    ensures
        download.deep_view().username == download.username@,
        download.deep_view().download_id == download.download_id@,
        download.deep_view().signed_authenticator == download.signed_authenticator@,
        register.deep_view().username == register.username@,
        register.deep_view().public_key == register.public_key@,
        register.deep_view().signing_public_key == register.signing_public_key@,
        lookup.deep_view().username == lookup.username@,
        inbox.deep_view().username == inbox.username@,
        inbox.deep_view().signed_authenticator == inbox.signed_authenticator@,
        list_users.deep_view().username == list_users.username@,
        list_users.deep_view().signed_authenticator == list_users.signed_authenticator@,
{
}

/// Whether `model` is the model of a setting.
pub open spec fn is_shown(setting: Option<String>, model: Option<Text>) -> bool {
    match (setting, model) {
        (Some(s), Some(text)) => text == s@,
        (None, None) => true,
        _ => false,
    }
}

/// The model of the settings shows each of them in its place.
pub proof fn settings_are_shown(settings: Settings)
    ensures
        is_shown(settings.storage_dir, settings.deep_view().storage_dir),
        is_shown(settings.require_approval, settings.deep_view().require_approval),
        is_shown(
            settings.default_file_lifetime_mins,
            settings.deep_view().default_file_lifetime_mins,
        ),
        is_shown(settings.default_quota_bytes, settings.deep_view().default_quota_bytes),
{
}

/// The model of what is drawn shows each part in its place.
pub proof fn drawn_values_are_shown(fresh: Fresh, time: Timestamp)
    ensures
        fresh.deep_view().id == fresh.id@,
        fresh.deep_view().authenticator == fresh.authenticator@,
        fresh.deep_view().now == fresh.now,
        fresh.deep_view().timestamp == fresh.timestamp,
        time.deep_view() == time,
{
}

/// The models of an answer and of a refusal show what is answered.
pub proof fn answers_are_shown(response: Response, refusal: Refusal)
    ensures
        response.deep_view().status == response.status,
        response.deep_view().body == response.body@,
        refusal is Abandon <==> refusal.deep_view() is Abandon,
        refusal matches Refusal::Answer(answer) ==> refusal.deep_view() == Refusal::Answer(
            Response { status: answer.status, body: answer.body@ },
        ),
{
}

/// The model of a statement is the same statement, about the same texts.
pub proof fn statements_are_shown(statement: Statement)
    ensures
        match statement {
            Statement::UserByUsername { username } => statement.deep_view() matches
                Statement::UserByUsername { username: text } && text == username@,
            Statement::UserById { id } => statement.deep_view() matches Statement::UserById {
                id: text,
            } && text == id@,
            Statement::InsertUser(row) => statement.deep_view() matches Statement::InsertUser(
                model,
            ) && model == row.deep_view(),
            Statement::SetTransferCount { id, count } => statement.deep_view() matches
                Statement::SetTransferCount { id: text, count: number } && text == id@ && number
                == count,
            Statement::ApprovedUsernames => statement.deep_view() is ApprovedUsernames,
            Statement::FileSizeTotal { uploader } => statement.deep_view() matches
                Statement::FileSizeTotal { uploader: text } && text == uploader@,
            Statement::RecordsWithFiles { recipient } => statement.deep_view() matches
                Statement::RecordsWithFiles { recipient: text } && text == recipient@,
            Statement::InsertRecord(row) => statement.deep_view() matches Statement::InsertRecord(
                model,
            ) && model == row.deep_view(),
            Statement::InsertFile(row) => statement.deep_view() matches Statement::InsertFile(
                model,
            ) && model == row.deep_view(),
            Statement::RecordByDownload { recipient, download_id } => statement.deep_view() matches
                Statement::RecordByDownload { recipient: text, download_id: number } && text
                == recipient@ && number == download_id@,
            Statement::DeleteRecord { id } => statement.deep_view() matches
                Statement::DeleteRecord { id: text } && text == id@,
            Statement::DeleteRecordsByDownload {
                recipient,
                download_id,
            } => statement.deep_view() matches Statement::DeleteRecordsByDownload {
                recipient: text,
                download_id: number,
            } && text == recipient@ && number == download_id@,
            Statement::FileById { id } => statement.deep_view() matches Statement::FileById {
                id: text,
            } && text == id@,
            Statement::CountReferences { file_id } => statement.deep_view() matches
                Statement::CountReferences { file_id: text } && text == file_id@,
            Statement::DeleteFile { id } => statement.deep_view() matches Statement::DeleteFile {
                id: text,
            } && text == id@,
            Statement::AllAuthenticators => statement.deep_view() is AllAuthenticators,
            Statement::DeleteAuthenticator { id } => statement.deep_view() matches
                Statement::DeleteAuthenticator { id: text } && text == id@,
            Statement::InsertAuthenticator(row) => statement.deep_view() matches
                Statement::InsertAuthenticator(model) && model == row.deep_view(),
            Statement::ExpiredRecords { now } => statement.deep_view() matches
                Statement::ExpiredRecords { now: time } && time == now,
        },
{
}

/// The model of a reply is the same reply, with the same rows in the same order.
pub proof fn replies_are_shown(reply: Reply)
    ensures
        match reply {
            Reply::User(row) => reply.deep_view() matches Reply::User(model) && model
                == row.deep_view(),
            Reply::Usernames(names) => reply.deep_view() matches Reply::Usernames(model)
                && model.len() == names@.len() && forall|i: int|
                0 <= i < names@.len() ==> #[trigger] model[i] == names@[i]@,
            Reply::Total(total) => reply.deep_view() matches Reply::Total(model) && model == total,
            Reply::RecordsWithFiles(items) => reply.deep_view() matches Reply::RecordsWithFiles(
                model,
            ) && model.len() == items@.len() && forall|i: int|
                0 <= i < items@.len() ==> #[trigger] model[i] == items@[i].deep_view(),
            Reply::Record(row) => reply.deep_view() matches Reply::Record(model) && model
                == row.deep_view(),
            Reply::File(row) => reply.deep_view() matches Reply::File(model) && model
                == row.deep_view(),
            Reply::Count(count) => reply.deep_view() matches Reply::Count(model) && model == count,
            Reply::Authenticators(rows) => reply.deep_view() matches Reply::Authenticators(model)
                && model.len() == rows@.len() && forall|i: int|
                0 <= i < rows@.len() ==> #[trigger] model[i] == rows@[i].deep_view(),
            Reply::Records(rows) => reply.deep_view() matches Reply::Records(model) && model.len()
                == rows@.len() && forall|i: int|
                0 <= i < rows@.len() ==> #[trigger] model[i] == rows@[i].deep_view(),
            Reply::Executed => reply.deep_view() is Executed,
            Reply::Failed(error) => reply.deep_view() matches Reply::Failed(model) && model
                == error && error.deep_view() == error,
        },
{
}

/// The model of a task is the same task, and that of its result the same result.
pub proof fn tasks_are_shown(task: Task, event: Event)
    ensures
        match task {
            Task::Run(statement) => task.deep_view() matches Task::Run(model) && model
                == statement.deep_view(),
            Task::ReadChunk => task.deep_view() is ReadChunk,
            Task::ParseMetadata(text) => task.deep_view() matches Task::ParseMetadata(model)
                && model == text@,
            Task::CreateFile(path) => task.deep_view() matches Task::CreateFile(model) && model
                == path@,
            Task::AppendToFile(bytes) => task.deep_view() matches Task::AppendToFile(model)
                && model == bytes@,
            Task::FlushFile => task.deep_view() is FlushFile,
            Task::RemoveFile(path) => task.deep_view() matches Task::RemoveFile(model) && model
                == path@,
            Task::OpenFile(path) => task.deep_view() matches Task::OpenFile(model) && model
                == path@,
        },
        match event {
            Event::Reply(reply) => event.deep_view() matches Event::Reply(model) && model
                == reply.deep_view(),
            Event::Chunk(bytes) => event.deep_view() matches Event::Chunk(model) && model == bytes@,
            Event::End => event.deep_view() is End,
            Event::Broken(answer) => event.deep_view() matches Event::Broken(model) && model
                == answer.deep_view(),
            Event::Parsed(metadata) => event.deep_view() matches Event::Parsed(model) && model
                == metadata.deep_view(),
            Event::Unparsable => event.deep_view() is Unparsable,
            Event::Completed => event.deep_view() is Completed,
            Event::TaskFailed => event.deep_view() is TaskFailed,
        },
{
}

/// The model of a step of a machine is the same step.
pub proof fn steps_are_shown<M: DeepView, V: DeepView, E: DeepView, W: DeepView>(
    step: Progress<M, V, E, W>,
)
    ensures
        match step {
            Progress::Ask(work, machine) => step.deep_view() matches Progress::Ask(task, state)
                && task == work.deep_view() && state == machine.deep_view(),
            Progress::Done(value) => step.deep_view() matches Progress::Done(model) && model
                == value.deep_view(),
            Progress::Failed(error) => step.deep_view() matches Progress::Failed(model) && model
                == error.deep_view(),
        },
{
}

} // verus!
