//! Serving a download.

use crate::actions::{
    delete_file_metadata_item, delete_transfer_record_by_user_id_and_download_id,
    get_file_metadata_by_recipient_and_download_id, is_file_unreferenced,
    is_file_unreferenced_result, unreferenced, FileSearch, RecordRemoval,
};
use crate::fresh::Fresh;
use crate::models::{FileMetadataItem, TransferRecord};
use crate::payloads::DownloadRequestPayload;
use crate::responses::{refused, Refusal, BAD_REQUEST, INTERNAL_SERVER_ERROR};
use crate::settings::Settings;
use crate::sign_in::{sign_in, SignIn, SignInStep};
use crate::statements::{Progress, Reply, ReplyModel, Statement, StoreError};
use crate::tasks::{Event, EventModel, Task, TaskModel};
use crate::text::Text;
use crate::transfer::{path_of, stored_path};
use vstd::prelude::*;
use vstd::string::*;

verus! {

/// Clearing away a transfer that has been fetched: its record, and its file's
/// metadata if no other record has the file.
#[derive(Debug, PartialEq)]
pub enum RecordCleanup<S = String> {
    /// Deletes the record.
    Removing { file_id: S, removal: RecordRemoval<S> },
    /// Waits for the number of records that still have the file.
    Counting { file_id: S },
    /// Waits for the file's metadata to be deleted.
    DeletingFile,
}

impl DeepView for RecordCleanup {
    type V = RecordCleanup<Text>;

    open spec fn deep_view(&self) -> RecordCleanup<Text> {
        match *self {
            RecordCleanup::Removing { file_id, removal } => RecordCleanup::Removing {
                file_id: file_id@,
                removal: removal.deep_view(),
            },
            RecordCleanup::Counting { file_id } => RecordCleanup::Counting { file_id: file_id@ },
            RecordCleanup::DeletingFile => RecordCleanup::DeletingFile,
        }
    }
}

/// A step of clearing away a transfer, in models.
pub type RecordCleanupStep = Progress<RecordCleanup<Text>, (), StoreError, Statement<Text>>;

impl RecordCleanup<Text> {
    /// The first step.
    pub open spec fn first(user_id: Text, download_id: Text, file_id: Text) -> RecordCleanupStep {
        Self::removed(file_id, RecordRemoval::first(user_id, download_id))
    }

    /// The step that follows from a step of deleting the record.
    pub open spec fn removed(
        file_id: Text,
        step: Progress<RecordRemoval<Text>, TransferRecord<Text>, StoreError, Statement<Text>>,
    ) -> RecordCleanupStep {
        match step {
            Progress::Ask(statement, removal) => Progress::Ask(
                statement,
                RecordCleanup::Removing { file_id, removal },
            ),
            Progress::Done(_) => Progress::Ask(
                Statement::CountReferences { file_id },
                RecordCleanup::Counting { file_id },
            ),
            Progress::Failed(error) => Progress::Failed(error),
        }
    }

    /// The step after `reply`.
    pub open spec fn next(self, reply: ReplyModel) -> RecordCleanupStep {
        match self {
            RecordCleanup::Removing { file_id, removal } => Self::removed(
                file_id,
                removal.next(reply),
            ),
            RecordCleanup::Counting { file_id } => match unreferenced(reply) {
                Ok(true) => Progress::Ask(
                    Statement::DeleteFile { id: file_id },
                    RecordCleanup::DeletingFile,
                ),
                Ok(false) => Progress::Done(()),
                Err(error) => Progress::Failed(error),
            },
            RecordCleanup::DeletingFile => match reply.executed() {
                Ok(()) => Progress::Done(()),
                Err(error) => Progress::Failed(error),
            },
        }
    }
}

/// Clears away the transfer that the user knows by this download id.
pub fn clean_up_transfer_record(user_id: &str, download_id: &str, file_metadata_id: &str) -> (r:
    Progress<RecordCleanup, (), StoreError>)
    ensures
        r.deep_view() == RecordCleanup::first(user_id@, download_id@, file_metadata_id@),
{
    let step = delete_transfer_record_by_user_id_and_download_id(user_id, download_id);
    after_removal(file_metadata_id.to_owned(), step)
}

fn after_removal(
    file_id: String,
    step: Progress<RecordRemoval, TransferRecord, StoreError>,
) -> (r: Progress<RecordCleanup, (), StoreError>)
    ensures
        r.deep_view() == RecordCleanup::removed(file_id@, step.deep_view()),
{
    match step {
        Progress::Ask(statement, removal) => Progress::Ask(
            statement,
            RecordCleanup::Removing { file_id, removal },
        ),
        Progress::Done(_) => Progress::Ask(
            is_file_unreferenced(file_id.as_str()),
            RecordCleanup::Counting { file_id },
        ),
        Progress::Failed(error) => Progress::Failed(error),
    }
}

impl RecordCleanup {
    /// Goes on after `reply`.
    pub fn resume(self, reply: Reply) -> (r: Progress<RecordCleanup, (), StoreError>)
        ensures
            r.deep_view() == self.deep_view().next(reply.deep_view()),
    {
        match self {
            RecordCleanup::Removing { file_id, removal } => after_removal(
                file_id,
                removal.resume(reply),
            ),
            RecordCleanup::Counting { file_id } => match is_file_unreferenced_result(reply) {
                Ok(true) => Progress::Ask(
                    delete_file_metadata_item(file_id.as_str()),
                    RecordCleanup::DeletingFile,
                ),
                Ok(false) => Progress::Done(()),
                Err(error) => Progress::Failed(error),
            },
            RecordCleanup::DeletingFile => match reply.into_executed() {
                Ok(()) => Progress::Done(()),
                Err(error) => Progress::Failed(error),
            },
        }
    }
}

/// What a download is for, and where files are stored.
#[derive(Debug, PartialEq)]
pub struct Order<S = String> {
    pub download_id: S,
    pub storage_dir: Option<S>,
}

impl DeepView for Order {
    type V = Order<Text>;

    open spec fn deep_view(&self) -> Order<Text> {
        Order { download_id: self.download_id@, storage_dir: self.storage_dir.deep_view() }
    }
}

/// Serving a download; ends when the file that was opened can be sent.
#[derive(Debug, PartialEq)]
pub enum Download<S = String> {
    /// Signs in the user.
    SigningIn { order: Order<S>, sign_in: SignIn<S> },
    /// Looks for the file.
    Searching { order: Order<S>, user_id: S, search: FileSearch },
    /// Waits for the file to be opened.
    Opening { download_id: S, user_id: S, file_id: S, path: S },
    /// Clears away the transfer.
    CleaningUp { path: S, cleanup: RecordCleanup<S> },
    /// Waits for the file to be removed.
    RemovingFile,
}

impl DeepView for Download {
    type V = Download<Text>;

    open spec fn deep_view(&self) -> Download<Text> {
        match *self {
            Download::SigningIn { order, sign_in } => Download::SigningIn {
                order: order.deep_view(),
                sign_in: sign_in.deep_view(),
            },
            Download::Searching { order, user_id, search } => Download::Searching {
                order: order.deep_view(),
                user_id: user_id@,
                search,
            },
            Download::Opening { download_id, user_id, file_id, path } => Download::Opening {
                download_id: download_id@,
                user_id: user_id@,
                file_id: file_id@,
                path: path@,
            },
            Download::CleaningUp { path, cleanup } => Download::CleaningUp {
                path: path@,
                cleanup: cleanup.deep_view(),
            },
            Download::RemovingFile => Download::RemovingFile,
        }
    }
}

/// A step of serving a download, in models.
pub type DownloadStep = Progress<Download<Text>, (), Refusal<Text>, TaskModel>;

/// The refusal of a search that found no file.
pub open spec fn search_refusal(error: StoreError) -> Refusal<Text> {
    match error {
        StoreError::NotFound => refused(BAD_REQUEST, "Invalid download id"@),
        StoreError::Failed => refused(INTERNAL_SERVER_ERROR, ""@),
    }
}

impl Download<Text> {
    /// The first step.
    pub open spec fn first(
        payload: DownloadRequestPayload<Text>,
        storage_dir: Option<Text>,
    ) -> DownloadStep {
        Self::signed_in(
            Order { download_id: payload.download_id, storage_dir },
            SignIn::first(payload.username, payload.signed_authenticator),
        )
    }

    /// The step that follows from a step of signing in.
    pub open spec fn signed_in(order: Order<Text>, step: SignInStep) -> DownloadStep {
        match step {
            Progress::Ask(statement, sign_in) => Progress::Ask(
                Task::Run(statement),
                Download::SigningIn { order, sign_in },
            ),
            Progress::Done(user_id) => Progress::Ask(
                Task::Run(
                    Statement::RecordByDownload {
                        recipient: user_id,
                        download_id: order.download_id,
                    },
                ),
                Download::Searching { order, user_id, search: FileSearch::Record },
            ),
            Progress::Failed(refusal) => Progress::Failed(refusal),
        }
    }

    /// The step that follows from a step of looking for the file.
    pub open spec fn searched(
        order: Order<Text>,
        user_id: Text,
        step: Progress<FileSearch, FileMetadataItem<Text>, StoreError, Statement<Text>>,
    ) -> DownloadStep {
        match step {
            Progress::Ask(statement, search) => Progress::Ask(
                Task::Run(statement),
                Download::Searching { order, user_id, search },
            ),
            Progress::Done(file) => match order.storage_dir {
                Some(storage_dir) => {
                    let path = stored_path(storage_dir, file.file_url);
                    Progress::Ask(
                        Task::OpenFile(path),
                        Download::Opening {
                            download_id: order.download_id,
                            user_id,
                            file_id: file.id,
                            path,
                        },
                    )
                },
                None => Progress::Failed(Refusal::Abandon),
            },
            Progress::Failed(error) => Progress::Failed(search_refusal(error)),
        }
    }

    /// The step that follows from a step of clearing away the transfer.
    pub open spec fn cleaned_up(path: Text, step: RecordCleanupStep) -> DownloadStep {
        match step {
            Progress::Ask(statement, cleanup) => Progress::Ask(
                Task::Run(statement),
                Download::CleaningUp { path, cleanup },
            ),
            Progress::Done(()) => Progress::Ask(Task::RemoveFile(path), Download::RemovingFile),
            Progress::Failed(_) => Progress::Failed(
                refused(INTERNAL_SERVER_ERROR, "Server error"@),
            ),
        }
    }

    /// The step after `event`.
    pub open spec fn next(self, event: EventModel, fresh: Fresh<Text>) -> DownloadStep {
        match self {
            Download::SigningIn { order, sign_in } => Self::signed_in(
                order,
                sign_in.next(event.reply(), fresh),
            ),
            Download::Searching { order, user_id, search } => Self::searched(
                order,
                user_id,
                search.next(event.reply()),
            ),
            Download::Opening { download_id, user_id, file_id, path } => if event is Completed {
                Self::cleaned_up(path, RecordCleanup::first(user_id, download_id, file_id))
            } else {
                Progress::Failed(
                    refused(
                        INTERNAL_SERVER_ERROR,
                        "Could not find file, the file may have expired"@,
                    ),
                )
            },
            Download::CleaningUp { path, cleanup } => Self::cleaned_up(
                path,
                cleanup.next(event.reply()),
            ),
            Download::RemovingFile => Progress::Done(()),
        }
    }
}

/// Serves a download.
pub fn download(payload: DownloadRequestPayload, settings: Settings) -> (r: Progress<
    Download,
    (),
    Refusal,
    Task,
>)
    ensures
        r.deep_view() == Download::first(payload.deep_view(), settings.deep_view().storage_dir),
{
    let step = sign_in(payload.username.as_str(), payload.signed_authenticator.as_str());
    let order = Order { download_id: payload.download_id, storage_dir: settings.storage_dir };
    after_sign_in(order, step)
}

fn after_sign_in(order: Order, step: Progress<SignIn, String, Refusal>) -> (r: Progress<
    Download,
    (),
    Refusal,
    Task,
>)
    ensures
        r.deep_view() == Download::signed_in(order.deep_view(), step.deep_view()),
{
    match step {
        Progress::Ask(statement, sign_in) => Progress::Ask(
            Task::Run(statement),
            Download::SigningIn { order, sign_in },
        ),
        Progress::Done(user_id) => {
            let step = get_file_metadata_by_recipient_and_download_id(
                user_id.as_str(),
                order.download_id.as_str(),
            );
            get_file_metadata(order, user_id, step)
        },
        Progress::Failed(refusal) => Progress::Failed(refusal),
    }
}

/// Goes on after a step of looking for the file that a download asks for.
pub fn get_file_metadata(
    order: Order,
    user_id: String,
    step: Progress<FileSearch, FileMetadataItem, StoreError>,
) -> (r: Progress<Download, (), Refusal, Task>)
    ensures
        r.deep_view() == Download::searched(order.deep_view(), user_id@, step.deep_view()),
{
    match step {
        Progress::Ask(statement, search) => Progress::Ask(
            Task::Run(statement),
            Download::Searching { order, user_id, search },
        ),
        Progress::Done(file) => match &order.storage_dir {
            Some(storage_dir) => {
                let path = path_of(storage_dir.as_str(), file.file_url.as_str());
                Progress::Ask(
                    Task::OpenFile(path.clone()),
                    Download::Opening {
                        download_id: order.download_id,
                        user_id,
                        file_id: file.id,
                        path,
                    },
                )
            },
            None => Progress::Failed(Refusal::Abandon),
        },
        Progress::Failed(StoreError::NotFound) => Progress::Failed(
            Refusal::new(BAD_REQUEST, "Invalid download id"),
        ),
        Progress::Failed(StoreError::Failed) => Progress::Failed(
            Refusal::new(INTERNAL_SERVER_ERROR, ""),
        ),
    }
}

fn after_cleanup(path: String, step: Progress<RecordCleanup, (), StoreError>) -> (r: Progress<
    Download,
    (),
    Refusal,
    Task,
>)
    ensures
        r.deep_view() == Download::cleaned_up(path@, step.deep_view()),
{
    match step {
        Progress::Ask(statement, cleanup) => Progress::Ask(
            Task::Run(statement),
            Download::CleaningUp { path, cleanup },
        ),
        Progress::Done(()) => Progress::Ask(Task::RemoveFile(path), Download::RemovingFile),
        Progress::Failed(_) => Progress::Failed(
            Refusal::new(INTERNAL_SERVER_ERROR, "Server error"),
        ),
    }
}

impl Download {
    /// Goes on after `event`.
    pub fn resume(self, event: Event, fresh: Fresh) -> (r: Progress<Download, (), Refusal, Task>)
        ensures
            r.deep_view() == self.deep_view().next(event.deep_view(), fresh.deep_view()),
    {
        match self {
            Download::SigningIn { order, sign_in } => after_sign_in(
                order,
                sign_in.resume(event.into_reply(), fresh),
            ),
            Download::Searching { order, user_id, search } => get_file_metadata(
                order,
                user_id,
                search.resume(event.into_reply()),
            ),
            Download::Opening { download_id, user_id, file_id, path } => match event {
                Event::Completed => after_cleanup(
                    path,
                    clean_up_transfer_record(
                        user_id.as_str(),
                        download_id.as_str(),
                        file_id.as_str(),
                    ),
                ),
                _ => Progress::Failed(
                    Refusal::new(
                        INTERNAL_SERVER_ERROR,
                        "Could not find file, the file may have expired",
                    ),
                ),
            },
            Download::CleaningUp { path, cleanup } => after_cleanup(
                path,
                cleanup.resume(event.into_reply()),
            ),
            Download::RemovingFile => Progress::Done(()),
        }
    }
}

} // verus!
