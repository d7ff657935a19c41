//! Serving an upload.

use crate::actions::{get_used_quota, get_user_from_username};
use crate::auth::{authenticate_user, Authentication, AuthenticationStep};
use crate::delivery::{
    add_file_metadata_item, add_transfer_records, quota_verdict, verify_wont_exceed_quota,
    Delivery, DeliveryModel, DeliveryStep, FileAddition, FileAdditionStep, Parcel, ParcelModel,
    StoredFile,
};
use crate::frame::{Frame, Framing};
use crate::fresh::Fresh;
use crate::models::User;
use crate::payloads::TransferRequestMetadataPayload;
use crate::responses::{
    refused, server_error, Refusal, Response, BAD_REQUEST, INTERNAL_SERVER_ERROR, OK,
};
use crate::settings::Settings;
use crate::sign_in::{get_user_for_username, known_user};
use crate::statements::{Progress, Statement, StoreError};
use crate::tasks::{Event, EventModel, Task, TaskModel};
use crate::text::{followed_by, Text};
use crate::upload::{
    write_transfer_request_data_to_file, Upload, UploadModel, UploadStep,
};
use vstd::prelude::*;
use vstd::string::*;
use vstd::utf8::*;

verus! {

/// The largest number of bytes of a file's name.
pub const FILE_NAME_MAX_LEN: usize = 20;

/// The path of a stored file.
pub open spec fn stored_path(storage_dir: Text, file_url: Text) -> Text {
    storage_dir + "/"@ + file_url
}

/// The path of a stored file.
pub(crate) fn path_of(storage_dir: &str, file_url: &str) -> (r: String)
    ensures
        r@ == stored_path(storage_dir@, file_url@),
{
    let dir = followed_by(storage_dir, "/");
    followed_by(dir.as_str(), file_url)
}

/// Where an upload goes and how long it lives, as far as that is known.
#[derive(Debug, PartialEq)]
pub struct Setup<S = String> {
    pub storage_dir: Option<S>,
    pub lifetime_mins: Option<i64>,
}

impl DeepView for Setup {
    type V = Setup<Text>;

    open spec fn deep_view(&self) -> Setup<Text> {
        Setup { storage_dir: self.storage_dir.deep_view(), lifetime_mins: self.lifetime_mins }
    }
}

/// An upload whose head was read.
#[derive(Debug, PartialEq)]
pub struct Offer<S = String, Texts = Vec<String>, Bytes = Vec<u8>> {
    pub metadata: TransferRequestMetadataPayload<S, Texts>,
    /// What was received behind the head.
    pub leftover: Bytes,
    pub setup: Setup<S>,
}

/// The model of an upload whose head was read.
pub type OfferModel = Offer<Text, Seq<Text>, Seq<u8>>;

impl DeepView for Offer {
    type V = OfferModel;

    open spec fn deep_view(&self) -> OfferModel {
        Offer {
            metadata: self.metadata.deep_view(),
            leftover: self.leftover@,
            setup: self.setup.deep_view(),
        }
    }
}

/// Serving an upload.
#[derive(Debug, PartialEq)]
pub enum Transfer<S = String, Texts = Vec<String>, Bytes = Vec<u8>> {
    /// Receives the head.
    Receiving { frame: Frame<Bytes>, setup: Setup<S> },
    /// Waits for the head to be read.
    Parsing { leftover: Bytes, setup: Setup<S> },
    /// Waits for the user who sends the file.
    Finding(Offer<S, Texts, Bytes>),
    /// Finds out whether the upload comes from that user.
    Authenticating {
        offer: Offer<S, Texts, Bytes>,
        user_id: S,
        transfer_quota: i64,
        authentication: Authentication<S>,
    },
    /// Waits for the number of bytes that the user has stored.
    Measuring { offer: Offer<S, Texts, Bytes>, transfer_quota: i64 },
    /// Stores the metadata of the file.
    AddingFile { offer: Offer<S, Texts, Bytes>, addition: FileAddition<S> },
    /// Receives the file.
    Writing { parcel: Parcel<S, Texts>, upload: Upload<S, Bytes> },
    /// Stores the records of the recipients.
    Delivering(Delivery<S, Texts>),
}

/// The model of serving an upload.
pub type TransferModel = Transfer<Text, Seq<Text>, Seq<u8>>;

impl DeepView for Transfer {
    type V = TransferModel;

    open spec fn deep_view(&self) -> TransferModel {
        match *self {
            Transfer::Receiving { frame, setup } => Transfer::Receiving {
                frame: frame.deep_view(),
                setup: setup.deep_view(),
            },
            Transfer::Parsing { leftover, setup } => Transfer::Parsing {
                leftover: leftover@,
                setup: setup.deep_view(),
            },
            Transfer::Finding(offer) => Transfer::Finding(offer.deep_view()),
            Transfer::Authenticating { offer, user_id, transfer_quota, authentication } => {
                Transfer::Authenticating {
                    offer: offer.deep_view(),
                    user_id: user_id@,
                    transfer_quota,
                    authentication: authentication.deep_view(),
                }
            },
            Transfer::Measuring { offer, transfer_quota } => Transfer::Measuring {
                offer: offer.deep_view(),
                transfer_quota,
            },
            Transfer::AddingFile { offer, addition } => Transfer::AddingFile {
                offer: offer.deep_view(),
                addition: addition.deep_view(),
            },
            Transfer::Writing { parcel, upload } => Transfer::Writing {
                parcel: parcel.deep_view(),
                upload: upload.deep_view(),
            },
            Transfer::Delivering(delivery) => Transfer::Delivering(delivery.deep_view()),
        }
    }
}

/// A step of serving an upload, in models.
pub type TransferStep = Progress<TransferModel, Response<Text>, Refusal<Text>, TaskModel>;

impl OfferModel {
    /// What is delivered when the file has been received.
    pub open spec fn parcel(self, file_id: Text) -> ParcelModel {
        Parcel {
            sender: self.metadata.sender,
            recipients: self.metadata.recipients,
            shared_keys: self.metadata.shared_keys,
            shared_header: self.metadata.shared_header,
            shared_nonce: self.metadata.shared_nonce,
            file_id,
            lifetime_mins: self.setup.lifetime_mins,
        }
    }

    /// The step when the user who sends the file is known.
    pub open spec fn named(self, user: User<Text>) -> TransferStep {
        if encode_utf8(self.metadata.name).len() > FILE_NAME_MAX_LEN {
            Progress::Done(
                Response {
                    status: BAD_REQUEST,
                    body: "Name field must not exceed 20 characters"@,
                },
            )
        } else {
            self.authenticated(
                user.id,
                user.transfer_quota,
                Authentication::first(
                    user.approved,
                    user.signing_public_key,
                    self.metadata.signed_authenticator,
                ),
            )
        }
    }

    /// The step that follows from a step of the authentication.
    pub open spec fn authenticated(
        self,
        user_id: Text,
        transfer_quota: i64,
        step: AuthenticationStep,
    ) -> TransferStep {
        match step {
            Progress::Ask(statement, authentication) => Progress::Ask(
                Task::Run(statement),
                Transfer::Authenticating { offer: self, user_id, transfer_quota, authentication },
            ),
            Progress::Done(()) => Progress::Ask(
                Task::Run(Statement::FileSizeTotal { uploader: user_id }),
                Transfer::Measuring { offer: self, transfer_quota },
            ),
            Progress::Failed(refusal) => Progress::Failed(refusal),
        }
    }

    /// The step that follows from a step of storing the file's metadata.
    pub open spec fn file_added(self, step: FileAdditionStep) -> TransferStep {
        match step {
            Progress::Ask(statement, addition) => Progress::Ask(
                Task::Run(statement),
                Transfer::AddingFile { offer: self, addition },
            ),
            Progress::Done(stored) => match self.setup.storage_dir {
                Some(storage_dir) => file_written(
                    self.parcel(stored.file_id),
                    UploadModel::first(
                        stored_path(storage_dir, stored.file_url),
                        self.metadata.data_len,
                        self.leftover,
                    ),
                ),
                None => Progress::Failed(Refusal::Abandon),
            },
            Progress::Failed(_) => Progress::Failed(server_error()),
        }
    }
}

/// The step that follows from a step of receiving the file.
pub open spec fn file_written(parcel: ParcelModel, step: UploadStep) -> TransferStep {
    match step {
        Progress::Ask(task, upload) => Progress::Ask(task, Transfer::Writing { parcel, upload }),
        Progress::Done(()) => records_added(DeliveryModel::first(parcel)),
        Progress::Failed(refusal) => Progress::Failed(refusal),
    }
}

/// The step that follows from a step of storing the records.
pub open spec fn records_added(step: DeliveryStep) -> TransferStep {
    match step {
        Progress::Ask(statement, delivery) => Progress::Ask(
            Task::Run(statement),
            Transfer::Delivering(delivery),
        ),
        Progress::Done(()) => Progress::Done(
            Response { status: OK, body: "Transfer Completed"@ },
        ),
        Progress::Failed(_) => Progress::Failed(
            refused(INTERNAL_SERVER_ERROR, "Could not parse transfer request"@),
        ),
    }
}

impl TransferModel {
    /// The first step.
    pub open spec fn first(settings: Settings<Text>) -> TransferStep {
        Progress::Ask(
            Task::ReadChunk,
            Transfer::Receiving {
                frame: Frame::empty(),
                setup: Setup {
                    storage_dir: settings.storage_dir,
                    lifetime_mins: settings.lifetime(),
                },
            },
        )
    }

    /// The step after `event`.
    pub open spec fn next(self, event: EventModel, fresh: Fresh<Text>) -> TransferStep {
        match self {
            Transfer::Receiving { frame, setup } => match event {
                Event::Chunk(chunk) => match frame.received(chunk) {
                    Framing::Partial(frame) => Progress::Ask(
                        Task::ReadChunk,
                        Transfer::Receiving { frame, setup },
                    ),
                    Framing::Complete { text, leftover } => Progress::Ask(
                        Task::ParseMetadata(text),
                        Transfer::Parsing { leftover, setup },
                    ),
                },
                Event::End => Progress::Failed(refused(BAD_REQUEST, "Malformed Request"@)),
                Event::Broken(response) => Progress::Failed(Refusal::Answer(response)),
                _ => Progress::Failed(Refusal::Abandon),
            },
            Transfer::Parsing { leftover, setup } => match event {
                Event::Parsed(metadata) => Progress::Ask(
                    Task::Run(Statement::UserByUsername { username: metadata.sender }),
                    Transfer::Finding(Offer { metadata, leftover, setup }),
                ),
                Event::Unparsable => Progress::Failed(
                    refused(BAD_REQUEST, "Could not parse request"@),
                ),
                _ => Progress::Failed(Refusal::Abandon),
            },
            Transfer::Finding(offer) => match known_user(event.reply(), offer.metadata.sender) {
                Ok(user) => offer.named(user),
                Err(refusal) => Progress::Failed(refusal),
            },
            Transfer::Authenticating {
                offer,
                user_id,
                transfer_quota,
                authentication,
            } => offer.authenticated(
                user_id,
                transfer_quota,
                authentication.next(event.reply(), fresh),
            ),
            Transfer::Measuring { offer, transfer_quota } => match quota_verdict(
                event.reply(),
                transfer_quota,
                offer.metadata.data_len,
            ) {
                Ok(()) => offer.file_added(
                    FileAddition::first(
                        offer.metadata.sender,
                        offer.metadata.name,
                        offer.metadata.data_len,
                        fresh,
                    ),
                ),
                Err(refusal) => Progress::Failed(refusal),
            },
            Transfer::AddingFile { offer, addition } => offer.file_added(
                addition.next(event.reply(), fresh),
            ),
            Transfer::Writing { parcel, upload } => file_written(parcel, upload.next(event)),
            Transfer::Delivering(delivery) => records_added(delivery.next(event.reply(), fresh)),
        }
    }
}

/// Serves an upload.
pub fn transfer(settings: Settings) -> (r: Progress<Transfer, Response, Refusal, Task>)
    ensures
        r.deep_view() == TransferModel::first(settings.deep_view()),
{
    let lifetime_mins = settings.lifetime_mins();
    Progress::Ask(
        Task::ReadChunk,
        Transfer::Receiving {
            frame: Frame::new(),
            setup: Setup { storage_dir: settings.storage_dir, lifetime_mins },
        },
    )
}

impl Offer {
    /// What is delivered when the file has been received, and what was received
    /// of the file already.
    fn into_parcel(self, file_id: String) -> (r: (Parcel, Vec<u8>))
        ensures
            r.0.deep_view() == self.deep_view().parcel(file_id@),
            r.1@ == self.deep_view().leftover,
    {
        let parcel = Parcel {
            sender: self.metadata.sender,
            recipients: self.metadata.recipients,
            shared_keys: self.metadata.shared_keys,
            shared_header: self.metadata.shared_header,
            shared_nonce: self.metadata.shared_nonce,
            file_id,
            lifetime_mins: self.setup.lifetime_mins,
        };
        (parcel, self.leftover)
    }

    fn name_user(self, user: User) -> (r: Progress<Transfer, Response, Refusal, Task>)
        ensures
            r.deep_view() == self.deep_view().named(user.deep_view()),
    {
        if self.metadata.name.as_str().as_bytes().len() > FILE_NAME_MAX_LEN {
            return Progress::Done(
                Response::new(BAD_REQUEST, "Name field must not exceed 20 characters"),
            );
        }
        let step = authenticate_user(&user, self.metadata.signed_authenticator.as_str());
        self.authenticate(user.id, user.transfer_quota, step)
    }

    fn authenticate(
        self,
        user_id: String,
        transfer_quota: i64,
        step: Progress<Authentication, (), Refusal>,
    ) -> (r: Progress<Transfer, Response, Refusal, Task>)
        ensures
            r.deep_view() == self.deep_view().authenticated(
                user_id@,
                transfer_quota,
                step.deep_view(),
            ),
    {
        match step {
            Progress::Ask(statement, authentication) => Progress::Ask(
                Task::Run(statement),
                Transfer::Authenticating { offer: self, user_id, transfer_quota, authentication },
            ),
            Progress::Done(()) => Progress::Ask(
                Task::Run(get_used_quota(user_id.as_str())),
                Transfer::Measuring { offer: self, transfer_quota },
            ),
            Progress::Failed(refusal) => Progress::Failed(refusal),
        }
    }

    fn add_file(self, step: Progress<FileAddition, StoredFile, StoreError>) -> (r: Progress<
        Transfer,
        Response,
        Refusal,
        Task,
    >)
        ensures
            r.deep_view() == self.deep_view().file_added(step.deep_view()),
    {
        match step {
            Progress::Ask(statement, addition) => Progress::Ask(
                Task::Run(statement),
                Transfer::AddingFile { offer: self, addition },
            ),
            Progress::Done(stored) => {
                let write_path = match &self.setup.storage_dir {
                    Some(storage_dir) => path_of(storage_dir.as_str(), stored.file_url.as_str()),
                    None => {
                        return Progress::Failed(Refusal::Abandon);
                    },
                };
                let data_len = self.metadata.data_len;
                let (parcel, leftover) = self.into_parcel(stored.file_id);
                let step = write_transfer_request_data_to_file(
                    write_path.as_str(),
                    data_len,
                    leftover,
                );
                after_writing(parcel, step)
            },
            Progress::Failed(_) => Progress::Failed(Refusal::server_error()),
        }
    }
}

fn after_writing(parcel: Parcel, step: Progress<Upload, (), Refusal, Task>) -> (r: Progress<
    Transfer,
    Response,
    Refusal,
    Task,
>)
    ensures
        r.deep_view() == file_written(parcel.deep_view(), step.deep_view()),
{
    match step {
        Progress::Ask(task, upload) => Progress::Ask(task, Transfer::Writing { parcel, upload }),
        Progress::Done(()) => after_delivering(add_transfer_records(parcel)),
        Progress::Failed(refusal) => Progress::Failed(refusal),
    }
}

fn after_delivering(step: Progress<Delivery, (), StoreError>) -> (r: Progress<
    Transfer,
    Response,
    Refusal,
    Task,
>)
    ensures
        r.deep_view() == records_added(step.deep_view()),
{
    match step {
        Progress::Ask(statement, delivery) => Progress::Ask(
            Task::Run(statement),
            Transfer::Delivering(delivery),
        ),
        Progress::Done(()) => Progress::Done(Response::new(OK, "Transfer Completed")),
        Progress::Failed(_) => Progress::Failed(
            Refusal::new(INTERNAL_SERVER_ERROR, "Could not parse transfer request"),
        ),
    }
}

impl Transfer {
    /// Goes on after `event`.
    pub fn resume(self, event: Event, fresh: Fresh) -> (r: Progress<
        Transfer,
        Response,
        Refusal,
        Task,
    >)
        ensures
            r.deep_view() == self.deep_view().next(event.deep_view(), fresh.deep_view()),
    {
        match self {
            Transfer::Receiving { frame, setup } => match event {
                Event::Chunk(chunk) => match frame.receive(chunk) {
                    Framing::Partial(frame) => Progress::Ask(
                        Task::ReadChunk,
                        Transfer::Receiving { frame, setup },
                    ),
                    Framing::Complete { text, leftover } => Progress::Ask(
                        Task::ParseMetadata(text),
                        Transfer::Parsing { leftover, setup },
                    ),
                },
                Event::End => Progress::Failed(Refusal::new(BAD_REQUEST, "Malformed Request")),
                Event::Broken(response) => Progress::Failed(Refusal::Answer(response)),
                _ => Progress::Failed(Refusal::Abandon),
            },
            Transfer::Parsing { leftover, setup } => match event {
                Event::Parsed(metadata) => Progress::Ask(
                    Task::Run(get_user_from_username(metadata.sender.as_str())),
                    Transfer::Finding(Offer { metadata, leftover, setup }),
                ),
                Event::Unparsable => Progress::Failed(
                    Refusal::new(BAD_REQUEST, "Could not parse request"),
                ),
                _ => Progress::Failed(Refusal::Abandon),
            },
            Transfer::Finding(offer) => match get_user_for_username(
                event.into_reply(),
                offer.metadata.sender.as_str(),
            ) {
                Ok(user) => offer.name_user(user),
                Err(refusal) => Progress::Failed(refusal),
            },
            Transfer::Authenticating { offer, user_id, transfer_quota, authentication } => {
                let step = authentication.resume(event.into_reply(), fresh);
                offer.authenticate(user_id, transfer_quota, step)
            },
            Transfer::Measuring { offer, transfer_quota } => match verify_wont_exceed_quota(
                event.into_reply(),
                transfer_quota,
                offer.metadata.data_len,
            ) {
                Ok(()) => {
                    let step = add_file_metadata_item(
                        offer.metadata.sender.as_str(),
                        offer.metadata.name.as_str(),
                        offer.metadata.data_len,
                        fresh,
                    );
                    offer.add_file(step)
                },
                Err(refusal) => Progress::Failed(refusal),
            },
            Transfer::AddingFile { offer, addition } => {
                let step = addition.resume(event.into_reply(), fresh);
                offer.add_file(step)
            },
            Transfer::Writing { parcel, upload } => after_writing(parcel, upload.resume(event)),
            Transfer::Delivering(delivery) => after_delivering(
                delivery.resume(event.into_reply(), fresh),
            ),
        }
    }
}

} // verus!
