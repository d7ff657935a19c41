//! Storing a transfer in the database: its file, and a record for each
//! recipient.

use crate::actions::{
    found_user, get_user_from_username, get_user_from_username_result,
    insert_new_file_metadata_item, insert_new_transfer_record, new_file, used_quota,
    get_used_quota_result, Insertion, NewTransfer, TransferRecordInsertion,
};
use crate::fresh::Fresh;
use crate::responses::{outcome_of, refused, server_error, Refusal, FORBIDDEN};
use crate::statements::{Progress, Reply, ReplyModel, Statement, StoreError};
use crate::text::{contains_text, Text};
use vstd::prelude::*;
use vstd::string::*;

verus! {

/// The number of bytes that a quota allows. A negative quota is read as an
/// unsigned number.
pub open spec fn allowance(quota: i64) -> int {
    if quota >= 0 {
        quota as int
    } else {
        quota + 0x1_0000_0000_0000_0000
    }
}

/// The verdict on a new file: together with the files that the user has already
/// it must not exceed the quota.
pub open spec fn quota_verdict(reply: ReplyModel, quota: i64, new_file_size: u64) -> Result<
    (),
    Refusal<Text>,
> {
    match used_quota(reply) {
        Err(_) => Err(server_error()),
        Ok(used) => if used + new_file_size > u64::MAX {
            Err(server_error())
        } else if used + new_file_size > allowance(quota) {
            Err(refused(FORBIDDEN, "Transfer quota reached"@))
        } else {
            Ok(())
        },
    }
}

/// Judges a new file by the sum of the sizes of the user's files. A sum that no
/// `u64` can hold is a failure of the server.
pub fn verify_wont_exceed_quota(reply: Reply, transfer_quota: i64, new_file_size: u64) -> (r: Result<
    (),
    Refusal,
>)
    ensures
        outcome_of(r) == quota_verdict(reply.deep_view(), transfer_quota, new_file_size),
{
    let quota_used = match get_used_quota_result(reply) {
        Ok(used) => used,
        Err(_) => {
            return Err(Refusal::server_error());
        },
    };
    let total = match quota_used.checked_add(new_file_size) {
        Some(total) => total,
        None => {
            return Err(Refusal::server_error());
        },
    };
    let allowed = transfer_quota as u64;
    assert(transfer_quota >= 0 ==> transfer_quota as u64 == transfer_quota) by (bit_vector);
    assert(transfer_quota < 0 ==> transfer_quota as u64 == transfer_quota
        + 0x1_0000_0000_0000_0000) by (bit_vector);
    if total > allowed {
        Err(Refusal::new(FORBIDDEN, "Transfer quota reached"))
    } else {
        Ok(())
    }
}

/// The size that is stored for a file: an announced size that no `i64` can hold
/// is read as a signed number.
pub open spec fn stored_size(data_len: u64) -> i64 {
    if data_len <= i64::MAX {
        data_len as i64
    } else {
        (data_len - 0x1_0000_0000_0000_0000) as i64
    }
}

/// The id and the name under which a file is stored.
#[derive(Debug, PartialEq)]
pub struct StoredFile<S = String> {
    pub file_id: S,
    pub file_url: S,
}

impl DeepView for StoredFile {
    type V = StoredFile<Text>;

    open spec fn deep_view(&self) -> StoredFile<Text> {
        StoredFile { file_id: self.file_id@, file_url: self.file_url@ }
    }
}

/// Storing the metadata of an uploaded file.
#[derive(Debug, PartialEq)]
pub enum FileAddition<S = String> {
    /// Waits for the uploader.
    Finding { file_name: S, data_len: u64, file_url: S },
    /// Waits for the metadata to be inserted.
    Inserting { file_url: S, insertion: Insertion<S> },
}

impl DeepView for FileAddition {
    type V = FileAddition<Text>;

    open spec fn deep_view(&self) -> FileAddition<Text> {
        match *self {
            FileAddition::Finding { file_name, data_len, file_url } => FileAddition::Finding {
                file_name: file_name@,
                data_len,
                file_url: file_url@,
            },
            FileAddition::Inserting { file_url, insertion } => FileAddition::Inserting {
                file_url: file_url@,
                insertion: insertion.deep_view(),
            },
        }
    }
}

/// A step of storing the metadata of an uploaded file, in models.
pub type FileAdditionStep = Progress<
    FileAddition<Text>,
    StoredFile<Text>,
    StoreError,
    Statement<Text>,
>;

impl FileAddition<Text> {
    /// The first step.
    pub open spec fn first(
        sender: Text,
        file_name: Text,
        data_len: u64,
        fresh: Fresh<Text>,
    ) -> FileAdditionStep {
        Progress::Ask(
            Statement::UserByUsername { username: sender },
            FileAddition::Finding { file_name, data_len, file_url: fresh.id },
        )
    }

    /// The step after `reply`.
    pub open spec fn next(self, reply: ReplyModel, fresh: Fresh<Text>) -> FileAdditionStep {
        match self {
            FileAddition::Finding { file_name, data_len, file_url } => match found_user(reply) {
                Ok(Some(uploader)) => Progress::Ask(
                    Statement::InsertFile(
                        new_file(uploader.id, file_name, file_url, stored_size(data_len), fresh),
                    ),
                    FileAddition::Inserting { file_url, insertion: Insertion { id: fresh.id } },
                ),
                Ok(None) => Progress::Failed(StoreError::Failed),
                Err(error) => Progress::Failed(error),
            },
            FileAddition::Inserting { file_url, insertion } => match insertion.next(reply) {
                Progress::Ask(statement, insertion) => Progress::Ask(
                    statement,
                    FileAddition::Inserting { file_url, insertion },
                ),
                Progress::Done(file_id) => Progress::Done(StoredFile { file_id, file_url }),
                Progress::Failed(error) => Progress::Failed(error),
            },
        }
    }
}

/// Stores the metadata of a file that `sender` uploads.
pub fn add_file_metadata_item(sender: &str, file_name: &str, data_len: u64, fresh: Fresh) -> (r:
    Progress<FileAddition, StoredFile, StoreError>)
    ensures
        r.deep_view() == FileAddition::first(sender@, file_name@, data_len, fresh.deep_view()),
{
    Progress::Ask(
        get_user_from_username(sender),
        FileAddition::Finding { file_name: file_name.to_owned(), data_len, file_url: fresh.id },
    )
}

impl FileAddition {
    /// Goes on after `reply`.
    pub fn resume(self, reply: Reply, fresh: Fresh) -> (r: Progress<
        FileAddition,
        StoredFile,
        StoreError,
    >)
        ensures
            r.deep_view() == self.deep_view().next(reply.deep_view(), fresh.deep_view()),
    {
        match self {
            FileAddition::Finding { file_name, data_len, file_url } => {
                let uploader = match get_user_from_username_result(reply) {
                    Ok(Some(user)) => user,
                    Ok(None) => {
                        return Progress::Failed(StoreError::Failed);
                    },
                    Err(error) => {
                        return Progress::Failed(error);
                    },
                };
                assert(data_len <= 0x7fff_ffff_ffff_ffff ==> data_len as i64 == data_len)
                    by (bit_vector);
                assert(data_len > 0x7fff_ffff_ffff_ffff ==> data_len as i64 == data_len
                    - 0x1_0000_0000_0000_0000) by (bit_vector);
                let step = insert_new_file_metadata_item(
                    uploader.id.as_str(),
                    file_name.as_str(),
                    file_url.as_str(),
                    data_len as i64,
                    fresh,
                );
                after_file_insertion(file_url, step)
            },
            FileAddition::Inserting { file_url, insertion } => {
                after_file_insertion(file_url, insertion.resume(reply))
            },
        }
    }
}

fn after_file_insertion(
    file_url: String,
    step: Progress<Insertion, String, StoreError>,
) -> (r: Progress<FileAddition, StoredFile, StoreError>)
    ensures
        r.deep_view() == match step.deep_view() {
            Progress::Ask(statement, insertion) => Progress::Ask(
                statement,
                FileAddition::Inserting { file_url: file_url@, insertion },
            ),
            Progress::Done(file_id) => Progress::Done(
                StoredFile { file_id, file_url: file_url@ },
            ),
            Progress::Failed(error) => Progress::Failed(error),
        },
{
    match step {
        Progress::Ask(statement, insertion) => Progress::Ask(
            statement,
            FileAddition::Inserting { file_url, insertion },
        ),
        Progress::Done(file_id) => Progress::Done(StoredFile { file_id, file_url }),
        Progress::Failed(error) => Progress::Failed(error),
    }
}

/// What is to be delivered, and to whom.
#[derive(Debug, PartialEq)]
pub struct Parcel<S = String, Texts = Vec<String>> {
    pub sender: S,
    pub recipients: Texts,
    /// One key for each recipient.
    pub shared_keys: Texts,
    pub shared_header: S,
    pub shared_nonce: S,
    pub file_id: S,
    /// How many minutes the transfer lives, where that is known.
    pub lifetime_mins: Option<i64>,
}

/// The model of what is to be delivered.
pub type ParcelModel = Parcel<Text, Seq<Text>>;

impl DeepView for Parcel {
    type V = ParcelModel;

    open spec fn deep_view(&self) -> ParcelModel {
        Parcel {
            sender: self.sender@,
            recipients: self.recipients.deep_view(),
            shared_keys: self.shared_keys.deep_view(),
            shared_header: self.shared_header@,
            shared_nonce: self.shared_nonce@,
            file_id: self.file_id@,
            lifetime_mins: self.lifetime_mins,
        }
    }
}

/// How far a delivery has come.
#[derive(Debug, PartialEq)]
pub struct Round<S = String, Texts = Vec<String>> {
    pub parcel: Parcel<S, Texts>,
    pub sender_id: S,
    /// The ids of the recipients that have their record.
    pub recipients_added: Texts,
    /// The place in the list of recipients.
    pub index: usize,
}

/// The model of how far a delivery has come.
pub type RoundModel = Round<Text, Seq<Text>>;

impl DeepView for Round {
    type V = RoundModel;

    open spec fn deep_view(&self) -> RoundModel {
        Round {
            parcel: self.parcel.deep_view(),
            sender_id: self.sender_id@,
            recipients_added: self.recipients_added.deep_view(),
            index: self.index,
        }
    }
}

/// Inserting a record for each recipient of a transfer. A user who is named
/// several times gets one record.
#[derive(Debug, PartialEq)]
pub enum Delivery<S = String, Texts = Vec<String>> {
    /// Waits for the sender.
    FindingSender(Parcel<S, Texts>),
    /// Waits for the recipient in this place.
    FindingRecipient(Round<S, Texts>),
    /// Inserts the record of the recipient in this place.
    Recording { round: Round<S, Texts>, insertion: TransferRecordInsertion<S> },
}

/// The model of a delivery.
pub type DeliveryModel = Delivery<Text, Seq<Text>>;

impl DeepView for Delivery {
    type V = DeliveryModel;

    open spec fn deep_view(&self) -> DeliveryModel {
        match *self {
            Delivery::FindingSender(parcel) => Delivery::FindingSender(parcel.deep_view()),
            Delivery::FindingRecipient(round) => Delivery::FindingRecipient(round.deep_view()),
            Delivery::Recording { round, insertion } => Delivery::Recording {
                round: round.deep_view(),
                insertion: insertion.deep_view(),
            },
        }
    }
}

/// A step of a delivery, in models.
pub type DeliveryStep = Progress<DeliveryModel, (), StoreError, Statement<Text>>;

impl RoundModel {
    /// Goes to the recipient in this place, if there is one.
    pub open spec fn visiting(self) -> DeliveryStep {
        if self.index < self.parcel.recipients.len() {
            Progress::Ask(
                Statement::UserByUsername {
                    username: self.parcel.recipients[self.index as int],
                },
                Delivery::FindingRecipient(self),
            )
        } else {
            Progress::Done(())
        }
    }

    /// Goes to the recipient in the place behind this one, if there is one.
    pub open spec fn advancing(self) -> DeliveryStep {
        if self.index + 1 < self.parcel.recipients.len() {
            Round { index: (self.index + 1) as usize, ..self }.visiting()
        } else {
            Progress::Done(())
        }
    }

    /// The transfer to the recipient in this place.
    pub open spec fn transfer_to(self, recipient_id: Text) -> NewTransfer<Text> {
        NewTransfer {
            sender_id: self.sender_id,
            recipient_id,
            shared_key: self.parcel.shared_keys[self.index as int],
            shared_header: self.parcel.shared_header,
            shared_nonce: self.parcel.shared_nonce,
            file_id: self.parcel.file_id,
        }
    }

    /// The step that follows from a step of inserting the record.
    pub open spec fn recorded(
        self,
        step: Progress<TransferRecordInsertion<Text>, Text, StoreError, Statement<Text>>,
    ) -> DeliveryStep {
        match step {
            Progress::Ask(statement, insertion) => Progress::Ask(
                statement,
                Delivery::Recording { round: self, insertion },
            ),
            Progress::Done(_) => self.advancing(),
            Progress::Failed(error) => Progress::Failed(error),
        }
    }

    /// The step when the recipient in this place has been found: a recipient
    /// that has a record is passed over; one for which there is no key is a
    /// failure.
    pub open spec fn found(self, recipient_id: Text, fresh: Fresh<Text>) -> DeliveryStep {
        if self.recipients_added.contains(recipient_id) {
            self.advancing()
        } else if self.index >= self.parcel.shared_keys.len() {
            Progress::Failed(StoreError::Failed)
        } else {
            Round {
                recipients_added: self.recipients_added.push(recipient_id),
                ..self
            }.recorded(
                TransferRecordInsertion::first(
                    self.transfer_to(recipient_id),
                    self.parcel.lifetime_mins,
                    fresh,
                ),
            )
        }
    }
}

impl DeliveryModel {
    /// The first step.
    pub open spec fn first(parcel: ParcelModel) -> DeliveryStep {
        Progress::Ask(
            Statement::UserByUsername { username: parcel.sender },
            Delivery::FindingSender(parcel),
        )
    }

    /// The step after `reply`. A user that does not exist is a failure.
    pub open spec fn next(self, reply: ReplyModel, fresh: Fresh<Text>) -> DeliveryStep {
        match self {
            Delivery::FindingSender(parcel) => match found_user(reply) {
                Ok(Some(sender)) => Round {
                    parcel,
                    sender_id: sender.id,
                    recipients_added: Seq::empty(),
                    index: 0,
                }.visiting(),
                Ok(None) => Progress::Failed(StoreError::Failed),
                Err(error) => Progress::Failed(error),
            },
            Delivery::FindingRecipient(round) => match found_user(reply) {
                Ok(Some(recipient)) => round.found(recipient.id, fresh),
                Ok(None) => Progress::Failed(StoreError::Failed),
                Err(error) => Progress::Failed(error),
            },
            Delivery::Recording { round, insertion } => round.recorded(
                insertion.next(reply, fresh),
            ),
        }
    }
}

/// Inserts a record for each recipient of a transfer.
pub fn add_transfer_records(parcel: Parcel) -> (r: Progress<Delivery, (), StoreError>)
    ensures
        r.deep_view() == DeliveryModel::first(parcel.deep_view()),
{
    Progress::Ask(
        get_user_from_username(parcel.sender.as_str()),
        Delivery::FindingSender(parcel),
    )
}

impl Round {
    fn visit(self) -> (r: Progress<Delivery, (), StoreError>)
        ensures
            r.deep_view() == self.deep_view().visiting(),
    {
        if self.index < self.parcel.recipients.len() {
            let statement = get_user_from_username(self.parcel.recipients[self.index].as_str());
            Progress::Ask(statement, Delivery::FindingRecipient(self))
        } else {
            Progress::Done(())
        }
    }

    fn advance(self) -> (r: Progress<Delivery, (), StoreError>)
        ensures
            r.deep_view() == self.deep_view().advancing(),
    {
        if self.index < self.parcel.recipients.len() {
            let round = Round {
                parcel: self.parcel,
                sender_id: self.sender_id,
                recipients_added: self.recipients_added,
                index: self.index + 1,
            };
            round.visit()
        } else {
            Progress::Done(())
        }
    }

    fn record(self, step: Progress<TransferRecordInsertion, String, StoreError>) -> (r: Progress<
        Delivery,
        (),
        StoreError,
    >)
        ensures
            r.deep_view() == self.deep_view().recorded(step.deep_view()),
    {
        match step {
            Progress::Ask(statement, insertion) => Progress::Ask(
                statement,
                Delivery::Recording { round: self, insertion },
            ),
            Progress::Done(_) => self.advance(),
            Progress::Failed(error) => Progress::Failed(error),
        }
    }

    fn find(self, recipient_id: String, fresh: Fresh) -> (r: Progress<Delivery, (), StoreError>)
        ensures
            r.deep_view() == self.deep_view().found(recipient_id@, fresh.deep_view()),
    {
        if contains_text(&self.recipients_added, &recipient_id) {
            return self.advance();
        }
        if self.index >= self.parcel.shared_keys.len() {
            return Progress::Failed(StoreError::Failed);
        }
        let transfer = NewTransfer {
            sender_id: self.sender_id.clone(),
            recipient_id: recipient_id.clone(),
            shared_key: self.parcel.shared_keys[self.index].clone(),
            shared_header: self.parcel.shared_header.clone(),
            shared_nonce: self.parcel.shared_nonce.clone(),
            file_id: self.parcel.file_id.clone(),
        };
        let step = insert_new_transfer_record(transfer, self.parcel.lifetime_mins, fresh);
        let mut recipients_added = self.recipients_added;
        recipients_added.push(recipient_id);
        let round = Round {
            parcel: self.parcel,
            sender_id: self.sender_id,
            recipients_added,
            index: self.index,
        };
        assert(round.deep_view().recipients_added =~= self.deep_view().recipients_added.push(
            recipient_id@,
        ));
        round.record(step)
    }
}

impl Delivery {
    /// Goes on after `reply`.
    pub fn resume(self, reply: Reply, fresh: Fresh) -> (r: Progress<Delivery, (), StoreError>)
        ensures
            r.deep_view() == self.deep_view().next(reply.deep_view(), fresh.deep_view()),
    {
        match self {
            Delivery::FindingSender(parcel) => match get_user_from_username_result(reply) {
                Ok(Some(sender)) => {
                    let round = Round {
                        parcel,
                        sender_id: sender.id,
                        recipients_added: Vec::new(),
                        index: 0,
                    };
                    assert(round.deep_view().recipients_added =~= Seq::empty());
                    round.visit()
                },
                Ok(None) => Progress::Failed(StoreError::Failed),
                Err(error) => Progress::Failed(error),
            },
            Delivery::FindingRecipient(round) => match get_user_from_username_result(reply) {
                Ok(Some(recipient)) => round.find(recipient.id, fresh),
                Ok(None) => Progress::Failed(StoreError::Failed),
                Err(error) => Progress::Failed(error),
            },
            Delivery::Recording { round, insertion } => {
                let step = insertion.resume(reply, fresh);
                round.record(step)
            },
        }
    }
}

} // verus!
