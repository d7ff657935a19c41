//! What holds of uploads from their first byte to the answer.

use crate::auth::{Authentication, AuthenticationStep};
use crate::delivery::{
    quota_verdict, DeliveryStep, FileAddition, FileAdditionStep, Parcel, ParcelModel,
};
use crate::frame::{
    framed, framing_ignores_chunks, stream, Framing, SIZE_BYTES,
};
use crate::fresh::Fresh;
use crate::laws::authenticators::{Period, Updating};
use crate::laws::deliveries::Delivering;
use crate::laws::records::{adding_records, records_are_numbered_on};
use crate::laws::signed_requests::SigningIn;
use crate::laws::storage::{
    grows_by, is_countable, is_within_quota, quota_decides, total_grows, AddingFile,
};
use crate::laws::succession::{counting_on_goes_on, fewer_records_count_on};
use crate::laws::terms::{
    announced_size, files_are_stored_in_the_directory, is_later_by, path_in,
    sizes_are_announced_in_four_bytes, size_on_record,
};
use crate::laws::uploads::{stream_splits, Uploading};
use crate::models::{FileMetadataItem, TransferRecord, User};
use crate::payloads::MetadataModel;
use crate::responses::{
    refused, server_error, Refusal, Response, BAD_REQUEST, FORBIDDEN, INTERNAL_SERVER_ERROR, OK,
};
use crate::settings::Settings;
use crate::sign_in::known_user;
use crate::statements::{Progress, Reply, Statement};
use crate::tables::{consistent_with_same_records, lists_ids, size_total, Tables};
use crate::tasks::{Event, EventModel, Task, TaskModel};
use crate::text::{decimal, utf8_lossy, Text};
use crate::time::Timestamp;
use crate::transfer::{
    file_written, records_added, Offer, OfferModel, Setup, Transfer, TransferModel,
    TransferStep,
};
use crate::upload::UploadStep;
use crate::world::{run_keeps, runs, Labour, Lawful, Machine, Turn, World};
use vstd::prelude::*;
use vstd::utf8::*;

verus! {

/// An upload whose file is in the database.
pub struct Shipment {
    pub offer: OfferModel,
    /// The user who sends it.
    pub user_id: Text,
    /// The row of the file.
    pub row: FileMetadataItem<Text>,
    /// The world when the file begins to be received.
    pub stored: World,
    /// The world when the file has been received.
    pub received: World,
}

/// The settings, and the world and period in which an upload is served.
pub struct Transferring {
    pub settings: Settings<Text>,
    pub period: Period,
    pub before: World,
}

impl Transferring {
    /// Where the upload goes and how long it lives.
    pub open spec fn setup(self) -> Setup<Text> {
        Setup { storage_dir: self.settings.storage_dir, lifetime_mins: self.settings.minutes() }
    }

    /// How many chunks were read.
    pub open spec fn chunks_read(self, now: World) -> int {
        self.before.payload.len() - now.payload.len()
    }

    /// Whether at most the payload was read.
    pub open spec fn has_only_read(self, now: World) -> bool {
        &&& now == (World { payload: now.payload, ..self.before })
        &&& 0 <= self.chunks_read(now)
        &&& now.payload == self.before.payload.skip(self.chunks_read(now))
    }

    /// What the first chunks tell of the head of the upload.
    pub open spec fn head(self, chunks: int) -> Option<Framing<Text, Seq<u8>>> {
        framed(self.before.payload.take(chunks))
    }

    /// Whether the chunks that are no longer in `payload` hold the head of the
    /// upload, with `text` as its metadata, and behind it `leftover`.
    pub open spec fn leaves(
        self,
        payload: Seq<Seq<u8>>,
        text: Text,
        leftover: Seq<u8>,
    ) -> bool {
        let chunks = self.before.payload.len() - payload.len();
        &&& 0 <= chunks
        &&& payload == self.before.payload.skip(chunks)
        &&& self.head(chunks) == Some(Framing::Complete { text, leftover })
    }

    /// All that is uploaded.
    pub open spec fn body(self) -> Seq<u8> {
        stream(self.before.payload)
    }

    /// How many bytes the head of the upload has.
    pub open spec fn head_len(self) -> int {
        8 + announced_size(self.body())
    }

    /// The metadata as they are uploaded.
    pub open spec fn metadata_text(self) -> Text {
        utf8_lossy(self.body().subrange(8, self.head_len()))
    }

    /// The data that are uploaded: all that stands behind the head.
    pub open spec fn data(self) -> Seq<u8> {
        self.body().skip(self.head_len())
    }

    /// Whether this was read from the head of the upload.
    pub open spec fn is_offer(self, offer: OfferModel, payload: Seq<Seq<u8>>) -> bool {
        &&& offer.setup == self.setup()
        &&& offer.metadata.recipients.len() <= usize::MAX
        &&& exists|text: Text| #[trigger]
            self.leaves(payload, text, offer.leftover) && (self.before.parse)(text) == Some(
                offer.metadata,
            )
    }

    /// The signing in of the user who sends the upload.
    pub open spec fn signing_in(
        self,
        metadata: MetadataModel,
        payload: Seq<Seq<u8>>,
    ) -> SigningIn {
        SigningIn {
            username: metadata.sender,
            signed_authenticator: metadata.signed_authenticator,
            updating: Updating {
                period: self.period,
                before: World { payload, ..self.before },
            },
        }
    }

    /// Whether the name of the file is short enough.
    pub open spec fn has_short_name(metadata: MetadataModel) -> bool {
        encode_utf8(metadata.name).len() <= 20
    }

    /// Whether the upload comes from the user with this id.
    pub open spec fn is_admitted(self, offer: OfferModel, user_id: Text, now: World) -> bool {
        let signing_in = self.signing_in(offer.metadata, now.payload);
        &&& self.is_offer(offer, now.payload)
        &&& Self::has_short_name(offer.metadata)
        &&& signing_in.comes_from(user_id, now)
        &&& signing_in.updating.touches_authenticators_only(now)
    }

    /// Whether the upload comes from the user with this id and keeps to the
    /// quota.
    pub open spec fn is_accepted(self, offer: OfferModel, user_id: Text, now: World) -> bool {
        &&& self.is_admitted(offer, user_id, now)
        &&& is_within_quota(
            self.before.tables,
            user_id,
            self.before.tables.users[user_id].transfer_quota,
            offer.metadata.data_len,
        )
    }

    /// The storing of the file's metadata.
    pub open spec fn adding_file(offer: OfferModel, before: World) -> AddingFile {
        AddingFile {
            sender: offer.metadata.sender,
            file_name: offer.metadata.name,
            data_len: offer.metadata.data_len,
            before,
        }
    }

    /// Whether the upload was accepted, and its file is in the database.
    pub open spec fn is_stored(self, shipment: Shipment) -> bool {
        exists|accepted: World| #[trigger]
            self.is_accepted(shipment.offer, shipment.user_id, accepted) && Self::adding_file(
                shipment.offer,
                accepted,
            ).adds(shipment.row, shipment.stored) && shipment.stored.faults >= self.before.faults
                && accepted.tables.consistent() && shipment.stored.tables.consistent()
    }

    /// The path of the file.
    pub open spec fn path(self, shipment: Shipment) -> Text {
        path_in(self.setup().storage_dir->0, shipment.row.file_url)
    }

    /// The receiving of the file.
    pub open spec fn uploading(self, shipment: Shipment) -> Uploading {
        Uploading {
            path: self.path(shipment),
            data_len: shipment.offer.metadata.data_len,
            leftover: shipment.offer.leftover,
            before: shipment.stored,
        }
    }

    /// Whether the file has been received.
    pub open spec fn is_received(self, shipment: Shipment) -> bool {
        &&& self.is_stored(shipment)
        &&& self.setup().storage_dir is Some
        &&& self.uploading(shipment).allows(Progress::Done(()), shipment.received)
    }

    /// What is delivered to the recipients: the keys, header and nonce as they
    /// were uploaded, and the file.
    pub open spec fn parcel(self, shipment: Shipment) -> ParcelModel {
        let metadata = shipment.offer.metadata;
        Parcel {
            sender: metadata.sender,
            recipients: metadata.recipients,
            shared_keys: metadata.shared_keys,
            shared_header: metadata.shared_header,
            shared_nonce: metadata.shared_nonce,
            file_id: shipment.row.id,
            lifetime_mins: self.settings.minutes(),
        }
    }

    /// The delivery of the file to its recipients.
    pub open spec fn delivering(self, shipment: Shipment) -> Delivering {
        Delivering {
            parcel: self.parcel(shipment),
            period: self.period,
            before: shipment.received,
        }
    }

    /// Whether the file has been received and each recipient has a record.
    pub open spec fn is_completed(self, shipment: Shipment, now: World) -> bool {
        &&& self.is_received(shipment)
        &&& exists|rows: Seq<TransferRecord<Text>>| #[trigger]
            self.delivering(shipment).is_delivered(
                rows,
                shipment.offer.metadata.recipients.len() as int,
                now,
            )
    }

    /// Whether the user with this name has a record of the shipment.
    pub open spec fn holds_record_for(self, shipment: Shipment, name: Text, now: World) -> bool {
        exists|id: Text|
            {
                let record = now.tables.records[id];
                &&& #[trigger] now.tables.records.contains_key(id)
                &&& record.file_id == shipment.row.id
                &&& now.tables.users.contains_key(record.recipient)
                &&& now.tables.users[record.recipient].username == name
            }
    }

    /// Whether the record is one of the shipment for the recipient in place `k`
    /// of the metadata, the first place with that name: it has what was uploaded
    /// for that place, comes from the user who sent it, is known to the
    /// recipient by the next number, and lives as many minutes as the settings
    /// say.
    pub open spec fn is_record_of(
        self,
        shipment: Shipment,
        record: TransferRecord<Text>,
        k: int,
    ) -> bool {
        let metadata = shipment.offer.metadata;
        let users = self.before.tables.users;
        &&& 0 <= k < metadata.recipients.len()
        &&& users.contains_key(record.recipient)
        &&& users[record.recipient].username == metadata.recipients[k]
        &&& forall|i: int| 0 <= i < k ==> #[trigger] metadata.recipients[i]
            != metadata.recipients[k]
        &&& record.download_id == decimal(users[record.recipient].transfer_count + 1)
        &&& record.sender == shipment.user_id
        &&& k < metadata.shared_keys.len()
        &&& record.shared_key == metadata.shared_keys[k]
        &&& record.shared_header == metadata.shared_header
        &&& record.shared_nonce == metadata.shared_nonce
        &&& record.file_id == shipment.row.id
        &&& self.period.covers(record.date_created)
        &&& self.settings.minutes() is Some
        &&& exists|time: Timestamp| #[trigger]
            self.period.covers(time) && is_later_by(
                record.expires_on,
                time,
                60 * self.settings.minutes()->0,
            )
    }

    /// The refusal of a transfer whose records cannot be stored.
    pub open spec fn undelivered() -> Refusal<Text> {
        refused(INTERNAL_SERVER_ERROR, "Could not parse transfer request"@)
    }

    /// Whether no user, record or file in the database has changed, and no file
    /// on the disk; the authenticators may have been brought up to date.
    pub open spec fn is_untouched(self, now: World) -> bool {
        &&& now.tables == (Tables {
            authenticators: now.tables.authenticators,
            ..self.before.tables
        })
        &&& self.before.tables.trims(now.tables, self.period.to)
        &&& now.disk == self.before.disk
    }

    /// Whether no user or record has changed, at most one file is new in the
    /// database, and none on the disk unless the file system failed.
    pub open spec fn has_no_record(self, now: World) -> bool {
        &&& now.tables.users == self.before.tables.users
        &&& now.tables.records == self.before.tables.records
        &&& now.tables.files == self.before.tables.files || exists|row: FileMetadataItem<Text>|
            !self.before.tables.files.contains_key(#[trigger] row.id) && now.tables.files
                == self.before.tables.files.insert(row.id, row)
        &&& now.mishaps > self.before.mishaps || forall|path: Text| #[trigger]
            now.disk.contains_key(path) ==> self.before.disk.contains_pair(path, now.disk[path])
    }

    /// Whether the file of the shipment is new in the database, and nothing else
    /// in the database has changed but the authenticators.
    pub open spec fn stores_only(self, shipment: Shipment, now: World) -> bool {
        &&& !self.before.tables.files.contains_key(shipment.row.id)
        &&& now.tables == (Tables {
            authenticators: now.tables.authenticators,
            files: self.before.tables.files.insert(shipment.row.id, shipment.row),
            ..self.before.tables
        })
    }

    /// Whether the payload is read to its end, and the head of the upload is not
    /// complete.
    pub open spec fn lacks_head(self, now: World) -> bool {
        &&& self.has_only_read(now)
        &&& now.payload.len() == 0
        &&& framed(self.before.payload) matches Some(Framing::Partial(_))
    }

    /// Whether the upload may be refused before anything is read from the
    /// database.
    pub open spec fn refuses_head(self, refusal: Refusal<Text>, now: World) -> bool {
        ||| {
            &&& refusal == refused(BAD_REQUEST, "Malformed Request"@)
            &&& self.before.broken is None
            &&& self.lacks_head(now)
        }
        ||| {
            &&& self.before.broken is Some
            &&& refusal == Refusal::Answer(self.before.broken->0)
            &&& self.lacks_head(now)
        }
        ||| {
            &&& refusal == refused(BAD_REQUEST, "Could not parse request"@)
            &&& self.has_only_read(now)
            &&& exists|text: Text, leftover: Seq<u8>| #[trigger]
                self.leaves(now.payload, text, leftover) && (self.before.parse)(text) is None
        }
    }

    /// Whether the user who is named in the offer exists, and the name of the
    /// file is too long.
    pub open spec fn refuses_name(self, offer: OfferModel, now: World) -> bool {
        &&& self.is_offer(offer, now.payload)
        &&& self.before.tables.is_taken(offer.metadata.sender)
        &&& !Self::has_short_name(offer.metadata)
    }

    /// Whether the user who is named in the offer cannot sign in. The name of the
    /// file is judged before, where there is such a user.
    pub open spec fn refuses_user(
        self,
        offer: OfferModel,
        refusal: Refusal<Text>,
        now: World,
    ) -> bool {
        &&& self.is_offer(offer, now.payload)
        &&& Self::has_short_name(offer.metadata) || !self.before.tables.is_taken(
            offer.metadata.sender,
        )
        &&& self.signing_in(offer.metadata, now.payload).refuses(refusal, now)
    }

    /// Whether the upload does not keep to the quota of the user with this id.
    pub open spec fn refuses_size(
        self,
        offer: OfferModel,
        user_id: Text,
        refusal: Refusal<Text>,
        now: World,
    ) -> bool {
        &&& self.is_admitted(offer, user_id, now)
        &&& !is_within_quota(
            self.before.tables,
            user_id,
            self.before.tables.users[user_id].transfer_quota,
            offer.metadata.data_len,
        )
        &&& refusal == if is_countable(self.before.tables, user_id, offer.metadata.data_len) {
            refused(FORBIDDEN, "Transfer quota reached"@)
        } else {
            server_error()
        }
    }

    /// Whether the data of the shipment cannot be stored. Its file stays in the
    /// database; what there is of it on the disk is removed, unless the file
    /// system fails.
    pub open spec fn refuses_data(
        self,
        shipment: Shipment,
        refusal: Refusal<Text>,
        now: World,
    ) -> bool {
        let uploading = self.uploading(shipment);
        &&& self.is_stored(shipment)
        &&& self.stores_only(shipment, now)
        &&& if self.setup().storage_dir is None {
            refusal is Abandon && now.disk == self.before.disk
        } else {
            &&& uploading.refuses(refusal, now)
            &&& now.disk.remove(uploading.path) == self.before.disk.remove(uploading.path)
            &&& now.mishaps > self.before.mishaps || now.disk == self.before.disk.remove(
                uploading.path,
            )
        }
    }

    /// Whether the shipment cannot be delivered to all its recipients.
    pub open spec fn refuses_delivery(self, shipment: Shipment, now: World) -> bool {
        &&& self.is_received(shipment)
        &&& self.delivering(shipment).is_partial(now)
        &&& now.faults > self.before.faults || !self.delivering(shipment).is_possible()
    }

    /// Whether the upload may be refused by `refusal` in the world `now`.
    pub open spec fn refuses(self, refusal: Refusal<Text>, now: World) -> bool {
        ||| self.refuses_head(refusal, now)
        ||| {
            &&& refusal == server_error()
            &&& now.faults > self.before.faults
            &&& self.is_untouched(now)
        }
        ||| {
            &&& self.is_untouched(now)
            &&& exists|offer: OfferModel| #[trigger] self.refuses_user(offer, refusal, now)
        }
        ||| {
            &&& self.is_untouched(now)
            &&& exists|offer: OfferModel, user_id: Text| #[trigger]
                self.refuses_size(offer, user_id, refusal, now)
        }
        ||| exists|shipment: Shipment| #[trigger] self.refuses_data(shipment, refusal, now)
        ||| {
            &&& refusal == Self::undelivered()
            &&& exists|shipment: Shipment| #[trigger] self.refuses_delivery(shipment, now)
        }
    }

    /// What is known at `step` in the world `now`.
    pub open spec fn allows(self, step: TransferStep, now: World) -> bool {
        &&& self.before.tables.consistent()
        &&& now.tables.consistent()
        &&& self.before.tables.leads_to(now.tables, self.period.to)
        &&& now.faults >= self.before.faults
        &&& now.mishaps >= self.before.mishaps
        &&& match step {
            Progress::Ask(work, Transfer::Receiving { frame, setup }) => {
                &&& self.has_only_read(now)
                &&& setup == self.setup()
                &&& self.head(self.chunks_read(now)) == Some(
                    Framing::<Text, Seq<u8>>::Partial(frame),
                )
                &&& work is ReadChunk
            },
            Progress::Ask(work, Transfer::Parsing { leftover, setup }) => {
                &&& self.has_only_read(now)
                &&& setup == self.setup()
                &&& work is ParseMetadata
                &&& self.leaves(now.payload, work->ParseMetadata_0, leftover)
            },
            Progress::Ask(work, Transfer::Finding(offer)) => {
                &&& self.has_only_read(now)
                &&& self.is_offer(offer, now.payload)
                &&& work == (Task::<Text, Seq<u8>>::Run(
                    Statement::UserByUsername { username: offer.metadata.sender },
                ))
            },
            Progress::Ask(
                work,
                Transfer::Authenticating { offer, user_id, transfer_quota, authentication },
            ) => {
                let signing_in = self.signing_in(offer.metadata, now.payload);
                &&& self.is_offer(offer, now.payload)
                &&& Self::has_short_name(offer.metadata)
                &&& signing_in.names(user_id)
                &&& transfer_quota == self.before.tables.users[user_id].transfer_quota
                &&& work is Run
                &&& signing_in.as_user(user_id).allows(
                    Progress::Ask(work->Run_0, authentication),
                    now,
                )
            },
            Progress::Ask(work, Transfer::Measuring { offer, transfer_quota }) => {
                &&& work is Run
                &&& work->Run_0 is FileSizeTotal
                &&& self.is_admitted(offer, work->Run_0->FileSizeTotal_uploader, now)
                &&& transfer_quota
                    == self.before.tables.users[work->Run_0->FileSizeTotal_uploader].transfer_quota
            },
            Progress::Ask(work, Transfer::AddingFile { offer, addition }) => {
                &&& work is Run
                &&& exists|user_id: Text, accepted: World| #[trigger]
                    self.is_accepted(offer, user_id, accepted) && accepted.tables.consistent()
                        && accepted.faults >= self.before.faults && Self::adding_file(
                        offer,
                        accepted,
                    ).allows(Progress::Ask(work->Run_0, addition), now)
            },
            Progress::Ask(work, Transfer::Writing { parcel, upload }) => exists|shipment: Shipment|
                {
                    &&& #[trigger] self.is_stored(shipment)
                    &&& self.setup().storage_dir is Some
                    &&& parcel == self.parcel(shipment)
                    &&& self.uploading(shipment).allows(Progress::Ask(work, upload), now)
                },
            Progress::Ask(work, Transfer::Delivering(delivery)) => {
                &&& work is Run
                &&& exists|shipment: Shipment| #[trigger]
                    self.is_received(shipment) && self.delivering(shipment).allows(
                        Progress::Ask(work->Run_0, delivery),
                        now,
                    )
            },
            Progress::Done(response) => {
                ||| {
                    &&& response == (Response {
                        status: BAD_REQUEST,
                        body: "Name field must not exceed 20 characters"@,
                    })
                    &&& self.has_only_read(now)
                    &&& exists|offer: OfferModel| #[trigger] self.refuses_name(offer, now)
                }
                ||| {
                    &&& response == (Response { status: OK, body: "Transfer Completed"@ })
                    &&& exists|shipment: Shipment| #[trigger] self.is_completed(shipment, now)
                }
            },
            Progress::Failed(refusal) => {
                &&& self.refuses(refusal, now)
                &&& self.has_no_record(now) || {
                    &&& refusal == Self::undelivered()
                    &&& exists|shipment: Shipment| #[trigger]
                        self.is_received(shipment) && self.delivering(shipment).is_partial(now)
                }
            },
        }
    }
}

impl Transferring {
    /// From a step of the authentication on, what is known of it is known of
    /// the upload.
    proof fn authenticates(
        self,
        offer: OfferModel,
        user_id: Text,
        step: AuthenticationStep,
        now: World,
    )
        requires
            self.before.tables.consistent(),
            self.is_offer(offer, now.payload),
            Self::has_short_name(offer.metadata),
            self.signing_in(offer.metadata, now.payload).names(user_id),
            self.signing_in(offer.metadata, now.payload).as_user(user_id).allows(step, now),
        ensures
            self.allows(
                offer.authenticated(
                    user_id,
                    self.before.tables.users[user_id].transfer_quota,
                    step,
                ),
                now,
            ),
    {
        consistent_with_same_records(self.before.tables, now.tables);
        if let Progress::Failed(refusal) = step {
            assert(self.refuses_user(offer, refusal, now));
        }
    }

    /// From a step of storing the file's metadata on, what is known of it is
    /// known of the upload.
    proof fn adds_file(
        self,
        offer: OfferModel,
        user_id: Text,
        accepted: World,
        step: FileAdditionStep,
        now: World,
    )
        requires
            self.before.tables.consistent(),
            self.is_accepted(offer, user_id, accepted),
            accepted.tables.consistent(),
            accepted.faults >= self.before.faults,
            Self::adding_file(offer, accepted).allows(step, now),
        ensures
            self.allows(offer.file_added(step), now),
    {
        let start = Self::adding_file(offer, accepted);
        match step {
            Progress::Ask(statement, addition) => {
                assert(now.tables == accepted.tables);
            },
            Progress::Failed(_) => {},
            Progress::Done(stored) => {
                let row = choose|row: FileMetadataItem<Text>| #[trigger]
                    start.adds(row, now) && row.id == stored.file_id && row.file_url
                        == stored.file_url;
                consistent_with_same_records(accepted.tables, now.tables);
                let shipment = Shipment { offer, user_id, row, stored: now, received: now };
                assert(self.is_accepted(shipment.offer, shipment.user_id, accepted));
                assert(self.is_stored(shipment));
                assert(now.payload.skip(0) =~= now.payload);
                if self.setup().storage_dir is Some {
                    files_are_stored_in_the_directory(self.setup().storage_dir->0, row.file_url);
                }
                assert(!self.before.tables.files.contains_key(row.id));
                if self.setup().storage_dir is None {
                    assert(self.refuses_data(shipment, Refusal::Abandon, now));
                }
            },
        }
    }

    /// From a step of receiving the file on, what is known of it is known of
    /// the upload.
    proof fn receives(
        self,
        shipment: Shipment,
        step: UploadStep,
        now: World,
    )
        requires
            self.before.tables.consistent(),
            self.is_stored(shipment),
            self.setup().storage_dir is Some,
            self.uploading(shipment).allows(step, now),
        ensures
            self.allows(file_written(self.parcel(shipment), step), now),
    {
        let row = shipment.row;
        let accepted = choose|accepted: World| #[trigger]
            self.is_accepted(shipment.offer, shipment.user_id, accepted) && Self::adding_file(
                shipment.offer,
                accepted,
            ).adds(shipment.row, shipment.stored) && shipment.stored.faults >= self.before.faults
                && accepted.tables.consistent() && shipment.stored.tables.consistent();
        match step {
            Progress::Ask(work, upload) => {},
            Progress::Failed(refusal) => {
                assert(!self.before.tables.files.contains_key(row.id));
                assert(now.tables.files == self.before.tables.files.insert(row.id, row));
                assert(self.refuses_data(shipment, refusal, now));
            },
            Progress::Done(()) => {
                let received = Shipment { received: now, ..shipment };
                assert(self.is_accepted(received.offer, received.user_id, accepted));
                assert(self.is_stored(received));
                assert(self.is_received(received));
            },
        }
    }

    /// From a step of the delivery on, what is known of it is known of the
    /// upload.
    proof fn delivers(
        self,
        shipment: Shipment,
        step: DeliveryStep,
        now: World,
    )
        requires
            self.before.tables.consistent(),
            self.is_received(shipment),
            self.delivering(shipment).allows(step, now),
        ensures
            self.allows(records_added(step), now),
    {
        let received = shipment.received.tables;
        assert(received.users == self.before.tables.users);
        assert(received.records == self.before.tables.records);
        fewer_records_count_on(self.before.tables, received);
        counting_on_goes_on(self.before.tables, received, now.tables);
        match step {
            Progress::Ask(work, delivery) => {},
            Progress::Done(()) => {
                assert(self.is_completed(shipment, now));
            },
            Progress::Failed(_) => {
                assert(self.refuses_delivery(shipment, now));
            },
        }
    }

    /// What is known stays known from one step to the next.
    pub proof fn advance(
        self,
        work: TaskModel,
        machine: TransferModel,
        now: World,
        outcome: EventModel,
        fresh: Fresh<Text>,
        then: World,
    )
        requires
            self.allows(Progress::Ask(work, machine), now),
            work.performed(now, outcome, then),
            fresh.well_formed(),
            self.period.covers(fresh.now),
            self.period.covers(fresh.timestamp),
        ensures
            self.allows(machine.next(outcome, fresh), then),
    {
        match machine {
            Transfer::Receiving { frame, setup } => {
                let all = self.before.payload;
                let read = self.chunks_read(now);
                if outcome is Chunk {
                    assert(all.skip(read).skip(1) =~= all.skip(read + 1));
                    assert(all.take(read + 1).drop_last() =~= all.take(read));
                    assert(all.take(read + 1).last() == outcome->Chunk_0);
                }
                if outcome is End || outcome is Broken {
                    assert(all.take(read) =~= all);
                }
            },
            Transfer::Parsing { leftover, setup } => {
                let text = work->ParseMetadata_0;
                assert(self.leaves(then.payload, text, leftover));
                assert(now.parse == self.before.parse);
                if let Event::Parsed(metadata) = outcome {
                    let offer = Offer { metadata, leftover, setup };
                    assert(self.leaves(then.payload, text, offer.leftover));
                    assert((self.before.parse)(text) == Some(offer.metadata));
                    assert(self.is_offer(offer, then.payload));
                }
            },
            Transfer::Finding(offer) => {
                if let Reply::User(user) = outcome->Reply_0 {
                    let signing_in = self.signing_in(offer.metadata, now.payload);
                    assert(signing_in.names(user.id));
                    assert(self.before.tables.users.contains_key(user.id));
                    if Self::has_short_name(offer.metadata) {
                        let start = signing_in.as_user(user.id);
                        let step = Authentication::first(
                            start.approved,
                            start.signing_public_key,
                            start.signed_authenticator,
                        );
                        assert(start.allows(step, then));
                        self.authenticates(offer, user.id, step, then);
                    } else {
                        assert(self.refuses_name(offer, then));
                    }
                } else if let Err(refusal) = known_user(outcome.reply(), offer.metadata.sender) {
                    if !outcome->Reply_0.is_fault() {
                        assert(self.refuses_user(offer, refusal, then));
                    }
                }
            },
            Transfer::Authenticating { offer, user_id, transfer_quota, authentication } => {
                let start = self.signing_in(offer.metadata, now.payload).as_user(user_id);
                start.advance(work->Run_0, authentication, now, outcome->Reply_0, fresh, then);
                self.authenticates(
                    offer,
                    user_id,
                    authentication.next(outcome->Reply_0, fresh),
                    then,
                );
            },
            Transfer::Measuring { offer, transfer_quota } => {
                let reply = outcome->Reply_0;
                let user_id = work->Run_0->FileSizeTotal_uploader;
                consistent_with_same_records(self.before.tables, then.tables);
                if !reply.is_fault() {
                    quota_decides(
                        now,
                        user_id,
                        reply,
                        then,
                        transfer_quota,
                        offer.metadata.data_len,
                    );
                    assert(now.tables.files_of(user_id) =~= self.before.tables.files_of(user_id));
                    if quota_verdict(
                        reply,
                        transfer_quota,
                        offer.metadata.data_len,
                    ) is Ok {
                        assert(self.is_admitted(offer, user_id, then));
                        assert(self.is_accepted(offer, user_id, then));
                        let start = Self::adding_file(offer, then);
                        let step = FileAddition::first(
                            start.sender,
                            start.file_name,
                            start.data_len,
                            fresh,
                        );
                        assert(start.allows(step, then));
                        self.adds_file(offer, user_id, then, step, then);
                    } else {
                        let refusal = quota_verdict(
                            reply,
                            transfer_quota,
                            offer.metadata.data_len,
                        )->Err_0;
                        assert(self.is_admitted(offer, user_id, then));
                        assert(self.refuses_size(offer, user_id, refusal, then));
                    }
                }
            },
            Transfer::AddingFile { offer, addition } => {
                let (user_id, accepted) = choose|user_id: Text, accepted: World| #[trigger]
                    self.is_accepted(offer, user_id, accepted) && accepted.tables.consistent()
                        && accepted.faults >= self.before.faults && Self::adding_file(
                        offer,
                        accepted,
                    ).allows(Progress::Ask(work->Run_0, addition), now);
                let start = Self::adding_file(offer, accepted);
                start.advance(work->Run_0, addition, now, outcome->Reply_0, fresh, then);
                self.adds_file(
                    offer,
                    user_id,
                    accepted,
                    addition.next(outcome->Reply_0, fresh),
                    then,
                );
            },
            Transfer::Writing { parcel, upload } => {
                let shipment = choose|shipment: Shipment|
                    {
                        &&& #[trigger] self.is_stored(shipment)
                        &&& self.setup().storage_dir is Some
                        &&& parcel == self.parcel(shipment)
                        &&& self.uploading(shipment).allows(Progress::Ask(work, upload), now)
                    };
                self.uploading(shipment).advance(work, upload, now, outcome, then);
                self.receives(shipment, upload.next(outcome), then);
            },
            Transfer::Delivering(delivery) => {
                let shipment = choose|shipment: Shipment| #[trigger]
                    self.is_received(shipment) && self.delivering(shipment).allows(
                        Progress::Ask(work->Run_0, delivery),
                        now,
                    );
                self.delivering(shipment).advance(
                    work->Run_0,
                    delivery,
                    now,
                    outcome->Reply_0,
                    fresh,
                    then,
                );
                self.delivers(shipment, delivery.next(outcome->Reply_0, fresh), then);
            },
        }
    }
}

impl Machine for TransferModel {
    type Work = TaskModel;

    type Value = Response<Text>;

    type Error = Refusal<Text>;

    open spec fn after(self, outcome: EventModel, fresh: Fresh<Text>) -> TransferStep {
        self.next(outcome, fresh)
    }
}

impl Lawful for TransferModel {
    type Start = Transferring;

    open spec fn granted(start: Transferring, fresh: Fresh<Text>) -> bool {
        start.period.covers(fresh.now) && start.period.covers(fresh.timestamp)
    }

    open spec fn known(start: Transferring, step: TransferStep, now: World) -> bool {
        start.allows(step, now)
    }

    proof fn kept(
        start: Transferring,
        work: TaskModel,
        machine: TransferModel,
        now: World,
        outcome: EventModel,
        fresh: Fresh<Text>,
        then: World,
    ) {
        start.advance(work, machine, now, outcome, fresh, then);
    }
}

/// An upload is completed only where it comes from an approved user who has
/// signed an authenticator, keeps to the user's quota and has the announced
/// length; its file is stored then, and each recipient has one record of it.
/// Every refusal has its reason, and says what is left behind: nothing is
/// touched before the user signs in, and only the authenticators until the file
/// is accepted. From then on the file stays in the database; what there is of
/// it on the disk is removed where its data are refused, unless the file system
/// fails; and no record is stored unless the delivery stops in the middle. The
/// tables stay consistent however far it comes.
pub proof fn transferring(
    start: Transferring,
    turns: Seq<Turn<EventModel>>,
    last: TransferStep,
    after: World,
)
    requires
        start.before.tables.consistent(),
        runs(TransferModel::first(start.settings), start.before, turns, last, after),
        forall|i: int|
            0 <= i < turns.len() ==> start.period.covers((#[trigger] turns[i]).fresh.now)
                && start.period.covers(turns[i].fresh.timestamp),
    ensures
        after.tables.consistent(),
        start.before.tables.leads_to(after.tables, start.period.to),
        last matches Progress::Done(response) ==> {
            ||| {
                &&& response == (Response {
                    status: BAD_REQUEST,
                    body: "Name field must not exceed 20 characters"@,
                })
                &&& start.has_only_read(after)
                &&& exists|offer: OfferModel| #[trigger] start.refuses_name(offer, after)
            }
            ||| {
                &&& response == (Response { status: OK, body: "Transfer Completed"@ })
                &&& exists|shipment: Shipment| #[trigger] start.is_completed(shipment, after)
            }
        },
        last matches Progress::Failed(refusal) ==> {
            &&& start.refuses(refusal, after)
            &&& start.has_no_record(after) || {
                &&& refusal == Transferring::undelivered()
                &&& exists|shipment: Shipment| #[trigger]
                    start.is_received(shipment) && start.delivering(shipment).is_partial(after)
            }
        },
{
    assert(start.before.payload.skip(0) =~= start.before.payload);
    assert(start.before.payload.take(0) =~= Seq::empty());
    run_keeps(start, TransferModel::first(start.settings), start.before, turns, last, after);
}

/// What stands behind the head of an upload is what was received together with
/// the head and after it, however the upload was cut into chunks.
pub proof fn offered_data(start: Transferring, offer: OfferModel, payload: Seq<Seq<u8>>)
    requires
        start.is_offer(offer, payload),
    ensures
        start.body().len() >= 8,
        start.body().len() >= start.head_len(),
        (start.before.parse)(start.metadata_text()) == Some(offer.metadata),
        offer.leftover + stream(payload) == start.data(),
{
    let chunks = start.before.payload.len() - payload.len();
    let text = choose|text: Text| #[trigger]
        start.leaves(payload, text, offer.leftover) && (start.before.parse)(text) == Some(
            offer.metadata,
        );
    let part = stream(start.before.payload.take(chunks));
    framing_ignores_chunks(start.before.payload.take(chunks));
    stream_splits(start.before.payload, chunks);
    let all = start.body();
    assert(all == part + stream(payload));
    sizes_are_announced_in_four_bytes(all);
    assert(part.take(SIZE_BYTES as int) =~= all.take(SIZE_BYTES as int));
    let len = start.head_len();
    assert(part.subrange(SIZE_BYTES as int, len) =~= all.subrange(SIZE_BYTES as int, len));
    assert(part.skip(len) + stream(payload) =~= all.skip(len));
}

/// What a completed upload leaves: the row of its file, which has the size of
/// the data and adds it to the sum of the user's files; the file on the disk,
/// which holds all the data that were uploaded, however the upload was cut into
/// chunks; and a record of it for every recipient, with the key, header and
/// nonce that were uploaded for that recipient. Every new record is one of
/// these, and all others stay.
pub proof fn completed_transfer(start: Transferring, shipment: Shipment, after: World)
    requires
        start.before.tables.consistent(),
        start.is_completed(shipment, after),
    ensures
        ({
            let metadata = shipment.offer.metadata;
            let user = start.before.tables.users[shipment.user_id];
            &&& start.body().len() >= 8
            &&& start.body().len() >= start.head_len()
            &&& (start.before.parse)(start.metadata_text()) == Some(metadata)
            &&& start.data().len() == metadata.data_len
            &&& start.before.tables.users.contains_key(shipment.user_id)
            &&& user.username == metadata.sender
            &&& user.approved
            &&& is_within_quota(
                start.before.tables,
                shipment.user_id,
                user.transfer_quota,
                metadata.data_len,
            )
            &&& shipment.row.uploader == shipment.user_id
            &&& shipment.row.file_name == metadata.name
            &&& shipment.row.file_size == size_on_record(metadata.data_len)
            &&& metadata.data_len <= i64::MAX ==> shipment.row.file_size == start.data().len()
            &&& after.tables.files == start.before.tables.files.insert(
                shipment.row.id,
                shipment.row,
            )
            &&& grows_by(
                start.before.tables,
                after.tables,
                shipment.user_id,
                size_on_record(metadata.data_len),
            )
            &&& metadata.data_len <= i64::MAX ==> grows_by(
                start.before.tables,
                after.tables,
                shipment.user_id,
                start.data().len() as int,
            )
            &&& start.setup().storage_dir is Some
            &&& after.disk == start.before.disk.insert(start.path(shipment), start.data())
            &&& after.tables.users.dom() == start.before.tables.users.dom()
            &&& forall|id: Text| #[trigger]
                after.tables.users.contains_key(id) ==> after.tables.users[id].username
                    == start.before.tables.users[id].username
            &&& forall|k: int|
                0 <= k < metadata.recipients.len() ==> start.holds_record_for(
                    shipment,
                    #[trigger] metadata.recipients[k],
                    after,
                )
            &&& forall|id: Text| #[trigger]
                start.before.tables.records.contains_key(id) ==> after.tables.records.contains_pair(
                    id,
                    start.before.tables.records[id],
                )
            &&& forall|id: Text| #[trigger]
                after.tables.records.contains_key(id) && !start.before.tables.records.contains_key(
                    id,
                ) ==> exists|k: int| #[trigger]
                    start.is_record_of(shipment, after.tables.records[id], k)
        }),
{
    let metadata = shipment.offer.metadata;
    let end = metadata.recipients.len() as int;
    let delivering = start.delivering(shipment);
    let accepted = choose|accepted: World| #[trigger]
        start.is_accepted(shipment.offer, shipment.user_id, accepted) && Transferring::adding_file(
            shipment.offer,
            accepted,
        ).adds(shipment.row, shipment.stored) && shipment.stored.faults >= start.before.faults
            && accepted.tables.consistent() && shipment.stored.tables.consistent();
    assert(start.before.tables.users.contains_key(shipment.row.uploader));
    assert(start.before.tables.users.contains_key(shipment.user_id));
    let rows = choose|rows: Seq<TransferRecord<Text>>| #[trigger]
        delivering.is_delivered(rows, end, after);
    adding_records(shipment.received.tables, rows);
    offered_data(start, shipment.offer, shipment.stored.payload);
    let user_id = shipment.user_id;
    let grown = Tables {
        files: start.before.tables.files.insert(shipment.row.id, shipment.row),
        ..start.before.tables
    };
    assert(after.tables.files_of(user_id) =~= grown.files_of(user_id));
    assert forall|ids: Seq<Text>, more: Seq<Text>| #[trigger]
        lists_ids(ids, start.before.tables.files_of(user_id)) && #[trigger] lists_ids(
            more,
            after.tables.files_of(user_id),
        ) implies size_total(more, after.tables.files) == size_total(
        ids,
        start.before.tables.files,
    ) + size_on_record(metadata.data_len) by {
        total_grows(start.before.tables, user_id, shipment.row, ids, more);
    }
    assert forall|k: int| 0 <= k < metadata.recipients.len() implies start.holds_record_for(
        shipment,
        #[trigger] metadata.recipients[k],
        after,
    ) by {
        assert(delivering.is_reached(rows, k));
        let j = choose|j: int| 0 <= j < rows.len() && delivering.reaches(#[trigger] rows[j], k);
        assert(delivering.serves_below(rows[j], end));
        assert(after.tables.records.contains_pair(rows[j].id, rows[j]));
        assert(after.tables.users.contains_key(rows[j].recipient));
        assert(after.tables.records.contains_key(rows[j].id));
    }
    assert forall|id: Text| #[trigger]
        after.tables.records.contains_key(id) && !start.before.tables.records.contains_key(
            id,
        ) implies exists|k: int| #[trigger]
        start.is_record_of(shipment, after.tables.records[id], k) by {
        let j = choose|j: int| 0 <= j < rows.len() && (#[trigger] rows[j]).id == id;
        assert(after.tables.records.contains_pair(rows[j].id, rows[j]));
        assert(delivering.serves_below(rows[j], end));
        let k = choose|k: int| 0 <= k < end && #[trigger] delivering.serves(rows[j], k);
        assert(start.before.tables.users.contains_key(rows[j].sender));
        let time = choose|time: Timestamp| #[trigger]
            delivering.period.covers(time) && is_later_by(
                rows[j].expires_on,
                time,
                60 * delivering.parcel.lifetime_mins->0,
            );
        assert(start.period.covers(time));
        records_are_numbered_on(shipment.received.tables, rows, j);
        assert(start.is_record_of(shipment, rows[j], k));
    }
}

/// What a recipient is shown of a completed upload: the name of its sender, the
/// key, header and nonce that were uploaded for the recipient, and the name and
/// the size of the file, which is the number of its bytes.
pub proof fn completed_transfer_is_shown(
    start: Transferring,
    shipment: Shipment,
    after: World,
    id: Text,
)
    requires
        start.before.tables.consistent(),
        start.is_completed(shipment, after),
        after.tables.records.contains_key(id),
        !start.before.tables.records.contains_key(id),
    ensures
        after.tables.shown_to(after.tables.records[id].recipient).contains(id),
        exists|k: int|
            {
                let metadata = shipment.offer.metadata;
                let item = after.tables.shown(id);
                &&& #[trigger] start.is_record_of(shipment, after.tables.records[id], k)
                &&& item.download_id == after.tables.records[id].download_id
                &&& item.sender == metadata.sender
                &&& item.shared_key == metadata.shared_keys[k]
                &&& item.shared_header == metadata.shared_header
                &&& item.shared_nonce == metadata.shared_nonce
                &&& start.period.covers(item.date_created)
                &&& item.file_name == metadata.name
                &&& metadata.data_len <= i64::MAX ==> item.file_size == start.data().len()
            },
{
    completed_transfer(start, shipment, after);
    let k = choose|k: int| #[trigger] start.is_record_of(shipment, after.tables.records[id], k);
    assert(after.tables.users.contains_key(shipment.user_id));
    assert(start.is_record_of(shipment, after.tables.records[id], k));
}

} // verus!
