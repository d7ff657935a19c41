//! What holds of single steps: what is written into new rows is what was drawn
//! and read from the clock in that step, and what a machine ends with is what
//! the database replied.

use crate::actions::{
    FileSearch, Insertion, NewTransfer, RecordRemoval, TransferCountUpdate,
    TransferRecordInsertion,
};
use crate::auth::{Authentication, AuthenticatorUpdate};
use crate::cleanup::{Cleanup, CleanupModel, CleanupStep, FilePurgeModel, SweepModel};
use crate::delivery::{Delivery, DeliveryModel, FileAddition, RoundModel};
use crate::download::Download;
use crate::fresh::Fresh;
use crate::laws::authenticators::has_run_out;
use crate::laws::terms::{
    files_are_stored_in_the_directory, has_lines, is_later_by, lines_are_joined_whole, path_in,
    size_on_record,
};
use crate::models::{Authenticator, FileMetadataItem, TransferRecord, User};
use crate::requests::{inbox_next, list_users_next, Register, SignedRequest};
use crate::sign_in::SignIn;
use crate::statements::{Progress, Reply, ReplyModel, Statement, StoreError};
use crate::tasks::{EventModel, Task};
use crate::text::{decimal, i64_value, Text};
use crate::time::Timestamp;
use crate::transfer::{Transfer, TransferModel};
use vstd::prelude::*;

verus! {

/// Whether an authenticator that is inserted is the one that was drawn, and
/// lives for three hundred seconds from the time on the clock.
pub open spec fn is_drawn_authenticator(row: Authenticator<Text>, fresh: Fresh<Text>) -> bool {
    &&& row.id == fresh.id
    &&& row.authenticator == fresh.authenticator
    &&& is_later_by(row.expiration_date, fresh.now, 300)
}

/// Every authenticator that is inserted is the random text that was drawn for
/// it, and lives for five minutes.
pub proof fn inserted_authenticators_are_drawn(
    machine: AuthenticatorUpdate<Text>,
    reply: ReplyModel,
    fresh: Fresh<Text>,
)
    ensures
        machine.next(reply, fresh) matches Progress::Ask(Statement::InsertAuthenticator(row), _)
            ==> is_drawn_authenticator(row, fresh),
{
}

/// So it is wherever a user signs in.
pub proof fn authenticators_are_drawn_where_users_sign_in(
    authentication: Authentication<Text>,
    sign_in: SignIn<Text>,
    request: SignedRequest<Text>,
    download: Download<Text>,
    event: EventModel,
    reply: ReplyModel,
    fresh: Fresh<Text>,
)
    ensures
        authentication.next(reply, fresh) matches Progress::Ask(
            Statement::InsertAuthenticator(row),
            _,
        ) ==> is_drawn_authenticator(row, fresh),
        sign_in.next(reply, fresh) matches Progress::Ask(Statement::InsertAuthenticator(row), _)
            ==> is_drawn_authenticator(row, fresh),
        inbox_next(request, reply, fresh) matches Progress::Ask(
            Statement::InsertAuthenticator(row),
            _,
        ) ==> is_drawn_authenticator(row, fresh),
        list_users_next(request, reply, fresh) matches Progress::Ask(
            Statement::InsertAuthenticator(row),
            _,
        ) ==> is_drawn_authenticator(row, fresh),
        download.next(event, fresh) matches Progress::Ask(
            Task::Run(Statement::InsertAuthenticator(row)),
            _,
        ) ==> is_drawn_authenticator(row, fresh),
{
}

/// The time by which the authenticators are judged, once it was read.
pub open spec fn reading(machine: AuthenticatorUpdate<Text>) -> Option<Timestamp> {
    match machine {
        AuthenticatorUpdate::Filling { clock } => clock,
        AuthenticatorUpdate::Added { now } => Some(now),
        AuthenticatorUpdate::Trimming { now } => Some(now),
        AuthenticatorUpdate::Trimmed { now } => Some(now),
        AuthenticatorUpdate::DroppingFirst { now, .. } => Some(now),
        AuthenticatorUpdate::ReplacingFirst { now, .. } => Some(now),
        _ => None,
    }
}

/// The authenticators are judged by one reading of the clock, the first. Of two,
/// the first one is replaced exactly where its grace period was over then, and
/// the second one after it in the same way.
pub proof fn one_reading_of_the_clock_decides(
    machine: AuthenticatorUpdate<Text>,
    reply: ReplyModel,
    fresh: Fresh<Text>,
)
    ensures
        machine.next(reply, fresh) matches Progress::Ask(_, next) ==> {
            let time = if reading(machine) is Some {
                reading(machine)->0
            } else {
                fresh.now
            };
            &&& reading(next) is Some ==> reading(next) == Some(time)
            &&& reply matches Reply::Authenticators(list) ==> {
                &&& next is DroppingFirst ==> 0 < list.len() <= 2 && has_run_out(list[0], time)
                    && machine.next(reply, fresh)->Ask_0 == (Statement::DeleteAuthenticator {
                    id: list[0].id,
                })
                &&& next is DroppingFirst && list.len() == 2 ==> next->DroppingFirst_second == Some(
                    list[1],
                )
                &&& next is Listing ==> 0 < list.len() <= 2 && !has_run_out(list[0], time)
                &&& next is Trimmed <==> list.len() > 2
                &&& next is Added <==> list.len() < 2 && machine is Filling
            }
            &&& machine matches AuthenticatorUpdate::ReplacingFirst { second, .. } ==> {
                &&& second is Some
                &&& next is DroppingSecond <==> has_run_out(second->0, time)
                &&& next is DroppingSecond ==> machine.next(reply, fresh)->Ask_0
                    == (Statement::DeleteAuthenticator { id: second->0.id })
                &&& next is DroppingSecond || next is Listing
            }
        },
{
}

/// Whether a pass goes on behind the place of the sweep, with this queue: to the
/// next expired record, and from the last one to the first file of the queue, if
/// there is one.
pub open spec fn goes_on_behind(sweep: SweepModel, queue: Seq<Text>, step: CleanupStep) -> bool {
    if sweep.index + 1 < sweep.expired.len() {
        &&& step is Ask
        &&& step->Ask_0 == Task::<Text, Seq<u8>>::Run(
            Statement::DeleteRecord { id: sweep.expired[sweep.index + 1].id },
        )
        &&& step->Ask_1 matches Cleanup::DeletingRecord(next) && next.index == sweep.index + 1
            && next.expired == sweep.expired && next.queue == queue && next.storage_dir
            == sweep.storage_dir
    } else if queue.len() > 0 {
        &&& step is Ask
        &&& step->Ask_0 == Task::<Text, Seq<u8>>::Run(Statement::FileById { id: queue[0] })
        &&& step->Ask_1 matches Cleanup::FindingFile(purge) && purge.index == 0 && purge.queue
            == queue && purge.storage_dir == sweep.storage_dir
    } else {
        step is Done
    }
}

/// Whether a pass goes on behind the place of the purge: to the next file of the
/// queue, if there is one.
pub open spec fn goes_on_after(purge: FilePurgeModel, step: CleanupStep) -> bool {
    if purge.index + 1 < purge.queue.len() {
        &&& step is Ask
        &&& step->Ask_0 == Task::<Text, Seq<u8>>::Run(
            Statement::FileById { id: purge.queue[purge.index + 1] },
        )
        &&& step->Ask_1 matches Cleanup::FindingFile(next) && next.index == purge.index + 1
            && next.queue == purge.queue && next.storage_dir == purge.storage_dir
    } else {
        step is Done
    }
}

/// What cannot be deleted is passed over: a pass goes on to the next record or
/// file whatever the database and the file system reply. A file is put in the
/// queue exactly where no record has it any more, and stands there once.
pub proof fn passes_go_on(machine: CleanupModel, event: EventModel)
    requires
        machine.well_formed(),
        machine matches Cleanup::DeletingRecord(sweep) ==> sweep.expired.len() <= usize::MAX,
        machine matches Cleanup::Counting(sweep) ==> sweep.expired.len() <= usize::MAX,
        machine matches Cleanup::FindingFile(purge) ==> purge.queue.len() <= usize::MAX,
        machine matches Cleanup::DeletingFile { purge, .. } ==> purge.queue.len() <= usize::MAX,
        machine matches Cleanup::RemovingFile(purge) ==> purge.queue.len() <= usize::MAX,
    ensures
        ({
            let step = machine.next(event);
            match machine {
                Cleanup::Listing { storage_dir } => match event.reply() {
                    Reply::Records(expired) if expired.len() > 0 => {
                        &&& step is Ask
                        &&& step->Ask_0 == Task::<Text, Seq<u8>>::Run(
                            Statement::DeleteRecord { id: expired[0].id },
                        )
                        &&& step->Ask_1 matches Cleanup::DeletingRecord(sweep) && sweep.index == 0
                            && sweep.expired == expired && sweep.queue.len() == 0
                            && sweep.storage_dir == storage_dir
                    },
                    _ => step is Done,
                },
                Cleanup::DeletingRecord(sweep) => if event.reply() is Executed {
                    &&& step is Ask
                    &&& step->Ask_0 == Task::<Text, Seq<u8>>::Run(
                        Statement::CountReferences {
                            file_id: sweep.expired[sweep.index as int].file_id,
                        },
                    )
                    &&& step->Ask_1 matches Cleanup::Counting(same) && same == sweep
                } else {
                    goes_on_behind(sweep, sweep.queue, step)
                },
                Cleanup::Counting(sweep) => {
                    let file_id = sweep.expired[sweep.index as int].file_id;
                    if event.reply() matches Reply::Count(0) {
                        if sweep.queue.contains(file_id) {
                            goes_on_behind(sweep, sweep.queue, step)
                        } else {
                            goes_on_behind(sweep, sweep.queue.push(file_id), step)
                        }
                    } else {
                        goes_on_behind(sweep, sweep.queue, step)
                    }
                },
                Cleanup::FindingFile(purge) => match event.reply() {
                    Reply::File(file) => {
                        &&& step is Ask
                        &&& step->Ask_0 == Task::<Text, Seq<u8>>::Run(
                            Statement::DeleteFile { id: purge.queue[purge.index as int] },
                        )
                        &&& step->Ask_1 matches Cleanup::DeletingFile { purge: same, file_url }
                            && same == purge && file_url == file.file_url
                    },
                    _ => goes_on_after(purge, step),
                },
                Cleanup::DeletingFile { purge, file_url } => if event.reply() !is Executed {
                    goes_on_after(purge, step)
                } else if purge.storage_dir is None {
                    step is Failed && step->Failed_0 is Abandon
                } else {
                    &&& step is Ask
                    &&& step->Ask_0 == Task::<Text, Seq<u8>>::RemoveFile(
                        path_in(purge.storage_dir->0, file_url),
                    )
                    &&& step->Ask_1 matches Cleanup::RemovingFile(same) && same == purge
                },
                Cleanup::RemovingFile(purge) => goes_on_after(purge, step),
            }
        }),
{
    if let Cleanup::DeletingFile { purge, file_url } = machine {
        if purge.storage_dir is Some {
            files_are_stored_in_the_directory(purge.storage_dir->0, file_url);
        }
    }
}

/// A user is inserted under the id that was drawn and with the date on the clock,
/// with the name and keys of the request, no transfers, the quota that stands in
/// the settings, and approved exactly where the settings say that no approval is
/// required.
pub proof fn inserted_users_are_as_asked_for(
    machine: Register<Text>,
    reply: ReplyModel,
    fresh: Fresh<Text>,
)
    ensures
        machine.next(reply, fresh) matches Progress::Ask(Statement::InsertUser(row), _) ==> {
            &&& machine is Checking
            &&& row.id == fresh.id
            &&& row.date_registered == fresh.timestamp
            &&& row.username == machine->payload.username
            &&& row.public_key == machine->payload.public_key
            &&& row.signing_public_key == machine->payload.signing_public_key
            &&& row.transfer_count == 0
            &&& machine->settings.default_quota_bytes is Some
            &&& i64_value(machine->settings.default_quota_bytes->0) == Some(row.transfer_quota)
            &&& machine->settings.require_approval == Some(
                if row.approved {
                    seq!['f', 'a', 'l', 's', 'e']
                } else {
                    seq!['t', 'r', 'u', 'e']
                },
            )
        },
{
    reveal_strlit("true");
    reveal_strlit("false");
    assert("true"@ =~= seq!['t', 'r', 'u', 'e']);
    assert("false"@ =~= seq!['f', 'a', 'l', 's', 'e']);
}

/// Whether a file that is inserted has the id that was drawn and the date on the
/// clock.
pub open spec fn is_drawn_file(row: FileMetadataItem<Text>, fresh: Fresh<Text>) -> bool {
    row.id == fresh.id && row.date_created == fresh.timestamp
}

/// A file is to be stored under an id that was drawn before, and its row is
/// inserted under another one, with the name and the size that were announced.
pub proof fn inserted_files_are_as_announced(
    sender: Text,
    name: Text,
    data_len: u64,
    machine: FileAddition<Text>,
    reply: ReplyModel,
    fresh: Fresh<Text>,
)
    ensures
        FileAddition::first(sender, name, data_len, fresh) matches Progress::Ask(_, first) && {
            &&& first is Finding
            &&& first->Finding_file_url == fresh.id
            &&& first->file_name == name
            &&& first->data_len == data_len
        },
        machine.next(reply, fresh) matches Progress::Ask(Statement::InsertFile(row), next) ==> {
            &&& machine is Finding
            &&& is_drawn_file(row, fresh)
            &&& reply matches Reply::User(user) && row.uploader == user.id
            &&& row.file_name == machine->file_name
            &&& row.file_url == machine->Finding_file_url
            &&& row.file_size == size_on_record(machine->data_len)
            &&& next is Inserting
            &&& next->Inserting_file_url == row.file_url
            &&& next->insertion.id == row.id
        },
        machine.next(reply, fresh) matches Progress::Done(stored) ==> {
            &&& machine is Inserting
            &&& stored.file_url == machine->Inserting_file_url
            &&& stored.file_id == machine->insertion.id
        },
{
}

/// A record is drafted under the id that was drawn, for a lifetime that is
/// counted from the time on the clock.
pub proof fn records_are_drafted_as_asked_for(
    transfer: NewTransfer<Text>,
    lifetime: Option<i64>,
    fresh: Fresh<Text>,
)
    ensures
        TransferRecordInsertion::first(transfer, lifetime, fresh) matches Progress::Ask(work, first)
            ==> {
            &&& work == (Statement::UserById { id: transfer.recipient_id })
            &&& first is Counting
            &&& first->draft.id == fresh.id
            &&& first->draft.sender == transfer.sender_id
            &&& first->draft.recipient == transfer.recipient_id
            &&& first->draft.shared_key == transfer.shared_key
            &&& first->draft.shared_header == transfer.shared_header
            &&& first->draft.shared_nonce == transfer.shared_nonce
            &&& first->draft.file_id == transfer.file_id
            &&& lifetime is Some
            &&& is_later_by(first->draft.expires_on, fresh.timestamp, 60 * lifetime->0)
        },
        TransferRecordInsertion::first(transfer, lifetime, fresh) !is Done,
{
}

/// A record is inserted as it was drafted, with the date on the clock, and under
/// the transfer count of its recipient, which is one more than before.
pub proof fn inserted_records_are_as_drafted(
    machine: TransferRecordInsertion<Text>,
    reply: ReplyModel,
    fresh: Fresh<Text>,
)
    ensures
        machine.next(reply, fresh) matches Progress::Ask(Statement::InsertRecord(row), next) ==> {
            &&& machine is Counting
            &&& machine->update is Writing
            &&& row.id == machine->draft.id
            &&& row.download_id == decimal(machine->update->next_count as int)
            &&& row.sender == machine->draft.sender
            &&& row.recipient == machine->draft.recipient
            &&& row.shared_key == machine->draft.shared_key
            &&& row.shared_header == machine->draft.shared_header
            &&& row.shared_nonce == machine->draft.shared_nonce
            &&& row.file_id == machine->draft.file_id
            &&& row.expires_on == machine->draft.expires_on
            &&& row.date_created == fresh.timestamp
            &&& next is Inserting
            &&& next->id == row.id
        },
        machine.next(reply, fresh) matches Progress::Ask(
            Statement::SetTransferCount { id, count },
            next,
        ) ==> {
            &&& machine is Counting
            &&& machine->update is Reading
            &&& id == machine->update->user_id
            &&& reply matches Reply::User(user) && count == user.transfer_count + 1
            &&& next is Counting
            &&& next->update is Writing
            &&& next->update->next_count == count
            &&& next->draft == machine->draft
        },
        machine.next(reply, fresh) matches Progress::Done(id) ==> machine is Inserting && id
            == machine->id,
{
}

/// Whether the draft that a step makes, if it makes one, has the id that was
/// drawn, and a lifetime that is counted from the time on the clock.
pub open spec fn drafts_what_is_drawn(
    round: RoundModel,
    next: DeliveryModel,
    fresh: Fresh<Text>,
) -> bool {
    next matches Delivery::Recording { insertion, .. } ==> {
        &&& insertion is Counting
        &&& insertion->draft.id == fresh.id
        &&& round.parcel.lifetime_mins is Some
        &&& is_later_by(
            insertion->draft.expires_on,
            fresh.timestamp,
            60 * round.parcel.lifetime_mins->0,
        )
    }
}

/// A recipient who was found gets a record under the id that was drawn, which
/// lives as long as the parcel says.
pub proof fn deliveries_draft_what_is_drawn(
    round: RoundModel,
    reply: ReplyModel,
    event: EventModel,
    fresh: Fresh<Text>,
)
    ensures
        (Delivery::FindingRecipient(round)).next(reply, fresh) matches Progress::Ask(_, next)
            ==> drafts_what_is_drawn(round, next, fresh),
        (Transfer::<Text, Seq<Text>, Seq<u8>>::Delivering(Delivery::FindingRecipient(round))).next(
            event,
            fresh,
        ) matches Progress::Ask(_, Transfer::Delivering(next)) ==> drafts_what_is_drawn(
            round,
            next,
            fresh,
        ),
{
}

/// While an upload is served, each file and each record is inserted with the date
/// on the clock, each file under the id that was drawn, and the id under which
/// the data are stored was drawn as well.
pub proof fn uploads_insert_what_is_drawn(
    machine: TransferModel,
    event: EventModel,
    fresh: Fresh<Text>,
)
    ensures
        machine.next(event, fresh) matches Progress::Ask(
            Task::Run(Statement::InsertFile(row)),
            _,
        ) ==> is_drawn_file(row, fresh),
        machine.next(event, fresh) matches Progress::Ask(
            Task::Run(Statement::InsertRecord(row)),
            _,
        ) ==> row.date_created == fresh.timestamp,
        machine.next(event, fresh) matches Progress::Ask(
            Task::Run(Statement::InsertAuthenticator(row)),
            _,
        ) ==> is_drawn_authenticator(row, fresh),
        machine is Measuring ==> (machine.next(event, fresh) matches Progress::Ask(
            _,
            Transfer::AddingFile { addition: FileAddition::Finding { file_url, .. }, .. },
        ) ==> file_url == fresh.id),
{
}

/// An insertion ends with the id of the new row exactly where it was carried out.
pub proof fn insertions_end_with_the_id(insertion: Insertion<Text>, reply: ReplyModel)
    ensures
        reply is Executed ==> insertion.next(reply) == Progress::<
            Insertion<Text>,
            Text,
            StoreError,
            Statement<Text>,
        >::Done(insertion.id),
        reply !is Executed ==> insertion.next(reply) is Failed,
{
}

/// A transfer count goes up by one, and the count that was set is what it ends
/// with; one that cannot go up is a failure.
pub proof fn transfers_are_counted_one_by_one(
    update: TransferCountUpdate<Text>,
    reply: ReplyModel,
)
    ensures
        update is Reading && reply is User ==> {
            let count = reply->User_0.transfer_count;
            &&& count == i32::MAX ==> update.next(reply) is Failed
            &&& count < i32::MAX ==> update.next(reply) is Ask && update.next(reply)->Ask_0
                == (Statement::SetTransferCount {
                id: update->user_id,
                count: (count + 1) as i32,
            })
        },
        update is Writing && reply is User ==> update.next(reply) is Done && update.next(
            reply,
        )->Done_0 == update->next_count,
        reply !is User ==> update.next(reply) is Failed,
{
}

/// The file that is found is that of the record, as the database has it.
pub proof fn files_are_found_by_their_record(search: FileSearch, reply: ReplyModel)
    ensures
        search is Record && reply is Record ==> search.next(reply) is Ask && search.next(
            reply,
        )->Ask_0 == (Statement::FileById { id: reply->Record_0.file_id }),
        search is File && reply is File ==> search.next(reply) is Done && search.next(reply)->Done_0
            == reply->File_0,
        search is Record && reply !is Record ==> search.next(reply) is Failed,
        search is File && reply !is File ==> search.next(reply) is Failed,
{
}

/// What is removed is what the user knows by the download id, and a removal ends
/// with the record that was found.
pub proof fn records_are_removed_by_their_number(
    user_id: Text,
    download_id: Text,
    record: TransferRecord<Text>,
    reply: ReplyModel,
)
    ensures
        ({
            let finding = RecordRemoval::Finding { user_id, download_id };
            let deleting = RecordRemoval::Deleting { record };
            &&& reply matches Reply::Record(found) ==> {
                &&& finding.next(reply) is Ask
                &&& finding.next(reply)->Ask_0 == (Statement::DeleteRecordsByDownload {
                    recipient: user_id,
                    download_id,
                })
                &&& finding.next(reply)->Ask_1 == (RecordRemoval::Deleting { record: found })
            }
            &&& reply !is Record ==> finding.next(reply) is Failed
            &&& reply is Executed ==> deleting.next(reply) is Done && deleting.next(reply)->Done_0
                == record
            &&& reply !is Executed ==> deleting.next(reply) is Failed
        }),
{
}

/// A user is shown the transfers just as the database replied them, in the same
/// order, and the names of the users as well.
pub proof fn replies_are_shown_in_order(reply: ReplyModel, fresh: Fresh<Text>)
    ensures
        reply matches Reply::RecordsWithFiles(items) ==> {
            let step = inbox_next(SignedRequest::Reading, reply, fresh);
            step is Done && step->Done_0 == items
        },
        reply !is RecordsWithFiles ==> inbox_next(SignedRequest::Reading, reply, fresh) is Failed,
        reply matches Reply::Usernames(names) ==> {
            let step = list_users_next(SignedRequest::Reading, reply, fresh);
            step is Done && step->Done_0.status == 200 && has_lines(
                step->Done_0.body,
                names,
            )
        },
        reply !is Usernames ==> list_users_next(SignedRequest::Reading, reply, fresh) is Failed,
{
    if let Reply::Usernames(names) = reply {
        lines_are_joined_whole(names);
    }
}

} // verus!
