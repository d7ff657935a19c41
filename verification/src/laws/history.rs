//! What holds over any number of requests.

use crate::auth::{
    Authentication, AuthenticationStep, AuthenticatorUpdate, UpdateStep,
};
use crate::cleanup::{CleanupModel, CleanupStep};
use crate::download::{Download, DownloadStep};
use crate::laws::authenticators::{
    authenticators_are_renewed, is_outdated, is_signature_of, Authenticating, Period, Updating,
};
use crate::laws::downloads::{downloading, Downloading};
use crate::laws::expiry::{sweeping, Sweeping};
use crate::laws::registration::{registering, registering_is_consistent, Registration};
use crate::laws::signed_requests::{
    inbox_shows_own_transfers, list_users_names_approved_users, InboxRun, InboxRunStep,
    ListUsersRun, ListUsersRunStep,
};
use crate::laws::succession::{fewer_records_count_on, leading_goes_on, spent_stays_spent};
use crate::laws::transfers::{completed_transfer, transferring, Shipment, Transferring};
use crate::laws::waiting::{
    downloads_leave_waiting_files, sweeping_leaves_waiting_files, uploads_leave_waiting_files,
    waiting_file_is_found, Waiting,
};
use crate::models::{Authenticator, User};
use crate::payloads::{
    DownloadRequestPayload, InboxRequestPayload, ListUsersRequestPayload, RegisterRequestPayload,
};
use crate::requests::{current_authenticator, Register, RegisterStep};
use crate::responses::{
    refused, server_error, Refusal, Response, BAD_REQUEST, INTERNAL_SERVER_ERROR, OK,
};
use crate::settings::Settings;
use crate::statements::{Progress, ReplyModel, Statement};
use crate::tasks::{EventModel, Task};
use crate::text::{decimal, Text};
use crate::time::Timestamp;
use crate::transfer::{TransferModel, TransferStep};
use crate::world::{run_keeps, runs, Labour, Turn, World};
use vstd::prelude::*;
use vstd::utf8::*;

verus! {

/// A request, or a pass of the clean-up, with the turns of its run and the step
/// that it came to.
pub enum Request {
    Register {
        payload: RegisterRequestPayload<Text>,
        settings: Settings<Text>,
        turns: Seq<Turn<ReplyModel>>,
        last: RegisterStep,
    },
    Lookup { username: Text, reply: ReplyModel },
    CurrentAuthenticator { turns: Seq<Turn<ReplyModel>>, last: UpdateStep },
    Inbox {
        payload: InboxRequestPayload<Text>,
        turns: Seq<Turn<ReplyModel>>,
        last: InboxRunStep,
    },
    ListUsers {
        payload: ListUsersRequestPayload<Text>,
        turns: Seq<Turn<ReplyModel>>,
        last: ListUsersRunStep,
    },
    Upload { settings: Settings<Text>, turns: Seq<Turn<EventModel>>, last: TransferStep },
    Fetch {
        payload: DownloadRequestPayload<Text>,
        storage_dir: Option<Text>,
        turns: Seq<Turn<EventModel>>,
        last: DownloadStep,
    },
    CleanUp {
        storage_dir: Option<Text>,
        now: Timestamp,
        turns: Seq<Turn<EventModel>>,
        last: CleanupStep,
    },
}

/// Whether in all turns the clock shows `time` at the latest.
pub open spec fn are_until<Outcome>(turns: Seq<Turn<Outcome>>, time: Timestamp) -> bool {
    forall|i: int|
        0 <= i < turns.len() ==> !time.is_before((#[trigger] turns[i]).fresh.now)
            && !time.is_before(turns[i].fresh.timestamp)
}

impl Request {
    /// Whether the request is served in the world `before`, and `after` is what
    /// the world is then, be it answered or broken off.
    pub open spec fn is_run(self, before: World, after: World) -> bool {
        match self {
            Request::Register { payload, settings, turns, last } => runs(
                Register::first(payload, settings),
                before,
                turns,
                last,
                after,
            ),
            Request::Lookup { username, reply } => (Statement::UserByUsername {
                username,
            }).performed(before, reply, after),
            Request::CurrentAuthenticator { turns, last } => runs(
                AuthenticatorUpdate::first(),
                before,
                turns,
                last,
                after,
            ),
            Request::Inbox { payload, turns, last } => runs(
                InboxRun::first(payload),
                before,
                turns,
                last,
                after,
            ),
            Request::ListUsers { payload, turns, last } => runs(
                ListUsersRun::first(payload),
                before,
                turns,
                last,
                after,
            ),
            Request::Upload { settings, turns, last } => runs(
                TransferModel::first(settings),
                before,
                turns,
                last,
                after,
            ),
            Request::Fetch { payload, storage_dir, turns, last } => runs(
                Download::first(payload, storage_dir),
                before,
                turns,
                last,
                after,
            ),
            Request::CleanUp { storage_dir, now, turns, last } => runs(
                CleanupModel::first(storage_dir, now),
                before,
                turns,
                last,
                after,
            ),
        }
    }

    /// Whether the clock shows `time` at the latest while the request is served.
    pub open spec fn is_until(self, time: Timestamp) -> bool {
        match self {
            Request::Register { turns, .. } => are_until(turns, time),
            Request::Lookup { .. } => true,
            Request::CurrentAuthenticator { turns, .. } => are_until(turns, time),
            Request::Inbox { turns, .. } => are_until(turns, time),
            Request::ListUsers { turns, .. } => are_until(turns, time),
            Request::Upload { turns, .. } => are_until(turns, time),
            Request::Fetch { turns, .. } => are_until(turns, time),
            Request::CleanUp { now, turns, .. } => !time.is_before(now) && are_until(turns, time),
        }
    }
}

/// A request, and the worlds before and after it.
pub struct Episode {
    pub request: Request,
    pub before: World,
    pub after: World,
}

/// Whether two worlds have the same tables and files. What else there is in a
/// world, such as the payload of a request, may differ.
pub open spec fn are_alike(a: World, b: World) -> bool {
    a.tables == b.tables && a.disk == b.disk
}

/// Whether the requests of `history`, one after the other and until `time`, lead
/// from the world `before` to the world `after`.
pub open spec fn happens(
    history: Seq<Episode>,
    before: World,
    after: World,
    time: Timestamp,
) -> bool
    decreases history.len(),
{
    if history.len() == 0 {
        are_alike(before, after)
    } else {
        let episode = history[0];
        &&& are_alike(before, episode.before)
        &&& episode.request.is_run(episode.before, episode.after)
        &&& episode.request.is_until(time)
        &&& happens(history.skip(1), episode.after, after, time)
    }
}

/// Whatever is asked of the server, the tables stay consistent, download ids
/// count up, and authenticators stay until their grace period is over.
pub proof fn request_leads_on(request: Request, before: World, after: World, time: Timestamp)
    requires
        before.tables.consistent(),
        request.is_run(before, after),
        request.is_until(time),
    ensures
        after.tables.consistent(),
        before.tables.leads_to(after.tables, time),
{
    let period = Period { from: Timestamp { secs: i64::MIN, nanos: 0 }, to: time };
    let updating = Updating { period, before };
    match request {
        Request::Register { payload, settings, turns, last } => {
            let start = Registration { payload, settings, before };
            registering(start, turns, last, after);
            registering_is_consistent(start, turns, last, after);
            if start.is_registered(after) {
                let row = choose|row: User<Text>| #[trigger]
                    start.makes(row) && !before.tables.users.contains_key(row.id) && after
                        == start.with_user(row);
                assert(after.tables.records == before.tables.records);
            }
        },
        Request::Lookup { username, reply } => {},
        Request::CurrentAuthenticator { turns, last } => {
            authenticators_are_renewed(updating, turns, last, after);
            fewer_records_count_on(before.tables, after.tables);
        },
        Request::Inbox { payload, turns, last } => {
            inbox_shows_own_transfers(payload, updating, turns, last, after);
            fewer_records_count_on(before.tables, after.tables);
        },
        Request::ListUsers { payload, turns, last } => {
            list_users_names_approved_users(payload, updating, turns, last, after);
            fewer_records_count_on(before.tables, after.tables);
        },
        Request::Upload { settings, turns, last } => {
            transferring(Transferring { settings, period, before }, turns, last, after);
        },
        Request::Fetch { payload, storage_dir, turns, last } => {
            downloading(
                Downloading { payload, storage_dir, period, before },
                turns,
                last,
                after,
            );
        },
        Request::CleanUp { storage_dir, now, turns, last } => {
            sweeping(Sweeping { storage_dir, time: now, before }, turns, last, after);
            fewer_records_count_on(before.tables, after.tables);
        },
    }
}

/// So it is over any number of requests.
pub proof fn history_leads_on(history: Seq<Episode>, before: World, after: World, time: Timestamp)
    requires
        before.tables.consistent(),
        happens(history, before, after, time),
    ensures
        after.tables.consistent(),
        before.tables.leads_to(after.tables, time),
    decreases history.len(),
{
    if history.len() > 0 {
        let episode = history[0];
        request_leads_on(episode.request, episode.before, episode.after, time);
        history_leads_on(history.skip(1), episode.after, after, time);
        leading_goes_on(before.tables, episode.after.tables, after.tables, time);
    }
}

impl Waiting {
    /// Whether a request is none for the file, uses the same directory, and
    /// draws other ids than the one under which the file is stored.
    pub open spec fn is_left_alone(self, episode: Episode) -> bool {
        match episode.request {
            Request::Upload { settings, turns, .. } => {
                &&& settings.storage_dir == Some(self.storage_dir)
                &&& forall|i: int|
                    0 <= i < turns.len() ==> (#[trigger] turns[i]).fresh.id != self.row.file_url
            },
            Request::Fetch { payload, storage_dir, .. } => {
                &&& storage_dir == Some(self.storage_dir)
                &&& !self.is_wanted(payload, episode.before.tables)
            },
            Request::CleanUp { storage_dir, .. } => storage_dir == Some(self.storage_dir),
            _ => true,
        }
    }
}

/// A file that waits for its recipient stays where it is until it is asked for
/// or the record expires, whatever else is asked of the server.
pub proof fn request_leaves_waiting_files(waiting: Waiting, episode: Episode, time: Timestamp)
    requires
        episode.before.tables.consistent(),
        waiting.is_safe(episode.before),
        waiting.is_left_alone(episode),
        episode.request.is_run(episode.before, episode.after),
        episode.request.is_until(time),
        time.is_before(waiting.record.expires_on),
    ensures
        waiting.is_safe(episode.after),
{
    let before = episode.before;
    let after = episode.after;
    let period = Period { from: Timestamp { secs: i64::MIN, nanos: 0 }, to: time };
    let updating = Updating { period, before };
    match episode.request {
        Request::Register { payload, settings, turns, last } => {
            registering(Registration { payload, settings, before }, turns, last, after);
        },
        Request::Lookup { username, reply } => {},
        Request::CurrentAuthenticator { turns, last } => {
            authenticators_are_renewed(updating, turns, last, after);
        },
        Request::Inbox { payload, turns, last } => {
            inbox_shows_own_transfers(payload, updating, turns, last, after);
        },
        Request::ListUsers { payload, turns, last } => {
            list_users_names_approved_users(payload, updating, turns, last, after);
        },
        Request::Upload { settings, turns, last } => {
            uploads_leave_waiting_files(waiting, settings, before, turns, last, after);
        },
        Request::Fetch { payload, storage_dir, turns, last } => {
            let start = Downloading { payload, storage_dir, period, before };
            downloads_leave_waiting_files(waiting, start, turns, last, after);
        },
        Request::CleanUp { storage_dir, now, turns, last } => {
            let start = Sweeping { storage_dir, time: now, before };
            sweeping_leaves_waiting_files(waiting, start, turns, last, after);
        },
    }
}

/// So it is over any number of requests.
pub proof fn history_leaves_waiting_files(
    waiting: Waiting,
    history: Seq<Episode>,
    before: World,
    after: World,
    time: Timestamp,
)
    requires
        before.tables.consistent(),
        waiting.is_safe(before),
        forall|i: int| 0 <= i < history.len() ==> waiting.is_left_alone(#[trigger] history[i]),
        happens(history, before, after, time),
        time.is_before(waiting.record.expires_on),
    ensures
        waiting.is_safe(after),
    decreases history.len(),
{
    if history.len() > 0 {
        let episode = history[0];
        request_leads_on(episode.request, episode.before, episode.after, time);
        request_leaves_waiting_files(waiting, episode, time);
        assert forall|i: int| 0 <= i < history.skip(1).len() implies waiting.is_left_alone(
            #[trigger] history.skip(1)[i],
        ) by {
            assert(history.skip(1)[i] == history[i + 1]);
        }
        history_leaves_waiting_files(waiting, history.skip(1), episode.after, after, time);
    }
}

/// Whoever is a recipient of a completed upload and asks for it by the number of
/// the record, before the record expires, is led to the file that was uploaded,
/// with all its data, whatever else is asked of the server in between: as long
/// as no recipient of the upload has asked for it, no other file has the same
/// random id, and the directory stays the same. Where nothing fails that might
/// have succeeded, the request is refused only if the user cannot sign in.
pub proof fn sent_file_is_received(
    sending: Transferring,
    shipment: Shipment,
    sent: World,
    waiting: Waiting,
    history: Seq<Episode>,
    time: Timestamp,
    start: Downloading,
    turns: Seq<Turn<EventModel>>,
    last: DownloadStep,
    after: World,
)
    requires
        sending.before.tables.consistent(),
        sent.tables.consistent(),
        sending.is_completed(shipment, sent),
        waiting.row == shipment.row,
        waiting.record.file_id == shipment.row.id,
        sent.tables.records.contains_pair(waiting.record.id, waiting.record),
        waiting.data == sending.data(),
        sending.settings.storage_dir == Some(waiting.storage_dir),
        happens(history, sent, start.before, time),
        forall|i: int| 0 <= i < history.len() ==> waiting.is_left_alone(#[trigger] history[i]),
        history.len() > 0 ==> time.is_before(waiting.record.expires_on)
            && waiting.has_its_place(sent.tables),
        start.storage_dir == Some(waiting.storage_dir),
        start.payload.download_id == waiting.record.download_id,
        start.signing_in().names(waiting.record.recipient),
        runs(Download::first(start.payload, start.storage_dir), start.before, turns, last, after),
        forall|i: int|
            0 <= i < turns.len() ==> start.period.covers((#[trigger] turns[i]).fresh.now),
    ensures
        sending.data().len() == shipment.offer.metadata.data_len,
        last matches Progress::Ask(Task::OpenFile(path), _) ==> path == sending.path(shipment)
            && after.disk.contains_pair(path, sending.data()),
        last matches Progress::Failed(refusal) ==> after.faults > start.before.faults
            || after.mishaps > start.before.mishaps || start.signing_in().refuses(refusal, after),
{
    completed_transfer(sending, shipment, sent);
    assert(waiting.is_there(sent));
    if history.len() > 0 {
        history_leads_on(history, sent, start.before, time);
        history_leaves_waiting_files(waiting, history, sent, start.before, time);
    }
    waiting_file_is_found(waiting, start, turns, last, after);
}

/// A transfer is downloaded once: when its file has been sent, no request of the
/// user for the same download id is served again, whatever is asked of the
/// server in between. Where nothing fails that might have succeeded, a user who
/// can sign in is told that the download id is invalid.
pub proof fn download_happens_once(
    first: Downloading,
    turns: Seq<Turn<EventModel>>,
    sent: World,
    history: Seq<Episode>,
    time: Timestamp,
    second: Downloading,
    later_turns: Seq<Turn<EventModel>>,
    last: DownloadStep,
    after: World,
)
    requires
        first.before.tables.consistent(),
        runs(
            Download::first(first.payload, first.storage_dir),
            first.before,
            turns,
            Progress::Done(()),
            sent,
        ),
        forall|i: int|
            0 <= i < turns.len() ==> first.period.covers((#[trigger] turns[i]).fresh.now),
        happens(history, sent, second.before, time),
        runs(
            Download::first(second.payload, second.storage_dir),
            second.before,
            later_turns,
            last,
            after,
        ),
        forall|i: int|
            0 <= i < later_turns.len() ==> second.period.covers(
                (#[trigger] later_turns[i]).fresh.now,
            ),
        second.payload.username == first.payload.username,
        second.payload.download_id == first.payload.download_id,
    ensures
        last !is Done,
        !(last matches Progress::Ask(Task::OpenFile(_), _)),
        last matches Progress::Failed(refusal) ==> {
            ||| after.faults > second.before.faults && refusal == refused(
                INTERNAL_SERVER_ERROR,
                ""@,
            )
            ||| second.signing_in().refuses(refusal, after)
            ||| refusal == refused(BAD_REQUEST, "Invalid download id"@)
        },
{
    let download_id = first.payload.download_id;
    downloading(first, turns, Progress::Done(()), sent);
    let (user_id, file_id, path, opened) = choose|
        user_id: Text,
        file_id: Text,
        path: Text,
        opened: World,
    | #[trigger]
        first.is_served(user_id, file_id, path, opened, sent);
    let tables = first.before.tables;
    let id = choose|id: Text| #[trigger]
        tables.is_known_by(id, user_id, download_id) && tables.records[id].file_id == file_id;
    assert(tables.records.contains_key(id));
    assert(tables.is_numbered(id));
    let number = choose|number: int|
        number <= tables.users[user_id].transfer_count && tables.records[id].download_id
            == #[trigger] decimal(number);
    assert(sent.tables.users == tables.users);
    assert(download_id == decimal(number));
    if sent.tables.knows(user_id, download_id) {
        let other = choose|other: Text| #[trigger]
            sent.tables.is_known_by(other, user_id, download_id);
        assert(opened.tables.is_known_by(other, user_id, download_id));
        assert(opened.tables.known_by(user_id, download_id).contains(other));
    }
    assert(sent.tables.is_spent(user_id, download_id));
    history_leads_on(history, sent, second.before, time);
    spent_stays_spent(sent.tables, second.before.tables, user_id, download_id);
    downloading(second, later_turns, last, after);
    assert forall|other: Text| second.signing_in().names(other) implies other == user_id by {
        assert(sent.tables.users.contains_key(user_id));
        assert(second.before.tables.users.contains_key(user_id));
        assert(second.before.tables.users.contains_key(other));
    }
    assert forall|file: Text| !#[trigger] second.asks_for(user_id, file) by {
        if second.asks_for(user_id, file) {
            let other = choose|other: Text| #[trigger]
                second.before.tables.is_known_by(other, user_id, download_id)
                    && second.before.tables.records[other].file_id == file;
            assert(second.before.tables.knows(user_id, download_id));
        }
    }
}

/// A user who signs the authenticator that was handed out is not turned away
/// before its grace period is over, whatever is asked of the server in between.
pub proof fn current_authenticator_is_accepted(
    handing_out: Updating,
    turns: Seq<Turn<ReplyModel>>,
    list: Seq<Authenticator<Text>>,
    handed_out: World,
    history: Seq<Episode>,
    time: Timestamp,
    start: Authenticating,
    later_turns: Seq<Turn<ReplyModel>>,
    last: AuthenticationStep,
    after: World,
)
    requires
        handing_out.before.tables.consistent(),
        runs(
            AuthenticatorUpdate::first(),
            handing_out.before,
            turns,
            Progress::Done(list),
            handed_out,
        ),
        forall|i: int|
            0 <= i < turns.len() ==> handing_out.period.covers((#[trigger] turns[i]).fresh.now),
        happens(history, handed_out, start.updating.before, time),
        runs(
            Authentication::first(
                start.approved,
                start.signing_public_key,
                start.signed_authenticator,
            ),
            start.updating.before,
            later_turns,
            last,
            after,
        ),
        forall|i: int|
            0 <= i < later_turns.len() ==> start.updating.period.covers(
                (#[trigger] later_turns[i]).fresh.now,
            ),
        start.approved,
        is_signature_of(
            start.signing_public_key,
            start.signed_authenticator,
            encode_utf8(list.last().authenticator),
        ),
        !is_outdated(list.last(), time),
        !is_outdated(list.last(), start.updating.period.to),
    ensures
        current_authenticator(Progress::Done(list)) == Progress::<
            AuthenticatorUpdate<Text>,
            Response<Text>,
            Refusal<Text>,
            Statement<Text>,
        >::Done(Response { status: OK, body: list.last().authenticator }),
        last matches Progress::Failed(refusal) ==> refusal == server_error() && (after.faults
            > start.updating.before.faults || !start.updating.fits_calendar()),
{
    authenticators_are_renewed(handing_out, turns, Progress::Done(list), handed_out);
    history_leads_on(history, handed_out, start.updating.before, time);
    run_keeps(
        start,
        Authentication::first(
            start.approved,
            start.signing_public_key,
            start.signed_authenticator,
        ),
        start.updating.before,
        later_turns,
        last,
        after,
    );
    let id = list.last().id;
    assert(handed_out.tables.authenticators.contains_pair(list[1].id, list[1]));
    assert(handed_out.tables.authenticators.contains_key(id));
    assert(start.updating.before.tables.authenticators.contains_key(id));
    assert(after.tables.authenticators.contains_key(id));
}

} // verus!
