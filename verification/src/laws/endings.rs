//! What holds of the length of runs: no request goes on for ever.

use crate::actions::{FileSearch, RecordRemoval, TransferCountUpdate, TransferRecordInsertion};
use crate::auth::{AuthenticatorUpdate, UpdateStep};
use crate::cleanup::{Cleanup, CleanupModel, CleanupStep};
use crate::delivery::{Delivery, DeliveryStep, FileAddition};
use crate::download::{Download, DownloadStep, RecordCleanup, RecordCleanupStep};
use crate::frame::stream;
use crate::fresh::Fresh;
use crate::laws::authenticators::{lemma_listed, Period, Updating};
use crate::laws::downloads::Downloading;
use crate::laws::expiry::Sweeping;
use crate::laws::history::Request;
use crate::laws::registration::Registration;
use crate::laws::signed_requests::{
    InboxRun, InboxRunStep, ListUsersRun, ListUsersRunStep, SigningIn,
};
use crate::laws::terms::announced_size;
use crate::laws::transfers::{offered_data, Shipment, Transferring};
use crate::models::TransferRecord;
use crate::requests::{Register, RegisterStep, SignedRequest};
use crate::sign_in::{SignIn, SignInStep};
use crate::statements::{Progress, Reply, ReplyModel, Statement};
use crate::tables::Tables;
use crate::tasks::{EventModel, TaskModel};
use crate::text::{utf8_lossy, Text};
use crate::time::Timestamp;
use crate::transfer::{Transfer, TransferModel, TransferStep};
use crate::upload::{Upload, UploadStep};
use crate::world::{runs, Labour, Lawful, Machine, Turn, World};
use vstd::prelude::*;
use vstd::set_lib::*;

verus! {

/// A machine that comes to an end.
pub trait Ending: Lawful {
    /// How many turns may still come at `step` in the world `now`.
    spec fn left(
        start: Self::Start,
        step: Progress<Self, Self::Value, Self::Error, Self::Work>,
        now: World,
    ) -> nat;

    /// With every turn there are fewer to come.
    proof fn nears(
        start: Self::Start,
        work: Self::Work,
        machine: Self,
        now: World,
        outcome: <Self::Work as Labour>::Outcome,
        fresh: Fresh<Text>,
        then: World,
    )
        requires
            Self::known(start, Progress::Ask(work, machine), now),
            work.performed(now, outcome, then),
            fresh.well_formed(),
            Self::granted(start, fresh),
        ensures
            Self::left(start, machine.after(outcome, fresh), then) < Self::left(
                start,
                Progress::Ask(work, machine),
                now,
            ),
    ;
}

/// A run has no more turns than may come at its first step.
pub proof fn run_ends<M: Ending>(
    start: M::Start,
    step: Progress<M, M::Value, M::Error, M::Work>,
    before: World,
    turns: Seq<Turn<<M::Work as Labour>::Outcome>>,
    last: Progress<M, M::Value, M::Error, M::Work>,
    after: World,
)
    requires
        M::known(start, step, before),
        runs(step, before, turns, last, after),
        forall|i: int| 0 <= i < turns.len() ==> M::granted(start, (#[trigger] turns[i]).fresh),
    ensures
        turns.len() <= M::left(start, step, before),
    decreases turns.len(),
{
    if turns.len() > 0 {
        if let Progress::Ask(work, machine) = step {
            let turn = turns[0];
            M::kept(start, work, machine, before, turn.outcome, turn.fresh, turn.after);
            M::nears(start, work, machine, before, turn.outcome, turn.fresh, turn.after);
            assert forall|i: int| 0 <= i < turns.skip(1).len() implies M::granted(
                start,
                (#[trigger] turns.skip(1)[i]).fresh,
            ) by {
                assert(turns.skip(1)[i] == turns[i + 1]);
            }
            run_ends::<M>(
                start,
                machine.after(turn.outcome, turn.fresh),
                turn.after,
                turns.skip(1),
                last,
                after,
            );
        }
    }
}

impl Ending for Register<Text> {
    open spec fn left(start: Registration, step: RegisterStep, now: World) -> nat {
        match step {
            Progress::Ask(_, Register::Checking { .. }) => 2,
            Progress::Ask(_, Register::Inserting(_)) => 1,
            _ => 0,
        }
    }

    proof fn nears(
        start: Registration,
        work: Statement<Text>,
        machine: Register<Text>,
        now: World,
        outcome: ReplyModel,
        fresh: Fresh<Text>,
        then: World,
    ) {
    }
}

/// The most turns that bringing the authenticators up to date takes.
pub open spec fn longest_update(tables: Tables) -> nat {
    let count = tables.authenticators.dom().len();
    if count < 2 {
        (10 - 2 * count) as nat
    } else {
        2 * count + 2
    }
}

/// How many turns may still come in bringing the authenticators up to date.
pub open spec fn left_of_update(step: UpdateStep, now: World) -> nat {
    let count = now.tables.authenticators.dom().len();
    match step {
        Progress::Ask(_, AuthenticatorUpdate::Filling { .. }) => longest_update(now.tables),
        Progress::Ask(_, AuthenticatorUpdate::Added { .. }) => (longest_update(now.tables)
            - 1) as nat,
        Progress::Ask(_, AuthenticatorUpdate::Trimming { .. }) => 2 * count + 2,
        Progress::Ask(_, AuthenticatorUpdate::Trimmed { .. }) => 2 * count + 1,
        Progress::Ask(_, AuthenticatorUpdate::DroppingFirst { .. }) => 5,
        Progress::Ask(_, AuthenticatorUpdate::ReplacingFirst { .. }) => 4,
        Progress::Ask(_, AuthenticatorUpdate::DroppingSecond) => 3,
        Progress::Ask(_, AuthenticatorUpdate::ReplacingSecond) => 2,
        Progress::Ask(_, AuthenticatorUpdate::Listing) => 1,
        _ => 0,
    }
}

proof fn update_nears(
    start: Updating,
    work: Statement<Text>,
    machine: AuthenticatorUpdate<Text>,
    now: World,
    outcome: ReplyModel,
    fresh: Fresh<Text>,
    then: World,
)
    requires
        start.allows(Progress::Ask(work, machine), now),
        work.performed(now, outcome, then),
    ensures
        left_of_update(machine.next(outcome, fresh), then) < left_of_update(
            Progress::Ask(work, machine),
            now,
        ),
{
    if let Reply::Authenticators(list) = outcome {
        lemma_listed(now.tables, list);
    }
}

impl Ending for AuthenticatorUpdate<Text> {
    open spec fn left(start: Updating, step: UpdateStep, now: World) -> nat {
        left_of_update(step, now)
    }

    proof fn nears(
        start: Updating,
        work: Statement<Text>,
        machine: AuthenticatorUpdate<Text>,
        now: World,
        outcome: ReplyModel,
        fresh: Fresh<Text>,
        then: World,
    ) {
        update_nears(start, work, machine, now, outcome, fresh, then);
    }
}

/// How many turns may still come in signing in.
pub open spec fn left_of_sign_in(step: SignInStep, now: World) -> nat {
    match step {
        Progress::Ask(_, SignIn::Finding { .. }) => 1 + longest_update(now.tables),
        Progress::Ask(work, SignIn::Authenticating { authentication, .. }) => left_of_update(
            Progress::Ask(work, authentication.update),
            now,
        ),
        _ => 0,
    }
}

proof fn sign_in_nears(
    start: SigningIn,
    work: Statement<Text>,
    machine: SignIn<Text>,
    now: World,
    outcome: ReplyModel,
    fresh: Fresh<Text>,
    then: World,
)
    requires
        start.allows(Progress::Ask(work, machine), now),
        work.performed(now, outcome, then),
    ensures
        left_of_sign_in(machine.next(outcome, fresh), then) < left_of_sign_in(
            Progress::Ask(work, machine),
            now,
        ),
{
    if let SignIn::Authenticating { authentication, .. } = machine {
        update_nears(
            start.updating,
            work,
            authentication.update,
            now,
            outcome,
            fresh,
            then,
        );
    }
}

impl Ending for InboxRun {
    open spec fn left(start: SigningIn, step: InboxRunStep, now: World) -> nat {
        match step {
            Progress::Ask(
                work,
                InboxRun { state: SignedRequest::SigningIn(sign_in) },
            ) => 1 + left_of_sign_in(Progress::Ask(work, sign_in), now),
            Progress::Ask(_, InboxRun { state: SignedRequest::Reading }) => 1,
            _ => 0,
        }
    }

    proof fn nears(
        start: SigningIn,
        work: Statement<Text>,
        machine: InboxRun,
        now: World,
        outcome: ReplyModel,
        fresh: Fresh<Text>,
        then: World,
    ) {
        if let SignedRequest::SigningIn(sign_in) = machine.state {
            sign_in_nears(start, work, sign_in, now, outcome, fresh, then);
        }
    }
}

impl Ending for ListUsersRun {
    open spec fn left(start: SigningIn, step: ListUsersRunStep, now: World) -> nat {
        match step {
            Progress::Ask(
                work,
                ListUsersRun { state: SignedRequest::SigningIn(sign_in) },
            ) => 1 + left_of_sign_in(Progress::Ask(work, sign_in), now),
            Progress::Ask(_, ListUsersRun { state: SignedRequest::Reading }) => 1,
            _ => 0,
        }
    }

    proof fn nears(
        start: SigningIn,
        work: Statement<Text>,
        machine: ListUsersRun,
        now: World,
        outcome: ReplyModel,
        fresh: Fresh<Text>,
        then: World,
    ) {
        if let SignedRequest::SigningIn(sign_in) = machine.state {
            sign_in_nears(start, work, sign_in, now, outcome, fresh, then);
        }
    }
}

/// How many turns may still come in clearing away a transfer.
pub open spec fn left_of_clearing(step: RecordCleanupStep) -> nat {
    match step {
        Progress::Ask(
            _,
            RecordCleanup::Removing { removal: RecordRemoval::Finding { .. }, .. },
        ) => 4,
        Progress::Ask(_, RecordCleanup::Removing { .. }) => 3,
        Progress::Ask(_, RecordCleanup::Counting { .. }) => 2,
        Progress::Ask(_, RecordCleanup::DeletingFile) => 1,
        _ => 0,
    }
}

impl Ending for Download<Text> {
    open spec fn left(start: Downloading, step: DownloadStep, now: World) -> nat {
        match step {
            Progress::Ask(work, Download::SigningIn { sign_in, .. }) => 8 + left_of_sign_in(
                Progress::Ask(work->Run_0, sign_in),
                now,
            ),
            Progress::Ask(_, Download::Searching { search: FileSearch::Record, .. }) => 8,
            Progress::Ask(_, Download::Searching { search: FileSearch::File, .. }) => 7,
            Progress::Ask(_, Download::Opening { .. }) => 6,
            Progress::Ask(work, Download::CleaningUp { cleanup, .. }) => 1 + left_of_clearing(
                Progress::Ask(work->Run_0, cleanup),
            ),
            Progress::Ask(_, Download::RemovingFile) => 1,
            _ => 0,
        }
    }

    proof fn nears(
        start: Downloading,
        work: TaskModel,
        machine: Download<Text>,
        now: World,
        outcome: EventModel,
        fresh: Fresh<Text>,
        then: World,
    ) {
        if let Download::SigningIn { sign_in, .. } = machine {
            sign_in_nears(
                start.signing_in(),
                work->Run_0,
                sign_in,
                now,
                outcome->Reply_0,
                fresh,
                then,
            );
        }
    }
}

/// How many turns may still come in receiving a file.
pub open spec fn left_of_upload(step: UploadStep, now: World) -> nat {
    match step {
        Progress::Ask(_, Upload::Creating { .. }) => 2 * now.payload.len() + 5,
        Progress::Ask(_, Upload::Writing { .. }) => 2 * now.payload.len() + 4,
        Progress::Ask(_, Upload::Receiving { .. }) => 2 * now.payload.len() + 3,
        Progress::Ask(..) => 1,
        _ => 0,
    }
}

/// How many turns may still come in inserting a record.
pub open spec fn left_of_recording(insertion: TransferRecordInsertion<Text>) -> nat {
    match insertion {
        TransferRecordInsertion::Counting { update: TransferCountUpdate::Reading { .. }, .. } => 3,
        TransferRecordInsertion::Counting { .. } => 2,
        TransferRecordInsertion::Inserting { .. } => 1,
    }
}

/// How many turns may still come in a delivery.
pub open spec fn left_of_delivery(step: DeliveryStep) -> nat {
    match step {
        Progress::Ask(_, Delivery::FindingSender(parcel)) => 4 * parcel.recipients.len() + 1,
        Progress::Ask(_, Delivery::FindingRecipient(round)) => (4 * (
        round.parcel.recipients.len() - round.index)) as nat,
        Progress::Ask(_, Delivery::Recording { round, insertion }) => (4 * (
        round.parcel.recipients.len() - round.index - 1) + left_of_recording(insertion)) as nat,
        _ => 0,
    }
}

/// How many recipients are named in the upload that is the payload.
pub open spec fn recipients_in(before: World) -> nat {
    let body = stream(before.payload);
    match (before.parse)(utf8_lossy(body.subrange(8, 8 + announced_size(body)))) {
        Some(metadata) => metadata.recipients.len(),
        None => 0,
    }
}

impl Transferring {

    /// How many turns may come from the first step of storing the data on.
    pub open spec fn left_of_storing(self, now: World) -> nat {
        2 * now.payload.len() + 4 * recipients_in(self.before) + 6
    }

    proof fn lemma_recipients(self, shipment: Shipment)
        requires
            self.is_stored(shipment),
        ensures
            shipment.offer.metadata.recipients.len() == recipients_in(self.before),
    {
        let accepted = choose|accepted: World| #[trigger]
            self.is_accepted(shipment.offer, shipment.user_id, accepted)
                && Transferring::adding_file(shipment.offer, accepted).adds(
                shipment.row,
                shipment.stored,
            ) && shipment.stored.faults >= self.before.faults && accepted.tables.consistent()
                && shipment.stored.tables.consistent();
        offered_data(self, shipment.offer, accepted.payload);
    }
}

impl Ending for TransferModel {
    open spec fn left(start: Transferring, step: TransferStep, now: World) -> nat {
        let storing = start.left_of_storing(now);
        match step {
            Progress::Ask(_, Transfer::Receiving { .. }) => storing + 6 + longest_update(
                now.tables,
            ),
            Progress::Ask(_, Transfer::Parsing { .. }) => storing + 5 + longest_update(now.tables),
            Progress::Ask(_, Transfer::Finding(_)) => storing + 4 + longest_update(now.tables),
            Progress::Ask(work, Transfer::Authenticating { authentication, .. }) => storing + 3
                + left_of_update(Progress::Ask(work->Run_0, authentication.update), now),
            Progress::Ask(_, Transfer::Measuring { .. }) => storing + 3,
            Progress::Ask(
                _,
                Transfer::AddingFile { addition: FileAddition::Finding { .. }, .. },
            ) => storing + 2,
            Progress::Ask(_, Transfer::AddingFile { .. }) => storing + 1,
            Progress::Ask(work, Transfer::Writing { upload, .. }) => left_of_upload(
                Progress::Ask(work, upload),
                now,
            ) + 4 * recipients_in(start.before) + 1,
            Progress::Ask(work, Transfer::Delivering(delivery)) => left_of_delivery(
                Progress::Ask(work->Run_0, delivery),
            ),
            _ => 0,
        }
    }

    proof fn nears(
        start: Transferring,
        work: TaskModel,
        machine: TransferModel,
        now: World,
        outcome: EventModel,
        fresh: Fresh<Text>,
        then: World,
    ) {
        match machine {
            Transfer::Authenticating { offer, user_id, authentication, .. } => {
                let signing_in = start.signing_in(offer.metadata, now.payload);
                update_nears(
                    signing_in.updating,
                    work->Run_0,
                    authentication.update,
                    now,
                    outcome->Reply_0,
                    fresh,
                    then,
                );
            },
            Transfer::Writing { parcel, upload } => {
                let shipment = choose|shipment: Shipment|
                    {
                        &&& #[trigger] start.is_stored(shipment)
                        &&& start.setup().storage_dir is Some
                        &&& parcel == start.parcel(shipment)
                        &&& start.uploading(shipment).allows(Progress::Ask(work, upload), now)
                    };
                start.lemma_recipients(shipment);
            },
            Transfer::Delivering(delivery) => {
                let shipment = choose|shipment: Shipment| #[trigger]
                    start.is_received(shipment) && start.delivering(shipment).allows(
                        Progress::Ask(work->Run_0, delivery),
                        now,
                    );
                assert(start.delivering(shipment).allows(
                    Progress::Ask(work->Run_0, delivery),
                    now,
                ));
            },
            _ => {},
        }
    }
}

/// There are no more expired records than records.
proof fn lemma_expired(tables: Tables, expired: Seq<TransferRecord<Text>>, time: Timestamp)
    requires
        tables.well_formed(),
        tables.lists_expired(expired, time),
    ensures
        expired.len() <= tables.records.dom().len(),
{
    let ids = Seq::new(expired.len(), |i: int| expired[i].id);
    assert forall|id: Text| ids.to_set().contains(id) implies tables.records.dom().contains(
        id,
    ) by {
        let i = ids.index_of(id);
        assert(tables.records.contains_pair(expired[i].id, expired[i]));
    }
    ids.unique_seq_to_set();
    lemma_len_subset(ids.to_set(), tables.records.dom());
}

impl Ending for CleanupModel {
    open spec fn left(start: Sweeping, step: CleanupStep, now: World) -> nat {
        match step {
            Progress::Ask(_, Cleanup::Listing { .. }) => 5 * start.before.tables.records.dom().len()
                + 1,
            Progress::Ask(_, Cleanup::DeletingRecord(sweep)) => (5 * sweep.expired.len() - 2
                * sweep.index) as nat,
            Progress::Ask(_, Cleanup::Counting(sweep)) => (5 * sweep.expired.len() - 2 * sweep.index
                - 1) as nat,
            Progress::Ask(_, Cleanup::FindingFile(purge)) => (3 * (purge.queue.len()
                - purge.index)) as nat,
            Progress::Ask(_, Cleanup::DeletingFile { purge, .. }) => (3 * (purge.queue.len()
                - purge.index) - 1) as nat,
            Progress::Ask(_, Cleanup::RemovingFile(purge)) => (3 * (purge.queue.len() - purge.index)
                - 2) as nat,
            _ => 0,
        }
    }

    proof fn nears(
        start: Sweeping,
        work: TaskModel,
        machine: CleanupModel,
        now: World,
        outcome: EventModel,
        fresh: Fresh<Text>,
        then: World,
    ) {
        if let Cleanup::Listing { .. } = machine {
            if let Reply::Records(expired) = outcome->Reply_0 {
                if !outcome->Reply_0.is_fault() {
                    lemma_expired(start.before.tables, expired, start.time);
                }
            }
        }
    }
}

impl Request {
    /// How many turns the request has taken.
    pub open spec fn length(self) -> nat {
        match self {
            Request::Register { turns, .. } => turns.len(),
            Request::Lookup { .. } => 1,
            Request::CurrentAuthenticator { turns, .. } => turns.len(),
            Request::Inbox { turns, .. } => turns.len(),
            Request::ListUsers { turns, .. } => turns.len(),
            Request::Upload { turns, .. } => turns.len(),
            Request::Fetch { turns, .. } => turns.len(),
            Request::CleanUp { turns, .. } => turns.len(),
        }
    }

    /// How many turns the request may take in the world `before`.
    pub open spec fn limit(self, before: World) -> nat {
        let update = longest_update(before.tables);
        match self {
            Request::Register { .. } => 2,
            Request::Lookup { .. } => 1,
            Request::CurrentAuthenticator { .. } => update,
            Request::Inbox { .. } => update + 2,
            Request::ListUsers { .. } => update + 2,
            Request::Upload { .. } => 2 * before.payload.len() + 4 * recipients_in(before) + update
                + 12,
            Request::Fetch { .. } => update + 9,
            Request::CleanUp { .. } => 5 * before.tables.records.dom().len() + 1,
        }
    }
}

/// No request goes on for ever: each has a limit of turns, which depends on the
/// number of authenticators, on the chunks and recipients of an upload, and on
/// the number of records that may have expired. A run that is not broken off is
/// therefore answered, refused or abandoned.
pub proof fn requests_end(request: Request, before: World, after: World, time: Timestamp)
    requires
        before.tables.consistent(),
        request.is_run(before, after),
        request.is_until(time),
    ensures
        request.length() <= request.limit(before),
{
    let period = Period { from: Timestamp { secs: i64::MIN, nanos: 0 }, to: time };
    let updating = Updating { period, before };
    match request {
        Request::Register { payload, settings, turns, last } => {
            let start = Registration { payload, settings, before };
            run_ends(start, Register::first(payload, settings), before, turns, last, after);
        },
        Request::Lookup { .. } => {},
        Request::CurrentAuthenticator { turns, last } => {
            run_ends(updating, AuthenticatorUpdate::first(), before, turns, last, after);
        },
        Request::Inbox { payload, turns, last } => {
            let start = SigningIn {
                username: payload.username,
                signed_authenticator: payload.signed_authenticator,
                updating,
            };
            run_ends(start, InboxRun::first(payload), before, turns, last, after);
        },
        Request::ListUsers { payload, turns, last } => {
            let start = SigningIn {
                username: payload.username,
                signed_authenticator: payload.signed_authenticator,
                updating,
            };
            run_ends(start, ListUsersRun::first(payload), before, turns, last, after);
        },
        Request::Upload { settings, turns, last } => {
            let start = Transferring { settings, period, before };
            assert(before.payload.skip(0) =~= before.payload);
            assert(before.payload.take(0) =~= Seq::empty());
            run_ends(start, TransferModel::first(settings), before, turns, last, after);
        },
        Request::Fetch { payload, storage_dir, turns, last } => {
            let start = Downloading { payload, storage_dir, period, before };
            run_ends(start, Download::first(payload, storage_dir), before, turns, last, after);
        },
        Request::CleanUp { storage_dir, now, turns, last } => {
            let start = Sweeping { storage_dir, time: now, before };
            run_ends(start, CleanupModel::first(storage_dir, now), before, turns, last, after);
        },
    }
}

} // verus!
