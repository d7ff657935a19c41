//! What holds of deliveries to several recipients.

use crate::actions::TransferRecordInsertion;
use crate::delivery::{Delivery, DeliveryModel, DeliveryStep, ParcelModel, Round, RoundModel};
use crate::fresh::Fresh;
use crate::laws::authenticators::Period;
use crate::laws::records::{
    adding_records, counting_is_consistent, recording_is_consistent, Recording,
};
use crate::laws::succession::counting_on_goes_on;
use crate::laws::terms::is_later_by;
use crate::models::TransferRecord;
use crate::statements::{Progress, Reply, ReplyModel, Statement, StoreError};
use crate::tables::Tables;
use crate::text::Text;
use crate::time::Timestamp;
use crate::world::{run_keeps, runs, Labour, Lawful, Machine, Turn, World};
use vstd::prelude::*;

verus! {

/// What is delivered, and the world and period in which that takes place.
pub struct Delivering {
    pub parcel: ParcelModel,
    pub period: Period,
    pub before: World,
}

impl Delivering {
    /// Whether the user with this id has this name.
    pub open spec fn is_named(self, user_id: Text, username: Text) -> bool {
        let users = self.before.tables.users;
        users.contains_key(user_id) && users[user_id].username == username
    }

    /// Whether `row` is for the recipient in place `k`.
    pub open spec fn reaches(self, row: TransferRecord<Text>, k: int) -> bool {
        self.is_named(row.recipient, self.parcel.recipients[k])
    }

    /// Whether the lifetime of the parcel, counted from a time in the period,
    /// ends at this time.
    pub open spec fn expires(self, expires_on: Timestamp) -> bool {
        &&& self.parcel.lifetime_mins is Some
        &&& exists|start: Timestamp| #[trigger]
            self.period.covers(start) && is_later_by(
                expires_on,
                start,
                60 * self.parcel.lifetime_mins->0,
            )
    }

    /// Whether `row` is as the parcel asks for the recipient in place `k`, the
    /// first place with that name.
    pub open spec fn serves(self, row: TransferRecord<Text>, k: int) -> bool {
        &&& self.reaches(row, k)
        &&& forall|i: int|
            0 <= i < k ==> #[trigger] self.parcel.recipients[i] != self.parcel.recipients[k]
        &&& self.is_named(row.sender, self.parcel.sender)
        &&& k < self.parcel.shared_keys.len()
        &&& row.shared_key == self.parcel.shared_keys[k]
        &&& row.shared_header == self.parcel.shared_header
        &&& row.shared_nonce == self.parcel.shared_nonce
        &&& row.file_id == self.parcel.file_id
        &&& self.period.covers(row.date_created)
        &&& self.expires(row.expires_on)
    }

    /// Whether `row` is as the parcel asks for a recipient in a place below
    /// `end`.
    pub open spec fn serves_below(self, row: TransferRecord<Text>, end: int) -> bool {
        exists|k: int| 0 <= k < end && #[trigger] self.serves(row, k)
    }

    /// Whether one of `rows` is for the recipient in place `k`.
    pub open spec fn is_reached(self, rows: Seq<TransferRecord<Text>>, k: int) -> bool {
        exists|j: int| 0 <= j < rows.len() && self.reaches(#[trigger] rows[j], k)
    }

    /// Whether `rows` are the records of the recipients in the places below
    /// `end`, one for each user, and nothing else but the transfer counts of
    /// these users has changed.
    pub open spec fn is_delivered(
        self,
        rows: Seq<TransferRecord<Text>>,
        end: int,
        now: World,
    ) -> bool {
        &&& self.before.tables.can_take_all(rows)
        &&& now.tables == self.before.tables.with_records(rows)
        &&& now == (World { tables: now.tables, faults: now.faults, ..self.before })
        &&& forall|i: int, j: int|
            0 <= i < j < rows.len() ==> (#[trigger] rows[i]).recipient != (
            #[trigger] rows[j]).recipient
        &&& forall|j: int| 0 <= j < rows.len() ==> self.serves_below(#[trigger] rows[j], end)
        &&& forall|k: int| 0 <= k < end ==> #[trigger] self.is_reached(rows, k)
    }

    /// Whether the lifetime of the parcel is known, and the calendar has its
    /// end.
    pub open spec fn has_expiry(self) -> bool {
        &&& self.parcel.lifetime_mins is Some
        &&& forall|time: Timestamp|
            time.valid() && #[trigger] self.period.covers(time) ==> time.later_by(
                60 * self.parcel.lifetime_mins->0,
            ) is Some
    }

    /// Whether the recipient in place `k` can be given a record: a user has
    /// that name and can be sent one more transfer, and there is a key.
    pub open spec fn can_serve(self, k: int) -> bool {
        &&& self.before.tables.is_taken(self.parcel.recipients[k])
        &&& forall|id: Text| #[trigger]
            self.is_named(id, self.parcel.recipients[k])
                ==> self.before.tables.users[id].transfer_count < i32::MAX
        &&& k < self.parcel.shared_keys.len()
        &&& self.has_expiry()
    }

    /// Whether the parcel can be delivered: the sender exists, and each
    /// recipient can be given a record.
    pub open spec fn is_possible(self) -> bool {
        &&& self.before.tables.is_taken(self.parcel.sender)
        &&& forall|k: int|
            0 <= k < self.parcel.recipients.len() ==> #[trigger] self.can_serve(k)
    }

    /// Whether the delivery cannot go beyond place `end`: the sender does not
    /// exist, or the recipient in that place cannot be given a record.
    pub open spec fn is_blocked(self, end: int) -> bool {
        ||| end == 0 && !self.before.tables.is_taken(self.parcel.sender)
        ||| end < self.parcel.recipients.len() && !self.can_serve(end)
    }

    /// Whether `ids` are the recipients of `rows`.
    pub open spec fn are_recipients(ids: Seq<Text>, rows: Seq<TransferRecord<Text>>) -> bool {
        &&& ids.len() == rows.len()
        &&& forall|j: int| 0 <= j < rows.len() ==> (#[trigger] rows[j]).recipient == ids[j]
    }

    /// The recording of a transfer to this recipient.
    pub open spec fn recording(
        self,
        round: RoundModel,
        recipient_id: Text,
        before: World,
    ) -> Recording {
        Recording {
            transfer: round.transfer_to(recipient_id),
            lifetime_mins: self.parcel.lifetime_mins,
            period: self.period,
            before,
        }
    }

    /// Whether the round is one of this delivery.
    pub open spec fn is_at(self, round: RoundModel) -> bool {
        &&& round.parcel == self.parcel
        &&& self.is_named(round.sender_id, self.parcel.sender)
        &&& round.index < self.parcel.recipients.len()
    }

    /// Whether the recipients in the places below that of the round have their
    /// records.
    pub open spec fn has_come_to(
        self,
        rows: Seq<TransferRecord<Text>>,
        round: RoundModel,
        recipients_added: Seq<Text>,
        now: World,
    ) -> bool {
        &&& self.is_delivered(rows, round.index as int, now)
        &&& Self::are_recipients(recipients_added, rows)
    }

    /// Whether the recipient in the place of the round is being given a record.
    pub open spec fn is_recording(
        self,
        rows: Seq<TransferRecord<Text>>,
        middle: World,
        round: RoundModel,
        step: Progress<TransferRecordInsertion<Text>, Text, StoreError, Statement<Text>>,
        now: World,
    ) -> bool {
        let added = round.recipients_added;
        &&& added.len() > 0
        &&& self.has_come_to(rows, round, added.drop_last(), middle)
        &&& middle.tables.consistent()
        &&& middle.faults >= self.before.faults
        &&& !added.drop_last().contains(added.last())
        &&& self.is_named(added.last(), self.parcel.recipients[round.index as int])
        &&& round.index < self.parcel.shared_keys.len()
        &&& self.recording(round, added.last(), middle).allows(step, now)
    }

    /// Whether the delivery stopped at place `end`: the recipients in the places
    /// below have their records, and their names are all taken. Where nothing
    /// failed that might have succeeded, nothing else has changed, and the
    /// delivery cannot go beyond that place; otherwise one more transfer may be
    /// counted to the recipient in that place.
    pub open spec fn is_stopped(
        self,
        rows: Seq<TransferRecord<Text>>,
        end: int,
        middle: World,
        now: World,
    ) -> bool {
        &&& self.is_delivered(rows, end, middle)
        &&& 0 <= end <= self.parcel.recipients.len()
        &&& forall|k: int|
            0 <= k < end ==> self.before.tables.is_taken(#[trigger] self.parcel.recipients[k])
        &&& now.faults == self.before.faults ==> self.is_blocked(end) && now.tables
            == middle.tables
        &&& now.tables == middle.tables || exists|user_id: Text|
            end < self.parcel.recipients.len() && #[trigger] self.is_named(
                user_id,
                self.parcel.recipients[end],
            ) && now.tables == middle.tables.counting(user_id)
    }

    /// Whether the delivery stopped at some place.
    pub open spec fn is_partial(self, now: World) -> bool {
        exists|rows: Seq<TransferRecord<Text>>, end: int, middle: World| #[trigger]
            self.is_stopped(rows, end, middle, now)
    }

    /// What is known at `step` in the world `now`.
    pub open spec fn allows(self, step: DeliveryStep, now: World) -> bool {
        &&& self.parcel.recipients.len() <= usize::MAX
        &&& self.before.tables.consistent()
        &&& now.tables.consistent()
        &&& now == (World { tables: now.tables, faults: now.faults, ..self.before })
        &&& now.tables == (Tables {
            users: now.tables.users,
            records: now.tables.records,
            ..self.before.tables
        })
        &&& self.before.tables.counts_on(now.tables)
        &&& now.faults >= self.before.faults
        &&& match step {
            Progress::Ask(work, Delivery::FindingSender(parcel)) => {
                &&& now == self.before
                &&& parcel == self.parcel
                &&& work == (Statement::UserByUsername { username: parcel.sender })
            },
            Progress::Ask(work, Delivery::FindingRecipient(round)) => {
                &&& self.is_at(round)
                &&& work == (Statement::UserByUsername {
                    username: self.parcel.recipients[round.index as int],
                })
                &&& exists|rows: Seq<TransferRecord<Text>>| #[trigger]
                    self.has_come_to(rows, round, round.recipients_added, now)
            },
            Progress::Ask(work, Delivery::Recording { round, insertion }) => {
                &&& self.is_at(round)
                &&& exists|rows: Seq<TransferRecord<Text>>, middle: World| #[trigger]
                    self.is_recording(rows, middle, round, Progress::Ask(work, insertion), now)
            },
            Progress::Done(()) => exists|rows: Seq<TransferRecord<Text>>| #[trigger]
                self.is_delivered(rows, self.parcel.recipients.len() as int, now),
            Progress::Failed(_) => {
                &&& self.is_partial(now)
                &&& now.faults > self.before.faults || !self.is_possible()
            },
        }
    }

    /// The names of recipients who have their records are taken.
    proof fn reached_names_are_taken(
        self,
        rows: Seq<TransferRecord<Text>>,
        end: int,
        now: World,
    )
        requires
            self.is_delivered(rows, end, now),
        ensures
            forall|k: int|
                0 <= k < end ==> self.before.tables.is_taken(#[trigger] self.parcel.recipients[k]),
    {
        assert forall|k: int| 0 <= k < end implies self.before.tables.is_taken(
            #[trigger] self.parcel.recipients[k],
        ) by {
            assert(self.is_reached(rows, k));
            let j = choose|j: int| 0 <= j < rows.len() && self.reaches(#[trigger] rows[j], k);
            assert(self.before.tables.users.contains_key(rows[j].recipient));
        }
    }

    /// When the recipients in the places below that of the round and in it have
    /// their records, the delivery goes on to the place behind it.
    proof fn goes_on(self, rows: Seq<TransferRecord<Text>>, round: RoundModel, now: World)
        requires
            self.parcel.recipients.len() <= usize::MAX,
            self.before.tables.consistent(),
            now.tables.consistent(),
            now.faults >= self.before.faults,
            self.is_at(round),
            self.is_delivered(rows, round.index + 1, now),
            Self::are_recipients(round.recipients_added, rows),
        ensures
            self.allows(round.advancing(), now),
    {
        adding_records(self.before.tables, rows);
        if round.index + 1 < self.parcel.recipients.len() {
            let next = Round { index: (round.index + 1) as usize, ..round };
            assert(self.has_come_to(rows, next, next.recipients_added, now));
        }
    }

    /// From a step of the recording on, what is known of it is known of the
    /// delivery.
    proof fn records(
        self,
        rows: Seq<TransferRecord<Text>>,
        middle: World,
        round: RoundModel,
        step: Progress<TransferRecordInsertion<Text>, Text, StoreError, Statement<Text>>,
        now: World,
    )
        requires
            self.parcel.recipients.len() <= usize::MAX,
            self.before.tables.consistent(),
            self.is_at(round),
            self.is_recording(rows, middle, round, step, now),
        ensures
            self.allows(round.recorded(step), now),
    {
        let added = round.recipients_added;
        let recipient = added.last();
        let start = self.recording(round, recipient, middle);
        let k = round.index as int;
        adding_records(self.before.tables, rows);
        counting_on_goes_on(self.before.tables, middle.tables, now.tables);
        self.reached_names_are_taken(rows, k, middle);
        if start.is_counted(now) {
            counting_is_consistent(middle.tables, recipient);
        }
        match step {
            Progress::Ask(work, insertion) => {},
            Progress::Done(id) => {
                let row = choose|row: TransferRecord<Text>| #[trigger]
                    start.adds(row, now) && row.id == id;
                recording_is_consistent(middle.tables, row);
                let more = rows.push(row);
                assert(more.drop_last() =~= rows);
                assert(self.serves(row, k)) by {
                    assert forall|i: int| 0 <= i < k implies #[trigger] self.parcel.recipients[i]
                        != self.parcel.recipients[k] by {
                        assert(self.is_reached(rows, i));
                        let j = choose|j: int|
                            0 <= j < rows.len() && self.reaches(#[trigger] rows[j], i);
                        assert(added.drop_last()[j] == rows[j].recipient);
                        assert(added.drop_last().contains(rows[j].recipient));
                        assert(self.before.tables.users.contains_key(rows[j].recipient));
                        assert(self.before.tables.users.contains_key(recipient));
                    }
                }
                assert forall|i: int, j: int| 0 <= i < j < more.len() implies (
                #[trigger] more[i]).recipient != (#[trigger] more[j]).recipient by {
                    assert(rows[i] == more[i]);
                    if j < rows.len() {
                        assert(rows[j] == more[j]);
                    } else {
                        assert(added.drop_last()[i] == rows[i].recipient);
                        assert(added.drop_last().contains(rows[i].recipient));
                    }
                }
                assert forall|j: int| 0 <= j < more.len() implies self.serves_below(
                    #[trigger] more[j],
                    k + 1,
                ) by {
                    if j < rows.len() {
                        assert(rows[j] == more[j]);
                        assert(self.serves_below(rows[j], k));
                        let place = choose|place: int|
                            0 <= place < k && #[trigger] self.serves(rows[j], place);
                        assert(self.serves(more[j], place));
                    }
                }
                assert forall|i: int| 0 <= i < k + 1 implies #[trigger] self.is_reached(more, i) by {
                    if i < k {
                        assert(self.is_reached(rows, i));
                        let j = choose|j: int|
                            0 <= j < rows.len() && self.reaches(#[trigger] rows[j], i);
                        assert(self.reaches(more[j], i));
                    } else {
                        assert(self.reaches(more[rows.len() as int], i));
                    }
                }
                assert(self.is_delivered(more, k + 1, now));
                assert(Self::are_recipients(added, more));
                self.goes_on(more, round, now);
            },
            Progress::Failed(_) => {
                assert(self.is_delivered(rows, k, middle));
                assert(middle.tables.users.contains_key(recipient));
                if self.can_serve(k) {
                    assert(self.is_named(recipient, self.parcel.recipients[k]));
                    assert(self.before.tables.users.contains_key(recipient));
                    assert forall|i: int| 0 <= i < rows.len() implies (
                    #[trigger] rows[i]).recipient != recipient by {
                        assert(added.drop_last()[i] == rows[i].recipient);
                        assert(added.drop_last().contains(rows[i].recipient));
                    }
                    assert(start.is_possible());
                }
                assert(self.is_stopped(rows, k, middle, now));
            },
        }
    }

    /// What is known stays known from one step to the next.
    pub proof fn advance(
        self,
        work: Statement<Text>,
        machine: DeliveryModel,
        now: World,
        outcome: ReplyModel,
        fresh: Fresh<Text>,
        then: World,
    )
        requires
            self.allows(Progress::Ask(work, machine), now),
            work.performed(now, outcome, then),
            fresh.well_formed(),
            self.period.covers(fresh.timestamp),
        ensures
            self.allows(machine.next(outcome, fresh), then),
    {
        let none = Seq::<TransferRecord<Text>>::empty();
        assert(self.is_delivered(none, 0, self.before));
        match machine {
            Delivery::FindingSender(parcel) => {
                assert(self.is_delivered(none, 0, then));
                assert(self.is_delivered(none, 0, now));
                if outcome !is User {
                    assert(self.is_stopped(none, 0, now, then));
                }
                if let Reply::User(sender) = outcome {
                    let round = Round {
                        parcel,
                        sender_id: sender.id,
                        recipients_added: Seq::empty(),
                        index: 0,
                    };
                    assert(self.has_come_to(none, round, round.recipients_added, then));
                }
            },
            Delivery::FindingRecipient(round) => {
                let rows = choose|rows: Seq<TransferRecord<Text>>| #[trigger]
                    self.has_come_to(rows, round, round.recipients_added, now);
                let added = round.recipients_added;
                let k = round.index as int;
                adding_records(self.before.tables, rows);
                self.reached_names_are_taken(rows, k, now);
                assert(self.is_delivered(rows, k, then));
                if let Reply::User(user) = outcome {
                    assert(self.before.tables.users.contains_key(user.id));
                    assert(self.is_named(user.id, self.parcel.recipients[k]));
                    if added.contains(user.id) {
                        let place = added.index_of(user.id);
                        assert(self.reaches(rows[place], k));
                        assert forall|i: int| 0 <= i < k + 1 implies #[trigger] self.is_reached(
                            rows,
                            i,
                        ) by {
                            if i == k {
                                assert(self.reaches(rows[place], i));
                            }
                        }
                        assert forall|j: int| 0 <= j < rows.len() implies self.serves_below(
                            #[trigger] rows[j],
                            k + 1,
                        ) by {
                            assert(self.serves_below(rows[j], k));
                        }
                        assert(self.is_delivered(rows, k + 1, then));
                        self.goes_on(rows, round, then);
                    } else if round.index >= round.parcel.shared_keys.len() {
                        assert(!self.can_serve(k));
                        assert(self.is_stopped(rows, k, then, then));
                    } else {
                        let with_user = Round {
                            recipients_added: added.push(user.id),
                            ..round
                        };
                        assert(with_user.recipients_added.drop_last() =~= added);
                        let start = self.recording(with_user, user.id, then);
                        start.begins(fresh);
                        let step = TransferRecordInsertion::first(
                            start.transfer,
                            start.lifetime_mins,
                            fresh,
                        );
                        assert(self.is_recording(rows, then, with_user, step, then));
                        self.records(rows, then, with_user, step, then);
                    }
                } else {
                    let name = self.parcel.recipients[k];
                    if !outcome.is_fault() && self.before.tables.is_taken(name) {
                        let id = choose|id: Text| #[trigger]
                            self.before.tables.users.contains_key(id)
                                && self.before.tables.users[id].username == name;
                        assert(now.tables.users.contains_key(id));
                    }
                    assert(self.is_stopped(rows, k, now, then));
                }
            },
            Delivery::Recording { round, insertion } => {
                let (rows, middle) = choose|rows: Seq<TransferRecord<Text>>, middle: World| #[trigger]
                    self.is_recording(rows, middle, round, Progress::Ask(work, insertion), now);
                let start = self.recording(round, round.recipients_added.last(), middle);
                start.advance(work, insertion, now, outcome, fresh, then);
                let step = insertion.next(outcome, fresh);
                assert(self.is_recording(rows, middle, round, step, then));
                self.records(rows, middle, round, step, then);
            },
        }
    }
}

impl Machine for DeliveryModel {
    type Work = Statement<Text>;

    type Value = ();

    type Error = StoreError;

    open spec fn after(self, outcome: ReplyModel, fresh: Fresh<Text>) -> DeliveryStep {
        self.next(outcome, fresh)
    }
}

impl Lawful for DeliveryModel {
    type Start = Delivering;

    open spec fn granted(start: Delivering, fresh: Fresh<Text>) -> bool {
        start.period.covers(fresh.timestamp)
    }

    open spec fn known(start: Delivering, step: DeliveryStep, now: World) -> bool {
        start.allows(step, now)
    }

    proof fn kept(
        start: Delivering,
        work: Statement<Text>,
        machine: DeliveryModel,
        now: World,
        outcome: ReplyModel,
        fresh: Fresh<Text>,
        then: World,
    ) {
        start.advance(work, machine, now, outcome, fresh, then);
    }
}

/// A delivery gives each user who is named as a recipient one record, with the
/// key of the first place with that name, under the user's next number; a user
/// who is named several times gets one. Nothing else changes. The tables stay
/// consistent however far it comes. It fails only where the database fails or
/// the parcel cannot be delivered; it stops at the first place that it cannot
/// pass then, and the recipients in the places below have their records.
pub proof fn delivering(
    start: Delivering,
    turns: Seq<Turn<ReplyModel>>,
    last: DeliveryStep,
    after: World,
)
    requires
        start.before.tables.consistent(),
        start.parcel.recipients.len() <= usize::MAX,
        runs(DeliveryModel::first(start.parcel), start.before, turns, last, after),
        forall|i: int|
            0 <= i < turns.len() ==> start.period.covers((#[trigger] turns[i]).fresh.timestamp),
    ensures
        after.tables.consistent(),
        start.before.tables.counts_on(after.tables),
        last is Done ==> exists|rows: Seq<TransferRecord<Text>>| #[trigger]
            start.is_delivered(rows, start.parcel.recipients.len() as int, after),
        last is Failed ==> start.is_partial(after) && (after.faults > start.before.faults
            || !start.is_possible()),
{
    run_keeps(start, DeliveryModel::first(start.parcel), start.before, turns, last, after);
}

} // verus!
