//! What holds of transfer records and of the numbers by which recipients know
//! them.

use crate::actions::{NewTransfer, TransferCountUpdate, TransferDraft, TransferRecordInsertion};
use crate::fresh::Fresh;
use crate::laws::authenticators::Period;
use crate::laws::succession::counting_on_goes_on;
use crate::laws::terms::is_later_by;
use crate::models::{TransferRecord, User};
use crate::statements::{Progress, ReplyModel, Statement, StoreError};
use crate::tables::Tables;
use crate::text::{decimal, decimal_is_injective, Text};
use crate::time::Timestamp;
use crate::world::{run_keeps, runs, Labour, Lawful, Machine, Turn, World};
use vstd::prelude::*;

verus! {

impl Tables {
    /// Whether `row` can be the next record of its recipient: its download id
    /// is the number after the recipient's transfer count.
    pub open spec fn can_take(self, row: TransferRecord<Text>) -> bool {
        &&& self.users.contains_key(row.recipient)
        &&& self.users[row.recipient].transfer_count < i32::MAX
        &&& row.download_id == decimal(self.users[row.recipient].transfer_count + 1)
        &&& !self.records.contains_key(row.id)
    }

    /// The tables with one more transfer counted to a user.
    pub open spec fn counting(self, user_id: Text) -> Tables {
        self.with_count(user_id, (self.users[user_id].transfer_count + 1) as i32)
    }

    /// The tables with `row` as a new record, and counted to its recipient.
    pub open spec fn with_record(self, row: TransferRecord<Text>) -> Tables {
        Tables {
            records: self.records.insert(row.id, row),
            ..self.counting(row.recipient)
        }
    }

    /// Whether each of `rows`, one after the other, can be the next record of
    /// its recipient.
    pub open spec fn can_take_all(self, rows: Seq<TransferRecord<Text>>) -> bool
        decreases rows.len(),
    {
        rows.len() == 0 || {
            &&& self.can_take_all(rows.drop_last())
            &&& self.with_records(rows.drop_last()).can_take(rows.last())
        }
    }

    /// The tables with `rows` as new records, and counted to their recipients.
    pub open spec fn with_records(self, rows: Seq<TransferRecord<Text>>) -> Tables
        decreases rows.len(),
    {
        if rows.len() == 0 {
            self
        } else {
            self.with_records(rows.drop_last()).with_record(rows.last())
        }
    }
}

/// Counting a transfer keeps the tables consistent.
pub proof fn counting_is_consistent(tables: Tables, user_id: Text)
    requires
        tables.consistent(),
        tables.users.contains_key(user_id),
        tables.users[user_id].transfer_count < i32::MAX,
    ensures
        tables.counting(user_id).consistent(),
{
    let after = tables.counting(user_id);
    assert forall|id: Text| #[trigger] after.records.contains_key(id) implies after.is_numbered(
        id,
    ) by {
        assert(tables.is_numbered(id));
        let number = choose|number: int|
            number <= tables.users[tables.records[id].recipient].transfer_count
                && tables.records[id].download_id == #[trigger] decimal(number);
        assert(after.records[id].download_id == decimal(number));
    }
    assert forall|a: Text, b: Text| #[trigger]
        after.users.contains_key(a) && #[trigger] after.users.contains_key(b)
            && after.users[a].username == after.users[b].username implies a == b by {
        assert(tables.users.contains_key(a) && tables.users.contains_key(b));
    }
}

/// A new record under the next number of its recipient keeps the tables
/// consistent: no other record of the recipient has that number.
pub proof fn recording_is_consistent(tables: Tables, row: TransferRecord<Text>)
    requires
        tables.consistent(),
        tables.can_take(row),
    ensures
        tables.with_record(row).consistent(),
{
    counting_is_consistent(tables, row.recipient);
    let counted = tables.counting(row.recipient);
    let after = tables.with_record(row);
    let count = tables.users[row.recipient].transfer_count + 1;
    assert(after.records[row.id].download_id == decimal(count));
    assert forall|id: Text| #[trigger] after.records.contains_key(id) implies after.is_numbered(
        id,
    ) by {
        if id != row.id {
            assert(counted.is_numbered(id));
        }
    }
    assert forall|id: Text| #[trigger]
        tables.records.contains_key(id) && tables.records[id].recipient
            == row.recipient implies tables.records[id].download_id != row.download_id by {
        assert(tables.is_numbered(id));
        let number = choose|number: int|
            number <= tables.users[tables.records[id].recipient].transfer_count
                && tables.records[id].download_id == #[trigger] decimal(number);
        if decimal(number) == decimal(count) {
            decimal_is_injective(number, count);
        }
    }
    assert forall|a: Text, b: Text| #[trigger]
        after.records.contains_key(a) && #[trigger] after.records.contains_key(b)
            && after.records[a].recipient == after.records[b].recipient
            && after.records[a].download_id == after.records[b].download_id implies a == b by {
        if a != row.id {
            assert(tables.records.contains_key(a));
        }
        if b != row.id {
            assert(tables.records.contains_key(b));
        }
    }
}

/// Counting a transfer counts on.
pub proof fn counting_counts_on(tables: Tables, user_id: Text)
    requires
        tables.users.contains_key(user_id),
        tables.users[user_id].transfer_count < i32::MAX,
    ensures
        tables.counts_on(tables.counting(user_id)),
{
}

/// A record under the next number of its recipient counts on.
pub proof fn recording_counts_on(tables: Tables, row: TransferRecord<Text>)
    requires
        tables.can_take(row),
    ensures
        tables.counts_on(tables.with_record(row)),
{
    let number = tables.users[row.recipient].transfer_count + 1;
    assert(row.download_id == decimal(number));
    assert(tables.has_new_number(row));
}

/// Adding records changes nothing of the users but the transfer counts of the
/// recipients, and no record that was there.
pub proof fn adding_records(tables: Tables, rows: Seq<TransferRecord<Text>>)
    requires
        tables.can_take_all(rows),
    ensures
        tables.with_records(rows) == (Tables {
            users: tables.with_records(rows).users,
            records: tables.with_records(rows).records,
            ..tables
        }),
        tables.with_records(rows).users.dom() == tables.users.dom(),
        forall|id: Text| #[trigger]
            tables.users.contains_key(id) ==> tables.with_records(rows).users[id] == (User {
                transfer_count: tables.with_records(rows).users[id].transfer_count,
                ..tables.users[id]
            }),
        forall|id: Text| #[trigger]
            tables.users.contains_key(id) && (forall|i: int|
                0 <= i < rows.len() ==> (#[trigger] rows[i]).recipient != id)
                ==> tables.with_records(rows).users[id] == tables.users[id],
        forall|id: Text| #[trigger]
            tables.records.contains_key(id) ==> tables.with_records(rows).records.contains_pair(
                id,
                tables.records[id],
            ),
        forall|i: int|
            0 <= i < rows.len() ==> tables.with_records(rows).records.contains_pair(
                (#[trigger] rows[i]).id,
                rows[i],
            ),
        forall|id: Text| #[trigger]
            tables.with_records(rows).records.contains_key(id) ==> tables.records.contains_key(id)
                || exists|i: int| 0 <= i < rows.len() && (#[trigger] rows[i]).id == id,
        tables.consistent() ==> tables.with_records(rows).consistent(),
        tables.counts_on(tables.with_records(rows)),
    decreases rows.len(),
{
    if rows.len() > 0 {
        let fewer = rows.drop_last();
        let middle = tables.with_records(fewer);
        let after = tables.with_records(rows);
        let row = rows.last();
        adding_records(tables, fewer);
        assert(after == middle.with_record(row));
        assert(after.users.dom() =~= tables.users.dom());
        assert forall|i: int| 0 <= i < rows.len() implies after.records.contains_pair(
            (#[trigger] rows[i]).id,
            rows[i],
        ) by {
            if i < fewer.len() {
                assert(fewer[i] == rows[i]);
                assert(middle.records.contains_pair(fewer[i].id, fewer[i]));
            }
        }
        assert forall|id: Text| #[trigger]
            after.records.contains_key(id) implies tables.records.contains_key(id) || exists|i: int|
            0 <= i < rows.len() && (#[trigger] rows[i]).id == id by {
            if id == row.id {
                assert(rows[rows.len() - 1].id == id);
            } else if !tables.records.contains_key(id) {
                assert(middle.records.contains_key(id));
                let i = choose|i: int| 0 <= i < fewer.len() && (#[trigger] fewer[i]).id == id;
                assert(rows[i].id == id);
            }
        }
        assert forall|id: Text| #[trigger]
            tables.users.contains_key(id) && (forall|i: int|
                0 <= i < rows.len() ==> (#[trigger] rows[i]).recipient
                    != id) implies after.users[id] == tables.users[id] by {
            assert forall|i: int| 0 <= i < fewer.len() implies (#[trigger] fewer[i]).recipient
                != id by {
                assert(rows[i] == fewer[i]);
            }
            assert(rows[rows.len() - 1].recipient != id);
        }
        if tables.consistent() {
            recording_is_consistent(middle, row);
        }
        recording_counts_on(middle, row);
        counting_on_goes_on(tables, middle, after);
    }
}

/// Records for different recipients have each the number behind the transfer
/// count that its recipient had before, and the recipient has that count then.
pub proof fn records_are_numbered_on(tables: Tables, rows: Seq<TransferRecord<Text>>, i: int)
    requires
        tables.can_take_all(rows),
        forall|a: int, b: int|
            0 <= a < b < rows.len() ==> (#[trigger] rows[a]).recipient != (
            #[trigger] rows[b]).recipient,
        0 <= i < rows.len(),
    ensures
        ({
            let recipient = rows[i].recipient;
            let number = tables.users[recipient].transfer_count + 1;
            &&& rows[i].download_id == decimal(number)
            &&& tables.with_records(rows).users[recipient].transfer_count == number
        }),
    decreases rows.len(),
{
    let fewer = rows.drop_last();
    let last = rows.last();
    let middle = tables.with_records(fewer);
    adding_records(tables, fewer);
    if i < fewer.len() {
        assert(fewer[i] == rows[i]);
        assert forall|a: int, b: int| 0 <= a < b < fewer.len() implies (
        #[trigger] fewer[a]).recipient != (#[trigger] fewer[b]).recipient by {
            assert(rows[a].recipient != rows[b].recipient);
        }
        records_are_numbered_on(tables, fewer, i);
        assert(rows[i].recipient != rows[rows.len() - 1].recipient);
    } else {
        assert forall|a: int| 0 <= a < fewer.len() implies (#[trigger] fewer[a]).recipient
            != last.recipient by {
            assert(rows[a].recipient != rows[rows.len() - 1].recipient);
        }
        assert(middle.users.contains_key(last.recipient));
        assert(tables.users.contains_key(last.recipient));
    }
}

/// A transfer of which a record is inserted, and the world and period in which
/// that takes place.
pub struct Recording {
    pub transfer: NewTransfer<Text>,
    pub lifetime_mins: Option<i64>,
    pub period: Period,
    pub before: World,
}

impl Recording {
    /// Whether the record expires when the lifetime has passed.
    pub open spec fn expires(self, expires_on: Timestamp) -> bool {
        &&& self.lifetime_mins is Some
        &&& exists|start: Timestamp| #[trigger]
            self.period.covers(start) && is_later_by(
                expires_on,
                start,
                60 * self.lifetime_mins->0,
            )
    }

    /// Whether the draft is one of the record.
    pub open spec fn drafts(self, draft: TransferDraft<Text>) -> bool {
        &&& draft.sender == self.transfer.sender_id
        &&& draft.recipient == self.transfer.recipient_id
        &&& draft.shared_key == self.transfer.shared_key
        &&& draft.shared_header == self.transfer.shared_header
        &&& draft.shared_nonce == self.transfer.shared_nonce
        &&& draft.file_id == self.transfer.file_id
        &&& self.expires(draft.expires_on)
    }

    /// Whether `row` is the record of the transfer.
    pub open spec fn makes(self, row: TransferRecord<Text>) -> bool {
        &&& row.sender == self.transfer.sender_id
        &&& row.recipient == self.transfer.recipient_id
        &&& row.shared_key == self.transfer.shared_key
        &&& row.shared_header == self.transfer.shared_header
        &&& row.shared_nonce == self.transfer.shared_nonce
        &&& row.file_id == self.transfer.file_id
        &&& self.period.covers(row.date_created)
        &&& self.expires(row.expires_on)
    }

    /// Whether a record can be made: the recipient exists and can be sent one
    /// more transfer, and the calendar has its expiry date.
    pub open spec fn is_possible(self) -> bool {
        &&& self.before.tables.users.contains_key(self.transfer.recipient_id)
        &&& self.before.tables.users[self.transfer.recipient_id].transfer_count < i32::MAX
        &&& self.lifetime_mins is Some
        &&& forall|time: Timestamp|
            time.valid() && #[trigger] self.period.covers(time) ==> time.later_by(
                60 * self.lifetime_mins->0,
            ) is Some
    }

    /// Whether the transfer is counted and nothing else has changed.
    pub open spec fn is_counted(self, now: World) -> bool {
        let recipient = self.transfer.recipient_id;
        &&& self.before.tables.users.contains_key(recipient)
        &&& self.before.tables.users[recipient].transfer_count < i32::MAX
        &&& now.tables == self.before.tables.counting(recipient)
        &&& now == (World { tables: now.tables, faults: now.faults, ..self.before })
    }

    /// Whether `row` is the new record, and nothing else but the recipient's
    /// transfer count has changed.
    pub open spec fn adds(self, row: TransferRecord<Text>, now: World) -> bool {
        &&& self.makes(row)
        &&& self.before.tables.can_take(row)
        &&& now.tables == self.before.tables.with_record(row)
        &&& now == (World { tables: now.tables, faults: now.faults, ..self.before })
    }

    /// What is known at `step` in the world `now`.
    pub open spec fn allows(
        self,
        step: Progress<TransferRecordInsertion<Text>, Text, StoreError, Statement<Text>>,
        now: World,
    ) -> bool {
        let recipient = self.transfer.recipient_id;
        let count = self.before.tables.users[recipient].transfer_count;
        &&& now.faults >= self.before.faults
        &&& now == (World { tables: now.tables, faults: now.faults, ..self.before })
        &&& now.tables == (Tables {
            users: now.tables.users,
            records: now.tables.records,
            ..self.before.tables
        })
        &&& self.before.tables.counts_on(now.tables)
        &&& match step {
            Progress::Ask(
                work,
                TransferRecordInsertion::Counting {
                    draft,
                    update: TransferCountUpdate::Reading { user_id },
                },
            ) => {
                &&& now == self.before
                &&& self.drafts(draft)
                &&& user_id == recipient
                &&& work == (Statement::UserById { id: recipient })
            },
            Progress::Ask(
                work,
                TransferRecordInsertion::Counting {
                    draft,
                    update: TransferCountUpdate::Writing { next_count },
                },
            ) => {
                &&& now == self.before
                &&& self.drafts(draft)
                &&& self.before.tables.users.contains_key(recipient)
                &&& count < i32::MAX
                &&& next_count == count + 1
                &&& work == (Statement::SetTransferCount { id: recipient, count: next_count })
            },
            Progress::Ask(work, TransferRecordInsertion::Inserting { id }) => {
                &&& self.is_counted(now)
                &&& work is InsertRecord
                &&& work->InsertRecord_0.id == id
                &&& work->InsertRecord_0.download_id == decimal(count + 1)
                &&& self.makes(work->InsertRecord_0)
            },
            Progress::Done(id) => exists|row: TransferRecord<Text>| #[trigger]
                self.adds(row, now) && row.id == id,
            Progress::Failed(_) => {
                &&& now.tables == self.before.tables || self.is_counted(now)
                &&& now.faults > self.before.faults || !self.is_possible() && now.tables
                    == self.before.tables
            },
        }
    }

    /// The first step is one of which that is known.
    pub proof fn begins(self, fresh: Fresh<Text>)
        requires
            fresh.well_formed(),
            self.period.covers(fresh.timestamp),
        ensures
            self.allows(
                TransferRecordInsertion::first(self.transfer, self.lifetime_mins, fresh),
                self.before,
            ),
    {
    }

    /// What is known stays known from one step to the next.
    pub proof fn advance(
        self,
        work: Statement<Text>,
        machine: TransferRecordInsertion<Text>,
        now: World,
        outcome: ReplyModel,
        fresh: Fresh<Text>,
        then: World,
    )
        requires
            self.allows(Progress::Ask(work, machine), now),
            work.performed(now, outcome, then),
            fresh.well_formed(),
            self.period.covers(fresh.timestamp),
        ensures
            self.allows(machine.next(outcome, fresh), then),
    {
        let recipient = self.transfer.recipient_id;
        if self.is_counted(then) {
            counting_counts_on(self.before.tables, recipient);
        }
        if let TransferRecordInsertion::Inserting { id } = machine {
            if outcome is Executed {
                let row = work->InsertRecord_0;
                recording_counts_on(self.before.tables, row);
                assert(then.tables == self.before.tables.with_record(row));
                assert(self.adds(row, then));
            }
        }
    }
}

impl Machine for TransferRecordInsertion<Text> {
    type Work = Statement<Text>;

    type Value = Text;

    type Error = StoreError;

    open spec fn after(self, outcome: ReplyModel, fresh: Fresh<Text>) -> Progress<
        TransferRecordInsertion<Text>,
        Text,
        StoreError,
        Statement<Text>,
    > {
        self.next(outcome, fresh)
    }
}

impl Lawful for TransferRecordInsertion<Text> {
    type Start = Recording;

    open spec fn granted(start: Recording, fresh: Fresh<Text>) -> bool {
        start.period.covers(fresh.timestamp)
    }

    open spec fn known(
        start: Recording,
        step: Progress<TransferRecordInsertion<Text>, Text, StoreError, Statement<Text>>,
        now: World,
    ) -> bool {
        start.allows(step, now)
    }

    proof fn kept(
        start: Recording,
        work: Statement<Text>,
        machine: TransferRecordInsertion<Text>,
        now: World,
        outcome: ReplyModel,
        fresh: Fresh<Text>,
        then: World,
    ) {
        start.advance(work, machine, now, outcome, fresh, then);
    }
}

/// A transfer that is recorded is counted to its recipient, and its record has
/// the new count as download id and expires when the lifetime has passed.
/// Nothing else changes, and the tables stay consistent however far that comes.
/// It fails only where the database fails, or where the record cannot be made
/// and nothing has changed.
pub proof fn recording(
    start: Recording,
    fresh: Fresh<Text>,
    turns: Seq<Turn<ReplyModel>>,
    last: Progress<TransferRecordInsertion<Text>, Text, StoreError, Statement<Text>>,
    after: World,
)
    requires
        start.before.tables.consistent(),
        fresh.well_formed(),
        start.period.covers(fresh.timestamp),
        runs(
            TransferRecordInsertion::first(start.transfer, start.lifetime_mins, fresh),
            start.before,
            turns,
            last,
            after,
        ),
        forall|i: int|
            0 <= i < turns.len() ==> start.period.covers((#[trigger] turns[i]).fresh.timestamp),
    ensures
        after.tables.consistent(),
        last matches Progress::Done(id) ==> exists|row: TransferRecord<Text>| #[trigger]
            start.adds(row, after) && row.id == id,
        start.before.tables.counts_on(after.tables),
        last is Failed ==> after.faults > start.before.faults || !start.is_possible()
            && after.tables == start.before.tables,
        last !is Done ==> after.tables == start.before.tables || start.is_counted(after),
{
    start.begins(fresh);
    run_keeps(
        start,
        TransferRecordInsertion::first(start.transfer, start.lifetime_mins, fresh),
        start.before,
        turns,
        last,
        after,
    );
    let recipient = start.transfer.recipient_id;
    if start.is_counted(after) {
        counting_is_consistent(start.before.tables, recipient);
    }
    if last is Done {
        let row = choose|row: TransferRecord<Text>| #[trigger]
            start.adds(row, after) && row.id == last->Done_0;
        recording_is_consistent(start.before.tables, row);
    }
}

} // verus!
