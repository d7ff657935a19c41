//! How the tables may change in the course of time: download ids count up, and
//! authenticators stay until their grace period is over.

use crate::laws::authenticators::{has_run_out, is_outdated};
use crate::models::{Authenticator, TransferRecord, User};
use crate::tables::Tables;
use crate::text::{decimal, decimal_is_injective, Text};
use crate::time::Timestamp;
use vstd::prelude::*;

verus! {

impl Tables {
    /// Whether the download id of a record is a number that its recipient's
    /// transfer count has not reached.
    pub open spec fn has_new_number(self, record: TransferRecord<Text>) -> bool {
        self.users.contains_key(record.recipient) ==> exists|number: int|
            number > self.users[record.recipient].transfer_count && record.download_id
                == #[trigger] decimal(number)
    }

    /// Whether in the tables `later` each user is still there, unchanged but for
    /// a transfer count that is not lower, and each record was there before or
    /// has a new number.
    pub open spec fn counts_on(self, later: Tables) -> bool {
        &&& forall|id: Text| #[trigger]
            self.users.contains_key(id) ==> {
                &&& later.users.contains_key(id)
                &&& later.users[id].transfer_count >= self.users[id].transfer_count
                &&& later.users[id] == (User {
                    transfer_count: later.users[id].transfer_count,
                    ..self.users[id]
                })
            }
        &&& forall|id: Text| #[trigger]
            later.records.contains_key(id) ==> self.records.contains_pair(id, later.records[id])
                || self.has_new_number(later.records[id])
    }

    /// Whether, where there are at most two authenticators, there are at most
    /// two in the tables `later`, and each is still there whose grace period is
    /// not over at `time`.
    pub open spec fn spares(self, later: Tables, time: Timestamp) -> bool {
        self.authenticators.dom().len() <= 2 ==> {
            &&& later.authenticators.dom().len() <= 2
            &&& forall|id: Text| #[trigger]
                self.authenticators.contains_key(id) && !is_outdated(self.authenticators[id], time)
                    ==> later.authenticators.contains_pair(id, self.authenticators[id])
        }
    }

    /// Whether the authenticator under `id` is still there in the tables `later`,
    /// and expires no earlier than `row`.
    pub open spec fn keeps_after(
        self,
        later: Tables,
        row: Authenticator<Text>,
        id: Text,
    ) -> bool {
        &&& self.authenticators.contains_key(id)
        &&& later.authenticators.contains_pair(id, self.authenticators[id])
        &&& !self.authenticators[id].expiration_date.is_before(row.expiration_date)
    }

    /// Whether each authenticator that is gone from the tables `later` had its
    /// grace period over at `time`, or there were too many: two others are still
    /// there that expire no earlier.
    pub open spec fn trims(self, later: Tables, time: Timestamp) -> bool {
        forall|id: Text| #[trigger]
            self.authenticators.contains_key(id) && !later.authenticators.contains_pair(
                id,
                self.authenticators[id],
            ) ==> has_run_out(self.authenticators[id], time) || exists|a: Text, b: Text|
                a != b && #[trigger] self.keeps_after(later, self.authenticators[id], a)
                    && #[trigger] self.keeps_after(later, self.authenticators[id], b)
    }

    /// Whether the tables may have become `later` at `time`.
    pub open spec fn leads_to(self, later: Tables, time: Timestamp) -> bool {
        self.counts_on(later) && self.spares(later, time)
    }

    /// Whether the user knows no record by the download id, and never will: it
    /// is one of the numbers up to the user's transfer count.
    pub open spec fn is_spent(self, user_id: Text, download_id: Text) -> bool {
        &&& self.users.contains_key(user_id)
        &&& !self.knows(user_id, download_id)
        &&& exists|number: int|
            number <= self.users[user_id].transfer_count && download_id == #[trigger] decimal(
                number,
            )
    }
}

/// Tables with the same users and no more records count on.
pub proof fn fewer_records_count_on(a: Tables, b: Tables)
    requires
        b.users == a.users,
        forall|id: Text| #[trigger]
            b.records.contains_key(id) ==> a.records.contains_pair(id, b.records[id]),
    ensures
        a.counts_on(b),
{
}

/// What counts on in two steps counts on.
pub proof fn counting_on_goes_on(a: Tables, b: Tables, c: Tables)
    requires
        a.counts_on(b),
        b.counts_on(c),
    ensures
        a.counts_on(c),
{
    assert forall|id: Text| #[trigger] c.records.contains_key(id) implies a.records.contains_pair(
        id,
        c.records[id],
    ) || a.has_new_number(c.records[id]) by {
        let record = c.records[id];
        if b.records.contains_pair(id, record) {
            assert(b.records.contains_key(id));
        } else {
            assert(b.has_new_number(record));
            if a.users.contains_key(record.recipient) {
                let number = choose|number: int|
                    number > b.users[record.recipient].transfer_count && record.download_id
                        == #[trigger] decimal(number);
                assert(record.download_id == decimal(number));
            }
        }
    }
    assert forall|id: Text| #[trigger] a.users.contains_key(id) implies c.users.contains_key(id)
        && c.users[id].transfer_count >= a.users[id].transfer_count && c.users[id] == (User {
        transfer_count: c.users[id].transfer_count,
        ..a.users[id]
    }) by {
        assert(b.users.contains_key(id));
    }
}

/// What leads on in two steps leads on.
pub proof fn leading_goes_on(a: Tables, b: Tables, c: Tables, time: Timestamp)
    requires
        a.leads_to(b, time),
        b.leads_to(c, time),
    ensures
        a.leads_to(c, time),
{
    counting_on_goes_on(a, b, c);
    if a.authenticators.dom().len() <= 2 {
        assert forall|id: Text| #[trigger]
            a.authenticators.contains_key(id) && !is_outdated(
                a.authenticators[id],
                time,
            ) implies c.authenticators.contains_pair(id, a.authenticators[id]) by {
            assert(b.authenticators.contains_key(id));
        }
    }
}

/// A download id that is spent stays spent.
pub proof fn spent_stays_spent(a: Tables, b: Tables, user_id: Text, download_id: Text)
    requires
        a.counts_on(b),
        a.is_spent(user_id, download_id),
    ensures
        b.is_spent(user_id, download_id),
{
    let number = choose|number: int|
        number <= a.users[user_id].transfer_count && download_id == #[trigger] decimal(number);
    assert(number <= b.users[user_id].transfer_count);
    if b.knows(user_id, download_id) {
        let id = choose|id: Text| #[trigger] b.is_known_by(id, user_id, download_id);
        assert(b.records.contains_key(id));
        let record = b.records[id];
        if a.records.contains_pair(id, record) {
            assert(a.is_known_by(id, user_id, download_id));
        } else {
            let other = choose|other: int|
                other > a.users[user_id].transfer_count && record.download_id == #[trigger] decimal(
                    other,
                );
            decimal_is_injective(number, other);
        }
    }
}

} // verus!
