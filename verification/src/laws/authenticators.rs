//! What holds of the authenticators and of users who sign them.

use crate::auth::{
    authentication_failed, base64_decoded, new_authenticator, opened_message, Authentication,
    AuthenticationStep, AuthenticatorUpdate, UpdateStep, AUTHENTICATOR_GRACE_PERIOD_SECONDS,
    AUTHENTICATOR_LIFESPAN_SECONDS,
};
use crate::fresh::{is_alphanumeric, Fresh};
use crate::laws::terms::is_later_by;
use crate::models::Authenticator;
use crate::requests::current_authenticator;
use crate::responses::{refused, server_error, Refusal, OK, UNAUTHORIZED};
use crate::statements::{Progress, Reply, ReplyModel, Statement, StoreError};
use crate::tables::{consistent_with_same_records, Tables};
use crate::text::Text;
use crate::time::{Timestamp, LAST_SECOND};
use crate::world::{run_keeps, runs, Labour, Lawful, Machine, Turn, World};
use vstd::prelude::*;
use vstd::utf8::*;

verus! {

/// A span of time.
pub struct Period {
    pub from: Timestamp,
    pub to: Timestamp,
}

impl Period {
    /// Whether `time` lies in the period.
    pub open spec fn covers(self, time: Timestamp) -> bool {
        !time.is_before(self.from) && !self.to.is_before(time)
    }
}

/// Whether the grace period of an authenticator, two minutes from its expiration
/// date on, was over at `time`, be its end in the calendar or not.
pub open spec fn has_run_out(row: Authenticator<Text>, time: Timestamp) -> bool {
    let date = row.expiration_date;
    date.secs + 120 < time.secs || (date.secs + 120 == time.secs && date.nanos < time.nanos)
}

/// Whether the grace period of an authenticator was over at `time`, and the
/// calendar has its end.
pub open spec fn is_outdated(row: Authenticator<Text>, time: Timestamp) -> bool {
    &&& row.expiration_date.valid()
    &&& row.expiration_date.secs + 120 <= LAST_SECOND
    &&& has_run_out(row, time)
}

/// Whether `signed` holds `message` and its signature, and the signature is one
/// of the key `signing_public_key`, both in Base64.
pub open spec fn is_signature_of(
    signing_public_key: Text,
    signed: Text,
    message: Seq<u8>,
) -> bool {
    &&& base64_decoded(signing_public_key) is Some
    &&& base64_decoded(signing_public_key)->0.len() == 32
    &&& base64_decoded(signed) is Some
    &&& opened_message(base64_decoded(signed)->0, base64_decoded(signing_public_key)->0) == Some(
        message,
    )
}

/// The world in which the authenticators are brought up to date, and the period
/// in which that takes place.
pub struct Updating {
    pub period: Period,
    pub before: World,
}

impl Updating {
    /// Whether at most the authenticators have changed, and none is gone that
    /// has to stay.
    pub open spec fn touches_authenticators_only(self, now: World) -> bool {
        &&& self.before.tables.well_formed()
        &&& now.tables.well_formed()
        &&& now.tables == (Tables {
            authenticators: now.tables.authenticators,
            ..self.before.tables
        })
        &&& now == (World { tables: now.tables, faults: now.faults, ..self.before })
        &&& now.faults >= self.before.faults
        &&& self.before.tables.spares(now.tables, self.period.to)
        &&& self.before.tables.trims(now.tables, self.period.to)
    }

    /// Whether an authenticator that was there is gone.
    pub open spec fn is_gone(self, id: Text, now: Tables) -> bool {
        let rows = self.before.tables.authenticators;
        rows.contains_key(id) && !now.authenticators.contains_pair(id, rows[id])
    }

    /// Whether each authenticator that is gone had its grace period over at the
    /// end of the period.
    pub open spec fn has_shed(self, now: World) -> bool {
        forall|id: Text| #[trigger]
            self.is_gone(id, now.tables) ==> has_run_out(
                self.before.tables.authenticators[id],
                self.period.to,
            )
    }

    /// Whether no authenticator is new, and none that is left expires earlier
    /// than one that is gone.
    pub open spec fn has_trimmed(self, now: World) -> bool {
        let rows = self.before.tables.authenticators;
        &&& forall|id: Text| #[trigger]
            now.tables.authenticators.contains_key(id) ==> rows.contains_pair(
                id,
                now.tables.authenticators[id],
            )
        &&& forall|gone: Text, left: Text| #[trigger]
            self.is_gone(gone, now.tables) && #[trigger] now.tables.authenticators.contains_key(left)
                ==> !rows[left].expiration_date.is_before(rows[gone].expiration_date)
    }

    /// Where each authenticator that is gone had run out, no more than those
    /// were removed.
    proof fn lemma_shed(self, now: World)
        requires
            self.has_shed(now),
        ensures
            self.before.tables.trims(now.tables, self.period.to),
    {
        assert forall|id: Text| #[trigger]
            self.before.tables.authenticators.contains_key(id)
                && !now.tables.authenticators.contains_pair(
                id,
                self.before.tables.authenticators[id],
            ) implies has_run_out(self.before.tables.authenticators[id], self.period.to) by {
            assert(self.is_gone(id, now.tables));
        }
    }

    /// Where the first ones were removed and two are left, no more than those
    /// that were too many were removed.
    proof fn lemma_trimmed(self, now: World)
        requires
            self.has_trimmed(now),
            now.tables.authenticators.dom().finite(),
            now.tables.authenticators.dom().len() >= 2,
        ensures
            self.before.tables.trims(now.tables, self.period.to),
    {
        let left = now.tables.authenticators.dom();
        let a = left.choose();
        let b = left.remove(a).choose();
        assert(left.contains(a));
        assert(left.remove(a).contains(b));
        assert forall|id: Text| #[trigger]
            self.before.tables.authenticators.contains_key(id)
                && !now.tables.authenticators.contains_pair(
                id,
                self.before.tables.authenticators[id],
            ) implies exists|a: Text, b: Text|
            a != b && #[trigger] self.before.tables.keeps_after(
                now.tables,
                self.before.tables.authenticators[id],
                a,
            ) && #[trigger] self.before.tables.keeps_after(
                now.tables,
                self.before.tables.authenticators[id],
                b,
            ) by {
            let row = self.before.tables.authenticators[id];
            assert(self.is_gone(id, now.tables));
            assert(now.tables.authenticators.contains_key(a));
            assert(now.tables.authenticators.contains_key(b));
            assert(self.before.tables.keeps_after(now.tables, row, a));
            assert(self.before.tables.keeps_after(now.tables, row, b));
        }
    }

    /// Whether `row` is an authenticator as one is made in the period.
    pub open spec fn issues(self, row: Authenticator<Text>) -> bool {
        &&& exists|time: Timestamp| #[trigger]
            self.period.covers(time) && is_later_by(row.expiration_date, time, 300)
        &&& row.authenticator.len() == 16
        &&& forall|i: int| 0 <= i < 16 ==> is_alphanumeric(#[trigger] row.authenticator[i])
    }

    /// Whether each authenticator that was not there before was made in the
    /// period.
    pub open spec fn issues_only(self, now: World) -> bool {
        forall|id: Text| #[trigger]
            now.tables.authenticators.contains_key(id)
                ==> self.before.tables.authenticators.contains_pair(
                id,
                now.tables.authenticators[id],
            ) || self.issues(now.tables.authenticators[id])
    }

    /// Whether no authenticator, but for the one under `id`, had its grace
    /// period over at the start of the period.
    pub open spec fn is_young_without(self, now: World, id: Text) -> bool {
        forall|other: Text| #[trigger]
            now.tables.authenticators.contains_key(other) && other != id ==> !has_run_out(
                now.tables.authenticators[other],
                self.period.from,
            )
    }

    /// Whether no authenticator had its grace period over at the start of the
    /// period.
    pub open spec fn is_young(self, now: World) -> bool {
        forall|id: Text| #[trigger]
            now.tables.authenticators.contains_key(id) ==> !has_run_out(
                now.tables.authenticators[id],
                self.period.from,
            )
    }

    /// Whether the calendar has the end of each grace period.
    pub open spec fn is_datable(now: World) -> bool {
        forall|id: Text| #[trigger]
            now.tables.authenticators.contains_key(id)
                ==> now.tables.authenticators[id].expiration_date.later_by(
                AUTHENTICATOR_GRACE_PERIOD_SECONDS as int,
            ) is Some
    }

    /// Whether the calendar has every date that may be needed.
    pub open spec fn fits_calendar(self) -> bool {
        &&& Self::is_datable(self.before)
        &&& self.period.to.secs + AUTHENTICATOR_LIFESPAN_SECONDS
            + AUTHENTICATOR_GRACE_PERIOD_SECONDS <= LAST_SECOND
    }

    /// Whether there are two authenticators, neither of them outdated.
    pub open spec fn is_settled(self, now: World) -> bool {
        now.tables.authenticators.dom().len() == 2 && self.is_young(now)
    }
}

impl Machine for AuthenticatorUpdate<Text> {
    type Work = Statement<Text>;

    type Value = Seq<Authenticator<Text>>;

    type Error = StoreError;

    open spec fn after(self, outcome: ReplyModel, fresh: Fresh<Text>) -> UpdateStep {
        self.next(outcome, fresh)
    }
}

/// The number of authenticators is the length of their list.
pub proof fn lemma_listed(tables: Tables, rows: Seq<Authenticator<Text>>)
    requires
        tables.lists_authenticators(rows),
    ensures
        tables.authenticators.dom().len() == rows.len(),
{
    let ids = Seq::new(rows.len(), |i: int| rows[i].id);
    assert(ids.to_set() =~= tables.authenticators.dom()) by {
        assert forall|id: Text| tables.authenticators.contains_key(id) implies ids.contains(id) by {
            let i = choose|i: int| 0 <= i < rows.len() && (#[trigger] rows[i]).id == id;
            assert(ids[i] == id);
        }
    }
    ids.unique_seq_to_set();
}

/// A new authenticator is not outdated at a time before it was made.
proof fn lemma_new_is_young(fresh: Fresh<Text>, from: Timestamp)
    requires
        new_authenticator(fresh) is Some,
        !fresh.now.is_before(from),
    ensures
        !has_run_out(new_authenticator(fresh)->0, from),
{
}

impl Updating {
    /// What is known at `step` in the world `now`.
    pub open spec fn allows(self, step: UpdateStep, now: World) -> bool {
        let rows = now.tables.authenticators;
        let count = self.before.tables.authenticators.dom().len();
        &&& self.touches_authenticators_only(now)
        &&& self.issues_only(now)
        &&& self.fits_calendar() ==> Self::is_datable(now)
        &&& match step {
            Progress::Ask(work, AuthenticatorUpdate::Filling { clock: None }) => {
                &&& now == self.before
                &&& work is AllAuthenticators
            },
            Progress::Ask(work, AuthenticatorUpdate::Filling { clock: Some(time) }) => {
                &&& self.period.covers(time)
                &&& count < 2
                &&& self.has_shed(now)
                &&& work is AllAuthenticators
            },
            Progress::Ask(work, AuthenticatorUpdate::Added { now: time }) => {
                &&& self.period.covers(time)
                &&& count < 2
                &&& rows.dom().len() < 2
                &&& self.has_shed(now)
                &&& work is InsertAuthenticator
            },
            Progress::Ask(work, AuthenticatorUpdate::Trimming { now: time }) => {
                &&& self.period.covers(time)
                &&& count > 2
                &&& rows.dom().len() >= 2
                &&& self.has_trimmed(now)
                &&& work is AllAuthenticators
            },
            Progress::Ask(work, AuthenticatorUpdate::Trimmed { now: time }) => {
                &&& self.period.covers(time)
                &&& count > 2
                &&& rows.dom().len() > 2
                &&& self.has_trimmed(now)
                &&& work is DeleteAuthenticator
                &&& rows.contains_key(work->DeleteAuthenticator_id)
                &&& forall|id: Text| #[trigger]
                    rows.contains_key(id) ==> !rows[id].expiration_date.is_before(
                        rows[work->DeleteAuthenticator_id].expiration_date,
                    )
            },
            Progress::Ask(work, AuthenticatorUpdate::DroppingFirst { now: time, second }) => {
                &&& self.period.covers(time)
                &&& work is DeleteAuthenticator
                &&& second is Some
                &&& rows.contains_pair(second->0.id, second->0)
                &&& rows.contains_key(work->DeleteAuthenticator_id)
                &&& is_outdated(rows[work->DeleteAuthenticator_id], time)
                &&& self.has_shed(now)
                &&& second->0.id != work->DeleteAuthenticator_id
                &&& rows.dom() == set![second->0.id, work->DeleteAuthenticator_id]
            },
            Progress::Ask(work, AuthenticatorUpdate::ReplacingFirst { now: time, second }) => {
                &&& self.period.covers(time)
                &&& work is InsertAuthenticator
                &&& !has_run_out(work->InsertAuthenticator_0, self.period.from)
                &&& second is Some
                &&& rows.contains_pair(second->0.id, second->0)
                &&& rows.dom() == set![second->0.id]
                &&& self.has_shed(now)
            },
            Progress::Ask(work, AuthenticatorUpdate::DroppingSecond) => {
                &&& work is DeleteAuthenticator
                &&& rows.contains_key(work->DeleteAuthenticator_id)
                &&& is_outdated(rows[work->DeleteAuthenticator_id], self.period.to)
                &&& self.has_shed(now)
                &&& rows.dom().len() == 2
                &&& self.is_young_without(now, work->DeleteAuthenticator_id)
            },
            Progress::Ask(work, AuthenticatorUpdate::ReplacingSecond) => {
                &&& work is InsertAuthenticator
                &&& !has_run_out(work->InsertAuthenticator_0, self.period.from)
                &&& rows.dom().len() == 1
                &&& self.is_young(now)
                &&& self.has_shed(now)
            },
            Progress::Ask(work, AuthenticatorUpdate::Listing) => {
                &&& work is AllAuthenticators
                &&& self.is_settled(now)
            },
            Progress::Done(list) => {
                &&& list.len() == 2
                &&& now.tables.lists_authenticators(list)
                &&& self.is_settled(now)
            },
            Progress::Failed(_) => now.faults > self.before.faults || !self.fits_calendar(),
        }
        &&& step matches Progress::Ask(Statement::InsertAuthenticator(row), _) ==> {
            &&& self.issues(row)
            &&& self.fits_calendar() ==> row.expiration_date.later_by(
                AUTHENTICATOR_GRACE_PERIOD_SECONDS as int,
            ) is Some
        }
    }

    /// No more authenticators are removed than those that have run out or are
    /// too many.
    proof fn sheds_and_trims(
        self,
        work: Statement<Text>,
        machine: AuthenticatorUpdate<Text>,
        now: World,
        outcome: ReplyModel,
        then: World,
    )
        requires
            self.allows(Progress::Ask(work, machine), now),
            work.performed(now, outcome, then),
        ensures
            self.before.tables.trims(then.tables, self.period.to),
            match machine {
                AuthenticatorUpdate::Filling { clock: None } => {
                    self.has_shed(then) && self.has_trimmed(then)
                },
                AuthenticatorUpdate::Trimming { .. } => self.has_trimmed(then),
                AuthenticatorUpdate::Trimmed { .. } => self.has_trimmed(then),
                AuthenticatorUpdate::Listing => true,
                _ => self.has_shed(then),
            },
    {
        match machine {
            AuthenticatorUpdate::Filling { clock: None } => {
                self.lemma_shed(then);
            },
            AuthenticatorUpdate::Trimming { .. } => {
                self.lemma_trimmed(then);
            },
            AuthenticatorUpdate::Trimmed { .. } => {
                let id = work->DeleteAuthenticator_id;
                assert(self.has_trimmed(then)) by {
                    assert forall|gone: Text, left: Text| #[trigger]
                        self.is_gone(gone, then.tables)
                            && #[trigger] then.tables.authenticators.contains_key(
                            left,
                        ) implies !self.before.tables.authenticators[left].expiration_date.is_before(
                        self.before.tables.authenticators[gone].expiration_date,
                    ) by {
                        let rows = now.tables.authenticators;
                        assert(rows.contains_key(left) && rows.contains_key(id));
                        assert(rows[left] == self.before.tables.authenticators[left]);
                        assert(rows[id] == self.before.tables.authenticators[id]);
                        if gone != id {
                            assert(self.is_gone(gone, now.tables));
                        }
                    }
                }
                self.lemma_trimmed(then);
            },
            AuthenticatorUpdate::Listing => {},
            _ => {
                assert forall|id: Text| #[trigger] self.is_gone(id, then.tables) implies has_run_out(
                    self.before.tables.authenticators[id],
                    self.period.to,
                ) by {
                    if !self.is_gone(id, now.tables) {
                        assert(now.tables.authenticators.contains_key(id));
                    }
                }
                self.lemma_shed(then);
            },
        }
    }

    /// What is known stays known from one step to the next.
    pub proof fn advance(
        self,
        work: Statement<Text>,
        machine: AuthenticatorUpdate<Text>,
        now: World,
        outcome: ReplyModel,
        fresh: Fresh<Text>,
        then: World,
    )
        requires
            self.allows(Progress::Ask(work, machine), now),
            work.performed(now, outcome, then),
            fresh.well_formed(),
            self.period.covers(fresh.now),
        ensures
            self.allows(machine.next(outcome, fresh), then),
    {
        if let Reply::Authenticators(list) = outcome {
            lemma_listed(now.tables, list);
            if list.len() == 2 {
                assert(now.tables.authenticators.dom() =~= set![list[1].id, list[0].id]);
            }
        }
        if new_authenticator(fresh) is Some {
            lemma_new_is_young(fresh, self.period.from);
        }
        self.sheds_and_trims(work, machine, now, outcome, then);
        match machine {
            AuthenticatorUpdate::DroppingFirst { now: time, second } => {
                if outcome is Executed {
                    assert(then.tables.authenticators.dom() =~= set![second->0.id]);
                }
            },
            AuthenticatorUpdate::ReplacingFirst { now: time, second } => {
                if outcome is Executed {
                    let row = work->InsertAuthenticator_0;
                    assert(then.tables.authenticators.dom() =~= set![second->0.id, row.id]);
                }
            },
            _ => {},
        }
    }
}

impl Lawful for AuthenticatorUpdate<Text> {
    type Start = Updating;

    open spec fn granted(start: Updating, fresh: Fresh<Text>) -> bool {
        start.period.covers(fresh.now)
    }

    open spec fn known(start: Updating, step: UpdateStep, now: World) -> bool {
        start.allows(step, now)
    }

    proof fn kept(
        start: Updating,
        work: Statement<Text>,
        machine: AuthenticatorUpdate<Text>,
        now: World,
        outcome: ReplyModel,
        fresh: Fresh<Text>,
        then: World,
    ) {
        start.advance(work, machine, now, outcome, fresh, then);
    }
}

/// Bringing the authenticators up to date leaves exactly two of them, neither of
/// which had its grace period over when that began. It removes none whose grace
/// period is not over, unless there were more than two; the ones that are too
/// many expire no later than the two that are kept. A new one is a random
/// text of the right form, and expires when its lifespan has passed. Nothing
/// else changes, and it fails only where the database fails or the calendar
/// ends.
pub proof fn authenticators_are_renewed(
    start: Updating,
    turns: Seq<Turn<ReplyModel>>,
    last: UpdateStep,
    after: World,
)
    requires
        start.before.tables.well_formed(),
        runs(AuthenticatorUpdate::first(), start.before, turns, last, after),
        forall|i: int|
            0 <= i < turns.len() ==> start.period.covers((#[trigger] turns[i]).fresh.now),
    ensures
        start.touches_authenticators_only(after),
        start.before.tables.consistent() ==> after.tables.consistent(),
        start.issues_only(after),
        last matches Progress::Done(list) ==> list.len() == 2 && start.is_settled(after)
            && after.tables.lists_authenticators(list),
        last is Failed ==> after.faults > start.before.faults || !start.fits_calendar(),
{
    run_keeps(start, AuthenticatorUpdate::first(), start.before, turns, last, after);
    if start.before.tables.consistent() {
        consistent_with_same_records(start.before.tables, after.tables);
    }
}

/// A request for the current authenticator is answered by the one that expires
/// last; it is never abandoned.
pub proof fn current_authenticator_expires_last(
    start: Updating,
    turns: Seq<Turn<ReplyModel>>,
    last: UpdateStep,
    after: World,
)
    requires
        start.before.tables.well_formed(),
        runs(AuthenticatorUpdate::first(), start.before, turns, last, after),
        forall|i: int|
            0 <= i < turns.len() ==> start.period.covers((#[trigger] turns[i]).fresh.now),
    ensures
        match current_authenticator(last) {
            Progress::Ask(..) => last is Ask,
            Progress::Failed(refusal) => refusal == server_error() && last is Failed,
            Progress::Done(response) => {
                &&& response.status == OK
                &&& exists|id: Text|
                    {
                        &&& #[trigger] after.tables.authenticators.contains_key(id)
                        &&& after.tables.authenticators[id].authenticator == response.body
                        &&& forall|other: Text| #[trigger]
                            after.tables.authenticators.contains_key(other)
                                ==> !after.tables.authenticators[id].expiration_date.is_before(
                                after.tables.authenticators[other].expiration_date,
                            )
                    }
            },
        },
{
    authenticators_are_renewed(start, turns, last, after);
    if let Progress::Done(list) = last {
        let id = list[1].id;
        assert(after.tables.authenticators.contains_key(id));
        assert forall|other: Text| #[trigger]
            after.tables.authenticators.contains_key(
                other,
            ) implies !after.tables.authenticators[id].expiration_date.is_before(
            after.tables.authenticators[other].expiration_date,
        ) by {
            let i = choose|i: int| 0 <= i < list.len() && (#[trigger] list[i]).id == other;
            assert(after.tables.authenticators.contains_pair(list[i].id, list[i]));
        }
    }
}

/// A request that is to come from a user, and the world in which that is found
/// out.
pub struct Authenticating {
    pub approved: bool,
    pub signing_public_key: Text,
    pub signed_authenticator: Text,
    pub updating: Updating,
}

impl Authenticating {
    /// Whether the user has signed one of the authenticators of this world.
    pub open spec fn is_signed(self, now: World) -> bool {
        exists|id: Text|
            {
                &&& #[trigger] now.tables.authenticators.contains_key(id)
                &&& is_signature_of(
                    self.signing_public_key,
                    self.signed_authenticator,
                    encode_utf8(now.tables.authenticators[id].authenticator),
                )
            }
    }

    /// Whether the request may be refused by `refusal` in the world `now`.
    pub open spec fn refuses(self, refusal: Refusal<Text>, now: World) -> bool {
        if !self.approved {
            &&& refusal == refused(
                UNAUTHORIZED,
                "Your account has yet to be approved by the server administrator"@,
            )
            &&& now == self.updating.before
        } else if refusal == server_error() {
            now.faults > self.updating.before.faults || !self.updating.fits_calendar()
        } else {
            &&& refusal == authentication_failed()
            &&& self.updating.is_settled(now)
            &&& !self.is_signed(now)
        }
    }
}

impl Machine for Authentication<Text> {
    type Work = Statement<Text>;

    type Value = ();

    type Error = Refusal<Text>;

    open spec fn after(self, outcome: ReplyModel, fresh: Fresh<Text>) -> AuthenticationStep {
        self.next(outcome, fresh)
    }
}

impl Authenticating {
    /// What is known at `step` in the world `now`.
    pub open spec fn allows(self, step: AuthenticationStep, now: World) -> bool {
        &&& self.updating.touches_authenticators_only(now)
        &&& match step {
            Progress::Ask(work, machine) => {
                &&& self.approved
                &&& machine.signing_public_key == self.signing_public_key
                &&& machine.signed_authenticator == self.signed_authenticator
                &&& self.updating.allows(Progress::Ask(work, machine.update), now)
            },
            Progress::Done(()) => self.approved && self.updating.is_settled(now)
                && self.is_signed(now),
            Progress::Failed(refusal) => self.refuses(refusal, now),
        }
    }

    /// What is known stays known from one step to the next.
    pub proof fn advance(
        self,
        work: Statement<Text>,
        machine: Authentication<Text>,
        now: World,
        outcome: ReplyModel,
        fresh: Fresh<Text>,
        then: World,
    )
        requires
            self.allows(Progress::Ask(work, machine), now),
            work.performed(now, outcome, then),
            fresh.well_formed(),
            self.updating.period.covers(fresh.now),
        ensures
            self.allows(machine.next(outcome, fresh), then),
    {
        self.updating.advance(work, machine.update, now, outcome, fresh, then);
        if let Progress::Done(list) = machine.update.next(outcome, fresh) {
            let rows = then.tables.authenticators;
            assert(rows.contains_key(list[0].id));
            assert(rows.contains_key(list[1].id));
            assert forall|id: Text| #[trigger] rows.contains_key(id) implies rows[id] == list[0]
                || rows[id] == list[1] by {
                let i = choose|i: int| 0 <= i < list.len() && (#[trigger] list[i]).id == id;
                assert(rows.contains_pair(list[i].id, list[i]));
            }
        }
    }
}

impl Lawful for Authentication<Text> {
    type Start = Authenticating;

    open spec fn granted(start: Authenticating, fresh: Fresh<Text>) -> bool {
        start.updating.period.covers(fresh.now)
    }

    open spec fn known(start: Authenticating, step: AuthenticationStep, now: World) -> bool {
        start.allows(step, now)
    }

    proof fn kept(
        start: Authenticating,
        work: Statement<Text>,
        machine: Authentication<Text>,
        now: World,
        outcome: ReplyModel,
        fresh: Fresh<Text>,
        then: World,
    ) {
        start.advance(work, machine, now, outcome, fresh, then);
    }
}

/// A request comes through exactly where the user is approved and has signed
/// one of the two authenticators. It fails otherwise only where the database
/// fails or the calendar ends, and is never abandoned. Nothing but the
/// authenticators changes.
pub proof fn authenticating(
    start: Authenticating,
    turns: Seq<Turn<ReplyModel>>,
    last: AuthenticationStep,
    after: World,
)
    requires
        start.updating.before.tables.well_formed(),
        runs(
            Authentication::first(
                start.approved,
                start.signing_public_key,
                start.signed_authenticator,
            ),
            start.updating.before,
            turns,
            last,
            after,
        ),
        forall|i: int|
            0 <= i < turns.len() ==> start.updating.period.covers(
                (#[trigger] turns[i]).fresh.now,
            ),
    ensures
        start.updating.touches_authenticators_only(after),
        last is Done ==> start.approved && start.updating.is_settled(after) && start.is_signed(
            after,
        ),
        last matches Progress::Failed(refusal) ==> start.refuses(refusal, after),
{
    run_keeps(
        start,
        Authentication::first(
            start.approved,
            start.signing_public_key,
            start.signed_authenticator,
        ),
        start.updating.before,
        turns,
        last,
        after,
    );
}

} // verus!
