//! What holds of requests that a user signs.

use crate::fresh::Fresh;
use crate::laws::authenticators::{Authenticating, Updating};
use crate::laws::terms::{has_lines, lines_are_joined_whole};
use crate::models::TransferRecordWithFileMetadata;
use crate::payloads::{InboxRequestPayload, ListUsersRequestPayload};
use crate::requests::{
    inbox_next, inbox_signed_in, list_users_next, list_users_signed_in, InboxStep, ListUsersStep,
    SignedRequest,
};
use crate::responses::{refused, server_error, Refusal, Response, BAD_REQUEST, OK};
use crate::sign_in::{SignIn, SignInStep};
use crate::statements::{Progress, Reply, ReplyModel, Statement};
use crate::tables::{consistent_with_same_records, lists_ids};
use crate::text::{joined_lines, Text};
use crate::world::{run_keeps, runs, Labour, Lawful, Machine, Turn, World};
use vstd::prelude::*;

verus! {

/// A request that a user signs, and the world in which the user signs in.
pub struct SigningIn {
    pub username: Text,
    pub signed_authenticator: Text,
    pub updating: Updating,
}

impl SigningIn {
    /// Whether the user with this id has the name in the request.
    pub open spec fn names(self, user_id: Text) -> bool {
        let users = self.updating.before.tables.users;
        users.contains_key(user_id) && users[user_id].username == self.username
    }

    /// The authentication of the user with this id.
    pub open spec fn as_user(self, user_id: Text) -> Authenticating {
        let user = self.updating.before.tables.users[user_id];
        Authenticating {
            approved: user.approved,
            signing_public_key: user.signing_public_key,
            signed_authenticator: self.signed_authenticator,
            updating: self.updating,
        }
    }

    /// Whether the request comes from the user with this id: an approved user
    /// with the name in the request, who has signed an authenticator.
    pub open spec fn comes_from(self, user_id: Text, now: World) -> bool {
        &&& self.names(user_id)
        &&& self.updating.before.tables.users[user_id].approved
        &&& self.updating.is_settled(now)
        &&& self.as_user(user_id).is_signed(now)
    }

    /// Whether the request may be refused by `refusal` in the world `now`.
    pub open spec fn refuses(self, refusal: Refusal<Text>, now: World) -> bool {
        ||| {
            &&& !self.updating.before.tables.is_taken(self.username)
            &&& refusal == refused(BAD_REQUEST, "User "@ + self.username + " does not exist"@)
            &&& now == self.updating.before
        }
        ||| refusal == server_error() && now.faults > self.updating.before.faults
        ||| exists|user_id: Text| #[trigger]
            self.names(user_id) && self.as_user(user_id).refuses(refusal, now)
    }

    /// What is known at `step` in the world `now`.
    pub open spec fn allows(self, step: SignInStep, now: World) -> bool {
        &&& self.updating.touches_authenticators_only(now)
        &&& match step {
            Progress::Ask(work, SignIn::Finding { username, signed_authenticator }) => {
                &&& now == self.updating.before
                &&& username == self.username
                &&& signed_authenticator == self.signed_authenticator
                &&& work == (Statement::UserByUsername { username })
            },
            Progress::Ask(work, SignIn::Authenticating { user_id, authentication }) => {
                &&& self.names(user_id)
                &&& self.as_user(user_id).allows(Progress::Ask(work, authentication), now)
            },
            Progress::Done(user_id) => self.comes_from(user_id, now),
            Progress::Failed(refusal) => self.refuses(refusal, now),
        }
    }

    /// What is known stays known from one step to the next.
    pub proof fn advance(
        self,
        work: Statement<Text>,
        machine: SignIn<Text>,
        now: World,
        outcome: ReplyModel,
        fresh: Fresh<Text>,
        then: World,
    )
        requires
            self.allows(Progress::Ask(work, machine), now),
            work.performed(now, outcome, then),
            fresh.well_formed(),
            self.updating.period.covers(fresh.now),
        ensures
            self.allows(machine.next(outcome, fresh), then),
    {
        match machine {
            SignIn::Finding { .. } => {
                if let Reply::User(user) = outcome {
                    assert(self.names(user.id));
                }
            },
            SignIn::Authenticating { user_id, authentication } => {
                self.as_user(user_id).advance(work, authentication, now, outcome, fresh, then);
                assert(self.names(user_id));
            },
        }
    }
}

impl Machine for SignIn<Text> {
    type Work = Statement<Text>;

    type Value = Text;

    type Error = Refusal<Text>;

    open spec fn after(self, outcome: ReplyModel, fresh: Fresh<Text>) -> SignInStep {
        self.next(outcome, fresh)
    }
}

impl Lawful for SignIn<Text> {
    type Start = SigningIn;

    open spec fn granted(start: SigningIn, fresh: Fresh<Text>) -> bool {
        start.updating.period.covers(fresh.now)
    }

    open spec fn known(start: SigningIn, step: SignInStep, now: World) -> bool {
        start.allows(step, now)
    }

    proof fn kept(
        start: SigningIn,
        work: Statement<Text>,
        machine: SignIn<Text>,
        now: World,
        outcome: ReplyModel,
        fresh: Fresh<Text>,
        then: World,
    ) {
        start.advance(work, machine, now, outcome, fresh, then);
    }
}

/// Whoever signs in is a user with the name in the request, is approved, and
/// has signed one of the two authenticators. A request is refused where there
/// is no such user, the user is not approved, or the signature is wrong; it is
/// never abandoned. Nothing but the authenticators changes.
pub proof fn signing_in(
    start: SigningIn,
    turns: Seq<Turn<ReplyModel>>,
    last: SignInStep,
    after: World,
)
    requires
        start.updating.before.tables.well_formed(),
        runs(
            SignIn::first(start.username, start.signed_authenticator),
            start.updating.before,
            turns,
            last,
            after,
        ),
        forall|i: int|
            0 <= i < turns.len() ==> start.updating.period.covers(
                (#[trigger] turns[i]).fresh.now,
            ),
    ensures
        start.updating.touches_authenticators_only(after),
        start.updating.before.tables.consistent() ==> after.tables.consistent(),
        last matches Progress::Done(user_id) ==> start.comes_from(user_id, after),
        last matches Progress::Failed(refusal) ==> start.refuses(refusal, after),
{
    run_keeps(
        start,
        SignIn::first(start.username, start.signed_authenticator),
        start.updating.before,
        turns,
        last,
        after,
    );
    if start.updating.before.tables.consistent() {
        consistent_with_same_records(start.updating.before.tables, after.tables);
    }
}

/// Serving a request for the transfers to a user.
pub struct InboxRun {
    pub state: SignedRequest<Text>,
}

/// A step of serving a request for the transfers to a user.
pub type InboxRunStep = Progress<
    InboxRun,
    Seq<TransferRecordWithFileMetadata<Text>>,
    Refusal<Text>,
    Statement<Text>,
>;

impl InboxRun {
    /// The step of the machine that is this step of the request.
    pub open spec fn at(step: InboxStep) -> InboxRunStep {
        match step {
            Progress::Ask(work, state) => Progress::Ask(work, InboxRun { state }),
            Progress::Done(items) => Progress::Done(items),
            Progress::Failed(refusal) => Progress::Failed(refusal),
        }
    }

    /// The first step.
    pub open spec fn first(payload: InboxRequestPayload<Text>) -> InboxRunStep {
        Self::at(
            inbox_signed_in(SignIn::first(payload.username, payload.signed_authenticator)),
        )
    }
}

impl Machine for InboxRun {
    type Work = Statement<Text>;

    type Value = Seq<TransferRecordWithFileMetadata<Text>>;

    type Error = Refusal<Text>;

    open spec fn after(self, outcome: ReplyModel, fresh: Fresh<Text>) -> InboxRunStep {
        Self::at(inbox_next(self.state, outcome, fresh))
    }
}

impl SigningIn {
    /// Whether `items` are the transfers to the user with this id.
    pub open spec fn shows(
        items: Seq<TransferRecordWithFileMetadata<Text>>,
        user_id: Text,
        now: World,
    ) -> bool {
        exists|ids: Seq<Text>|
            {
                &&& #[trigger] lists_ids(ids, now.tables.shown_to(user_id))
                &&& items.len() == ids.len()
                &&& forall|i: int|
                    0 <= i < ids.len() ==> items[i] == now.tables.shown(#[trigger] ids[i])
            }
    }
}

impl Lawful for InboxRun {
    type Start = SigningIn;

    open spec fn granted(start: SigningIn, fresh: Fresh<Text>) -> bool {
        start.updating.period.covers(fresh.now)
    }

    open spec fn known(start: SigningIn, step: InboxRunStep, now: World) -> bool {
        &&& start.updating.touches_authenticators_only(now)
        &&& match step {
            Progress::Ask(work, InboxRun { state: SignedRequest::SigningIn(sign_in) }) => {
                start.allows(Progress::Ask(work, sign_in), now)
            },
            Progress::Ask(work, InboxRun { state: SignedRequest::Reading }) => {
                &&& work is RecordsWithFiles
                &&& start.comes_from(work->RecordsWithFiles_recipient, now)
            },
            Progress::Done(items) => exists|user_id: Text| #[trigger]
                start.comes_from(user_id, now) && SigningIn::shows(items, user_id, now),
            Progress::Failed(refusal) => start.refuses(refusal, now),
        }
    }

    proof fn kept(
        start: SigningIn,
        work: Statement<Text>,
        machine: InboxRun,
        now: World,
        outcome: ReplyModel,
        fresh: Fresh<Text>,
        then: World,
    ) {
        match machine.state {
            SignedRequest::SigningIn(sign_in) => {
                start.advance(work, sign_in, now, outcome, fresh, then);
            },
            SignedRequest::Reading => {
                let user_id = work->RecordsWithFiles_recipient;
                if let Reply::RecordsWithFiles(items) = outcome {
                    assert(SigningIn::shows(items, user_id, then));
                    assert(start.comes_from(user_id, then));
                }
            },
        }
    }
}

/// A request for the transfers to a user shows the transfers to the user whom
/// it comes from, and no others; whoever cannot sign in is shown nothing.
/// Nothing but the authenticators changes, and the tables stay consistent.
pub proof fn inbox_shows_own_transfers(
    payload: InboxRequestPayload<Text>,
    updating: Updating,
    turns: Seq<Turn<ReplyModel>>,
    last: InboxRunStep,
    after: World,
)
    requires
        updating.before.tables.well_formed(),
        runs(InboxRun::first(payload), updating.before, turns, last, after),
        forall|i: int|
            0 <= i < turns.len() ==> updating.period.covers((#[trigger] turns[i]).fresh.now),
    ensures
        ({
            let start = SigningIn {
                username: payload.username,
                signed_authenticator: payload.signed_authenticator,
                updating,
            };
            &&& updating.touches_authenticators_only(after)
            &&& updating.before.tables.consistent() ==> after.tables.consistent()
            &&& last matches Progress::Done(items) ==> exists|user_id: Text| #[trigger]
                start.comes_from(user_id, after) && SigningIn::shows(items, user_id, after)
            &&& last matches Progress::Failed(refusal) ==> start.refuses(refusal, after)
        }),
{
    let start = SigningIn {
        username: payload.username,
        signed_authenticator: payload.signed_authenticator,
        updating,
    };
    run_keeps(start, InboxRun::first(payload), updating.before, turns, last, after);
    if updating.before.tables.consistent() {
        consistent_with_same_records(updating.before.tables, after.tables);
    }
}

/// Serving a request for the names of all users.
pub struct ListUsersRun {
    pub state: SignedRequest<Text>,
}

/// A step of serving a request for the names of all users.
pub type ListUsersRunStep = Progress<
    ListUsersRun,
    Response<Text>,
    Refusal<Text>,
    Statement<Text>,
>;

impl ListUsersRun {
    /// The step of the machine that is this step of the request.
    pub open spec fn at(step: ListUsersStep) -> ListUsersRunStep {
        match step {
            Progress::Ask(work, state) => Progress::Ask(work, ListUsersRun { state }),
            Progress::Done(response) => Progress::Done(response),
            Progress::Failed(refusal) => Progress::Failed(refusal),
        }
    }

    /// The first step.
    pub open spec fn first(payload: ListUsersRequestPayload<Text>) -> ListUsersRunStep {
        Self::at(
            list_users_signed_in(SignIn::first(payload.username, payload.signed_authenticator)),
        )
    }
}

impl Machine for ListUsersRun {
    type Work = Statement<Text>;

    type Value = Response<Text>;

    type Error = Refusal<Text>;

    open spec fn after(self, outcome: ReplyModel, fresh: Fresh<Text>) -> ListUsersRunStep {
        Self::at(list_users_next(self.state, outcome, fresh))
    }
}

impl SigningIn {
    /// Whether `response` has the names of all approved users, one in a line.
    pub open spec fn lists(response: Response<Text>, now: World) -> bool {
        &&& response.status == OK
        &&& exists|ids: Seq<Text>, names: Seq<Text>|
            {
                &&& #[trigger] lists_ids(ids, now.tables.approved_users())
                &&& #[trigger] has_lines(response.body, names)
                &&& names.len() == ids.len()
                &&& forall|i: int|
                    0 <= i < ids.len() ==> names[i] == now.tables.users[#[trigger] ids[i]].username
            }
    }
}

impl Lawful for ListUsersRun {
    type Start = SigningIn;

    open spec fn granted(start: SigningIn, fresh: Fresh<Text>) -> bool {
        start.updating.period.covers(fresh.now)
    }

    open spec fn known(start: SigningIn, step: ListUsersRunStep, now: World) -> bool {
        &&& start.updating.touches_authenticators_only(now)
        &&& match step {
            Progress::Ask(work, ListUsersRun { state: SignedRequest::SigningIn(sign_in) }) => {
                start.allows(Progress::Ask(work, sign_in), now)
            },
            Progress::Ask(work, ListUsersRun { state: SignedRequest::Reading }) => {
                &&& work is ApprovedUsernames
                &&& exists|user_id: Text| #[trigger] start.comes_from(user_id, now)
            },
            Progress::Done(response) => {
                &&& exists|user_id: Text| #[trigger] start.comes_from(user_id, now)
                &&& SigningIn::lists(response, now)
            },
            Progress::Failed(refusal) => start.refuses(refusal, now),
        }
    }

    proof fn kept(
        start: SigningIn,
        work: Statement<Text>,
        machine: ListUsersRun,
        now: World,
        outcome: ReplyModel,
        fresh: Fresh<Text>,
        then: World,
    ) {
        match machine.state {
            SignedRequest::SigningIn(sign_in) => {
                start.advance(work, sign_in, now, outcome, fresh, then);
            },
            SignedRequest::Reading => {
                let user_id = choose|user_id: Text| #[trigger] start.comes_from(user_id, now);
                if let Reply::Usernames(names) = outcome {
                    assert(start.comes_from(user_id, then));
                    let response = Response { status: OK, body: joined_lines(names) };
                    lines_are_joined_whole(names);
                    let ids = choose|ids: Seq<Text>|
                        {
                            &&& #[trigger] lists_ids(ids, now.tables.approved_users())
                            &&& names.len() == ids.len()
                            &&& forall|i: int|
                                0 <= i < ids.len() ==> names[i]
                                    == now.tables.users[#[trigger] ids[i]].username
                        };
                    assert(lists_ids(ids, then.tables.approved_users()));
                    assert(has_lines(response.body, names));
                    assert(SigningIn::lists(response, then));
                }
            },
        }
    }
}

/// A request for the names of all users is answered by the names of the
/// approved users, one in a line; whoever cannot sign in is shown nothing.
/// Nothing but the authenticators changes.
pub proof fn list_users_names_approved_users(
    payload: ListUsersRequestPayload<Text>,
    updating: Updating,
    turns: Seq<Turn<ReplyModel>>,
    last: ListUsersRunStep,
    after: World,
)
    requires
        updating.before.tables.well_formed(),
        runs(ListUsersRun::first(payload), updating.before, turns, last, after),
        forall|i: int|
            0 <= i < turns.len() ==> updating.period.covers((#[trigger] turns[i]).fresh.now),
    ensures
        ({
            let start = SigningIn {
                username: payload.username,
                signed_authenticator: payload.signed_authenticator,
                updating,
            };
            &&& updating.touches_authenticators_only(after)
            &&& updating.before.tables.consistent() ==> after.tables.consistent()
            &&& last matches Progress::Done(response) ==> SigningIn::lists(response, after) && (
            exists|user_id: Text| #[trigger] start.comes_from(user_id, after))
            &&& last matches Progress::Failed(refusal) ==> start.refuses(refusal, after)
        }),
{
    let start = SigningIn {
        username: payload.username,
        signed_authenticator: payload.signed_authenticator,
        updating,
    };
    run_keeps(start, ListUsersRun::first(payload), updating.before, turns, last, after);
    if updating.before.tables.consistent() {
        consistent_with_same_records(updating.before.tables, after.tables);
    }
}

} // verus!
