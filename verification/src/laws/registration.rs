//! What holds of requests to register and to look up a user.

use crate::fresh::Fresh;
use crate::models::User;
use crate::payloads::RegisterRequestPayload;
use crate::requests::{looked_up, Register, RegisterStep};
use crate::responses::{server_error, Refusal, Response, BAD_REQUEST, CONFLICT, OK};
use crate::settings::Settings;
use crate::statements::{Progress, Reply, ReplyModel, Statement};
use crate::tables::Tables;
use crate::text::Text;
use crate::world::{run_keeps, runs, Labour, Lawful, Machine, Turn, World};
use vstd::prelude::*;
use vstd::utf8::*;

verus! {

/// A request to register, and the world in which it is served.
pub struct Registration {
    pub payload: RegisterRequestPayload<Text>,
    pub settings: Settings<Text>,
    pub before: World,
}

impl Registration {
    /// Whether the name is too long.
    pub open spec fn is_too_long(self) -> bool {
        encode_utf8(self.payload.username).len() > 15
    }

    /// Whether the settings say what a new user needs.
    pub open spec fn is_set_up(self) -> bool {
        self.settings.admits_users()
    }

    /// Whether the name may be registered, and the settings do not say what a
    /// new user needs.
    pub open spec fn is_unprepared(self) -> bool {
        &&& !self.is_set_up()
        &&& !self.is_too_long()
        &&& !self.before.tables.is_taken(self.payload.username)
    }

    /// Whether `row` is a user as the request asks for it: with its name and
    /// keys, no transfers, the default quota, and approved unless approval is
    /// required.
    pub open spec fn makes(self, row: User<Text>) -> bool {
        &&& row.username == self.payload.username
        &&& row.public_key == self.payload.public_key
        &&& row.signing_public_key == self.payload.signing_public_key
        &&& row.transfer_count == 0
        &&& self.settings.quota() == Some(row.transfer_quota)
        &&& self.settings.approval() == Some(!row.approved)
    }

    /// The world with `row` as a new user.
    pub open spec fn with_user(self, row: User<Text>) -> World {
        World {
            tables: Tables {
                users: self.before.tables.users.insert(row.id, row),
                ..self.before.tables
            },
            ..self.before
        }
    }

    /// Whether `now` is the world with one new user, who was not there before.
    pub open spec fn is_registered(self, now: World) -> bool {
        exists|row: User<Text>| #[trigger]
            self.makes(row) && !self.before.tables.users.contains_key(row.id) && now
                == self.with_user(row)
    }

    /// Whether the request may be answered by `response` in the world `now`.
    pub open spec fn answered(self, response: Response<Text>, now: World) -> bool {
        if self.is_too_long() {
            &&& response == (Response {
                status: BAD_REQUEST,
                body: "Username field must not exceed 15 characters"@,
            })
            &&& now == self.before
        } else if self.before.tables.is_taken(self.payload.username) {
            &&& response == (Response { status: CONFLICT, body: "Username taken"@ })
            &&& now == self.before
        } else {
            &&& response == (Response { status: OK, body: Seq::<char>::empty() })
            &&& self.is_set_up()
            &&& self.is_registered(now)
        }
    }
}

impl Machine for Register<Text> {
    type Work = Statement<Text>;

    type Value = Response<Text>;

    type Error = Refusal<Text>;

    open spec fn after(self, outcome: ReplyModel, fresh: Fresh<Text>) -> RegisterStep {
        self.next(outcome, fresh)
    }
}

impl Lawful for Register<Text> {
    type Start = Registration;

    open spec fn granted(start: Registration, fresh: Fresh<Text>) -> bool {
        true
    }

    open spec fn known(start: Registration, step: RegisterStep, now: World) -> bool {
        match step {
            Progress::Ask(work, Register::Checking { payload, settings }) => {
                &&& now == start.before
                &&& payload == start.payload
                &&& settings == start.settings
                &&& !start.is_too_long()
                &&& work == (Statement::UserByUsername { username: payload.username })
            },
            Progress::Ask(work, Register::Inserting(_)) => {
                &&& now == start.before
                &&& !start.is_too_long()
                &&& !start.before.tables.is_taken(start.payload.username)
                &&& start.is_set_up()
                &&& work is InsertUser
                &&& start.makes(work->InsertUser_0)
            },
            Progress::Done(response) => start.answered(response, now),
            Progress::Failed(refusal) => {
                &&& refusal == server_error()
                &&& now.tables == start.before.tables
                &&& now.disk == start.before.disk
                &&& now.faults > start.before.faults || start.is_unprepared()
            },
        }
    }

    proof fn kept(
        start: Registration,
        work: Statement<Text>,
        machine: Register<Text>,
        now: World,
        outcome: ReplyModel,
        fresh: Fresh<Text>,
        then: World,
    ) {
        if machine is Inserting && outcome is Executed {
            let row = work->InsertUser_0;
            assert(then == start.with_user(row));
            assert(start.makes(row));
        }
        if let Reply::User(row) = outcome {
            assert(now.tables.users.contains_key(row.id));
        }
    }
}

/// A request to register is refused where the name is too long or taken, and
/// nothing changes then. Otherwise one new user is inserted, exactly as the
/// request and the settings say. The request fails only where the database
/// fails, or the name may be registered and the settings cannot be read, and
/// nothing is inserted then.
pub proof fn registering(
    start: Registration,
    turns: Seq<Turn<ReplyModel>>,
    last: RegisterStep,
    after: World,
)
    requires
        runs(Register::first(start.payload, start.settings), start.before, turns, last, after),
    ensures
        last matches Progress::Done(response) ==> start.answered(response, after),
        last matches Progress::Failed(refusal) ==> refusal == server_error() && after.tables
            == start.before.tables && (after.faults > start.before.faults || start.is_unprepared()),
        last is Ask ==> after.tables == start.before.tables,
        after.disk == start.before.disk,
{
    run_keeps(
        start,
        Register::first(start.payload, start.settings),
        start.before,
        turns,
        last,
        after,
    );
}

/// However far it comes, a request to register keeps the tables consistent; no
/// name is ever taken twice.
pub proof fn registering_is_consistent(
    start: Registration,
    turns: Seq<Turn<ReplyModel>>,
    last: RegisterStep,
    after: World,
)
    requires
        start.before.tables.consistent(),
        runs(Register::first(start.payload, start.settings), start.before, turns, last, after),
    ensures
        after.tables.consistent(),
{
    registering(start, turns, last, after);
    if start.is_registered(after) {
        let row = choose|row: User<Text>| #[trigger]
            start.makes(row) && !start.before.tables.users.contains_key(row.id) && after
                == start.with_user(row);
        let before = start.before.tables;
        assert forall|id: Text| #[trigger]
            after.tables.records.contains_key(id) implies after.tables.is_numbered(id) by {
            assert(before.is_numbered(id));
        }
        assert forall|a: Text, b: Text| #[trigger]
            after.tables.users.contains_key(a) && #[trigger] after.tables.users.contains_key(b)
                && after.tables.users[a].username == after.tables.users[b].username implies a
            == b by {
            if a != row.id {
                assert(before.users.contains_key(a));
            }
            if b != row.id {
                assert(before.users.contains_key(b));
            }
        }
    }
}

/// A request for the public key of a name that no user has is refused, unless
/// the database fails.
pub proof fn lookup_refuses_unknown_name(
    username: Text,
    before: World,
    reply: ReplyModel,
    after: World,
)
    requires
        !before.tables.is_taken(username),
        (Statement::UserByUsername { username }).performed(before, reply, after),
        !reply.is_fault(),
    ensures
        looked_up(reply) == Ok::<Response<Text>, Refusal<Text>>(
            Response { status: BAD_REQUEST, body: "User does not exist"@ },
        ),
{
    if let Reply::User(found) = reply {
        assert(before.tables.users.contains_key(found.id));
    }
}

} // verus!
