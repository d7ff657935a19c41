//! What holds of a user from the registration on.

use crate::laws::history::{happens, history_leads_on, Episode};
use crate::laws::registration::{registering, registering_is_consistent, Registration};
use crate::laws::transfers::{completed_transfer, Shipment, Transferring};
use crate::models::User;
use crate::requests::{looked_up, Register, RegisterStep};
use crate::responses::{Refusal, Response, CONFLICT, OK};
use crate::statements::{Progress, Reply, ReplyModel, Statement};
use crate::tables::Tables;
use crate::text::Text;
use crate::time::Timestamp;
use crate::world::{runs, Labour, Turn, World};
use vstd::prelude::*;

verus! {

impl Registration {
    /// Whether the user under `id` is as registered, but for the number of
    /// transfers.
    pub open spec fn is_user(self, id: Text, tables: Tables) -> bool {
        tables.users.contains_key(id) && self.makes(User { transfer_count: 0, ..tables.users[id] })
    }
}

/// A user who has been registered stays as registered, but for the number of
/// transfers, whatever is asked of the server.
pub proof fn registration_lasts(
    start: Registration,
    turns: Seq<Turn<ReplyModel>>,
    response: Response<Text>,
    registered: World,
    history: Seq<Episode>,
    time: Timestamp,
    later: World,
) -> (id: Text)
    requires
        start.before.tables.consistent(),
        runs(
            Register::first(start.payload, start.settings),
            start.before,
            turns,
            Progress::Done(response),
            registered,
        ),
        response.status == OK,
        happens(history, registered, later, time),
    ensures
        later.tables.consistent(),
        start.is_user(id, later.tables),
        !start.is_too_long(),
{
    registering(start, turns, Progress::Done(response), registered);
    registering_is_consistent(start, turns, Progress::Done(response), registered);
    history_leads_on(history, registered, later, time);
    let row = choose|row: User<Text>| #[trigger]
        start.makes(row) && !start.before.tables.users.contains_key(row.id) && registered
            == start.with_user(row);
    assert(registered.tables.users.contains_key(row.id));
    row.id
}

/// The public key that a user has registered is found under the user's name,
/// whatever is asked of the server in between, unless the database fails.
pub proof fn lookup_finds_registered_key(
    start: Registration,
    turns: Seq<Turn<ReplyModel>>,
    response: Response<Text>,
    registered: World,
    history: Seq<Episode>,
    time: Timestamp,
    later: World,
    reply: ReplyModel,
    after: World,
)
    requires
        start.before.tables.consistent(),
        runs(
            Register::first(start.payload, start.settings),
            start.before,
            turns,
            Progress::Done(response),
            registered,
        ),
        response.status == OK,
        happens(history, registered, later, time),
        (Statement::UserByUsername { username: start.payload.username }).performed(
            later,
            reply,
            after,
        ),
        !reply.is_fault(),
    ensures
        looked_up(reply) == Ok::<Response<Text>, Refusal<Text>>(
            Response { status: OK, body: start.payload.public_key },
        ),
{
    let id = registration_lasts(start, turns, response, registered, history, time, later);
    assert(later.tables.users.contains_key(id));
    assert(later.tables.is_taken(start.payload.username));
    if let Reply::User(found) = reply {
        assert(later.tables.users.contains_key(found.id));
    }
}

/// A name that has been registered stays taken, whatever is asked of the server
/// in between: a second request to register it changes no table, and is answered
/// only by the refusal of a name that is taken.
pub proof fn name_is_registered_once(
    start: Registration,
    turns: Seq<Turn<ReplyModel>>,
    response: Response<Text>,
    registered: World,
    history: Seq<Episode>,
    time: Timestamp,
    second: Registration,
    later_turns: Seq<Turn<ReplyModel>>,
    last: RegisterStep,
    after: World,
)
    requires
        start.before.tables.consistent(),
        runs(
            Register::first(start.payload, start.settings),
            start.before,
            turns,
            Progress::Done(response),
            registered,
        ),
        response.status == OK,
        happens(history, registered, second.before, time),
        runs(
            Register::first(second.payload, second.settings),
            second.before,
            later_turns,
            last,
            after,
        ),
        second.payload.username == start.payload.username,
    ensures
        after.tables == second.before.tables,
        last matches Progress::Done(refusal) ==> refusal == (Response {
            status: CONFLICT,
            body: "Username taken"@,
        }),
{
    let id = registration_lasts(start, turns, response, registered, history, time, second.before);
    assert(second.before.tables.users.contains_key(id));
    assert(second.before.tables.is_taken(start.payload.username));
    registering(second, later_turns, last, after);
}

/// Where approval is required, a user who has been registered cannot upload
/// before the administrator approves: no upload in the user's name is completed,
/// whatever is asked of the server in between.
pub proof fn approval_precedes_uploads(
    registration: Registration,
    turns: Seq<Turn<ReplyModel>>,
    response: Response<Text>,
    registered: World,
    history: Seq<Episode>,
    time: Timestamp,
    start: Transferring,
    shipment: Shipment,
    after: World,
)
    requires
        registration.before.tables.consistent(),
        runs(
            Register::first(registration.payload, registration.settings),
            registration.before,
            turns,
            Progress::Done(response),
            registered,
        ),
        response.status == OK,
        registration.settings.approval() == Some(true),
        happens(history, registered, start.before, time),
        start.is_completed(shipment, after),
    ensures
        shipment.offer.metadata.sender != registration.payload.username,
{
    let id = registration_lasts(
        registration,
        turns,
        response,
        registered,
        history,
        time,
        start.before,
    );
    completed_transfer(start, shipment, after);
    assert(start.before.tables.users.contains_key(id));
    assert(start.before.tables.users.contains_key(shipment.user_id));
}

} // verus!
