//! What a machine acts on, and how it runs.

use crate::fresh::Fresh;
use crate::payloads::MetadataModel;
use crate::responses::Response;
use crate::statements::{Progress, ReplyModel, Statement};
use crate::tables::Tables;
use crate::tasks::{Event, EventModel, Task, TaskModel};
use crate::text::Text;
use vstd::prelude::*;

verus! {

/// What a machine acts on.
#[verifier::ext_equal]
pub struct World {
    /// The database.
    pub tables: Tables,
    /// The files, under their paths.
    pub disk: Map<Text, Seq<u8>>,
    /// The path of the file that is open for writing.
    pub open: Option<Text>,
    /// The chunks of the request's payload that were not read yet.
    pub payload: Seq<Seq<u8>>,
    /// The metadata that stand in a text, if it holds some.
    pub parse: spec_fn(Text) -> Option<MetadataModel>,
    /// The answer that is called for where the payload breaks off behind these
    /// chunks, if it does.
    pub broken: Option<Response<Text>>,
    /// How many statements have failed that might have succeeded.
    pub faults: nat,
    /// How many file operations have failed that might have succeeded.
    pub mishaps: nat,
}

/// A piece of outside work.
pub trait Labour: Sized {
    /// What comes of it.
    type Outcome;

    /// Whether `outcome` may come of the work, and `after` is what the world is
    /// then.
    spec fn performed(self, before: World, outcome: Self::Outcome, after: World) -> bool;
}

impl Labour for Statement<Text> {
    type Outcome = ReplyModel;

    open spec fn performed(self, before: World, outcome: ReplyModel, after: World) -> bool {
        &&& self.carried_out(before.tables, outcome, after.tables)
        &&& after == (World {
            tables: after.tables,
            faults: if outcome.is_fault() {
                before.faults + 1
            } else {
                before.faults
            },
            ..before
        })
    }
}

impl World {
    /// The world after a file operation that failed.
    pub open spec fn with_mishap(self) -> World {
        World { mishaps: self.mishaps + 1, ..self }
    }
}

impl Labour for TaskModel {
    type Outcome = EventModel;

    open spec fn performed(self, before: World, outcome: EventModel, after: World) -> bool {
        match self {
            Task::Run(statement) => outcome is Reply && statement.performed(
                before,
                outcome->Reply_0,
                after,
            ),
            Task::ReadChunk => match outcome {
                Event::Chunk(chunk) => {
                    &&& before.payload.len() > 0
                    &&& chunk == before.payload[0]
                    &&& after == (World { payload: before.payload.skip(1), ..before })
                },
                Event::End => {
                    &&& before.payload.len() == 0
                    &&& before.broken is None
                    &&& after == before
                },
                Event::Broken(answer) => {
                    &&& before.payload.len() == 0
                    &&& before.broken == Some(answer)
                    &&& after == before
                },
                _ => false,
            },
            Task::ParseMetadata(text) => after == before && match outcome {
                Event::Parsed(metadata) => (before.parse)(text) == Some(metadata)
                    && metadata.recipients.len() <= usize::MAX,
                Event::Unparsable => (before.parse)(text) is None,
                _ => false,
            },
            Task::CreateFile(path) => match outcome {
                Event::Completed => after == (World {
                    disk: before.disk.insert(path, Seq::empty()),
                    open: Some(path),
                    ..before
                }),
                Event::TaskFailed => after == before.with_mishap(),
                _ => false,
            },
            Task::AppendToFile(bytes) => match (outcome, before.open) {
                (Event::Completed, Some(path)) => after == (World {
                    disk: before.disk.insert(path, before.disk[path] + bytes),
                    ..before
                }),
                (Event::TaskFailed, _) => after == before.with_mishap(),
                _ => false,
            },
            Task::FlushFile => match outcome {
                Event::Completed => after == before,
                Event::TaskFailed => after == before.with_mishap(),
                _ => false,
            },
            Task::RemoveFile(path) => match outcome {
                Event::Completed => after == (World { disk: before.disk.remove(path), ..before }),
                Event::TaskFailed => if before.disk.contains_key(path) {
                    after == before.with_mishap()
                } else {
                    after == before
                },
                _ => false,
            },
            Task::OpenFile(path) => match outcome {
                Event::Completed => before.disk.contains_key(path) && after == before,
                Event::TaskFailed => if before.disk.contains_key(path) {
                    after == before.with_mishap()
                } else {
                    after == before
                },
                _ => false,
            },
        }
    }
}

/// A machine that asks for one piece of work at a time.
pub trait Machine: Sized {
    /// The work it asks for.
    type Work: Labour;

    /// What it ends with.
    type Value;

    /// What it ends with otherwise.
    type Error;

    /// The step after `outcome`.
    spec fn after(
        self,
        outcome: <Self::Work as Labour>::Outcome,
        fresh: Fresh<Text>,
    ) -> Progress<Self, Self::Value, Self::Error, Self::Work>;
}

/// One turn of a run: what came of the work, what chance and the clock gave, and
/// what the world is then.
pub struct Turn<Outcome> {
    pub outcome: Outcome,
    pub fresh: Fresh<Text>,
    pub after: World,
}

/// Whether `turns` lead from `step` in the world `before` to the step `last` in
/// the world `after`. Nothing but the machine changes the world meanwhile.
pub open spec fn runs<M: Machine>(
    step: Progress<M, M::Value, M::Error, M::Work>,
    before: World,
    turns: Seq<Turn<<M::Work as Labour>::Outcome>>,
    last: Progress<M, M::Value, M::Error, M::Work>,
    after: World,
) -> bool
    decreases turns.len(),
{
    if turns.len() == 0 {
        last == step && after == before
    } else {
        match step {
            Progress::Ask(work, machine) => {
                let turn = turns[0];
                &&& turn.fresh.well_formed()
                &&& work.performed(before, turn.outcome, turn.after)
                &&& runs(
                    machine.after(turn.outcome, turn.fresh),
                    turn.after,
                    turns.skip(1),
                    last,
                    after,
                )
            },
            _ => false,
        }
    }
}

/// A machine of which something is known at each step.
pub trait Lawful: Machine {
    /// What the machine was started with, and in which world.
    type Start;

    /// What is taken for granted of chance and the clock.
    spec fn granted(start: Self::Start, fresh: Fresh<Text>) -> bool;

    /// What is known at `step` in the world `now`.
    spec fn known(
        start: Self::Start,
        step: Progress<Self, Self::Value, Self::Error, Self::Work>,
        now: World,
    ) -> bool;

    /// What is known stays known from one step to the next.
    proof fn kept(
        start: Self::Start,
        work: Self::Work,
        machine: Self,
        now: World,
        outcome: <Self::Work as Labour>::Outcome,
        fresh: Fresh<Text>,
        then: World,
    )
        requires
            Self::known(start, Progress::Ask(work, machine), now),
            work.performed(now, outcome, then),
            fresh.well_formed(),
            Self::granted(start, fresh),
        ensures
            Self::known(start, machine.after(outcome, fresh), then),
    ;
}

/// What is known at a step is known at every later step of a run.
pub proof fn run_keeps<M: Lawful>(
    start: M::Start,
    step: Progress<M, M::Value, M::Error, M::Work>,
    before: World,
    turns: Seq<Turn<<M::Work as Labour>::Outcome>>,
    last: Progress<M, M::Value, M::Error, M::Work>,
    after: World,
)
    requires
        M::known(start, step, before),
        runs(step, before, turns, last, after),
        forall|i: int| 0 <= i < turns.len() ==> M::granted(start, (#[trigger] turns[i]).fresh),
    ensures
        M::known(start, last, after),
    decreases turns.len(),
{
    if turns.len() > 0 {
        if let Progress::Ask(work, machine) = step {
            let turn = turns[0];
            M::kept(start, work, machine, before, turn.outcome, turn.fresh, turn.after);
            assert forall|i: int| 0 <= i < turns.skip(1).len() implies M::granted(
                start,
                (#[trigger] turns.skip(1)[i]).fresh,
            ) by {
                assert(turns.skip(1)[i] == turns[i + 1]);
            }
            run_keeps::<M>(
                start,
                machine.after(turn.outcome, turn.fresh),
                turn.after,
                turns.skip(1),
                last,
                after,
            );
        }
    }
}

} // verus!
