//! What holds of the file that an upload is received into.

use crate::frame::stream;
use crate::fresh::Fresh;
use crate::responses::Refusal;
use crate::statements::Progress;
use crate::tasks::{EventModel, Task, TaskModel};
use crate::text::Text;
use crate::upload::{too_large, wrong_length, Upload, UploadModel, UploadStep};
use crate::world::{run_keeps, runs, Labour, Lawful, Machine, Turn, World};
use vstd::prelude::*;

verus! {

/// One more chunk makes the stream longer by that chunk.
pub proof fn stream_grows(chunks: Seq<Seq<u8>>, n: int)
    requires
        0 <= n < chunks.len(),
    ensures
        stream(chunks.take(n + 1)) == stream(chunks.take(n)) + chunks[n],
{
    assert(chunks.take(n + 1).drop_last() =~= chunks.take(n));
}

/// The first chunks are no longer than all of them.
pub proof fn stream_is_longest(chunks: Seq<Seq<u8>>, n: int)
    requires
        0 <= n <= chunks.len(),
    ensures
        stream(chunks.take(n)).len() <= stream(chunks).len(),
    decreases chunks.len() - n,
{
    if n < chunks.len() {
        stream_grows(chunks, n);
        stream_is_longest(chunks, n + 1);
    } else {
        assert(chunks.take(n) =~= chunks);
    }
}

/// The first chunks and the others make up the stream.
pub proof fn stream_splits(chunks: Seq<Seq<u8>>, n: int)
    requires
        0 <= n <= chunks.len(),
    ensures
        stream(chunks.take(n)) + stream(chunks.skip(n)) == stream(chunks),
    decreases chunks.len(),
{
    if n == chunks.len() {
        assert(chunks.take(n) =~= chunks);
        assert(stream(chunks.skip(n)) =~= Seq::empty());
    } else {
        let fewer = chunks.drop_last();
        stream_splits(fewer, n);
        assert(fewer.take(n) =~= chunks.take(n));
        assert(fewer.skip(n) =~= chunks.skip(n).drop_last());
        assert(chunks.skip(n).last() == chunks.last());
    }
}

/// An upload that is received into a file, and the world in which that takes
/// place.
pub struct Uploading {
    pub path: Text,
    /// How many bytes were announced.
    pub data_len: u64,
    /// What was received of the data before.
    pub leftover: Seq<u8>,
    pub before: World,
}

impl Uploading {
    /// How many chunks were read.
    pub open spec fn chunks_read(self, now: World) -> int {
        self.before.payload.len() - now.payload.len()
    }

    /// What was received of the data.
    pub open spec fn received(self, now: World) -> Seq<u8> {
        self.leftover + stream(self.before.payload.take(self.chunks_read(now)))
    }

    /// All of the data.
    pub open spec fn data(self) -> Seq<u8> {
        self.leftover + stream(self.before.payload)
    }

    /// Whether the data have the length that was announced.
    pub open spec fn fits(self) -> bool {
        self.data().len() == self.data_len
    }

    /// Whether `bytes` stand in the file, and no other file has changed.
    pub open spec fn holds(self, bytes: Seq<u8>, now: World) -> bool {
        now.disk == self.before.disk.insert(self.path, bytes)
    }

    /// Whether the upload may be refused by `refusal`: where the file system
    /// fails, more data come than were announced, the payload breaks off, or
    /// fewer data come.
    pub open spec fn refuses(self, refusal: Refusal<Text>, now: World) -> bool {
        ||| refusal is Abandon && now.mishaps > self.before.mishaps
        ||| refusal == too_large() && self.data().len() > self.data_len
        ||| {
            &&& self.before.broken is Some
            &&& refusal == Refusal::Answer(self.before.broken->0)
            &&& self.data().len() <= self.data_len
        }
        ||| {
            &&& self.before.broken is None
            &&& refusal == wrong_length()
            &&& self.data().len() < self.data_len
        }
    }

    /// Whether there is no file, and no other file has changed.
    pub open spec fn is_undone(self, now: World) -> bool {
        now.disk == self.before.disk.remove(self.path)
    }

    /// What is known at `step` in the world `now`.
    pub open spec fn allows(self, step: UploadStep, now: World) -> bool {
        let read = self.chunks_read(now);
        &&& now == (World {
            disk: now.disk,
            open: now.open,
            payload: now.payload,
            mishaps: now.mishaps,
            ..self.before
        })
        &&& now.mishaps >= self.before.mishaps
        &&& step is Ask ==> now.mishaps == self.before.mishaps
        &&& 0 <= read
        &&& now.payload == self.before.payload.skip(read)
        &&& now.disk.remove(self.path) == self.before.disk.remove(self.path)
        &&& match step {
            Progress::Ask(work, Upload::Creating { path, data_len, leftover }) => {
                &&& path == self.path && data_len == self.data_len
                &&& now == self.before
                &&& leftover == self.leftover
                &&& work == (Task::<Text, Seq<u8>>::CreateFile(path))
            },
            Progress::Ask(work, Upload::Receiving { path, data_len, bytes_written }) => {
                &&& path == self.path && data_len == self.data_len
                &&& now.open == Some(path)
                &&& self.holds(self.received(now), now)
                &&& bytes_written == self.received(now).len()
                &&& bytes_written <= data_len
                &&& work is ReadChunk
            },
            Progress::Ask(work, Upload::Writing { path, data_len, bytes_written }) => {
                &&& path == self.path && data_len == self.data_len
                &&& now.open == Some(path)
                &&& work is AppendToFile
                &&& self.holds(now.disk[path], now)
                &&& now.disk[path] + work->AppendToFile_0 == self.received(now)
                &&& bytes_written == self.received(now).len()
                &&& bytes_written <= data_len
            },
            Progress::Ask(work, Upload::Flushing) => {
                &&& now.payload.len() == 0
                &&& now.broken is None
                &&& self.fits()
                &&& self.holds(self.data(), now)
                &&& work is FlushFile
            },
            Progress::Ask(work, Upload::Removing { refusal }) => {
                &&& work == (Task::<Text, Seq<u8>>::RemoveFile(self.path))
                &&& refusal !is Abandon
                &&& self.refuses(refusal, now)
            },
            Progress::Done(()) => {
                &&& now.mishaps == self.before.mishaps
                &&& now.payload.len() == 0
                &&& now.broken is None
                &&& self.fits()
                &&& self.holds(self.data(), now)
            },
            Progress::Failed(refusal) => {
                &&& self.refuses(refusal, now)
                &&& now.mishaps > self.before.mishaps || self.is_undone(now)
            },
        }
    }

    /// What is known stays known from one step to the next.
    pub proof fn advance(
        self,
        work: TaskModel,
        machine: UploadModel,
        now: World,
        outcome: EventModel,
        then: World,
    )
        requires
            self.allows(Progress::Ask(work, machine), now),
            work.performed(now, outcome, then),
        ensures
            self.allows(machine.next(outcome), then),
    {
        let all = self.before.payload;
        let read = self.chunks_read(now);
        let read_then = self.chunks_read(then);
        assert(all.skip(read).len() > 0 ==> all.skip(read).skip(1) =~= all.skip(read + 1));
        if 0 <= read < all.len() {
            stream_grows(all, read);
        }
        stream_is_longest(all, read);
        if read_then == read + 1 {
            stream_is_longest(all, read_then);
        }
        assert(all.take(0) =~= Seq::empty());
        assert(stream(all.take(0)) =~= Seq::empty());
        assert(all.take(all.len() as int) =~= all);
        assert(then.disk.remove(self.path) =~= self.before.disk.remove(self.path));
        match machine {
            Upload::Creating { .. } => {
                assert(read_then == 0);
                assert(self.received(then) =~= self.leftover);
                assert(Seq::<u8>::empty() + self.leftover =~= self.leftover);
                assert(outcome is Completed ==> self.holds(Seq::<u8>::empty(), then));
            },
            Upload::Receiving { .. } => {
                if outcome is Chunk {
                    assert(self.received(now) + outcome->Chunk_0 =~= self.received(then));
                }
            },
            Upload::Writing { .. } => {
                assert(outcome is Completed ==> then.disk =~= self.before.disk.insert(
                    self.path,
                    self.received(then),
                ));
            },
            Upload::Removing { .. } => {
                assert(!now.disk.contains_key(self.path) ==> now.disk =~= now.disk.remove(
                    self.path,
                ));
            },
            Upload::Flushing => {},
        }
    }
}

impl Machine for UploadModel {
    type Work = TaskModel;

    type Value = ();

    type Error = Refusal<Text>;

    open spec fn after(self, outcome: EventModel, fresh: Fresh<Text>) -> UploadStep {
        self.next(outcome)
    }
}

impl Lawful for UploadModel {
    type Start = Uploading;

    open spec fn granted(start: Uploading, fresh: Fresh<Text>) -> bool {
        true
    }

    open spec fn known(start: Uploading, step: UploadStep, now: World) -> bool {
        start.allows(step, now)
    }

    proof fn kept(
        start: Uploading,
        work: TaskModel,
        machine: UploadModel,
        now: World,
        outcome: EventModel,
        fresh: Fresh<Text>,
        then: World,
    ) {
        start.advance(work, machine, now, outcome, then);
    }
}

/// An upload succeeds only where the data have exactly the length that was
/// announced; the file holds all of them then, from what was received with the
/// head to the end of the payload. An upload of another length is refused, and
/// one that breaks off is given the answer that this calls for; it leaves no
/// file then, unless the file cannot be removed. It is abandoned only where the
/// file system fails, and never succeeds then. No other file and no table
/// changes.
pub proof fn uploading(
    start: Uploading,
    turns: Seq<Turn<EventModel>>,
    last: UploadStep,
    after: World,
)
    requires
        runs(
            UploadModel::first(start.path, start.data_len, start.leftover),
            start.before,
            turns,
            last,
            after,
        ),
    ensures
        after.tables == start.before.tables,
        after.disk.remove(start.path) == start.before.disk.remove(start.path),
        last is Done ==> after.mishaps == start.before.mishaps,
        last is Done ==> start.fits() && start.before.broken is None && after.payload.len() == 0
            && start.holds(start.leftover + stream(start.before.payload), after),
        last matches Progress::Failed(refusal) ==> start.refuses(refusal, after),
        last is Failed && after.mishaps == start.before.mishaps ==> start.is_undone(after) && (
        !start.fits() || start.before.broken is Some),
{
    assert(start.before.payload.skip(0) =~= start.before.payload);
    run_keeps(
        start,
        UploadModel::first(start.path, start.data_len, start.leftover),
        start.before,
        turns,
        last,
        after,
    );
}

} // verus!
