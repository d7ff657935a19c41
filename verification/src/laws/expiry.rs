//! What holds of clearing away expired transfers.

use crate::cleanup::{Cleanup, CleanupModel, CleanupStep, FilePurgeModel, Sweep, SweepModel};
use crate::fresh::Fresh;
use crate::laws::terms::{files_are_stored_in_the_directory, path_in};
use crate::models::TransferRecord;
use crate::responses::Refusal;
use crate::statements::{Progress, Statement};
use crate::tables::{consistent_with_fewer_records, no_references, Tables};
use crate::tasks::{EventModel, Task, TaskModel};
use crate::text::Text;
use crate::time::Timestamp;
use crate::world::{run_keeps, runs, Labour, Lawful, Machine, Turn, World};
use vstd::prelude::*;

verus! {

/// A pass over the transfers that have expired at `time`, and the world in
/// which it takes place.
pub struct Sweeping {
    pub storage_dir: Option<Text>,
    pub time: Timestamp,
    pub before: World,
}

impl Sweeping {
    /// Whether the record under `id` has expired.
    pub open spec fn is_expired(self, id: Text) -> bool {
        let records = self.before.tables.records;
        records.contains_key(id) && !self.time.is_before(records[id].expires_on)
    }

    /// Whether an expired record has the file.
    pub open spec fn is_affected(self, file_id: Text) -> bool {
        exists|id: Text| #[trigger]
            self.is_expired(id) && self.before.tables.records[id].file_id == file_id
    }

    /// The path of a file.
    pub open spec fn path(self, file_id: Text) -> Text {
        path_in(self.storage_dir->0, self.before.tables.files[file_id].file_url)
    }

    /// Whether no statement has failed that might have succeeded.
    pub open spec fn is_faultless(self, now: World) -> bool {
        now.faults == self.before.faults
    }

    /// Whether no file operation has failed that might have succeeded.
    pub open spec fn is_smooth(self, now: World) -> bool {
        now.mishaps == self.before.mishaps
    }

    /// Whether at most expired records are gone.
    pub open spec fn keeps_records(self, now: World) -> bool {
        &&& forall|id: Text| #[trigger]
            now.tables.records.contains_key(id) ==> self.before.tables.records.contains_pair(
                id,
                now.tables.records[id],
            )
        &&& forall|id: Text| #[trigger]
            self.before.tables.records.contains_key(id) && !self.is_expired(id)
                ==> now.tables.records.contains_key(id)
    }

    /// Whether at most files are gone from the database that an expired record
    /// had and no record has any more.
    pub open spec fn keeps_files(self, now: World) -> bool {
        &&& forall|id: Text| #[trigger]
            now.tables.files.contains_key(id) ==> self.before.tables.files.contains_pair(
                id,
                now.tables.files[id],
            )
        &&& forall|id: Text| #[trigger]
            self.before.tables.files.contains_key(id) && (now.tables.is_referenced(id)
                || !self.is_affected(id)) ==> now.tables.files.contains_key(id)
    }

    /// Whether at most the files are gone from the disk that are gone from the
    /// database.
    pub open spec fn keeps_disk(self, now: World) -> bool {
        &&& forall|path: Text| #[trigger]
            now.disk.contains_key(path) ==> self.before.disk.contains_pair(path, now.disk[path])
        &&& forall|path: Text| #[trigger]
            self.before.disk.contains_key(path) && !now.disk.contains_key(path)
                ==> exists|id: Text| #[trigger]
                self.before.tables.files.contains_key(id) && !now.tables.files.contains_key(id)
                    && self.storage_dir is Some && path == self.path(id)
    }

    /// Whether nothing but expired transfers was touched.
    pub open spec fn is_careful(self, now: World) -> bool {
        &&& self.before.tables.consistent()
        &&& now.tables.well_formed()
        &&& now.tables.users == self.before.tables.users
        &&& now.tables.authenticators == self.before.tables.authenticators
        &&& now.faults >= self.before.faults
        &&& now.mishaps >= self.before.mishaps
        &&& self.keeps_records(now)
        &&& self.keeps_files(now)
        &&& self.keeps_disk(now)
    }

    /// Whether all that has expired is gone: the records, and of the files each
    /// that an expired record had and no record has any more, from the database
    /// and, unless the file system failed, from the disk.
    pub open spec fn is_complete(self, now: World) -> bool {
        &&& forall|id: Text| #[trigger] now.tables.records.contains_key(id) ==> !self.is_expired(id)
        &&& forall|id: Text| #[trigger]
            self.before.tables.files.contains_key(id) && self.is_affected(id)
                && !now.tables.is_referenced(id) ==> !now.tables.files.contains_key(id)
                && (self.is_smooth(now) ==> !now.disk.contains_key(self.path(id)))
    }

    /// The records that have not expired.
    pub open spec fn lasting_records(self) -> Map<Text, TransferRecord<Text>> {
        self.before.tables.records.remove_keys(Set::new(|id: Text| self.is_expired(id)))
    }

    /// The ids of the files in the database that an expired record has, and no
    /// record that has not expired.
    pub open spec fn spent_files(self) -> Set<Text> {
        Set::new(
            |id: Text|
                {
                    &&& self.before.tables.files.contains_key(id)
                    &&& self.is_affected(id)
                    &&& !(Tables {
                        records: self.lasting_records(),
                        ..self.before.tables
                    }).is_referenced(id)
                },
        )
    }

    /// The paths of these files.
    pub open spec fn spent_paths(self) -> Set<Text> {
        Set::new(
            |path: Text|
                exists|id: Text| #[trigger]
                    self.spent_files().contains(id) && path == self.path(id),
        )
    }

    /// The tables without what has expired.
    pub open spec fn lasting_tables(self) -> Tables {
        Tables {
            records: self.lasting_records(),
            files: self.before.tables.files.remove_keys(self.spent_files()),
            ..self.before.tables
        }
    }

    /// Whether the first `count` of the expired records were dealt with.
    pub open spec fn has_swept(
        self,
        expired: Seq<TransferRecord<Text>>,
        count: int,
        now: World,
    ) -> bool {
        &&& expired.len() <= usize::MAX
        &&& 0 <= count <= expired.len()
        &&& self.before.tables.lists_expired(expired, self.time)
        &&& now.tables.files == self.before.tables.files
        &&& now.disk == self.before.disk
        &&& forall|i: int|
            count <= i < expired.len() ==> now.tables.records.contains_key(
                (#[trigger] expired[i]).id,
            )
        &&& self.is_faultless(now) ==> forall|i: int|
            0 <= i < count ==> !now.tables.records.contains_key((#[trigger] expired[i]).id)
    }

    /// Whether the queue has files of expired records that no record has any
    /// more, each once.
    pub open spec fn is_queue(self, queue: Seq<Text>, now: World) -> bool {
        &&& queue.len() <= usize::MAX
        &&& queue.no_duplicates()
        &&& forall|i: int|
            0 <= i < queue.len() ==> !now.tables.is_referenced(#[trigger] queue[i])
                && self.is_affected(queue[i])
    }

    /// Whether the queue has each file of the first `count` expired records
    /// that no record has any more, but for the file `spared`.
    pub open spec fn is_queued(
        expired: Seq<TransferRecord<Text>>,
        count: int,
        queue: Seq<Text>,
        spared: Option<Text>,
        now: World,
    ) -> bool {
        forall|i: int|
            0 <= i < count ==> now.tables.is_referenced((#[trigger] expired[i]).file_id)
                || queue.contains(expired[i].file_id) || spared == Some(expired[i].file_id)
    }

    /// Whether the first `count` files of the queue were dealt with, and none
    /// from place `rest` on.
    pub open spec fn has_purged(
        self,
        queue: Seq<Text>,
        count: int,
        rest: int,
        now: World,
    ) -> bool {
        &&& self.is_queue(queue, now)
        &&& 0 <= count <= rest <= queue.len()
        &&& forall|i: int|
            rest <= i < queue.len() && self.before.tables.files.contains_key(#[trigger] queue[i])
                ==> now.tables.files.contains_key(queue[i])
        &&& self.is_faultless(now) ==> {
            &&& forall|id: Text| #[trigger]
                now.tables.records.contains_key(id) ==> !self.is_expired(id)
            &&& forall|id: Text| #[trigger]
                self.is_affected(id) ==> now.tables.is_referenced(id) || queue.contains(id)
            &&& forall|i: int|
                0 <= i < count && self.before.tables.files.contains_key(#[trigger] queue[i])
                    ==> !now.tables.files.contains_key(queue[i]) && (self.is_smooth(now)
                    ==> !now.disk.contains_key(self.path(queue[i])))
        }
    }

    /// What is known at `step` in the world `now`.
    pub open spec fn allows(self, step: CleanupStep, now: World) -> bool {
        &&& self.is_careful(now)
        &&& match step {
            Progress::Ask(work, Cleanup::Listing { storage_dir }) => {
                &&& storage_dir == self.storage_dir
                &&& now == self.before
                &&& work == (Task::<Text, Seq<u8>>::Run(
                    Statement::ExpiredRecords { now: self.time },
                ))
            },
            Progress::Ask(work, Cleanup::DeletingRecord(sweep)) => {
                let count = sweep.index as int;
                &&& sweep.storage_dir == self.storage_dir
                &&& count < sweep.expired.len()
                &&& sweep.queue.len() <= count
                &&& self.has_swept(sweep.expired, count, now)
                &&& self.is_queue(sweep.queue, now)
                &&& self.is_faultless(now) ==> Self::is_queued(
                    sweep.expired,
                    count,
                    sweep.queue,
                    None,
                    now,
                )
                &&& work == (Task::<Text, Seq<u8>>::Run(
                    Statement::DeleteRecord { id: sweep.expired[count].id },
                ))
            },
            Progress::Ask(work, Cleanup::Counting(sweep)) => {
                let count = sweep.index as int;
                &&& sweep.storage_dir == self.storage_dir
                &&& count < sweep.expired.len()
                &&& sweep.queue.len() <= count
                &&& self.has_swept(sweep.expired, count + 1, now)
                &&& self.is_queue(sweep.queue, now)
                &&& self.is_faultless(now) ==> Self::is_queued(
                    sweep.expired,
                    count,
                    sweep.queue,
                    Some(sweep.file_id()),
                    now,
                )
                &&& work == (Task::<Text, Seq<u8>>::Run(
                    Statement::CountReferences { file_id: sweep.file_id() },
                ))
            },
            Progress::Ask(work, Cleanup::FindingFile(purge)) => {
                let count = purge.index as int;
                &&& purge.storage_dir == self.storage_dir
                &&& count < purge.queue.len()
                &&& self.has_purged(purge.queue, count, count, now)
                &&& work == (Task::<Text, Seq<u8>>::Run(
                    Statement::FileById { id: purge.queue[count] },
                ))
            },
            Progress::Ask(work, Cleanup::DeletingFile { purge, file_url }) => {
                let count = purge.index as int;
                &&& purge.storage_dir == self.storage_dir
                &&& count < purge.queue.len()
                &&& self.has_purged(purge.queue, count, count, now)
                &&& self.before.tables.files.contains_key(purge.queue[count])
                &&& self.before.tables.files[purge.queue[count]].file_url == file_url
                &&& work == (Task::<Text, Seq<u8>>::Run(
                    Statement::DeleteFile { id: purge.queue[count] },
                ))
            },
            Progress::Ask(work, Cleanup::RemovingFile(purge)) => {
                let count = purge.index as int;
                &&& purge.storage_dir == self.storage_dir
                &&& self.storage_dir is Some
                &&& count < purge.queue.len()
                &&& self.has_purged(purge.queue, count, count + 1, now)
                &&& self.before.tables.files.contains_key(purge.queue[count])
                &&& !now.tables.files.contains_key(purge.queue[count])
                &&& work == (Task::<Text, Seq<u8>>::RemoveFile(self.path(purge.queue[count])))
            },
            Progress::Done(()) => self.is_faultless(now) ==> self.is_complete(now),
            Progress::Failed(refusal) => {
                &&& refusal is Abandon
                &&& self.storage_dir is None
                &&& exists|id: Text| #[trigger]
                    self.before.tables.files.contains_key(id) && !now.tables.files.contains_key(id)
            },
        }
    }

    /// When all expired records were dealt with, the pass goes on to the files.
    proof fn purges(self, sweep: SweepModel, now: World)
        requires
            self.is_careful(now),
            sweep.storage_dir == self.storage_dir,
            self.has_swept(sweep.expired, sweep.expired.len() as int, now),
            self.is_queue(sweep.queue, now),
            self.is_faultless(now) ==> Self::is_queued(
                sweep.expired,
                sweep.expired.len() as int,
                sweep.queue,
                None,
                now,
            ),
        ensures
            self.allows(sweep.purging(), now),
    {
        let expired = sweep.expired;
        if self.is_faultless(now) {
            assert forall|id: Text| #[trigger]
                now.tables.records.contains_key(id) implies !self.is_expired(id) by {
                if self.is_expired(id) {
                    let i = choose|i: int| 0 <= i < expired.len() && (#[trigger] expired[i]).id
                        == id;
                    assert(!now.tables.records.contains_key(expired[i].id));
                }
            }
            assert forall|file_id: Text| #[trigger]
                self.is_affected(file_id) implies now.tables.is_referenced(file_id)
                || sweep.queue.contains(file_id) by {
                let id = choose|id: Text| #[trigger]
                    self.is_expired(id) && self.before.tables.records[id].file_id == file_id;
                assert(self.before.tables.records.contains_key(id));
                let i = choose|i: int| 0 <= i < expired.len() && (#[trigger] expired[i]).id == id;
                assert(self.before.tables.records.contains_pair(expired[i].id, expired[i]));
            }
        }
        assert(self.has_purged(sweep.queue, 0, 0, now));
    }

    /// When the record in the place of the sweep was dealt with, the pass goes
    /// on to the place behind it.
    proof fn sweeps_on(self, sweep: SweepModel, now: World)
        requires
            self.is_careful(now),
            sweep.storage_dir == self.storage_dir,
            sweep.index < sweep.expired.len(),
            sweep.queue.len() <= sweep.index + 1,
            self.has_swept(sweep.expired, sweep.index + 1, now),
            self.is_queue(sweep.queue, now),
            self.is_faultless(now) ==> Self::is_queued(
                sweep.expired,
                sweep.index + 1,
                sweep.queue,
                None,
                now,
            ),
        ensures
            self.allows(sweep.advancing(), now),
    {
        if sweep.index + 1 == sweep.expired.len() {
            self.purges(sweep, now);
        }
    }

    /// When the file in the place of the purge was dealt with, the pass goes on
    /// to the place behind it.
    proof fn purges_on(self, purge: FilePurgeModel, now: World)
        requires
            self.is_careful(now),
            purge.storage_dir == self.storage_dir,
            purge.index < purge.queue.len(),
            self.has_purged(purge.queue, purge.index + 1, purge.index + 1, now),
        ensures
            self.allows(purge.advancing(), now),
    {
        if purge.index + 1 == purge.queue.len() && self.is_faultless(now) {
            assert forall|id: Text| #[trigger]
                self.before.tables.files.contains_key(id) && self.is_affected(id)
                    && !now.tables.is_referenced(id) implies !now.tables.files.contains_key(id)
                && (self.is_smooth(now) ==> !now.disk.contains_key(self.path(id))) by {
                let i = purge.queue.index_of(id);
                assert(purge.queue[i] == id);
            }
        }
    }

    /// What is known stays known from one step to the next.
    pub proof fn advance(
        self,
        work: TaskModel,
        machine: CleanupModel,
        now: World,
        outcome: EventModel,
        then: World,
    )
        requires
            self.allows(Progress::Ask(work, machine), now),
            work.performed(now, outcome, then),
        ensures
            self.allows(machine.next(outcome), then),
    {
        let reply = outcome->Reply_0;
        match machine {
            Cleanup::Listing { storage_dir } => {
                let expired = match outcome.reply().records() {
                    Ok(records) => records,
                    Err(_) => Seq::empty(),
                };
                let sweep = Sweep { storage_dir, expired, index: 0, queue: Seq::empty() };
                if expired.len() == 0 {
                    assert(sweep.purging() is Done);
                    if reply is Records {
                        self.purges(sweep, then);
                    }
                }
            },
            Cleanup::DeletingRecord(sweep) => {
                self.deletes_record(work, sweep, now, outcome, then);
            },
            Cleanup::Counting(sweep) => {
                self.counts(work, sweep, now, outcome, then);
            },
            Cleanup::FindingFile(purge) => {
                let count = purge.index as int;
                if reply is File {
                    assert(now.tables.files.contains_key(purge.queue[count]));
                } else {
                    assert(self.has_purged(purge.queue, count + 1, count + 1, then));
                    self.purges_on(purge, then);
                }
            },
            Cleanup::DeletingFile { purge, file_url } => {
                self.deletes_file(work, purge, file_url, now, outcome, then);
            },
            Cleanup::RemovingFile(purge) => {
                let count = purge.index as int;
                let id = purge.queue[count];
                assert(self.keeps_disk(then)) by {
                    assert forall|path: Text| #[trigger]
                        self.before.disk.contains_key(path) && !then.disk.contains_key(
                            path,
                        ) implies exists|id: Text| #[trigger]
                        self.before.tables.files.contains_key(id)
                            && !then.tables.files.contains_key(id) && self.storage_dir is Some
                            && path == self.path(id) by {
                        if path == self.path(id) {
                            assert(self.before.tables.files.contains_key(id));
                        } else {
                            assert(!now.disk.contains_key(path));
                        }
                    }
                }
                assert(self.has_purged(purge.queue, count + 1, count + 1, then));
                self.purges_on(purge, then);
            },
        }
    }

    proof fn deletes_record(
        self,
        work: TaskModel,
        sweep: SweepModel,
        now: World,
        outcome: EventModel,
        then: World,
    )
        requires
            self.allows(Progress::Ask(work, Cleanup::DeletingRecord(sweep)), now),
            work.performed(now, outcome, then),
        ensures
            self.allows((Cleanup::DeletingRecord(sweep)).next(outcome), then),
    {
        let count = sweep.index as int;
        let expired = sweep.expired;
        let gone = expired[count].id;
        assert(self.before.tables.records.contains_pair(gone, expired[count]));
        assert(self.is_expired(gone));
        if outcome->Reply_0 is Executed {
            assert forall|file_id: Text| #[trigger] then.tables.is_referenced(file_id) implies
                now.tables.is_referenced(file_id) by {
                let id = choose|id: Text| #[trigger]
                    then.tables.records.contains_key(id) && then.tables.records[id].file_id
                        == file_id;
                assert(now.tables.records.contains_key(id));
            }
            assert forall|file_id: Text| #[trigger]
                now.tables.is_referenced(file_id) implies then.tables.is_referenced(file_id)
                || file_id == sweep.file_id() by {
                let id = choose|id: Text| #[trigger]
                    now.tables.records.contains_key(id) && now.tables.records[id].file_id
                        == file_id;
                if id != gone {
                    assert(then.tables.records.contains_key(id));
                }
            }
            assert(self.has_swept(expired, count + 1, then));
        } else {
            assert(then.tables == now.tables);
            assert(self.has_swept(expired, count + 1, then));
            self.sweeps_on(sweep, then);
        }
    }

    proof fn counts(
        self,
        work: TaskModel,
        sweep: SweepModel,
        now: World,
        outcome: EventModel,
        then: World,
    )
        requires
            self.allows(Progress::Ask(work, Cleanup::Counting(sweep)), now),
            work.performed(now, outcome, then),
        ensures
            self.allows((Cleanup::Counting(sweep)).next(outcome), then),
    {
        let count = sweep.index as int;
        let expired = sweep.expired;
        let file_id = sweep.file_id();
        let reply = outcome->Reply_0;
        assert(self.before.tables.records.contains_pair(expired[count].id, expired[count]));
        assert(self.is_expired(expired[count].id));
        assert(self.is_affected(file_id));
        assert(then.tables == now.tables);
        if reply is Count {
            no_references(now.tables, file_id, reply);
        }
        if reply is Count && reply->Count_0 == 0 {
            let queueing = sweep.queueing();
            if !sweep.queue.contains(file_id) {
                let queue = queueing.queue;
                assert(queue == sweep.queue.push(file_id));
                assert(queue[sweep.queue.len() as int] == file_id);
                assert(queue.contains(file_id));
                assert forall|other: Text| sweep.queue.contains(other) implies queue.contains(
                    other,
                ) by {
                    assert(queue[sweep.queue.index_of(other)] == other);
                }
                assert forall|i: int| 0 <= i < queue.len() implies !then.tables.is_referenced(
                    #[trigger] queue[i],
                ) && self.is_affected(queue[i]) by {
                    if i < sweep.queue.len() {
                        assert(queue[i] == sweep.queue[i]);
                    }
                }
                assert forall|i: int, j: int| 0 <= i < queue.len() && 0 <= j < queue.len() && i
                    != j implies queue[i] != queue[j] by {
                    if i < sweep.queue.len() {
                        assert(sweep.queue.contains(queue[i]));
                    }
                    if j < sweep.queue.len() {
                        assert(sweep.queue.contains(queue[j]));
                    }
                }
            }
            self.sweeps_on(queueing, then);
        } else {
            self.sweeps_on(sweep, then);
        }
    }

    proof fn deletes_file(
        self,
        work: TaskModel,
        purge: FilePurgeModel,
        file_url: Text,
        now: World,
        outcome: EventModel,
        then: World,
    )
        requires
            self.allows(Progress::Ask(work, Cleanup::DeletingFile { purge, file_url }), now),
            work.performed(now, outcome, then),
        ensures
            self.allows((Cleanup::DeletingFile { purge, file_url }).next(outcome), then),
    {
        let count = purge.index as int;
        let gone = purge.queue[count];
        if self.storage_dir is Some {
            files_are_stored_in_the_directory(self.storage_dir->0, file_url);
        }
        if outcome->Reply_0 is Executed {
            assert(then.tables.records == now.tables.records);
            assert forall|file_id: Text| #[trigger] then.tables.is_referenced(file_id) implies
                now.tables.is_referenced(file_id) by {
                let id = choose|id: Text| #[trigger]
                    then.tables.records.contains_key(id) && then.tables.records[id].file_id
                        == file_id;
                assert(now.tables.records.contains_key(id));
            }
            assert forall|file_id: Text| #[trigger] now.tables.is_referenced(file_id) implies
                then.tables.is_referenced(file_id) by {
                let id = choose|id: Text| #[trigger]
                    now.tables.records.contains_key(id) && now.tables.records[id].file_id
                        == file_id;
                assert(then.tables.records.contains_key(id));
            }
            assert(self.keeps_files(then));
            assert(self.keeps_disk(then)) by {
                assert forall|path: Text| #[trigger]
                    self.before.disk.contains_key(path) && !then.disk.contains_key(
                        path,
                    ) implies exists|id: Text| #[trigger]
                    self.before.tables.files.contains_key(id) && !then.tables.files.contains_key(id)
                        && self.storage_dir is Some && path == self.path(id) by {
                    assert(!now.disk.contains_key(path));
                    let id = choose|id: Text| #[trigger]
                        self.before.tables.files.contains_key(id)
                            && !now.tables.files.contains_key(id) && self.storage_dir is Some
                            && path == self.path(id);
                    assert(!then.tables.files.contains_key(id));
                }
            }
            assert(self.has_purged(purge.queue, count, count + 1, then));
        } else {
            assert(self.has_purged(purge.queue, count + 1, count + 1, then));
            self.purges_on(purge, then);
        }
    }
}

impl Sweeping {
    /// What a complete pass leaves.
    proof fn leaves_exactly(self, now: World)
        requires
            self.is_careful(now),
            self.is_complete(now),
        ensures
            now.tables == self.lasting_tables(),
            self.is_smooth(now) ==> now.disk == self.before.disk.remove_keys(self.spent_paths()),
    {
        let before = self.before.tables;
        assert(now.tables.records =~= self.lasting_records());
        let lasting = Tables { records: self.lasting_records(), ..before };
        assert forall|id: Text| #[trigger] lasting.is_referenced(id) == now.tables.is_referenced(
            id,
        ) by {
            if lasting.is_referenced(id) {
                let record = choose|record: Text| #[trigger]
                    lasting.records.contains_key(record) && lasting.records[record].file_id == id;
                assert(now.tables.records.contains_key(record));
            }
            if now.tables.is_referenced(id) {
                let record = choose|record: Text| #[trigger]
                    now.tables.records.contains_key(record) && now.tables.records[record].file_id
                        == id;
                assert(lasting.records.contains_key(record));
            }
        }
        assert(now.tables.files =~= before.files.remove_keys(self.spent_files()));
        if self.is_smooth(now) {
            assert forall|path: Text|
                self.before.disk.contains_key(path) implies #[trigger] now.disk.contains_key(path)
                == !self.spent_paths().contains(path) by {
                if self.spent_paths().contains(path) {
                    let id = choose|id: Text| #[trigger]
                        self.spent_files().contains(id) && path == self.path(id);
                    assert(before.files.contains_key(id));
                }
                if !now.disk.contains_key(path) {
                    let id = choose|id: Text| #[trigger]
                        before.files.contains_key(id) && !now.tables.files.contains_key(id)
                            && self.storage_dir is Some && path == self.path(id);
                    assert(self.spent_files().contains(id));
                }
            }
            assert(now.disk =~= self.before.disk.remove_keys(self.spent_paths()));
        }
    }
}

impl Machine for CleanupModel {
    type Work = TaskModel;

    type Value = ();

    type Error = Refusal<Text>;

    open spec fn after(self, outcome: EventModel, fresh: Fresh<Text>) -> CleanupStep {
        self.next(outcome)
    }
}

impl Lawful for CleanupModel {
    type Start = Sweeping;

    open spec fn granted(start: Sweeping, fresh: Fresh<Text>) -> bool {
        true
    }

    open spec fn known(start: Sweeping, step: CleanupStep, now: World) -> bool {
        start.allows(step, now)
    }

    proof fn kept(
        start: Sweeping,
        work: TaskModel,
        machine: CleanupModel,
        now: World,
        outcome: EventModel,
        fresh: Fresh<Text>,
        then: World,
    ) {
        start.advance(work, machine, now, outcome, then);
    }
}

/// A pass never touches a user, an authenticator, a transfer that has not
/// expired, nor a file that a record still has. Where no statement fails that
/// might have succeeded, a pass that comes to its end leaves exactly the records
/// that have not expired, and of the files in the database all but those that
/// only expired records had; where the file system does not fail either, exactly
/// these are gone from the disk. A file that is missing on the disk is no
/// failure. The tables stay consistent however far it comes, and it stops early
/// only where a file is to be removed and it is not known where files are
/// stored.
pub proof fn sweeping(
    start: Sweeping,
    turns: Seq<Turn<EventModel>>,
    last: CleanupStep,
    after: World,
)
    requires
        start.before.tables.consistent(),
        runs(CleanupModel::first(start.storage_dir, start.time), start.before, turns, last, after),
    ensures
        after.tables.consistent(),
        after.tables.users == start.before.tables.users,
        after.tables.authenticators == start.before.tables.authenticators,
        start.keeps_records(after),
        start.keeps_files(after),
        start.keeps_disk(after),
        last is Done && start.is_faultless(after) ==> after.tables == start.lasting_tables(),
        last is Done && start.is_faultless(after) && start.is_smooth(after) ==> after.disk
            == start.before.disk.remove_keys(start.spent_paths()),
        last matches Progress::Failed(refusal) ==> refusal is Abandon && start.storage_dir is None
            && exists|id: Text| #[trigger]
            start.before.tables.files.contains_key(id) && !after.tables.files.contains_key(id),
{
    run_keeps(
        start,
        CleanupModel::first(start.storage_dir, start.time),
        start.before,
        turns,
        last,
        after,
    );
    assert(after.tables.records.submap_of(start.before.tables.records));
    consistent_with_fewer_records(start.before.tables, after.tables);
    if last is Done && start.is_faultless(after) {
        start.leaves_exactly(after);
    }
}

} // verus!
