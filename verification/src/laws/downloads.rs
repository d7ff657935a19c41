//! What holds of downloads.

use crate::actions::{FileSearch, RecordRemoval};
use crate::download::{Download, DownloadStep, Order, RecordCleanup, RecordCleanupStep};
use crate::fresh::Fresh;
use crate::laws::authenticators::{Period, Updating};
use crate::laws::signed_requests::SigningIn;
use crate::laws::succession::fewer_records_count_on;
use crate::laws::terms::{files_are_stored_in_the_directory, path_in};
use crate::payloads::DownloadRequestPayload;
use crate::responses::{refused, Refusal, BAD_REQUEST, INTERNAL_SERVER_ERROR};
use crate::sign_in::SignInStep;
use crate::statements::{Progress, Reply, ReplyModel, Statement, StoreError};
use crate::tables::{
    consistent_with_fewer_records, consistent_with_same_records, no_references, Tables,
};
use crate::tasks::{EventModel, Task, TaskModel};
use crate::text::Text;
use crate::world::{run_keeps, runs, Labour, Lawful, Machine, Turn, World};
use vstd::prelude::*;

verus! {

/// A transfer that is cleared away, and the world in which that takes place.
pub struct Clearing {
    pub user_id: Text,
    pub download_id: Text,
    pub file_id: Text,
    pub before: World,
}

impl Clearing {
    /// The tables without the records that the user knows by the download id.
    pub open spec fn without_records(self) -> Tables {
        Tables {
            records: self.before.tables.records.remove_keys(
                self.before.tables.known_by(self.user_id, self.download_id),
            ),
            ..self.before.tables
        }
    }

    /// The tables without these records, and without the file if no other
    /// record has it.
    pub open spec fn cleared(self) -> Tables {
        let tables = self.without_records();
        if tables.is_referenced(self.file_id) {
            tables
        } else {
            Tables { files: tables.files.remove(self.file_id), ..tables }
        }
    }

    /// What is known at `step` in the world `now`.
    pub open spec fn allows(self, step: RecordCleanupStep, now: World) -> bool {
        &&& now == (World { tables: now.tables, faults: now.faults, ..self.before })
        &&& now.faults >= self.before.faults
        &&& match step {
            Progress::Ask(
                work,
                RecordCleanup::Removing {
                    file_id,
                    removal: RecordRemoval::Finding { user_id, download_id },
                },
            ) => {
                &&& file_id == self.file_id
                &&& user_id == self.user_id
                &&& download_id == self.download_id
                &&& now.tables == self.before.tables
                &&& work == (Statement::RecordByDownload { recipient: user_id, download_id })
            },
            Progress::Ask(
                work,
                RecordCleanup::Removing { file_id, removal: RecordRemoval::Deleting { .. } },
            ) => {
                &&& file_id == self.file_id
                &&& now.tables == self.before.tables
                &&& self.before.tables.knows(self.user_id, self.download_id)
                &&& work == (Statement::DeleteRecordsByDownload {
                    recipient: self.user_id,
                    download_id: self.download_id,
                })
            },
            Progress::Ask(work, RecordCleanup::Counting { file_id }) => {
                &&& file_id == self.file_id
                &&& self.before.tables.knows(self.user_id, self.download_id)
                &&& now.tables == self.without_records()
                &&& work == (Statement::CountReferences { file_id })
            },
            Progress::Ask(work, RecordCleanup::DeletingFile) => {
                &&& self.before.tables.knows(self.user_id, self.download_id)
                &&& now.tables == self.without_records()
                &&& !now.tables.is_referenced(self.file_id)
                &&& work == (Statement::DeleteFile { id: self.file_id })
            },
            Progress::Done(()) => {
                &&& self.before.tables.knows(self.user_id, self.download_id)
                &&& now.tables == self.cleared()
            },
            Progress::Failed(_) => {
                &&& now.tables == self.before.tables || {
                    &&& self.before.tables.knows(self.user_id, self.download_id)
                    &&& now.tables == self.without_records()
                }
                &&& now.faults > self.before.faults || !self.before.tables.knows(
                    self.user_id,
                    self.download_id,
                )
            },
        }
    }

    /// What is known stays known from one step to the next.
    pub proof fn advance(
        self,
        work: Statement<Text>,
        machine: RecordCleanup<Text>,
        now: World,
        outcome: ReplyModel,
        then: World,
    )
        requires
            self.allows(Progress::Ask(work, machine), now),
            work.performed(now, outcome, then),
        ensures
            self.allows(machine.next(outcome), then),
    {
        if let Reply::Record(record) = outcome {
            if machine is Removing && machine->removal is Finding {
                assert(now.tables.is_known_by(record.id, self.user_id, self.download_id));
            }
        }
        if let RecordCleanup::Counting { file_id } = machine {
            if outcome is Count {
                no_references(now.tables, file_id, outcome);
            }
        }
    }

    /// Clearing away a transfer keeps the tables consistent.
    pub proof fn stays_consistent(self, tables: Tables)
        requires
            self.before.tables.consistent(),
            tables == self.before.tables || tables == self.without_records() || tables
                == self.cleared(),
        ensures
            tables.consistent(),
            tables.users == self.before.tables.users,
            tables.authenticators == self.before.tables.authenticators,
            tables.records.submap_of(self.before.tables.records),
    {
        let before = self.before.tables;
        let fewer = self.without_records();
        assert(fewer.records.dom() =~= before.records.dom().difference(
            before.known_by(self.user_id, self.download_id),
        ));
        assert(fewer.records.submap_of(before.records));
        consistent_with_fewer_records(before, fewer);
        assert(self.cleared().well_formed());
        consistent_with_same_records(fewer, self.cleared());
    }
}

impl Machine for RecordCleanup<Text> {
    type Work = Statement<Text>;

    type Value = ();

    type Error = StoreError;

    open spec fn after(self, outcome: ReplyModel, fresh: Fresh<Text>) -> RecordCleanupStep {
        self.next(outcome)
    }
}

impl Lawful for RecordCleanup<Text> {
    type Start = Clearing;

    open spec fn granted(start: Clearing, fresh: Fresh<Text>) -> bool {
        true
    }

    open spec fn known(start: Clearing, step: RecordCleanupStep, now: World) -> bool {
        start.allows(step, now)
    }

    proof fn kept(
        start: Clearing,
        work: Statement<Text>,
        machine: RecordCleanup<Text>,
        now: World,
        outcome: ReplyModel,
        fresh: Fresh<Text>,
        then: World,
    ) {
        start.advance(work, machine, now, outcome, then);
    }
}

/// Clearing away a transfer deletes the records that the user knows by the
/// download id, and the file's metadata exactly if no other record has the
/// file. Nothing else changes. It fails only where the database fails or there
/// is no such record; at most the records are gone then. It never succeeds, nor
/// changes anything, where there is none.
pub proof fn clearing(
    start: Clearing,
    turns: Seq<Turn<ReplyModel>>,
    last: RecordCleanupStep,
    after: World,
)
    requires
        start.before.tables.consistent(),
        runs(
            RecordCleanup::first(start.user_id, start.download_id, start.file_id),
            start.before,
            turns,
            last,
            after,
        ),
    ensures
        after.tables.consistent(),
        after == (World { tables: after.tables, faults: after.faults, ..start.before }),
        last is Done ==> after.tables == start.cleared(),
        last !is Done ==> after.tables == start.before.tables || after.tables
            == start.without_records(),
        !start.before.tables.knows(start.user_id, start.download_id) ==> last !is Done
            && after.tables == start.before.tables,
        last is Failed ==> after.faults > start.before.faults || !start.before.tables.knows(
            start.user_id,
            start.download_id,
        ),
{
    run_keeps(
        start,
        RecordCleanup::first(start.user_id, start.download_id, start.file_id),
        start.before,
        turns,
        last,
        after,
    );
    start.stays_consistent(after.tables);
}

/// A request to download, and the world and period in which it is served.
pub struct Downloading {
    pub payload: DownloadRequestPayload<Text>,
    pub storage_dir: Option<Text>,
    pub period: Period,
    pub before: World,
}

impl Downloading {
    /// The signing in of the user.
    pub open spec fn signing_in(self) -> SigningIn {
        SigningIn {
            username: self.payload.username,
            signed_authenticator: self.payload.signed_authenticator,
            updating: Updating { period: self.period, before: self.before },
        }
    }

    /// Whether the request comes from the user with this id.
    pub open spec fn comes_from(self, user_id: Text, now: World) -> bool {
        &&& self.signing_in().comes_from(user_id, now)
        &&& self.signing_in().updating.touches_authenticators_only(now)
    }

    /// Whether the user knows a record of the file by the download id.
    pub open spec fn asks_for(self, user_id: Text, file_id: Text) -> bool {
        exists|id: Text| #[trigger]
            self.before.tables.is_known_by(id, user_id, self.payload.download_id)
                && self.before.tables.records[id].file_id == file_id
    }

    /// Whether the file is in the database, and `path` is its path.
    pub open spec fn is_at(self, file_id: Text, path: Text) -> bool {
        &&& self.storage_dir is Some
        &&& self.before.tables.files.contains_key(file_id)
        &&& path == path_in(
            self.storage_dir->0,
            self.before.tables.files[file_id].file_url,
        )
    }

    /// Whether the user is let to the file at `path`, in the world `opened`.
    pub open spec fn finds(
        self,
        user_id: Text,
        file_id: Text,
        path: Text,
        opened: World,
    ) -> bool {
        &&& self.comes_from(user_id, opened)
        &&& self.asks_for(user_id, file_id)
        &&& self.is_at(file_id, path)
    }

    /// The clearing away of the transfer.
    pub open spec fn clearing(self, user_id: Text, file_id: Text, opened: World) -> Clearing {
        Clearing { user_id, download_id: self.payload.download_id, file_id, before: opened }
    }

    /// Whether the transfer is being cleared away.
    pub open spec fn is_clearing(
        self,
        user_id: Text,
        file_id: Text,
        path: Text,
        opened: World,
        step: RecordCleanupStep,
        now: World,
    ) -> bool {
        &&& self.finds(user_id, file_id, path, opened)
        &&& opened.disk.contains_key(path)
        &&& self.clearing(user_id, file_id, opened).allows(step, now)
    }

    /// Whether the transfer of a file that was opened is being cleared away.
    pub open spec fn is_cleaning_up(
        self,
        path: Text,
        step: RecordCleanupStep,
        now: World,
    ) -> bool {
        exists|user_id: Text, file_id: Text, opened: World| #[trigger]
            self.is_clearing(user_id, file_id, path, opened, step, now)
    }

    /// Whether the file was opened and the transfer is cleared away: the file
    /// is gone from the disk too, unless it could not be removed.
    pub open spec fn is_served(
        self,
        user_id: Text,
        file_id: Text,
        path: Text,
        opened: World,
        now: World,
    ) -> bool {
        &&& self.finds(user_id, file_id, path, opened)
        &&& opened.disk.contains_key(path)
        &&& now.tables == self.clearing(user_id, file_id, opened).cleared()
        &&& now.disk == self.before.disk.remove(path) || now.mishaps > self.before.mishaps
            && now.disk == self.before.disk
    }

    /// Whether the request may be refused by `refusal` in the world `now`.
    pub open spec fn refuses(self, refusal: Refusal<Text>, now: World) -> bool {
        ||| self.signing_in().refuses(refusal, now)
        ||| {
            &&& refusal == refused(INTERNAL_SERVER_ERROR, ""@)
            &&& now.faults > self.before.faults
            &&& exists|user_id: Text| #[trigger] self.comes_from(user_id, now)
        }
        ||| {
            &&& refusal == refused(BAD_REQUEST, "Invalid download id"@)
            &&& exists|user_id: Text| #[trigger]
                self.comes_from(user_id, now) && self.has_nothing_for(user_id)
        }
        ||| {
            &&& refusal is Abandon
            &&& self.storage_dir is None
            &&& exists|user_id: Text, file_id: Text| #[trigger]
                self.asks_for(user_id, file_id) && self.comes_from(user_id, now)
                    && self.before.tables.files.contains_key(file_id)
        }
        ||| {
            &&& refusal == refused(
                INTERNAL_SERVER_ERROR,
                "Could not find file, the file may have expired"@,
            )
            &&& exists|user_id: Text, file_id: Text, path: Text, found: World| #[trigger]
                self.finds(user_id, file_id, path, found) && now == if found.disk.contains_key(
                    path,
                ) {
                    found.with_mishap()
                } else {
                    found
                }
        }
        ||| {
            &&& refusal == refused(INTERNAL_SERVER_ERROR, "Server error"@)
            &&& now.faults > self.before.faults
            &&& self.is_half_cleared(now)
        }
    }

    /// Whether the file was opened and could not be cleared away: at most the
    /// record is gone, and the file is still there.
    pub open spec fn is_half_cleared(self, now: World) -> bool {
        exists|user_id: Text, file_id: Text, path: Text, opened: World|
            {
                let clearing = self.clearing(user_id, file_id, opened);
                &&& #[trigger] self.finds(user_id, file_id, path, opened)
                &&& opened.disk.contains_key(path)
                &&& now.tables == opened.tables || now.tables == clearing.without_records()
                &&& now.disk == self.before.disk
            }
    }

    /// Whether no user, record or file has changed; the authenticators may have
    /// been brought up to date.
    pub open spec fn leaves_all(self, now: World) -> bool {
        &&& now.tables == (Tables {
            authenticators: now.tables.authenticators,
            ..self.before.tables
        })
        &&& self.before.tables.spares(now.tables, self.period.to)
        &&& self.before.tables.trims(now.tables, self.period.to)
        &&& now.disk == self.before.disk
    }

    /// Whether the user knows no record by the download id, or one whose file
    /// is not in the database.
    pub open spec fn has_nothing_for(self, user_id: Text) -> bool {
        ||| !self.before.tables.knows(user_id, self.payload.download_id)
        ||| exists|id: Text| #[trigger]
            self.before.tables.is_known_by(id, user_id, self.payload.download_id)
                && !self.before.tables.files.contains_key(self.before.tables.records[id].file_id)
    }

    /// What is known at `step` in the world `now`.
    pub open spec fn allows(self, step: DownloadStep, now: World) -> bool {
        let order = Order {
            download_id: self.payload.download_id,
            storage_dir: self.storage_dir,
        };
        &&& self.before.tables.consistent()
        &&& now.tables.consistent()
        &&& self.before.tables.leads_to(now.tables, self.period.to)
        &&& now.faults >= self.before.faults
        &&& now.mishaps >= self.before.mishaps
        &&& step is Ask ==> now.mishaps == self.before.mishaps
        &&& match step {
            Progress::Ask(work, Download::SigningIn { order: known, sign_in }) => {
                &&& known == order
                &&& work is Run
                &&& self.signing_in().allows(Progress::Ask(work->Run_0, sign_in), now)
            },
            Progress::Ask(
                work,
                Download::Searching { order: known, user_id, search: FileSearch::Record },
            ) => {
                &&& known == order
                &&& self.comes_from(user_id, now)
                &&& work == (Task::<Text, Seq<u8>>::Run(
                    Statement::RecordByDownload {
                        recipient: user_id,
                        download_id: order.download_id,
                    },
                ))
            },
            Progress::Ask(
                work,
                Download::Searching { order: known, user_id, search: FileSearch::File },
            ) => {
                &&& known == order
                &&& self.comes_from(user_id, now)
                &&& work is Run
                &&& work->Run_0 is FileById
                &&& self.asks_for(user_id, work->Run_0->FileById_id)
            },
            Progress::Ask(work, Download::Opening { download_id, user_id, file_id, path }) => {
                &&& download_id == order.download_id
                &&& self.finds(user_id, file_id, path, now)
                &&& work == (Task::<Text, Seq<u8>>::OpenFile(path))
            },
            Progress::Ask(work, Download::CleaningUp { path, cleanup }) => {
                &&& work is Run
                &&& self.is_cleaning_up(path, Progress::Ask(work->Run_0, cleanup), now)
            },
            Progress::Ask(work, Download::RemovingFile) => {
                &&& work is RemoveFile
                &&& self.is_cleaning_up(work->RemoveFile_0, Progress::Done(()), now)
            },
            Progress::Done(()) => exists|user_id: Text, file_id: Text, path: Text, opened: World|
             #[trigger]
                self.is_served(user_id, file_id, path, opened, now),
            Progress::Failed(refusal) => {
                &&& self.refuses(refusal, now)
                &&& self.leaves_all(now) || now.faults > self.before.faults
                    && self.is_half_cleared(now)
            },
        }
    }

    /// From a step of signing in on, what is known of it is known of the
    /// download.
    proof fn signs_in(self, step: SignInStep, now: World)
        requires
            self.before.tables.consistent(),
            self.signing_in().allows(step, now),
        ensures
            self.allows(
                Download::signed_in(
                    Order {
                        download_id: self.payload.download_id,
                        storage_dir: self.storage_dir,
                    },
                    step,
                ),
                now,
            ),
    {
        consistent_with_same_records(self.before.tables, now.tables);
    }

    /// From a step of clearing away the transfer on, what is known of it is
    /// known of the download.
    proof fn cleans_up(
        self,
        user_id: Text,
        file_id: Text,
        path: Text,
        opened: World,
        step: RecordCleanupStep,
        now: World,
    )
        requires
            self.before.tables.consistent(),
            opened.tables.consistent(),
            opened.faults >= self.before.faults,
            self.is_clearing(user_id, file_id, path, opened, step, now),
        ensures
            self.allows(Download::cleaned_up(path, step), now),
    {
        let start = self.clearing(user_id, file_id, opened);
        start.stays_consistent(now.tables);
        fewer_records_count_on(self.before.tables, now.tables);
        assert(self.is_cleaning_up(path, step, now));
        if let Progress::Done(nothing) = step {
            assert(nothing == ());
        }
        if step is Failed {
            let id = choose|id: Text| #[trigger]
                self.before.tables.is_known_by(id, user_id, self.payload.download_id)
                    && self.before.tables.records[id].file_id == file_id;
            assert(opened.tables.is_known_by(id, user_id, self.payload.download_id));
        }
    }

    /// What is known stays known from one step to the next.
    pub proof fn advance(
        self,
        work: TaskModel,
        machine: Download<Text>,
        now: World,
        outcome: EventModel,
        fresh: Fresh<Text>,
        then: World,
    )
        requires
            self.allows(Progress::Ask(work, machine), now),
            work.performed(now, outcome, then),
            fresh.well_formed(),
            self.period.covers(fresh.now),
        ensures
            self.allows(machine.next(outcome, fresh), then),
    {
        let download_id = self.payload.download_id;
        match machine {
            Download::SigningIn { order, sign_in } => {
                self.signing_in().advance(
                    work->Run_0,
                    sign_in,
                    now,
                    outcome->Reply_0,
                    fresh,
                    then,
                );
                self.signs_in(sign_in.next(outcome->Reply_0, fresh), then);
            },
            Download::Searching { order, user_id, search } => {
                consistent_with_same_records(self.before.tables, then.tables);
                let reply = outcome->Reply_0;
                assert(self.comes_from(user_id, then));
                match search {
                    FileSearch::Record => {
                        if let Reply::Record(record) = reply {
                            assert(self.before.tables.is_known_by(
                                record.id,
                                user_id,
                                download_id,
                            ));
                        } else {
                            assert(reply.is_fault() || !now.tables.knows(user_id, download_id));
                            if self.before.tables.knows(user_id, download_id) {
                                let id = choose|id: Text| #[trigger]
                                    self.before.tables.is_known_by(id, user_id, download_id);
                                assert(now.tables.is_known_by(id, user_id, download_id));
                            }
                        }
                    },
                    FileSearch::File => {
                        let file_id = work->Run_0->FileById_id;
                        if let Reply::File(file) = reply {
                            assert(then.tables.files.contains_key(file_id));
                            if self.storage_dir is Some {
                                let path = path_in(self.storage_dir->0, file.file_url);
                                files_are_stored_in_the_directory(
                                    self.storage_dir->0,
                                    file.file_url,
                                );
                                assert(self.finds(user_id, file.id, path, then));
                            }
                        }
                    },
                }
            },
            Download::Opening { download_id: _, user_id, file_id, path } => {
                if outcome is Completed {
                    let start = self.clearing(user_id, file_id, then);
                    let step = RecordCleanup::first(user_id, download_id, file_id);
                    assert(start.allows(step, then));
                    assert(self.is_clearing(user_id, file_id, path, then, step, then));
                    self.cleans_up(user_id, file_id, path, then, step, then);
                } else {
                    assert(self.finds(user_id, file_id, path, now));
                }
            },
            Download::CleaningUp { path, cleanup } => {
                let before = Progress::Ask(work->Run_0, cleanup);
                assert(self.is_cleaning_up(path, before, now));
                let (user_id, file_id, opened) = choose|
                    user_id: Text,
                    file_id: Text,
                    opened: World,
                | #[trigger]
                    self.is_clearing(user_id, file_id, path, opened, before, now);
                let start = self.clearing(user_id, file_id, opened);
                let step = cleanup.next(outcome->Reply_0);
                start.advance(work->Run_0, cleanup, now, outcome->Reply_0, then);
                assert(self.is_clearing(user_id, file_id, path, opened, step, then));
                consistent_with_same_records(self.before.tables, opened.tables);
                self.cleans_up(user_id, file_id, path, opened, step, then);
            },
            Download::RemovingFile => {
                let path = work->RemoveFile_0;
                assert(self.is_cleaning_up(path, Progress::Done(()), now));
                let (user_id, file_id, opened) = choose|
                    user_id: Text,
                    file_id: Text,
                    opened: World,
                | #[trigger]
                    self.is_clearing(user_id, file_id, path, opened, Progress::Done(()), now);
                assert(self.is_served(user_id, file_id, path, opened, then));
            },
        }
    }
}

impl Machine for Download<Text> {
    type Work = TaskModel;

    type Value = ();

    type Error = Refusal<Text>;

    open spec fn after(self, outcome: EventModel, fresh: Fresh<Text>) -> DownloadStep {
        self.next(outcome, fresh)
    }
}

impl Lawful for Download<Text> {
    type Start = Downloading;

    open spec fn granted(start: Downloading, fresh: Fresh<Text>) -> bool {
        start.period.covers(fresh.now)
    }

    open spec fn known(start: Downloading, step: DownloadStep, now: World) -> bool {
        start.allows(step, now)
    }

    proof fn kept(
        start: Downloading,
        work: TaskModel,
        machine: Download<Text>,
        now: World,
        outcome: EventModel,
        fresh: Fresh<Text>,
        then: World,
    ) {
        start.advance(work, machine, now, outcome, fresh, then);
    }
}

/// A file is opened only for an approved user who has signed an authenticator
/// and knows a record of the file by the download id. When it is sent, the
/// record is gone, and the file too: from the disk, and from the database
/// exactly if no other record has it. A refused request changes nothing but the
/// authenticators, unless the database fails when the file has been opened: the
/// record may be gone then. Every refusal has its reason. The tables stay
/// consistent however far it comes.
pub proof fn downloading(
    start: Downloading,
    turns: Seq<Turn<EventModel>>,
    last: DownloadStep,
    after: World,
)
    requires
        start.before.tables.consistent(),
        runs(Download::first(start.payload, start.storage_dir), start.before, turns, last, after),
        forall|i: int|
            0 <= i < turns.len() ==> start.period.covers((#[trigger] turns[i]).fresh.now),
    ensures
        after.tables.consistent(),
        start.before.tables.leads_to(after.tables, start.period.to),
        last matches Progress::Ask(Task::OpenFile(path), _) ==> exists|user_id: Text, file_id: Text|
         #[trigger]
            start.finds(user_id, file_id, path, after),
        last is Done ==> exists|user_id: Text, file_id: Text, path: Text, opened: World| #[trigger]
            start.is_served(user_id, file_id, path, opened, after),
        last matches Progress::Failed(refusal) ==> start.refuses(refusal, after) && (
        start.leaves_all(after) || after.faults > start.before.faults && start.is_half_cleared(
            after,
        )),
{
    run_keeps(
        start,
        Download::first(start.payload, start.storage_dir),
        start.before,
        turns,
        last,
        after,
    );
    if let Progress::Ask(Task::OpenFile(path), machine) = last {
        assert(machine is Opening);
        assert(start.finds(machine->Opening_user_id, machine->Opening_file_id, path, after));
    }
}

} // verus!
