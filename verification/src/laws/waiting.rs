//! What holds of a file while it waits for its recipient.

use crate::cleanup::{CleanupModel, CleanupStep};
use crate::delivery::FileAddition;
use crate::download::{Download, DownloadStep};
use crate::laws::downloads::{downloading, Downloading};
use crate::laws::expiry::{sweeping, Sweeping};
use crate::laws::terms::{files_are_stored_in_the_directory, path_in};
use crate::models::{FileMetadataItem, TransferRecord};
use crate::payloads::DownloadRequestPayload;
use crate::settings::Settings;
use crate::statements::{Progress, Statement};
use crate::tables::Tables;
use crate::tasks::{EventModel, Task, TaskModel};
use crate::text::Text;
use crate::transfer::{Transfer, TransferModel, TransferStep};
use crate::upload::Upload;
use crate::world::{runs, Labour, Machine, Turn, World};
use vstd::prelude::*;

verus! {

/// A file that waits for its recipient: the record, the file in the database,
/// what the file on the disk holds, and where files are stored.
pub struct Waiting {
    pub storage_dir: Text,
    pub record: TransferRecord<Text>,
    pub row: FileMetadataItem<Text>,
    pub data: Seq<u8>,
}

/// Different files in one directory have different paths.
proof fn lemma_paths_differ(storage_dir: Text, a: Text, b: Text)
    requires
        path_in(storage_dir, a) == path_in(storage_dir, b),
    ensures
        a == b,
{
    assert(a =~= path_in(storage_dir, a).skip(storage_dir.len() as int + 1));
    assert(b =~= path_in(storage_dir, b).skip(storage_dir.len() as int + 1));
}

impl Waiting {
    /// The path of the file.
    pub open spec fn path(self) -> Text {
        path_in(self.storage_dir, self.row.file_url)
    }

    /// Whether the record and the file are there.
    pub open spec fn is_there(self, now: World) -> bool {
        &&& self.record.file_id == self.row.id
        &&& now.tables.records.contains_pair(self.record.id, self.record)
        &&& now.tables.files.contains_pair(self.row.id, self.row)
        &&& now.disk.contains_pair(self.path(), self.data)
    }

    /// Whether no other file in the database has the same place.
    pub open spec fn has_its_place(self, tables: Tables) -> bool {
        forall|id: Text| #[trigger]
            tables.files.contains_key(id) && id != self.row.id ==> tables.files[id].file_url
                != self.row.file_url
    }

    /// Whether the record and the file are there, in a place of their own.
    pub open spec fn is_safe(self, now: World) -> bool {
        self.is_there(now) && self.has_its_place(now.tables)
    }

    /// Whether a statement has nothing to do with the record and the file.
    pub open spec fn is_spared_by(self, statement: Statement<Text>) -> bool {
        match statement {
            Statement::InsertFile(row) => row.file_url != self.row.file_url,
            Statement::DeleteRecord { id } => id != self.record.id,
            Statement::DeleteRecordsByDownload { recipient, download_id } => {
                recipient != self.record.recipient || download_id != self.record.download_id
            },
            Statement::DeleteFile { id } => id != self.row.id,
            _ => true,
        }
    }

    /// Whether a task has nothing to do with the record and the file.
    pub open spec fn is_spared(self, task: TaskModel, now: World) -> bool {
        match task {
            Task::Run(statement) => self.is_spared_by(statement),
            Task::CreateFile(path) => path != self.path(),
            Task::AppendToFile(_) => now.open != Some(self.path()),
            Task::RemoveFile(path) => path != self.path(),
            _ => true,
        }
    }

    /// A task that has nothing to do with the record and the file leaves them.
    proof fn lemma_spared(self, task: TaskModel, now: World, outcome: EventModel, then: World)
        requires
            self.is_safe(now),
            self.is_spared(task, now),
            task.performed(now, outcome, then),
        ensures
            self.is_safe(then),
    {
        if let Task::Run(statement) = task {
            if let Statement::DeleteRecordsByDownload { recipient, download_id } = statement {
                assert(!now.tables.known_by(recipient, download_id).contains(self.record.id));
            }
        }
    }

    /// Whether an upload goes to another place, where the id of this one is not
    /// drawn again.
    pub open spec fn is_avoided(self, step: TransferStep, now: World) -> bool {
        match step {
            Progress::Ask(work, machine) => {
                &&& self.is_spared(work, now)
                &&& match machine {
                    Transfer::Receiving { setup, .. } => setup.storage_dir == Some(
                        self.storage_dir,
                    ),
                    Transfer::Parsing { setup, .. } => setup.storage_dir == Some(self.storage_dir),
                    Transfer::Finding(offer) => offer.setup.storage_dir == Some(self.storage_dir),
                    Transfer::Authenticating { offer, .. } => offer.setup.storage_dir == Some(
                        self.storage_dir,
                    ),
                    Transfer::Measuring { offer, .. } => offer.setup.storage_dir == Some(
                        self.storage_dir,
                    ),
                    Transfer::AddingFile { offer, addition } => {
                        &&& offer.setup.storage_dir == Some(self.storage_dir)
                        &&& match addition {
                            FileAddition::Finding { file_url, .. } => file_url
                                != self.row.file_url,
                            FileAddition::Inserting { file_url, .. } => file_url
                                != self.row.file_url,
                        }
                    },
                    Transfer::Writing { upload, .. } => match upload {
                        Upload::Creating { path, .. } => work == Task::<Text, Seq<u8>>::CreateFile(
                            path,
                        ),
                        Upload::Receiving { path, .. } => {
                            &&& work is ReadChunk
                            &&& path != self.path()
                            &&& now.open == Some(path)
                        },
                        Upload::Writing { path, .. } => {
                            &&& work is AppendToFile
                            &&& path != self.path()
                            &&& now.open == Some(path)
                        },
                        _ => true,
                    },
                    Transfer::Delivering(_) => true,
                }
            },
            _ => true,
        }
    }

    /// An upload that goes to another place goes there with its next step too.
    proof fn lemma_avoided(
        self,
        work: TaskModel,
        machine: TransferModel,
        now: World,
        turn: Turn<EventModel>,
    )
        requires
            self.is_avoided(Progress::Ask(work, machine), now),
            work.performed(now, turn.outcome, turn.after),
            turn.fresh.id != self.row.file_url,
        ensures
            self.is_avoided(machine.next(turn.outcome, turn.fresh), turn.after),
    {
        if let Transfer::AddingFile { offer, addition } = machine {
            if let FileAddition::Inserting { file_url, insertion } = addition {
                files_are_stored_in_the_directory(self.storage_dir, file_url);
                if path_in(self.storage_dir, file_url) == self.path() {
                    lemma_paths_differ(self.storage_dir, file_url, self.row.file_url);
                }
            }
        }
    }

    /// An upload that goes to another place leaves the record and the file.
    proof fn lemma_upload_keeps(
        self,
        step: TransferStep,
        before: World,
        turns: Seq<Turn<EventModel>>,
        last: TransferStep,
        after: World,
    )
        requires
            self.is_safe(before),
            self.is_avoided(step, before),
            runs(step, before, turns, last, after),
            forall|i: int|
                0 <= i < turns.len() ==> (#[trigger] turns[i]).fresh.id != self.row.file_url,
        ensures
            self.is_safe(after),
        decreases turns.len(),
    {
        if turns.len() > 0 {
            if let Progress::Ask(work, machine) = step {
                let turn = turns[0];
                self.lemma_spared(work, before, turn.outcome, turn.after);
                self.lemma_avoided(work, machine, before, turn);
                assert forall|i: int| 0 <= i < turns.skip(1).len() implies (
                #[trigger] turns.skip(1)[i]).fresh.id != self.row.file_url by {
                    assert(turns.skip(1)[i] == turns[i + 1]);
                }
                self.lemma_upload_keeps(
                    machine.after(turn.outcome, turn.fresh),
                    turn.after,
                    turns.skip(1),
                    last,
                    after,
                );
            }
        }
    }

    /// Whether a user with the name in the request knows a record of the file by
    /// the download id.
    pub open spec fn is_wanted(
        self,
        payload: DownloadRequestPayload<Text>,
        tables: Tables,
    ) -> bool {
        exists|user_id: Text, id: Text|
            {
                &&& #[trigger] tables.is_known_by(id, user_id, payload.download_id)
                &&& tables.users.contains_key(user_id)
                &&& tables.users[user_id].username == payload.username
                &&& tables.records[id].file_id == self.row.id
            }
    }

    /// A download of another file has nothing to do with this one at any step.
    proof fn lemma_not_downloaded(
        self,
        start: Downloading,
        work: TaskModel,
        machine: Download<Text>,
        now: World,
    )
        requires
            start.storage_dir == Some(self.storage_dir),
            !self.is_wanted(start.payload, start.before.tables),
            self.is_safe(start.before),
            start.allows(Progress::Ask(work, machine), now),
        ensures
            self.is_spared(work, now),
    {
        let download_id = start.payload.download_id;
        assert forall|user_id: Text, file_id: Text|
            start.signing_in().names(user_id) && #[trigger] start.asks_for(
                user_id,
                file_id,
            ) implies file_id != self.row.id by {
            let id = choose|id: Text| #[trigger]
                start.before.tables.is_known_by(id, user_id, download_id)
                    && start.before.tables.records[id].file_id == file_id;
            assert(start.before.tables.is_known_by(id, user_id, download_id));
        }
        match machine {
            Download::CleaningUp { path, cleanup } => {
                let step = Progress::Ask(work->Run_0, cleanup);
                let (user_id, file_id, opened) = choose|
                    user_id: Text,
                    file_id: Text,
                    opened: World,
                | #[trigger]
                    start.is_clearing(user_id, file_id, path, opened, step, now);
                assert(start.asks_for(user_id, file_id));
                if user_id == self.record.recipient && download_id == self.record.download_id {
                    assert(start.before.tables.is_known_by(self.record.id, user_id, download_id));
                }
            },
            Download::RemovingFile => {
                let path = work->RemoveFile_0;
                let (user_id, file_id, opened) = choose|
                    user_id: Text,
                    file_id: Text,
                    opened: World,
                | #[trigger]
                    start.is_clearing(user_id, file_id, path, opened, Progress::Done(()), now);
                assert(start.asks_for(user_id, file_id));
                if path == self.path() {
                    lemma_paths_differ(
                        self.storage_dir,
                        start.before.tables.files[file_id].file_url,
                        self.row.file_url,
                    );
                }
            },
            _ => {},
        }
    }

    /// A download of another file leaves the record and the file.
    proof fn lemma_download_keeps(
        self,
        start: Downloading,
        step: DownloadStep,
        now: World,
        turns: Seq<Turn<EventModel>>,
        last: DownloadStep,
        after: World,
    )
        requires
            start.storage_dir == Some(self.storage_dir),
            !self.is_wanted(start.payload, start.before.tables),
            self.is_safe(start.before),
            self.is_safe(now),
            start.allows(step, now),
            runs(step, now, turns, last, after),
            forall|i: int|
                0 <= i < turns.len() ==> start.period.covers((#[trigger] turns[i]).fresh.now),
        ensures
            self.is_safe(after),
        decreases turns.len(),
    {
        if turns.len() > 0 {
            if let Progress::Ask(work, machine) = step {
                let turn = turns[0];
                self.lemma_not_downloaded(start, work, machine, now);
                self.lemma_spared(work, now, turn.outcome, turn.after);
                start.advance(work, machine, now, turn.outcome, turn.fresh, turn.after);
                assert forall|i: int| 0 <= i < turns.skip(1).len() implies start.period.covers(
                    (#[trigger] turns.skip(1)[i]).fresh.now,
                ) by {
                    assert(turns.skip(1)[i] == turns[i + 1]);
                }
                self.lemma_download_keeps(
                    start,
                    machine.after(turn.outcome, turn.fresh),
                    turn.after,
                    turns.skip(1),
                    last,
                    after,
                );
            }
        }
    }
}

/// Other uploads leave a file that waits where it is, as long as the id under
/// which it is stored is not drawn again.
pub proof fn uploads_leave_waiting_files(
    waiting: Waiting,
    settings: Settings<Text>,
    before: World,
    turns: Seq<Turn<EventModel>>,
    last: TransferStep,
    after: World,
)
    requires
        waiting.is_safe(before),
        settings.storage_dir == Some(waiting.storage_dir),
        runs(TransferModel::first(settings), before, turns, last, after),
        forall|i: int|
            0 <= i < turns.len() ==> (#[trigger] turns[i]).fresh.id != waiting.row.file_url,
    ensures
        waiting.is_safe(after),
{
    waiting.lemma_upload_keeps(TransferModel::first(settings), before, turns, last, after);
}

/// Downloads of other files leave a file that waits where it is.
pub proof fn downloads_leave_waiting_files(
    waiting: Waiting,
    start: Downloading,
    turns: Seq<Turn<EventModel>>,
    last: DownloadStep,
    after: World,
)
    requires
        start.before.tables.consistent(),
        waiting.is_safe(start.before),
        start.storage_dir == Some(waiting.storage_dir),
        !waiting.is_wanted(start.payload, start.before.tables),
        runs(Download::first(start.payload, start.storage_dir), start.before, turns, last, after),
        forall|i: int|
            0 <= i < turns.len() ==> start.period.covers((#[trigger] turns[i]).fresh.now),
    ensures
        waiting.is_safe(after),
{
    waiting.lemma_download_keeps(
        start,
        Download::first(start.payload, start.storage_dir),
        start.before,
        turns,
        last,
        after,
    );
}

/// The clean-up leaves a file that waits where it is until the record expires.
pub proof fn sweeping_leaves_waiting_files(
    waiting: Waiting,
    start: Sweeping,
    turns: Seq<Turn<EventModel>>,
    last: CleanupStep,
    after: World,
)
    requires
        start.before.tables.consistent(),
        waiting.is_safe(start.before),
        start.storage_dir == Some(waiting.storage_dir),
        start.time.is_before(waiting.record.expires_on),
        runs(CleanupModel::first(start.storage_dir, start.time), start.before, turns, last, after),
    ensures
        waiting.is_safe(after),
{
    sweeping(start, turns, last, after);
    let before = start.before.tables;
    assert(before.records.contains_key(waiting.record.id));
    assert(!start.is_expired(waiting.record.id));
    assert(after.tables.records.contains_key(waiting.record.id));
    assert(after.tables.is_referenced(waiting.row.id));
    assert(before.files.contains_key(waiting.row.id));
    assert(after.tables.files.contains_key(waiting.row.id));
    let path = waiting.path();
    assert(start.before.disk.contains_key(path));
    if !after.disk.contains_key(path) {
        let id = choose|id: Text| #[trigger]
            before.files.contains_key(id) && !after.tables.files.contains_key(id)
                && start.storage_dir is Some && path == start.path(id);
        lemma_paths_differ(
            waiting.storage_dir,
            before.files[id].file_url,
            waiting.row.file_url,
        );
    }
}

/// A recipient who asks for a file that waits is led to it. Where nothing fails
/// that might have succeeded, the request is refused only if the user cannot
/// sign in.
pub proof fn waiting_file_is_found(
    waiting: Waiting,
    start: Downloading,
    turns: Seq<Turn<EventModel>>,
    last: DownloadStep,
    after: World,
)
    requires
        start.before.tables.consistent(),
        waiting.is_there(start.before),
        start.storage_dir == Some(waiting.storage_dir),
        start.payload.download_id == waiting.record.download_id,
        start.signing_in().names(waiting.record.recipient),
        runs(Download::first(start.payload, start.storage_dir), start.before, turns, last, after),
        forall|i: int|
            0 <= i < turns.len() ==> start.period.covers((#[trigger] turns[i]).fresh.now),
    ensures
        last matches Progress::Ask(Task::OpenFile(path), _) ==> path == waiting.path()
            && after.disk.contains_pair(path, waiting.data),
        last matches Progress::Failed(refusal) ==> after.faults > start.before.faults
            || after.mishaps > start.before.mishaps || start.signing_in().refuses(refusal, after),
{
    downloading(start, turns, last, after);
    let tables = start.before.tables;
    let recipient = waiting.record.recipient;
    assert(tables.is_known_by(waiting.record.id, recipient, start.payload.download_id));
    assert forall|other: Text| start.signing_in().names(other) implies other == recipient by {
        assert(tables.users.contains_key(recipient));
        assert(tables.users.contains_key(other));
    }
    assert forall|id: Text| #[trigger]
        tables.is_known_by(id, recipient, start.payload.download_id) implies id
        == waiting.record.id by {
        assert(tables.records.contains_key(id));
        assert(tables.records.contains_key(waiting.record.id));
    }
    assert forall|user_id: Text, file_id: Text, other: Text, opened: World| #[trigger]
        start.finds(user_id, file_id, other, opened) implies other == waiting.path() && file_id
        == waiting.row.id by {
        let id = choose|id: Text| #[trigger]
            tables.is_known_by(id, user_id, start.payload.download_id) && tables.records[id].file_id
                == file_id;
        assert(id == waiting.record.id);
    }
}

} // verus!
