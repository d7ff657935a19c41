//! Clearing away transfers that have expired.

use crate::actions::{
    delete_file_metadata_item, delete_transfer_record, get_expired_transfer_records,
    get_file_metadata_item, is_file_unreferenced, is_file_unreferenced_result, unreferenced,
};
use crate::models::TransferRecord;
use crate::responses::Refusal;
use crate::statements::{Progress, Statement};
use crate::tasks::{Event, EventModel, Task, TaskModel};
use crate::text::{contains_text, Text};
use crate::time::Timestamp;
use crate::transfer::{path_of, stored_path};
use vstd::prelude::*;

verus! {

/// How long the server waits between two passes.
pub const CLEANUP_PROCESS_SLEEP_SECONDS: u64 = 5 * 60;

/// How far a pass has come with the expired records.
#[derive(Debug, PartialEq)]
pub struct Sweep<S = String, Texts = Vec<String>, Records = Vec<TransferRecord>> {
    pub storage_dir: Option<S>,
    pub expired: Records,
    /// The place in the list of expired records.
    pub index: usize,
    /// The ids of the files that no record has any more, each once.
    pub queue: Texts,
}

/// The model of how far a pass has come with the expired records.
pub type SweepModel = Sweep<Text, Seq<Text>, Seq<TransferRecord<Text>>>;

impl DeepView for Sweep {
    type V = SweepModel;

    open spec fn deep_view(&self) -> SweepModel {
        Sweep {
            storage_dir: self.storage_dir.deep_view(),
            expired: self.expired.deep_view(),
            index: self.index,
            queue: self.queue.deep_view(),
        }
    }
}

/// How far a pass has come with the files.
#[derive(Debug, PartialEq)]
pub struct FilePurge<S = String, Texts = Vec<String>> {
    pub storage_dir: Option<S>,
    pub queue: Texts,
    /// The place in the list of files.
    pub index: usize,
}

/// The model of how far a pass has come with the files.
pub type FilePurgeModel = FilePurge<Text, Seq<Text>>;

impl DeepView for FilePurge {
    type V = FilePurgeModel;

    open spec fn deep_view(&self) -> FilePurgeModel {
        FilePurge {
            storage_dir: self.storage_dir.deep_view(),
            queue: self.queue.deep_view(),
            index: self.index,
        }
    }
}

/// One pass over the expired transfers: their records are deleted, and then the
/// files that no record has any more. What cannot be deleted is passed over.
#[derive(Debug, PartialEq)]
pub enum Cleanup<S = String, Texts = Vec<String>, Records = Vec<TransferRecord>> {
    /// Waits for the expired records.
    Listing { storage_dir: Option<S> },
    /// Waits for the record in this place to be deleted.
    DeletingRecord(Sweep<S, Texts, Records>),
    /// Waits for the number of records that still have the file.
    Counting(Sweep<S, Texts, Records>),
    /// Waits for the metadata of the file in this place.
    FindingFile(FilePurge<S, Texts>),
    /// Waits for the metadata of the file in this place to be deleted.
    DeletingFile { purge: FilePurge<S, Texts>, file_url: S },
    /// Waits for the file in this place to be removed.
    RemovingFile(FilePurge<S, Texts>),
}

/// The model of a pass.
pub type CleanupModel = Cleanup<Text, Seq<Text>, Seq<TransferRecord<Text>>>;

impl DeepView for Cleanup {
    type V = CleanupModel;

    open spec fn deep_view(&self) -> CleanupModel {
        match *self {
            Cleanup::Listing { storage_dir } => Cleanup::Listing {
                storage_dir: storage_dir.deep_view(),
            },
            Cleanup::DeletingRecord(sweep) => Cleanup::DeletingRecord(sweep.deep_view()),
            Cleanup::Counting(sweep) => Cleanup::Counting(sweep.deep_view()),
            Cleanup::FindingFile(purge) => Cleanup::FindingFile(purge.deep_view()),
            Cleanup::DeletingFile { purge, file_url } => Cleanup::DeletingFile {
                purge: purge.deep_view(),
                file_url: file_url@,
            },
            Cleanup::RemovingFile(purge) => Cleanup::RemovingFile(purge.deep_view()),
        }
    }
}

/// A step of a pass, in models.
pub type CleanupStep = Progress<CleanupModel, (), Refusal<Text>, TaskModel>;

impl FilePurgeModel {
    /// Goes to the file in this place, if there is one.
    pub open spec fn visiting(self) -> CleanupStep {
        if self.index < self.queue.len() {
            Progress::Ask(
                Task::Run(Statement::FileById { id: self.queue[self.index as int] }),
                Cleanup::FindingFile(self),
            )
        } else {
            Progress::Done(())
        }
    }

    /// Goes to the file in the place behind this one, if there is one.
    pub open spec fn advancing(self) -> CleanupStep {
        if self.index + 1 < self.queue.len() {
            FilePurge { index: (self.index + 1) as usize, ..self }.visiting()
        } else {
            Progress::Done(())
        }
    }
}

impl SweepModel {
    /// Goes to the record in this place; from behind the last one, to the files.
    pub open spec fn visiting(self) -> CleanupStep {
        if self.index < self.expired.len() {
            Progress::Ask(
                Task::Run(Statement::DeleteRecord { id: self.expired[self.index as int].id }),
                Cleanup::DeletingRecord(self),
            )
        } else {
            self.purging()
        }
    }

    /// Goes to the files.
    pub open spec fn purging(self) -> CleanupStep {
        FilePurge { storage_dir: self.storage_dir, queue: self.queue, index: 0 }.visiting()
    }

    /// Goes to the record in the place behind this one; from the last one, to
    /// the files.
    pub open spec fn advancing(self) -> CleanupStep {
        if self.index + 1 < self.expired.len() {
            Sweep { index: (self.index + 1) as usize, ..self }.visiting()
        } else {
            self.purging()
        }
    }

    /// The file of the record in this place.
    pub open spec fn file_id(self) -> Text {
        self.expired[self.index as int].file_id
    }

    /// The sweep with the file of this place in the queue.
    pub open spec fn queueing(self) -> SweepModel {
        if self.queue.contains(self.file_id()) {
            self
        } else {
            Sweep { queue: self.queue.push(self.file_id()), ..self }
        }
    }
}

impl CleanupModel {
    /// The first step.
    pub open spec fn first(storage_dir: Option<Text>, now: Timestamp) -> CleanupStep {
        Progress::Ask(
            Task::Run(Statement::ExpiredRecords { now }),
            Cleanup::Listing { storage_dir },
        )
    }

    /// The step after `event`.
    pub open spec fn next(self, event: EventModel) -> CleanupStep {
        match self {
            Cleanup::Listing { storage_dir } => {
                let expired = match event.reply().records() {
                    Ok(records) => records,
                    Err(_) => Seq::empty(),
                };
                Sweep { storage_dir, expired, index: 0, queue: Seq::empty() }.visiting()
            },
            Cleanup::DeletingRecord(sweep) => match event.reply().executed() {
                Ok(()) => Progress::Ask(
                    Task::Run(Statement::CountReferences { file_id: sweep.file_id() }),
                    Cleanup::Counting(sweep),
                ),
                Err(_) => sweep.advancing(),
            },
            Cleanup::Counting(sweep) => match unreferenced(event.reply()) {
                Ok(true) => sweep.queueing().advancing(),
                _ => sweep.advancing(),
            },
            Cleanup::FindingFile(purge) => match event.reply().file() {
                Ok(file) => Progress::Ask(
                    Task::Run(Statement::DeleteFile { id: purge.queue[purge.index as int] }),
                    Cleanup::DeletingFile { purge, file_url: file.file_url },
                ),
                Err(_) => purge.advancing(),
            },
            Cleanup::DeletingFile { purge, file_url } => match event.reply().executed() {
                Ok(()) => match purge.storage_dir {
                    Some(storage_dir) => Progress::Ask(
                        Task::RemoveFile(stored_path(storage_dir, file_url)),
                        Cleanup::RemovingFile(purge),
                    ),
                    None => Progress::Failed(Refusal::Abandon),
                },
                Err(_) => purge.advancing(),
            },
            Cleanup::RemovingFile(purge) => purge.advancing(),
        }
    }

    /// Whether the place is one of the list; `next` keeps it so.
    pub open spec fn well_formed(self) -> bool {
        match self {
            Cleanup::Listing { .. } => true,
            Cleanup::DeletingRecord(sweep) => sweep.index < sweep.expired.len(),
            Cleanup::Counting(sweep) => sweep.index < sweep.expired.len(),
            Cleanup::FindingFile(purge) => purge.index < purge.queue.len(),
            Cleanup::DeletingFile { purge, .. } => purge.index < purge.queue.len(),
            Cleanup::RemovingFile(purge) => purge.index < purge.queue.len(),
        }
    }
}

/// Whether the machine in a step, if there is one, is well-formed.
pub open spec fn step_well_formed(step: CleanupStep) -> bool {
    match step {
        Progress::Ask(_, machine) => machine.well_formed(),
        _ => true,
    }
}

/// Starts a pass over the transfers that have expired at `now`.
pub fn start_file_cleanup(storage_dir: Option<String>, now: Timestamp) -> (r: Progress<
    Cleanup,
    (),
    Refusal,
    Task,
>)
    ensures
        r.deep_view() == CleanupModel::first(storage_dir.deep_view(), now),
        step_well_formed(r.deep_view()),
{
    Progress::Ask(
        Task::Run(get_expired_transfer_records(now)),
        Cleanup::Listing { storage_dir },
    )
}

impl FilePurge {
    fn visit(self) -> (r: Progress<Cleanup, (), Refusal, Task>)
        ensures
            r.deep_view() == self.deep_view().visiting(),
            step_well_formed(r.deep_view()),
    {
        if self.index < self.queue.len() {
            let statement = get_file_metadata_item(self.queue[self.index].as_str());
            Progress::Ask(Task::Run(statement), Cleanup::FindingFile(self))
        } else {
            Progress::Done(())
        }
    }

    fn advance(self) -> (r: Progress<Cleanup, (), Refusal, Task>)
        ensures
            r.deep_view() == self.deep_view().advancing(),
            step_well_formed(r.deep_view()),
    {
        if self.index < self.queue.len() {
            let purge = FilePurge {
                storage_dir: self.storage_dir,
                queue: self.queue,
                index: self.index + 1,
            };
            purge.visit()
        } else {
            Progress::Done(())
        }
    }
}

impl Sweep {
    fn visit(self) -> (r: Progress<Cleanup, (), Refusal, Task>)
        ensures
            r.deep_view() == self.deep_view().visiting(),
            step_well_formed(r.deep_view()),
    {
        if self.index < self.expired.len() {
            let statement = delete_transfer_record(self.expired[self.index].id.as_str());
            Progress::Ask(Task::Run(statement), Cleanup::DeletingRecord(self))
        } else {
            let purge = FilePurge { storage_dir: self.storage_dir, queue: self.queue, index: 0 };
            purge.visit()
        }
    }

    fn advance(self) -> (r: Progress<Cleanup, (), Refusal, Task>)
        ensures
            r.deep_view() == self.deep_view().advancing(),
            step_well_formed(r.deep_view()),
    {
        if self.index < self.expired.len() {
            let sweep = Sweep {
                storage_dir: self.storage_dir,
                expired: self.expired,
                index: self.index + 1,
                queue: self.queue,
            };
            sweep.visit()
        } else {
            let purge = FilePurge { storage_dir: self.storage_dir, queue: self.queue, index: 0 };
            purge.visit()
        }
    }

    fn enqueue(self) -> (r: Sweep)
        requires
            self.index < self.expired.len(),
        ensures
            r.deep_view() == self.deep_view().queueing(),
    {
        let file_id = self.expired[self.index].file_id.clone();
        if contains_text(&self.queue, &file_id) {
            return self;
        }
        let mut queue = self.queue;
        queue.push(file_id);
        let sweep = Sweep {
            storage_dir: self.storage_dir,
            expired: self.expired,
            index: self.index,
            queue,
        };
        assert(sweep.deep_view().queue =~= self.deep_view().queue.push(file_id@));
        sweep
    }
}

impl Cleanup {
    /// Goes on after `event`.
    pub fn resume(self, event: Event) -> (r: Progress<Cleanup, (), Refusal, Task>)
        requires
            self.deep_view().well_formed(),
        ensures
            r.deep_view() == self.deep_view().next(event.deep_view()),
            step_well_formed(r.deep_view()),
    {
        match self {
            Cleanup::Listing { storage_dir } => {
                let expired = match event.into_reply().into_records() {
                    Ok(records) => records,
                    Err(_) => Vec::new(),
                };
                let sweep = Sweep { storage_dir, expired, index: 0, queue: Vec::new() };
                assert(sweep.deep_view().queue =~= Seq::empty());
                assert(sweep.deep_view().expired =~= match event.deep_view().reply().records() {
                    Ok(records) => records,
                    Err(_) => Seq::empty(),
                });
                sweep.visit()
            },
            Cleanup::DeletingRecord(sweep) => match event.into_reply().into_executed() {
                Ok(()) => {
                    let statement = is_file_unreferenced(
                        sweep.expired[sweep.index].file_id.as_str(),
                    );
                    Progress::Ask(Task::Run(statement), Cleanup::Counting(sweep))
                },
                Err(_) => sweep.advance(),
            },
            Cleanup::Counting(sweep) => match is_file_unreferenced_result(event.into_reply()) {
                Ok(true) => sweep.enqueue().advance(),
                _ => sweep.advance(),
            },
            Cleanup::FindingFile(purge) => match event.into_reply().into_file() {
                Ok(file) => {
                    let statement = delete_file_metadata_item(purge.queue[purge.index].as_str());
                    Progress::Ask(
                        Task::Run(statement),
                        Cleanup::DeletingFile { purge, file_url: file.file_url },
                    )
                },
                Err(_) => purge.advance(),
            },
            Cleanup::DeletingFile { purge, file_url } => match event.into_reply().into_executed() {
                Ok(()) => {
                    let path = match &purge.storage_dir {
                        Some(storage_dir) => path_of(storage_dir.as_str(), file_url.as_str()),
                        None => {
                            return Progress::Failed(Refusal::Abandon);
                        },
                    };
                    Progress::Ask(Task::RemoveFile(path), Cleanup::RemovingFile(purge))
                },
                Err(_) => purge.advance(),
            },
            Cleanup::RemovingFile(purge) => purge.advance(),
        }
    }
}

} // verus!
