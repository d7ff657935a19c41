//! Receiving the data of an upload into a file.

use crate::responses::{outcome_of, refused, Refusal, BAD_REQUEST};
use crate::statements::Progress;
use crate::tasks::{Event, EventModel, Task, TaskModel};
use crate::text::Text;
use vstd::prelude::*;
use vstd::string::*;

verus! {

/// The refusal of an upload that is larger than was announced.
pub open spec fn too_large() -> Refusal<Text> {
    refused(BAD_REQUEST, "Size of data exceeds expected size"@)
}

/// The refusal of an upload that is smaller than was announced.
pub open spec fn wrong_length() -> Refusal<Text> {
    refused(BAD_REQUEST, "File length does not match expected length"@)
}

/// Checks that no more bytes were received than were announced.
pub fn validate_bytes_written(bytes_written: u64, data_len: u64) -> (r: Result<(), Refusal>)
    ensures
        outcome_of(r) == if bytes_written > data_len {
            Err(too_large())
        } else {
            Ok(())
        },
{
    if bytes_written > data_len {
        Err(Refusal::new(BAD_REQUEST, "Size of data exceeds expected size"))
    } else {
        Ok(())
    }
}

/// Receiving the data of an upload into a file.
#[derive(Debug, PartialEq)]
pub enum Upload<S = String, Bytes = Vec<u8>> {
    /// Waits for the file to be created.
    Creating { path: S, data_len: u64, leftover: Bytes },
    /// Waits for the next chunk.
    Receiving { path: S, data_len: u64, bytes_written: u64 },
    /// Waits for what was received to be written.
    Writing { path: S, data_len: u64, bytes_written: u64 },
    /// Waits for the file to be written out.
    Flushing,
    /// Waits for the file of a refused upload to be removed.
    Removing { refusal: Refusal<S> },
}

/// The model of receiving the data of an upload.
pub type UploadModel = Upload<Text, Seq<u8>>;

impl DeepView for Upload {
    type V = UploadModel;

    open spec fn deep_view(&self) -> UploadModel {
        match *self {
            Upload::Creating { path, data_len, leftover } => Upload::Creating {
                path: path@,
                data_len,
                leftover: leftover@,
            },
            Upload::Receiving { path, data_len, bytes_written } => Upload::Receiving {
                path: path@,
                data_len,
                bytes_written,
            },
            Upload::Writing { path, data_len, bytes_written } => Upload::Writing {
                path: path@,
                data_len,
                bytes_written,
            },
            Upload::Flushing => Upload::Flushing,
            Upload::Removing { refusal } => Upload::Removing { refusal: refusal.deep_view() },
        }
    }
}

/// A step of receiving an upload, in models.
pub type UploadStep = Progress<UploadModel, (), Refusal<Text>, TaskModel>;

impl UploadModel {
    /// The first step. What was received together with the head of the upload
    /// is the first part of the data.
    pub open spec fn first(path: Text, data_len: u64, leftover: Seq<u8>) -> UploadStep {
        Progress::Ask(
            Task::CreateFile(path),
            Upload::Creating { path, data_len, leftover },
        )
    }

    /// Refuses the upload, for which the file is removed first.
    pub open spec fn refusing(path: Text, refusal: Refusal<Text>) -> UploadStep {
        Progress::Ask(Task::RemoveFile(path), Upload::Removing { refusal })
    }

    /// The step after `event`. Where another event is due, or the file cannot
    /// be written, the request is abandoned.
    pub open spec fn next(self, event: EventModel) -> UploadStep {
        match (self, event) {
            (
                Upload::Creating { path, data_len, leftover },
                Event::Completed,
            ) => if leftover.len() > data_len {
                Self::refusing(path, too_large())
            } else {
                Progress::Ask(
                    Task::AppendToFile(leftover),
                    Upload::Writing { path, data_len, bytes_written: leftover.len() as u64 },
                )
            },
            (Upload::Receiving { path, data_len, bytes_written }, Event::Chunk(chunk)) => if
                bytes_written + chunk.len() > data_len {
                Self::refusing(path, too_large())
            } else {
                Progress::Ask(
                    Task::AppendToFile(chunk),
                    Upload::Writing {
                        path,
                        data_len,
                        bytes_written: (bytes_written + chunk.len()) as u64,
                    },
                )
            },
            (Upload::Receiving { path, data_len, bytes_written }, Event::End) => if bytes_written
                == data_len {
                Progress::Ask(Task::FlushFile, Upload::Flushing)
            } else {
                Self::refusing(path, wrong_length())
            },
            (Upload::Receiving { path, .. }, Event::Broken(response)) => Self::refusing(
                path,
                Refusal::Answer(response),
            ),
            (Upload::Writing { path, data_len, bytes_written }, Event::Completed) => Progress::Ask(
                Task::ReadChunk,
                Upload::Receiving { path, data_len, bytes_written },
            ),
            (Upload::Flushing, Event::Completed) => Progress::Done(()),
            (Upload::Removing { refusal }, _) => Progress::Failed(refusal),
            _ => Progress::Failed(Refusal::Abandon),
        }
    }
}

/// Receives the data of an upload into the file with this path. `leftover` is
/// what was received of the data already.
pub fn write_transfer_request_data_to_file(path: &str, data_len: u64, leftover: Vec<u8>) -> (r:
    Progress<Upload, (), Refusal, Task>)
    ensures
        r.deep_view() == UploadModel::first(path@, data_len, leftover@),
{
    Progress::Ask(
        Task::CreateFile(path.to_owned()),
        Upload::Creating { path: path.to_owned(), data_len, leftover },
    )
}

impl Upload {
    fn refuse(path: String, refusal: Refusal) -> (r: Progress<Upload, (), Refusal, Task>)
        ensures
            r.deep_view() == UploadModel::refusing(path@, refusal.deep_view()),
    {
        Progress::Ask(Task::RemoveFile(path), Upload::Removing { refusal })
    }

    /// Goes on after `event`.
    pub fn resume(self, event: Event) -> (r: Progress<Upload, (), Refusal, Task>)
        ensures
            r.deep_view() == self.deep_view().next(event.deep_view()),
    {
        match (self, event) {
            (
                Upload::Creating { path, data_len, leftover },
                Event::Completed,
            ) => {
                let bytes_written = leftover.len() as u64;
                match validate_bytes_written(bytes_written, data_len) {
                    Err(refusal) => Self::refuse(path, refusal),
                    Ok(()) => Progress::Ask(
                        Task::AppendToFile(leftover),
                        Upload::Writing { path, data_len, bytes_written },
                    ),
                }
            },
            (Upload::Receiving { path, data_len, bytes_written }, Event::Chunk(chunk)) => {
                let bytes_written = match bytes_written.checked_add(chunk.len() as u64) {
                    Some(sum) => sum,
                    None => {
                        return Self::refuse(
                            path,
                            Refusal::new(BAD_REQUEST, "Size of data exceeds expected size"),
                        );
                    },
                };
                match validate_bytes_written(bytes_written, data_len) {
                    Err(refusal) => Self::refuse(path, refusal),
                    Ok(()) => Progress::Ask(
                        Task::AppendToFile(chunk),
                        Upload::Writing { path, data_len, bytes_written },
                    ),
                }
            },
            (Upload::Receiving { path, data_len, bytes_written }, Event::End) => {
                if bytes_written != data_len {
                    Self::refuse(
                        path,
                        Refusal::new(BAD_REQUEST, "File length does not match expected length"),
                    )
                } else {
                    Progress::Ask(Task::FlushFile, Upload::Flushing)
                }
            },
            (Upload::Receiving { path, .. }, Event::Broken(response)) => Self::refuse(
                path,
                Refusal::Answer(response),
            ),
            (Upload::Writing { path, data_len, bytes_written }, Event::Completed) => Progress::Ask(
                Task::ReadChunk,
                Upload::Receiving { path, data_len, bytes_written },
            ),
            (Upload::Flushing, Event::Completed) => Progress::Done(()),
            (Upload::Removing { refusal }, _) => Progress::Failed(refusal),
            _ => Progress::Failed(Refusal::Abandon),
        }
    }
}

} // verus!
