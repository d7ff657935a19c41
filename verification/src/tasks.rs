//! The outside work of a request that is more than database statements.

use crate::payloads::{MetadataModel, TransferRequestMetadataPayload};
use crate::responses::Response;
use crate::statements::{Reply, ReplyModel, Statement, StoreError};
use crate::text::Text;
use vstd::prelude::*;

verus! {

/// A piece of outside work.
#[derive(Debug, PartialEq)]
pub enum Task<S = String, Bytes = Vec<u8>> {
    /// Run a database statement.
    Run(Statement<S>),
    /// Read the next chunk of the request's payload.
    ReadChunk,
    /// Read the metadata of a transfer from a text in JSON.
    ParseMetadata(S),
    /// Create the file with this path, and open it for writing.
    CreateFile(S),
    /// Write to the file that was created.
    AppendToFile(Bytes),
    /// Write out what is still buffered for the file that was created.
    FlushFile,
    /// Remove the file with this path; that this fails is no matter.
    RemoveFile(S),
    /// Open the file with this path for reading.
    OpenFile(S),
}

/// The model of a piece of outside work.
pub type TaskModel = Task<Text, Seq<u8>>;

impl DeepView for Task {
    type V = TaskModel;

    open spec fn deep_view(&self) -> TaskModel {
        match *self {
            Task::Run(statement) => Task::Run(statement.deep_view()),
            Task::ReadChunk => Task::ReadChunk,
            Task::ParseMetadata(text) => Task::ParseMetadata(text@),
            Task::CreateFile(path) => Task::CreateFile(path@),
            Task::AppendToFile(bytes) => Task::AppendToFile(bytes@),
            Task::FlushFile => Task::FlushFile,
            Task::RemoveFile(path) => Task::RemoveFile(path@),
            Task::OpenFile(path) => Task::OpenFile(path@),
        }
    }
}

/// The result of a piece of outside work.
#[derive(Debug, PartialEq)]
pub enum Event<
    S = String,
    Bytes = Vec<u8>,
    DatabaseReply = Reply,
    Metadata = TransferRequestMetadataPayload,
> {
    /// The reply of the database.
    Reply(DatabaseReply),
    /// The next chunk of the payload.
    Chunk(Bytes),
    /// The payload has ended.
    End,
    /// The payload cannot be read; the answer that this calls for.
    Broken(Response<S>),
    /// The metadata of a transfer.
    Parsed(Metadata),
    /// The text is no metadata of a transfer.
    Unparsable,
    /// The file operation succeeded.
    Completed,
    /// The file operation failed.
    TaskFailed,
}

/// The model of the result of a piece of outside work.
pub type EventModel = Event<Text, Seq<u8>, ReplyModel, MetadataModel>;

impl DeepView for Event {
    type V = EventModel;

    open spec fn deep_view(&self) -> EventModel {
        match *self {
            Event::Reply(reply) => Event::Reply(reply.deep_view()),
            Event::Chunk(bytes) => Event::Chunk(bytes@),
            Event::End => Event::End,
            Event::Broken(response) => Event::Broken(response.deep_view()),
            Event::Parsed(metadata) => Event::Parsed(metadata.deep_view()),
            Event::Unparsable => Event::Unparsable,
            Event::Completed => Event::Completed,
            Event::TaskFailed => Event::TaskFailed,
        }
    }
}

impl EventModel {
    /// The reply of the database; a failure where the event is none.
    pub open spec fn reply(self) -> ReplyModel {
        match self {
            Event::Reply(reply) => reply,
            _ => Reply::Failed(StoreError::Failed),
        }
    }
}

impl Event {
    /// The reply of the database; a failure where the event is none.
    pub fn into_reply(self) -> (r: Reply)
        ensures
            r.deep_view() == self.deep_view().reply(),
    {
        match self {
            Event::Reply(reply) => reply,
            _ => Reply::Failed(StoreError::Failed),
        }
    }
}

} // verus!
