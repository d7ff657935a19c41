//! The tables of the database, as the statements read and change them.
//!
//! A row is kept as it was written. That a database may round a time to fewer
//! digits is left out.

use crate::models::{
    Authenticator, FileMetadataItem, TransferRecord, TransferRecordWithFileMetadata, User,
};
use crate::statements::{Reply, ReplyModel, Statement};
use crate::text::{decimal, Text};
use crate::time::Timestamp;
use vstd::prelude::*;

verus! {

/// The tables, each row under its id.
#[verifier::ext_equal]
pub struct Tables {
    pub users: Map<Text, User<Text>>,
    pub authenticators: Map<Text, Authenticator<Text>>,
    pub records: Map<Text, TransferRecord<Text>>,
    pub files: Map<Text, FileMetadataItem<Text>>,
}

impl Tables {
    /// Whether each row stands under its id, and the tables are finite.
    pub open spec fn well_formed(self) -> bool {
        &&& forall|id: Text| #[trigger]
            self.users.contains_key(id) ==> self.users[id].id == id
        &&& forall|id: Text| #[trigger]
            self.authenticators.contains_key(id) ==> self.authenticators[id].id == id
        &&& forall|id: Text| #[trigger]
            self.records.contains_key(id) ==> self.records[id].id == id
        &&& forall|id: Text| #[trigger]
            self.files.contains_key(id) ==> self.files[id].id == id
        &&& self.users.dom().finite()
        &&& self.authenticators.dom().finite()
        &&& self.records.dom().finite()
        &&& self.files.dom().finite()
    }

    /// Whether a user has this name.
    pub open spec fn is_taken(self, username: Text) -> bool {
        exists|id: Text| #[trigger]
            self.users.contains_key(id) && self.users[id].username == username
    }

    /// Whether no two users have the same name.
    pub open spec fn unique_usernames(self) -> bool {
        forall|a: Text, b: Text| #[trigger]
            self.users.contains_key(a) && #[trigger] self.users.contains_key(b)
                && self.users[a].username == self.users[b].username ==> a == b
    }

    /// Whether the record under `id` is known to `recipient` by `download_id`.
    pub open spec fn is_known_by(self, id: Text, recipient: Text, download_id: Text) -> bool {
        &&& self.records.contains_key(id)
        &&& self.records[id].recipient == recipient
        &&& self.records[id].download_id == download_id
    }

    /// Whether a record is known to `recipient` by `download_id`.
    pub open spec fn knows(self, recipient: Text, download_id: Text) -> bool {
        exists|id: Text| #[trigger] self.is_known_by(id, recipient, download_id)
    }

    /// The ids of the records that are known to `recipient` by `download_id`.
    pub open spec fn known_by(self, recipient: Text, download_id: Text) -> Set<Text> {
        Set::new(|id: Text| self.is_known_by(id, recipient, download_id))
    }

    /// The ids of the users who are approved.
    pub open spec fn approved_users(self) -> Set<Text> {
        Set::new(|id: Text| self.users.contains_key(id) && self.users[id].approved)
    }

    /// The ids of the files of an uploader.
    pub open spec fn files_of(self, uploader: Text) -> Set<Text> {
        Set::new(|id: Text| self.files.contains_key(id) && self.files[id].uploader == uploader)
    }

    /// The ids of the records for a recipient whose file and sender are there.
    pub open spec fn shown_to(self, recipient: Text) -> Set<Text> {
        Set::new(
            |id: Text|
                {
                    &&& self.records.contains_key(id)
                    &&& self.records[id].recipient == recipient
                    &&& self.files.contains_key(self.records[id].file_id)
                    &&& self.users.contains_key(self.records[id].sender)
                },
        )
    }

    /// The ids of the records that have the file.
    pub open spec fn references(self, file_id: Text) -> Set<Text> {
        Set::new(|id: Text| self.records.contains_key(id) && self.records[id].file_id == file_id)
    }

    /// Whether a record has the file.
    pub open spec fn is_referenced(self, file_id: Text) -> bool {
        exists|id: Text| #[trigger]
            self.records.contains_key(id) && self.records[id].file_id == file_id
    }

    /// Whether the record under `id` is for a user, and its download id is one
    /// of the numbers up to that user's transfer count.
    pub open spec fn is_numbered(self, id: Text) -> bool {
        let record = self.records[id];
        &&& self.users.contains_key(record.recipient)
        &&& exists|number: int|
            number <= self.users[record.recipient].transfer_count && record.download_id
                == #[trigger] decimal(number)
    }

    /// Whether a download id names one record of its recipient, and a number
    /// that the recipient's transfer count has not reached yet names none.
    pub open spec fn unique_download_ids(self) -> bool {
        &&& forall|id: Text| #[trigger] self.records.contains_key(id) ==> self.is_numbered(id)
        &&& forall|a: Text, b: Text| #[trigger]
            self.records.contains_key(a) && #[trigger] self.records.contains_key(b)
                && self.records[a].recipient == self.records[b].recipient
                && self.records[a].download_id == self.records[b].download_id ==> a == b
    }

    /// What every request and every clean-up keeps of the tables.
    pub open spec fn consistent(self) -> bool {
        &&& self.well_formed()
        &&& self.unique_usernames()
        &&& self.unique_download_ids()
    }

    /// The tables with one more transfer counted to a user.
    pub open spec fn with_count(self, user_id: Text, count: i32) -> Tables {
        Tables {
            users: self.users.insert(
                user_id,
                User { transfer_count: count, ..self.users[user_id] },
            ),
            ..self
        }
    }

    /// What a recipient is shown of the record under `id`.
    pub open spec fn shown(self, id: Text) -> TransferRecordWithFileMetadata<Text> {
        let record = self.records[id];
        let file = self.files[record.file_id];
        TransferRecordWithFileMetadata {
            download_id: record.download_id,
            sender: self.users[record.sender].username,
            shared_key: record.shared_key,
            shared_header: record.shared_header,
            shared_nonce: record.shared_nonce,
            date_created: record.date_created,
            file_name: file.file_name,
            file_size: file.file_size,
        }
    }

    /// Whether `rows` are the authenticators, the one that expires first in
    /// front.
    pub open spec fn lists_authenticators(self, rows: Seq<Authenticator<Text>>) -> bool {
        &&& forall|i: int|
            0 <= i < rows.len() ==> self.authenticators.contains_pair(
                (#[trigger] rows[i]).id,
                rows[i],
            )
        &&& forall|i: int, j: int|
            0 <= i < j < rows.len() ==> (#[trigger] rows[i]).id != (#[trigger] rows[j]).id
                && !rows[j].expiration_date.is_before(rows[i].expiration_date)
        &&& forall|id: Text| #[trigger]
            self.authenticators.contains_key(id) ==> exists|i: int|
                0 <= i < rows.len() && (#[trigger] rows[i]).id == id
    }

    /// Whether `rows` are the records that expire at `now` or before.
    pub open spec fn lists_expired(self, rows: Seq<TransferRecord<Text>>, now: Timestamp) -> bool {
        &&& forall|i: int|
            0 <= i < rows.len() ==> self.records.contains_pair((#[trigger] rows[i]).id, rows[i])
                && !now.is_before(rows[i].expires_on)
        &&& forall|i: int, j: int|
            0 <= i < j < rows.len() ==> (#[trigger] rows[i]).id != (#[trigger] rows[j]).id
        &&& forall|id: Text| #[trigger]
            self.records.contains_key(id) && !now.is_before(self.records[id].expires_on)
                ==> exists|i: int| 0 <= i < rows.len() && (#[trigger] rows[i]).id == id
    }
}

/// Whether `ids` are the members of `wanted`, each once.
pub open spec fn lists_ids(ids: Seq<Text>, wanted: Set<Text>) -> bool {
    &&& ids.no_duplicates()
    &&& forall|id: Text| #[trigger] ids.contains(id) <==> wanted.contains(id)
}

/// The sum of the sizes of the files with these ids.
pub open spec fn size_total(ids: Seq<Text>, files: Map<Text, FileMetadataItem<Text>>) -> int
    decreases ids.len(),
{
    if ids.len() == 0 {
        0
    } else {
        size_total(ids.drop_last(), files) + files[ids.last()].file_size
    }
}

impl Statement<Text> {
    /// Whether the database may reply `reply` to the statement, and `after` is
    /// what the tables are then. Any statement may fail; the tables stay as
    /// they were then.
    pub open spec fn carried_out(self, before: Tables, reply: ReplyModel, after: Tables) -> bool {
        if reply.is_fault() {
            after == before
        } else {
            match self {
                Statement::UserByUsername { username } => after == before && match reply {
                    Reply::User(row) => before.users.contains_pair(row.id, row) && row.username
                        == username,
                    Reply::Failed(_) => !before.is_taken(username),
                    _ => false,
                },
                Statement::UserById { id } => after == before && match reply {
                    Reply::User(row) => before.users.contains_pair(id, row),
                    Reply::Failed(_) => !before.users.contains_key(id),
                    _ => false,
                },
                Statement::InsertUser(row) => {
                    &&& reply is Executed
                    &&& !before.users.contains_key(row.id)
                    &&& after == (Tables { users: before.users.insert(row.id, row), ..before })
                },
                Statement::SetTransferCount { id, count } => match reply {
                    Reply::User(row) => {
                        &&& before.users.contains_key(id)
                        &&& after == before.with_count(id, count)
                        &&& row == after.users[id]
                    },
                    Reply::Failed(_) => !before.users.contains_key(id) && after == before,
                    _ => false,
                },
                Statement::ApprovedUsernames => after == before && match reply {
                    Reply::Usernames(names) => exists|ids: Seq<Text>|
                        {
                            &&& #[trigger] lists_ids(ids, before.approved_users())
                            &&& names.len() == ids.len()
                            &&& forall|i: int|
                                0 <= i < ids.len() ==> names[i] == before.users[#[trigger] ids[i]].username
                        },
                    _ => false,
                },
                Statement::FileSizeTotal { uploader } => after == before && match reply {
                    Reply::Total(total) => exists|ids: Seq<Text>|
                        {
                            &&& #[trigger] lists_ids(ids, before.files_of(uploader))
                            &&& match total {
                                None => ids.len() == 0,
                                Some(sum) => ids.len() > 0 && sum == size_total(ids, before.files),
                            }
                        },
                    _ => false,
                },
                Statement::RecordsWithFiles { recipient } => after == before && match reply {
                    Reply::RecordsWithFiles(items) => exists|ids: Seq<Text>|
                        {
                            &&& #[trigger] lists_ids(ids, before.shown_to(recipient))
                            &&& items.len() == ids.len()
                            &&& forall|i: int|
                                0 <= i < ids.len() ==> items[i] == before.shown(#[trigger] ids[i])
                        },
                    _ => false,
                },
                Statement::InsertRecord(row) => {
                    &&& reply is Executed
                    &&& !before.records.contains_key(row.id)
                    &&& after == (Tables { records: before.records.insert(row.id, row), ..before })
                },
                Statement::InsertFile(row) => {
                    &&& reply is Executed
                    &&& !before.files.contains_key(row.id)
                    &&& after == (Tables { files: before.files.insert(row.id, row), ..before })
                },
                Statement::RecordByDownload { recipient, download_id } => after == before
                    && match reply {
                    Reply::Record(row) => before.is_known_by(row.id, recipient, download_id)
                        && before.records[row.id] == row,
                    Reply::Failed(_) => !before.knows(recipient, download_id),
                    _ => false,
                },
                Statement::DeleteRecord { id } => {
                    &&& reply is Executed
                    &&& after == (Tables { records: before.records.remove(id), ..before })
                },
                Statement::DeleteRecordsByDownload { recipient, download_id } => {
                    &&& reply is Executed
                    &&& after == (Tables {
                        records: before.records.remove_keys(
                            before.known_by(recipient, download_id),
                        ),
                        ..before
                    })
                },
                Statement::FileById { id } => after == before && match reply {
                    Reply::File(row) => before.files.contains_pair(id, row),
                    Reply::Failed(_) => !before.files.contains_key(id),
                    _ => false,
                },
                Statement::CountReferences { file_id } => after == before && match reply {
                    Reply::Count(count) => exists|ids: Seq<Text>|
                        {
                            &&& #[trigger] lists_ids(ids, before.references(file_id))
                            &&& count == ids.len()
                        },
                    _ => false,
                },
                Statement::DeleteFile { id } => {
                    &&& reply is Executed
                    &&& after == (Tables { files: before.files.remove(id), ..before })
                },
                Statement::AllAuthenticators => after == before && match reply {
                    Reply::Authenticators(rows) => before.lists_authenticators(rows),
                    _ => false,
                },
                Statement::DeleteAuthenticator { id } => {
                    &&& reply is Executed
                    &&& after == (Tables {
                        authenticators: before.authenticators.remove(id),
                        ..before
                    })
                },
                Statement::InsertAuthenticator(row) => {
                    &&& reply is Executed
                    &&& !before.authenticators.contains_key(row.id)
                    &&& after == (Tables {
                        authenticators: before.authenticators.insert(row.id, row),
                        ..before
                    })
                },
                Statement::ExpiredRecords { now } => after == before && match reply {
                    Reply::Records(rows) => before.lists_expired(rows, now) && rows.len()
                        <= usize::MAX,
                    _ => false,
                },
            }
        }
    }
}

/// Whether a number of references is zero tells whether a record has the file.
pub proof fn no_references(tables: Tables, file_id: Text, reply: ReplyModel)
    requires
        (Statement::CountReferences { file_id }).carried_out(tables, reply, tables),
        reply is Count,
    ensures
        reply->Count_0 == 0 <==> !tables.is_referenced(file_id),
{
    let ids = choose|ids: Seq<Text>| #[trigger]
        lists_ids(ids, tables.references(file_id)) && reply->Count_0 == ids.len();
    if ids.len() > 0 {
        assert(ids.contains(ids[0]));
    }
    if tables.is_referenced(file_id) {
        let id = choose|id: Text| #[trigger]
            tables.records.contains_key(id) && tables.records[id].file_id == file_id;
        assert(ids.contains(id));
    }
}

/// Tables with the same users and records are consistent together.
pub proof fn consistent_with_same_records(a: Tables, b: Tables)
    requires
        a.consistent(),
        b.well_formed(),
        b.users == a.users,
        b.records == a.records,
    ensures
        b.consistent(),
{
    assert forall|id: Text| #[trigger] b.records.contains_key(id) implies b.is_numbered(id) by {
        assert(a.is_numbered(id));
        let number = choose|number: int|
            number <= a.users[a.records[id].recipient].transfer_count && a.records[id].download_id
                == #[trigger] decimal(number);
        assert(b.records[id].download_id == decimal(number));
    }
}

/// Tables with the same users and no more records are consistent together.
pub proof fn consistent_with_fewer_records(a: Tables, b: Tables)
    requires
        a.consistent(),
        b.well_formed(),
        b.users == a.users,
        b.records.submap_of(a.records),
    ensures
        b.consistent(),
{
    assert forall|id: Text| #[trigger] b.records.contains_key(id) implies b.is_numbered(id) by {
        assert(a.records.contains_key(id));
        assert(a.is_numbered(id));
        let number = choose|number: int|
            number <= a.users[a.records[id].recipient].transfer_count && a.records[id].download_id
                == #[trigger] decimal(number);
        assert(b.records[id].download_id == decimal(number));
    }
    assert forall|x: Text, y: Text| #[trigger]
        b.records.contains_key(x) && #[trigger] b.records.contains_key(y) && b.records[x].recipient
            == b.records[y].recipient && b.records[x].download_id
            == b.records[y].download_id implies x == y by {
        assert(a.records.contains_key(x) && a.records.contains_key(y));
    }
}

} // verus!
