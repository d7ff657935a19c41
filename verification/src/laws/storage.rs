//! What holds of the files that users keep on the server.

use crate::delivery::{
    quota_verdict, FileAddition, FileAdditionStep, StoredFile,
};
use crate::fresh::Fresh;
use crate::laws::terms::{most_bytes, size_on_record};
use crate::models::FileMetadataItem;
use crate::responses::{refused, server_error, Refusal, FORBIDDEN};
use crate::statements::{Progress, ReplyModel, Statement, StoreError};
use crate::tables::{lists_ids, size_total, Tables};
use crate::text::Text;
use crate::world::{run_keeps, runs, Labour, Lawful, Machine, Turn, World};
use vstd::prelude::*;

verus! {

/// Leaving out one file takes its size off the sum.
proof fn lemma_size_without(
    ids: Seq<Text>,
    i: int,
    files: Map<Text, FileMetadataItem<Text>>,
)
    requires
        0 <= i < ids.len(),
    ensures
        size_total(ids, files) == size_total(ids.remove(i), files) + files[ids[i]].file_size,
    decreases ids.len(),
{
    if i < ids.len() - 1 {
        lemma_size_without(ids.drop_last(), i, files);
        assert(ids.remove(i).drop_last() =~= ids.drop_last().remove(i));
        assert(ids.remove(i).last() == ids.last());
    } else {
        assert(ids.remove(i) =~= ids.drop_last());
    }
}

/// The sum of sizes does not depend on the order in which the files are listed.
pub proof fn size_ignores_order(
    a: Seq<Text>,
    b: Seq<Text>,
    wanted: Set<Text>,
    files: Map<Text, FileMetadataItem<Text>>,
)
    requires
        lists_ids(a, wanted),
        lists_ids(b, wanted),
    ensures
        size_total(a, files) == size_total(b, files),
        a.len() == b.len(),
    decreases a.len(),
{
    if a.len() == 0 {
        if b.len() > 0 {
            assert(b.contains(b[0]));
            assert(a.contains(b[0]));
        }
    } else {
        let id = a.last();
        assert(a.contains(id));
        assert(b.contains(id));
        let i = b.index_of(id);
        let fewer_a = a.drop_last();
        let fewer_b = b.remove(i);
        let fewer = wanted.remove(id);
        assert forall|other: Text| #[trigger] fewer_a.contains(other) <==> fewer.contains(
            other,
        ) by {
            if fewer_a.contains(other) {
                let j = fewer_a.index_of(other);
                assert(a[j] == other);
                assert(a.contains(other));
            }
            if fewer.contains(other) {
                assert(a.contains(other));
                let j = a.index_of(other);
                assert(fewer_a[j] == other);
            }
        }
        assert forall|other: Text| #[trigger] fewer_b.contains(other) <==> fewer.contains(
            other,
        ) by {
            if fewer_b.contains(other) {
                let j = fewer_b.index_of(other);
                let k = if j < i {
                    j
                } else {
                    j + 1
                };
                assert(b[k] == other);
                assert(b.contains(other));
            }
            if fewer.contains(other) {
                assert(b.contains(other));
                let k = b.index_of(other);
                let j = if k < i {
                    k
                } else {
                    k - 1
                };
                assert(fewer_b[j] == other);
            }
        }
        size_ignores_order(fewer_a, fewer_b, fewer, files);
        lemma_size_without(b, i, files);
    }
}

/// A file that other files do not depend on does not change their sizes.
proof fn lemma_size_elsewhere(
    ids: Seq<Text>,
    files: Map<Text, FileMetadataItem<Text>>,
    row: FileMetadataItem<Text>,
)
    requires
        !ids.contains(row.id),
    ensures
        size_total(ids, files.insert(row.id, row)) == size_total(ids, files),
    decreases ids.len(),
{
    if ids.len() > 0 {
        assert forall|i: int| 0 <= i < ids.drop_last().len() implies ids.drop_last()[i]
            != row.id by {
            assert(ids.contains(ids[i]));
        }
        assert(ids.contains(ids.last()));
        lemma_size_elsewhere(ids.drop_last(), files, row);
    }
}

/// Whether the files of a user and one more of this size keep to a quota.
pub open spec fn is_within_quota(
    tables: Tables,
    user_id: Text,
    quota: i64,
    new_file_size: u64,
) -> bool {
    exists|ids: Seq<Text>| #[trigger]
        lists_ids(ids, tables.files_of(user_id)) && 0 <= size_total(ids, tables.files)
            && size_total(ids, tables.files) + new_file_size <= most_bytes(quota)
}

/// Whether the sizes of the files of the user and of the new file have a sum
/// that a `u64` can hold.
pub open spec fn is_countable(tables: Tables, user_id: Text, new_file_size: u64) -> bool {
    exists|ids: Seq<Text>| #[trigger]
        lists_ids(ids, tables.files_of(user_id)) && 0 <= size_total(ids, tables.files)
            && size_total(ids, tables.files) + new_file_size <= u64::MAX
}

/// A new file is let through exactly where it and the files that the user has
/// keep to the quota, unless the database fails. It is refused for the quota
/// otherwise, where the sum of the sizes is one that a `u64` can hold; a sum
/// that it cannot hold is a failure of the server.
pub proof fn quota_decides(
    before: World,
    user_id: Text,
    reply: ReplyModel,
    after: World,
    quota: i64,
    new_file_size: u64,
)
    requires
        (Statement::FileSizeTotal { uploader: user_id }).performed(before, reply, after),
        !reply.is_fault(),
    ensures
        quota_verdict(reply, quota, new_file_size) is Ok <==> is_within_quota(
            before.tables,
            user_id,
            quota,
            new_file_size,
        ),
        quota_verdict(reply, quota, new_file_size) is Err ==> quota_verdict(
            reply,
            quota,
            new_file_size,
        ) == Err::<(), Refusal<Text>>(
            if is_countable(before.tables, user_id, new_file_size) {
                refused(FORBIDDEN, "Transfer quota reached"@)
            } else {
                server_error()
            },
        ),
{
    let wanted = before.tables.files_of(user_id);
    let files = before.tables.files;
    let total = reply->Total_0;
    let ids = choose|ids: Seq<Text>| #[trigger]
        lists_ids(ids, wanted) && match total {
            None => ids.len() == 0,
            Some(sum) => ids.len() > 0 && sum == size_total(ids, files),
        };
    if is_within_quota(before.tables, user_id, quota, new_file_size) {
        let others = choose|others: Seq<Text>| #[trigger]
            lists_ids(others, wanted) && 0 <= size_total(others, files) && size_total(others, files)
                + new_file_size <= most_bytes(quota);
        size_ignores_order(ids, others, wanted, files);
    }
    if is_countable(before.tables, user_id, new_file_size) {
        let others = choose|others: Seq<Text>| #[trigger]
            lists_ids(others, wanted) && 0 <= size_total(others, files) && size_total(others, files)
                + new_file_size <= u64::MAX;
        size_ignores_order(ids, others, wanted, files);
    }
}

/// Whether the sum of the sizes of an uploader's files is greater by `size` in
/// the tables `after`.
pub open spec fn grows_by(before: Tables, after: Tables, uploader: Text, size: int) -> bool {
    forall|ids: Seq<Text>, more: Seq<Text>| #[trigger]
        lists_ids(ids, before.files_of(uploader)) && #[trigger] lists_ids(
            more,
            after.files_of(uploader),
        ) ==> size_total(more, after.files) == size_total(ids, before.files) + size
}

/// A new file adds its size to the sum of the sizes of its uploader's files.
pub proof fn total_grows(
    before: Tables,
    user_id: Text,
    row: FileMetadataItem<Text>,
    ids: Seq<Text>,
    more: Seq<Text>,
)
    requires
        row.uploader == user_id,
        !before.files.contains_key(row.id),
        lists_ids(ids, before.files_of(user_id)),
        lists_ids(
            more,
            (Tables { files: before.files.insert(row.id, row), ..before }).files_of(user_id),
        ),
    ensures
        size_total(more, before.files.insert(row.id, row)) == size_total(ids, before.files)
            + row.file_size,
{
    let wanted = before.files_of(user_id);
    let after = Tables { files: before.files.insert(row.id, row), ..before };
    if ids.contains(row.id) {
        assert(wanted.contains(row.id));
    }
    let all = ids.push(row.id);
    assert forall|id: Text| #[trigger] all.contains(id) <==> after.files_of(user_id).contains(
        id,
    ) by {
        if all.contains(id) {
            let i = all.index_of(id);
            if i < ids.len() {
                assert(ids[i] == id);
                assert(ids.contains(id));
            }
        }
        if after.files_of(user_id).contains(id) {
            if id == row.id {
                assert(all[ids.len() as int] == id);
            } else {
                assert(wanted.contains(id));
                assert(ids.contains(id));
                assert(all[ids.index_of(id)] == id);
            }
        }
    }
    assert(all.no_duplicates()) by {
        assert forall|i: int, j: int| 0 <= i < all.len() && 0 <= j < all.len() && i
            != j implies all[i] != all[j] by {
            if i < ids.len() {
                assert(ids.contains(ids[i]));
            }
            if j < ids.len() {
                assert(ids.contains(ids[j]));
            }
        }
    }
    size_ignores_order(more, all, after.files_of(user_id), after.files);
    assert(all.drop_last() =~= ids);
    lemma_size_elsewhere(ids, before.files, row);
}

/// When a file that was let through has been stored, the sizes of the user's
/// files add up to no more than the quota.
pub proof fn quota_bounds_files(
    before: Tables,
    user_id: Text,
    quota: i64,
    new_file_size: u64,
    row: FileMetadataItem<Text>,
    ids: Seq<Text>,
)
    requires
        is_within_quota(before, user_id, quota, new_file_size),
        row.uploader == user_id,
        row.file_size == size_on_record(new_file_size),
        !before.files.contains_key(row.id),
        lists_ids(
            ids,
            (Tables { files: before.files.insert(row.id, row), ..before }).files_of(user_id),
        ),
    ensures
        size_total(ids, before.files.insert(row.id, row)) <= most_bytes(quota),
{
    let old_ids = choose|old_ids: Seq<Text>| #[trigger]
        lists_ids(old_ids, before.files_of(user_id)) && 0 <= size_total(old_ids, before.files)
            && size_total(old_ids, before.files) + new_file_size <= most_bytes(quota);
    total_grows(before, user_id, row, old_ids, ids);
}

/// A file whose metadata are stored, and the world in which that takes place.
pub struct AddingFile {
    pub sender: Text,
    pub file_name: Text,
    pub data_len: u64,
    pub before: World,
}

impl AddingFile {
    /// Whether `row` is the metadata of the file.
    pub open spec fn makes(self, row: FileMetadataItem<Text>) -> bool {
        let users = self.before.tables.users;
        &&& users.contains_key(row.uploader)
        &&& users[row.uploader].username == self.sender
        &&& row.file_name == self.file_name
        &&& row.file_size == size_on_record(self.data_len)
    }

    /// Whether `row` is new, and nothing else has changed.
    pub open spec fn adds(self, row: FileMetadataItem<Text>, now: World) -> bool {
        &&& self.makes(row)
        &&& !self.before.tables.files.contains_key(row.id)
        &&& now.tables == (Tables {
            files: self.before.tables.files.insert(row.id, row),
            ..self.before.tables
        })
        &&& now == (World { tables: now.tables, faults: now.faults, ..self.before })
    }

    /// What is known at `step` in the world `now`.
    pub open spec fn allows(self, step: FileAdditionStep, now: World) -> bool {
        &&& now.faults >= self.before.faults
        &&& match step {
            Progress::Ask(work, FileAddition::Finding { file_name, data_len, file_url }) => {
                &&& now == (World { faults: now.faults, ..self.before })
                &&& file_name == self.file_name
                &&& data_len == self.data_len
                &&& work == (Statement::UserByUsername { username: self.sender })
            },
            Progress::Ask(work, FileAddition::Inserting { file_url, insertion }) => {
                &&& now == (World { faults: now.faults, ..self.before })
                &&& work is InsertFile
                &&& self.makes(work->InsertFile_0)
                &&& work->InsertFile_0.id == insertion.id
                &&& work->InsertFile_0.file_url == file_url
            },
            Progress::Done(stored) => exists|row: FileMetadataItem<Text>| #[trigger]
                self.adds(row, now) && row.id == stored.file_id && row.file_url == stored.file_url,
            Progress::Failed(_) => {
                &&& now == (World { faults: now.faults, ..self.before })
                &&& now.faults > self.before.faults || !self.before.tables.is_taken(self.sender)
            },
        }
    }

    /// What is known stays known from one step to the next.
    pub proof fn advance(
        self,
        work: Statement<Text>,
        machine: FileAddition<Text>,
        now: World,
        outcome: ReplyModel,
        fresh: Fresh<Text>,
        then: World,
    )
        requires
            self.allows(Progress::Ask(work, machine), now),
            work.performed(now, outcome, then),
        ensures
            self.allows(machine.next(outcome, fresh), then),
    {
        if let FileAddition::Inserting { .. } = machine {
            if outcome is Executed {
                assert(self.adds(work->InsertFile_0, then));
            }
        }
    }
}

impl Machine for FileAddition<Text> {
    type Work = Statement<Text>;

    type Value = StoredFile<Text>;

    type Error = StoreError;

    open spec fn after(self, outcome: ReplyModel, fresh: Fresh<Text>) -> FileAdditionStep {
        self.next(outcome, fresh)
    }
}

impl Lawful for FileAddition<Text> {
    type Start = AddingFile;

    open spec fn granted(start: AddingFile, fresh: Fresh<Text>) -> bool {
        true
    }

    open spec fn known(start: AddingFile, step: FileAdditionStep, now: World) -> bool {
        start.allows(step, now)
    }

    proof fn kept(
        start: AddingFile,
        work: Statement<Text>,
        machine: FileAddition<Text>,
        now: World,
        outcome: ReplyModel,
        fresh: Fresh<Text>,
        then: World,
    ) {
        start.advance(work, machine, now, outcome, fresh, then);
    }
}

/// Storing the metadata of a file adds one row, as it was asked for, and changes
/// nothing else. It fails only where the database fails or the sender does not
/// exist, and adds nothing then.
pub proof fn adding_file(
    start: AddingFile,
    fresh: Fresh<Text>,
    turns: Seq<Turn<ReplyModel>>,
    last: FileAdditionStep,
    after: World,
)
    requires
        runs(
            FileAddition::first(start.sender, start.file_name, start.data_len, fresh),
            start.before,
            turns,
            last,
            after,
        ),
    ensures
        last matches Progress::Done(stored) ==> exists|row: FileMetadataItem<Text>| #[trigger]
            start.adds(row, after) && row.id == stored.file_id && row.file_url == stored.file_url,
        last !is Done ==> after.tables == start.before.tables,
        last is Failed ==> after.faults > start.before.faults || !start.before.tables.is_taken(
            start.sender,
        ),
{
    run_keeps(
        start,
        FileAddition::first(start.sender, start.file_name, start.data_len, fresh),
        start.before,
        turns,
        last,
        after,
    );
}

} // verus!
