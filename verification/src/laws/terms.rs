//! The terms in which the laws speak of sizes, settings, paths and dates.

use crate::delivery::{allowance, stored_size};
use crate::frame::{big_endian, metadata_size};
use crate::settings::Settings;
use crate::text::{i64_value, joined_lines, Text};
use crate::time::Timestamp;
use crate::transfer::stored_path;
use vstd::prelude::*;

verus! {

/// The path of the file `file_url` in the directory `storage_dir`.
pub open spec fn path_in(storage_dir: Text, file_url: Text) -> Text {
    storage_dir.push('/') + file_url
}

/// The size that is on record for a file of `len` bytes. One that no `i64` can
/// hold wraps around.
pub open spec fn size_on_record(len: u64) -> int {
    if len < 0x8000_0000_0000_0000 {
        len as int
    } else {
        len - 0x1_0000_0000_0000_0000
    }
}

/// The most bytes that a quota lets a user keep. A negative quota wraps around.
pub open spec fn most_bytes(quota: i64) -> int {
    if quota < 0 {
        quota + 0x1_0000_0000_0000_0000
    } else {
        quota as int
    }
}

/// The size of the metadata that the first eight bytes of an upload announce:
/// the last four of them, the most significant one first.
pub open spec fn announced_size(body: Seq<u8>) -> int {
    body[4] * 0x100_0000 + body[5] * 0x1_0000 + body[6] * 0x100 + body[7]
}

/// Whether `date` is `seconds` later than `time`, and the calendar has both.
pub open spec fn is_later_by(date: Timestamp, time: Timestamp, seconds: int) -> bool {
    &&& time.valid()
    &&& date.valid()
    &&& date.secs == time.secs + seconds
    &&& date.nanos == time.nanos
}

impl Settings<Text> {
    /// The minutes that stand in `DEFAULT_FILE_LIFETIME_MINS`.
    pub open spec fn minutes(self) -> Option<i64> {
        if self.default_file_lifetime_mins is Some {
            i64_value(self.default_file_lifetime_mins->0)
        } else {
            None
        }
    }
}

/// Where line `i` begins, if the lines stand one behind the other with one
/// character between each two.
pub open spec fn offset(lines: Seq<Text>, i: int) -> int
    decreases i,
{
    if i <= 0 {
        0
    } else {
        offset(lines, i - 1) + lines[i - 1].len() + 1
    }
}

/// Whether line `i` stands in `body`, whole and in its place.
pub open spec fn has_line(body: Text, lines: Seq<Text>, i: int) -> bool {
    let start = offset(lines, i);
    let end = start + lines[i].len();
    0 <= start <= end <= body.len() && body.subrange(start, end) == lines[i]
}

/// Whether a line break stands behind line `i` in `body`.
pub open spec fn has_break(body: Text, lines: Seq<Text>, i: int) -> bool {
    let end = offset(lines, i) + lines[i].len();
    0 <= end < body.len() && body[end] == '\n'
}

/// Whether `body` has the lines, each whole and in its place, a line break
/// between each two, and nothing else.
pub open spec fn has_lines(body: Text, lines: Seq<Text>) -> bool {
    &&& body.len() == if lines.len() == 0 {
        0
    } else {
        offset(lines, lines.len() as int) - 1
    }
    &&& forall|i: int| 0 <= i < lines.len() ==> #[trigger] has_line(body, lines, i)
    &&& forall|i: int| 0 <= i < lines.len() - 1 ==> #[trigger] has_break(body, lines, i)
}

/// The first lines begin where they begin without the ones behind them.
proof fn lemma_offset(lines: Seq<Text>, more: Seq<Text>, i: int)
    requires
        0 <= i <= lines.len() <= more.len(),
        forall|j: int| 0 <= j < lines.len() ==> #[trigger] lines[j] == more[j],
    ensures
        offset(lines, i) == offset(more, i),
        offset(lines, i) >= 0,
    decreases i,
{
    if i > 0 {
        lemma_offset(lines, more, i - 1);
        assert(lines[i - 1] == more[i - 1]);
    }
}

/// A line that stands in a text still stands there with more behind it.
proof fn lemma_line_stays(front: Text, rest: Text, lines: Seq<Text>, more: Seq<Text>, i: int)
    requires
        0 <= i < lines.len() <= more.len(),
        forall|j: int| 0 <= j < lines.len() ==> #[trigger] lines[j] == more[j],
        has_line(front, lines, i),
    ensures
        has_line(front + rest, more, i),
        has_break(front, lines, i) ==> has_break(front + rest, more, i),
{
    lemma_offset(lines, more, i);
    let start = offset(lines, i);
    let end = start + lines[i].len();
    assert(lines[i] == more[i]);
    assert((front + rest).subrange(start, end) =~= front.subrange(start, end));
}

/// Lines that are joined all stand in the text, each whole and in its place, a
/// line break between each two, and nothing else.
pub proof fn lines_are_joined_whole(lines: Seq<Text>)
    ensures
        has_lines(joined_lines(lines), lines),
    decreases lines.len(),
{
    let body = joined_lines(lines);
    if lines.len() == 1 {
        assert(offset(lines, 0) == 0);
        assert(offset(lines, 1) == lines[0].len() + 1);
        assert(body.subrange(0, body.len() as int) =~= lines[0]);
        assert(has_line(body, lines, 0));
    } else if lines.len() > 1 {
        let fewer = lines.drop_last();
        let last = lines.len() - 1;
        let front = joined_lines(fewer);
        let rest = seq!['\n'] + lines[last];
        lines_are_joined_whole(fewer);
        assert(body =~= front + rest);
        lemma_offset(fewer, lines, last);
        assert(offset(lines, lines.len() as int) == offset(lines, last) + lines[last].len() + 1);
        assert(offset(fewer, last) == front.len() + 1);
        assert(body.subrange(offset(lines, last), body.len() as int) =~= lines[last]);
        assert(has_line(body, lines, last));
        assert forall|i: int| 0 <= i < lines.len() implies #[trigger] has_line(body, lines, i) by {
            if i < last {
                assert(has_line(front, fewer, i));
                lemma_line_stays(front, rest, fewer, lines, i);
            }
        }
        assert forall|i: int| 0 <= i < lines.len() - 1 implies #[trigger] has_break(
            body,
            lines,
            i,
        ) by {
            assert(has_line(front, fewer, i));
            if i < last - 1 {
                assert(has_break(front, fewer, i));
                lemma_line_stays(front, rest, fewer, lines, i);
            } else {
                lemma_offset(fewer, lines, i);
                assert(fewer[i] == lines[i]);
                assert(offset(fewer, last) == offset(fewer, i) + fewer[i].len() + 1);
            }
        }
    }
}

/// A file is stored in the directory, behind a slash, under its name there.
pub proof fn files_are_stored_in_the_directory(storage_dir: Text, file_url: Text)
    ensures
        stored_path(storage_dir, file_url) == path_in(storage_dir, file_url),
        stored_path(storage_dir, file_url).len() == storage_dir.len() + 1 + file_url.len(),
        stored_path(storage_dir, file_url).take(storage_dir.len() as int) == storage_dir,
        stored_path(storage_dir, file_url)[storage_dir.len() as int] == '/',
        stored_path(storage_dir, file_url).skip(storage_dir.len() as int + 1) == file_url,
{
    reveal_strlit("/");
    assert(storage_dir + "/"@ =~= storage_dir.push('/'));
    assert(path_in(storage_dir, file_url).take(storage_dir.len() as int) =~= storage_dir);
    assert(path_in(storage_dir, file_url).skip(storage_dir.len() as int + 1) =~= file_url);
}

/// The size on record is the size of the file, as long as an `i64` can hold it;
/// another one differs from it by a multiple of two to the power of sixty-four.
pub proof fn sizes_are_on_record(len: u64)
    ensures
        stored_size(len) == size_on_record(len),
        len <= i64::MAX ==> stored_size(len) == len,
        stored_size(len) == len || stored_size(len) == len - 0x1_0000_0000_0000_0000,
{
}

/// A quota allows as many bytes as it says, unless it is negative.
pub proof fn quotas_allow_what_they_say(quota: i64)
    ensures
        allowance(quota) == most_bytes(quota),
        quota >= 0 ==> allowance(quota) == quota,
        0 <= allowance(quota) <= u64::MAX,
        allowance(quota) == quota || allowance(quota) == quota + 0x1_0000_0000_0000_0000,
{
}

/// A size is announced in the last four of eight bytes, the most significant one
/// first; the first four do not matter.
pub proof fn sizes_are_announced_in_four_bytes(body: Seq<u8>)
    requires
        body.len() >= 8,
    ensures
        metadata_size(body) == announced_size(body),
{
    let head = body.take(8);
    reveal_with_fuel(big_endian, 9);
    assert(head.drop_last().last() == body[6]);
    assert(head.drop_last().drop_last().last() == body[5]);
    let high = head.drop_last().drop_last().drop_last().drop_last();
    assert(head.drop_last().drop_last().drop_last().last() == body[4]);
    assert(big_endian(head) == 0x1_0000_0000 * big_endian(high) + announced_size(body));
    assert(0 <= announced_size(body) < 0x1_0000_0000);
    vstd::arithmetic::div_mod::lemma_fundamental_div_mod_converse(
        big_endian(head) as int,
        0x1_0000_0000,
        big_endian(high) as int,
        announced_size(body),
    );
}

} // verus!
