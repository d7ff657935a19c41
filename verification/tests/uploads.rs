use sned_server::delivery::verify_wont_exceed_quota;
use sned_server::frame::{get_transfer_request_metadata_size, Frame, Framing};
use sned_server::responses::{Refusal, Response};
use sned_server::statements::{Progress, Reply, StoreError};
use sned_server::tasks::{Event, Task};
use sned_server::upload::{
    validate_bytes_written, write_transfer_request_data_to_file, Upload,
};

fn refusal(status: u16, body: &str) -> Refusal {
    Refusal::Answer(Response { status, body: body.to_string() })
}

#[test]
fn the_size_is_the_lower_half_of_a_big_endian_number() {
    assert_eq!(get_transfer_request_metadata_size(&[0, 0, 0, 0, 0, 0, 0, 0]), 0);
    assert_eq!(get_transfer_request_metadata_size(&[0, 0, 0, 0, 0, 0, 1, 2]), 258);
    assert_eq!(get_transfer_request_metadata_size(&[0, 0, 0, 0, 0x12, 0x34, 0x56, 0x78, 9]), 0x1234_5678);
    assert_eq!(get_transfer_request_metadata_size(&[255; 8]), u32::MAX);
    assert_eq!(get_transfer_request_metadata_size(&[1, 2, 3, 4, 0, 0, 0, 5]), 5);
}

fn head(text: &str, more: &[u8]) -> Vec<u8> {
    let mut bytes = (text.len() as u64).to_be_bytes().to_vec();
    bytes.extend_from_slice(text.as_bytes());
    bytes.extend_from_slice(more);
    bytes
}

#[test]
fn a_head_may_come_in_one_chunk() {
    let framing = Frame::new().receive(head("{\"a\":1}", b"rest"));
    assert_eq!(framing, Framing::Complete { text: "{\"a\":1}".to_string(), leftover: b"rest".to_vec() });
}

#[test]
fn a_head_may_come_byte_by_byte() {
    let bytes = head("h\u{e9}llo", b"");
    let mut frame = Frame::new();
    let last = bytes.len() - 1;
    for (i, byte) in bytes.into_iter().enumerate() {
        match frame.receive(vec![byte]) {
            Framing::Partial(next) => {
                assert!(i < last);
                frame = next;
            }
            Framing::Complete { text, leftover } => {
                assert_eq!(i, last);
                assert_eq!(text, "h\u{e9}llo");
                assert_eq!(leftover, vec![]);
                return;
            }
        }
    }
    panic!("the head was not complete");
}

#[test]
fn the_data_behind_the_head_is_kept_wherever_the_chunks_end() {
    let bytes = head("{}", b"data");
    for cut in 0..10 {
        let frame = match Frame::new().receive(bytes[..cut].to_vec()) {
            Framing::Partial(frame) => frame,
            other => panic!("{:?}", other),
        };
        let framing = frame.receive(bytes[cut..].to_vec());
        let expected = Framing::Complete { text: "{}".to_string(), leftover: b"data".to_vec() };
        assert_eq!(framing, expected);
    }
}

#[test]
fn empty_chunks_and_an_empty_head_are_no_trouble() {
    let frame = match Frame::new().receive(vec![]) {
        Framing::Partial(frame) => frame,
        other => panic!("{:?}", other),
    };
    let framing = frame.receive(vec![0; 8]);
    assert_eq!(framing, Framing::Complete { text: String::new(), leftover: vec![] });
}

#[test]
fn bytes_that_are_no_text_are_replaced() {
    let mut bytes = 3u64.to_be_bytes().to_vec();
    bytes.extend_from_slice(&[b'a', 0xff, b'b']);
    match Frame::new().receive(bytes) {
        Framing::Complete { text, .. } => assert_eq!(text, "a\u{fffd}b"),
        other => panic!("{:?}", other),
    }
}

#[test]
fn no_more_bytes_may_come_than_were_announced() {
    assert_eq!(validate_bytes_written(5, 5), Ok(()));
    assert_eq!(validate_bytes_written(0, 5), Ok(()));
    assert_eq!(
        validate_bytes_written(6, 5),
        Err(refusal(400, "Size of data exceeds expected size"))
    );
}

/// Serves an upload of `chunks`; the file as it is in the end, and the result.
fn receive(
    data_len: u64,
    leftover: &[u8],
    chunks: Vec<&[u8]>,
) -> (Option<Vec<u8>>, Result<(), Refusal>) {
    let mut file = None;
    let mut chunks = chunks.into_iter();
    let mut step = write_transfer_request_data_to_file("dir/file", data_len, leftover.to_vec());
    loop {
        let (task, machine): (Task, Upload) = match step {
            Progress::Ask(task, machine) => (task, machine),
            Progress::Done(()) => return (file, Ok(())),
            Progress::Failed(refusal) => return (file, Err(refusal)),
        };
        let event = match task {
            Task::CreateFile(path) => {
                assert_eq!(path, "dir/file");
                file = Some(Vec::new());
                Event::Completed
            }
            Task::ReadChunk => match chunks.next() {
                Some(chunk) => Event::Chunk(chunk.to_vec()),
                None => Event::End,
            },
            Task::AppendToFile(bytes) => {
                file.as_mut().unwrap().extend(bytes);
                Event::Completed
            }
            Task::FlushFile => Event::Completed,
            Task::RemoveFile(path) => {
                assert_eq!(path, "dir/file");
                file = None;
                Event::Completed
            }
            other => panic!("{:?}", other),
        };
        step = machine.resume(event);
    }
}

#[test]
fn a_file_of_the_announced_length_is_kept() {
    let (file, result) = receive(6, b"", vec![b"abc", b"", b"def"]);
    assert_eq!(result, Ok(()));
    assert_eq!(file, Some(b"abcdef".to_vec()));
    let (file, result) = receive(0, b"", vec![]);
    assert_eq!(result, Ok(()));
    assert_eq!(file, Some(vec![]));
}

#[test]
fn what_came_with_the_head_is_the_first_part_of_the_file() {
    let (file, result) = receive(6, b"ab", vec![b"cd", b"ef"]);
    assert_eq!(result, Ok(()));
    assert_eq!(file, Some(b"abcdef".to_vec()));
    let (file, result) = receive(6, b"abcdef", vec![]);
    assert_eq!(result, Ok(()));
    assert_eq!(file, Some(b"abcdef".to_vec()));
    let (file, result) = receive(7, b"abcdef", vec![]);
    assert_eq!(result, Err(refusal(400, "File length does not match expected length")));
    assert_eq!(file, None);
}

#[test]
fn a_file_of_another_length_is_removed() {
    let (file, result) = receive(5, b"", vec![b"abc", b"def"]);
    assert_eq!(result, Err(refusal(400, "Size of data exceeds expected size")));
    assert_eq!(file, None);
    let (file, result) = receive(7, b"", vec![b"abc", b"def"]);
    assert_eq!(result, Err(refusal(400, "File length does not match expected length")));
    assert_eq!(file, None);
    let (file, result) = receive(1, b"ab", vec![]);
    assert_eq!(result, Err(refusal(400, "Size of data exceeds expected size")));
    assert_eq!(file, None);
}

#[test]
fn the_number_of_bytes_does_not_wrap() {
    let machine = Upload::Receiving {
        path: "p".to_string(),
        data_len: u64::MAX,
        bytes_written: u64::MAX - 1,
    };
    match machine.resume(Event::Chunk(vec![1, 2, 3])) {
        Progress::Ask(Task::RemoveFile(path), machine) => {
            assert_eq!(path, "p");
            let end = machine.resume(Event::TaskFailed);
            assert_eq!(
                end,
                Progress::Failed(refusal(400, "Size of data exceeds expected size"))
            );
        }
        other => panic!("{:?}", other),
    }
}

#[test]
fn a_broken_upload_is_removed_and_answered() {
    let machine = Upload::Receiving { path: "p".to_string(), data_len: 9, bytes_written: 1 };
    let answer = Response { status: 400, body: "broken".to_string() };
    match machine.resume(Event::Broken(answer)) {
        Progress::Ask(Task::RemoveFile(_), machine) => {
            assert_eq!(machine.resume(Event::Completed), Progress::Failed(refusal(400, "broken")));
        }
        other => panic!("{:?}", other),
    }
}

#[test]
fn an_upload_is_abandoned_where_the_file_cannot_be_written() {
    let creating = Upload::Creating { path: "p".to_string(), data_len: 9, leftover: vec![1] };
    assert_eq!(creating.resume(Event::TaskFailed), Progress::Failed(Refusal::Abandon));
    let writing = Upload::Writing { path: "p".to_string(), data_len: 9, bytes_written: 1 };
    assert_eq!(writing.resume(Event::TaskFailed), Progress::Failed(Refusal::Abandon));
    assert_eq!(Upload::Flushing.resume(Event::TaskFailed), Progress::Failed(Refusal::Abandon));
}

#[test]
fn the_quota_may_be_used_up_but_not_passed() {
    let used = |total: i128| Reply::Total(Some(total));
    assert_eq!(verify_wont_exceed_quota(used(60), 100, 40), Ok(()));
    assert_eq!(
        verify_wont_exceed_quota(used(60), 100, 41),
        Err(refusal(403, "Transfer quota reached"))
    );
    assert_eq!(verify_wont_exceed_quota(Reply::Total(None), 0, 0), Ok(()));
    assert_eq!(
        verify_wont_exceed_quota(Reply::Total(None), 0, 1),
        Err(refusal(403, "Transfer quota reached"))
    );
    assert_eq!(
        verify_wont_exceed_quota(used(1), 100, u64::MAX),
        Err(Refusal::server_error())
    );
    assert_eq!(
        verify_wont_exceed_quota(used(-1), 100, 1),
        Err(Refusal::server_error())
    );
    assert_eq!(
        verify_wont_exceed_quota(Reply::Failed(StoreError::Failed), 100, 1),
        Err(Refusal::server_error())
    );
    assert_eq!(verify_wont_exceed_quota(used(1), -1, u64::MAX - 1), Ok(()));
}
