use loadgen::job::{Method, Request};
use loadgen::stats::Record;
use loadgen::task::{room_for, settle, subtask, Reply, TaskError};

fn request() -> Request {
    Request {
        url: "http://x/1".to_string(),
        headers: Vec::new(),
        body: "null".to_string(),
        method: Method::Post,
    }
}

fn received(status_code: u16, elapsed: u64, body: &str) -> Reply {
    Reply::Received { status_code, elapsed, body: body.as_bytes().to_vec() }
}

#[test]
fn subtask_records_a_decoded_answer() {
    let mut record = Record::new();
    assert_eq!(subtask(request(), received(200, 30_000, "{\"ok\": true}"), &mut record, 50), Ok(()));
    assert_eq!(record.success, 1);
    assert_eq!(record.elapsed_sum, 30_000);
    assert_eq!(record.elapsed_vec, vec![1]);
}

#[test]
fn subtask_records_an_answer_of_any_status() {
    let mut record = Record::new();
    assert_eq!(subtask(request(), received(500, 70_000, "{\"error\": 1}"), &mut record, 50), Ok(()));
    assert_eq!(record.success, 0);
    assert_eq!(record.elapsed_sum, 70_000);
    assert_eq!(record.elapsed_vec, vec![0, 1]);
}

#[test]
fn subtask_drops_a_request_that_was_not_sent() {
    let mut record = Record::new();
    assert_eq!(subtask(request(), Reply::Unsent, &mut record, 50), Err(TaskError::Send));
    assert_eq!(record, Record::new());
}

#[test]
fn subtask_drops_an_answer_that_was_not_read() {
    let mut record = Record::new();
    assert_eq!(subtask(request(), Reply::Unread, &mut record, 50), Err(TaskError::Decode));
    assert_eq!(record, Record::new());
}

#[test]
fn subtask_drops_an_answer_that_is_no_json() {
    let mut record = Record::new();
    for body in ["", "<html></html>", "{\"a\": ", "{} {}"] {
        assert_eq!(
            subtask(request(), received(200, 30_000, body), &mut record, 50),
            Err(TaskError::Decode)
        );
    }
    assert_eq!(
        subtask(
            request(),
            Reply::Received { status_code: 200, elapsed: 1, body: vec![0xff, 0xfe] },
            &mut record,
            50
        ),
        Err(TaskError::Decode)
    );
    assert_eq!(record, Record::new());
}

#[test]
fn subtask_keeps_what_was_recorded_before() {
    let mut record = Record::new();
    subtask(request(), received(200, 10_000, "1"), &mut record, 50).unwrap();
    subtask(request(), Reply::Unsent, &mut record, 50).unwrap_err();
    subtask(request(), received(204, 120_000, "not json"), &mut record, 50).unwrap_err();
    subtask(request(), received(404, 120_000, "[]"), &mut record, 50).unwrap();
    assert_eq!(record.success, 1);
    assert_eq!(record.elapsed_sum, 130_000);
    assert_eq!(record.elapsed_vec, vec![1, 0, 1]);
}

#[test]
fn settle_records_where_a_document_was_decoded() {
    let mut record = Record::new();
    assert_eq!(settle(request(), 200, 5_000, Some("{}".to_string()), &mut record, 2), Ok(()));
    assert_eq!(record.success, 1);
    assert_eq!(record.elapsed_vec, vec![0, 0, 1]);
    assert_eq!(settle(request(), 200, 5_000, None, &mut record, 2), Err(TaskError::Decode));
    assert_eq!(record.elapsed_vec, vec![0, 0, 1]);
}

#[test]
fn room_for_tells_a_full_record_from_one_with_room() {
    assert!(room_for(&Record::new(), 30_000, 50));
    assert!(room_for(&Record::new(), 0, 1));
    let full = Record { success: 0, elapsed_sum: 0, elapsed_vec: vec![0, usize::MAX] };
    assert!(!room_for(&full, 30_000, 50));
    let nearly = Record { success: 0, elapsed_sum: 0, elapsed_vec: vec![usize::MAX - 1] };
    assert!(room_for(&nearly, 30_000, 50));
}
