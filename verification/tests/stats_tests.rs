use loadgen::job::{Method, Request};
use loadgen::report::{summarize, Bucket};
use loadgen::stats::{categorize, Record};
use loadgen::task::{recording, TaskResult};

fn request() -> Request {
    Request {
        url: "http://x/".to_string(),
        headers: Vec::new(),
        body: "null".to_string(),
        method: Method::Post,
    }
}

fn result(status_code: u16, elapsed: u64) -> TaskResult {
    TaskResult { req: request(), status_code, elapsed, rsp: "{}".to_string() }
}

fn record_of(outcomes: &[(u16, u64)], granularity: u64) -> Record {
    let mut record = Record::new();
    for (status_code, elapsed) in outcomes {
        recording(result(*status_code, *elapsed), &mut record, granularity);
    }
    record
}

#[test]
fn categorize_counts_in_the_bucket_of_the_time() {
    let mut v: Vec<usize> = Vec::new();
    categorize(&mut v, 50, 0);
    assert_eq!(v, vec![1]);
    categorize(&mut v, 50, 49);
    assert_eq!(v, vec![2]);
    categorize(&mut v, 50, 50);
    assert_eq!(v, vec![2, 1]);
    categorize(&mut v, 50, 249);
    assert_eq!(v, vec![2, 1, 0, 0, 1]);
    categorize(&mut v, 50, 100);
    assert_eq!(v, vec![2, 1, 1, 0, 1]);
}

#[test]
fn categorize_fills_the_gap_with_empty_buckets() {
    let mut v: Vec<usize> = vec![3];
    categorize(&mut v, 10, 75);
    assert_eq!(v, vec![3, 0, 0, 0, 0, 0, 0, 1]);
}

#[test]
fn categorize_with_granularity_one() {
    let mut v: Vec<usize> = Vec::new();
    categorize(&mut v, 1, 3);
    assert_eq!(v, vec![0, 0, 0, 1]);
}

#[test]
fn new_record_is_empty() {
    let record = Record::new();
    assert_eq!(record.success, 0);
    assert_eq!(record.elapsed_sum, 0);
    assert_eq!(record.elapsed_vec, Vec::<usize>::new());
    assert_eq!(record.elapsed_num(), 0);
    assert_eq!(record.average(), None);
}

#[test]
fn recording_counts_status_200_as_success() {
    let record = record_of(&[(200, 1_000), (201, 1_000), (404, 1_000), (200, 1_000)], 50);
    assert_eq!(record.success, 2);
    assert_eq!(record.elapsed_num(), 4);
}

#[test]
fn recording_uses_whole_milliseconds_for_the_bucket() {
    let record = record_of(&[(200, 49_999), (200, 50_000), (200, 99_999), (200, 100_000)], 50);
    assert_eq!(record.elapsed_vec, vec![1, 2, 1]);
    assert_eq!(record.elapsed_sum, 299_998);
}

#[test]
fn ten_successes_of_thirty_milliseconds() {
    let record = record_of(&[(200, 30_000); 10], 50);
    let summary = summarize(&record, 10, 50);
    assert_eq!(summary.buckets, vec![Bucket { lower: 0, upper: 50, count: 10 }]);
    assert_eq!(summary.average, Some(30_000));
    assert_eq!(summary.total, 10);
    assert_eq!(summary.success, 10);
    assert_eq!(summary.failed, 0);
}

#[test]
fn five_answers_with_status_500() {
    let record = record_of(&[(500, 20_000); 5], 50);
    let summary = summarize(&record, 5, 50);
    assert_eq!(summary.success, 0);
    assert_eq!(summary.failed, 5);
    assert_eq!(record.elapsed_sum, 100_000);
    assert_eq!(record.elapsed_num(), 5);
    assert_eq!(summary.average, Some(20_000));
}

#[test]
fn recording_in_any_order_gives_the_same_record() {
    let outcomes = [(200, 10_000), (500, 260_000), (200, 75_000), (404, 10_500), (200, 999)];
    let forward = record_of(&outcomes, 50);
    let mut reversed = outcomes;
    reversed.reverse();
    let backward = record_of(&reversed, 50);
    let rotated = record_of(
        &[(404, 10_500), (200, 999), (200, 10_000), (500, 260_000), (200, 75_000)],
        50,
    );
    assert_eq!(forward, backward);
    assert_eq!(forward, rotated);
    assert_eq!(forward.success, 3);
    assert_eq!(forward.elapsed_sum, 356_499);
    assert_eq!(forward.elapsed_vec, vec![3, 1, 0, 0, 0, 1]);
}

#[test]
fn elapsed_num_sums_the_histogram() {
    let record = Record { success: 0, elapsed_sum: 0, elapsed_vec: vec![4, 0, 7, 1] };
    assert_eq!(record.elapsed_num(), 12);
}

#[test]
fn average_rounds_down_to_whole_microseconds() {
    let record = record_of(&[(200, 10), (200, 11), (200, 11)], 50);
    assert_eq!(record.average(), Some(10));
}

#[test]
fn buckets_leave_out_empty_ones_and_rise() {
    let record = record_of(&[(200, 120_000), (200, 5_000), (200, 130_000)], 50);
    assert_eq!(
        record.buckets(50),
        vec![
            Bucket { lower: 0, upper: 50, count: 1 },
            Bucket { lower: 100, upper: 150, count: 2 },
        ]
    );
}

#[test]
fn buckets_do_not_wrap_at_large_granularity() {
    let record = record_of(&[(200, u64::MAX)], u64::MAX / 2000);
    assert_eq!(record.elapsed_vec, vec![0, 0, 1]);
    let g = (u64::MAX / 2000) as u128;
    assert_eq!(record.buckets(u64::MAX / 2000), vec![Bucket { lower: 2 * g, upper: 3 * g, count: 1 }]);
}

#[test]
fn summarize_counts_unrecorded_requests_as_failed() {
    let record = record_of(&[(200, 1_000), (500, 2_000)], 50);
    let summary = summarize(&record, 10, 50);
    assert_eq!(summary.total, 10);
    assert_eq!(summary.success, 1);
    assert_eq!(summary.failed, 9);
    assert_eq!(summary.average, Some(1_500));
}

#[test]
fn summarize_an_empty_run() {
    let summary = summarize(&Record::new(), 0, 50);
    assert_eq!(summary.buckets, Vec::new());
    assert_eq!(summary.average, None);
    assert_eq!(summary.success, 0);
    assert_eq!(summary.failed, 0);
}
