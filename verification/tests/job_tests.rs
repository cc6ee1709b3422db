use loadgen::job::{
    finish, materialize_all, Header, Job, JobHeader, MaterializeError, Method, Request,
};
use loadgen::template::Param;

fn header(name: &str, value: &str) -> Header {
    Header { name: name.to_string(), value: value.to_string() }
}

fn job_header(name: &str, value: &str) -> JobHeader {
    JobHeader { name: name.to_string(), value: Some(value.to_string()) }
}

fn sample_job() -> Job {
    Job {
        url: "http://127.0.0.1:8080/api/<n:SeqNum>".to_string(),
        headers: vec![
            job_header("Content-Type", "application/json"),
            job_header("X-Request-<n:SeqNum>", "req-<m:SeqNum>"),
        ],
        body: "{\"id\": \"<n:SeqNum>\", \"seq\": [\"<m:SeqNum>\", 1.5, null], \"trace\": \"<t:UUID>\"}"
            .to_string(),
        method: Method::Post,
        params: vec![
            Param { name: "n".to_string(), init_seq_num: Some(5), step: Some(2) },
            Param { name: "m".to_string(), init_seq_num: None, step: Some(10) },
        ],
        init_seq_num: 1000,
    }
}

#[test]
fn test_job_next() {
    let job = sample_job();
    let before = job.clone();
    let request = job.get(1).unwrap();
    assert_eq!(job, before);
    assert_eq!(
        request,
        Request {
            url: "http://127.0.0.1:8080/api/7".to_string(),
            headers: vec![
                header("Content-Type", "application/json"),
                header("X-Request-7", "req-1010"),
            ],
            body: "{\"id\":\"7\",\"seq\":[\"1010\",1.5,null],\"trace\":\"<t:UUID>\"}".to_string(),
            method: Method::Post,
        }
    );
}

#[test]
fn urls_of_a_run_of_three() {
    let job = Job {
        url: "http://x/<n:SeqNum>".to_string(),
        headers: Vec::new(),
        body: "null".to_string(),
        method: Method::Post,
        params: vec![Param { name: "n".to_string(), init_seq_num: Some(5), step: Some(2) }],
        init_seq_num: 0,
    };
    let requests = materialize_all(&job, 3).unwrap();
    let urls: Vec<&str> = requests.iter().map(|r| r.url.as_str()).collect();
    assert_eq!(urls, vec!["http://x/5", "http://x/7", "http://x/9"]);
}

#[test]
fn get_twice_gives_the_same_request() {
    let job = sample_job();
    for index in [0, 1, 17, u64::MAX] {
        assert_eq!(job.get(index), job.get(index));
    }
}

#[test]
fn get_uses_the_job_start_without_a_parameter() {
    let job = Job {
        url: "http://x/<k:SeqNum>".to_string(),
        headers: Vec::new(),
        body: "{}".to_string(),
        method: Method::Get,
        params: Vec::new(),
        init_seq_num: 40,
    };
    let request = job.get(2).unwrap();
    assert_eq!(request.url, "http://x/42");
    assert_eq!(request.method, Method::Get);
}

#[test]
fn get_writes_the_body_as_compact_json() {
    let job = Job {
        url: String::new(),
        headers: Vec::new(),
        body: " { \"a\" : [ 1 , 2 ] ,\n \"b\" : \"<n:SeqNum>\" } ".to_string(),
        method: Method::Put,
        params: Vec::new(),
        init_seq_num: 3,
    };
    assert_eq!(job.get(4).unwrap().body, "{\"a\":[1,2],\"b\":\"7\"}");
}

#[test]
fn get_rejects_a_body_that_is_no_json() {
    let mut job = sample_job();
    job.body = "{\"id\": <n:SeqNum>".to_string();
    assert_eq!(job.get(0), Err(MaterializeError::InvalidBody));
    job.body = String::new();
    assert_eq!(job.get(0), Err(MaterializeError::InvalidBody));
    job.body = "<n:SeqNum> <n:SeqNum>".to_string();
    assert_eq!(job.get(0), Err(MaterializeError::InvalidBody));
}

#[test]
fn get_rejects_a_header_whose_value_is_no_string() {
    let mut job = sample_job();
    job.headers.push(JobHeader { name: "X-Count".to_string(), value: None });
    assert_eq!(job.fill(0), Err(MaterializeError::HeaderNotString));
    assert_eq!(job.get(0), Err(MaterializeError::HeaderNotString));
    job.body = "{".to_string();
    assert_eq!(job.get(0), Err(MaterializeError::HeaderNotString));
    assert_eq!(materialize_all(&job, 2), Err((0, MaterializeError::HeaderNotString)));
}

#[test]
fn get_accepts_a_body_that_expansion_makes_json() {
    let mut job = sample_job();
    job.body = "<n:SeqNum>".to_string();
    assert_eq!(job.get(3).unwrap().body, "11");
}

#[test]
fn fill_expands_without_reading_the_body() {
    let mut job = sample_job();
    job.body = "not json <n:SeqNum>".to_string();
    let draft = job.fill(0).unwrap();
    assert_eq!(draft.url, "http://127.0.0.1:8080/api/5");
    assert_eq!(draft.body, "not json 5");
    assert_eq!(draft.headers[1], header("X-Request-5", "req-1000"));
    assert_eq!(draft.method, Method::Post);
}

#[test]
fn finish_takes_the_body_it_is_given() {
    let draft = sample_job().fill(0).unwrap();
    let done = finish(draft.clone(), Some("[]".to_string())).unwrap();
    assert_eq!(done.body, "[]");
    assert_eq!(done.url, draft.url);
    assert_eq!(done.headers, draft.headers);
    assert_eq!(done.method, draft.method);
    assert_eq!(finish(draft, None), Err(MaterializeError::InvalidBody));
}

#[test]
fn materialize_all_makes_one_request_per_index() {
    let job = sample_job();
    let requests = materialize_all(&job, 25).unwrap();
    assert_eq!(requests.len(), 25);
    for (i, request) in requests.iter().enumerate() {
        assert_eq!(Ok(request.clone()), job.get(i as u64));
    }
    assert_eq!(materialize_all(&job, 0), Ok(Vec::new()));
}

#[test]
fn materialize_all_stops_at_the_first_failure() {
    let mut job = sample_job();
    job.body = "{".to_string();
    assert_eq!(materialize_all(&job, 4), Err((0, MaterializeError::InvalidBody)));
    assert_eq!(materialize_all(&job, 0), Ok(Vec::new()));
}

#[test]
fn method_defaults_to_post() {
    assert_eq!(Method::default(), Method::Post);
}
