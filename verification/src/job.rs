//! Jobs, the templates of a run's requests, and the requests made from them.

use vstd::prelude::*;
use vstd::utf8::encode_utf8;
use crate::json::{decode_json, json_decoded};
use crate::template::{
    expand, expanded, expanded_around_token, is_identifier, param_views, seq_value, token_text,
    Kind, Param, ParamSpec, TokenSpec,
};
use crate::text::decimal;

verus! {

/// The HTTP method of a request.
#[derive(Clone, Copy, Debug, PartialEq, Eq, Structural)]
pub enum Method {
    Post,
    Get,
    Put,
    Delete,
}

impl Default for Method {
    fn default() -> (m: Method)
        ensures
            m == Method::Post,
    {
        Method::Post
    }
}

/// One header line of a request: a name and its value.
#[derive(Clone, Debug, PartialEq, Eq)]
pub struct Header {
    pub name: String,
    pub value: String,
}

/// One header line of a job. Name and value may hold placeholders.
#[derive(Clone, Debug, PartialEq, Eq)]
pub struct JobHeader {
    pub name: String,
    /// The value, or `None` where the job gives the header a value that is
    /// no string: no request can be made of such a job.
    pub value: Option<String>,
}

/// The mathematical content of a `Header`.
pub ghost struct HeaderSpec {
    pub name: Seq<char>,
    pub value: Seq<char>,
}

impl View for Header {
    type V = HeaderSpec;

    open spec fn view(&self) -> HeaderSpec {
        HeaderSpec { name: self.name@, value: self.value@ }
    }
}

/// The contents of a list of headers.
pub open spec fn header_views(headers: Seq<Header>) -> Seq<HeaderSpec> {
    headers.map_values(|h: Header| h@)
}

/// The mathematical content of a `JobHeader`.
pub ghost struct JobHeaderSpec {
    pub name: Seq<char>,
    pub value: Option<Seq<char>>,
}

impl View for JobHeader {
    type V = JobHeaderSpec;

    open spec fn view(&self) -> JobHeaderSpec {
        JobHeaderSpec {
            name: self.name@,
            value: match self.value {
                Some(v) => Some(v@),
                None => None,
            },
        }
    }
}

/// The contents of a list of a job's headers.
pub open spec fn job_header_views(headers: Seq<JobHeader>) -> Seq<JobHeaderSpec> {
    headers.map_values(|h: JobHeader| h@)
}

/// The template of a run's requests.
#[derive(Clone, Debug, PartialEq, Eq)]
pub struct Job {
    /// The target, with placeholders.
    pub url: String,
    /// The header lines, with placeholders.
    pub headers: Vec<JobHeader>,
    /// The body, a JSON document as text, with placeholders in its strings.
    pub body: String,
    pub method: Method,
    /// The table of the placeholders' parameters, looked up by name.
    pub params: Vec<Param>,
    /// The start of every `SeqNum` placeholder that has none of its own.
    pub init_seq_num: u64,
}

/// The mathematical content of a `Job`.
pub ghost struct JobSpec {
    pub url: Seq<char>,
    pub headers: Seq<JobHeaderSpec>,
    pub body: Seq<char>,
    pub method: Method,
    pub params: Seq<ParamSpec>,
    pub init_seq_num: u64,
}

impl View for Job {
    type V = JobSpec;

    open spec fn view(&self) -> JobSpec {
        JobSpec {
            url: self.url@,
            headers: job_header_views(self.headers@),
            body: self.body@,
            method: self.method,
            params: param_views(self.params@),
            init_seq_num: self.init_seq_num,
        }
    }
}

/// One request, ready to be sent.
#[derive(Clone, Debug, PartialEq, Eq)]
pub struct Request {
    pub url: String,
    pub headers: Vec<Header>,
    /// The body, a JSON document as text.
    pub body: String,
    pub method: Method,
}

/// The mathematical content of a `Request`.
pub ghost struct RequestSpec {
    pub url: Seq<char>,
    pub headers: Seq<HeaderSpec>,
    pub body: Seq<char>,
    pub method: Method,
}

impl View for Request {
    type V = RequestSpec;

    open spec fn view(&self) -> RequestSpec {
        RequestSpec {
            url: self.url@,
            headers: header_views(self.headers@),
            body: self.body@,
            method: self.method,
        }
    }
}

/// Why a job gives no request for an index.
#[derive(Clone, Copy, Debug, PartialEq, Eq, Structural)]
pub enum MaterializeError {
    /// A header of the job has a value that is no string.
    HeaderNotString,
    /// The body, with its placeholders expanded, is no JSON document.
    InvalidBody,
}

/// A header with the placeholders of its name and of its value expanded.
pub open spec fn expanded_header(h: JobHeaderSpec, job: JobSpec, index: u64) -> HeaderSpec
    recommends
        h.value.is_some(),
{
    HeaderSpec {
        name: expanded(h.name, job.params, job.init_seq_num, index),
        value: expanded(h.value.unwrap(), job.params, job.init_seq_num, index),
    }
}

/// Whether every header of the list has a string as its value.
pub open spec fn all_strings(headers: Seq<JobHeaderSpec>) -> bool {
    forall|i: int| 0 <= i < headers.len() ==> (#[trigger] headers[i]).value.is_some()
}

/// The job's texts with every placeholder expanded for `index`; an error
/// where a header's value is no string.
pub open spec fn filled(job: JobSpec, index: u64) -> Result<RequestSpec, MaterializeError> {
    if all_strings(job.headers) {
        Ok(
            RequestSpec {
                url: expanded(job.url, job.params, job.init_seq_num, index),
                headers: job.headers.map_values(|h: JobHeaderSpec| expanded_header(h, job, index)),
                body: expanded(job.body, job.params, job.init_seq_num, index),
                method: job.method,
            },
        )
    } else {
        Err(MaterializeError::HeaderNotString)
    }
}

/// The request made of a filled template and of what reading its body as a
/// JSON document gave.
pub open spec fn finished(draft: RequestSpec, body: Option<Seq<char>>) -> Result<
    RequestSpec,
    MaterializeError,
> {
    match body {
        Some(text) => Ok(
            RequestSpec { url: draft.url, headers: draft.headers, body: text, method: draft.method },
        ),
        None => Err(MaterializeError::InvalidBody),
    }
}

/// The request of the job at `index`: the filled template, its body read and
/// written again as a JSON document.
pub open spec fn materialized(job: JobSpec, index: u64) -> Result<RequestSpec, MaterializeError> {
    match filled(job, index) {
        Ok(draft) => finished(draft, json_decoded(encode_utf8(draft.body))),
        Err(e) => Err(e),
    }
}

/// Whether `r` is the outcome `m`, the request taken by its contents.
pub open spec fn agrees(
    r: Result<Request, MaterializeError>,
    m: Result<RequestSpec, MaterializeError>,
) -> bool {
    match r {
        Ok(req) => m == Ok::<RequestSpec, MaterializeError>(req@),
        Err(e) => m == Err::<RequestSpec, MaterializeError>(e),
    }
}

/// Making a request has no effect and no memory: two results for one job
/// and one index are the same error, or requests that agree in every
/// character of every field.
pub proof fn get_is_repeatable(
    job: JobSpec,
    index: u64,
    first: Result<Request, MaterializeError>,
    second: Result<Request, MaterializeError>,
)
    requires
        agrees(first, materialized(job, index)),
        agrees(second, materialized(job, index)),
    ensures
        match (first, second) {
            (Ok(a), Ok(b)) => a@ == b@,
            (Err(a), Err(b)) => a == b,
            _ => false,
        },
{
}

/// A `SeqNum` placeholder in a job's URL gives way to its number in the
/// request: where the URL is some text without `<`, then the placeholder,
/// then more text, the request's URL is the first text, the decimal numeral
/// of the placeholder's number at that index, and the expansion of the rest.
pub proof fn url_embeds_seq_num(
    job: JobSpec,
    index: u64,
    pre: Seq<char>,
    name: Seq<char>,
    post: Seq<char>,
)
    requires
        is_identifier(name),
        forall|j: int| 0 <= j < pre.len() ==> pre[j] != '<',
        job.url == pre + token_text(TokenSpec { name, kind: Kind::SeqNum }) + post,
    ensures
        filled(job, index).is_ok() ==> filled(job, index).unwrap().url == pre + decimal(
            seq_value(job.params, job.init_seq_num, name, index),
        ) + expanded(post, job.params, job.init_seq_num, index),
        materialized(job, index).is_ok() ==> materialized(job, index).unwrap().url == pre
            + decimal(seq_value(job.params, job.init_seq_num, name, index)) + expanded(
            post,
            job.params,
            job.init_seq_num,
            index,
        ),
{
    expanded_around_token(
        pre,
        TokenSpec { name, kind: Kind::SeqNum },
        post,
        job.params,
        job.init_seq_num,
        index,
    );
}

/// Completes a filled template with its body as it was read and written again
/// as a JSON document; `None` says that it could not be read.
pub fn finish(draft: Request, body: Option<String>) -> (r: Result<Request, MaterializeError>)
    ensures
        match r {
            Ok(req) => finished(
                draft@,
                match body {
                    Some(b) => Some(b@),
                    None => None,
                },
            ) == Ok::<RequestSpec, MaterializeError>(req@),
            Err(e) => body.is_none() && e == MaterializeError::InvalidBody,
        },
{
    match body {
        Some(text) => Ok(
            Request { url: draft.url, headers: draft.headers, body: text, method: draft.method },
        ),
        None => Err(MaterializeError::InvalidBody),
    }
}

impl Job {
    /// Expands every placeholder of the job's texts for the request at `index`.
    /// The body is not yet read. Fails where a header's value is no string.
    pub fn fill(&self, index: u64) -> (r: Result<Request, MaterializeError>)
        ensures
            agrees(r, filled(self@, index)),
    {
        let mut headers: Vec<Header> = Vec::new();
        let mut k: usize = 0;
        while k < self.headers.len()
            invariant
                k <= self.headers.len(),
                headers@.len() == k,
                forall|j: int| 0 <= j < k ==> (#[trigger] self.headers@[j]).value.is_some(),
                forall|j: int|
                    0 <= j < k ==> (#[trigger] headers@[j])@ == expanded_header(
                        self.headers@[j]@,
                        self@,
                        index,
                    ),
            decreases self.headers.len() - k,
        {
            let name = expand(
                self.headers[k].name.as_str(),
                &self.params,
                self.init_seq_num,
                index,
            );
            let value = match &self.headers[k].value {
                Some(text) => expand(text.as_str(), &self.params, self.init_seq_num, index),
                None => {
                    assert(self@.headers[k as int].value.is_none());
                    return Err(MaterializeError::HeaderNotString);
                },
            };
            headers.push(Header { name, value });
            k += 1;
        }
        assert(all_strings(self@.headers)) by {
            assert forall|j: int| 0 <= j < self@.headers.len() implies (#[trigger] self@.headers[j])
                .value.is_some() by {
                assert(self.headers@[j].value.is_some());
            }
        }
        let url = expand(self.url.as_str(), &self.params, self.init_seq_num, index);
        let body = expand(self.body.as_str(), &self.params, self.init_seq_num, index);
        let draft = Request { url, headers, body, method: self.method };
        assert(draft@.headers =~= filled(self@, index).unwrap().headers);
        Ok(draft)
    }

    /// Makes the request at `index`: every `SeqNum` placeholder of the URL, of
    /// the headers and of the body gives way to its number, and the body is
    /// read and written again as a JSON document. Fails where a header's
    /// value is no string, and where the body is no JSON document.
    pub fn get(&self, index: u64) -> (r: Result<Request, MaterializeError>)
        ensures
            agrees(r, materialized(self@, index)),
    {
        match self.fill(index) {
            Ok(draft) => {
                let body = decode_json(draft.body.as_str().as_bytes());
                finish(draft, body)
            },
            Err(e) => Err(e),
        }
    }
}

/// Makes the requests of a run, those at the indices below `total`, in
/// rising order. The first index whose request cannot be made ends the work:
/// it is handed back with its error, and no request at all.
pub fn materialize_all(job: &Job, total: u64) -> (r: Result<Vec<Request>, (u64, MaterializeError)>)
    ensures
        match r {
            Ok(requests) => {
                &&& requests@.len() == total
                &&& forall|i: int|
                    0 <= i < total ==> materialized(job@, i as u64) == Ok::<
                        RequestSpec,
                        MaterializeError,
                    >((#[trigger] requests@[i])@)
            },
            Err((at, e)) => {
                &&& at < total
                &&& materialized(job@, at) == Err::<RequestSpec, MaterializeError>(e)
                &&& forall|i: int| 0 <= i < at ==> (#[trigger] materialized(job@, i as u64)).is_ok()
            },
        },
{
    let mut requests: Vec<Request> = Vec::new();
    let mut i: u64 = 0;
    while i < total
        invariant
            i <= total,
            requests@.len() == i,
            forall|k: int|
                0 <= k < i ==> materialized(job@, k as u64) == Ok::<RequestSpec, MaterializeError>(
                    (#[trigger] requests@[k])@,
                ),
        decreases total - i,
    {
        match job.get(i) {
            Ok(req) => {
                requests.push(req);
            },
            Err(e) => {
                assert forall|k: int| 0 <= k < i implies (#[trigger] materialized(
                    job@,
                    k as u64,
                )).is_ok() by {
                    assert(materialized(job@, k as u64) == Ok::<RequestSpec, MaterializeError>(
                        requests@[k]@,
                    ));
                }
                return Err((i, e));
            },
        }
        i += 1;
    }
    Ok(requests)
}

} // verus!
