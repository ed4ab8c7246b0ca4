//! The responder: what is recorded of an inbound request and what is sent back.
use std::sync::Arc;
use tokio::sync::mpsc::UnboundedSender;
use vstd::prelude::*;
use vstd::string::*;
use vstd::utf8::{decode_utf8, valid_utf8};
use crate::config::{resolve, Config, ResponseConfig, ResponseSpec};
use crate::headers::Headers;
use crate::request::{text_of, CapturedRequest};

verus! {

#[verifier::external_type_specification]
#[verifier::external_body]
#[verifier::reject_recursive_types(T)]
pub struct ExUnboundedSender<T>(tokio::sync::mpsc::UnboundedSender<T>);

/// The id given to the first capture of a process.
pub const FIRST_ID: u64 = 1;

/// The status sent where the configured one is not an HTTP status.
pub const FALLBACK_STATUS: u16 = 200;

/// The status of the response sent where the configured one cannot be built.
pub const ERROR_STATUS: u16 = 500;

/// The id that follows `id`; after the largest 64-bit id the count starts over.
pub open spec fn advanced(id: int) -> int {
    if id == u64::MAX {
        0
    } else {
        id + 1
    }
}

/// The ids handed out by `n` successive requests to a counter whose next id
/// is `next`, in the order of the requests.
pub open spec fn issued(next: int, n: nat) -> Seq<int>
    decreases n,
{
    if n == 0 {
        Seq::empty()
    } else {
        seq![next] + issued(advanced(next), (n - 1) as nat)
    }
}

/// The text kept of a request body: nothing for an empty body or for bytes
/// that are not UTF-8, else the text that the bytes encode.
pub open spec fn body_text(bytes: Seq<u8>) -> Option<Seq<char>> {
    if bytes.len() == 0 || !valid_utf8(bytes) {
        None
    } else {
        Some(decode_utf8(bytes))
    }
}

/// The mapping built from header lines in the order received: each name maps
/// to the value of its last line. A line whose value could not be read as
/// text is skipped.
pub open spec fn collected(lines: Seq<(String, Option<String>)>) -> Map<Seq<char>, Seq<char>>
    decreases lines.len(),
{
    if lines.len() == 0 {
        Map::empty()
    } else {
        match lines.last().1 {
            Some(value) => collected(lines.drop_last()).insert(lines.last().0@, value@),
            None => collected(lines.drop_last()),
        }
    }
}

/// Whether a number is an HTTP status code.
pub open spec fn is_status(code: int) -> bool {
    100 <= code <= 999
}

/// The status sent for a configured status: the same where it is an HTTP
/// status code, and 200 where it is not.
pub open spec fn sent_status(configured: int) -> int {
    if is_status(configured) {
        configured
    } else {
        FALLBACK_STATUS as int
    }
}

/// The response actually sent for a configured one: the same, with the
/// status made valid.
pub open spec fn planned(response: ResponseSpec) -> ResponseSpec {
    ResponseSpec {
        status: sent_status(response.status),
        headers: response.headers,
        body: response.body,
    }
}

/// The response sent where the planned one cannot be constructed.
pub open spec fn internal_error() -> ResponseSpec {
    ResponseSpec {
        status: ERROR_STATUS as int,
        headers: Map::empty(),
        body: "Internal Server Error"@,
    }
}

/// `n` requests in a row receive `n` ids that count up from the counter's
/// next id without a gap, as long as the count does not pass the largest
/// 64-bit id.
pub proof fn lemma_issued_consecutive(next: int, n: nat)
    requires
        0 <= next,
        next + n <= u64::MAX + 1,
    ensures
        issued(next, n).len() == n,
        forall|i: int| 0 <= i < n ==> #[trigger] issued(next, n)[i] == next + i,
    decreases n,
{
    if n > 0 {
        if n > 1 {
            lemma_issued_consecutive(next + 1, (n - 1) as nat);
        }
        let rest = issued(advanced(next), (n - 1) as nat);
        assert(issued(next, n) =~= seq![next] + rest);
        assert(rest.len() == n - 1) by {
            if n == 1 {
                assert(rest =~= Seq::<int>::empty());
            }
        }
        assert forall|i: int| 0 <= i < n implies #[trigger] issued(next, n)[i] == next + i by {
            if i > 0 {
                assert(issued(next, n)[i] == rest[i - 1]);
            }
        }
    }
}

/// The ids of `n` requests in a row are pairwise distinct and increase in the
/// order of the requests, as long as the count does not pass the largest
/// 64-bit id.
pub proof fn lemma_issued_distinct_increasing(next: int, n: nat)
    requires
        0 <= next,
        next + n <= u64::MAX + 1,
    ensures
        forall|i: int, j: int|
            0 <= i < j < n ==> #[trigger] issued(next, n)[i] < #[trigger] issued(next, n)[j],
{
    lemma_issued_consecutive(next, n);
}

/// The source of capture ids. Each request for an id is served alone, so
/// however callers are interleaved they are served one after another.
#[derive(Debug)]
pub struct IdCounter {
    next: u64,
}

impl View for IdCounter {
    type V = int;

    /// The id that the next request receives.
    closed spec fn view(&self) -> int {
        self.next as int
    }
}

impl IdCounter {
    /// A counter whose first id is 1.
    pub fn new() -> (counter: IdCounter)
        ensures
            counter@ == FIRST_ID,
    {
        IdCounter { next: FIRST_ID }
    }

    /// A counter whose first id is `first`.
    pub fn starting_at(first: u64) -> (counter: IdCounter)
        ensures
            counter@ == first,
    {
        IdCounter { next: first }
    }

    /// Hands out the next id and moves on to the one after it.
    pub fn next_id(&mut self) -> (id: u64)
        ensures
            id == old(self)@,
            final(self)@ == advanced(old(self)@),
    {
        let id = self.next;
        self.next = if id == u64::MAX {
            0
        } else {
            id + 1
        };
        id
    }
}

/// `std`'s `String::from_utf8`: the text that the bytes encode, and nothing
/// where the bytes are not UTF-8. The decoding error is dropped.
#[verifier::external_body]
fn utf8_text(bytes: Vec<u8>) -> (text: Option<String>)
    ensures
        match text {
            Some(t) => valid_utf8(bytes@) && t@ == decode_utf8(bytes@),
            None => !valid_utf8(bytes@),
        },
{
    String::from_utf8(bytes).ok()
}

/// `http::StatusCode::from_u16`, reached through `axum::http`: it accepts
/// exactly the numbers from 100 to 999.
#[verifier::external_body]
fn status_accepted(code: u16) -> (accepted: bool)
    ensures
        accepted == is_status(code as int),
{
    axum::http::StatusCode::from_u16(code).is_ok()
}

/// `tokio`'s `UnboundedSender::send`: queues the record for the viewer
/// without waiting. Where the viewer no longer listens the record is handed
/// back and dropped here. Nothing is promised of the outcome.
#[verifier::external_body]
fn deliver(viewer: &UnboundedSender<CapturedRequest>, record: CapturedRequest) -> (delivered: bool) {
    viewer.send(record).is_ok()
}

/// The text of a request body, if it has one.
pub fn decode_body(bytes: Vec<u8>) -> (text: Option<String>)
    ensures
        text_of(text) == body_text(bytes@),
{
    if bytes.len() == 0 {
        None
    } else {
        utf8_text(bytes)
    }
}

/// Collects header lines into a mapping. A name that occurs on several lines
/// keeps the value of the last; a line whose value is not text is skipped.
pub fn collect_headers(lines: &Vec<(String, Option<String>)>) -> (headers: Headers)
    ensures
        headers@ == collected(lines@),
{
    let mut headers = Headers::new();
    let mut i: usize = 0;
    assert(lines@.subrange(0, 0) =~= Seq::<(String, Option<String>)>::empty());
    while i < lines.len()
        invariant
            i <= lines.len(),
            headers@ == collected(lines@.subrange(0, i as int)),
        decreases lines.len() - i,
    {
        proof {
            let upto = lines@.subrange(0, i as int + 1);
            assert(upto.drop_last() =~= lines@.subrange(0, i as int));
            assert(upto.last() == lines@[i as int]);
        }
        match &lines[i].1 {
            Some(value) => {
                headers.insert(lines[i].0.clone(), value.clone());
            },
            None => {},
        }
        i += 1;
    }
    assert(lines@.subrange(0, i as int) =~= lines@);
    headers
}

/// The status to send for a configured status.
pub fn effective_status(configured: u16) -> (status: u16)
    ensures
        status == sent_status(configured as int),
        is_status(status as int),
{
    if status_accepted(configured) {
        configured
    } else {
        FALLBACK_STATUS
    }
}

/// One inbound request as the transport hands it over.
#[derive(Debug)]
pub struct InboundRequest {
    pub method: String,
    pub path: String,
    pub query: Option<String>,
    pub headers: Vec<(String, Option<String>)>,
    pub body: Vec<u8>,
}

/// A response that is ready to be written out.
#[derive(Debug)]
pub struct ResponsePlan {
    pub status: u16,
    pub headers: Headers,
    pub body: String,
}

impl View for ResponsePlan {
    type V = ResponseSpec;

    open spec fn view(&self) -> ResponseSpec {
        ResponseSpec { status: self.status as int, headers: self.headers@, body: self.body@ }
    }
}

impl ResponsePlan {
    /// The response to send for a configured response.
    pub fn of(response: &ResponseConfig) -> (plan: ResponsePlan)
        ensures
            plan@ == planned(response@),
            plan.headers.pairs() == response.headers.pairs(),
            is_status(plan.status as int),
    {
        ResponsePlan {
            status: effective_status(response.status),
            headers: response.headers.clone(),
            body: response.body.clone(),
        }
    }

    /// The plain-text response with status 500 and no headers.
    pub fn internal_error() -> (plan: ResponsePlan)
        ensures
            plan@ == internal_error(),
            plan.headers.pairs().len() == 0,
    {
        ResponsePlan {
            status: ERROR_STATUS,
            headers: Headers::new(),
            body: String::from_str("Internal Server Error"),
        }
    }

    /// The response that goes out: the plan itself where the transport could
    /// construct it, the status-500 response where it could not.
    pub fn or_internal_error(self, constructed: bool) -> (plan: ResponsePlan)
        ensures
            constructed ==> plan == self,
            !constructed ==> plan@ == internal_error() && plan.headers.pairs().len() == 0,
    {
        if constructed {
            self
        } else {
            ResponsePlan::internal_error()
        }
    }
}

/// The response to send for a request: the configured response of the first
/// matching rule, or the fallback response, with its status made valid. The
/// query string plays no part.
pub fn plan_response(config: &Config, method: &str, path: &str) -> (plan: ResponsePlan)
    ensures
        plan@ == planned(resolve(config@, method@, path@)),
        is_status(plan.status as int),
{
    ResponsePlan::of(config.get_response(method, path))
}

/// Records an inbound request observed now under the next id.
pub fn capture(counter: &mut IdCounter, inbound: InboundRequest) -> (record: CapturedRequest)
    ensures
        record.id == old(counter)@,
        final(counter)@ == advanced(old(counter)@),
        record.method == inbound.method,
        record.path == inbound.path,
        record.query == inbound.query,
        record.headers@ == collected(inbound.headers@),
        text_of(record.body) == body_text(inbound.body@),
{
    let id = counter.next_id();
    let headers = collect_headers(&inbound.headers);
    let body = decode_body(inbound.body);
    CapturedRequest::new(id, inbound.method, inbound.path, inbound.query, headers, body)
}

/// Serves one inbound request: records it and chooses the response. The
/// record is for the viewer; whether the viewer still listens has no bearing
/// on the response.
pub fn handle_request(config: &Config, counter: &mut IdCounter, inbound: InboundRequest) -> (served:
    (CapturedRequest, ResponsePlan))
    ensures
        served.0.id == old(counter)@,
        final(counter)@ == advanced(old(counter)@),
        served.0.method == inbound.method,
        served.0.path == inbound.path,
        served.0.query == inbound.query,
        served.0.headers@ == collected(inbound.headers@),
        text_of(served.0.body) == body_text(inbound.body@),
        served.1@ == planned(resolve(config@, inbound.method@, inbound.path@)),
        is_status(served.1.status as int),
{
    let record = capture(counter, inbound);
    let plan = plan_response(config, record.method.as_str(), record.path.as_str());
    (record, plan)
}

/// What the responder shares between requests: the configuration and the
/// sending end of the channel to the viewer.
pub struct AppState {
    pub config: Arc<Config>,
    pub tx: UnboundedSender<CapturedRequest>,
}

/// Serves one inbound request: records it, offers the record to the viewer,
/// and returns the response. Delivery is fire and forget: the response is the
/// same whether or not the viewer still listens.
pub fn serve(state: &AppState, counter: &mut IdCounter, inbound: InboundRequest) -> (plan:
    ResponsePlan)
    ensures
        final(counter)@ == advanced(old(counter)@),
        plan@ == planned(resolve((*state.config)@, inbound.method@, inbound.path@)),
        is_status(plan.status as int),
{
    let served = handle_request(&state.config, counter, inbound);
    let _delivered = deliver(&state.tx, served.0);
    served.1
}

} // verus!
