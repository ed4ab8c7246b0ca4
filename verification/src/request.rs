//! The record kept of one observed request.
use vstd::prelude::*;
use vstd::string::*;
use crate::headers::Headers;
use crate::json::{format_body, formatted_text};
use crate::timestamp::{clock_text, Timestamp};

verus! {

/// What a capture records, as plain mathematical values.
pub ghost struct CaptureRecord {
    pub id: int,
    pub seconds: int,
    pub nanoseconds: int,
    pub method: Seq<char>,
    pub path: Seq<char>,
    pub query: Option<Seq<char>>,
    pub headers: Map<Seq<char>, Seq<char>>,
    pub body: Option<Seq<char>>,
}

/// One observed request. A record is never changed after it is made.
#[derive(Debug)]
pub struct CapturedRequest {
    pub id: u64,
    pub timestamp: Timestamp,
    pub method: String,
    pub path: String,
    pub query: Option<String>,
    pub headers: Headers,
    pub body: Option<String>,
}

/// The view of an optional text.
pub open spec fn text_of(value: Option<String>) -> Option<Seq<char>> {
    match value {
        Some(text) => Some(text@),
        None => None,
    }
}

/// Path and query as one text: the path alone where the query is absent or
/// empty, else path, a question mark, and the query.
pub open spec fn full_path_text(path: Seq<char>, query: Option<Seq<char>>) -> Seq<char> {
    match query {
        Some(q) => if q.len() > 0 {
            path + seq!['?'] + q
        } else {
            path
        },
        None => path,
    }
}

/// The one-line summary of a capture: the time of day in square brackets, the
/// method, and the full path, separated by single spaces.
pub open spec fn summary_text(clock: Seq<char>, method: Seq<char>, full_path: Seq<char>) -> Seq<
    char,
> {
    seq!['['] + clock + seq![']', ' '] + method + seq![' '] + full_path
}

impl View for CapturedRequest {
    type V = CaptureRecord;

    open spec fn view(&self) -> CaptureRecord {
        CaptureRecord {
            id: self.id as int,
            seconds: self.timestamp.seconds(),
            nanoseconds: self.timestamp.nanoseconds(),
            method: self.method@,
            path: self.path@,
            query: text_of(self.query),
            headers: self.headers@,
            body: text_of(self.body),
        }
    }
}

impl Clone for CapturedRequest {
    fn clone(&self) -> (copy: CapturedRequest)
        ensures
            copy@ == self@,
            copy.timestamp == self.timestamp,
            copy.headers.pairs() == self.headers.pairs(),
    {
        CapturedRequest {
            id: self.id,
            timestamp: self.timestamp,
            method: self.method.clone(),
            path: self.path.clone(),
            query: match &self.query {
                Some(q) => Some(q.clone()),
                None => None,
            },
            headers: self.headers.clone(),
            body: match &self.body {
                Some(b) => Some(b.clone()),
                None => None,
            },
        }
    }
}

impl CapturedRequest {
    /// The record of a request observed at `timestamp`.
    pub fn at(
        id: u64,
        timestamp: Timestamp,
        method: String,
        path: String,
        query: Option<String>,
        headers: Headers,
        body: Option<String>,
    ) -> (record: CapturedRequest)
        ensures
            record == (CapturedRequest { id, timestamp, method, path, query, headers, body }),
    {
        CapturedRequest { id, timestamp, method, path, query, headers, body }
    }

    /// The record of a request observed now. The instant comes from the
    /// system clock; everything else is as given.
    pub fn new(
        id: u64,
        method: String,
        path: String,
        query: Option<String>,
        headers: Headers,
        body: Option<String>,
    ) -> (record: CapturedRequest)
        ensures
            record == (CapturedRequest {
                id,
                timestamp: record.timestamp,
                method,
                path,
                query,
                headers,
                body,
            }),
    {
        CapturedRequest::at(id, Timestamp::now(), method, path, query, headers, body)
    }

    /// Path and query as the client sent them.
    pub fn full_path(&self) -> (text: String)
        ensures
            text@ == full_path_text(self.path@, text_of(self.query)),
    {
        match &self.query {
            Some(q) => {
                if q.as_str().is_empty() {
                    self.path.clone()
                } else {
                    proof {
                        reveal_strlit("?");
                    }
                    assert("?"@ =~= seq!['?']);
                    let mut text = self.path.clone();
                    text.append("?");
                    text.append(q.as_str());
                    text
                }
            },
            None => self.path.clone(),
        }
    }

    /// The time of day of the capture, `HH:MM:SS` in UTC.
    pub fn timestamp_display(&self) -> (text: String)
        ensures
            text@ == clock_text(self.timestamp.seconds()),
    {
        self.timestamp.clock()
    }

    /// The body as shown to the user: absent where the record has no body,
    /// indented where the body is a JSON document, unchanged otherwise.
    pub fn formatted_body(&self) -> (text: Option<String>)
        ensures
            text_of(text) == match self.body {
                Some(b) => Some(formatted_text(b@)),
                None => None,
            },
    {
        match &self.body {
            Some(b) => Some(format_body(b)),
            None => None,
        }
    }

    /// The one-line summary of the capture, as in `[12:00:00] GET /a?b=1`.
    pub fn summary(&self) -> (text: String)
        ensures
            text@ == summary_text(
                clock_text(self.timestamp.seconds()),
                self.method@,
                full_path_text(self.path@, text_of(self.query)),
            ),
    {
        proof {
            reveal_strlit("[");
            reveal_strlit("] ");
            reveal_strlit(" ");
        }
        assert("["@ =~= seq!['[']);
        assert("] "@ =~= seq![']', ' ']);
        assert(" "@ =~= seq![' ']);
        let mut text = String::from_str("[");
        text.append(self.timestamp_display().as_str());
        text.append("] ");
        text.append(self.method.as_str());
        text.append(" ");
        text.append(self.full_path().as_str());
        text
    }
}

} // verus!
