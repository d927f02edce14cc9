//! One lookup at the remote service: the request for a key, and what the
//! response means for the scan.

use crate::error::{ConnectorError, ErrorKind};
use crate::json::{parsed, Document, Json, ParseFailure};
use crate::lookup::{build_url, profile_url};
use crate::record::{lookup_field, ProfileRecord};
use crate::text::{
    append_decimal, decimal, integer_of, lowercased, parse_integer, same_text, to_lowercase,
};
use vstd::prelude::*;
use vstd::string::*;
use vstd::utf8::*;

verus! {

/// A GET request with an empty body.
#[derive(Debug)]
pub struct Request {
    pub url: String,
    pub headers: Vec<(String, String)>,
}

/// What the transport handed back.
#[derive(Debug)]
pub struct Response {
    pub status_code: u16,
    pub headers: Vec<(String, String)>,
    pub body: String,
}

/// What one lookup came to.
#[derive(Debug)]
pub enum FetchOutcome {
    /// The profile of the key.
    Resolved(ProfileRecord),
    /// The key has no public profile.
    NotFound,
    /// The service refuses requests, for so many seconds if it said so.
    RateLimited(Option<u64>),
    /// The service answered with an unexpected status.
    TransientError(String),
}

/// What a `FetchOutcome` holds.
pub enum Outcome {
    Resolved(Json),
    NotFound,
    RateLimited(Option<u64>),
    TransientError(Seq<char>),
}

impl View for FetchOutcome {
    type V = Outcome;

    open spec fn view(&self) -> Outcome {
        match *self {
            FetchOutcome::Resolved(record) => Outcome::Resolved(record@),
            FetchOutcome::NotFound => Outcome::NotFound,
            FetchOutcome::RateLimited(wait) => Outcome::RateLimited(wait),
            FetchOutcome::TransientError(message) => Outcome::TransientError(message@),
        }
    }
}

/// Names and values of a list of headers, as texts.
pub open spec fn header_texts(headers: Seq<(String, String)>) -> Seq<(Seq<char>, Seq<char>)> {
    headers.map_values(|h: (String, String)| (h.0@, h.1@))
}

/// The value of the first header whose name, lower-cased, is `name`.
pub open spec fn header_value(headers: Seq<(Seq<char>, Seq<char>)>, name: Seq<char>) -> Option<
    Seq<char>,
>
    decreases headers.len(),
{
    if headers.len() == 0 {
        None
    } else if lowercased(headers[0].0) == name {
        Some(headers[0].1)
    } else {
        header_value(headers.drop_first(), name)
    }
}

/// Whether an authorization header is among the headers.
pub open spec fn uses_api_key(headers: Seq<(Seq<char>, Seq<char>)>) -> bool {
    header_value(headers, "authorization"@) is Some
}

/// The time at which a rate limit ends, in seconds since the epoch: what
/// the first `x-ratelimit-reset` header gives, where it holds an integer.
pub open spec fn reset_time(headers: Seq<(Seq<char>, Seq<char>)>) -> Option<int> {
    match header_value(headers, "x-ratelimit-reset"@) {
        Some(value) => integer_of(encode_utf8(value)),
        None => None,
    }
}

/// The seconds from `now` to a time: none once that time has come or lies
/// before the epoch.
pub open spec fn seconds_until(time: int, now: u64) -> u64 {
    if time > now {
        (time - now) as u64
    } else {
        0
    }
}

/// The seconds left of a rate limit, seen from `now`: those until the
/// reset time, and nothing where the response names no reset time.
pub open spec fn retry_after(headers: Seq<(Seq<char>, Seq<char>)>, now: u64) -> Option<u64> {
    match reset_time(headers) {
        Some(time) => Some(seconds_until(time, now)),
        None => None,
    }
}

/// The text of the failure that a rate limit ends a scan with.
pub open spec fn rate_limit_text(wait: Option<u64>, with_api_key: bool) -> Seq<char> {
    "Rate limit exceeded (429)."@ + (match wait {
        Some(seconds) => " Wait "@ + decimal(seconds as nat) + " seconds for reset."@,
        None => Seq::empty(),
    }) + (if with_api_key {
        " Please contact Gravatar to increase your usage limit."@
    } else {
        " Consider getting an API key at https://gravatar.com/developers/applications for higher rate limits."@
    })
}

/// The text that tells of an unexpected status.
pub open spec fn transient_text(status: u16, key: Seq<char>, body: Seq<char>) -> Seq<char> {
    "HTTP error "@ + decimal(status as nat) + " for email "@ + key + ": "@ + body
}

/// The text of the failure that a body which is no JSON ends a scan with.
pub open spec fn malformed_text(reason: Seq<char>) -> Seq<char> {
    "Failed to parse JSON response: "@ + reason
}

/// What a parsed body comes to: the record of the key, or nothing where
/// the body was no JSON.
pub open spec fn resolved(document: Option<Json>, key: Seq<char>) -> Option<Outcome> {
    match document {
        Some(json) => Some(Outcome::Resolved(json.with_text(lookup_field(), key))),
        None => None,
    }
}

/// What a response means, by its status alone: 429 is a rate limit, 200 a
/// profile, 404 no profile, anything else a passing error. Nothing stands
/// for the one fatal case, a 200 whose body is no JSON.
pub open spec fn outcome_of(
    status: u16,
    headers: Seq<(Seq<char>, Seq<char>)>,
    body: Seq<char>,
    key: Seq<char>,
    now: u64,
) -> Option<Outcome> {
    if status == 429 {
        Some(Outcome::RateLimited(retry_after(headers, now)))
    } else if status == 200 {
        resolved(parsed(body), key)
    } else if status == 404 {
        Some(Outcome::NotFound)
    } else {
        Some(Outcome::TransientError(transient_text(status, key, body)))
    }
}

/// Whether what a response means depends on the time.
pub open spec fn time_matters(status: u16, headers: Seq<(Seq<char>, Seq<char>)>) -> bool {
    status == 429 && reset_time(headers) is Some
}

/// Copies a list of headers.
pub fn copy_headers(headers: &Vec<(String, String)>) -> (copy: Vec<(String, String)>)
    ensures
        header_texts(copy@) == header_texts(headers@),
{
    let mut copy: Vec<(String, String)> = Vec::new();
    let mut i: usize = 0;
    while i < headers.len()
        invariant
            i <= headers.len(),
            copy@.len() == i,
            forall|k: int| 0 <= k < i ==> #[trigger] copy@[k] == headers@[k],
        decreases headers.len() - i,
    {
        let header = &headers[i];
        copy.push((header.0.clone(), header.1.clone()));
        i += 1;
    }
    assert(header_texts(copy@) =~= header_texts(headers@));
    copy
}

/// Finds the value of the first header whose name, lower-cased, is `name`.
pub fn find_header<'a>(headers: &'a Vec<(String, String)>, name: &str) -> (value: Option<&'a str>)
    ensures
        match value {
            Some(v) => header_value(header_texts(headers@), name@) == Some(v@),
            None => header_value(header_texts(headers@), name@) is None,
        },
{
    let ghost all = header_texts(headers@);
    let mut i: usize = 0;
    assert(all.skip(0) =~= all);
    while i < headers.len()
        invariant
            i <= headers.len(),
            all == header_texts(headers@),
            header_value(all, name@) == header_value(all.skip(i as int), name@),
        decreases headers.len() - i,
    {
        let header = &headers[i];
        let lower = to_lowercase(header.0.as_str());
        proof {
            let rest = all.skip(i as int);
            assert(rest[0] == all[i as int]);
            assert(all[i as int] == (header.0@, header.1@));
            assert(rest.drop_first() =~= all.skip(i + 1));
        }
        if same_text(lower.as_str(), name) {
            return Some(header.1.as_str());
        }
        i += 1;
    }
    assert(all.skip(i as int).len() == 0);
    None
}

/// Tells whether an authorization header is among the headers.
pub fn has_api_key(headers: &Vec<(String, String)>) -> (r: bool)
    ensures
        r == uses_api_key(header_texts(headers@)),
{
    find_header(headers, "authorization").is_some()
}

/// Reads the time at which a rate limit ends from the headers of a
/// response.
pub fn find_reset_time(headers: &Vec<(String, String)>) -> (time: Option<i128>)
    ensures
        match time {
            Some(t) => reset_time(header_texts(headers@)) == Some(t as int),
            None => reset_time(header_texts(headers@)) is None,
        },
{
    match find_header(headers, "x-ratelimit-reset") {
        Some(value) => parse_integer(value),
        None => None,
    }
}

/// Reads how long a rate limit lasts from the headers of a response.
pub fn wait_seconds(headers: &Vec<(String, String)>, now: u64) -> (wait: Option<u64>)
    ensures
        wait == retry_after(header_texts(headers@), now),
{
    match find_reset_time(headers) {
        Some(time) => Some(
            if time > now as i128 {
                (time - now as i128) as u64
            } else {
                0
            },
        ),
        None => None,
    }
}

/// Words the failure of a scan that met a rate limit: the wait, where one
/// is known, and advice that depends on whether an API key is in use.
pub fn rate_limit_error(wait: Option<u64>, with_api_key: bool) -> (error: ConnectorError)
    ensures
        error@ == (ErrorKind::RateLimited, rate_limit_text(wait, with_api_key)),
{
    let mut message = "Rate limit exceeded (429).".to_owned();
    let ghost head = message@;
    match wait {
        Some(seconds) => {
            message.append(" Wait ");
            append_decimal(&mut message, seconds);
            message.append(" seconds for reset.");
            assert(message@ =~= head + (" Wait "@ + decimal(seconds as nat)
                + " seconds for reset."@));
        },
        None => {
            assert(message@ =~= head + Seq::<char>::empty());
        },
    }
    if with_api_key {
        message.append(" Please contact Gravatar to increase your usage limit.");
    } else {
        message.append(
            " Consider getting an API key at https://gravatar.com/developers/applications for higher rate limits.",
        );
    }
    ConnectorError { kind: ErrorKind::RateLimited, message }
}

/// Turns a parsed body into the outcome of a lookup: the record of the
/// key, or the failure that ends the scan where the body was no JSON.
pub fn resolve(document: Result<Document, ParseFailure>, key: &str) -> (r: Result<
    FetchOutcome,
    ConnectorError,
>)
    ensures
        match r {
            Ok(outcome) => document matches Ok(d) && outcome@ == Outcome::Resolved(
                d@.with_text(lookup_field(), key@),
            ),
            Err(error) => document matches Err(f) && error@ == (
                ErrorKind::MalformedResponse,
                malformed_text(f.message@),
            ),
        },
{
    match document {
        Ok(d) => Ok(FetchOutcome::Resolved(ProfileRecord::new(d, key))),
        Err(failure) => {
            let mut message = "Failed to parse JSON response: ".to_owned();
            message.append(failure.message.as_str());
            Err(ConnectorError { kind: ErrorKind::MalformedResponse, message })
        },
    }
}

impl Request {
    /// The request for the profile of a key: its address below `base_url`,
    /// and a copy of the headers.
    pub fn for_key(base_url: &str, headers: &Vec<(String, String)>, key: &str) -> (request:
        Request)
        ensures
            request.url@ == profile_url(base_url@, key@),
            header_texts(request.headers@) == header_texts(headers@),
    {
        Request { url: build_url(base_url, key), headers: copy_headers(headers) }
    }
}

impl Response {
    /// Whether the meaning of the response depends on the time at which it
    /// is read: only a rate limit that names its reset time does.
    pub fn needs_time(&self) -> (r: bool)
        ensures
            r == time_matters(self.status_code, header_texts(self.headers@)),
    {
        self.status_code == 429 && find_reset_time(&self.headers).is_some()
    }

    /// Classifies the response to the lookup of `key`. It fails, with a
    /// failure that ends the scan, exactly on a 200 whose body is no JSON.
    pub fn outcome(&self, key: &str, now: u64) -> (r: Result<FetchOutcome, ConnectorError>)
        ensures
            match r {
                Ok(outcome) => outcome_of(
                    self.status_code,
                    header_texts(self.headers@),
                    self.body@,
                    key@,
                    now,
                ) == Some(outcome@),
                Err(error) => outcome_of(
                    self.status_code,
                    header_texts(self.headers@),
                    self.body@,
                    key@,
                    now,
                ) is None && error.kind == ErrorKind::MalformedResponse && exists|
                    reason: Seq<char>,
                |
                    error.message@ == malformed_text(reason),
            },
    {
        if self.status_code == 429 {
            Ok(FetchOutcome::RateLimited(wait_seconds(&self.headers, now)))
        } else if self.status_code == 200 {
            resolve(Document::parse(self.body.as_str()), key)
        } else if self.status_code == 404 {
            Ok(FetchOutcome::NotFound)
        } else {
            let mut message = "HTTP error ".to_owned();
            append_decimal(&mut message, self.status_code as u64);
            message.append(" for email ");
            message.append(key);
            message.append(": ");
            message.append(self.body.as_str());
            Ok(FetchOutcome::TransientError(message))
        }
    }
}

} // verus!
