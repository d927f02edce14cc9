//! The connector: the one object that a host drives through a scan.
//!
//! A connector comes into being by `init`, ready for a scan. `begin_scan`
//! reads the lookup keys off the query; the host then fetches the request
//! of each key in turn and hands the response to `accept_response`, until
//! `next_request` has nothing left or a response ends the scan. `iterate`
//! hands out one row per call.

use crate::buffer::{BufferState, ResultBuffer};
use crate::cell::{Cell, Column};
use crate::error::{ConnectorError, ErrorKind};
use crate::fetch::{
    has_api_key, header_texts, malformed_text, outcome_of, rate_limit_error, rate_limit_text,
    uses_api_key, FetchOutcome, Outcome, Request, Response,
};
use crate::lookup::profile_url;
use crate::predicate::{extract_lookup_keys, lookup_keys, texts, Qual};
use crate::record::is_row_of;
use crate::text::same_text;
use vstd::prelude::*;
use vstd::string::*;

verus! {

/// Where a connector stands in the host's protocol.
#[derive(Debug, Clone, Copy, PartialEq, Eq, Structural)]
pub enum Phase {
    /// No scan is under way.
    Ready,
    /// A scan is under way and may have rows left.
    Scanning,
    /// The scan has handed out its last row.
    Exhausted,
}

/// The options of the server that the connector reads.
#[derive(Debug, Clone)]
pub struct ServerOptions {
    /// `api_url`: the base address of the profiles.
    pub api_url: Option<String>,
    /// `api_key`: a bearer token, given as it is.
    pub api_key: Option<String>,
    /// `api_key_id`: the name under which a vault keeps the bearer token.
    pub api_key_id: Option<String>,
}

/// The text of an optional string.
pub open spec fn option_text(text: Option<String>) -> Option<Seq<char>> {
    match text {
        Some(s) => Some(s@),
        None => None,
    }
}

/// The text of an optional string slice.
pub open spec fn option_str(text: Option<&str>) -> Option<Seq<char>> {
    match text {
        Some(s) => Some(s@),
        None => None,
    }
}

/// The base address used where the options name none.
pub open spec fn default_api_url() -> Seq<char> {
    "https://api.gravatar.com/v3/profiles"@
}

/// The one table that the connector serves.
pub open spec fn profiles_table() -> Seq<char> {
    "profiles"@
}

/// Whether the connector serves the table that the options name; it
/// serves `profiles`, which is also what no name stands for.
pub open spec fn supported_table(table: Option<Seq<char>>) -> bool {
    table is None || table == Some(profiles_table())
}

/// The text of the failure for a table that is not served.
pub open spec fn unsupported_table_text(table: Seq<char>) -> Seq<char> {
    "Unsupported table '"@ + table + "'. Only 'profiles' is supported."@
}

/// The text of the failure for a bearer token that the vault did not give.
pub open spec fn vault_failure_text(id: Seq<char>) -> Seq<char> {
    "Failed to retrieve API key from Vault using ID: "@ + id
}

/// The text of the failure of every attempt to write.
pub open spec fn modify_text() -> Seq<char> {
    "modify on foreign table is not supported"@
}

/// The name under which the vault keeps the bearer token, where the
/// options leave the token to the vault.
pub open spec fn vault_key_id(options: ServerOptions) -> Option<Seq<char>> {
    if options.api_key is Some {
        None
    } else {
        option_text(options.api_key_id)
    }
}

/// The value of the authorization header: the token of the options; else,
/// where the options name a vault entry, the secret that the vault gave,
/// and a failure where it gave none or an empty one; else no header.
pub open spec fn authorization(options: ServerOptions, secret: Option<Seq<char>>) -> Result<
    Option<Seq<char>>,
    Seq<char>,
> {
    match options.api_key {
        Some(key) => Ok(Some("Bearer "@ + key@)),
        None => match options.api_key_id {
            Some(id) => if secret is Some && secret->0.len() > 0 {
                Ok(Some("Bearer "@ + secret->0))
            } else {
                Err(vault_failure_text(id@))
            },
            None => Ok(None),
        },
    }
}

/// The headers of every request: a user agent, the accepted content type
/// and, where there is a token, the authorization.
pub open spec fn request_headers(user_agent: Seq<char>, authorization: Option<Seq<char>>) -> Seq<
    (Seq<char>, Seq<char>),
> {
    let always = seq![("user-agent"@, user_agent), ("accept"@, "application/json"@)];
    match authorization {
        Some(value) => always.push(("authorization"@, value)),
        None => always,
    }
}

/// What a connector holds.
pub struct ConnectorState {
    pub phase: Phase,
    pub base_url: Seq<char>,
    pub headers: Seq<(Seq<char>, Seq<char>)>,
    pub buffer: BufferState,
    /// The keys of the scan that are still to be looked up, in the order
    /// of the query.
    pub pending: Seq<Seq<char>>,
}

impl ConnectorState {
    /// The connector that `init` makes, or the failure it reports.
    pub open spec fn init(
        user_agent: Seq<char>,
        options: ServerOptions,
        secret: Option<Seq<char>>,
    ) -> Result<ConnectorState, (ErrorKind, Seq<char>)> {
        match authorization(options, secret) {
            Ok(value) => Ok(
                ConnectorState {
                    phase: Phase::Ready,
                    base_url: match options.api_url {
                        Some(url) => url@,
                        None => default_api_url(),
                    },
                    headers: request_headers(user_agent, value),
                    buffer: BufferState::empty(),
                    pending: Seq::empty(),
                },
            ),
            Err(text) => Err((ErrorKind::Configuration, text)),
        }
    }

    /// The state after `begin_scan`: the records of any earlier scan are
    /// gone; the keys of the query are pending where the table is served.
    pub open spec fn begin_scan(self, table: Option<Seq<char>>, quals: Seq<Qual>) -> ConnectorState {
        if supported_table(table) {
            ConnectorState {
                phase: Phase::Scanning,
                buffer: BufferState::empty(),
                pending: lookup_keys(quals),
                ..self
            }
        } else {
            ConnectorState {
                phase: Phase::Ready,
                buffer: BufferState::empty(),
                pending: Seq::empty(),
                ..self
            }
        }
    }

    /// The address and the headers of the request that is due next.
    pub open spec fn next_request(self) -> Option<(Seq<char>, Seq<(Seq<char>, Seq<char>)>)> {
        if self.pending.len() > 0 {
            Some((profile_url(self.base_url, self.pending[0]), self.headers))
        } else {
            None
        }
    }

    /// Whether an outcome ends the scan: a rate limit does, and so does the
    /// lack of an outcome, which stands for a body that is no JSON.
    pub open spec fn is_fatal(outcome: Option<Outcome>) -> bool {
        outcome is None || outcome->0 is RateLimited
    }

    /// The state after the lookup of the first pending key came to
    /// `outcome`: a profile is added behind the others; no profile and a
    /// passing error add nothing; a fatal outcome drops the keys that are
    /// left. With no key pending, nothing changes.
    pub open spec fn accept(self, outcome: Option<Outcome>) -> ConnectorState {
        if self.pending.len() == 0 {
            self
        } else {
            match outcome {
                Some(Outcome::Resolved(record)) => ConnectorState {
                    buffer: self.buffer.push(record),
                    pending: self.pending.drop_first(),
                    ..self
                },
                Some(Outcome::NotFound) | Some(Outcome::TransientError(_)) => ConnectorState {
                    pending: self.pending.drop_first(),
                    ..self
                },
                Some(Outcome::RateLimited(_)) | None => ConnectorState {
                    pending: Seq::empty(),
                    ..self
                },
            }
        }
    }

    /// The state after `iterate`: the cursor is one record on, or the scan
    /// is exhausted where no record was left.
    pub open spec fn iterate(self) -> ConnectorState {
        if self.buffer.at_end() {
            ConnectorState { phase: Phase::Exhausted, ..self }
        } else {
            ConnectorState { phase: Phase::Scanning, buffer: self.buffer.advance(), ..self }
        }
    }

    /// The state after `re_scan`: the same records, from the first again.
    pub open spec fn re_scan(self) -> ConnectorState {
        ConnectorState { phase: Phase::Scanning, buffer: self.buffer.reset(), ..self }
    }

    /// The state after `end_scan`: no records and no pending keys.
    pub open spec fn end_scan(self) -> ConnectorState {
        ConnectorState {
            phase: Phase::Ready,
            buffer: BufferState::empty(),
            pending: Seq::empty(),
            ..self
        }
    }
}

impl ServerOptions {
    /// The name of the vault entry that `init` needs the secret of, where
    /// it needs one.
    pub fn vault_key_id(&self) -> (id: Option<&str>)
        ensures
            option_str(id) == vault_key_id(*self),
    {
        if self.api_key.is_some() {
            None
        } else {
            match &self.api_key_id {
                Some(id) => Some(id.as_str()),
                None => None,
            }
        }
    }
}

/// The connector.
#[derive(Debug)]
pub struct Connector {
    phase: Phase,
    base_url: String,
    headers: Vec<(String, String)>,
    buffer: ResultBuffer,
    keys: Vec<String>,
    next_key: usize,
}

impl View for Connector {
    type V = ConnectorState;

    closed spec fn view(&self) -> ConnectorState {
        ConnectorState {
            phase: self.phase,
            base_url: self.base_url@,
            headers: header_texts(self.headers@),
            buffer: self.buffer@,
            pending: if self.next_key <= self.keys@.len() {
                texts(self.keys@).skip(self.next_key as int)
            } else {
                Seq::empty()
            },
        }
    }
}

fn bearer(token: &str) -> (value: String)
    ensures
        value@ == "Bearer "@ + token@,
{
    let mut value = "Bearer ".to_owned();
    value.append(token);
    value
}

fn push_header(headers: &mut Vec<(String, String)>, name: &str, value: String)
    ensures
        header_texts(final(headers)@) == header_texts(old(headers)@).push((name@, value@)),
{
    let ghost before = headers@;
    let header = (name.to_owned(), value);
    headers.push(header);
    assert(header_texts(headers@) =~= header_texts(before).push((name@, value@)));
}

fn configuration_error(message: String) -> (error: ConnectorError)
    ensures
        error@ == (ErrorKind::Configuration, message@),
{
    ConnectorError { kind: ErrorKind::Configuration, message }
}

impl Connector {
    /// The host version that the connector asks for, as a semver
    /// expression.
    pub fn host_version_requirement() -> (requirement: String)
        ensures
            requirement@ == "^0.1.0"@,
    {
        "^0.1.0".to_owned()
    }

    /// Makes a connector from the options of the server. `secret` is what
    /// the vault gave for `options.vault_key_id()`, if it was asked. Fails
    /// only where the options leave the token to the vault and the vault
    /// gave none, or an empty one.
    pub fn init(user_agent: &str, options: &ServerOptions, secret: Option<&str>) -> (r: Result<
        Connector,
        ConnectorError,
    >)
        ensures
            match r {
                Ok(connector) => ConnectorState::init(user_agent@, *options, option_str(secret))
                    == Ok::<ConnectorState, (ErrorKind, Seq<char>)>(connector@),
                Err(error) => ConnectorState::init(user_agent@, *options, option_str(secret))
                    == Err::<ConnectorState, (ErrorKind, Seq<char>)>(error@),
            },
    {
        let token: Option<String> = match &options.api_key {
            Some(key) => Some(bearer(key.as_str())),
            None => match &options.api_key_id {
                Some(id) => {
                    let given: Option<&str> = match secret {
                        Some(s) => if s.is_empty() {
                            None
                        } else {
                            Some(s)
                        },
                        None => None,
                    };
                    match given {
                        Some(s) => Some(bearer(s)),
                        None => {
                            let mut message =
                                "Failed to retrieve API key from Vault using ID: ".to_owned();
                            message.append(id.as_str());
                            return Err(configuration_error(message));
                        },
                    }
                },
                None => None,
            },
        };
        assert(authorization(*options, option_str(secret)) == Ok::<Option<Seq<char>>, Seq<char>>(
            option_text(token),
        ));
        let base_url = match &options.api_url {
            Some(url) => url.clone(),
            None => "https://api.gravatar.com/v3/profiles".to_owned(),
        };
        let mut headers: Vec<(String, String)> = Vec::new();
        assert(header_texts(headers@) =~= Seq::empty());
        push_header(&mut headers, "user-agent", user_agent.to_owned());
        push_header(&mut headers, "accept", "application/json".to_owned());
        assert(header_texts(headers@) =~= request_headers(user_agent@, None));
        match token {
            Some(value) => {
                push_header(&mut headers, "authorization", value);
            },
            None => {},
        }
        let connector = Connector {
            phase: Phase::Ready,
            base_url,
            headers,
            buffer: ResultBuffer::new(),
            keys: Vec::new(),
            next_key: 0,
        };
        assert(connector@.pending =~= Seq::empty());
        Ok(connector)
    }

    /// Where the connector stands.
    pub fn phase(&self) -> (phase: Phase)
        ensures
            phase == self@.phase,
    {
        self.phase
    }

    /// The base address of the profiles.
    pub fn base_url(&self) -> (url: &str)
        ensures
            url@ == self@.base_url,
    {
        self.base_url.as_str()
    }

    /// The headers that every request carries.
    pub fn headers(&self) -> (headers: &Vec<(String, String)>)
        ensures
            header_texts(headers@) == self@.headers,
    {
        &self.headers
    }

    /// Whether the requests carry an authorization header.
    pub fn uses_api_key(&self) -> (r: bool)
        ensures
            r == uses_api_key(self@.headers),
    {
        has_api_key(&self.headers)
    }

    /// The number of records that the scan has resolved.
    pub fn record_count(&self) -> (n: usize)
        ensures
            n == self@.buffer.records.len(),
    {
        self.buffer.len()
    }

    /// The number of keys that are still to be looked up.
    pub fn pending_count(&self) -> (n: usize)
        ensures
            n == self@.pending.len(),
    {
        if self.next_key <= self.keys.len() {
            self.keys.len() - self.next_key
        } else {
            0
        }
    }

    /// The key whose lookup is due next.
    pub fn pending_key(&self) -> (key: Option<&str>)
        ensures
            match key {
                Some(k) => self@.pending.len() > 0 && self@.pending[0] == k@,
                None => self@.pending.len() == 0,
            },
    {
        if self.next_key < self.keys.len() {
            let key = &self.keys[self.next_key];
            assert(self@.pending[0] == key@);
            Some(key.as_str())
        } else {
            None
        }
    }

    /// Begins a scan: drops what an earlier scan left, and makes the keys
    /// of the query pending. `table` is the `table` option of the foreign
    /// table. Fails exactly where that option names another table than
    /// `profiles`; a query without keys is no failure.
    pub fn begin_scan(&mut self, table: Option<&str>, quals: &Vec<Qual>) -> (r: Result<
        (),
        ConnectorError,
    >)
        ensures
            final(self)@ == old(self)@.begin_scan(option_str(table), quals@),
            match r {
                Ok(_) => supported_table(option_str(table)),
                Err(error) => table matches Some(name) && name@ != profiles_table() && error@ == (
                    ErrorKind::Configuration,
                    unsupported_table_text(name@),
                ),
            },
    {
        self.buffer.clear();
        match table {
            Some(name) => {
                if !same_text(name, "profiles") {
                    self.keys = Vec::new();
                    self.next_key = 0;
                    self.phase = Phase::Ready;
                    assert(self@.pending =~= Seq::empty());
                    let mut message = "Unsupported table '".to_owned();
                    message.append(name);
                    message.append("'. Only 'profiles' is supported.");
                    return Err(configuration_error(message));
                }
            },
            None => {},
        }
        self.keys = extract_lookup_keys(quals);
        self.next_key = 0;
        self.phase = Phase::Scanning;
        assert(self@.pending =~= lookup_keys(quals@));
        Ok(())
    }

    /// The request that the host is to make next: that of the first key
    /// still pending. Nothing once every key was looked up, or the scan
    /// ended.
    pub fn next_request(&self) -> (request: Option<Request>)
        ensures
            match request {
                Some(r) => self@.next_request() == Some((r.url@, header_texts(r.headers@))),
                None => self@.next_request() is None,
            },
    {
        if self.next_key < self.keys.len() {
            let key = &self.keys[self.next_key];
            assert(self@.pending[0] == key@);
            Some(Request::for_key(self.base_url.as_str(), &self.headers, key.as_str()))
        } else {
            None
        }
    }

    /// Takes the outcome of the lookup of the first pending key: the
    /// classified response, or the failure of a body that is no JSON. A
    /// profile is kept, a missing profile and a passing error are passed
    /// over, and the scan goes on; a rate limit and a failure end it, with
    /// an error. With no key pending, nothing happens.
    pub fn apply_outcome(&mut self, outcome: Result<FetchOutcome, ConnectorError>) -> (r: Result<
        (),
        ConnectorError,
    >)
        ensures
            final(self)@ == old(self)@.accept(outcome_view(outcome)),
            match r {
                Ok(_) => old(self)@.pending.len() == 0 || !ConnectorState::is_fatal(
                    outcome_view(outcome),
                ),
                Err(error) => old(self)@.pending.len() > 0 && match outcome {
                    Ok(FetchOutcome::RateLimited(wait)) => error@ == (
                        ErrorKind::RateLimited,
                        rate_limit_text(wait, uses_api_key(old(self)@.headers)),
                    ),
                    Ok(_) => false,
                    Err(failure) => error == failure,
                },
            },
    {
        if self.next_key >= self.keys.len() {
            return Ok(());
        }
        let ghost pending = self@.pending;
        assert(pending.drop_first() =~= texts(self.keys@).skip(self.next_key + 1));
        match outcome {
            Ok(FetchOutcome::Resolved(record)) => {
                self.buffer.push(record);
                self.next_key = self.next_key + 1;
                Ok(())
            },
            Ok(FetchOutcome::NotFound) => {
                self.next_key = self.next_key + 1;
                Ok(())
            },
            Ok(FetchOutcome::TransientError(_)) => {
                self.next_key = self.next_key + 1;
                Ok(())
            },
            Ok(FetchOutcome::RateLimited(wait)) => {
                self.next_key = self.keys.len();
                assert(self@.pending =~= Seq::empty());
                Err(rate_limit_error(wait, has_api_key(&self.headers)))
            },
            Err(failure) => {
                self.next_key = self.keys.len();
                assert(self@.pending =~= Seq::empty());
                Err(failure)
            },
        }
    }

    /// Takes the response to the request of the first pending key, read at
    /// the time `now` in seconds since the epoch. According to its status,
    /// a profile is kept (200), the key is passed over (404 and any other
    /// status), or the scan ends with an error (429, and a 200 whose body
    /// is no JSON). With no key pending, nothing happens.
    pub fn accept_response(&mut self, response: &Response, now: u64) -> (r: Result<
        (),
        ConnectorError,
    >)
        ensures
            old(self)@.pending.len() == 0 ==> r is Ok && final(self)@ == old(self)@,
            old(self)@.pending.len() > 0 ==> {
                let outcome = outcome_of(
                    response.status_code,
                    header_texts(response.headers@),
                    response.body@,
                    old(self)@.pending[0],
                    now,
                );
                &&& final(self)@ == old(self)@.accept(outcome)
                &&& r is Ok <==> !ConnectorState::is_fatal(outcome)
                &&& r matches Err(error) ==> match outcome {
                    Some(Outcome::RateLimited(wait)) => error@ == (
                        ErrorKind::RateLimited,
                        rate_limit_text(wait, uses_api_key(old(self)@.headers)),
                    ),
                    _ => error.kind == ErrorKind::MalformedResponse && exists|reason: Seq<char>|
                        error.message@ == malformed_text(reason),
                }
            },
    {
        if self.next_key >= self.keys.len() {
            return Ok(());
        }
        let outcome = {
            let key = &self.keys[self.next_key];
            assert(self@.pending[0] == key@);
            response.outcome(key.as_str(), now)
        };
        self.apply_outcome(outcome)
    }

    /// Hands out the row of the record under the cursor, one cell for each
    /// column, and moves the cursor on; or tells that no record is left.
    pub fn iterate(&mut self, columns: &Vec<Column>) -> (row: Option<Vec<Option<Cell>>>)
        ensures
            final(self)@ == old(self)@.iterate(),
            match row {
                Some(cells) => !old(self)@.buffer.at_end() && is_row_of(
                    cells@,
                    old(self)@.buffer.current(),
                    columns@,
                ),
                None => old(self)@.buffer.at_end(),
            },
    {
        let row = match self.buffer.advance() {
            Some(record) => Some(record.project(columns)),
            None => None,
        };
        if row.is_some() {
            self.phase = Phase::Scanning;
        } else {
            self.phase = Phase::Exhausted;
        }
        row
    }

    /// Puts the cursor back on the first record. Nothing is fetched again.
    pub fn re_scan(&mut self)
        ensures
            final(self)@ == old(self)@.re_scan(),
    {
        self.buffer.reset();
        self.phase = Phase::Scanning;
    }

    /// Ends the scan: drops its records and the keys still pending.
    pub fn end_scan(&mut self)
        ensures
            final(self)@ == old(self)@.end_scan(),
    {
        self.buffer.clear();
        self.keys = Vec::new();
        self.next_key = 0;
        self.phase = Phase::Ready;
        assert(self@.pending =~= Seq::empty());
    }

    /// Refuses to begin a modification: the connector only reads.
    pub fn begin_modify(&self) -> (r: Result<(), ConnectorError>)
        ensures
            r matches Err(error) && error@ == (ErrorKind::Unsupported, modify_text()),
    {
        Err(
            ConnectorError {
                kind: ErrorKind::Unsupported,
                message: "modify on foreign table is not supported".to_owned(),
            },
        )
    }

    /// Does nothing.
    pub fn insert(&self, row: &Vec<Option<Cell>>) -> (r: Result<(), ConnectorError>)
        ensures
            r is Ok,
    {
        Ok(())
    }

    /// Does nothing.
    pub fn update(&self, rowid: &Cell, row: &Vec<Option<Cell>>) -> (r: Result<(), ConnectorError>)
        ensures
            r is Ok,
    {
        Ok(())
    }

    /// Does nothing.
    pub fn delete(&self, rowid: &Cell) -> (r: Result<(), ConnectorError>)
        ensures
            r is Ok,
    {
        Ok(())
    }

    /// Does nothing.
    pub fn end_modify(&self) -> (r: Result<(), ConnectorError>)
        ensures
            r is Ok,
    {
        Ok(())
    }
}

/// What the classification of a response holds; nothing for a failure.
pub open spec fn outcome_view(outcome: Result<FetchOutcome, ConnectorError>) -> Option<Outcome> {
    match outcome {
        Ok(o) => Some(o@),
        Err(_) => None,
    }
}

} // verus!
