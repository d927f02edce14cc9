//! What holds of every scan: laws of the connector's states, proved from
//! the definitions that the connector's contracts use.

use crate::buffer::BufferState;
use crate::connector::{supported_table, ConnectorState, Phase, ServerOptions};
use crate::fetch::{
    outcome_of, rate_limit_text, reset_time, retry_after, time_matters, Outcome,
};
use crate::json::{parsed, Json};
use crate::predicate::{lemma_no_qualifying_filter_no_keys, lookup_key_of, lookup_keys, Qual};
use crate::record::lookup_field;
use crate::text::decimal;
use vstd::prelude::*;

verus! {

/// The state after `k` calls of `iterate`.
pub open spec fn iterate_times(state: ConnectorState, k: nat) -> ConnectorState
    decreases k,
{
    if k == 0 {
        state
    } else {
        iterate_times(state, (k - 1) as nat).iterate()
    }
}

/// The state after the lookups of the pending keys came to `outcomes`, one
/// after the other.
pub open spec fn accept_each(state: ConnectorState, outcomes: Seq<Option<Outcome>>) -> ConnectorState
    decreases outcomes.len(),
{
    if outcomes.len() == 0 {
        state
    } else {
        accept_each(state, outcomes.drop_last()).accept(outcomes.last())
    }
}

/// The cursor of a connector never leaves its records: `init` makes a
/// connector of which that holds, and every step keeps it.
pub proof fn lemma_cursor_stays_within_records(
    state: ConnectorState,
    table: Option<Seq<char>>,
    quals: Seq<Qual>,
    outcome: Option<Outcome>,
    user_agent: Seq<char>,
    options: ServerOptions,
    secret: Option<Seq<char>>,
)
    requires
        state.buffer.valid(),
    ensures
        ConnectorState::init(user_agent, options, secret) matches Ok(made) ==> made.buffer.valid(),
        state.begin_scan(table, quals).buffer.valid(),
        state.accept(outcome).buffer.valid(),
        state.iterate().buffer.valid(),
        state.re_scan().buffer.valid(),
        state.end_scan().buffer.valid(),
{
}

/// No step of a scan changes where and how the connector asks: the base
/// address and the headers stay as `init` made them.
pub proof fn lemma_steps_keep_configuration(
    state: ConnectorState,
    table: Option<Seq<char>>,
    quals: Seq<Qual>,
    outcome: Option<Outcome>,
)
    ensures
        state.begin_scan(table, quals).base_url == state.base_url,
        state.begin_scan(table, quals).headers == state.headers,
        state.accept(outcome).base_url == state.base_url,
        state.accept(outcome).headers == state.headers,
        state.iterate().base_url == state.base_url,
        state.iterate().headers == state.headers,
        state.re_scan().base_url == state.base_url,
        state.re_scan().headers == state.headers,
        state.end_scan().base_url == state.base_url,
        state.end_scan().headers == state.headers,
{
}

/// A scan of a query without a lookup key is no failure and has no rows:
/// it has no request to make, and its first `iterate` tells the end.
pub proof fn lemma_scan_without_keys_has_no_rows(
    state: ConnectorState,
    table: Option<Seq<char>>,
    quals: Seq<Qual>,
)
    requires
        supported_table(table),
        forall|i: int| 0 <= i < quals.len() ==> lookup_key_of(#[trigger] quals[i]) is None,
    ensures
        ({
            let begun = state.begin_scan(table, quals);
            &&& begun.phase == Phase::Scanning
            &&& begun.next_request() is None
            &&& begun.buffer.records.len() == 0
            &&& begun.buffer.at_end()
            &&& begun.iterate().phase == Phase::Exhausted
        }),
{
    lemma_no_qualifying_filter_no_keys(quals);
}

/// Only a response of status 200 adds a record, and a response that does
/// not end the scan leaves the other keys pending.
pub proof fn lemma_only_success_adds_a_record(
    state: ConnectorState,
    status: u16,
    headers: Seq<(Seq<char>, Seq<char>)>,
    body: Seq<char>,
    now: u64,
)
    requires
        state.pending.len() > 0,
        status != 200,
    ensures
        ({
            let outcome = outcome_of(status, headers, body, state.pending[0], now);
            &&& state.accept(outcome).buffer == state.buffer
            &&& status != 429 ==> !ConnectorState::is_fatal(outcome) && state.accept(
                outcome,
            ).pending == state.pending.drop_first()
        }),
{
}

/// A key without a profile does not end the scan: after a 404 for one key,
/// a 200 for the next adds that key's record.
pub proof fn lemma_missing_profile_is_passed_over(
    state: ConnectorState,
    first_headers: Seq<(Seq<char>, Seq<char>)>,
    first_body: Seq<char>,
    first_now: u64,
    headers: Seq<(Seq<char>, Seq<char>)>,
    body: Seq<char>,
    now: u64,
    document: Json,
)
    requires
        state.pending.len() >= 2,
        parsed(body) == Some(document),
    ensures
        ({
            let first = outcome_of(404, first_headers, first_body, state.pending[0], first_now);
            let second = outcome_of(200, headers, body, state.pending[1], now);
            let passed = state.accept(first);
            let kept = passed.accept(second);
            &&& !ConnectorState::is_fatal(first)
            &&& !ConnectorState::is_fatal(second)
            &&& passed.buffer == state.buffer
            &&& kept.buffer.records == state.buffer.records.push(
                document.with_text(lookup_field(), state.pending[1]),
            )
            &&& kept.pending == state.pending.skip(2)
        }),
{
    assert(state.pending.drop_first().drop_first() =~= state.pending.skip(2));
}

/// A rate limit ends the scan: no key is left pending and no request is
/// made after it, and the records stay as they were.
pub proof fn lemma_rate_limit_ends_scan(
    state: ConnectorState,
    headers: Seq<(Seq<char>, Seq<char>)>,
    body: Seq<char>,
    now: u64,
)
    requires
        state.pending.len() > 0,
    ensures
        ({
            let outcome = outcome_of(429, headers, body, state.pending[0], now);
            &&& ConnectorState::is_fatal(outcome)
            &&& outcome == Some(Outcome::RateLimited(retry_after(headers, now)))
            &&& state.accept(outcome).next_request() is None
            &&& state.accept(outcome).buffer == state.buffer
        }),
{
}

/// A reset time that has come, or that lies before the epoch, leaves no
/// wait, and the failure says so.
pub proof fn lemma_past_reset_is_no_wait(
    headers: Seq<(Seq<char>, Seq<char>)>,
    reset: int,
    now: u64,
    with_api_key: bool,
)
    requires
        reset_time(headers) == Some(reset),
        reset <= now,
    ensures
        retry_after(headers, now) == Some(0u64),
        ("Rate limit exceeded (429). Wait 0 seconds for reset."@).is_prefix_of(
            rate_limit_text(retry_after(headers, now), with_api_key),
        ),
{
    let named = "Rate limit exceeded (429). Wait 0 seconds for reset."@;
    let advice = if with_api_key {
        " Please contact Gravatar to increase your usage limit."@
    } else {
        " Consider getting an API key at https://gravatar.com/developers/applications for higher rate limits."@
    };
    reveal_strlit("Rate limit exceeded (429). Wait 0 seconds for reset.");
    reveal_strlit("Rate limit exceeded (429).");
    reveal_strlit(" Wait ");
    reveal_strlit(" seconds for reset.");
    assert(decimal(0) =~= seq!['0']);
    assert(named =~= "Rate limit exceeded (429)."@ + (" Wait "@ + decimal(0)
        + " seconds for reset."@));
    let text = rate_limit_text(retry_after(headers, now), with_api_key);
    assert(text =~= named + advice);
    assert(text.subrange(0, named.len() as int) =~= named);
}

/// What a response means depends on the time at which it is read only
/// where it is a rate limit that names its reset time.
pub proof fn lemma_time_matters_only_for_a_reset(
    status: u16,
    headers: Seq<(Seq<char>, Seq<char>)>,
    body: Seq<char>,
    key: Seq<char>,
    now: u64,
    later: u64,
)
    requires
        !time_matters(status, headers),
    ensures
        outcome_of(status, headers, body, key, now) == outcome_of(status, headers, body, key, later),
{
}

/// A reset time that is still to come gives the seconds until then as the
/// wait, and the failure names them.
pub proof fn lemma_wait_until_reset(
    headers: Seq<(Seq<char>, Seq<char>)>,
    reset: int,
    now: u64,
    with_api_key: bool,
)
    requires
        reset_time(headers) == Some(reset),
        reset > now,
    ensures
        retry_after(headers, now) == Some((reset - now) as u64),
        ("Rate limit exceeded (429). Wait "@ + decimal((reset - now) as nat)
            + " seconds for reset."@).is_prefix_of(
            rate_limit_text(retry_after(headers, now), with_api_key),
        ),
{
    let named = "Rate limit exceeded (429). Wait "@ + decimal((reset - now) as nat)
        + " seconds for reset."@;
    let advice = if with_api_key {
        " Please contact Gravatar to increase your usage limit."@
    } else {
        " Consider getting an API key at https://gravatar.com/developers/applications for higher rate limits."@
    };
    reveal_strlit("Rate limit exceeded (429). Wait ");
    reveal_strlit("Rate limit exceeded (429).");
    reveal_strlit(" Wait ");
    assert("Rate limit exceeded (429). Wait "@ =~= "Rate limit exceeded (429)."@ + " Wait "@);
    let text = rate_limit_text(retry_after(headers, now), with_api_key);
    assert(text =~= named + advice);
    assert(text.subrange(0, named.len() as int) =~= named);
}

/// The advice in the failure of a rate limit tells whether an API key is
/// in use: the two texts differ.
pub proof fn lemma_advice_depends_on_api_key(wait: Option<u64>)
    ensures
        rate_limit_text(wait, true) != rate_limit_text(wait, false),
{
    let head = "Rate limit exceeded (429)."@ + (match wait {
        Some(seconds) => " Wait "@ + decimal(seconds as nat) + " seconds for reset."@,
        None => Seq::empty(),
    });
    let with_key = " Please contact Gravatar to increase your usage limit."@;
    let without = " Consider getting an API key at https://gravatar.com/developers/applications for higher rate limits."@;
    reveal_strlit(" Please contact Gravatar to increase your usage limit.");
    reveal_strlit(
        " Consider getting an API key at https://gravatar.com/developers/applications for higher rate limits.",
    );
    assert(with_key[1] == 'P');
    assert(without[1] == 'C');
    assert((head + with_key)[head.len() as int + 1] == with_key[1]);
    assert((head + without)[head.len() as int + 1] == without[1]);
}

/// While the keys of a scan are looked up, the cursor stays on the first
/// record.
pub proof fn lemma_lookups_leave_cursor(
    state: ConnectorState,
    table: Option<Seq<char>>,
    quals: Seq<Qual>,
    outcomes: Seq<Option<Outcome>>,
)
    ensures
        accept_each(state.begin_scan(table, quals), outcomes).buffer.cursor == 0,
    decreases outcomes.len(),
{
    if outcomes.len() > 0 {
        lemma_lookups_leave_cursor(state, table, quals, outcomes.drop_last());
    }
}

/// With the cursor on the first of `n` records, each of the first `n`
/// calls of `iterate` hands out a row, the `k`-th that of the `k`-th
/// record, and the call after them tells the end.
pub proof fn lemma_each_record_is_one_row(state: ConnectorState, k: nat)
    requires
        state.buffer.cursor == 0,
        k <= state.buffer.records.len(),
    ensures
        ({
            let reached = iterate_times(state, k);
            &&& reached.buffer.records == state.buffer.records
            &&& reached.buffer.cursor == k
            &&& k < state.buffer.records.len() ==> !reached.buffer.at_end()
                && reached.buffer.current() == state.buffer.records[k as int]
                && reached.iterate().phase == Phase::Scanning
            &&& k == state.buffer.records.len() ==> reached.buffer.at_end()
                && reached.iterate().phase == Phase::Exhausted
                && reached.iterate().buffer == reached.buffer
        }),
    decreases k,
{
    if k > 0 {
        lemma_each_record_is_one_row(state, (k - 1) as nat);
    }
}

/// `re_scan` puts the cursor back on the first record and fetches nothing:
/// the records are the same, and no request becomes due.
pub proof fn lemma_re_scan_starts_over(state: ConnectorState)
    ensures
        state.re_scan().phase == Phase::Scanning,
        state.re_scan().buffer.records == state.buffer.records,
        state.re_scan().buffer.cursor == 0,
        state.re_scan().pending == state.pending,
{
}

/// `end_scan` forgets the records: a scan without keys that begins after
/// it has none, whatever the scan before had resolved.
pub proof fn lemma_end_scan_forgets_records(
    state: ConnectorState,
    table: Option<Seq<char>>,
    quals: Seq<Qual>,
)
    requires
        supported_table(table),
        forall|i: int| 0 <= i < quals.len() ==> lookup_key_of(#[trigger] quals[i]) is None,
    ensures
        state.end_scan().phase == Phase::Ready,
        state.end_scan().buffer == BufferState::empty(),
        state.end_scan().begin_scan(table, quals).buffer.records.len() == 0,
        state.end_scan().begin_scan(table, quals).next_request() is None,
        state.end_scan().begin_scan(table, quals).iterate().phase == Phase::Exhausted,
{
    lemma_no_qualifying_filter_no_keys(quals);
}

} // verus!
