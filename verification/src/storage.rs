//! The sink client: the write request, how an attempt's outcome is
//! classified, and the retry policy around one flush.
//!
//! Nothing here touches the network. A driver performs the request that it is
//! handed and reports what came back as an [`AttemptOutcome`].

use crate::buffer::{join_lines, BatchBuffer};
use crate::decimal::{append_nat, nat_text};
use crate::fetch_price::StockPrice;
use crate::line::{batch_lines, encode_batch};
use vstd::arithmetic::power2::{lemma_pow2_strictly_increases, lemma_pow2_unfold, pow2};
use vstd::prelude::*;
use vstd::string::*;

verus! {

/// Attempts made for one flush before it fails.
pub const MAX_ATTEMPTS: u32 = 3;

/// The delay after the first failed attempt, in milliseconds.
pub const BASE_DELAY_MS: u64 = 100;

/// Why a write did not succeed.
#[derive(Clone, Debug, PartialEq, Eq)]
pub enum WriteError {
    /// No response came back: connection refused, timeout, failed lookup.
    Transport { message: String },
    /// A response came back with a status outside 200..=299. The response
    /// body is kept as it came.
    Status { status: u16, body: String },
    /// A flush failed though no attempt left an error behind.
    Unknown,
}

/// What one write attempt yielded.
#[derive(Clone, Debug, PartialEq, Eq)]
pub enum AttemptOutcome {
    /// The endpoint answered.
    Response { status: u16, body: String },
    /// The endpoint could not be reached.
    Transport { message: String },
}

/// Whether `status` reports success: any status from 200 to 299.
pub open spec fn is_success_status(status: u16) -> bool {
    200 <= status < 300
}

/// The result that an outcome stands for. Every failure is retryable.
pub open spec fn outcome_result(outcome: AttemptOutcome) -> Result<(), WriteError> {
    match outcome {
        AttemptOutcome::Response { status, body } => if is_success_status(status) {
            Ok(())
        } else {
            Err(WriteError::Status { status, body })
        },
        AttemptOutcome::Transport { message } => Err(WriteError::Transport { message }),
    }
}

/// Whether `status` reports success.
pub fn is_success(status: u16) -> (ok: bool)
    ensures
        ok == is_success_status(status),
{
    200 <= status && status < 300
}

/// Classifies the outcome of one attempt.
pub fn classify(outcome: AttemptOutcome) -> (result: Result<(), WriteError>)
    ensures
        result == outcome_result(outcome),
{
    match outcome {
        AttemptOutcome::Response { status, body } => {
            if is_success(status) {
                Ok(())
            } else {
                Err(WriteError::Status { status, body })
            }
        },
        AttemptOutcome::Transport { message } => Err(WriteError::Transport { message }),
    }
}

impl WriteError {
    /// The text of this error.
    pub open spec fn message_text(&self) -> Seq<char> {
        match self {
            WriteError::Transport { message } => message@,
            WriteError::Status { status, body } => "write failed "@ + nat_text(*status as nat)
                + ": "@ + body@,
            WriteError::Unknown => "unknown write error"@,
        }
    }

    /// The text of this error, for diagnostics.
    pub fn message(&self) -> (text: String)
        ensures
            text@ == self.message_text(),
    {
        match self {
            WriteError::Transport { message } => message.clone(),
            WriteError::Status { status, body } => {
                let mut text = String::from_str("write failed ");
                append_nat(&mut text, *status as u128);
                text.append(": ");
                text.append(body.as_str());
                text
            },
            WriteError::Unknown => String::from_str("unknown write error"),
        }
    }
}

/// The delay, in milliseconds, that follows the `failures`-th failed attempt
/// of a flush: 100, 200, 400, doubling each time. None before the first.
pub open spec fn backoff_delay(failures: nat) -> nat {
    if failures == 0 {
        0
    } else {
        BASE_DELAY_MS as nat * pow2((failures - 1) as nat)
    }
}

/// A delay as a `u64` holds it: the largest `u64` stands for all above it.
pub open spec fn capped(millis: nat) -> u64 {
    if millis > u64::MAX {
        u64::MAX
    } else {
        millis as u64
    }
}

proof fn lemma_backoff_doubles(failures: nat)
    requires
        failures >= 1,
    ensures
        backoff_delay(failures + 1) == 2 * backoff_delay(failures),
{
    lemma_pow2_unfold(failures);
    assert(BASE_DELAY_MS as nat * (2 * pow2((failures - 1) as nat)) == 2 * (BASE_DELAY_MS as nat
        * pow2((failures - 1) as nat))) by (nonlinear_arith);
}

proof fn lemma_backoff_grows(low: nat, high: nat)
    requires
        1 <= low <= high,
    ensures
        backoff_delay(low) <= backoff_delay(high),
{
    if low < high {
        lemma_pow2_strictly_increases((low - 1) as nat, (high - 1) as nat);
    }
    let a = pow2((low - 1) as nat);
    let b = pow2((high - 1) as nat);
    assert(a <= b ==> BASE_DELAY_MS as nat * a <= BASE_DELAY_MS as nat * b)
        by (nonlinear_arith);
}

/// The delays of the policy after the first, second and third failed
/// attempt: 100, 200 and 400 milliseconds.
pub proof fn law_backoff_delays()
    ensures
        backoff_delay(1) == 100,
        backoff_delay(2) == 200,
        backoff_delay(3) == 400,
{
    assert(pow2(0) == 1) by {
        vstd::arithmetic::power2::lemma2_to64();
    }
    lemma_backoff_doubles(1);
    lemma_backoff_doubles(2);
}

/// The delay after the `failures`-th failed attempt, in milliseconds.
pub fn backoff_delay_ms(failures: u32) -> (millis: u64)
    ensures
        millis == capped(backoff_delay(failures as nat)),
{
    if failures == 0 {
        return 0;
    }
    let mut millis: u64 = BASE_DELAY_MS;
    let mut k: u32 = 1;
    proof {
        law_backoff_delays();
    }
    while k < failures && millis < u64::MAX
        invariant
            1 <= k <= failures,
            millis == capped(backoff_delay(k as nat)),
        decreases failures - k,
    {
        proof {
            lemma_backoff_doubles(k as nat);
        }
        if millis > u64::MAX / 2 {
            millis = u64::MAX;
        } else {
            millis = millis * 2;
        }
        k = k + 1;
    }
    proof {
        lemma_backoff_grows(k as nat, failures as nat);
    }
    millis
}

/// The failed attempts of one flush, and the last error seen.
pub struct Retry {
    failures: u32,
    last_error: Option<WriteError>,
}

/// What a [`Retry`] holds.
pub struct RetryView {
    pub failures: nat,
    pub last_error: Option<WriteError>,
}

/// What the policy decides.
#[derive(Debug, PartialEq, Eq)]
pub enum RetryStep {
    /// The attempt succeeded: the flush is done.
    Delivered,
    /// The attempt failed: let this many milliseconds pass.
    Backoff { millis: u64 },
    /// Make the next attempt.
    Attempt,
    /// The attempts are used up: the flush failed with this error.
    Exhausted { error: WriteError },
}

impl RetryView {
    /// No attempt has failed.
    pub open spec fn fresh() -> RetryView {
        RetryView { failures: 0, last_error: None }
    }

    /// After an attempt: success ends the flush; a failure is counted, its
    /// error kept, and the delay for that count follows.
    pub open spec fn on_outcome(self, outcome: AttemptOutcome) -> (RetryView, RetryStep) {
        match outcome_result(outcome) {
            Ok(()) => (RetryView::fresh(), RetryStep::Delivered),
            Err(error) => {
                let failures = if self.failures < MAX_ATTEMPTS {
                    self.failures + 1
                } else {
                    self.failures
                };
                (
                    RetryView { failures, last_error: Some(error) },
                    RetryStep::Backoff { millis: capped(backoff_delay(failures)) },
                )
            },
        }
    }

    /// After a delay: another attempt while fewer than [`MAX_ATTEMPTS`] have
    /// failed; otherwise the flush fails with the last error seen.
    pub open spec fn after_backoff(self) -> (RetryView, RetryStep) {
        if self.failures < MAX_ATTEMPTS {
            (self, RetryStep::Attempt)
        } else {
            (
                RetryView::fresh(),
                RetryStep::Exhausted {
                    error: match self.last_error {
                        Some(error) => error,
                        None => WriteError::Unknown,
                    },
                },
            )
        }
    }
}

impl View for Retry {
    type V = RetryView;

    closed spec fn view(&self) -> RetryView {
        RetryView { failures: self.failures as nat, last_error: self.last_error }
    }
}

impl Retry {
    /// The policy at the start of a flush.
    pub fn new() -> (retry: Retry)
        ensures
            retry@ == RetryView::fresh(),
    {
        Retry { failures: 0, last_error: None }
    }

    /// The number of attempts that have failed.
    pub fn failures(&self) -> (n: u32)
        ensures
            n == self@.failures,
    {
        self.failures
    }

    /// Takes in the outcome of an attempt.
    pub fn on_outcome(&mut self, outcome: AttemptOutcome) -> (step: RetryStep)
        ensures
            (final(self)@, step) == old(self)@.on_outcome(outcome),
    {
        match classify(outcome) {
            Ok(()) => {
                self.failures = 0;
                self.last_error = None;
                RetryStep::Delivered
            },
            Err(error) => {
                if self.failures < MAX_ATTEMPTS {
                    self.failures = self.failures + 1;
                }
                self.last_error = Some(error);
                RetryStep::Backoff { millis: backoff_delay_ms(self.failures) }
            },
        }
    }

    /// Decides what follows a delay.
    pub fn after_backoff(&mut self) -> (step: RetryStep)
        ensures
            (final(self)@, step) == old(self)@.after_backoff(),
    {
        if self.failures < MAX_ATTEMPTS {
            RetryStep::Attempt
        } else {
            self.failures = 0;
            let error = match self.last_error.take() {
                Some(error) => error,
                None => WriteError::Unknown,
            };
            RetryStep::Exhausted { error }
        }
    }
}

/// The policy in full: three attempts that fail are followed by delays of
/// 100, 200 and 400 milliseconds, a new attempt follows the first two
/// delays, and after the third the flush fails with the error of the third
/// attempt. An attempt that succeeds ends the flush at once, whatever failed
/// before.
pub proof fn law_three_attempts(
    first: AttemptOutcome,
    second: AttemptOutcome,
    third: AttemptOutcome,
    success: AttemptOutcome,
)
    requires
        outcome_result(first) is Err,
        outcome_result(second) is Err,
        outcome_result(third) is Err,
        outcome_result(success) is Ok,
    ensures
        ({
            let (r1, s1) = RetryView::fresh().on_outcome(first);
            let (r2, s2) = r1.after_backoff();
            let (r3, s3) = r2.on_outcome(second);
            let (r4, s4) = r3.after_backoff();
            let (r5, s5) = r4.on_outcome(third);
            let (r6, s6) = r5.after_backoff();
            &&& s1 == RetryStep::Backoff { millis: 100 }
            &&& s2 == RetryStep::Attempt
            &&& s3 == RetryStep::Backoff { millis: 200 }
            &&& s4 == RetryStep::Attempt
            &&& s5 == RetryStep::Backoff { millis: 400 }
            &&& s6 == RetryStep::Exhausted { error: outcome_result(third)->Err_0 }
            &&& r6 == RetryView::fresh()
            &&& RetryView::fresh().on_outcome(success) == (RetryView::fresh(), RetryStep::Delivered)
            &&& r2.on_outcome(success) == (RetryView::fresh(), RetryStep::Delivered)
            &&& r4.on_outcome(success) == (RetryView::fresh(), RetryStep::Delivered)
        }),
{
    law_backoff_delays();
}

/// One write, ready to be performed: an HTTP POST of `body` to `url` with
/// the two headers.
#[derive(Clone, Debug, PartialEq, Eq)]
pub struct WriteRequest {
    pub url: String,
    /// The value of the `Authorization` header.
    pub authorization: String,
    /// The value of the `Content-Type` header.
    pub content_type: String,
    pub body: String,
}

/// What a [`WriteRequest`] holds.
pub struct RequestView {
    pub url: Seq<char>,
    pub authorization: Seq<char>,
    pub content_type: Seq<char>,
    pub body: Seq<char>,
}

impl View for WriteRequest {
    type V = RequestView;

    open spec fn view(&self) -> RequestView {
        RequestView {
            url: self.url@,
            authorization: self.authorization@,
            content_type: self.content_type@,
            body: self.body@,
        }
    }
}

/// The value of the `Authorization` header that presents `token` as a
/// bearer token.
pub open spec fn bearer_text(token: Seq<char>) -> Seq<char> {
    "Bearer "@ + token
}

/// The request that writes `body` to the endpoint at `url` under `token`:
/// a bearer token and a plain-text body.
pub open spec fn request_for(url: Seq<char>, token: Seq<char>, body: Seq<char>) -> RequestView {
    RequestView { url, authorization: bearer_text(token), content_type: "text/plain"@, body }
}

/// The value of the `Authorization` header that presents `token`.
pub fn bearer(token: &str) -> (value: String)
    ensures
        value@ == bearer_text(token@),
{
    let mut value = String::from_str("Bearer ");
    value.append(token);
    value
}

/// The URL of the write endpoint of the server at `base` for `database`,
/// with timestamps in seconds.
pub open spec fn write_url_text(base: Seq<char>, database: Seq<char>) -> Seq<char> {
    base + "/api/v3/write_lp?db="@ + database + "&precision=second"@
}

/// The URL of the write endpoint of the server at `base` for `database`.
pub fn write_url(base: &str, database: &str) -> (url: String)
    ensures
        url@ == write_url_text(base@, database@),
{
    let mut url = String::from_str(base);
    url.append("/api/v3/write_lp?db=");
    url.append(database);
    url.append("&precision=second");
    url
}

/// The write endpoint and the token that it wants.
#[derive(Clone, Debug)]
pub struct InfluxDBStorage {
    url: String,
    token: String,
}

/// What an [`InfluxDBStorage`] holds.
pub struct StorageView {
    pub url: Seq<char>,
    pub token: Seq<char>,
}

impl View for InfluxDBStorage {
    type V = StorageView;

    closed spec fn view(&self) -> StorageView {
        StorageView { url: self.url@, token: self.token@ }
    }
}

impl InfluxDBStorage {
    /// A client of the endpoint at `url`. Never fails.
    pub fn new(url: String, token: String) -> (storage: Result<InfluxDBStorage, WriteError>)
        ensures
            storage is Ok,
            storage->Ok_0@ == (StorageView { url: url@, token: token@ }),
    {
        Ok(InfluxDBStorage { url, token })
    }

    /// A client of no endpoint: empty URL, empty token.
    pub(crate) fn blank() -> (storage: InfluxDBStorage)
        ensures
            storage@ == (StorageView { url: Seq::empty(), token: Seq::empty() }),
    {
        InfluxDBStorage { url: String::new(), token: String::new() }
    }

    /// The endpoint's URL.
    pub fn url(&self) -> (url: &str)
        ensures
            url@ == self@.url,
    {
        self.url.as_str()
    }

    /// The request that writes `body`.
    pub fn request(&self, body: String) -> (request: WriteRequest)
        ensures
            request@ == request_for(self@.url, self@.token, body@),
    {
        WriteRequest {
            url: self.url.clone(),
            authorization: bearer(self.token.as_str()),
            content_type: String::from_str("text/plain"),
            body,
        }
    }

    /// Prepares the write of `prices`: one line each, in order, joined by
    /// newlines. There is nothing to send for no prices.
    pub fn write_prices(&self, prices: &[StockPrice]) -> (request: Option<WriteRequest>)
        ensures
            prices@.len() == 0 ==> request is None,
            prices@.len() > 0 ==> request is Some && request->Some_0@ == request_for(
                self@.url,
                self@.token,
                join_lines(batch_lines(prices@)),
            ),
    {
        if prices.len() == 0 {
            return None;
        }
        let mut buffer = BatchBuffer::new();
        buffer.extend(encode_batch(prices));
        Some(self.request(buffer.drain()))
    }
}

} // verus!
