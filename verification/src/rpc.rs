use vstd::prelude::*;
use vstd::string::{StrSliceExecFns, StringExecFns};

use backon::BackoffBuilder;

use crate::json::{
    entries_model, items_model, json_of_text, json_text, member, number_of_i64, parse_json, text,
    text_of_json, Json, JsonModel, JsonNumber, NumberModel,
};
use crate::mcp_error::{ErrorData, ErrorDataModel, internal_error_code, invalid_params_code};

verus! {

// ---------------------------------------------------------------------------
// Outside types and calls
// ---------------------------------------------------------------------------

/// `anyhow::Error`, carried through as an opaque value.
#[verifier::external_type_specification]
#[verifier::external_body]
pub struct ExAnyhowError(anyhow::Error);

/// `backon::ExponentialBackoff`, the iterator of delays between retries.
#[verifier::external_type_specification]
#[verifier::external_body]
pub struct ExExponentialBackoff(backon::ExponentialBackoff);

/// How many more attempts an exponential backoff counts before it reports
/// that no retry is left: its maximum number of retries (unbounded, that is
/// `usize::MAX`, when none is set) less the attempts it has counted.
pub uninterp spec fn backoff_delays_left(b: backon::ExponentialBackoff) -> nat;

/// How many attempts an exponential backoff has counted.
pub uninterp spec fn backoff_attempts(b: backon::ExponentialBackoff) -> nat;

/// Whether an exponential backoff has backon's default schedule with jitter:
/// a first delay of 1 s, doubled after each attempt and capped at 60 s, no
/// limit on the total delay, and a random extra of less than the delay
/// itself added to each delay.
pub uninterp spec fn backoff_is_default_jittered(b: backon::ExponentialBackoff) -> bool;

/// The delay, in seconds and before jitter, of the `k`-th attempt of
/// backon's default schedule: 1 s, doubled for each further attempt while
/// under 60 s, and capped at 60 s.
pub open spec fn base_delay_secs(k: nat) -> nat
    decreases k,
{
    if k <= 1 {
        1
    } else {
        let prev = base_delay_secs((k - 1) as nat);
        if prev < 60 && 2 * prev <= 60 {
            2 * prev
        } else {
            60
        }
    }
}

/// The retries of one call wait at least 1 s, 2 s and 4 s before jitter.
pub proof fn lemma_base_delays_of_a_call()
    ensures
        base_delay_secs(1) == 1,
        base_delay_secs(2) == 2,
        base_delay_secs(3) == 4,
{
    reveal_with_fuel(base_delay_secs, 3);
}

/// Whether `nanos` nanoseconds is a jittered delay of the `k`-th attempt:
/// at least its base delay and less than twice that.
pub open spec fn is_jittered_delay(k: nat, nanos: u64) -> bool {
    base_delay_secs(k) * 1_000_000_000 <= nanos < 2 * base_delay_secs(k) * 1_000_000_000
}

/// A character with Unicode's `White_Space` property (PropList.txt), the
/// white space of `char::is_whitespace` and `str::trim`.
pub open spec fn is_white_space(c: char) -> bool {
    ||| '\u{9}' <= c <= '\u{d}'
    ||| c == ' '
    ||| c == '\u{85}'
    ||| c == '\u{a0}'
    ||| c == '\u{1680}'
    ||| '\u{2000}' <= c <= '\u{200a}'
    ||| c == '\u{2028}'
    ||| c == '\u{2029}'
    ||| c == '\u{202f}'
    ||| c == '\u{205f}'
    ||| c == '\u{3000}'
}

/// The text without its leading white space.
pub open spec fn trim_start_spec(s: Seq<char>) -> Seq<char>
    decreases s.len(),
{
    if s.len() > 0 && is_white_space(s[0]) {
        trim_start_spec(s.drop_first())
    } else {
        s
    }
}

/// The text without its trailing white space.
pub open spec fn trim_end_spec(s: Seq<char>) -> Seq<char>
    decreases s.len(),
{
    if s.len() > 0 && is_white_space(s.last()) {
        trim_end_spec(s.drop_last())
    } else {
        s
    }
}

/// The text without leading and trailing white space.
pub open spec fn trimmed(s: Seq<char>) -> Seq<char> {
    trim_end_spec(trim_start_spec(s))
}

/// The text that `reqwest::StatusCode` displays for a status code: the code,
/// a space, and its canonical reason phrase, or `<unknown status code>` for
/// a code without one.
pub uninterp spec fn status_text(status: u16) -> Seq<char>;

/// The decimal digit `d`.
pub open spec fn digit_char(d: int) -> char {
    (('0' as u32) + d) as char
}

/// `str::trim`: its documentation says that it removes leading and trailing
/// white space, "defined according to the terms of the Unicode Derived Core
/// Property `White_Space`".
#[verifier::external_body]
fn trim_str(s: &str) -> (r: &str)
    ensures
        r@ == trimmed(s@),
{
    s.trim()
}

/// `reqwest::StatusCode::from_u16` followed by its `Display`. `from_u16`
/// accepts every code from 100 to 999, so the call cannot fail here. Claims
/// that the text depends on the code alone and, as `Display` writes
/// `"{code} {reason}"`, that it starts with the three digits of the code and
/// a space. The reason phrase is not stated.
#[verifier::external_body]
fn status_display(status: u16) -> (r: String)
    requires
        100 <= status <= 999,
    ensures
        r@ == status_text(status),
        r@.len() >= 4,
        r@[0] == digit_char(status as int / 100),
        r@[1] == digit_char((status as int / 10) % 10),
        r@[2] == digit_char(status as int % 10),
        r@[3] == ' ',
{
    match reqwest::StatusCode::from_u16(status) {
        Ok(code) => code.to_string(),
        Err(_) => String::new(),
    }
}

/// Whether every text that `to_string` gives for the error is `text`.
pub open spec fn displays_as(e: anyhow::Error, text: Seq<char>) -> bool {
    forall|s: String|
        #[trigger] vstd::string::to_string_from_display_ensures::<anyhow::Error>(&e, s) ==> s@
            == text
}

/// `anyhow::Error::msg`: claims that the error displays as `message`. In
/// anyhow's source the message is wrapped so that `Display` writes it as it
/// is (only the alternate form `{:#}` adds causes, and such an error has
/// none). Nothing else of the error is stated.
#[verifier::external_body]
fn anyhow_message(message: String) -> (e: anyhow::Error)
    ensures
        displays_as(e, message@),
{
    anyhow::Error::msg(message)
}

/// `backon::ExponentialBuilder::default()`, given at most `max_times`
/// retries and jitter, then built. In backon's source the default builder
/// starts at 1 s with factor 2, caps each delay at 60 s and sets no total
/// limit; the built backoff has counted no attempt yet.
#[verifier::external_body]
fn jittered_exponential_backoff(max_times: usize) -> (b: backon::ExponentialBackoff)
    ensures
        backoff_delays_left(b) == max_times,
        backoff_attempts(b) == 0,
        backoff_is_default_jittered(b),
{
    backon::ExponentialBuilder::default().with_max_times(max_times).with_jitter().build()
}

/// `Iterator::next` on a `backon::ExponentialBackoff` with the default
/// jittered schedule, the delay given in nanoseconds. In backon's source it
/// returns `None`, and counts nothing, once as many attempts as allowed were
/// counted. Otherwise it counts one more attempt and returns that attempt's
/// delay (1 s, doubled after each attempt, capped at 60 s) plus the delay
/// times a random `f32` in `[0, 1)` (fastrand), which in `f32` arithmetic
/// stays below the delay by more than a nanosecond. A backoff with a total
/// limit or without a cap could overflow `Duration` and panic; the
/// precondition leaves them out.
#[verifier::external_body]
fn backoff_next(b: &mut backon::ExponentialBackoff) -> (d: Option<u64>)
    requires
        backoff_is_default_jittered(*old(b)),
    ensures
        backoff_is_default_jittered(*final(b)),
        backoff_delays_left(*old(b)) == 0 ==> d is None && backoff_delays_left(*final(b)) == 0
            && backoff_attempts(*final(b)) == backoff_attempts(*old(b)),
        backoff_delays_left(*old(b)) > 0 ==> backoff_delays_left(*final(b))
            == backoff_delays_left(*old(b)) - 1 && backoff_attempts(*final(b))
            == backoff_attempts(*old(b)) + 1,
        backoff_delays_left(*old(b)) > 0 ==> (d matches Some(nanos) && is_jittered_delay(
            backoff_attempts(*old(b)) + 1,
            nanos,
        )),
{
    match b.next() {
        Some(delay) => Some(delay.as_nanos() as u64),
        None => None,
    }
}

/// The text without one leading `+`, if it has one.
pub open spec fn unsigned_digits(s: Seq<char>) -> Seq<char> {
    if s.len() > 0 && s[0] == '+' {
        s.drop_first()
    } else {
        s
    }
}

/// Whether `s` is an optional `+` followed by decimal digits only, and at
/// least one digit.
pub open spec fn is_decimal(s: Seq<char>) -> bool {
    let d = unsigned_digits(s);
    &&& d.len() > 0
    &&& forall|i: int| 0 <= i < d.len() ==> '0' <= #[trigger] d[i] <= '9'
}

/// The value of a string of decimal digits.
pub open spec fn digits_value(d: Seq<char>) -> nat
    decreases d.len(),
{
    if d.len() == 0 {
        0
    } else {
        digits_value(d.drop_last()) * 10 + (d.last() as nat - '0' as nat) as nat
    }
}

/// What `str::parse::<u64>` returns: the value of an optional `+` followed by
/// digits, where it fits in a `u64`.
pub open spec fn parse_u64_spec(s: Seq<char>) -> Option<u64> {
    let d = unsigned_digits(s);
    if is_decimal(s) && digits_value(d) <= u64::MAX {
        Some(digits_value(d) as u64)
    } else {
        None
    }
}

/// `str::parse::<u64>`. Its documentation: the text is an optional `+`
/// followed by digits only; any other character, an empty text, or a value
/// that does not fit is an error.
#[verifier::external_body]
fn parse_u64(s: &str) -> (r: Option<u64>)
    ensures
        r == parse_u64_spec(s@),
{
    s.parse::<u64>().ok()
}

// ---------------------------------------------------------------------------
// Errors of an RPC attempt, and what a client is told of them
// ---------------------------------------------------------------------------

/// What went wrong in an RPC attempt, as far as a client may learn it.
#[derive(Clone, Copy, Debug, PartialEq, Eq)]
pub enum ErrorKind {
    /// The node could not be reached or did not return a usable response.
    Unavailable,
    /// bitcoind answered with a JSON-RPC error; only its numeric code is kept
    /// for the client.
    Rpc { code: Option<i64> },
}

/// An error from a single RPC attempt, tagged with whether it is worth
/// retrying.
///
/// The full `source` is only ever logged server-side. Clients receive a fixed
/// message chosen from `kind`, so nothing bitcoind (or a proxy in front of
/// it) puts in a response body, and no node URL or configuration detail, is
/// relayed verbatim.
pub struct RpcCallError {
    retryable: bool,
    kind: ErrorKind,
    source: anyhow::Error,
}

/// What the contracts say of an [`RpcCallError`].
pub struct RpcCallErrorView {
    pub retryable: bool,
    pub kind: ErrorKind,
}

impl View for RpcCallError {
    type V = RpcCallErrorView;

    closed spec fn view(&self) -> RpcCallErrorView {
        RpcCallErrorView { retryable: self.retryable, kind: self.kind }
    }
}

/// The numeric `code` of a JSON-RPC error object, where it is an integer
/// that fits an `i64`.
pub open spec fn error_code_of(err: JsonModel) -> Option<i64> {
    match err.get("code"@) {
        Some(c) => c.as_i64(),
        None => None,
    }
}

/// The message a client receives when the node is unavailable.
pub open spec fn unavailable_message() -> Seq<char> {
    "failed to query the Bitcoin node (see server logs)"@
}

/// The `data` that accompanies an RPC error: the RPC code, when there is one.
pub open spec fn rpc_code_data(code: Option<i64>) -> Option<JsonModel> {
    match code {
        Some(c) => Some(
            JsonModel::Object(seq![("rpc_code"@, JsonModel::Number(number_of_i64(c)))]),
        ),
        None => None,
    }
}

/// The fixed, client-safe error for a Bitcoin Core RPC error code (see
/// `src/rpc/protocol.h` in Bitcoin Core).
pub open spec fn rpc_error_model(code: Option<i64>) -> ErrorDataModel {
    let data = rpc_code_data(code);
    let invalid = |m: Seq<char>| ErrorDataModel { code: invalid_params_code(), message: m, data };
    let internal = |m: Seq<char>| ErrorDataModel { code: internal_error_code(), message: m, data };
    if code == Some(-5i64) {
        // RPC_INVALID_ADDRESS_OR_KEY
        invalid("block or transaction not found"@)
    } else if code == Some(-8i64) {
        // RPC_INVALID_PARAMETER
        invalid("invalid parameter"@)
    } else if code == Some(-3i64) || code == Some(-22i64) || code == Some(-32602i64) {
        // RPC_TYPE_ERROR, RPC_DESERIALIZATION_ERROR, RPC_INVALID_PARAMS
        invalid("malformed parameter"@)
    } else if code == Some(-28i64) {
        // RPC_IN_WARMUP
        internal("Bitcoin node is starting up; try again later"@)
    } else if code == Some(-9i64) || code == Some(-10i64) {
        // RPC_CLIENT_NOT_CONNECTED, RPC_CLIENT_IN_INITIAL_DOWNLOAD
        internal("Bitcoin node is not ready"@)
    } else if code == Some(-32601i64) {
        // RPC_METHOD_NOT_FOUND
        internal("method not available on the Bitcoin node"@)
    } else {
        internal("the Bitcoin node rejected the request"@)
    }
}

/// The error a client receives for an error of the given kind.
pub open spec fn kind_error_model(kind: ErrorKind) -> ErrorDataModel {
    match kind {
        ErrorKind::Unavailable => ErrorDataModel {
            code: internal_error_code(),
            message: unavailable_message(),
            data: None,
        },
        ErrorKind::Rpc { code } => rpc_error_model(code),
    }
}

/// Map a Bitcoin Core RPC error code to a fixed, client-safe MCP error.
pub fn rpc_error_data(code: Option<i64>) -> (e: ErrorData)
    ensures
        e.model() == rpc_error_model(code),
{
    let data = match code {
        Some(c) => {
            let entries = vec![(text("rpc_code"), Json::Number(JsonNumber::from_i64(c)))];
            assert(entries_model(entries@) =~= seq![
                ("rpc_code"@, JsonModel::Number(number_of_i64(c))),
            ]);
            Some(Json::Object(entries))
        },
        None => None,
    };
    if code == Some(-5i64) {
        ErrorData::invalid_params(text("block or transaction not found"), data)
    } else if code == Some(-8i64) {
        ErrorData::invalid_params(text("invalid parameter"), data)
    } else if code == Some(-3i64) || code == Some(-22i64) || code == Some(-32602i64) {
        ErrorData::invalid_params(text("malformed parameter"), data)
    } else if code == Some(-28i64) {
        ErrorData::internal_error(text("Bitcoin node is starting up; try again later"), data)
    } else if code == Some(-9i64) || code == Some(-10i64) {
        ErrorData::internal_error(text("Bitcoin node is not ready"), data)
    } else if code == Some(-32601i64) {
        ErrorData::internal_error(text("method not available on the Bitcoin node"), data)
    } else {
        ErrorData::internal_error(text("the Bitcoin node rejected the request"), data)
    }
}

impl RpcCallError {
    /// The `source` that the error carries, for the server's logs.
    pub closed spec fn source_spec(&self) -> anyhow::Error {
        self.source
    }

    /// A transport-level error derived from `reqwest`. May contain the node
    /// URL.
    pub fn transport(retryable: bool, source: anyhow::Error) -> (e: Self)
        ensures
            e@.retryable == retryable,
            e@.kind == ErrorKind::Unavailable,
            e.source_spec() == source,
    {
        Self::unavailable(retryable, source)
    }

    /// The node was unreachable or returned an unusable response.
    pub fn unavailable(retryable: bool, source: anyhow::Error) -> (e: Self)
        ensures
            e@.retryable == retryable,
            e@.kind == ErrorKind::Unavailable,
            e.source_spec() == source,
    {
        Self { retryable, kind: ErrorKind::Unavailable, source }
    }

    /// An application-level JSON-RPC error object returned by bitcoind: only
    /// its numeric `code` is kept for the client, and it is never retried.
    /// `source` describes the whole error object for the server's logs.
    pub fn rpc(err: &Json, source: anyhow::Error) -> (e: Self)
        ensures
            e@.retryable == false,
            e@.kind == (ErrorKind::Rpc { code: error_code_of(err.model()) }),
            e.source_spec() == source,
    {
        let code = match err.get("code") {
            Some(c) => c.as_i64(),
            None => None,
        };
        Self { retryable: false, kind: ErrorKind::Rpc { code }, source }
    }

    /// A failure to send the request: connection and timeout failures are
    /// typically transient, so only they are worth retrying.
    pub fn send_failure(is_timeout: bool, is_connect: bool, source: anyhow::Error) -> (e: Self)
        ensures
            e@.retryable == (is_timeout || is_connect),
            e@.kind == ErrorKind::Unavailable,
            e.source_spec() == source,
    {
        Self::transport(is_timeout || is_connect, source)
    }

    /// A failure to read the reply body once the status came: a transport
    /// failure, worth retrying.
    pub fn body_read_failure(source: anyhow::Error) -> (e: Self)
        ensures
            e@.retryable,
            e@.kind == ErrorKind::Unavailable,
            e.source_spec() == source,
    {
        Self::transport(true, source)
    }

    pub fn is_retryable(&self) -> (r: bool)
        ensures
            r == self@.retryable,
    {
        self.retryable
    }

    pub fn kind(&self) -> (k: ErrorKind)
        ensures
            k == self@.kind,
    {
        self.kind
    }

    /// The detailed error, for the server's logs only.
    pub fn source(&self) -> (s: &anyhow::Error)
        ensures
            *s == self.source_spec(),
    {
        &self.source
    }

    /// Convert into a client-facing MCP error. The client only sees a
    /// generic message (plus the RPC error code, when there is one); the
    /// detailed error stays with the server.
    pub fn into_error_data(self) -> (e: ErrorData)
        ensures
            e.model() == kind_error_model(self@.kind),
    {
        match self.kind {
            ErrorKind::Unavailable => ErrorData::internal_error(
                text("failed to query the Bitcoin node (see server logs)"),
                None,
            ),
            ErrorKind::Rpc { code } => rpc_error_data(code),
        }
    }
}

/// What a client is told of a failed RPC attempt depends on the kind of the
/// failure alone: two errors of the same kind give the same error, whatever
/// their sources say. The message is always one of a fixed set, and the only
/// data is the RPC error code.
pub proof fn lemma_client_error_depends_only_on_kind(e1: RpcCallError, e2: RpcCallError)
    requires
        e1@.kind == e2@.kind,
    ensures
        kind_error_model(e1@.kind) == kind_error_model(e2@.kind),
        kind_error_model(e1@.kind).data == match e1@.kind {
            ErrorKind::Unavailable => None,
            ErrorKind::Rpc { code } => rpc_code_data(code),
        },
        kind_error_model(e1@.kind).message == unavailable_message()
            || kind_error_model(e1@.kind).message == "block or transaction not found"@
            || kind_error_model(e1@.kind).message == "invalid parameter"@
            || kind_error_model(e1@.kind).message == "malformed parameter"@
            || kind_error_model(e1@.kind).message == "Bitcoin node is starting up; try again later"@
            || kind_error_model(e1@.kind).message == "Bitcoin node is not ready"@
            || kind_error_model(e1@.kind).message == "method not available on the Bitcoin node"@
            || kind_error_model(e1@.kind).message == "the Bitcoin node rejected the request"@,
{
}

// ---------------------------------------------------------------------------
// bitcoind's replies
// ---------------------------------------------------------------------------

/// A 2xx status.
pub open spec fn is_success_status(status: u16) -> bool {
    200 <= status < 300
}

/// Server errors (5xx) and rate limiting (429) are transient; the other
/// failures are not.
pub open spec fn is_transient_status(status: u16) -> bool {
    (500 <= status < 600) || status == 429
}

/// The hint added to the log message of an HTTP failure.
pub open spec fn status_hint_spec(status: u16) -> Seq<char> {
    if status == 401 {
        " (check BITCOIN_RPC_USER / BITCOIN_RPC_PASSWORD)"@
    } else if status == 403 {
        " (client not allowed; check bitcoind rpcallowip / rpcbind)"@
    } else {
        ""@
    }
}

/// The most of a reply body that is logged: its first 200 characters once
/// white space is trimmed from both ends.
pub open spec fn snippet_spec(body: Seq<char>) -> Seq<char> {
    let t = trimmed(body);
    if t.len() <= 200 {
        t
    } else {
        t.take(200)
    }
}

pub fn is_success_status_exec(status: u16) -> (r: bool)
    ensures
        r == is_success_status(status),
{
    200 <= status && status < 300
}

pub fn is_transient_status_exec(status: u16) -> (r: bool)
    ensures
        r == is_transient_status(status),
{
    (500 <= status && status < 600) || status == 429
}

/// The hint that the log message of an HTTP failure carries: where to look
/// when bitcoind refuses the credentials (401) or the client (403).
pub fn status_hint(status: u16) -> (h: &'static str)
    ensures
        h@ == status_hint_spec(status),
{
    if status == 401 {
        " (check BITCOIN_RPC_USER / BITCOIN_RPC_PASSWORD)"
    } else if status == 403 {
        " (client not allowed; check bitcoind rpcallowip / rpcbind)"
    } else {
        ""
    }
}

/// The start of a reply body, for the server's logs.
pub fn body_snippet(body: &str) -> (r: String)
    ensures
        r@ == snippet_spec(body@),
{
    let t = trim_str(body);
    let n = t.unicode_len();
    if n <= 200 {
        assert(t@.subrange(0, n as int) =~= t@);
        text(t.substring_char(0, n))
    } else {
        text(t.substring_char(0, 200))
    }
}

/// The log message of an HTTP failure: the status, the hint for it, and the
/// start of the body.
pub open spec fn http_failure_message_spec(status: u16, body: Seq<char>) -> Seq<char> {
    "bitcoind HTTP "@ + status_text(status) + status_hint_spec(status) + ": "@ + snippet_spec(body)
}

/// The log message of a reply whose body is not JSON.
pub open spec fn non_json_message_spec(body: Seq<char>) -> Seq<char> {
    "bitcoind returned a non-JSON response: "@ + snippet_spec(body)
}

/// The message logged for an HTTP failure.
pub fn http_failure_message(status: u16, body: &str) -> (m: String)
    requires
        100 <= status <= 999,
    ensures
        m@ == http_failure_message_spec(status, body@),
{
    let mut message = text("bitcoind HTTP ");
    let shown = status_display(status);
    message.append(shown.as_str());
    message.append(status_hint(status));
    message.append(": ");
    let snippet = body_snippet(body);
    message.append(snippet.as_str());
    message
}

/// The message logged for a reply whose body is not JSON.
pub fn non_json_message(body: &str) -> (m: String)
    ensures
        m@ == non_json_message_spec(body@),
{
    let mut message = text("bitcoind returned a non-JSON response: ");
    let snippet = body_snippet(body);
    message.append(snippet.as_str());
    message
}

/// The outcome of the HTTP exchange itself. bitcoind answers transport-level
/// failures with a non-2xx status and a body that is often plain text or
/// HTML, so such a reply is never parsed: it is an `Unavailable` error,
/// retryable exactly when the status is transient, whose source (for the
/// logs) displays as [`http_failure_message`]. A 2xx status gives `None`.
pub fn http_failure(status: u16, body: &str) -> (r: Option<RpcCallError>)
    requires
        100 <= status <= 999,
    ensures
        r is None <==> is_success_status(status),
        r matches Some(e) ==> e@.kind == ErrorKind::Unavailable && e@.retryable
            == is_transient_status(status),
        r matches Some(e) ==> displays_as(e.source_spec(), http_failure_message_spec(status, body@)),
{
    if is_success_status_exec(status) {
        return None;
    }
    let message = http_failure_message(status, body);
    Some(RpcCallError::unavailable(is_transient_status_exec(status), anyhow_message(message)))
}

/// A 2xx reply whose body is not JSON: the node returned nothing usable, and
/// asking again will not help. Its source (for the logs) displays as
/// [`non_json_message`].
pub fn non_json_reply(body: &str) -> (e: RpcCallError)
    ensures
        e@.kind == ErrorKind::Unavailable,
        !e@.retryable,
        displays_as(e.source_spec(), non_json_message_spec(body@)),
{
    RpcCallError::unavailable(false, anyhow_message(non_json_message(body)))
}

/// What a JSON-RPC reply object carries: its `error` member when that is
/// present and not `null`, otherwise its `result` member (`null` when
/// missing).
pub open spec fn reply_outcome_spec(reply: JsonModel) -> Result<JsonModel, JsonModel> {
    match reply.get("error"@) {
        Some(err) => if !err.is_null() {
            Err(err)
        } else {
            match reply.get("result"@) {
                Some(v) => Ok(v),
                None => Ok(JsonModel::Null),
            }
        },
        None => match reply.get("result"@) {
            Some(v) => Ok(v),
            None => Ok(JsonModel::Null),
        },
    }
}

/// Split a JSON-RPC reply into its result or its error object.
pub fn reply_outcome(reply: &Json) -> (r: Result<Json, Json>)
    ensures
        match (r, reply_outcome_spec(reply.model())) {
            (Ok(v), Ok(m)) => v.model() == m,
            (Err(v), Err(m)) => v.model() == m,
            _ => false,
        },
{
    match reply.get("error") {
        Some(err) => {
            if !err.is_null() {
                return Err(err.copy());
            }
        },
        None => {},
    }
    match reply.get("result") {
        Some(v) => Ok(v.copy()),
        None => Ok(Json::Null),
    }
}

/// The log message of a JSON-RPC error object.
pub open spec fn rpc_error_message_spec(err: JsonModel) -> Seq<char> {
    "bitcoind RPC error: "@ + text_of_json(err)
}

/// What bitcoind's reply means, from its status and body text. A non-2xx
/// status is an `Unavailable` error whatever the body holds (it is never
/// read as JSON), retryable exactly for a transient status. A 2xx body that
/// is not JSON is an `Unavailable` error that is not retried. Otherwise the
/// reply object gives its result, or its error object, which becomes an
/// RPC error keeping only the numeric code for the client. Each error's
/// source displays as its log message.
pub fn reply_of_exchange(status: u16, body: &str) -> (r: Result<Json, RpcCallError>)
    requires
        100 <= status <= 999,
    ensures
        !is_success_status(status) ==> (r matches Err(e) && e@.kind == ErrorKind::Unavailable
            && e@.retryable == is_transient_status(status) && displays_as(
            e.source_spec(),
            http_failure_message_spec(status, body@),
        )),
        is_success_status(status) && json_of_text(body@) is None ==> (r matches Err(e) && e@.kind
            == ErrorKind::Unavailable && !e@.retryable && displays_as(
            e.source_spec(),
            non_json_message_spec(body@),
        )),
        is_success_status(status) && json_of_text(body@) is Some ==> match reply_outcome_spec(
            json_of_text(body@).unwrap(),
        ) {
            Ok(v) => r matches Ok(j) && j.model() == v,
            Err(err) => r matches Err(e) && !e@.retryable && e@.kind == (ErrorKind::Rpc {
                code: error_code_of(err),
            }) && displays_as(e.source_spec(), rpc_error_message_spec(err)),
        },
{
    match http_failure(status, body) {
        Some(e) => return Err(e),
        None => {},
    }
    let reply = match parse_json(body) {
        Some(reply) => reply,
        None => return Err(non_json_reply(body)),
    };
    match reply_outcome(&reply) {
        Ok(result) => Ok(result),
        Err(err) => {
            let message = text("bitcoind RPC error: ").concat(json_text(&err).as_str());
            Err(RpcCallError::rpc(&err, anyhow_message(message)))
        },
    }
}

/// The JSON-RPC request object that carries a call of `method`.
pub open spec fn request_body_spec(method: Seq<char>, params: Seq<JsonModel>) -> JsonModel {
    JsonModel::Object(
        seq![
            ("jsonrpc"@, JsonModel::Str("2.0"@)),
            ("id"@, JsonModel::Str("contextbtc"@)),
            ("method"@, JsonModel::Str(method)),
            ("params"@, JsonModel::Array(params)),
        ],
    )
}

/// Build the JSON-RPC request object for a call of `method` with the
/// positional `params`.
pub fn request_body(method: &str, params: Vec<Json>) -> (r: Json)
    ensures
        r.model() == request_body_spec(method@, items_model(params@)),
{
    let entries = vec![
        (text("jsonrpc"), Json::String(text("2.0"))),
        (text("id"), Json::String(text("contextbtc"))),
        (text("method"), Json::String(text(method))),
        (text("params"), Json::Array(params)),
    ];
    assert(entries_model(entries@) =~= seq![
        ("jsonrpc"@, JsonModel::Str("2.0"@)),
        ("id"@, JsonModel::Str("contextbtc"@)),
        ("method"@, JsonModel::Str(method@)),
        ("params"@, JsonModel::Array(items_model(params@))),
    ]);
    Json::Object(entries)
}

// ---------------------------------------------------------------------------
// Retrying
// ---------------------------------------------------------------------------

/// How many times a call is retried at most.
pub const MAX_RETRIES: usize = 3;

/// The retry policy of one RPC call: exponential backoff with jitter, at
/// most [`MAX_RETRIES`] retries, and only for transient failures.
pub struct RetryPolicy {
    backoff: backon::ExponentialBackoff,
}

impl RetryPolicy {
    /// The policy's backoff has backon's default schedule with jitter (as
    /// [`RetryPolicy::new`] makes it).
    pub closed spec fn well_formed(&self) -> bool {
        backoff_is_default_jittered(self.backoff)
    }

    /// How many retries the policy has granted.
    pub closed spec fn retries_granted(&self) -> nat {
        backoff_attempts(self.backoff)
    }
}

impl View for RetryPolicy {
    /// The number of retries still allowed.
    type V = nat;

    closed spec fn view(&self) -> nat {
        backoff_delays_left(self.backoff)
    }
}

impl RetryPolicy {
    pub fn new() -> (p: RetryPolicy)
        ensures
            p@ == MAX_RETRIES,
            p.retries_granted() == 0,
            p.well_formed(),
    {
        RetryPolicy { backoff: jittered_exponential_backoff(MAX_RETRIES) }
    }

    /// Decide what to do after a failed attempt: `Some(nanos)` means wait
    /// for `nanos` nanoseconds and try again; `None` means give up and report
    /// `err`. A permanent failure is never retried and uses up no retry; a
    /// transient one is retried while retries are left, using one up. The
    /// `k`-th retry waits an exponential delay (1 s, 2 s, 4 s, ..., at most
    /// 60 s) plus a random jitter of less than that delay.
    pub fn next_delay(&mut self, err: &RpcCallError) -> (d: Option<u64>)
        requires
            old(self).well_formed(),
        ensures
            final(self).well_formed(),
            !err@.retryable ==> d is None && final(self)@ == old(self)@
                && final(self).retries_granted() == old(self).retries_granted(),
            err@.retryable && old(self)@ == 0 ==> d is None && final(self)@ == 0
                && final(self).retries_granted() == old(self).retries_granted(),
            err@.retryable && old(self)@ > 0 ==> final(self)@ == old(self)@ - 1
                && final(self).retries_granted() == old(self).retries_granted() + 1
                && (d matches Some(nanos) && is_jittered_delay(old(self).retries_granted() + 1, nanos)),
    {
        if !err.is_retryable() {
            return None;
        }
        backoff_next(&mut self.backoff)
    }
}

// ---------------------------------------------------------------------------
// Laws of the reply handling and the retry schedule
// ---------------------------------------------------------------------------

/// HTTP statuses: exactly 200..=299 is success; exactly 500..=599 and 429
/// are transient, so an HTTP failure is retried exactly for them; only 401
/// and 403 carry a hint in the log message.
pub proof fn lemma_http_status_classes(status: u16)
    ensures
        is_success_status(status) <==> 200 <= status && status <= 299,
        is_transient_status(status) <==> (500 <= status && status <= 599) || status == 429,
        status == 401 ==> status_hint_spec(status) == " (check BITCOIN_RPC_USER / BITCOIN_RPC_PASSWORD)"@,
        status == 403 ==> status_hint_spec(status)
            == " (client not allowed; check bitcoind rpcallowip / rpcbind)"@,
        status != 401 && status != 403 ==> status_hint_spec(status) == Seq::<char>::empty(),
{
    reveal_strlit("");
}

/// The request object has exactly four members: `jsonrpc` is `"2.0"`, `id`
/// is `"contextbtc"`, `method` is the method, and `params` is the array of
/// exactly the given parameters, in order.
pub proof fn lemma_request_body_members(method: Seq<char>, params: Seq<JsonModel>)
    ensures
        request_body_spec(method, params) is Object,
        request_body_spec(method, params)->Object_0.len() == 4,
        request_body_spec(method, params).get("jsonrpc"@) == Some(JsonModel::Str("2.0"@)),
        request_body_spec(method, params).get("id"@) == Some(JsonModel::Str("contextbtc"@)),
        request_body_spec(method, params).get("method"@) == Some(JsonModel::Str(method)),
        request_body_spec(method, params).get("params"@) == Some(JsonModel::Array(params)),
{
    reveal_strlit("jsonrpc");
    reveal_strlit("id");
    reveal_strlit("method");
    reveal_strlit("params");
    assert("id"@.len() != "jsonrpc"@.len());
    assert("method"@.len() != "jsonrpc"@.len());
    assert("method"@.len() != "id"@.len());
    assert("params"@.len() != "jsonrpc"@.len());
    assert("params"@.len() != "id"@.len());
    assert("params"@[0] != "method"@[0]);
    let es = request_body_spec(method, params)->Object_0;
    reveal_with_fuel(member, 5);
    assert(es.drop_first()[0] == es[1]);
    assert(es.drop_first().drop_first()[0] == es[2]);
    assert(es.drop_first().drop_first().drop_first()[0] == es[3]);
}

/// The client-facing error for every RPC error code: "invalid params" with a
/// fixed message for -5, -8, -3, -22 and -32602, "internal error" with a
/// fixed message for every other code, and the code itself as `rpc_code` in
/// the data; without a code, the generic rejection and no data. An
/// unavailable node gives the generic "failed to query" internal error.
pub proof fn lemma_rpc_error_table(code: Option<i64>)
    ensures
        ({
            let e = rpc_error_model(code);
            &&& code matches Some(c) ==> e.data == Some(
                JsonModel::Object(
                    seq![
                        (
                            "rpc_code"@,
                            JsonModel::Number(
                                if c < 0 {
                                    NumberModel::NegInt(c)
                                } else {
                                    NumberModel::PosInt(c as u64)
                                },
                            ),
                        ),
                    ],
                ),
            )
            &&& code is None ==> e.data is None
            &&& code == Some(-5i64) ==> e.code == -32602 && e.message == "block or transaction not found"@
            &&& code == Some(-8i64) ==> e.code == -32602 && e.message == "invalid parameter"@
            &&& (code == Some(-3i64) || code == Some(-22i64) || code == Some(-32602i64)) ==> e.code
                == -32602 && e.message == "malformed parameter"@
            &&& code == Some(-28i64) ==> e.code == -32603 && e.message
                == "Bitcoin node is starting up; try again later"@
            &&& (code == Some(-9i64) || code == Some(-10i64)) ==> e.code == -32603 && e.message
                == "Bitcoin node is not ready"@
            &&& code == Some(-32601i64) ==> e.code == -32603 && e.message
                == "method not available on the Bitcoin node"@
            &&& (code != Some(-5i64) && code != Some(-8i64) && code != Some(-3i64) && code != Some(
                -22i64,
            ) && code != Some(-32602i64) && code != Some(-28i64) && code != Some(-9i64) && code
                != Some(-10i64) && code != Some(-32601i64)) ==> e.code == -32603 && e.message
                == "the Bitcoin node rejected the request"@
        }),
        kind_error_model(ErrorKind::Unavailable) == (ErrorDataModel {
            code: -32603,
            message: "failed to query the Bitcoin node (see server logs)"@,
            data: None,
        }),
        kind_error_model(ErrorKind::Rpc { code }) == rpc_error_model(code),
{
}

/// A reply with an `error` member that is not `null` gives that error;
/// any other reply gives its `result` member, or `null` when it has none.
pub proof fn lemma_reply_outcome(reply: JsonModel)
    ensures
        (reply.get("error"@) matches Some(e) && !(e is Null)) ==> reply_outcome_spec(reply) == Err::<
            JsonModel,
            JsonModel,
        >(reply.get("error"@).unwrap()),
        !(reply.get("error"@) matches Some(e) && !(e is Null)) ==> reply_outcome_spec(reply) == Ok::<
            JsonModel,
            JsonModel,
        >(
            match reply.get("result"@) {
                Some(v) => v,
                None => JsonModel::Null,
            },
        ),
{
}

/// The RPC code kept for a client is the error object's `code` member when
/// it is an integer that fits an `i64`, and nothing otherwise.
pub proof fn lemma_error_code_of(err: JsonModel)
    ensures
        error_code_of(err) == match err.get("code"@) {
            Some(JsonModel::Number(NumberModel::NegInt(i))) => Some(i),
            Some(JsonModel::Number(NumberModel::PosInt(u))) => if u <= 0x7fff_ffff_ffff_ffffu64 {
                Some(u as i64)
            } else {
                None
            },
            _ => None,
        },
{
}

/// The delay before jitter of the `k`-th retry is `2^(k-1)` seconds up to
/// the sixth retry (32 s), and 60 s from the seventh on.
pub proof fn lemma_base_delay_schedule(k: nat)
    requires
        k >= 1,
    ensures
        base_delay_secs(k) == if k <= 6 {
            vstd::arithmetic::power2::pow2((k - 1) as nat)
        } else {
            60
        },
    decreases k,
{
    vstd::arithmetic::power2::lemma2_to64();
    if k > 1 {
        lemma_base_delay_schedule((k - 1) as nat);
    }
}

proof fn lemma_trim_start(s: Seq<char>) -> (i: int)
    ensures
        0 <= i <= s.len(),
        trim_start_spec(s) == s.subrange(i, s.len() as int),
        forall|k: int| 0 <= k < i ==> is_white_space(#[trigger] s[k]),
        i < s.len() ==> !is_white_space(s[i]),
    decreases s.len(),
{
    if s.len() > 0 && is_white_space(s[0]) {
        let rest = s.drop_first();
        let i0 = lemma_trim_start(rest);
        assert(rest.subrange(i0, rest.len() as int) =~= s.subrange(i0 + 1, s.len() as int));
        assert forall|k: int| 0 <= k < i0 + 1 implies is_white_space(#[trigger] s[k]) by {
            if k > 0 {
                assert(s[k] == rest[k - 1]);
            }
        }
        if i0 < rest.len() {
            assert(s[i0 + 1] == rest[i0]);
        }
        i0 + 1
    } else {
        assert(s.subrange(0, s.len() as int) =~= s);
        0
    }
}

proof fn lemma_trim_end(s: Seq<char>) -> (j: int)
    ensures
        0 <= j <= s.len(),
        trim_end_spec(s) == s.subrange(0, j),
        forall|k: int| j <= k < s.len() ==> is_white_space(#[trigger] s[k]),
        j > 0 ==> !is_white_space(s[j - 1]),
    decreases s.len(),
{
    if s.len() > 0 && is_white_space(s.last()) {
        let rest = s.drop_last();
        let j0 = lemma_trim_end(rest);
        assert(rest.subrange(0, j0) =~= s.subrange(0, j0));
        assert forall|k: int| j0 <= k < s.len() implies is_white_space(#[trigger] s[k]) by {
            if k < s.len() - 1 {
                assert(s[k] == rest[k]);
            }
        }
        if j0 > 0 {
            assert(s[j0 - 1] == rest[j0 - 1]);
        }
        j0
    } else {
        assert(s.subrange(0, s.len() as int) =~= s);
        s.len() as int
    }
}

/// Trimming keeps a contiguous part of the text, `s[i..j]`, and removes
/// only white space: everything before `i` and from `j` on is white space,
/// and the kept part neither starts nor ends with white space.
pub proof fn lemma_trimmed_strips_white_space(s: Seq<char>) -> (bounds: (int, int))
    ensures
        0 <= bounds.0 <= bounds.1 <= s.len(),
        trimmed(s) == s.subrange(bounds.0, bounds.1),
        forall|k: int| 0 <= k < bounds.0 ==> is_white_space(#[trigger] s[k]),
        forall|k: int| bounds.1 <= k < s.len() ==> is_white_space(#[trigger] s[k]),
        bounds.0 < bounds.1 ==> !is_white_space(s[bounds.0]) && !is_white_space(s[bounds.1 - 1]),
{
    let i = lemma_trim_start(s);
    let t = s.subrange(i, s.len() as int);
    let j = lemma_trim_end(t);
    assert(t.subrange(0, j) =~= s.subrange(i, i + j));
    assert forall|k: int| i + j <= k < s.len() implies is_white_space(#[trigger] s[k]) by {
        assert(s[k] == t[k - i]);
    }
    if i < i + j {
        assert(s[i + j - 1] == t[j - 1]);
        assert(s[i] == t[0]);
        if j < t.len() {
        }
        assert(!is_white_space(t[j - 1]));
        if !is_white_space(s[i]) {
        } else {
            assert(i < s.len() ==> !is_white_space(s[i]));
        }
    }
    (i, i + j)
}

/// The logged snippet of a body is the start of its trimmed text: all of it
/// up to 200 characters, and its first 200 characters otherwise.
pub proof fn lemma_snippet_is_trimmed_start(body: Seq<char>)
    ensures
        snippet_spec(body).len() == if trimmed(body).len() <= 200 {
            trimmed(body).len()
        } else {
            200
        },
        forall|i: int| 0 <= i < snippet_spec(body).len() ==> #[trigger] snippet_spec(body)[i] == trimmed(body)[i],
{
}

/// The log message of an HTTP failure starts with `bitcoind HTTP `, then
/// the status text, and ends with the snippet of the body; that of a
/// non-JSON reply starts with `bitcoind returned a non-JSON response: ` and
/// ends with the snippet.
pub proof fn lemma_log_messages(status: u16, body: Seq<char>)
    ensures
        ({
            let m = http_failure_message_spec(status, body);
            let snip = snippet_spec(body);
            &&& m.subrange(0, "bitcoind HTTP "@.len() as int) == "bitcoind HTTP "@
            &&& m.subrange("bitcoind HTTP "@.len() as int, ("bitcoind HTTP "@.len() + status_text(status).len()) as int) == status_text(status)
            &&& m.subrange(m.len() - snip.len(), m.len() as int) == snip
        }),
        ({
            let m = non_json_message_spec(body);
            let p = "bitcoind returned a non-JSON response: "@;
            &&& m.subrange(0, p.len() as int) == p
            &&& m.subrange(p.len() as int, m.len() as int) == snippet_spec(body)
        }),
{
    let m = http_failure_message_spec(status, body);
    let snip = snippet_spec(body);
    let pre = "bitcoind HTTP "@;
    assert(m.subrange(0, pre.len() as int) =~= pre);
    assert(m.subrange(pre.len() as int, (pre.len() + status_text(status).len()) as int) =~= status_text(status));
    assert(m.subrange(m.len() - snip.len(), m.len() as int) =~= snip);
    let n = non_json_message_spec(body);
    let p = "bitcoind returned a non-JSON response: "@;
    assert(n.subrange(0, p.len() as int) =~= p);
    assert(n.subrange(p.len() as int, n.len() as int) =~= snippet_spec(body));
}

/// `str::parse::<u64>` reads a non-empty run of decimal digits as its
/// value where that fits a `u64`, accepts one leading `+`, and refuses the
/// empty text and any text with another character.
pub proof fn lemma_parse_u64(d: Seq<char>)
    requires
        d.len() > 0,
        forall|i: int| 0 <= i < d.len() ==> '0' <= #[trigger] d[i] <= '9',
    ensures
        parse_u64_spec(d) == if digits_value(d) <= u64::MAX {
            Some(digits_value(d) as u64)
        } else {
            None::<u64>
        },
        parse_u64_spec(seq!['+'] + d) == parse_u64_spec(d),
        parse_u64_spec(Seq::empty()) is None,
        parse_u64_spec(seq!['+']) is None,
        forall|s: Seq<char>|
            (exists|i: int|
                0 <= i < s.len() && !('0' <= #[trigger] s[i] <= '9') && !(i == 0 && s[i] == '+'))
                ==> (#[trigger] parse_u64_spec(s)) is None,
{
    assert((seq!['+'] + d).drop_first() =~= d);
    assert(d[0] != '+');
    assert forall|s: Seq<char>|
        (exists|i: int|
            0 <= i < s.len() && !('0' <= #[trigger] s[i] <= '9') && !(i == 0 && s[i] == '+'))
            implies (#[trigger] parse_u64_spec(s)) is None by {
        let i = choose|i: int|
            0 <= i < s.len() && !('0' <= #[trigger] s[i] <= '9') && !(i == 0 && s[i] == '+');
        let dd = unsigned_digits(s);
        let k = if s.len() > 0 && s[0] == '+' { i - 1 } else { i };
        assert(dd[k] == s[i]);
        if is_decimal(s) {
            assert('0' <= dd[k] <= '9');
        }
    }
}

/// The configured defaults: a 30 s request timeout, a 5 s connection
/// timeout, bitcoind at `http://127.0.0.1:8332`, and at most 3 retries.
pub proof fn lemma_configuration_defaults()
    ensures
        DEFAULT_TIMEOUT_SECS == 30,
        CONNECT_TIMEOUT_SECS == 5,
        MAX_RETRIES == 3,
        default_url() == "http://127.0.0.1:8332"@,
{
}

// ---------------------------------------------------------------------------
// Configuration
// ---------------------------------------------------------------------------

/// Where bitcoind listens when no URL is configured.
pub open spec fn default_url() -> Seq<char> {
    "http://127.0.0.1:8332"@
}

/// The request timeout, in seconds, when none (or no valid one) is
/// configured.
pub const DEFAULT_TIMEOUT_SECS: u64 = 30;

/// The connection timeout, in seconds.
pub const CONNECT_TIMEOUT_SECS: u64 = 5;

/// How to reach bitcoind.
pub struct RpcConfig {
    pub url: String,
    pub user: String,
    pub password: String,
    pub timeout_secs: u64,
    pub connect_timeout_secs: u64,
}

pub open spec fn or_default(v: Option<String>, default: Seq<char>) -> Seq<char> {
    match v {
        Some(s) => s@,
        None => default,
    }
}

impl RpcConfig {
    /// Build the configuration from the values of `BITCOIN_RPC_TIMEOUT_SECS`,
    /// `BITCOIN_RPC_URL`, `BITCOIN_RPC_USER` and `BITCOIN_RPC_PASSWORD`
    /// (`None` where unset), applying sensible defaults for the URL and the
    /// timeout. A timeout that is not a decimal `u64` falls back to the
    /// default.
    pub fn from_vars(
        timeout: Option<String>,
        url: Option<String>,
        user: Option<String>,
        password: Option<String>,
    ) -> (c: RpcConfig)
        ensures
            c.timeout_secs == match timeout {
                Some(t) => match parse_u64_spec(t@) {
                    Some(v) => v,
                    None => DEFAULT_TIMEOUT_SECS,
                },
                None => DEFAULT_TIMEOUT_SECS,
            },
            c.connect_timeout_secs == CONNECT_TIMEOUT_SECS,
            c.url@ == or_default(url, default_url()),
            c.user@ == or_default(user, Seq::empty()),
            c.password@ == or_default(password, Seq::empty()),
    {
        let timeout_secs = match &timeout {
            Some(t) => match parse_u64(t.as_str()) {
                Some(v) => v,
                None => DEFAULT_TIMEOUT_SECS,
            },
            None => DEFAULT_TIMEOUT_SECS,
        };
        let url = match url {
            Some(u) => u,
            None => text("http://127.0.0.1:8332"),
        };
        let user = match user {
            Some(u) => u,
            None => String::new(),
        };
        let password = match password {
            Some(p) => p,
            None => String::new(),
        };
        RpcConfig { url, user, password, timeout_secs, connect_timeout_secs: CONNECT_TIMEOUT_SECS }
    }
}

} // verus!
