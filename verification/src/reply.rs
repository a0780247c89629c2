//! What a reply to a call amounts to.
//!
//! The network exchange happens elsewhere. Its outcome arrives here as plain
//! values, an [`HttpReply`] or the description of a transport failure, and
//! is turned into a typed response or into the one error message that the
//! caller sees.

use vstd::prelude::*;
use vstd::string::*;

use crate::json::{json_document, lookup, parse_document, FromJson, Json, JsonView};
use crate::model::{RateLimit, RateLimited};
use crate::text::{
    ascii_lower, decimal, decimal_text, eq_ignoring_ascii_case, joined, parse_i32, parsed_i32,
    same_ignoring_ascii_case,
};

verus! {

/// One header of a reply: its name and the bytes of its value.
#[derive(Debug, PartialEq)]
pub struct Header {
    /// The header's name, in any case.
    pub name: String,
    /// The header's value as it came over the wire.
    pub value: Vec<u8>,
}

/// The model of a [`Header`].
pub struct HeaderView {
    pub name: Seq<char>,
    pub value: Seq<u8>,
}

impl DeepView for Header {
    type V = HeaderView;

    open spec fn deep_view(&self) -> HeaderView {
        HeaderView { name: self.name@, value: self.value@ }
    }
}

/// A reply as the transport received it.
#[derive(Debug, PartialEq)]
pub struct HttpReply {
    /// The HTTP status code.
    pub status: u16,
    /// The headers, in the order in which they came.
    pub headers: Vec<Header>,
    /// The whole body, or the description of why it could not be read.
    pub body: Result<Vec<u8>, String>,
}

/// The model of an [`HttpReply`].
pub struct HttpReplyView {
    pub status: u16,
    pub headers: Seq<HeaderView>,
    pub body: Result<Seq<u8>, Seq<char>>,
}

impl DeepView for HttpReply {
    type V = HttpReplyView;

    open spec fn deep_view(&self) -> HttpReplyView {
        HttpReplyView {
            status: self.status,
            headers: self.headers.deep_view(),
            body: match self.body {
                Ok(bytes) => Ok(bytes@),
                Err(description) => Err(description@),
            },
        }
    }
}

/// The model of a result whose error is a message.
pub open spec fn outcome_view<T: DeepView>(r: Result<T, String>) -> Result<T::V, Seq<char>> {
    match r {
        Ok(value) => Ok(value.deep_view()),
        Err(message) => Err(message@),
    }
}

/// The name of the header that carries the monthly quota.
pub open spec fn limit_header() -> Seq<char> {
    "x-ratelimit-limit-month"@
}

/// The name of the header that carries what is left of the monthly quota.
pub open spec fn remaining_header() -> Seq<char> {
    "x-ratelimit-remaining-month"@
}

/// The value of the first header of `headers` whose name is `name`, the case
/// of ASCII letters set aside.
pub open spec fn header_value(headers: Seq<HeaderView>, name: Seq<char>) -> Option<Seq<u8>>
    decreases headers.len(),
{
    if headers.len() == 0 {
        None
    } else if same_ignoring_ascii_case(headers[0].name, name) {
        Some(headers[0].value)
    } else {
        header_value(headers.drop_first(), name)
    }
}

/// The number that a header value writes: a 32-bit decimal integer that is
/// not negative, with nothing around it. Any other value counts as zero.
pub open spec fn quota(value: Seq<u8>) -> i32 {
    match parsed_i32(value) {
        Some(n) => if n >= 0 {
            n
        } else {
            0
        },
        None => 0,
    }
}

/// The number that the header `name` carries: zero where the header is
/// absent or its value is no 32-bit decimal integer that is not negative.
pub open spec fn header_number(headers: Seq<HeaderView>, name: Seq<char>) -> i32 {
    match header_value(headers, name) {
        Some(value) => quota(value),
        None => 0,
    }
}

/// The rate limit that `headers` report.
pub open spec fn rate_limit_of_headers(headers: Seq<HeaderView>) -> RateLimit {
    RateLimit {
        limit_month: header_number(headers, limit_header()),
        remaining_month: header_number(headers, remaining_header()),
    }
}

fn find_header<'a>(headers: &'a Vec<Header>, name: &str) -> (r: Option<&'a Vec<u8>>)
    ensures
        match r {
            Some(value) => header_value(headers.deep_view(), name@) == Some(value@),
            None => header_value(headers.deep_view(), name@) is None,
        },
{
    let ghost all = headers.deep_view();
    let n = headers.len();
    let mut i: usize = 0;
    assert(all.skip(0) =~= all);
    while i < n
        invariant
            i <= n,
            n == headers@.len(),
            all == headers.deep_view(),
            header_value(all, name@) == header_value(all.skip(i as int), name@),
        decreases n - i,
    {
        let ghost rest = all.skip(i as int);
        assert(rest[0] == headers@[i as int].deep_view());
        assert(rest.drop_first() =~= all.skip(i + 1));
        if eq_ignoring_ascii_case(headers[i].name.as_str(), name) {
            return Some(&headers[i].value);
        }
        i += 1;
    }
    assert(all.skip(n as int) =~= Seq::<HeaderView>::empty());
    None
}

fn read_header_number(headers: &Vec<Header>, name: &str) -> (n: i32)
    ensures
        n == header_number(headers.deep_view(), name@),
{
    match find_header(headers, name) {
        Some(value) => match parse_i32(value.as_slice()) {
            Some(n) => if n >= 0 {
                n
            } else {
                0
            },
            None => 0,
        },
        None => 0,
    }
}

/// Reads the rate limit out of the headers of a reply. A header name matches
/// in any case; a header that is absent or does not hold a number that is
/// not negative counts as zero, and never as a failure.
pub fn rate_limit_from_headers(headers: &Vec<Header>) -> (limit: RateLimit)
    ensures
        limit == rate_limit_of_headers(headers.deep_view()),
        limit.limit_month >= 0,
        limit.remaining_month >= 0,
{
    RateLimit {
        limit_month: read_header_number(headers, "x-ratelimit-limit-month"),
        remaining_month: read_header_number(headers, "x-ratelimit-remaining-month"),
    }
}

/// Whether `status` is a success status.
pub open spec fn is_success(status: u16) -> bool {
    200 <= status < 300
}

/// Whether every member of an object is a string.
pub open spec fn all_strings(members: Seq<(Seq<char>, JsonView)>) -> bool {
    forall|i: int| 0 <= i < members.len() ==> (#[trigger] members[i]).1 is Str
}

/// The `error` member of an error body. A body counts as one only if it
/// parsed as an object all of whose members are strings.
pub open spec fn error_member(parsed: Result<JsonView, Seq<char>>) -> Option<Seq<char>> {
    match parsed {
        Ok(JsonView::Object(members)) => if all_strings(members) {
            match lookup(members, "error"@) {
                Some(JsonView::Str(text)) => Some(text),
                _ => None,
            }
        } else {
            None
        },
        _ => None,
    }
}

/// The message for a reply with a status that is no success: the `error`
/// member of the body where there is one and it is not empty, else the
/// reason phrase of the status, else the status code in decimal.
pub open spec fn http_error_text(
    status: u16,
    reason: Option<Seq<char>>,
    parsed: Result<JsonView, Seq<char>>,
) -> Seq<char> {
    match error_member(parsed) {
        Some(text) => if text.len() > 0 {
            text
        } else {
            status_text(status, reason)
        },
        None => status_text(status, reason),
    }
}

/// What names a status: its reason phrase, or its code in decimal where it
/// has no reason phrase.
pub open spec fn status_text(status: u16, reason: Option<Seq<char>>) -> Seq<char> {
    match reason {
        Some(phrase) => phrase,
        None => decimal_text(status as int),
    }
}

/// The message for a call that the transport could not complete.
pub open spec fn transport_error_text(description: Seq<char>) -> Seq<char> {
    "Can't process request: "@ + description
}

/// The message for a body that gives no response, `diagnostic` saying why.
pub open spec fn parse_error_text(diagnostic: Seq<char>) -> Seq<char> {
    "Can't parse response: "@ + diagnostic
}

/// The diagnostic for a body that was read but does not decode.
pub open spec fn decode_error_text(diagnostic: Seq<char>) -> Seq<char> {
    "error decoding response body: "@ + diagnostic
}

/// What a body gives, `parsed` being what its bytes parsed to: the parsed
/// value, or the diagnostic, which for a body that could not be read is the
/// description of that failure.
pub open spec fn body_outcome(
    body: Result<Seq<u8>, Seq<char>>,
    parsed: Result<JsonView, Seq<char>>,
) -> Result<JsonView, Seq<char>> {
    match body {
        Ok(_) => match parsed {
            Ok(json) => Ok(json),
            Err(diagnostic) => Err(decode_error_text(diagnostic)),
        },
        Err(description) => Err(description),
    }
}

/// What a body holds as a JSON document.
pub open spec fn body_document(body: Result<Seq<u8>, Seq<char>>) -> Result<JsonView, Seq<char>> {
    match body {
        Ok(bytes) => body_outcome(body, json_document(bytes)),
        Err(description) => Err(description),
    }
}

/// Words the diagnostic for a body that was read but does not decode.
pub fn decode_error_message(diagnostic: &str) -> (message: String)
    ensures
        message@ == decode_error_text(diagnostic@),
{
    joined("error decoding response body: ", diagnostic)
}

/// Words the message for a body that gives no response.
pub fn parse_error_message(diagnostic: &str) -> (message: String)
    ensures
        message@ == parse_error_text(diagnostic@),
{
    joined("Can't parse response: ", diagnostic)
}

/// Parses the body of a reply.
pub fn read_body(body: &Result<Vec<u8>, String>) -> (r: Result<Json, String>)
    ensures
        outcome_view(r) == body_document(
            match *body {
                Ok(bytes) => Ok(bytes@),
                Err(description) => Err(description@),
            },
        ),
{
    match body {
        Ok(bytes) => match parse_document(bytes.as_slice()) {
            Ok(json) => Ok(json),
            Err(diagnostic) => Err(decode_error_message(diagnostic.as_str())),
        },
        Err(description) => Err(description.clone()),
    }
}

fn only_strings(members: &Vec<(String, Json)>) -> (b: bool)
    ensures
        b == all_strings(Json::Object(*members).deep_view()->Object_0),
{
    let ghost all = Json::Object(*members).deep_view()->Object_0;
    let n = members.len();
    let mut i: usize = 0;
    while i < n
        invariant
            i <= n,
            n == members@.len(),
            all == Json::Object(*members).deep_view()->Object_0,
            all.len() == n,
            forall|k: int|
                0 <= k < n ==> #[trigger] all[k] == (members@[k].0@, members@[k].1.deep_view()),
            forall|k: int| 0 <= k < i ==> (#[trigger] all[k]).1 is Str,
        decreases n - i,
    {
        match &members[i].1 {
            Json::Str(_) => {},
            _ => {
                assert(!(all[i as int].1 is Str));
                return false;
            },
        }
        i += 1;
    }
    true
}

fn error_of(parsed: &Result<Json, String>) -> (r: Option<String>)
    ensures
        r.deep_view() == error_member(outcome_view(*parsed)),
{
    match parsed {
        Ok(json) => match json {
            Json::Object(members) => {
                if only_strings(members) {
                    match json.field("error") {
                        Some(Json::Str(text)) => Some(text.clone()),
                        _ => None,
                    }
                } else {
                    None
                }
            },
            _ => None,
        },
        Err(_) => None,
    }
}

/// Words the failure of a reply whose status is no success. `reason` is the
/// reason phrase of the status, if it has one, and `parsed` is what the body
/// parsed to.
pub fn http_error_message(status: u16, reason: Option<&str>, parsed: &Result<Json, String>) -> (message:
    String)
    ensures
        message@ == http_error_text(status, reason.deep_view(), outcome_view(*parsed)),
{
    match error_of(parsed) {
        Some(text) => {
            if !text.as_str().is_empty() {
                return text;
            }
        },
        None => {},
    }
    match reason {
        Some(phrase) => String::from_str(phrase),
        None => decimal(status as i64),
    }
}

/// What a reply with a success status gives before its body is decoded into
/// a response shape: the parsed body with the rate limit of the headers, or
/// the message for a body that could not be read or is no JSON document.
pub open spec fn accepted(headers: Seq<HeaderView>, parsed: Result<JsonView, Seq<char>>) -> Result<
    (JsonView, RateLimit),
    Seq<char>,
> {
    match parsed {
        Ok(json) => Ok((json, rate_limit_of_headers(headers))),
        Err(diagnostic) => Err(parse_error_text(diagnostic)),
    }
}

/// Takes in a reply with a success status, given what its body parsed to.
pub fn accept(headers: &Vec<Header>, parsed: Result<Json, String>) -> (r: Result<
    (Json, RateLimit),
    String,
>)
    ensures
        outcome_view(r) == accepted(headers.deep_view(), outcome_view(parsed)),
{
    let rate_limit = rate_limit_from_headers(headers);
    match parsed {
        Ok(json) => Ok((json, rate_limit)),
        Err(diagnostic) => Err(parse_error_message(diagnostic.as_str())),
    }
}

/// The reason phrase that the HTTP standards give the status code, if any.
pub uninterp spec fn reason_phrase(status: u16) -> Option<Seq<char>>;

/// `reqwest::StatusCode::canonical_reason`, for the status code that
/// `reqwest::StatusCode::from_u16` makes of `status`; `None` where it makes
/// none. The contract claims only that the phrase is a function of the
/// code.
#[verifier::external_body]
fn canonical_reason(status: u16) -> (r: Option<&'static str>)
    ensures
        r.deep_view() == reason_phrase(status),
{
    match reqwest::StatusCode::from_u16(status) {
        Ok(code) => code.canonical_reason(),
        Err(_) => None,
    }
}

/// What the outcome of a call gives before the body is decoded into a
/// response shape.
///
/// A transport failure gives its message. A reply whose status is no success
/// gives the message of [`http_error_text`], and nothing of its body or
/// headers besides. A reply with a success status gives [`accepted`].
pub open spec fn received(outcome: Result<HttpReplyView, Seq<char>>) -> Result<
    (JsonView, RateLimit),
    Seq<char>,
> {
    match outcome {
        Err(description) => Err(transport_error_text(description)),
        Ok(reply) => if is_success(reply.status) {
            accepted(reply.headers, body_document(reply.body))
        } else {
            Err(
                http_error_text(
                    reply.status,
                    reason_phrase(reply.status),
                    body_document(reply.body),
                ),
            )
        },
    }
}

/// Classifies the outcome of a call: `Err` holds the description of a
/// transport failure, `Ok` the reply.
pub fn receive(outcome: Result<HttpReply, String>) -> (r: Result<(Json, RateLimit), String>)
    ensures
        outcome_view(r) == received(outcome_view(outcome)),
{
    match outcome {
        Err(description) => Err(joined("Can't process request: ", description.as_str())),
        Ok(reply) => {
            let parsed = read_body(&reply.body);
            if 200 <= reply.status && reply.status < 300 {
                accept(&reply.headers, parsed)
            } else {
                Err(http_error_message(reply.status, canonical_reason(reply.status), &parsed))
            }
        },
    }
}

/// What a parsed body and a rate limit give as a response of the shape `T`:
/// the decoded body with the rate limit attached, or the message for a body
/// of another shape.
pub open spec fn response_of<T: FromJson + RateLimited>(
    json: JsonView,
    rate_limit: RateLimit,
) -> Result<<T as DeepView>::V, Seq<char>> {
    match T::decoded(json) {
        Ok(view) => Ok(T::with_rate_limit(view, rate_limit)),
        Err(e) => Err(parse_error_text(decode_error_text(e.text()))),
    }
}

/// Decodes a parsed body into the shape `T` and attaches the rate limit.
pub fn decode_response<T: FromJson + RateLimited>(json: &Json, rate_limit: RateLimit) -> (r: Result<
    T,
    String,
>)
    ensures
        outcome_view(r) == response_of::<T>(json.deep_view(), rate_limit),
        r matches Ok(response) ==> T::rate_limit_of(response.deep_view()) == rate_limit,
{
    match T::from_json(json) {
        Ok(response) => {
            let mut response = response;
            response.set_rate_limit(rate_limit);
            Ok(response)
        },
        Err(e) => Err(
            parse_error_message(decode_error_message(e.message().as_str()).as_str()),
        ),
    }
}

/// What the outcome of a call gives as a response of the shape `T`.
pub open spec fn responded<T: FromJson + RateLimited>(
    outcome: Result<HttpReplyView, Seq<char>>,
) -> Result<<T as DeepView>::V, Seq<char>> {
    match received(outcome) {
        Ok((json, rate_limit)) => response_of::<T>(json, rate_limit),
        Err(message) => Err(message),
    }
}

/// Turns the outcome of a call into a response of the shape `T`, or into
/// the one message that tells why there is none. Nothing is retried and no
/// partly filled response is ever returned.
pub fn respond<T: FromJson + RateLimited>(outcome: Result<HttpReply, String>) -> (r: Result<
    T,
    String,
>)
    ensures
        outcome_view(r) == responded::<T>(outcome_view(outcome)),
        r matches Ok(response) ==> outcome matches Ok(reply) && is_success(reply.status)
            && T::rate_limit_of(response.deep_view()) == rate_limit_of_headers(
            reply.deep_view().headers,
        ),
{
    match receive(outcome) {
        Ok((json, rate_limit)) => decode_response::<T>(&json, rate_limit),
        Err(message) => Err(message),
    }
}

/// A header that is not among `headers` under any spelling of its name
/// counts as zero.
pub proof fn lemma_absent_header_counts_as_zero(headers: Seq<HeaderView>, name: Seq<char>)
    requires
        forall|i: int|
            0 <= i < headers.len() ==> !same_ignoring_ascii_case((#[trigger] headers[i]).name, name),
    ensures
        header_value(headers, name) is None,
        header_number(headers, name) == 0,
    decreases headers.len(),
{
    if headers.len() > 0 {
        let rest = headers.drop_first();
        assert(!same_ignoring_ascii_case(headers[0].name, name));
        assert forall|i: int| 0 <= i < rest.len() implies !same_ignoring_ascii_case(
            (#[trigger] rest[i]).name,
            name,
        ) by {
            assert(rest[i] == headers[i + 1]);
        }
        lemma_absent_header_counts_as_zero(rest, name);
    }
}

/// A header whose value is no 32-bit decimal integer, or is a negative one,
/// counts as zero.
pub proof fn lemma_malformed_header_counts_as_zero(headers: Seq<HeaderView>, name: Seq<char>)
    requires
        header_value(headers, name) matches Some(value) && !(parsed_i32(value) matches Some(n) && n
            >= 0),
    ensures
        header_number(headers, name) == 0,
{
}

/// The rate limit that headers report is never negative, whatever the
/// headers hold.
pub proof fn lemma_rate_limit_is_never_negative(headers: Seq<HeaderView>)
    ensures
        rate_limit_of_headers(headers).limit_month >= 0,
        rate_limit_of_headers(headers).remaining_month >= 0,
{
}

/// A response of any shape carries the rate limit that the headers of its
/// reply report, each of the two numbers read from its own header alone.
pub proof fn lemma_response_carries_the_header_limit<T: FromJson + RateLimited>(
    outcome: Result<HttpReplyView, Seq<char>>,
)
    requires
        responded::<T>(outcome) is Ok,
    ensures
        outcome matches Ok(reply) && is_success(reply.status) && T::rate_limit_of(
            responded::<T>(outcome)->Ok_0,
        ) == rate_limit_of_headers(reply.headers) && T::rate_limit_of(
            responded::<T>(outcome)->Ok_0,
        ).limit_month == header_number(reply.headers, limit_header()) && T::rate_limit_of(
            responded::<T>(outcome)->Ok_0,
        ).remaining_month == header_number(reply.headers, remaining_header()),
{
    let reply = outcome->Ok_0;
    let json = body_document(reply.body)->Ok_0;
    let limit = rate_limit_of_headers(reply.headers);
    T::lemma_rate_limit_is_overwritten(T::decoded(json)->Ok_0, limit, limit);
}

/// The headers of a reply never decide whether there is a response: two
/// replies with the same status and body both give one or both give none.
pub proof fn lemma_headers_never_fail_a_reply<T: FromJson + RateLimited>(
    a: HttpReplyView,
    b: HttpReplyView,
)
    requires
        a.status == b.status,
        a.body == b.body,
    ensures
        responded::<T>(Ok(a)) is Ok <==> responded::<T>(Ok(b)) is Ok,
{
}

/// A reply without headers reports the zero rate limit.
pub proof fn lemma_no_headers_no_limit()
    ensures
        rate_limit_of_headers(Seq::empty()) == RateLimit::zero(),
{
}

/// The case in which the names of the headers are written does not matter:
/// two lists of headers that differ only in the case of ASCII letters in
/// the names report the same rate limit.
pub proof fn lemma_header_names_match_in_any_case(a: Seq<HeaderView>, b: Seq<HeaderView>)
    requires
        a.len() == b.len(),
        forall|i: int|
            0 <= i < a.len() ==> (#[trigger] a[i]).value == b[i].value && same_ignoring_ascii_case(
                a[i].name,
                b[i].name,
            ),
    ensures
        rate_limit_of_headers(a) == rate_limit_of_headers(b),
{
    lemma_same_header_value(a, b, limit_header());
    lemma_same_header_value(a, b, remaining_header());
}

proof fn lemma_same_header_value(a: Seq<HeaderView>, b: Seq<HeaderView>, name: Seq<char>)
    requires
        a.len() == b.len(),
        forall|i: int|
            0 <= i < a.len() ==> (#[trigger] a[i]).value == b[i].value && same_ignoring_ascii_case(
                a[i].name,
                b[i].name,
            ),
    ensures
        header_value(a, name) == header_value(b, name),
    decreases a.len(),
{
    if a.len() > 0 {
        assert(a[0].value == b[0].value && same_ignoring_ascii_case(a[0].name, b[0].name));
        assert(same_ignoring_ascii_case(a[0].name, name) == same_ignoring_ascii_case(
            b[0].name,
            name,
        )) by {
            let x = a[0].name;
            let y = b[0].name;
            if same_ignoring_ascii_case(x, name) {
                assert forall|i: int| 0 <= i < y.len() implies ascii_lower(#[trigger] y[i])
                    == ascii_lower(name[i]) by {
                    assert(ascii_lower(x[i]) == ascii_lower(y[i]));
                    assert(ascii_lower(x[i]) == ascii_lower(name[i]));
                }
            }
            if same_ignoring_ascii_case(y, name) {
                assert forall|i: int| 0 <= i < x.len() implies ascii_lower(#[trigger] x[i])
                    == ascii_lower(name[i]) by {
                    assert(ascii_lower(x[i]) == ascii_lower(y[i]));
                    assert(ascii_lower(y[i]) == ascii_lower(name[i]));
                }
            }
        }
        let ra = a.drop_first();
        let rb = b.drop_first();
        assert forall|i: int| 0 <= i < ra.len() implies (#[trigger] ra[i]).value == rb[i].value
            && same_ignoring_ascii_case(ra[i].name, rb[i].name) by {
            assert(ra[i] == a[i + 1]);
            assert(rb[i] == b[i + 1]);
        }
        lemma_same_header_value(ra, rb, name);
    }
}

/// The message for a body that does not decode is never the message for a
/// transport failure, whatever the diagnostic and the description are.
pub proof fn lemma_parse_and_transport_errors_differ(diagnostic: Seq<char>, description: Seq<char>)
    ensures
        parse_error_text(diagnostic) != transport_error_text(description),
{
    reveal_strlit("Can't parse response: ");
    reveal_strlit("Can't process request: ");
    let p = parse_error_text(diagnostic);
    let t = transport_error_text(description);
    assert("Can't parse response: "@.len() == 22);
    assert("Can't process request: "@.len() == 23);
    assert(p[7] == 'a');
    assert(t[7] == 'r');
}

/// The outcome of a call is a failure whenever the transport failed or the
/// status is no success, whatever the body holds.
pub proof fn lemma_failures_are_terminal<T: FromJson + RateLimited>(
    outcome: Result<HttpReplyView, Seq<char>>,
)
    requires
        outcome matches Ok(reply) ==> !is_success(reply.status),
    ensures
        responded::<T>(outcome) is Err,
{
}

} // verus!
