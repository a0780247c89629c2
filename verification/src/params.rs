//! From request options to query parameters.
//!
//! The parameters of a call are a list of pairs, a key and a value, in which
//! no key stands twice. An option that the caller left unset gives no pair
//! at all.

use vstd::prelude::*;
use vstd::string::*;

use crate::model::{GetEventInfoRequest, GetEventsRequest, SearchRequest};
use crate::text::{decimal, decimal_text};

verus! {

/// `true` or `false`, written out.
pub open spec fn bool_text(b: bool) -> Seq<char> {
    if b {
        "true"@
    } else {
        "false"@
    }
}

/// The value of the `adult` parameter: the option written out, `false`
/// where it was left unset.
pub open spec fn adult_text(adult: Option<bool>) -> Seq<char> {
    match adult {
        Some(b) => bool_text(b),
        None => bool_text(false),
    }
}

/// The pair for an optional text, if it is set.
pub open spec fn text_pair(key: Seq<char>, value: Option<String>) -> Seq<(Seq<char>, Seq<char>)> {
    match value {
        Some(text) => seq![(key, text@)],
        None => Seq::empty(),
    }
}

/// The pair for an optional number, if it is set: the number in decimal.
pub open spec fn number_pair(key: Seq<char>, value: Option<i32>) -> Seq<(Seq<char>, Seq<char>)> {
    match value {
        Some(n) => seq![(key, decimal_text(n as int))],
        None => Seq::empty(),
    }
}

/// The parameters of a request for the events of a date.
pub open spec fn events_params(request: GetEventsRequest) -> Seq<(Seq<char>, Seq<char>)> {
    seq![("adult"@, adult_text(request.adult))] + text_pair("timezone"@, request.timezone)
        + text_pair("date"@, request.date)
}

/// The parameters of a request for the details of one event.
pub open spec fn event_info_params(request: GetEventInfoRequest) -> Seq<(Seq<char>, Seq<char>)> {
    seq![("id"@, request.id@)] + number_pair("start"@, request.start) + number_pair(
        "end"@,
        request.end,
    )
}

/// The parameters of a search.
pub open spec fn search_params(request: SearchRequest) -> Seq<(Seq<char>, Seq<char>)> {
    seq![("query"@, request.query@), ("adult"@, adult_text(request.adult))]
}

/// Whether some pair of `pairs` has the key `key`.
pub open spec fn has_key(pairs: Seq<(Seq<char>, Seq<char>)>, key: Seq<char>) -> bool {
    exists|i: int| 0 <= i < pairs.len() && (#[trigger] pairs[i]).0 == key
}

/// Whether `pairs` holds the pair of `key` and `value`.
pub open spec fn has_pair(pairs: Seq<(Seq<char>, Seq<char>)>, key: Seq<char>, value: Seq<char>) -> bool {
    exists|i: int| 0 <= i < pairs.len() && #[trigger] pairs[i] == (key, value)
}

/// Whether no key stands twice in `pairs`.
pub open spec fn keys_distinct(pairs: Seq<(Seq<char>, Seq<char>)>) -> bool {
    forall|i: int, j: int|
        0 <= i < j < pairs.len() ==> (#[trigger] pairs[i]).0 != (#[trigger] pairs[j]).0
}

fn adult_value(adult: Option<bool>) -> (s: String)
    ensures
        s@ == adult_text(adult),
{
    let on = match adult {
        Some(b) => b,
        None => false,
    };
    if on {
        String::from_str("true")
    } else {
        String::from_str("false")
    }
}

/// Encodes the options of a request for the events of a date. `adult` is
/// always there; `timezone` and `date` only where they were set.
pub fn events_parameters(request: GetEventsRequest) -> (pairs: Vec<(String, String)>)
    ensures
        pairs.deep_view() == events_params(request),
{
    let mut pairs: Vec<(String, String)> = Vec::new();
    pairs.push((String::from_str("adult"), adult_value(request.adult)));
    if let Some(timezone) = request.timezone {
        pairs.push((String::from_str("timezone"), timezone));
    }
    if let Some(date) = request.date {
        pairs.push((String::from_str("date"), date));
    }
    assert(pairs.deep_view() =~= events_params(request));
    pairs
}

/// Encodes the options of a request for the details of one event. `id` is
/// always there; `start` and `end` only where they were set, in decimal.
pub fn event_info_parameters(request: GetEventInfoRequest) -> (pairs: Vec<(String, String)>)
    ensures
        pairs.deep_view() == event_info_params(request),
{
    let mut pairs: Vec<(String, String)> = Vec::new();
    pairs.push((String::from_str("id"), request.id));
    if let Some(start) = request.start {
        pairs.push((String::from_str("start"), decimal(start as i64)));
    }
    if let Some(end) = request.end {
        pairs.push((String::from_str("end"), decimal(end as i64)));
    }
    assert(pairs.deep_view() =~= event_info_params(request));
    pairs
}

/// Encodes the options of a search: `query` and `adult`, both always there.
pub fn search_parameters(request: SearchRequest) -> (pairs: Vec<(String, String)>)
    ensures
        pairs.deep_view() == search_params(request),
{
    let mut pairs: Vec<(String, String)> = Vec::new();
    pairs.push((String::from_str("query"), request.query));
    pairs.push((String::from_str("adult"), adult_value(request.adult)));
    assert(pairs.deep_view() =~= search_params(request));
    pairs
}

proof fn lemma_keys_differ()
    ensures
        "adult"@ != "timezone"@,
        "adult"@ != "date"@,
        "timezone"@ != "date"@,
        "id"@ != "start"@,
        "id"@ != "end"@,
        "start"@ != "end"@,
        "query"@ != "adult"@,
{
    reveal_strlit("adult");
    reveal_strlit("timezone");
    reveal_strlit("date");
    reveal_strlit("id");
    reveal_strlit("start");
    reveal_strlit("end");
    reveal_strlit("query");
    assert("adult"@.len() == 5 && "timezone"@.len() == 8 && "date"@.len() == 4);
    assert("id"@.len() == 2 && "start"@.len() == 5 && "end"@.len() == 3);
    assert("query"@[0] == 'q' && "adult"@[0] == 'a');
}

/// No key stands twice among the parameters of a request for the events of
/// a date.
pub proof fn lemma_events_keys_are_distinct(request: GetEventsRequest)
    ensures
        keys_distinct(events_params(request)),
{
    lemma_keys_differ();
}

/// No key stands twice among the parameters of a request for the details of
/// one event.
pub proof fn lemma_event_info_keys_are_distinct(request: GetEventInfoRequest)
    ensures
        keys_distinct(event_info_params(request)),
{
    lemma_keys_differ();
}

/// No key stands twice among the parameters of a search.
pub proof fn lemma_search_keys_are_distinct(request: SearchRequest)
    ensures
        keys_distinct(search_params(request)),
{
    lemma_keys_differ();
}

/// An option that was left unset gives no pair: its key does not stand
/// among the parameters at all, not even with an empty value.
pub proof fn lemma_unset_options_are_omitted(events: GetEventsRequest, event_info: GetEventInfoRequest)
    ensures
        events.timezone is None ==> !has_key(events_params(events), "timezone"@),
        events.date is None ==> !has_key(events_params(events), "date"@),
        event_info.start is None ==> !has_key(event_info_params(event_info), "start"@),
        event_info.end is None ==> !has_key(event_info_params(event_info), "end"@),
{
    lemma_keys_differ();
}

/// An option that was set gives the pair of its key and its value.
pub proof fn lemma_set_options_are_sent(events: GetEventsRequest, event_info: GetEventInfoRequest)
    ensures
        events.timezone matches Some(timezone) ==> has_pair(
            events_params(events),
            "timezone"@,
            timezone@,
        ),
        events.date matches Some(date) ==> has_pair(events_params(events), "date"@, date@),
        event_info.start matches Some(start) ==> has_pair(
            event_info_params(event_info),
            "start"@,
            decimal_text(start as int),
        ),
        event_info.end matches Some(end) ==> has_pair(
            event_info_params(event_info),
            "end"@,
            decimal_text(end as int),
        ),
{
    let e = events_params(events);
    if events.timezone is Some {
        assert(e[1] == ("timezone"@, events.timezone->Some_0@));
    }
    if events.date is Some {
        let at = e.len() - 1;
        assert(e[at] == ("date"@, events.date->Some_0@));
    }
    let i = event_info_params(event_info);
    if event_info.start is Some {
        assert(i[1] == ("start"@, decimal_text(event_info.start->Some_0 as int)));
    }
    if event_info.end is Some {
        let at = i.len() - 1;
        assert(i[at] == ("end"@, decimal_text(event_info.end->Some_0 as int)));
    }
}

/// `adult` is sent with every request for the events of a date and with
/// every search, with the value `false` where it was left unset.
pub proof fn lemma_adult_is_always_sent(events: GetEventsRequest, search: SearchRequest)
    ensures
        has_pair(events_params(events), "adult"@, adult_text(events.adult)),
        has_pair(search_params(search), "adult"@, adult_text(search.adult)),
        events.adult is None ==> has_pair(events_params(events), "adult"@, "false"@),
        search.adult is None ==> has_pair(search_params(search), "adult"@, "false"@),
{
    assert(events_params(events)[0] == ("adult"@, adult_text(events.adult)));
    assert(search_params(search)[1] == ("adult"@, adult_text(search.adult)));
}

/// The identifying option is sent with every request that has one: `id`
/// with a request for the details of an event, `query` with a search.
pub proof fn lemma_identifying_option_is_sent(event_info: GetEventInfoRequest, search: SearchRequest)
    ensures
        has_pair(event_info_params(event_info), "id"@, event_info.id@),
        has_pair(search_params(search), "query"@, search.query@),
{
    assert(event_info_params(event_info)[0] == ("id"@, event_info.id@));
    assert(search_params(search)[0] == ("query"@, search.query@));
}

} // verus!
