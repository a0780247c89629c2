//! Client core for the Checkiday holiday and event API.
//!
//! The crate holds everything about a call that is not the network exchange
//! itself: how request options become query parameters and a URL, how a reply
//! is classified into a response or a single error message, how response
//! bodies are decoded, and how the rate limit reported in the reply headers
//! is attached to the decoded response.
//!
//! A call runs in three steps. [`HolidayEventApi`] turns a request into a
//! [`Call`], which names the URL to get. The caller's transport gets that URL
//! with the headers of [`HolidayEventApi::headers`]. What came back goes to
//! [`reply::respond`], which gives the typed response or the error.

pub mod decode;
pub mod json;
pub mod model;
pub mod params;
pub mod reply;
pub mod text;
pub mod url;

use vstd::prelude::*;
use vstd::string::*;

use crate::model::{GetEventInfoRequest, GetEventsRequest, SearchRequest};
use crate::params::{
    event_info_parameters, event_info_params, events_parameters, events_params, keys_distinct,
    lemma_event_info_keys_are_distinct, lemma_events_keys_are_distinct,
    lemma_search_keys_are_distinct, search_parameters, search_params,
};
use crate::reply::outcome_view;
use crate::url::{absolute_url, build_request_url, parse_url, request_url};

verus! {

/// The base URL of the API.
pub const DEFAULT_BASE_URL: &'static str = "https://api.apilayer.com/checkiday/";

/// The user agent that every call names.
pub const APP_USER_AGENT: &'static str = "HolidayApiRust/1.2.0";

/// The number of seconds after which the transport gives a call up.
pub const TIMEOUT_SECONDS: u64 = 10;

/// The error for an API key that is empty or cannot be sent as a header.
pub const INVALID_API_KEY: &'static str =
    "Please provide a valid API key. Get one at https://apilayer.com/marketplace/checkiday-api#pricing.";

/// The error for a base URL that is no absolute URL, or that no path can be
/// resolved against.
pub const INVALID_BASE_URL: &'static str = "Invalid base_url.";

/// The error for a request for an event's details that names no event.
pub const MISSING_EVENT_ID: &'static str = "Event id is required.";

/// The error for a search without a query.
pub const MISSING_QUERY: &'static str = "Search query is required.";

/// Whether `c` may stand in the value of an HTTP header: any character but
/// the ASCII control characters, the tab allowed.
pub open spec fn header_value_char(c: char) -> bool {
    (c as u32 >= 32 && c as u32 != 127) || c as u32 == 9
}

/// Whether `text` can be sent as the value of an HTTP header.
pub open spec fn is_header_value(text: Seq<char>) -> bool {
    forall|i: int| 0 <= i < text.len() ==> header_value_char(#[trigger] text[i])
}

/// Whether `key` can serve as an API key: it is not empty and can be sent as
/// the value of a header.
pub open spec fn valid_api_key(key: Seq<char>) -> bool {
    key.len() > 0 && is_header_value(key)
}

/// `reqwest::header::HeaderValue::try_from` on a `&str`, asked only whether
/// it succeeds. It does when no byte of the text is below 32, the tab
/// excepted, and none is 127; the bytes of a character beyond ASCII are all
/// above 127, so the same holds character by character.
#[verifier::external_body]
fn header_value_accepts(text: &str) -> (ok: bool)
    ensures
        ok == is_header_value(text@),
{
    reqwest::header::HeaderValue::try_from(text).is_ok()
}

/// `rustc_version_runtime::version`, written out: the version of the
/// compiler that built the program. It differs from build to build, so the
/// contract claims nothing of it.
#[verifier::external_body]
fn compiler_version() -> String {
    rustc_version_runtime::version().to_string()
}

/// The configuration of a client: the API key, the marker of the platform
/// and the base URL. It is fixed when the client is made.
#[derive(Debug)]
pub struct HolidayEventApi {
    api_key: String,
    platform_version: String,
    base_url: String,
}

/// The model of a [`HolidayEventApi`].
pub struct HolidayEventApiView {
    pub api_key: Seq<char>,
    pub platform_version: Seq<char>,
    pub base_url: Seq<char>,
}

/// One call to the API, ready to be sent as an HTTP GET.
#[derive(Debug, PartialEq)]
pub struct Call {
    /// The path of the operation, relative to the base URL.
    pub path: String,
    /// The query parameters, in the order in which they stand in the query.
    pub params: Vec<(String, String)>,
    /// The URL to get: the path resolved against the base URL, with the
    /// parameters as its query.
    pub url: String,
}

/// The model of a [`Call`].
pub struct CallView {
    pub path: Seq<char>,
    pub params: Seq<(Seq<char>, Seq<char>)>,
    pub url: Seq<char>,
}

impl DeepView for Call {
    type V = CallView;

    open spec fn deep_view(&self) -> CallView {
        CallView { path: self.path@, params: self.params.deep_view(), url: self.url@ }
    }
}

/// What making a client gives, `base` being what the base URL parsed to.
/// The API key is looked at first.
pub open spec fn assembled(
    api_key: Seq<char>,
    platform_version: Seq<char>,
    base: Option<Seq<char>>,
) -> Result<HolidayEventApiView, Seq<char>> {
    if !valid_api_key(api_key) {
        Err(INVALID_API_KEY@)
    } else {
        match base {
            Some(base_url) => Ok(HolidayEventApiView { api_key, platform_version, base_url }),
            None => Err(INVALID_BASE_URL@),
        }
    }
}

/// What preparing a call gives, `url` being what the URL of the call came
/// to.
pub open spec fn called(
    path: Seq<char>,
    params: Seq<(Seq<char>, Seq<char>)>,
    url: Option<Seq<char>>,
) -> Result<CallView, Seq<char>> {
    match url {
        Some(url) => Ok(CallView { path, params, url }),
        None => Err(INVALID_BASE_URL@),
    }
}

/// The call for the events of a date.
pub open spec fn events_call(base: Seq<char>, request: GetEventsRequest) -> Result<
    CallView,
    Seq<char>,
> {
    called("events"@, events_params(request), request_url(base, "events"@, events_params(request)))
}

/// The call for the details of one event: none where the request names no
/// event.
pub open spec fn event_info_call(base: Seq<char>, request: GetEventInfoRequest) -> Result<
    CallView,
    Seq<char>,
> {
    if request.id@.len() == 0 {
        Err(MISSING_EVENT_ID@)
    } else {
        called(
            "event"@,
            event_info_params(request),
            request_url(base, "event"@, event_info_params(request)),
        )
    }
}

/// The call for a search: none where the query is empty.
pub open spec fn search_call(base: Seq<char>, request: SearchRequest) -> Result<
    CallView,
    Seq<char>,
> {
    if request.query@.len() == 0 {
        Err(MISSING_QUERY@)
    } else {
        called("search"@, search_params(request), request_url(base, "search"@, search_params(request)))
    }
}

impl Call {
    /// Makes the call for `path` and `params` of the URL that was built for
    /// them, or gives the error where none could be built.
    pub fn assemble(path: &str, params: Vec<(String, String)>, url: Option<String>) -> (r: Result<
        Call,
        String,
    >)
        ensures
            outcome_view(r) == called(path@, params.deep_view(), url.deep_view()),
    {
        match url {
            Some(url) => Ok(Call { path: String::from_str(path), params, url }),
            None => Err(String::from_str(INVALID_BASE_URL)),
        }
    }
}

impl View for HolidayEventApi {
    type V = HolidayEventApiView;

    closed spec fn view(&self) -> HolidayEventApiView {
        HolidayEventApiView {
            api_key: self.api_key@,
            platform_version: self.platform_version@,
            base_url: self.base_url@,
        }
    }
}

impl HolidayEventApi {
    #[verifier::type_invariant]
    spec fn well_formed(self) -> bool {
        valid_api_key(self.api_key@)
    }

    /// Makes a client for the API at its usual address.
    pub fn new(api_key: &str) -> (r: Result<Self, String>)
        ensures
            r is Ok <==> valid_api_key(api_key@) && absolute_url(DEFAULT_BASE_URL@) is Some,
            r matches Ok(api) ==> api@.api_key == api_key@ && Some(api@.base_url) == absolute_url(
                DEFAULT_BASE_URL@,
            ),
            r matches Err(e) ==> e@ == if valid_api_key(api_key@) {
                INVALID_BASE_URL@
            } else {
                INVALID_API_KEY@
            },
    {
        Self::new_internal(api_key, DEFAULT_BASE_URL)
    }

    /// Makes a client for the API at `base_url`. The key has to be one that
    /// can be sent as a header, and `base_url` an absolute URL; no call is
    /// made.
    pub fn new_internal(api_key: &str, base_url: &str) -> (r: Result<Self, String>)
        ensures
            r is Ok <==> valid_api_key(api_key@) && absolute_url(base_url@) is Some,
            r matches Ok(api) ==> api@.api_key == api_key@ && Some(api@.base_url) == absolute_url(
                base_url@,
            ),
            r matches Err(e) ==> e@ == if valid_api_key(api_key@) {
                INVALID_BASE_URL@
            } else {
                INVALID_API_KEY@
            },
    {
        Self::assemble(api_key, compiler_version(), parse_url(base_url))
    }

    /// Makes a client of its parts, `base` being what the base URL parsed
    /// to.
    pub fn assemble(api_key: &str, platform_version: String, base: Option<String>) -> (r: Result<
        Self,
        String,
    >)
        ensures
            match r {
                Ok(api) => Ok::<HolidayEventApiView, Seq<char>>(api@),
                Err(e) => Err::<HolidayEventApiView, Seq<char>>(e@),
            } == assembled(api_key@, platform_version@, base.deep_view()),
    {
        if api_key.is_empty() || !header_value_accepts(api_key) {
            return Err(String::from_str(INVALID_API_KEY));
        }
        match base {
            Some(base_url) => Ok(
                HolidayEventApi { api_key: String::from_str(api_key), platform_version, base_url },
            ),
            None => Err(String::from_str(INVALID_BASE_URL)),
        }
    }

    /// The API key.
    pub fn api_key(&self) -> (key: &str)
        ensures
            key@ == self@.api_key,
            valid_api_key(key@),
    {
        proof {
            use_type_invariant(self);
        }
        self.api_key.as_str()
    }

    /// The marker of the platform: the version of the compiler that built
    /// the program.
    pub fn platform_version(&self) -> (version: &str)
        ensures
            version@ == self@.platform_version,
    {
        self.platform_version.as_str()
    }

    /// The base URL, in normal form.
    pub fn base_url(&self) -> (url: &str)
        ensures
            url@ == self@.base_url,
    {
        self.base_url.as_str()
    }

    /// The headers that every call carries: the API key, the user agent and
    /// the marker of the platform.
    pub fn headers(&self) -> (headers: Vec<(String, String)>)
        ensures
            headers.deep_view() == seq![
                ("apikey"@, self@.api_key),
                ("user-agent"@, APP_USER_AGENT@),
                ("X-Platform-Version"@, self@.platform_version),
            ],
            is_header_value(self@.api_key),
    {
        proof {
            use_type_invariant(self);
        }
        let mut headers: Vec<(String, String)> = Vec::new();
        headers.push((String::from_str("apikey"), self.api_key.clone()));
        headers.push((String::from_str("user-agent"), String::from_str(APP_USER_AGENT)));
        headers.push((String::from_str("X-Platform-Version"), self.platform_version.clone()));
        assert(headers.deep_view() =~= seq![
            ("apikey"@, self@.api_key),
            ("user-agent"@, APP_USER_AGENT@),
            ("X-Platform-Version"@, self@.platform_version),
        ]);
        headers
    }

    /// Prepares the call for `path` with `params`: resolves the path against
    /// the base URL and appends the parameters as the query.
    pub fn request(&self, path: &str, params: Vec<(String, String)>) -> (r: Result<Call, String>)
        ensures
            outcome_view(r) == called(
                path@,
                params.deep_view(),
                request_url(self@.base_url, path@, params.deep_view()),
            ),
    {
        let url = build_request_url(self.base_url.as_str(), path, &params);
        Call::assemble(path, params, url)
    }

    /// Prepares the call that gets the events for the date of `request`.
    pub fn get_events(&self, request: GetEventsRequest) -> (r: Result<Call, String>)
        ensures
            outcome_view(r) == events_call(self@.base_url, request),
            r matches Ok(call) ==> keys_distinct(call.params.deep_view()),
    {
        proof {
            lemma_events_keys_are_distinct(request);
        }
        self.request("events", events_parameters(request))
    }

    /// Prepares the call that gets the details of the event of `request`.
    /// A request that names no event is refused before anything is sent.
    pub fn get_event_info(&self, request: GetEventInfoRequest) -> (r: Result<Call, String>)
        ensures
            outcome_view(r) == event_info_call(self@.base_url, request),
            request.id@.len() == 0 ==> r is Err && r->Err_0@ == MISSING_EVENT_ID@,
            r matches Ok(call) ==> keys_distinct(call.params.deep_view()),
    {
        proof {
            lemma_event_info_keys_are_distinct(request);
        }
        if request.id.as_str().is_empty() {
            return Err(String::from_str(MISSING_EVENT_ID));
        }
        self.request("event", event_info_parameters(request))
    }

    /// Prepares the call that searches for the events that match `request`.
    /// A request with an empty query is refused before anything is sent.
    pub fn search(&self, request: SearchRequest) -> (r: Result<Call, String>)
        ensures
            outcome_view(r) == search_call(self@.base_url, request),
            request.query@.len() == 0 ==> r is Err && r->Err_0@ == MISSING_QUERY@,
            r matches Ok(call) ==> keys_distinct(call.params.deep_view()),
    {
        proof {
            lemma_search_keys_are_distinct(request);
        }
        if request.query.as_str().is_empty() {
            return Err(String::from_str(MISSING_QUERY));
        }
        self.request("search", search_parameters(request))
    }
}

} // verus!
