//! Request and response shapes of the API.
//!
//! Every response shape has a view, its mathematical model: texts are
//! sequences of characters and lists are sequences. The contracts of the
//! decoders speak of the views.

use vstd::prelude::*;

verus! {

/// The request for the events of a date.
#[derive(Debug)]
pub struct GetEventsRequest {
    /// Date to get the events for. Defaults to today.
    pub date: Option<String>,
    /// Include events that may be unsafe for viewing at work or by children. Default is false.
    pub adult: Option<bool>,
    /// IANA time zone for calculating dates and times. Defaults to America/Chicago.
    pub timezone: Option<String>,
}

/// The request for the details of one event.
#[derive(Debug)]
pub struct GetEventInfoRequest {
    /// The id of the requested event.
    pub id: String,
    /// The starting range of returned occurrences. Optional, defaults to 2 years prior.
    pub start: Option<i32>,
    /// The ending range of returned occurrences. Optional, defaults to 3 years in the future.
    pub end: Option<i32>,
}

/// The request for a search.
#[derive(Debug)]
pub struct SearchRequest {
    /// The search query. Must be at least 3 characters long.
    pub query: String,
    /// Include events that may be unsafe for viewing at work or by children. Default is false.
    pub adult: Option<bool>,
}

/// Your API plan's current rate limit and status.
///
/// The limit is never part of a response body; it is read from the reply
/// headers and attached to the decoded response afterwards.
#[derive(Debug, Clone, Copy, PartialEq, Eq, Structural)]
pub struct RateLimit {
    /// The amount of requests allowed this month.
    pub limit_month: i32,
    /// The amount of requests remaining this month.
    pub remaining_month: i32,
}

impl Default for RateLimit {
    fn default() -> (r: RateLimit)
        ensures
            r == RateLimit::zero(),
    {
        RateLimit { limit_month: 0, remaining_month: 0 }
    }
}

impl RateLimit {
    /// The limit a response carries when the reply named none.
    pub open spec fn zero() -> RateLimit {
        RateLimit { limit_month: 0, remaining_month: 0 }
    }
}

impl DeepView for RateLimit {
    type V = RateLimit;

    open spec fn deep_view(&self) -> RateLimit {
        *self
    }
}

/// A date as the API reports it: a calendar date as text, or a timestamp in
/// seconds. Which one it is follows from the JSON type of the value; neither
/// is ever converted into the other.
#[derive(Debug, PartialEq)]
pub enum DateOrTimestamp {
    /// A calendar date, as the API wrote it.
    Date(String),
    /// Seconds since the epoch; negative before it.
    Timestamp(i64),
}

/// The model of a [`DateOrTimestamp`].
#[verifier::ext_equal]
pub enum DateOrTimestampView {
    Date(Seq<char>),
    Timestamp(i64),
}

impl DeepView for DateOrTimestamp {
    type V = DateOrTimestampView;

    open spec fn deep_view(&self) -> DateOrTimestampView {
        match self {
            DateOrTimestamp::Date(text) => DateOrTimestampView::Date(text@),
            DateOrTimestamp::Timestamp(seconds) => DateOrTimestampView::Timestamp(*seconds),
        }
    }
}

/// The response to a request for the events of a date.
#[derive(Debug, PartialEq)]
pub struct GetEventsResponse {
    /// Whether adult entries can be included.
    pub adult: bool,
    /// The date string or timestamp.
    pub date: DateOrTimestamp,
    /// The time zone used to calculate the date's events.
    pub timezone: String,
    /// The date's events.
    pub events: Vec<EventSummary>,
    /// Multi-day events that start on the date.
    pub multiday_starting: Vec<EventSummary>,
    /// Multi-day events that are continuing their observance on the date.
    pub multiday_ongoing: Vec<EventSummary>,
    /// The rate limit reported with the reply; never read from the body.
    pub rate_limit: RateLimit,
}

/// The model of a [`GetEventsResponse`].
#[verifier::ext_equal]
pub struct GetEventsResponseView {
    pub adult: bool,
    pub date: DateOrTimestampView,
    pub timezone: Seq<char>,
    pub events: Seq<EventSummaryView>,
    pub multiday_starting: Seq<EventSummaryView>,
    pub multiday_ongoing: Seq<EventSummaryView>,
    pub rate_limit: RateLimit,
}

impl DeepView for GetEventsResponse {
    type V = GetEventsResponseView;

    open spec fn deep_view(&self) -> GetEventsResponseView {
        GetEventsResponseView {
            adult: self.adult,
            date: self.date.deep_view(),
            timezone: self.timezone.deep_view(),
            events: self.events.deep_view(),
            multiday_starting: self.multiday_starting.deep_view(),
            multiday_ongoing: self.multiday_ongoing.deep_view(),
            rate_limit: self.rate_limit,
        }
    }
}

/// The response to a request for the details of one event.
#[derive(Debug, PartialEq)]
pub struct GetEventInfoResponse {
    /// The event's details.
    pub event: EventInfo,
    /// The rate limit reported with the reply; never read from the body.
    pub rate_limit: RateLimit,
}

/// The model of a [`GetEventInfoResponse`].
#[verifier::ext_equal]
pub struct GetEventInfoResponseView {
    pub event: EventInfoView,
    pub rate_limit: RateLimit,
}

impl DeepView for GetEventInfoResponse {
    type V = GetEventInfoResponseView;

    open spec fn deep_view(&self) -> GetEventInfoResponseView {
        GetEventInfoResponseView {
            event: self.event.deep_view(),
            rate_limit: self.rate_limit,
        }
    }
}

/// The response to a search.
#[derive(Debug, PartialEq)]
pub struct SearchResponse {
    /// The search query.
    pub query: String,
    /// Whether adult entries can be included.
    pub adult: bool,
    /// The events found.
    pub events: Vec<EventSummary>,
    /// The rate limit reported with the reply; never read from the body.
    pub rate_limit: RateLimit,
}

/// The model of a [`SearchResponse`].
#[verifier::ext_equal]
pub struct SearchResponseView {
    pub query: Seq<char>,
    pub adult: bool,
    pub events: Seq<EventSummaryView>,
    pub rate_limit: RateLimit,
}

impl DeepView for SearchResponse {
    type V = SearchResponseView;

    open spec fn deep_view(&self) -> SearchResponseView {
        SearchResponseView {
            query: self.query.deep_view(),
            adult: self.adult,
            events: self.events.deep_view(),
            rate_limit: self.rate_limit,
        }
    }
}

/// Information about an event.
#[derive(Debug, PartialEq)]
pub struct EventInfo {
    /// The event id.
    pub id: String,
    /// The event name.
    pub name: String,
    /// The event URL.
    pub url: String,
    /// Whether this event is unsafe for children or viewing at work.
    pub adult: bool,
    /// The event's alternate names.
    pub alternate_names: Vec<AlternateName>,
    /// The event's hashtags.
    pub hashtags: Option<Vec<String>>,
    /// The event's images.
    pub image: Option<ImageInfo>,
    /// The event's sources.
    pub sources: Option<Vec<String>>,
    /// The event's description.
    pub description: Option<RichText>,
    /// How to observe the event.
    pub how_to_observe: Option<RichText>,
    /// Patterns defining when the event is observed.
    pub patterns: Option<Vec<Pattern>>,
    /// The event's occurrences (when it occurs).
    pub occurrences: Option<Vec<Occurrence>>,
    /// The event's founders.
    pub founders: Option<Vec<FounderInfo>>,
    /// The event's analytics.
    pub analytics: Option<Analytics>,
    /// The event's tags.
    pub tags: Option<Vec<Tag>>,
}

/// The model of an [`EventInfo`].
#[verifier::ext_equal]
pub struct EventInfoView {
    pub id: Seq<char>,
    pub name: Seq<char>,
    pub url: Seq<char>,
    pub adult: bool,
    pub alternate_names: Seq<AlternateNameView>,
    pub hashtags: Option<Seq<Seq<char>>>,
    pub image: Option<ImageInfoView>,
    pub sources: Option<Seq<Seq<char>>>,
    pub description: Option<RichTextView>,
    pub how_to_observe: Option<RichTextView>,
    pub patterns: Option<Seq<PatternView>>,
    pub occurrences: Option<Seq<OccurrenceView>>,
    pub founders: Option<Seq<FounderInfoView>>,
    pub analytics: Option<AnalyticsView>,
    pub tags: Option<Seq<TagView>>,
}

impl DeepView for EventInfo {
    type V = EventInfoView;

    open spec fn deep_view(&self) -> EventInfoView {
        EventInfoView {
            id: self.id.deep_view(),
            name: self.name.deep_view(),
            url: self.url.deep_view(),
            adult: self.adult,
            alternate_names: self.alternate_names.deep_view(),
            hashtags: self.hashtags.deep_view(),
            image: self.image.deep_view(),
            sources: self.sources.deep_view(),
            description: self.description.deep_view(),
            how_to_observe: self.how_to_observe.deep_view(),
            patterns: self.patterns.deep_view(),
            occurrences: self.occurrences.deep_view(),
            founders: self.founders.deep_view(),
            analytics: self.analytics.deep_view(),
            tags: self.tags.deep_view(),
        }
    }
}

/// Information about an event's pattern.
#[derive(Debug, PartialEq)]
pub struct Pattern {
    /// The first year this event is observed (`None` implies none or unknown).
    pub first_year: Option<i32>,
    /// The last year this event is observed (`None` implies none or unknown).
    pub last_year: Option<i32>,
    /// A description of how this event is observed (formatted as plain text).
    pub observed: String,
    /// A description of how this event is observed (formatted as HTML).
    pub observed_html: String,
    /// A description of how this event is observed (formatted as Markdown).
    pub observed_markdown: String,
    /// For how many days this event is celebrated.
    pub length: i32,
}

/// The model of a [`Pattern`].
#[verifier::ext_equal]
pub struct PatternView {
    pub first_year: Option<i32>,
    pub last_year: Option<i32>,
    pub observed: Seq<char>,
    pub observed_html: Seq<char>,
    pub observed_markdown: Seq<char>,
    pub length: i32,
}

impl DeepView for Pattern {
    type V = PatternView;

    open spec fn deep_view(&self) -> PatternView {
        PatternView {
            first_year: self.first_year.deep_view(),
            last_year: self.last_year.deep_view(),
            observed: self.observed.deep_view(),
            observed_html: self.observed_html.deep_view(),
            observed_markdown: self.observed_markdown.deep_view(),
            length: self.length,
        }
    }
}

/// Information about an event's occurrence.
#[derive(Debug, PartialEq)]
pub struct Occurrence {
    /// The date or timestamp the event occurs.
    pub date: DateOrTimestamp,
    /// The length (in days) of the event occurrence.
    pub length: i32,
}

/// The model of an [`Occurrence`].
#[verifier::ext_equal]
pub struct OccurrenceView {
    pub date: DateOrTimestampView,
    pub length: i32,
}

impl DeepView for Occurrence {
    type V = OccurrenceView;

    open spec fn deep_view(&self) -> OccurrenceView {
        OccurrenceView {
            date: self.date.deep_view(),
            length: self.length,
        }
    }
}

/// Information about an event's alternate name.
#[derive(Debug, PartialEq)]
pub struct AlternateName {
    /// An event's alternate name.
    pub name: String,
    /// The first year this alternate name was in effect (`None` implies none or unknown).
    pub first_year: Option<i32>,
    /// The last year this alternate name was in effect (`None` implies none or unknown).
    pub last_year: Option<i32>,
}

/// The model of an [`AlternateName`].
#[verifier::ext_equal]
pub struct AlternateNameView {
    pub name: Seq<char>,
    pub first_year: Option<i32>,
    pub last_year: Option<i32>,
}

impl DeepView for AlternateName {
    type V = AlternateNameView;

    open spec fn deep_view(&self) -> AlternateNameView {
        AlternateNameView {
            name: self.name.deep_view(),
            first_year: self.first_year.deep_view(),
            last_year: self.last_year.deep_view(),
        }
    }
}

/// Formatted text.
#[derive(Debug, PartialEq)]
pub struct RichText {
    /// Formatted as plain text.
    pub text: Option<String>,
    /// Formatted as HTML.
    pub html: Option<String>,
    /// Formatted as Markdown.
    pub markdown: Option<String>,
}

/// The model of a [`RichText`].
#[verifier::ext_equal]
pub struct RichTextView {
    pub text: Option<Seq<char>>,
    pub html: Option<Seq<char>>,
    pub markdown: Option<Seq<char>>,
}

impl DeepView for RichText {
    type V = RichTextView;

    open spec fn deep_view(&self) -> RichTextView {
        RichTextView {
            text: self.text.deep_view(),
            html: self.html.deep_view(),
            markdown: self.markdown.deep_view(),
        }
    }
}

/// A summary of an event.
#[derive(Debug, PartialEq)]
pub struct EventSummary {
    /// The event id.
    pub id: String,
    /// The event name.
    pub name: String,
    /// The event URL.
    pub url: String,
}

/// The model of an [`EventSummary`].
#[verifier::ext_equal]
pub struct EventSummaryView {
    pub id: Seq<char>,
    pub name: Seq<char>,
    pub url: Seq<char>,
}

impl DeepView for EventSummary {
    type V = EventSummaryView;

    open spec fn deep_view(&self) -> EventSummaryView {
        EventSummaryView {
            id: self.id.deep_view(),
            name: self.name.deep_view(),
            url: self.url.deep_view(),
        }
    }
}

/// Information about an event image.
#[derive(Debug, PartialEq)]
pub struct ImageInfo {
    /// A small image.
    pub small: String,
    /// A medium image.
    pub medium: String,
    /// A large image.
    pub large: String,
}

/// The model of an [`ImageInfo`].
#[verifier::ext_equal]
pub struct ImageInfoView {
    pub small: Seq<char>,
    pub medium: Seq<char>,
    pub large: Seq<char>,
}

impl DeepView for ImageInfo {
    type V = ImageInfoView;

    open spec fn deep_view(&self) -> ImageInfoView {
        ImageInfoView {
            small: self.small.deep_view(),
            medium: self.medium.deep_view(),
            large: self.large.deep_view(),
        }
    }
}

/// Information about an event founder.
#[derive(Debug, PartialEq)]
pub struct FounderInfo {
    /// The founder's name.
    pub name: String,
    /// A link to the founder.
    pub url: Option<String>,
    /// The date the event was founded.
    pub date: Option<String>,
}

/// The model of a [`FounderInfo`].
#[verifier::ext_equal]
pub struct FounderInfoView {
    pub name: Seq<char>,
    pub url: Option<Seq<char>>,
    pub date: Option<Seq<char>>,
}

impl DeepView for FounderInfo {
    type V = FounderInfoView;

    open spec fn deep_view(&self) -> FounderInfoView {
        FounderInfoView {
            name: self.name.deep_view(),
            url: self.url.deep_view(),
            date: self.date.deep_view(),
        }
    }
}

/// Analytics about an event.
#[derive(Debug, PartialEq)]
pub struct Analytics {
    /// The event's overall rank. #1 is the most popular.
    pub overall_rank: i32,
    /// The event's social rank. #1 is the most popular.
    pub social_rank: i32,
    /// The number of social shares involving this event.
    pub social_shares: i32,
    /// The event's popularity, as stars from 0-5.
    pub popularity: String,
}

/// The model of an [`Analytics`].
#[verifier::ext_equal]
pub struct AnalyticsView {
    pub overall_rank: i32,
    pub social_rank: i32,
    pub social_shares: i32,
    pub popularity: Seq<char>,
}

impl DeepView for Analytics {
    type V = AnalyticsView;

    open spec fn deep_view(&self) -> AnalyticsView {
        AnalyticsView {
            overall_rank: self.overall_rank,
            social_rank: self.social_rank,
            social_shares: self.social_shares,
            popularity: self.popularity.deep_view(),
        }
    }
}

/// A tag that categorizes an event.
#[derive(Debug, PartialEq)]
pub struct Tag {
    /// The tag's name.
    pub name: String,
}

/// The model of a [`Tag`].
#[verifier::ext_equal]
pub struct TagView {
    pub name: Seq<char>,
}

impl DeepView for Tag {
    type V = TagView;

    open spec fn deep_view(&self) -> TagView {
        TagView {
            name: self.name.deep_view(),
        }
    }
}

/// A response that can be given the rate limit of the reply it came from.
pub trait RateLimited: Sized + DeepView {
    /// The rate limit that a response with the model `view` carries.
    spec fn rate_limit_of(view: Self::V) -> RateLimit;

    /// The model `view` with `rate_limit` in place of the limit it carries,
    /// and nothing else changed.
    spec fn with_rate_limit(view: Self::V, rate_limit: RateLimit) -> Self::V;

    /// Attaching a rate limit overwrites the one attached before: what a
    /// response carries is the limit it was given last, and an earlier
    /// attachment leaves no trace.
    proof fn lemma_rate_limit_is_overwritten(view: Self::V, first: RateLimit, last: RateLimit)
        ensures
            Self::rate_limit_of(Self::with_rate_limit(view, last)) == last,
            Self::with_rate_limit(Self::with_rate_limit(view, first), last)
                == Self::with_rate_limit(view, last),
    ;

    /// Stores `rate_limit`, overwriting the limit stored before and leaving
    /// the rest of the response as it was.
    fn set_rate_limit(&mut self, rate_limit: RateLimit)
        ensures
            final(self).deep_view() == Self::with_rate_limit(old(self).deep_view(), rate_limit),
            Self::rate_limit_of(final(self).deep_view()) == rate_limit,
    ;
}

impl RateLimited for GetEventsResponse {
    open spec fn rate_limit_of(view: GetEventsResponseView) -> RateLimit {
        view.rate_limit
    }

    open spec fn with_rate_limit(view: GetEventsResponseView, rate_limit: RateLimit) -> GetEventsResponseView {
        GetEventsResponseView { rate_limit, ..view }
    }

    proof fn lemma_rate_limit_is_overwritten(view: GetEventsResponseView, first: RateLimit, last: RateLimit) {
    }

    fn set_rate_limit(&mut self, rate_limit: RateLimit) {
        self.rate_limit = rate_limit;
    }
}

impl RateLimited for GetEventInfoResponse {
    open spec fn rate_limit_of(view: GetEventInfoResponseView) -> RateLimit {
        view.rate_limit
    }

    open spec fn with_rate_limit(view: GetEventInfoResponseView, rate_limit: RateLimit) -> GetEventInfoResponseView {
        GetEventInfoResponseView { rate_limit, ..view }
    }

    proof fn lemma_rate_limit_is_overwritten(view: GetEventInfoResponseView, first: RateLimit, last: RateLimit) {
    }

    fn set_rate_limit(&mut self, rate_limit: RateLimit) {
        self.rate_limit = rate_limit;
    }
}

impl RateLimited for SearchResponse {
    open spec fn rate_limit_of(view: SearchResponseView) -> RateLimit {
        view.rate_limit
    }

    open spec fn with_rate_limit(view: SearchResponseView, rate_limit: RateLimit) -> SearchResponseView {
        SearchResponseView { rate_limit, ..view }
    }

    proof fn lemma_rate_limit_is_overwritten(view: SearchResponseView, first: RateLimit, last: RateLimit) {
    }

    fn set_rate_limit(&mut self, rate_limit: RateLimit) {
        self.rate_limit = rate_limit;
    }
}

} // verus!
