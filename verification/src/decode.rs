//! Decoders from JSON values to the response shapes.
//!
//! A shape decodes from an object. Its members are read by name, in the
//! order in which the shape declares them, and the first one that fails gives
//! the error. A member of optional type may be absent or `null`; members
//! that the shape does not name are ignored.

use vstd::prelude::*;

use crate::json::{
    optional, optional_field, required, required_field, DecodeError, FromJson, Json, JsonView,
};
use crate::model::{
    AlternateName, AlternateNameView, Analytics, AnalyticsView, DateOrTimestamp,
    DateOrTimestampView, EventInfo, EventInfoView, EventSummary, EventSummaryView, FounderInfo,
    FounderInfoView, GetEventInfoResponse, GetEventInfoResponseView, GetEventsResponse,
    GetEventsResponseView, ImageInfo, ImageInfoView, Occurrence, OccurrenceView, Pattern,
    PatternView, RateLimit, RichText, RichTextView, SearchResponse, SearchResponseView, Tag,
    TagView,
};

verus! {

impl FromJson for DateOrTimestamp {
    /// A string is a date and an integer is a timestamp; nothing else is
    /// either. The value is kept as it is: an integer beyond the signed
    /// 64-bit range is no timestamp and is refused.
    open spec fn decoded(json: JsonView) -> Result<DateOrTimestampView, DecodeError> {
        match json {
            JsonView::Str(text) => Ok(DateOrTimestampView::Date(text)),
            JsonView::PosInt(n) => if n <= i64::MAX {
                Ok(DateOrTimestampView::Timestamp(n as i64))
            } else {
                Err(DecodeError::InvalidValue("i64"))
            },
            JsonView::NegInt(n) => Ok(DateOrTimestampView::Timestamp(n)),
            _ => Err(DecodeError::InvalidType("OccurrenceDate as a number or string")),
        }
    }

    fn from_json(json: &Json) -> (r: Result<DateOrTimestamp, DecodeError>) {
        match json {
            Json::Str(text) => Ok(DateOrTimestamp::Date(text.clone())),
            Json::PosInt(n) => if *n <= 9223372036854775807 {
                Ok(DateOrTimestamp::Timestamp(*n as i64))
            } else {
                Err(DecodeError::InvalidValue("i64"))
            },
            Json::NegInt(n) => Ok(DateOrTimestamp::Timestamp(*n)),
            _ => Err(DecodeError::InvalidType("OccurrenceDate as a number or string")),
        }
    }
}

impl FromJson for EventSummary {
    open spec fn decoded(json: JsonView) -> Result<EventSummaryView, DecodeError> {
        let id = required_field::<String>(json, "id");
        let name = required_field::<String>(json, "name");
        let url = required_field::<String>(json, "url");
        if !(json is Object) {
            Err(DecodeError::InvalidType("struct EventSummary"))
        } else if id is Err {
            Err(id->Err_0)
        } else if name is Err {
            Err(name->Err_0)
        } else if url is Err {
            Err(url->Err_0)
        } else {
            Ok(
                EventSummaryView {
                    id: id->Ok_0,
                    name: name->Ok_0,
                    url: url->Ok_0,
                },
            )
        }
    }

    fn from_json(json: &Json) -> (r: Result<EventSummary, DecodeError>) {
        match json {
            Json::Object(_) => {
                let id = required::<String>(json, "id")?;
                let name = required::<String>(json, "name")?;
                let url = required::<String>(json, "url")?;
                Ok(EventSummary { id, name, url })
            },
            _ => Err(DecodeError::InvalidType("struct EventSummary")),
        }
    }
}

impl FromJson for AlternateName {
    open spec fn decoded(json: JsonView) -> Result<AlternateNameView, DecodeError> {
        let name = required_field::<String>(json, "name");
        let first_year = optional_field::<i32>(json, "first_year");
        let last_year = optional_field::<i32>(json, "last_year");
        if !(json is Object) {
            Err(DecodeError::InvalidType("struct AlternateName"))
        } else if name is Err {
            Err(name->Err_0)
        } else if first_year is Err {
            Err(first_year->Err_0)
        } else if last_year is Err {
            Err(last_year->Err_0)
        } else {
            Ok(
                AlternateNameView {
                    name: name->Ok_0,
                    first_year: first_year->Ok_0,
                    last_year: last_year->Ok_0,
                },
            )
        }
    }

    fn from_json(json: &Json) -> (r: Result<AlternateName, DecodeError>) {
        match json {
            Json::Object(_) => {
                let name = required::<String>(json, "name")?;
                let first_year = optional::<i32>(json, "first_year")?;
                let last_year = optional::<i32>(json, "last_year")?;
                Ok(AlternateName { name, first_year, last_year })
            },
            _ => Err(DecodeError::InvalidType("struct AlternateName")),
        }
    }
}

impl FromJson for RichText {
    open spec fn decoded(json: JsonView) -> Result<RichTextView, DecodeError> {
        let text = optional_field::<String>(json, "text");
        let html = optional_field::<String>(json, "html");
        let markdown = optional_field::<String>(json, "markdown");
        if !(json is Object) {
            Err(DecodeError::InvalidType("struct RichText"))
        } else if text is Err {
            Err(text->Err_0)
        } else if html is Err {
            Err(html->Err_0)
        } else if markdown is Err {
            Err(markdown->Err_0)
        } else {
            Ok(
                RichTextView {
                    text: text->Ok_0,
                    html: html->Ok_0,
                    markdown: markdown->Ok_0,
                },
            )
        }
    }

    fn from_json(json: &Json) -> (r: Result<RichText, DecodeError>) {
        match json {
            Json::Object(_) => {
                let text = optional::<String>(json, "text")?;
                let html = optional::<String>(json, "html")?;
                let markdown = optional::<String>(json, "markdown")?;
                Ok(RichText { text, html, markdown })
            },
            _ => Err(DecodeError::InvalidType("struct RichText")),
        }
    }
}

impl FromJson for ImageInfo {
    open spec fn decoded(json: JsonView) -> Result<ImageInfoView, DecodeError> {
        let small = required_field::<String>(json, "small");
        let medium = required_field::<String>(json, "medium");
        let large = required_field::<String>(json, "large");
        if !(json is Object) {
            Err(DecodeError::InvalidType("struct ImageInfo"))
        } else if small is Err {
            Err(small->Err_0)
        } else if medium is Err {
            Err(medium->Err_0)
        } else if large is Err {
            Err(large->Err_0)
        } else {
            Ok(
                ImageInfoView {
                    small: small->Ok_0,
                    medium: medium->Ok_0,
                    large: large->Ok_0,
                },
            )
        }
    }

    fn from_json(json: &Json) -> (r: Result<ImageInfo, DecodeError>) {
        match json {
            Json::Object(_) => {
                let small = required::<String>(json, "small")?;
                let medium = required::<String>(json, "medium")?;
                let large = required::<String>(json, "large")?;
                Ok(ImageInfo { small, medium, large })
            },
            _ => Err(DecodeError::InvalidType("struct ImageInfo")),
        }
    }
}

impl FromJson for FounderInfo {
    open spec fn decoded(json: JsonView) -> Result<FounderInfoView, DecodeError> {
        let name = required_field::<String>(json, "name");
        let url = optional_field::<String>(json, "url");
        let date = optional_field::<String>(json, "date");
        if !(json is Object) {
            Err(DecodeError::InvalidType("struct FounderInfo"))
        } else if name is Err {
            Err(name->Err_0)
        } else if url is Err {
            Err(url->Err_0)
        } else if date is Err {
            Err(date->Err_0)
        } else {
            Ok(
                FounderInfoView {
                    name: name->Ok_0,
                    url: url->Ok_0,
                    date: date->Ok_0,
                },
            )
        }
    }

    fn from_json(json: &Json) -> (r: Result<FounderInfo, DecodeError>) {
        match json {
            Json::Object(_) => {
                let name = required::<String>(json, "name")?;
                let url = optional::<String>(json, "url")?;
                let date = optional::<String>(json, "date")?;
                Ok(FounderInfo { name, url, date })
            },
            _ => Err(DecodeError::InvalidType("struct FounderInfo")),
        }
    }
}

impl FromJson for Analytics {
    open spec fn decoded(json: JsonView) -> Result<AnalyticsView, DecodeError> {
        let overall_rank = required_field::<i32>(json, "overall_rank");
        let social_rank = required_field::<i32>(json, "social_rank");
        let social_shares = required_field::<i32>(json, "social_shares");
        let popularity = required_field::<String>(json, "popularity");
        if !(json is Object) {
            Err(DecodeError::InvalidType("struct Analytics"))
        } else if overall_rank is Err {
            Err(overall_rank->Err_0)
        } else if social_rank is Err {
            Err(social_rank->Err_0)
        } else if social_shares is Err {
            Err(social_shares->Err_0)
        } else if popularity is Err {
            Err(popularity->Err_0)
        } else {
            Ok(
                AnalyticsView {
                    overall_rank: overall_rank->Ok_0,
                    social_rank: social_rank->Ok_0,
                    social_shares: social_shares->Ok_0,
                    popularity: popularity->Ok_0,
                },
            )
        }
    }

    fn from_json(json: &Json) -> (r: Result<Analytics, DecodeError>) {
        match json {
            Json::Object(_) => {
                let overall_rank = required::<i32>(json, "overall_rank")?;
                let social_rank = required::<i32>(json, "social_rank")?;
                let social_shares = required::<i32>(json, "social_shares")?;
                let popularity = required::<String>(json, "popularity")?;
                Ok(Analytics { overall_rank, social_rank, social_shares, popularity })
            },
            _ => Err(DecodeError::InvalidType("struct Analytics")),
        }
    }
}

impl FromJson for Tag {
    open spec fn decoded(json: JsonView) -> Result<TagView, DecodeError> {
        let name = required_field::<String>(json, "name");
        if !(json is Object) {
            Err(DecodeError::InvalidType("struct Tag"))
        } else if name is Err {
            Err(name->Err_0)
        } else {
            Ok(
                TagView {
                    name: name->Ok_0,
                },
            )
        }
    }

    fn from_json(json: &Json) -> (r: Result<Tag, DecodeError>) {
        match json {
            Json::Object(_) => {
                let name = required::<String>(json, "name")?;
                Ok(Tag { name })
            },
            _ => Err(DecodeError::InvalidType("struct Tag")),
        }
    }
}

impl FromJson for Pattern {
    open spec fn decoded(json: JsonView) -> Result<PatternView, DecodeError> {
        let first_year = optional_field::<i32>(json, "first_year");
        let last_year = optional_field::<i32>(json, "last_year");
        let observed = required_field::<String>(json, "observed");
        let observed_html = required_field::<String>(json, "observed_html");
        let observed_markdown = required_field::<String>(json, "observed_markdown");
        let length = required_field::<i32>(json, "length");
        if !(json is Object) {
            Err(DecodeError::InvalidType("struct Pattern"))
        } else if first_year is Err {
            Err(first_year->Err_0)
        } else if last_year is Err {
            Err(last_year->Err_0)
        } else if observed is Err {
            Err(observed->Err_0)
        } else if observed_html is Err {
            Err(observed_html->Err_0)
        } else if observed_markdown is Err {
            Err(observed_markdown->Err_0)
        } else if length is Err {
            Err(length->Err_0)
        } else {
            Ok(
                PatternView {
                    first_year: first_year->Ok_0,
                    last_year: last_year->Ok_0,
                    observed: observed->Ok_0,
                    observed_html: observed_html->Ok_0,
                    observed_markdown: observed_markdown->Ok_0,
                    length: length->Ok_0,
                },
            )
        }
    }

    fn from_json(json: &Json) -> (r: Result<Pattern, DecodeError>) {
        match json {
            Json::Object(_) => {
                let first_year = optional::<i32>(json, "first_year")?;
                let last_year = optional::<i32>(json, "last_year")?;
                let observed = required::<String>(json, "observed")?;
                let observed_html = required::<String>(json, "observed_html")?;
                let observed_markdown = required::<String>(json, "observed_markdown")?;
                let length = required::<i32>(json, "length")?;
                Ok(
                    Pattern {
                        first_year,
                        last_year,
                        observed,
                        observed_html,
                        observed_markdown,
                        length,
                    },
                )
            },
            _ => Err(DecodeError::InvalidType("struct Pattern")),
        }
    }
}

impl FromJson for Occurrence {
    open spec fn decoded(json: JsonView) -> Result<OccurrenceView, DecodeError> {
        let date = required_field::<DateOrTimestamp>(json, "date");
        let length = required_field::<i32>(json, "length");
        if !(json is Object) {
            Err(DecodeError::InvalidType("struct Occurrence"))
        } else if date is Err {
            Err(date->Err_0)
        } else if length is Err {
            Err(length->Err_0)
        } else {
            Ok(
                OccurrenceView {
                    date: date->Ok_0,
                    length: length->Ok_0,
                },
            )
        }
    }

    fn from_json(json: &Json) -> (r: Result<Occurrence, DecodeError>) {
        match json {
            Json::Object(_) => {
                let date = required::<DateOrTimestamp>(json, "date")?;
                let length = required::<i32>(json, "length")?;
                Ok(Occurrence { date, length })
            },
            _ => Err(DecodeError::InvalidType("struct Occurrence")),
        }
    }
}

impl FromJson for EventInfo {
    open spec fn decoded(json: JsonView) -> Result<EventInfoView, DecodeError> {
        let id = required_field::<String>(json, "id");
        let name = required_field::<String>(json, "name");
        let url = required_field::<String>(json, "url");
        let adult = required_field::<bool>(json, "adult");
        let alternate_names = required_field::<Vec<AlternateName>>(json, "alternate_names");
        let hashtags = optional_field::<Vec<String>>(json, "hashtags");
        let image = optional_field::<ImageInfo>(json, "image");
        let sources = optional_field::<Vec<String>>(json, "sources");
        let description = optional_field::<RichText>(json, "description");
        let how_to_observe = optional_field::<RichText>(json, "how_to_observe");
        let patterns = optional_field::<Vec<Pattern>>(json, "patterns");
        let occurrences = optional_field::<Vec<Occurrence>>(json, "occurrences");
        let founders = optional_field::<Vec<FounderInfo>>(json, "founders");
        let analytics = optional_field::<Analytics>(json, "analytics");
        let tags = optional_field::<Vec<Tag>>(json, "tags");
        if !(json is Object) {
            Err(DecodeError::InvalidType("struct EventInfo"))
        } else if id is Err {
            Err(id->Err_0)
        } else if name is Err {
            Err(name->Err_0)
        } else if url is Err {
            Err(url->Err_0)
        } else if adult is Err {
            Err(adult->Err_0)
        } else if alternate_names is Err {
            Err(alternate_names->Err_0)
        } else if hashtags is Err {
            Err(hashtags->Err_0)
        } else if image is Err {
            Err(image->Err_0)
        } else if sources is Err {
            Err(sources->Err_0)
        } else if description is Err {
            Err(description->Err_0)
        } else if how_to_observe is Err {
            Err(how_to_observe->Err_0)
        } else if patterns is Err {
            Err(patterns->Err_0)
        } else if occurrences is Err {
            Err(occurrences->Err_0)
        } else if founders is Err {
            Err(founders->Err_0)
        } else if analytics is Err {
            Err(analytics->Err_0)
        } else if tags is Err {
            Err(tags->Err_0)
        } else {
            Ok(
                EventInfoView {
                    id: id->Ok_0,
                    name: name->Ok_0,
                    url: url->Ok_0,
                    adult: adult->Ok_0,
                    alternate_names: alternate_names->Ok_0,
                    hashtags: hashtags->Ok_0,
                    image: image->Ok_0,
                    sources: sources->Ok_0,
                    description: description->Ok_0,
                    how_to_observe: how_to_observe->Ok_0,
                    patterns: patterns->Ok_0,
                    occurrences: occurrences->Ok_0,
                    founders: founders->Ok_0,
                    analytics: analytics->Ok_0,
                    tags: tags->Ok_0,
                },
            )
        }
    }

    fn from_json(json: &Json) -> (r: Result<EventInfo, DecodeError>) {
        match json {
            Json::Object(_) => {
                let id = required::<String>(json, "id")?;
                let name = required::<String>(json, "name")?;
                let url = required::<String>(json, "url")?;
                let adult = required::<bool>(json, "adult")?;
                let alternate_names = required::<Vec<AlternateName>>(json, "alternate_names")?;
                let hashtags = optional::<Vec<String>>(json, "hashtags")?;
                let image = optional::<ImageInfo>(json, "image")?;
                let sources = optional::<Vec<String>>(json, "sources")?;
                let description = optional::<RichText>(json, "description")?;
                let how_to_observe = optional::<RichText>(json, "how_to_observe")?;
                let patterns = optional::<Vec<Pattern>>(json, "patterns")?;
                let occurrences = optional::<Vec<Occurrence>>(json, "occurrences")?;
                let founders = optional::<Vec<FounderInfo>>(json, "founders")?;
                let analytics = optional::<Analytics>(json, "analytics")?;
                let tags = optional::<Vec<Tag>>(json, "tags")?;
                Ok(
                    EventInfo {
                        id,
                        name,
                        url,
                        adult,
                        alternate_names,
                        hashtags,
                        image,
                        sources,
                        description,
                        how_to_observe,
                        patterns,
                        occurrences,
                        founders,
                        analytics,
                        tags,
                    },
                )
            },
            _ => Err(DecodeError::InvalidType("struct EventInfo")),
        }
    }
}

impl FromJson for GetEventsResponse {
    open spec fn decoded(json: JsonView) -> Result<GetEventsResponseView, DecodeError> {
        let adult = required_field::<bool>(json, "adult");
        let date = required_field::<DateOrTimestamp>(json, "date");
        let timezone = required_field::<String>(json, "timezone");
        let events = required_field::<Vec<EventSummary>>(json, "events");
        let multiday_starting = required_field::<Vec<EventSummary>>(json, "multiday_starting");
        let multiday_ongoing = required_field::<Vec<EventSummary>>(json, "multiday_ongoing");
        if !(json is Object) {
            Err(DecodeError::InvalidType("struct GetEventsResponse"))
        } else if adult is Err {
            Err(adult->Err_0)
        } else if date is Err {
            Err(date->Err_0)
        } else if timezone is Err {
            Err(timezone->Err_0)
        } else if events is Err {
            Err(events->Err_0)
        } else if multiday_starting is Err {
            Err(multiday_starting->Err_0)
        } else if multiday_ongoing is Err {
            Err(multiday_ongoing->Err_0)
        } else {
            Ok(
                GetEventsResponseView {
                    adult: adult->Ok_0,
                    date: date->Ok_0,
                    timezone: timezone->Ok_0,
                    events: events->Ok_0,
                    multiday_starting: multiday_starting->Ok_0,
                    multiday_ongoing: multiday_ongoing->Ok_0,
                    rate_limit: RateLimit::zero(),
                },
            )
        }
    }

    fn from_json(json: &Json) -> (r: Result<GetEventsResponse, DecodeError>) {
        match json {
            Json::Object(_) => {
                let adult = required::<bool>(json, "adult")?;
                let date = required::<DateOrTimestamp>(json, "date")?;
                let timezone = required::<String>(json, "timezone")?;
                let events = required::<Vec<EventSummary>>(json, "events")?;
                let multiday_starting = required::<Vec<EventSummary>>(json, "multiday_starting")?;
                let multiday_ongoing = required::<Vec<EventSummary>>(json, "multiday_ongoing")?;
                Ok(
                    GetEventsResponse {
                        adult,
                        date,
                        timezone,
                        events,
                        multiday_starting,
                        multiday_ongoing,
                        rate_limit: RateLimit::default(),
                    },
                )
            },
            _ => Err(DecodeError::InvalidType("struct GetEventsResponse")),
        }
    }
}

impl FromJson for GetEventInfoResponse {
    open spec fn decoded(json: JsonView) -> Result<GetEventInfoResponseView, DecodeError> {
        let event = required_field::<EventInfo>(json, "event");
        if !(json is Object) {
            Err(DecodeError::InvalidType("struct GetEventInfoResponse"))
        } else if event is Err {
            Err(event->Err_0)
        } else {
            Ok(
                GetEventInfoResponseView {
                    event: event->Ok_0,
                    rate_limit: RateLimit::zero(),
                },
            )
        }
    }

    fn from_json(json: &Json) -> (r: Result<GetEventInfoResponse, DecodeError>) {
        match json {
            Json::Object(_) => {
                let event = required::<EventInfo>(json, "event")?;
                Ok(GetEventInfoResponse { event, rate_limit: RateLimit::default() })
            },
            _ => Err(DecodeError::InvalidType("struct GetEventInfoResponse")),
        }
    }
}

impl FromJson for SearchResponse {
    open spec fn decoded(json: JsonView) -> Result<SearchResponseView, DecodeError> {
        let query = required_field::<String>(json, "query");
        let adult = required_field::<bool>(json, "adult");
        let events = required_field::<Vec<EventSummary>>(json, "events");
        if !(json is Object) {
            Err(DecodeError::InvalidType("struct SearchResponse"))
        } else if query is Err {
            Err(query->Err_0)
        } else if adult is Err {
            Err(adult->Err_0)
        } else if events is Err {
            Err(events->Err_0)
        } else {
            Ok(
                SearchResponseView {
                    query: query->Ok_0,
                    adult: adult->Ok_0,
                    events: events->Ok_0,
                    rate_limit: RateLimit::zero(),
                },
            )
        }
    }

    fn from_json(json: &Json) -> (r: Result<SearchResponse, DecodeError>) {
        match json {
            Json::Object(_) => {
                let query = required::<String>(json, "query")?;
                let adult = required::<bool>(json, "adult")?;
                let events = required::<Vec<EventSummary>>(json, "events")?;
                Ok(SearchResponse { query, adult, events, rate_limit: RateLimit::default() })
            },
            _ => Err(DecodeError::InvalidType("struct SearchResponse")),
        }
    }
}

/// The JSON value that writes a date: a string for a calendar date, an
/// integer for a timestamp.
pub open spec fn date_json(date: DateOrTimestampView) -> JsonView {
    match date {
        DateOrTimestampView::Date(text) => JsonView::Str(text),
        DateOrTimestampView::Timestamp(seconds) => if seconds >= 0 {
            JsonView::PosInt(seconds as u64)
        } else {
            JsonView::NegInt(seconds)
        },
    }
}

/// Writing a date as JSON and decoding it again gives the date back, in the
/// same variant and with the same value, a negative timestamp included.
pub proof fn lemma_date_round_trip(date: DateOrTimestampView)
    ensures
        DateOrTimestamp::decoded(date_json(date)) == Ok::<DateOrTimestampView, DecodeError>(date),
{
}

/// A date decodes from a string or from an integer within the signed 64-bit
/// range, and from nothing else.
pub proof fn lemma_date_needs_string_or_integer(json: JsonView)
    ensures
        DateOrTimestamp::decoded(json) is Ok <==> json is Str || json is NegInt || (json is PosInt
            && json->PosInt_0 <= i64::MAX),
{
}

/// A date keeps what the JSON value held: a string is the date itself and
/// an integer is the timestamp itself. No integer is ever turned into
/// another one.
pub proof fn lemma_date_keeps_the_value(json: JsonView)
    requires
        DateOrTimestamp::decoded(json) is Ok,
    ensures
        json matches JsonView::Str(text) ==> DateOrTimestamp::decoded(json)->Ok_0
            == DateOrTimestampView::Date(text),
        json matches JsonView::NegInt(n) ==> DateOrTimestamp::decoded(json)->Ok_0
            == DateOrTimestampView::Timestamp(n),
        json matches JsonView::PosInt(n) ==> DateOrTimestamp::decoded(json)->Ok_0 matches DateOrTimestampView::Timestamp(
            seconds,
        ) && seconds == n,
{
}

/// Whether `name` names a member of an event that may be left out.
pub open spec fn is_optional_group(name: Seq<char>) -> bool {
    ||| name == "hashtags"@
    ||| name == "image"@
    ||| name == "sources"@
    ||| name == "description"@
    ||| name == "how_to_observe"@
    ||| name == "patterns"@
    ||| name == "occurrences"@
    ||| name == "founders"@
    ||| name == "analytics"@
    ||| name == "tags"@
}

/// The event `event` without the optional group `name`.
pub open spec fn without_group(event: EventInfoView, name: Seq<char>) -> EventInfoView {
    EventInfoView {
        hashtags: if name == "hashtags"@ {
            None
        } else {
            event.hashtags
        },
        image: if name == "image"@ {
            None
        } else {
            event.image
        },
        sources: if name == "sources"@ {
            None
        } else {
            event.sources
        },
        description: if name == "description"@ {
            None
        } else {
            event.description
        },
        how_to_observe: if name == "how_to_observe"@ {
            None
        } else {
            event.how_to_observe
        },
        patterns: if name == "patterns"@ {
            None
        } else {
            event.patterns
        },
        occurrences: if name == "occurrences"@ {
            None
        } else {
            event.occurrences
        },
        founders: if name == "founders"@ {
            None
        } else {
            event.founders
        },
        analytics: if name == "analytics"@ {
            None
        } else {
            event.analytics
        },
        tags: if name == "tags"@ {
            None
        } else {
            event.tags
        },
        ..event
    }
}

proof fn lemma_member_names_differ()
    ensures
        "id"@.len() == 2,
        "name"@.len() == 4,
        "url"@.len() == 3,
        "adult"@.len() == 5,
        "alternate_names"@.len() == 15,
        "hashtags"@.len() == 8,
        "image"@.len() == 5,
        "sources"@.len() == 7,
        "description"@.len() == 11,
        "how_to_observe"@.len() == 14,
        "patterns"@.len() == 8,
        "occurrences"@.len() == 11,
        "founders"@.len() == 8,
        "analytics"@.len() == 9,
        "tags"@.len() == 4,
        "name"@[0] == 'n',
        "tags"@[0] == 't',
        "adult"@[0] == 'a',
        "image"@[0] == 'i',
        "hashtags"@[0] == 'h',
        "patterns"@[0] == 'p',
        "founders"@[0] == 'f',
        "description"@[0] == 'd',
        "occurrences"@[0] == 'o',
{
    reveal_strlit("id");
    reveal_strlit("name");
    reveal_strlit("url");
    reveal_strlit("adult");
    reveal_strlit("alternate_names");
    reveal_strlit("hashtags");
    reveal_strlit("image");
    reveal_strlit("sources");
    reveal_strlit("description");
    reveal_strlit("how_to_observe");
    reveal_strlit("patterns");
    reveal_strlit("occurrences");
    reveal_strlit("founders");
    reveal_strlit("analytics");
    reveal_strlit("tags");
}

/// The optional groups of an event are independent of one another and of
/// the rest: where a body decodes, the same body without one optional group
/// decodes too, and to the same event but for that group, which is absent.
pub proof fn lemma_optional_groups_are_independent(
    full: JsonView,
    reduced: JsonView,
    name: Seq<char>,
)
    requires
        full is Object,
        reduced is Object,
        is_optional_group(name),
        reduced.field(name) is None,
        forall|key: Seq<char>| key != name ==> #[trigger] full.field(key) == reduced.field(key),
        EventInfo::decoded(full) is Ok,
    ensures
        EventInfo::decoded(reduced) == Ok::<EventInfoView, DecodeError>(
            without_group(EventInfo::decoded(full)->Ok_0, name),
        ),
{
    lemma_member_names_differ();
    assert("id"@ != name ==> full.field("id"@) == reduced.field("id"@));
    assert("name"@ != name ==> full.field("name"@) == reduced.field("name"@));
    assert("url"@ != name ==> full.field("url"@) == reduced.field("url"@));
    assert("adult"@ != name ==> full.field("adult"@) == reduced.field("adult"@));
    assert("alternate_names"@ != name ==> full.field("alternate_names"@) == reduced.field("alternate_names"@));
    assert("hashtags"@ != name ==> full.field("hashtags"@) == reduced.field("hashtags"@));
    assert("image"@ != name ==> full.field("image"@) == reduced.field("image"@));
    assert("sources"@ != name ==> full.field("sources"@) == reduced.field("sources"@));
    assert("description"@ != name ==> full.field("description"@) == reduced.field("description"@));
    assert("how_to_observe"@ != name ==> full.field("how_to_observe"@) == reduced.field("how_to_observe"@));
    assert("patterns"@ != name ==> full.field("patterns"@) == reduced.field("patterns"@));
    assert("occurrences"@ != name ==> full.field("occurrences"@) == reduced.field("occurrences"@));
    assert("founders"@ != name ==> full.field("founders"@) == reduced.field("founders"@));
    assert("analytics"@ != name ==> full.field("analytics"@) == reduced.field("analytics"@));
    assert("tags"@ != name ==> full.field("tags"@) == reduced.field("tags"@));
}

} // verus!
