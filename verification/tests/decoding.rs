use holiday_event_api::json::{optional, required, DecodeError, FromJson, Json};
use holiday_event_api::model::{
    AlternateName, Analytics, DateOrTimestamp, EventInfo, EventSummary, FounderInfo,
    GetEventInfoResponse, GetEventsResponse, ImageInfo, Occurrence, Pattern, RateLimit, RichText,
    SearchResponse, Tag,
};
use holiday_event_api::text::{decimal, eq_ignoring_ascii_case, joined, parse_i32};

fn text(value: &str) -> Json {
    Json::Str(value.to_string())
}

fn object(members: Vec<(&str, Json)>) -> Json {
    Json::Object(
        members
            .into_iter()
            .map(|(key, value)| (key.to_string(), value))
            .collect(),
    )
}

fn minimal_event(extra: Vec<(&'static str, Json)>) -> Json {
    let mut members = vec![
        ("id", text("1a85c01ea2a6e3f921667c59391aa7ee")),
        ("name", text("International Pay it Forward Day")),
        ("url", text("https://www.checkiday.com/1a85c01ea2a6e3f921667c59391aa7ee")),
        ("adult", Json::Bool(false)),
        ("alternate_names", Json::Array(vec![])),
    ];
    members.extend(extra);
    object(members)
}

fn minimal_event_info() -> EventInfo {
    EventInfo {
        id: "1a85c01ea2a6e3f921667c59391aa7ee".into(),
        name: "International Pay it Forward Day".into(),
        url: "https://www.checkiday.com/1a85c01ea2a6e3f921667c59391aa7ee".into(),
        adult: false,
        alternate_names: vec![],
        hashtags: None,
        image: None,
        sources: None,
        description: None,
        how_to_observe: None,
        patterns: None,
        occurrences: None,
        founders: None,
        analytics: None,
        tags: None,
    }
}

#[test]
fn a_string_is_a_date() {
    assert_eq!(
        Ok(DateOrTimestamp::Date("05/05/2025".into())),
        DateOrTimestamp::from_json(&text("05/05/2025"))
    );
    assert_eq!(
        Ok(DateOrTimestamp::Date("".into())),
        DateOrTimestamp::from_json(&text(""))
    );
    assert_eq!(
        Ok(DateOrTimestamp::Date("1682652947".into())),
        DateOrTimestamp::from_json(&text("1682652947"))
    );
}

#[test]
fn an_integer_is_a_timestamp() {
    assert_eq!(
        Ok(DateOrTimestamp::Timestamp(1682652947)),
        DateOrTimestamp::from_json(&Json::PosInt(1682652947))
    );
    assert_eq!(
        Ok(DateOrTimestamp::Timestamp(0)),
        DateOrTimestamp::from_json(&Json::PosInt(0))
    );
    assert_eq!(
        Ok(DateOrTimestamp::Timestamp(-12345)),
        DateOrTimestamp::from_json(&Json::NegInt(-12345))
    );
    assert_eq!(
        Ok(DateOrTimestamp::Timestamp(i64::MIN)),
        DateOrTimestamp::from_json(&Json::NegInt(i64::MIN))
    );
    assert_eq!(
        Ok(DateOrTimestamp::Timestamp(i64::MAX)),
        DateOrTimestamp::from_json(&Json::PosInt(9223372036854775807))
    );
}

#[test]
fn an_integer_beyond_the_signed_range_is_refused() {
    assert_eq!(
        Err(DecodeError::InvalidValue("i64")),
        DateOrTimestamp::from_json(&Json::PosInt(9223372036854775808))
    );
    assert_eq!(
        Err(DecodeError::InvalidValue("i64")),
        DateOrTimestamp::from_json(&Json::PosInt(u64::MAX))
    );
    assert_eq!(
        Err(DecodeError::InvalidValue("i64")),
        Occurrence::from_json(&object(vec![
            ("date", Json::PosInt(u64::MAX)),
            ("length", Json::PosInt(1)),
        ]))
    );
}

#[test]
fn nothing_else_is_a_date() {
    let expected = Err(DecodeError::InvalidType(
        "OccurrenceDate as a number or string",
    ));
    assert_eq!(expected, DateOrTimestamp::from_json(&Json::Null));
    assert_eq!(expected, DateOrTimestamp::from_json(&Json::Bool(true)));
    assert_eq!(expected, DateOrTimestamp::from_json(&Json::Float));
    assert_eq!(expected, DateOrTimestamp::from_json(&Json::Array(vec![])));
    assert_eq!(expected, DateOrTimestamp::from_json(&object(vec![])));
}

#[test]
fn date_variants_are_never_equal() {
    assert_ne!(
        DateOrTimestamp::Date("0".into()),
        DateOrTimestamp::Timestamp(0)
    );
    assert_eq!(
        DateOrTimestamp::Timestamp(-12345),
        DateOrTimestamp::Timestamp(-12345)
    );
    assert_ne!(
        DateOrTimestamp::Date("05/05/2025".into()),
        DateOrTimestamp::Date("05/05/2026".into())
    );
}

#[test]
fn decode_errors_say_what_is_wrong() {
    assert_eq!(
        "missing field `adult`",
        DecodeError::MissingField("adult").message()
    );
    assert_eq!(
        "invalid type: expected a string",
        DecodeError::InvalidType("a string").message()
    );
    assert_eq!(
        "invalid value: expected i32",
        DecodeError::InvalidValue("i32").message()
    );
}

#[test]
fn primitives_decode_from_their_own_json_type_only() {
    assert_eq!(Ok(true), bool::from_json(&Json::Bool(true)));
    assert_eq!(
        Err(DecodeError::InvalidType("a boolean")),
        bool::from_json(&Json::PosInt(1))
    );
    assert_eq!(Ok("a".to_string()), String::from_json(&text("a")));
    assert_eq!(
        Err(DecodeError::InvalidType("a string")),
        String::from_json(&Json::Null)
    );
    assert_eq!(Ok(2147483647), i32::from_json(&Json::PosInt(2147483647)));
    assert_eq!(Ok(-2147483648), i32::from_json(&Json::NegInt(-2147483648)));
    assert_eq!(
        Err(DecodeError::InvalidValue("i32")),
        i32::from_json(&Json::PosInt(2147483648))
    );
    assert_eq!(
        Err(DecodeError::InvalidValue("i32")),
        i32::from_json(&Json::NegInt(-2147483649))
    );
    assert_eq!(
        Err(DecodeError::InvalidType("i32")),
        i32::from_json(&Json::Float)
    );
    assert_eq!(
        Err(DecodeError::InvalidType("i32")),
        i32::from_json(&text("1"))
    );
}

#[test]
fn arrays_decode_item_by_item() {
    assert_eq!(
        Ok(vec![1, -2, 3]),
        Vec::<i32>::from_json(&Json::Array(vec![
            Json::PosInt(1),
            Json::NegInt(-2),
            Json::PosInt(3)
        ]))
    );
    assert_eq!(
        Ok(Vec::<String>::new()),
        Vec::<String>::from_json(&Json::Array(vec![]))
    );
    assert_eq!(
        Err(DecodeError::InvalidType("a string")),
        Vec::<String>::from_json(&Json::Array(vec![text("a"), Json::Null, Json::PosInt(1)]))
    );
    assert_eq!(
        Err(DecodeError::InvalidValue("i32")),
        Vec::<i32>::from_json(&Json::Array(vec![
            Json::PosInt(1),
            Json::PosInt(u64::MAX),
            text("a")
        ]))
    );
    assert_eq!(
        Err(DecodeError::InvalidType("a sequence")),
        Vec::<i32>::from_json(&object(vec![]))
    );
}

#[test]
fn members_are_looked_up_by_name() {
    let json = object(vec![
        ("a", Json::PosInt(1)),
        ("b", Json::Null),
        ("a", Json::PosInt(2)),
    ]);
    assert_eq!(Some(&Json::PosInt(1)), json.field("a"));
    assert_eq!(Some(&Json::Null), json.field("b"));
    assert_eq!(None, json.field("c"));
    assert_eq!(None, json.field("A"));
    assert_eq!(None, Json::Array(vec![text("a")]).field("a"));
    assert_eq!(None, text("a").field("a"));

    assert_eq!(Ok(1), required::<i32>(&json, "a"));
    assert_eq!(
        Err(DecodeError::InvalidType("i32")),
        required::<i32>(&json, "b")
    );
    assert_eq!(
        Err(DecodeError::MissingField("c")),
        required::<i32>(&json, "c")
    );
    assert_eq!(Ok(Some(1)), optional::<i32>(&json, "a"));
    assert_eq!(Ok(None), optional::<i32>(&json, "b"));
    assert_eq!(Ok(None), optional::<i32>(&json, "c"));
    assert_eq!(
        Err(DecodeError::InvalidType("a string")),
        optional::<String>(&json, "a")
    );
}

#[test]
fn an_event_summary_needs_its_three_members() {
    let whole = object(vec![
        ("url", text("https://www.checkiday.com/x")),
        ("extra", Json::Float),
        ("id", text("x")),
        ("name", text("X Day")),
    ]);
    assert_eq!(
        Ok(EventSummary {
            id: "x".into(),
            name: "X Day".into(),
            url: "https://www.checkiday.com/x".into(),
        }),
        EventSummary::from_json(&whole)
    );
    assert_eq!(
        Err(DecodeError::MissingField("id")),
        EventSummary::from_json(&object(vec![]))
    );
    assert_eq!(
        Err(DecodeError::MissingField("name")),
        EventSummary::from_json(&object(vec![("id", text("x")), ("url", Json::Null)]))
    );
    assert_eq!(
        Err(DecodeError::InvalidType("a string")),
        EventSummary::from_json(&object(vec![
            ("id", text("x")),
            ("name", text("X Day")),
            ("url", Json::Null)
        ]))
    );
    assert_eq!(
        Err(DecodeError::InvalidType("struct EventSummary")),
        EventSummary::from_json(&Json::Array(vec![text("x"), text("X Day"), text("u")]))
    );
}

#[test]
fn the_smaller_shapes_decode() {
    assert_eq!(
        Ok(AlternateName {
            name: "TEST".into(),
            first_year: Some(2005),
            last_year: None,
        }),
        AlternateName::from_json(&object(vec![
            ("first_year", Json::PosInt(2005)),
            ("last_year", Json::Null),
            ("name", text("TEST")),
        ]))
    );
    assert_eq!(
        Ok(RichText {
            text: None,
            html: Some("<p>x</p>".into()),
            markdown: None,
        }),
        RichText::from_json(&object(vec![("html", text("<p>x</p>")), ("text", Json::Null)]))
    );
    assert_eq!(
        Ok(ImageInfo {
            small: "s".into(),
            medium: "m".into(),
            large: "l".into(),
        }),
        ImageInfo::from_json(&object(vec![
            ("small", text("s")),
            ("medium", text("m")),
            ("large", text("l")),
        ]))
    );
    assert_eq!(
        Ok(FounderInfo {
            name: "International Fund For Animal Welfare".into(),
            url: None,
            date: Some("2002".into()),
        }),
        FounderInfo::from_json(&object(vec![
            ("name", text("International Fund For Animal Welfare")),
            ("date", text("2002")),
        ]))
    );
    assert_eq!(
        Ok(Analytics {
            overall_rank: 12,
            social_rank: 34,
            social_shares: 56,
            popularity: "★★★☆☆".into(),
        }),
        Analytics::from_json(&object(vec![
            ("overall_rank", Json::PosInt(12)),
            ("social_rank", Json::PosInt(34)),
            ("social_shares", Json::PosInt(56)),
            ("popularity", text("★★★☆☆")),
        ]))
    );
    assert_eq!(
        Ok(Tag { name: "A".into() }),
        Tag::from_json(&object(vec![("name", text("A"))]))
    );
    assert_eq!(
        Ok(Pattern {
            first_year: Some(2002),
            last_year: None,
            observed: "annually on August 8th".into(),
            observed_html: "h".into(),
            observed_markdown: "m".into(),
            length: 1,
        }),
        Pattern::from_json(&object(vec![
            ("first_year", Json::PosInt(2002)),
            ("observed", text("annually on August 8th")),
            ("observed_html", text("h")),
            ("observed_markdown", text("m")),
            ("length", Json::PosInt(1)),
        ]))
    );
    assert_eq!(
        Ok(Occurrence {
            date: DateOrTimestamp::Timestamp(-12345),
            length: 7,
        }),
        Occurrence::from_json(&object(vec![
            ("date", Json::NegInt(-12345)),
            ("length", Json::PosInt(7)),
        ]))
    );
    assert_eq!(
        Err(DecodeError::InvalidType(
            "OccurrenceDate as a number or string"
        )),
        Occurrence::from_json(&object(vec![("date", Json::Float), ("length", Json::PosInt(7))]))
    );
}

#[test]
fn the_first_member_that_fails_gives_the_error() {
    assert_eq!(
        Err(DecodeError::InvalidValue("i32")),
        Analytics::from_json(&object(vec![
            ("popularity", Json::Null),
            ("social_rank", Json::PosInt(u64::MAX)),
            ("overall_rank", Json::PosInt(12)),
        ]))
    );
    assert_eq!(
        Err(DecodeError::MissingField("social_shares")),
        Analytics::from_json(&object(vec![
            ("popularity", Json::Null),
            ("social_rank", Json::PosInt(1)),
            ("overall_rank", Json::PosInt(12)),
        ]))
    );
}

#[test]
fn an_event_without_optional_groups_decodes() {
    assert_eq!(
        Ok(minimal_event_info()),
        EventInfo::from_json(&minimal_event(vec![]))
    );
    assert_eq!(
        Ok(minimal_event_info()),
        EventInfo::from_json(&minimal_event(vec![
            ("hashtags", Json::Null),
            ("image", Json::Null),
            ("tags", Json::Null),
        ]))
    );
}

#[test]
fn optional_groups_are_independent() {
    let groups: Vec<(&'static str, fn() -> Json, fn(&mut EventInfo))> = vec![
        (
            "hashtags",
            || Json::Array(vec![text("CatDay")]),
            |event| event.hashtags = Some(vec!["CatDay".into()]),
        ),
        (
            "image",
            || object(vec![("small", text("s")), ("medium", text("m")), ("large", text("l"))]),
            |event| {
                event.image = Some(ImageInfo {
                    small: "s".into(),
                    medium: "m".into(),
                    large: "l".into(),
                })
            },
        ),
        (
            "sources",
            || Json::Array(vec![text("https://www.source.com/1")]),
            |event| event.sources = Some(vec!["https://www.source.com/1".into()]),
        ),
        (
            "description",
            || object(vec![("text", text("d"))]),
            |event| {
                event.description = Some(RichText {
                    text: Some("d".into()),
                    html: None,
                    markdown: None,
                })
            },
        ),
        (
            "how_to_observe",
            || object(vec![("markdown", text("h"))]),
            |event| {
                event.how_to_observe = Some(RichText {
                    text: None,
                    html: None,
                    markdown: Some("h".into()),
                })
            },
        ),
        (
            "patterns",
            || Json::Array(vec![]),
            |event| event.patterns = Some(vec![]),
        ),
        (
            "occurrences",
            || Json::Array(vec![object(vec![("date", text("08/08/2020")), ("length", Json::PosInt(1))])]),
            |event| {
                event.occurrences = Some(vec![Occurrence {
                    date: DateOrTimestamp::Date("08/08/2020".into()),
                    length: 1,
                }])
            },
        ),
        (
            "founders",
            || Json::Array(vec![object(vec![("name", text("f"))])]),
            |event| {
                event.founders = Some(vec![FounderInfo {
                    name: "f".into(),
                    url: None,
                    date: None,
                }])
            },
        ),
        (
            "analytics",
            || {
                object(vec![
                    ("overall_rank", Json::PosInt(1)),
                    ("social_rank", Json::PosInt(2)),
                    ("social_shares", Json::PosInt(3)),
                    ("popularity", text("★")),
                ])
            },
            |event| {
                event.analytics = Some(Analytics {
                    overall_rank: 1,
                    social_rank: 2,
                    social_shares: 3,
                    popularity: "★".into(),
                })
            },
        ),
        (
            "tags",
            || Json::Array(vec![object(vec![("name", text("A"))])]),
            |event| event.tags = Some(vec![Tag { name: "A".into() }]),
        ),
    ];
    for (name, json, set) in &groups {
        let mut expected = minimal_event_info();
        set(&mut expected);
        assert_eq!(
            Ok(expected),
            EventInfo::from_json(&minimal_event(vec![(*name, json())])),
            "{name}"
        );
    }
    for skipped in 0..groups.len() {
        let mut expected = minimal_event_info();
        let mut members = vec![];
        for (at, (name, json, set)) in groups.iter().enumerate() {
            if at != skipped {
                set(&mut expected);
                members.push((*name, json()));
            }
        }
        assert_eq!(
            Ok(expected),
            EventInfo::from_json(&minimal_event(members)),
            "{skipped}"
        );
    }
}

#[test]
fn a_malformed_optional_group_is_an_error() {
    assert_eq!(
        Err(DecodeError::InvalidType("a sequence")),
        EventInfo::from_json(&minimal_event(vec![("hashtags", text("CatDay"))]))
    );
    assert_eq!(
        Err(DecodeError::MissingField("medium")),
        EventInfo::from_json(&minimal_event(vec![(
            "image",
            object(vec![("small", text("s"))])
        )]))
    );
}

#[test]
fn responses_decode_with_the_zero_rate_limit() {
    assert_eq!(
        Ok(SearchResponse {
            query: "zucchini".into(),
            adult: false,
            events: vec![],
            rate_limit: RateLimit {
                limit_month: 0,
                remaining_month: 0
            },
        }),
        SearchResponse::from_json(&object(vec![
            ("query", text("zucchini")),
            ("adult", Json::Bool(false)),
            ("events", Json::Array(vec![])),
            (
                "rate_limit",
                object(vec![
                    ("limit_month", Json::PosInt(5)),
                    ("remaining_month", Json::PosInt(4))
                ])
            ),
        ]))
    );
    assert_eq!(
        Ok(GetEventInfoResponse {
            event: minimal_event_info(),
            rate_limit: RateLimit::default(),
        }),
        GetEventInfoResponse::from_json(&object(vec![("event", minimal_event(vec![]))]))
    );
    assert_eq!(
        Ok(GetEventsResponse {
            adult: true,
            date: DateOrTimestamp::Timestamp(1682652947),
            timezone: "America/New_York".into(),
            events: vec![],
            multiday_starting: vec![],
            multiday_ongoing: vec![],
            rate_limit: RateLimit::default(),
        }),
        GetEventsResponse::from_json(&object(vec![
            ("adult", Json::Bool(true)),
            ("date", Json::PosInt(1682652947)),
            ("timezone", text("America/New_York")),
            ("events", Json::Array(vec![])),
            ("multiday_starting", Json::Array(vec![])),
            ("multiday_ongoing", Json::Array(vec![])),
        ]))
    );
    assert_eq!(
        Err(DecodeError::MissingField("multiday_starting")),
        GetEventsResponse::from_json(&object(vec![
            ("adult", Json::Bool(true)),
            ("date", Json::PosInt(1682652947)),
            ("timezone", text("America/New_York")),
            ("events", Json::Array(vec![])),
        ]))
    );
}

#[test]
fn the_default_rate_limit_is_zero() {
    assert_eq!(
        RateLimit {
            limit_month: 0,
            remaining_month: 0
        },
        RateLimit::default()
    );
}

#[test]
fn numbers_are_written_in_decimal() {
    assert_eq!("0", decimal(0));
    assert_eq!("7", decimal(7));
    assert_eq!("10", decimal(10));
    assert_eq!("2002", decimal(2002));
    assert_eq!("599", decimal(599));
    assert_eq!("-1", decimal(-1));
    assert_eq!("-2147483648", decimal(-2147483648));
    assert_eq!("9223372036854775807", decimal(i64::MAX));
    assert_eq!("-9223372036854775808", decimal(i64::MIN));
    for n in [-1000i64, -999, -10, -9, 9, 99, 100, 101, 65535, 4294967296] {
        assert_eq!(n.to_string(), decimal(n));
    }
}

#[test]
fn numbers_are_read_in_decimal() {
    assert_eq!(Some(100), parse_i32(b"100"));
    assert_eq!(Some(88), parse_i32(b"88"));
    assert_eq!(Some(0), parse_i32(b"0"));
    assert_eq!(Some(0), parse_i32(b"-0"));
    assert_eq!(Some(0), parse_i32(b"+0"));
    assert_eq!(Some(7), parse_i32(b"007"));
    assert_eq!(Some(-12345), parse_i32(b"-12345"));
    assert_eq!(Some(i32::MAX), parse_i32(b"2147483647"));
    assert_eq!(Some(i32::MAX), parse_i32(b"+2147483647"));
    assert_eq!(Some(i32::MIN), parse_i32(b"-2147483648"));
    assert_eq!(None, parse_i32(b"2147483648"));
    assert_eq!(None, parse_i32(b"-2147483649"));
    assert_eq!(None, parse_i32(b"21474836470"));
    assert_eq!(None, parse_i32(b""));
    assert_eq!(None, parse_i32(b"+"));
    assert_eq!(None, parse_i32(b"-"));
    assert_eq!(None, parse_i32(b"--1"));
    assert_eq!(None, parse_i32(b"+-1"));
    assert_eq!(None, parse_i32(b"1-"));
    assert_eq!(None, parse_i32(b" 1"));
    assert_eq!(None, parse_i32(b"1 "));
    assert_eq!(None, parse_i32(b"1.0"));
    assert_eq!(None, parse_i32(b"12a"));
    assert_eq!(None, parse_i32(b"99999999999999999999999999999999999999a"));
    assert_eq!(None, parse_i32(&[0x31, 0xff]));
    for text in ["", "+", "-", "0", "-0", "+7", "12", "-2147483648", "2147483648", "1_000", "٣"] {
        assert_eq!(text.parse::<i32>().ok(), parse_i32(text.as_bytes()), "{text:?}");
    }
}

#[test]
fn texts_compare_without_regard_to_ascii_case() {
    assert!(eq_ignoring_ascii_case(
        "X-RateLimit-Limit-Month",
        "x-ratelimit-limit-month"
    ));
    assert!(eq_ignoring_ascii_case("", ""));
    assert!(eq_ignoring_ascii_case("AZaz09-_", "azAZ09-_"));
    assert!(!eq_ignoring_ascii_case("abc", "abd"));
    assert!(!eq_ignoring_ascii_case("abc", "abcd"));
    assert!(!eq_ignoring_ascii_case("@", "`"));
    assert!(!eq_ignoring_ascii_case("[", "{"));
    assert!(!eq_ignoring_ascii_case("É", "é"));
    assert!(eq_ignoring_ascii_case("Éa", "ÉA"));
    for (a, b) in [("Month", "MONTH"), ("a", "b"), ("K", "\u{212a}"), ("ß", "SS")] {
        assert_eq!(a.eq_ignore_ascii_case(b), eq_ignoring_ascii_case(a, b));
    }
}

#[test]
fn texts_are_joined() {
    assert_eq!("ab", joined("a", "b"));
    assert_eq!("a", joined("a", ""));
    assert_eq!("b", joined("", "b"));
}
