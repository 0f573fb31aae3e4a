use minimap_renderer::survey::clock_hms;
use minimap_renderer::survey::order_by_time;
use minimap_renderer::survey::{
    latest_build, parse_timestamp, InvestigationError, InvestigativeBuilder, SurveyResult,
    SurveyResults,
};
use minimap_renderer::text::{parse_unsigned, split_char, truncate_string};

#[test]
fn unsigned_numbers_parse_like_the_standard_library() {
    assert_eq!(parse_unsigned("42", u32::MAX as u64), Some(42));
    assert_eq!(parse_unsigned("+7", u32::MAX as u64), Some(7));
    assert_eq!(parse_unsigned("4294967295", u32::MAX as u64), Some(4294967295));
    assert_eq!(parse_unsigned("4294967296", u32::MAX as u64), None);
    assert_eq!(parse_unsigned("", 100), None);
    assert_eq!(parse_unsigned("+", 100), None);
    assert_eq!(parse_unsigned("-1", 100), None);
    assert_eq!(parse_unsigned("1a", 100), None);
    assert_eq!(parse_unsigned(" 1", 100), None);
    assert_eq!(parse_unsigned("007", 100), Some(7));
}

#[test]
fn strings_split_and_truncate_by_characters() {
    let parts = split_char("a:bc::d", ':');
    assert_eq!(parts, vec!["a", "bc", "", "d"]);
    assert_eq!(split_char("", '+'), vec![""]);
    assert_eq!(truncate_string("hello", 3), "hel");
    assert_eq!(truncate_string("héllo wörld", 7), "héllo w");
    assert_eq!(truncate_string("abc", 10), "abc");
}

#[test]
fn investigation_timestamps() {
    assert_eq!(parse_timestamp("01:02:03+30"), Some((3723, 30)));
    assert_eq!(parse_timestamp("00:00:10+0"), Some((10, 0)));
    assert_eq!(parse_timestamp("01:02+30"), None);
    assert_eq!(parse_timestamp("01:02:03"), None);
    assert_eq!(parse_timestamp("1193047:00:00+0"), None);
}

fn builder() -> InvestigativeBuilder {
    InvestigativeBuilder {
        no_meta: false,
        filter_packet: None,
        filter_method: None,
        timestamp: None,
        entity_id: None,
    }
}

#[test]
fn investigation_filters() {
    let mut b = builder();
    b.filter_packet = Some("0x8".to_string());
    b.filter_method = Some("onRibbon".to_string());
    b.entity_id = Some("1_000".to_string());
    let f = b.filters().unwrap();
    assert_eq!(f.filter_packet, Some(8));
    assert_eq!(f.entity_id, Some(1000));
    assert!(f.meta);
    assert!(f.accepts(8, Some(("onRibbon", 1000))));
    assert!(!f.accepts(8, Some(("onRibbon", 1001))));
    assert!(!f.accepts(8, Some(("syncGun", 1000))));
    assert!(!f.accepts(9, Some(("onRibbon", 1000))));
    assert!(!f.accepts(8, None));
    let open = builder().filters().unwrap();
    assert!(open.accepts(3, None));

    let mut b = builder();
    b.filter_packet = Some("zz".to_string());
    assert_eq!(b.filters().err(), Some(InvestigationError::BadPacketFilter));
    let mut b = builder();
    b.timestamp = Some("1:2".to_string());
    assert_eq!(b.filters().err(), Some(InvestigationError::BadTimestamp));
    let mut b = builder();
    b.entity_id = Some("-".to_string());
    assert_eq!(b.filters().err(), Some(InvestigationError::BadEntityId));
}

#[test]
fn survey_counts_add_up() {
    let mut s = SurveyResults::empty();
    s.add(SurveyResult::Success(("a.wowsreplay".to_string(), "01.01.2024 10:00:00".to_string(), 10, 0, vec![])));
    s.add(SurveyResult::Success(("b.wowsreplay".to_string(), "01.01.2024 11:00:00".to_string(), 10, 2, vec!["x".to_string()])));
    s.add(SurveyResult::UnsupportedVersion("0.9.1".to_string()));
    s.add(SurveyResult::UnsupportedVersion("0.9.1".to_string()));
    s.add(SurveyResult::UnsupportedVersion("0.8.0".to_string()));
    s.add(SurveyResult::ParseFailure("boom".to_string()));
    assert_eq!(s.total, 6);
    assert_eq!(s.successes, 2);
    assert_eq!(s.successes_with_invalids, 1);
    assert_eq!(s.version_failures, 3);
    assert_eq!(s.parse_failures, 1);
    assert_eq!(s.total, s.successes + s.version_failures + s.parse_failures);
    assert_eq!(s.invalid_versions, vec![("0.9.1".to_string(), 2), ("0.8.0".to_string(), 1)]);
    assert_eq!(s.audits.len(), 1);
    assert_eq!(s.audits[0].0, "b.wowsreplay");
}

#[test]
fn latest_build_is_the_largest_number() {
    let names = vec!["123".to_string(), "bin64".to_string(), "9000".to_string(), "456".to_string()];
    assert_eq!(latest_build(&names), Some(9000));
    assert_eq!(latest_build(&vec!["x".to_string()]), None);
    assert_eq!(latest_build(&vec![]), None);
}

fn success(name: &str, when: &str, audits: usize) -> SurveyResult {
    SurveyResult::Success((
        name.to_string(),
        when.to_string(),
        100,
        0,
        (0..audits).map(|i| format!("audit {}", i)).collect(),
    ))
}

#[test]
fn audit_report_orders_replays_by_date() {
    let mut r = SurveyResults::empty();
    r.add(success("a-very-long-replay-file-name.wowsreplay", "05.05.2021 10:00:00", 12));
    r.add(success("early.wowsreplay", "04.05.2021 23:59:59", 1));
    r.add(success("no-audits.wowsreplay", "01.01.2020 00:00:00", 0));
    r.add(success("same-time.wowsreplay", "05.05.2021 10:00:00", 2));
    let rep = r.audit_report().unwrap();
    assert_eq!(rep.len(), 3);
    assert_eq!(rep[0].name, "early.wowsreplay");
    assert_eq!(rep[0].count, 1);
    assert!(!rep[0].truncated);
    assert_eq!(rep[1].name, "a-very-long-replay-f");
    assert_eq!(rep[1].count, 12);
    assert_eq!(rep[1].shown.len(), 10);
    assert_eq!(rep[1].shown[9], "audit 9");
    assert!(rep[1].truncated);
    assert_eq!(rep[1].datetime, "05.05.2021 10:00:00");
    assert_eq!(rep[2].name, "same-time.wowsreplay");
    assert_eq!(rep[2].source, 2);
}

#[test]
fn audit_report_needs_parsable_dates() {
    let mut r = SurveyResults::empty();
    r.add(success("x.wowsreplay", "2021-05-05 10:00", 1));
    assert!(r.audit_report().is_none());
}

#[test]
fn order_by_time_is_stable() {
    assert_eq!(order_by_time(&vec![5, 3, 5, 1, 3]), vec![3, 1, 4, 0, 2]);
    assert_eq!(order_by_time(&vec![]), Vec::<usize>::new());
}

#[test]
fn clocks_print_as_hours_minutes_seconds() {
    assert_eq!(clock_hms(0), (0, 0, 0));
    assert_eq!(clock_hms(59), (0, 0, 59));
    assert_eq!(clock_hms(3725), (1, 2, 5));
    assert_eq!(clock_hms(u32::MAX), (1193046, 28, 15));
}

#[test]
fn negative_numbers_are_refused_as_filters() {
    let mut b = builder();
    b.filter_packet = Some("-5".to_string());
    assert!(matches!(b.filters(), Err(InvestigationError::BadPacketFilter)));
    let mut b = builder();
    b.entity_id = Some(" -0".to_string());
    assert!(matches!(b.filters(), Err(InvestigationError::BadEntityId)));
    let mut b = builder();
    b.filter_packet = Some("0x22".to_string());
    assert_eq!(b.filters().unwrap().filter_packet, Some(0x22));
}
