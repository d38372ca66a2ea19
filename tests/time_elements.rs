use phenopacket_tools::curie::ontology_class;
use phenopacket_tools::error::{Error, ErrorKind};
use phenopacket_tools::time_elements::{
    age, age_range, classify_time_element, from_ontology_class, gestational_age,
    interval_from_strs, interval_from_timestamps, parse_gestational_age, time_element_from_str,
    timestamp_from_instant, timestamp_from_iso8601, timestamp_from_str, TimeElement, Timestamp,
};

fn kind_of(s: &str) -> Option<ErrorKind> {
    time_element_from_str(s).err().map(|e| e.kind())
}

#[test]
fn test_valid_gestational_age() {
    for (weeks, days) in [(32, 4), (7, 2), (42, 6), (0, 0), (3, 7)] {
        match gestational_age(weeks, days).unwrap() {
            TimeElement::GestationalAge { weeks: w, days: d } => {
                assert_eq!(w, weeks);
                assert_eq!(d, days);
            }
            other => panic!("expected a gestational age, got {:?}", other),
        }
    }
}

#[test]
fn test_invalid_gestational_age() {
    assert!(matches!(gestational_age(32, 8), Err(Error::InvalidDays(8))));
    assert!(matches!(gestational_age(7, 12), Err(Error::InvalidDays(12))));
    assert!(matches!(gestational_age(7, -1), Err(Error::InvalidDays(-1))));
    assert!(matches!(gestational_age(-12, 6), Err(Error::InvalidWeeks(-12))));
    assert_eq!(gestational_age(32, 8).unwrap_err().kind(), ErrorKind::InvalidGestationalAge);
}

#[test]
fn test_valid_gestational_age_from_str() {
    for (text, weeks, days) in [("33w2d", 33, 2), ("12w0d", 12, 0), ("8w5d", 8, 5), ("32w4d", 32, 4)] {
        match time_element_from_str(text).unwrap() {
            TimeElement::GestationalAge { weeks: w, days: d } => {
                assert_eq!(w, weeks);
                assert_eq!(d, days);
            }
            other => panic!("expected a gestational age, got {:?}", other),
        }
    }
}

#[test]
fn gestational_age_with_eight_days_is_refused() {
    let r = time_element_from_str("32w8d");
    assert!(matches!(&r, Err(Error::InvalidGestationalAge(s)) if s == "32w8d"));
    assert_eq!(kind_of("1w99999999999d"), Some(ErrorKind::InvalidGestationalAge));
    assert_eq!(kind_of("99999999999w1d"), Some(ErrorKind::InvalidGestationalAge));
}

#[test]
fn gestational_shape_is_exact() {
    assert_eq!(kind_of("w4d"), Some(ErrorKind::UnrecognizedTemporalExpression));
    assert_eq!(kind_of("32wd"), Some(ErrorKind::UnrecognizedTemporalExpression));
    assert_eq!(kind_of("32w4"), Some(ErrorKind::UnrecognizedTemporalExpression));
    assert_eq!(kind_of("32w4dx"), Some(ErrorKind::UnrecognizedTemporalExpression));
    assert_eq!(kind_of("3a2w4d"), Some(ErrorKind::UnrecognizedTemporalExpression));
}

#[test]
fn parse_gestational_age_reads_both_numbers() {
    assert_eq!(parse_gestational_age("33w2d"), Some((33, 2)));
    assert_eq!(parse_gestational_age("33w12d"), Some((33, 12)));
    assert_eq!(parse_gestational_age("007w01d"), Some((7, 1)));
    assert_eq!(parse_gestational_age("33w2"), None);
    assert_eq!(parse_gestational_age("2147483648w1d"), None);
    assert_eq!(parse_gestational_age("2147483647w1d"), Some((2147483647, 1)));
}

#[test]
fn test_valid_o_class_from_str() {
    let cases = [
        ("HP:0030674", "Antenatal onset"),
        ("HP:0011460", "Embryonal onset"),
        ("HP:0011461", "Fetal onset"),
        ("HP:0034199", "Late first trimester onset"),
        ("HP:0034198", "Second trimester onset"),
        ("HP:0034197", "Third trimester onset"),
        ("HP:0003577", "Congenital onset"),
        ("HP:0003623", "Neonatal onset"),
        ("HP:0003593", "Infantile onset"),
        ("HP:0011463", "Childhood onset"),
        ("HP:0003621", "Juvenile onset"),
        ("HP:0003581", "Adult onset"),
        ("HP:0011462", "Young adult onset"),
        ("HP:0025708", "Early young adult onset"),
        ("HP:0025709", "Intermediate young adult onset"),
        ("HP:0025710", "Late young adult onset"),
        ("HP:0003596", "Middle age onset"),
        ("HP:0003584", "Late onset"),
    ];
    for (id, label) in cases {
        match time_element_from_str(label).unwrap() {
            TimeElement::OntologyClass(clz) => {
                assert_eq!(clz.label, label);
                assert_eq!(clz.id, id);
            }
            other => panic!("expected an onset class, got {:?}", other),
        }
    }
}

#[test]
fn congenital_onset_and_unknown_label() {
    match time_element_from_str("Congenital onset").unwrap() {
        TimeElement::OntologyClass(clz) => assert_eq!(clz.id, "HP:0003577"),
        other => panic!("expected an onset class, got {:?}", other),
    }
    let r = time_element_from_str("Not a real onset");
    assert!(matches!(&r, Err(Error::UnrecognizedTemporalExpression(s)) if s == "Not a real onset"));
    // the lookup is case-sensitive and exact
    assert_eq!(kind_of("congenital onset"), Some(ErrorKind::UnrecognizedTemporalExpression));
    assert_eq!(kind_of("Congenital onset "), Some(ErrorKind::UnrecognizedTemporalExpression));
    assert_eq!(kind_of(""), Some(ErrorKind::UnrecognizedTemporalExpression));
}

#[test]
fn test_valid_iso8601_from_str() {
    for iso in ["P32Y", "P32Y2M3D", "P1D", "P3M2D", "P1M", "P42Y", "P6Y3M", "P"] {
        match time_element_from_str(iso).unwrap() {
            TimeElement::Age(a) => assert_eq!(a, iso),
            other => panic!("expected an age, got {:?}", other),
        }
    }
}

#[test]
fn malformed_durations_are_refused() {
    for iso in ["P3M2Y", "PY", "P1W", "P1Y1Y", "P1.5Y", "PT1H", "Px", "P1Y2"] {
        let r = time_element_from_str(iso);
        assert!(matches!(&r, Err(Error::InvalidDuration(s)) if s == iso), "{}", iso);
    }
    assert!(matches!(age("6Y"), Err(Error::InvalidDuration(_))));
}

#[test]
fn age_and_age_range() {
    assert!(matches!(age("P6Y3M"), Ok(TimeElement::Age(a)) if a == "P6Y3M"));
    match age_range("P1Y", "P2Y6M").unwrap() {
        TimeElement::AgeRange { start, end } => {
            assert_eq!(start, "P1Y");
            assert_eq!(end, "P2Y6M");
        }
        other => panic!("expected an age range, got {:?}", other),
    }
    assert!(matches!(age_range("1Y", "P2Y"), Err(Error::InvalidDuration(s)) if s == "1Y"));
    assert!(matches!(age_range("P1Y", "2Y"), Err(Error::InvalidDuration(s)) if s == "2Y"));
    assert!(matches!(age_range("x", "y"), Err(Error::InvalidDuration(s)) if s == "x"));
}

#[test]
fn timestamp_text_gives_epoch_seconds() {
    match time_element_from_str("2021-05-14T10:35:00Z").unwrap() {
        TimeElement::Timestamp(t) => {
            assert_eq!(t.seconds, 1620988500);
            assert_eq!(t.nanos, 0);
        }
        other => panic!("expected a timestamp, got {:?}", other),
    }
    match timestamp_from_str("1970-01-01T00:00:01.5Z").unwrap() {
        TimeElement::Timestamp(t) => assert_eq!(t, Timestamp { seconds: 1, nanos: 500_000_000 }),
        other => panic!("expected a timestamp, got {:?}", other),
    }
}

#[test]
fn malformed_timestamp_is_refused() {
    let r = time_element_from_str("2021-13-14T10:35:00Z");
    assert!(matches!(&r, Err(Error::InvalidTimestamp(s)) if s == "2021-13-14T10:35:00Z"));
    assert_eq!(kind_of("Z"), Some(ErrorKind::InvalidTimestamp));
    assert!(timestamp_from_iso8601("yesterday").is_err());
}

#[test]
fn dispatch_follows_the_rule_order() {
    // ends with Z and starts with P: the instant rule comes first
    assert_eq!(kind_of("P1YZ"), Some(ErrorKind::InvalidTimestamp));
    // starts with P and has the gestational shape after it: the duration rule decides
    assert_eq!(kind_of("P32w4d"), Some(ErrorKind::InvalidDuration));
    // an onset label is only looked up when no earlier rule applies
    assert_eq!(kind_of("Pre onset"), Some(ErrorKind::InvalidDuration));
}

#[test]
fn classify_time_element_uses_the_given_instant() {
    let t = classify_time_element("anything Z", Some((42, 7))).unwrap();
    assert!(matches!(t, TimeElement::Timestamp(Timestamp { seconds: 42, nanos: 7 })));
    let r = classify_time_element("anything Z", None);
    assert!(matches!(&r, Err(Error::InvalidTimestamp(s)) if s == "anything Z"));
    // the instant is not looked at for other texts
    let t = classify_time_element("P2Y", Some((42, 7))).unwrap();
    assert!(matches!(t, TimeElement::Age(a) if a == "P2Y"));
    let r = timestamp_from_instant("x", None);
    assert!(matches!(&r, Err(Error::InvalidTimestamp(s)) if s == "x"));
}

#[test]
fn parsed_values_reparse_to_themselves() {
    for text in ["P6Y3M", "P1D", "32w4d", "007w01d"] {
        let first = time_element_from_str(text).unwrap();
        let again = match &first {
            TimeElement::Age(a) => time_element_from_str(a).unwrap(),
            TimeElement::GestationalAge { weeks, days } => {
                time_element_from_str(&format!("{}w{}d", weeks, days)).unwrap()
            }
            other => panic!("unexpected {:?}", other),
        };
        assert_eq!(format!("{:?}", first), format!("{:?}", again));
    }
}

#[test]
fn intervals_from_texts() {
    match interval_from_strs("2021-05-14T10:35:00Z", "2020-01-01T00:00:00Z").unwrap() {
        TimeElement::Interval { start, end } => {
            assert_eq!(start.seconds, 1620988500);
            assert_eq!(end.seconds, 1577836800);
        }
        other => panic!("expected an interval, got {:?}", other),
    }
    let r = interval_from_strs("bad", "also bad");
    assert!(matches!(&r, Err(Error::InvalidTimestamp(s)) if s == "bad"));
    let r = interval_from_strs("2021-05-14T10:35:00Z", "also bad");
    assert!(matches!(&r, Err(Error::InvalidTimestamp(s)) if s == "also bad"));
    let a = Timestamp { seconds: 5, nanos: 1 };
    let b = Timestamp { seconds: 3, nanos: 0 };
    assert!(matches!(interval_from_timestamps(a, b), TimeElement::Interval { start, end } if start == a && end == b));
}

#[test]
fn timestamp_from_iso8601_reads_offsets() {
    let t = timestamp_from_iso8601("2021-05-14T12:35:00+02:00").unwrap();
    assert_eq!(t.seconds, 1620988500);
}

#[test]
fn ontology_class_as_time_element() {
    let clz = ontology_class("HP:0003577", "Congenital onset").unwrap();
    match clz.to_time_element() {
        TimeElement::OntologyClass(c) => assert_eq!(c.id, "HP:0003577"),
        other => panic!("unexpected {:?}", other),
    }
    assert!(matches!(from_ontology_class(clz), Ok(TimeElement::OntologyClass(c)) if c.label == "Congenital onset"));
}
