use vstd::prelude::*;
use vstd::slice::slice_subrange;
use vstd::string::{StrSliceExecFns, StringExecFns};

use crate::curie::OntologyClass;
use crate::digits::{
    all_digits, chars_of, decimal, digits_value, is_digit, lemma_decimal, lemma_leading_digits,
    leading_digits, parse_i32_digits,
};
use crate::error::{Error, ErrorKind, ErrorView};
use crate::onset::{get_onset_by_label, onset_lookup};

verus! {

/// An absolute instant: seconds since the Unix epoch and the nanoseconds
/// past that second (which exceed a billion only inside a leap second).
#[derive(Clone, Copy, Debug, PartialEq, Eq, Structural)]
pub struct Timestamp {
    pub seconds: i64,
    pub nanos: u32,
}

/// A point or span in a patient's life, in exactly one of six forms.
#[derive(Clone, Debug)]
pub enum TimeElement {
    /// An ISO-8601 duration since birth, such as `P6Y3M`.
    Age(String),
    /// A range between two ages.
    AgeRange { start: String, end: String },
    /// Completed weeks and residual days of gestation.
    GestationalAge { weeks: i32, days: i32 },
    /// An absolute instant.
    Timestamp(Timestamp),
    /// A window between two instants (no order between them is required).
    Interval { start: Timestamp, end: Timestamp },
    /// A category of the onset vocabulary.
    OntologyClass(OntologyClass),
}

pub ghost enum TimeElementView {
    Age(Seq<char>),
    AgeRange(Seq<char>, Seq<char>),
    GestationalAge(int, int),
    Timestamp(int, int),
    Interval((int, int), (int, int)),
    OntologyClass(Seq<char>, Seq<char>),
}

pub open spec fn instant_view(t: Timestamp) -> (int, int) {
    (t.seconds as int, t.nanos as int)
}

impl View for TimeElement {
    type V = TimeElementView;

    open spec fn view(&self) -> TimeElementView {
        match self {
            TimeElement::Age(a) => TimeElementView::Age(a@),
            TimeElement::AgeRange { start, end } => TimeElementView::AgeRange(start@, end@),
            TimeElement::GestationalAge { weeks, days } => TimeElementView::GestationalAge(
                *weeks as int,
                *days as int,
            ),
            TimeElement::Timestamp(t) => TimeElementView::Timestamp(t.seconds as int, t.nanos as int),
            TimeElement::Interval { start, end } => TimeElementView::Interval(
                instant_view(*start),
                instant_view(*end),
            ),
            TimeElement::OntologyClass(c) => TimeElementView::OntologyClass(c.id@, c.label@),
        }
    }
}

pub open spec fn result_view(r: Result<TimeElement, Error>) -> Result<TimeElementView, ErrorView> {
    match r {
        Ok(t) => Ok(t@),
        Err(e) => Err(e@),
    }
}

// The instant that a text names, as seconds since the epoch and nanoseconds
// past the second, read as an RFC-3339 date and time; `None` where the text
// does not read as one.
pub uninterp spec fn utc_instant(s: Seq<char>) -> Option<(i64, u32)>;

/// Relies on chrono's `FromStr` for `DateTime<Utc>` (RFC 3339, with `T` or a
/// space between date and time, any offset converted to UTC), then on
/// `DateTime::timestamp` and `DateTime::timestamp_subsec_nanos` for the
/// seconds since the epoch and the nanoseconds past the second. `None` where
/// chrono refuses the text.
#[verifier::external_body]
fn parse_instant(s: &str) -> (r: Option<(i64, u32)>)
    ensures
        r == utc_instant(s@),
{
    match s.parse::<chrono::DateTime<chrono::Utc>>() {
        Ok(dt) => Some((dt.timestamp(), dt.timestamp_subsec_nanos())),
        Err(_) => None,
    }
}

/// The characters that one component `<digits><unit>` takes at the front of
/// `t`, or 0 where `t` does not begin with such a component.
pub open spec fn component_len(t: Seq<char>, unit: char) -> nat {
    let k = leading_digits(t);
    if 0 < k < t.len() && t[k as int] == unit {
        k + 1
    } else {
        0
    }
}

/// `s` is `P`, then an optional `<digits>Y`, an optional `<digits>M` and an
/// optional `<digits>D`, in that order, and nothing else.
pub open spec fn is_iso8601_duration(s: Seq<char>) -> bool {
    s.len() > 0 && s[0] == 'P' && {
        let t0 = s.drop_first();
        let t1 = t0.skip(component_len(t0, 'Y') as int);
        let t2 = t1.skip(component_len(t1, 'M') as int);
        let t3 = t2.skip(component_len(t2, 'D') as int);
        t3.len() == 0
    }
}

/// The two digit runs of a text of the shape `<digits>w<digits>d`.
pub open spec fn gestational_parts(s: Seq<char>) -> Option<(Seq<char>, Seq<char>)> {
    let k = leading_digits(s) as int;
    if 0 < k && k + 2 < s.len() && s[k] == 'w' && s.last() == 'd' && all_digits(
        s.subrange(k + 1, s.len() - 1),
    ) {
        Some((s.take(k), s.subrange(k + 1, s.len() - 1)))
    } else {
        None
    }
}

pub open spec fn ends_with_z(s: Seq<char>) -> bool {
    s.len() > 0 && s.last() == 'Z'
}

pub open spec fn starts_with_p(s: Seq<char>) -> bool {
    s.len() > 0 && s[0] == 'P'
}

/// What the temporal parser makes of `s`, where `instant` is what the
/// instant reading of `s` gave. The rules are tried in this order and the
/// first that applies decides: a text ending in `Z` is an instant; one
/// starting with `P` a duration; one of the shape `<digits>w<digits>d` a
/// gestational age (days at most 7); anything else a label of the onset
/// vocabulary.
pub open spec fn temporal_outcome(s: Seq<char>, instant: Option<(i64, u32)>) -> Result<
    TimeElementView,
    ErrorView,
> {
    if ends_with_z(s) {
        match instant {
            Some((secs, nanos)) => Ok(TimeElementView::Timestamp(secs as int, nanos as int)),
            None => Err(ErrorView::Text(ErrorKind::InvalidTimestamp, s)),
        }
    } else if starts_with_p(s) {
        if is_iso8601_duration(s) {
            Ok(TimeElementView::Age(s))
        } else {
            Err(ErrorView::Text(ErrorKind::InvalidDuration, s))
        }
    } else if gestational_parts(s) is Some {
        let parts = gestational_parts(s)->0;
        let weeks = digits_value(parts.0);
        let days = digits_value(parts.1);
        if weeks <= i32::MAX && days <= 7 {
            Ok(TimeElementView::GestationalAge(weeks as int, days as int))
        } else {
            Err(ErrorView::Text(ErrorKind::InvalidGestationalAge, s))
        }
    } else {
        match onset_lookup(s) {
            Some((id, label)) => Ok(TimeElementView::OntologyClass(id, label)),
            None => Err(ErrorView::Text(ErrorKind::UnrecognizedTemporalExpression, s)),
        }
    }
}

fn is_digit_char(c: char) -> (r: bool)
    ensures
        r == is_digit(c),
{
    '0' <= c && c <= '9'
}

/// The position after the component `<digits><unit>` that begins at `i`,
/// or `i` where none begins there.
fn skip_component(s: &Vec<char>, i: usize, unit: char) -> (r: usize)
    requires
        i <= s@.len(),
    ensures
        r == i + component_len(s@.subrange(i as int, s@.len() as int), unit),
        r <= s@.len(),
{
    let n = s.len();
    let mut j: usize = i;
    while j < n && is_digit_char(s[j])
        invariant
            n == s@.len(),
            i <= j <= n,
            forall|k: int| i <= k < j ==> is_digit(#[trigger] s@[k]),
        decreases n - j,
    {
        j = j + 1;
    }
    proof {
        let t = s@.subrange(i as int, n as int);
        assert forall|k: int| 0 <= k < j - i implies is_digit(#[trigger] t[k]) by {
            assert(t[k] == s@[i + k]);
        }
        lemma_leading_digits(t, j - i);
    }
    if j > i && j < n && s[j] == unit {
        j + 1
    } else {
        i
    }
}

fn matches_duration(s: &Vec<char>) -> (r: bool)
    ensures
        r == is_iso8601_duration(s@),
{
    let n = s.len();
    if n == 0 || s[0] != 'P' {
        return false;
    }
    let a = skip_component(s, 1, 'Y');
    let b = skip_component(s, a, 'M');
    let c = skip_component(s, b, 'D');
    proof {
        let t0 = s@.drop_first();
        assert(t0 =~= s@.subrange(1, n as int));
        let t1 = t0.skip(component_len(t0, 'Y') as int);
        assert(t1 =~= s@.subrange(a as int, n as int));
        let t2 = t1.skip(component_len(t1, 'M') as int);
        assert(t2 =~= s@.subrange(b as int, n as int));
        let t3 = t2.skip(component_len(t2, 'D') as int);
        assert(t3 =~= s@.subrange(c as int, n as int));
    }
    c == n
}

/// The position of the `w` in a text of the shape `<digits>w<digits>d`.
fn gestational_split(s: &Vec<char>) -> (r: Option<usize>)
    ensures
        r is Some <==> gestational_parts(s@) is Some,
        r matches Some(k) ==> k == leading_digits(s@),
{
    let n = s.len();
    let k = skip_component(s, 0, 'w');
    assert(s@.subrange(0, n as int) =~= s@);
    if k == 0 {
        return None;
    }
    let w = k - 1;
    if n - w <= 2 || s[n - 1] != 'd' {
        return None;
    }
    let mut j: usize = w + 1;
    while j < n - 1
        invariant
            n == s@.len(),
            w + 2 < n,
            w == leading_digits(s@),
            s@[w as int] == 'w',
            s@[n - 1] == 'd',
            w + 1 <= j <= n - 1,
            forall|m: int| w + 1 <= m < j ==> is_digit(#[trigger] s@[m]),
        decreases n - 1 - j,
    {
        if !is_digit_char(s[j]) {
            assert(!all_digits(s@.subrange(w + 1, n - 1))) by {
                assert(s@.subrange(w + 1, n - 1)[j - (w + 1)] == s@[j as int]);
            }
            return None;
        }
        j = j + 1;
    }
    assert(all_digits(s@.subrange(w + 1, n - 1))) by {
        assert forall|m: int| 0 <= m < n - 1 - (w + 1) implies is_digit(
            #[trigger] s@.subrange(w + 1, n - 1)[m],
        ) by {
            assert(s@.subrange(w + 1, n - 1)[m] == s@[w + 1 + m]);
        }
    }
    Some(w)
}

/// Weeks and days read from a text of the shape `<digits>w<digits>d`;
/// `None` where the text has another shape or a number does not fit an
/// `i32`. The days are not checked against a bound here.
pub fn parse_gestational_age(input: &str) -> (r: Option<(i32, i32)>)
    ensures
        match gestational_parts(input@) {
            None => r is None,
            Some((a, b)) => if digits_value(a) <= i32::MAX && digits_value(b) <= i32::MAX {
                r == Some((digits_value(a) as i32, digits_value(b) as i32))
            } else {
                r is None
            },
        },
{
    let s = chars_of(input);
    gestational_numbers(&s)
}

fn gestational_numbers(s: &Vec<char>) -> (r: Option<(i32, i32)>)
    ensures
        match gestational_parts(s@) {
            None => r is None,
            Some((a, b)) => if digits_value(a) <= i32::MAX && digits_value(b) <= i32::MAX {
                r == Some((digits_value(a) as i32, digits_value(b) as i32))
            } else {
                r is None
            },
        },
{
    match gestational_split(s) {
        None => None,
        Some(k) => {
            let n = s.len();
            let weeks_part = slice_subrange(s.as_slice(), 0, k);
            let days_part = slice_subrange(s.as_slice(), k + 1, n - 1);
            assert(weeks_part@ =~= s@.take(k as int));
            assert(all_digits(weeks_part@)) by {
                assert forall|m: int| 0 <= m < weeks_part@.len() implies is_digit(
                    #[trigger] weeks_part@[m],
                ) by {
                    assert(weeks_part@[m] == s@[m]);
                    assert(s@.subrange(0, n as int) =~= s@);
                    lemma_leading_prefix_digit(s@, m);
                }
            }
            let weeks = parse_i32_digits(weeks_part);
            let days = parse_i32_digits(days_part);
            match (weeks, days) {
                (Some(w), Some(d)) => Some((w, d)),
                _ => None,
            }
        },
    }
}

/// The characters before `leading_digits(t)` are digits.
proof fn lemma_leading_prefix_digit(t: Seq<char>, m: int)
    requires
        0 <= m < leading_digits(t),
    ensures
        m < t.len(),
        is_digit(t[m]),
    decreases m,
{
    if m > 0 {
        lemma_leading_prefix_digit(t.drop_first(), m - 1);
    }
}

/// A gestational age of `weeks` completed weeks and `days` further days;
/// the days must lie in `0..=7` and the weeks must not be negative.
pub fn gestational_age(weeks: i32, days: i32) -> (r: Result<TimeElement, Error>)
    ensures
        days < 0 || days > 7 ==> result_view(r) == Err::<TimeElementView, ErrorView>(
            ErrorView::Days(days as int),
        ),
        0 <= days <= 7 && weeks < 0 ==> result_view(r) == Err::<TimeElementView, ErrorView>(
            ErrorView::Weeks(weeks as int),
        ),
        0 <= days <= 7 && weeks >= 0 ==> result_view(r) == Ok::<TimeElementView, ErrorView>(
            TimeElementView::GestationalAge(weeks as int, days as int),
        ),
{
    if days < 0 || days > 7 {
        return Err(Error::invalid_days(days));
    }
    if weeks < 0 {
        return Err(Error::invalid_weeks(weeks));
    }
    Ok(TimeElement::GestationalAge { weeks, days })
}

/// An age given as an ISO-8601 duration `P[<n>Y][<n>M][<n>D]`.
pub fn age(iso8601duration: &str) -> (r: Result<TimeElement, Error>)
    ensures
        result_view(r) == if is_iso8601_duration(iso8601duration@) {
            Ok::<TimeElementView, ErrorView>(TimeElementView::Age(iso8601duration@))
        } else {
            Err(ErrorView::Text(ErrorKind::InvalidDuration, iso8601duration@))
        },
{
    let s = chars_of(iso8601duration);
    if matches_duration(&s) {
        Ok(TimeElement::Age(String::from_str(iso8601duration)))
    } else {
        Err(Error::invalid_iso8601(iso8601duration))
    }
}

/// A range between two ages, each an ISO-8601 duration; the first one
/// that is not reports the error.
pub fn age_range(iso8601duration_start: &str, iso8601duration_end: &str) -> (r: Result<
    TimeElement,
    Error,
>)
    ensures
        result_view(r) == if !is_iso8601_duration(iso8601duration_start@) {
            Err::<TimeElementView, ErrorView>(
                ErrorView::Text(ErrorKind::InvalidDuration, iso8601duration_start@),
            )
        } else if !is_iso8601_duration(iso8601duration_end@) {
            Err(ErrorView::Text(ErrorKind::InvalidDuration, iso8601duration_end@))
        } else {
            Ok(TimeElementView::AgeRange(iso8601duration_start@, iso8601duration_end@))
        },
{
    let start = chars_of(iso8601duration_start);
    if !matches_duration(&start) {
        return Err(Error::invalid_iso8601(iso8601duration_start));
    }
    let end = chars_of(iso8601duration_end);
    if !matches_duration(&end) {
        return Err(Error::invalid_iso8601(iso8601duration_end));
    }
    Ok(
        TimeElement::AgeRange {
            start: String::from_str(iso8601duration_start),
            end: String::from_str(iso8601duration_end),
        },
    )
}

/// The instant element for the text `value`, given what its instant
/// reading gave: the instant, or `InvalidTimestamp` where there was none.
pub fn timestamp_from_instant(value: &str, instant: Option<(i64, u32)>) -> (r: Result<
    TimeElement,
    Error,
>)
    ensures
        result_view(r) == match instant {
            Some((secs, nanos)) => Ok::<TimeElementView, ErrorView>(
                TimeElementView::Timestamp(secs as int, nanos as int),
            ),
            None => Err(ErrorView::Text(ErrorKind::InvalidTimestamp, value@)),
        },
{
    match instant {
        Some((seconds, nanos)) => Ok(TimeElement::Timestamp(Timestamp { seconds, nanos })),
        None => Err(Error::invalid_timestamp(value)),
    }
}

/// An instant element read from an RFC-3339 text; `InvalidTimestamp` where
/// the text does not read as an instant.
pub fn timestamp_from_str(s: &str) -> (r: Result<TimeElement, Error>)
    ensures
        result_view(r) == match utc_instant(s@) {
            Some((secs, nanos)) => Ok::<TimeElementView, ErrorView>(
                TimeElementView::Timestamp(secs as int, nanos as int),
            ),
            None => Err(ErrorView::Text(ErrorKind::InvalidTimestamp, s@)),
        },
{
    let instant = parse_instant(s);
    timestamp_from_instant(s, instant)
}

/// An instant read from an RFC-3339 text.
pub fn timestamp_from_iso8601(iso8601_str: &str) -> (r: Result<Timestamp, Error>)
    ensures
        match r {
            Ok(t) => utc_instant(iso8601_str@) == Some((t.seconds, t.nanos)),
            Err(e) => utc_instant(iso8601_str@) is None && e@ == ErrorView::Text(
                ErrorKind::InvalidTimestamp,
                iso8601_str@,
            ),
        },
{
    match parse_instant(iso8601_str) {
        Some((seconds, nanos)) => Ok(Timestamp { seconds, nanos }),
        None => Err(Error::invalid_timestamp(iso8601_str)),
    }
}

/// An interval between two instants. The end is not required to come
/// after the start.
pub fn interval_from_timestamps(start: Timestamp, end: Timestamp) -> (r: TimeElement)
    ensures
        r@ == TimeElementView::Interval(instant_view(start), instant_view(end)),
{
    TimeElement::Interval { start, end }
}

/// An interval between two instants read from RFC-3339 texts; the first
/// text that does not read as an instant reports the error.
pub fn interval_from_strs(start: &str, end: &str) -> (r: Result<TimeElement, Error>)
    ensures
        result_view(r) == match (utc_instant(start@), utc_instant(end@)) {
            (None, _) => Err::<TimeElementView, ErrorView>(
                ErrorView::Text(ErrorKind::InvalidTimestamp, start@),
            ),
            (Some(_), None) => Err(ErrorView::Text(ErrorKind::InvalidTimestamp, end@)),
            (Some((s1, n1)), Some((s2, n2))) => Ok(
                TimeElementView::Interval((s1 as int, n1 as int), (s2 as int, n2 as int)),
            ),
        },
{
    let start_ts = timestamp_from_iso8601(start)?;
    let end_ts = timestamp_from_iso8601(end)?;
    Ok(interval_from_timestamps(start_ts, end_ts))
}

/// An onset category as a time element.
pub fn from_ontology_class(clz: OntologyClass) -> (r: Result<TimeElement, Error>)
    ensures
        result_view(r) == Ok::<TimeElementView, ErrorView>(
            TimeElementView::OntologyClass(clz.id@, clz.label@),
        ),
{
    Ok(TimeElement::OntologyClass(clz))
}

impl OntologyClass {
    /// This class as a time element.
    pub fn to_time_element(&self) -> (r: TimeElement)
        ensures
            r@ == TimeElementView::OntologyClass(self.id@, self.label@),
    {
        TimeElement::OntologyClass(OntologyClass { id: self.id.clone(), label: self.label.clone() })
    }
}

/// Classifies the text `value` by the rules of `temporal_outcome`, given
/// what the instant reading of `value` gave (looked at only where `value`
/// ends with `Z`).
pub fn classify_time_element(value: &str, instant: Option<(i64, u32)>) -> (r: Result<
    TimeElement,
    Error,
>)
    ensures
        result_view(r) == temporal_outcome(value@, instant),
{
    let s = chars_of(value);
    let n = s.len();
    if n > 0 && s[n - 1] == 'Z' {
        return timestamp_from_instant(value, instant);
    }
    if n > 0 && s[0] == 'P' {
        return age(value);
    }
    if let Some((weeks, days)) = gestational_numbers(&s) {
        if 0 <= days && days <= 7 {
            return Ok(TimeElement::GestationalAge { weeks, days });
        }
        return Err(Error::invalid_gestational_age(value));
    }
    if gestational_split(&s).is_some() {
        return Err(Error::invalid_gestational_age(value));
    }
    match get_onset_by_label(value) {
        Some(clz) => Ok(TimeElement::OntologyClass(clz)),
        None => Err(Error::unrecognized_onset(value)),
    }
}

/// Parses a text naming a point or span in a patient's life: an instant
/// (ending in `Z`), an ISO-8601 duration (starting with `P`), a gestational
/// age `<weeks>w<days>d`, or an onset label, tried in that order.
pub fn time_element_from_str(value: &str) -> (r: Result<TimeElement, Error>)
    ensures
        result_view(r) == temporal_outcome(value@, utc_instant(value@)),
{
    let n = value.unicode_len();
    let instant = if n > 0 && value.get_char(n - 1) == 'Z' {
        parse_instant(value)
    } else {
        None
    };
    classify_time_element(value, instant)
}

/// The text of a gestational age: `<weeks>w<days>d`, each number written
/// in decimal without leading zeros.
pub open spec fn gestational_text(weeks: nat, days: nat) -> Seq<char> {
    decimal(weeks) + seq!['w'] + decimal(days) + seq!['d']
}

/// The text of a parsed age parses again to the same age.
pub proof fn lemma_age_reparses(
    s: Seq<char>,
    instant: Option<(i64, u32)>,
    other: Option<(i64, u32)>,
)
    requires
        temporal_outcome(s, instant) matches Ok(TimeElementView::Age(_)),
    ensures
        temporal_outcome(s, instant) == Ok::<TimeElementView, ErrorView>(TimeElementView::Age(s)),
        temporal_outcome(s, other) == temporal_outcome(s, instant),
{
}

/// The text of a parsed gestational age parses again to the same
/// gestational age.
pub proof fn lemma_gestational_age_reparses(
    s: Seq<char>,
    instant: Option<(i64, u32)>,
    other: Option<(i64, u32)>,
    weeks: int,
    days: int,
)
    requires
        temporal_outcome(s, instant) == Ok::<TimeElementView, ErrorView>(
            TimeElementView::GestationalAge(weeks, days),
        ),
    ensures
        temporal_outcome(gestational_text(weeks as nat, days as nat), other) == Ok::<
            TimeElementView,
            ErrorView,
        >(TimeElementView::GestationalAge(weeks, days)),
{
    let parts = gestational_parts(s)->0;
    assert(weeks == digits_value(parts.0) && days == digits_value(parts.1));
    lemma_gestational_text_parses(weeks as nat, days as nat);
}

/// A gestational age in range, written out, reads back as itself.
pub proof fn lemma_gestational_text_parses(weeks: nat, days: nat)
    requires
        weeks <= i32::MAX,
        days <= 7,
    ensures
        temporal_outcome(gestational_text(weeks, days), None) == Ok::<
            TimeElementView,
            ErrorView,
        >(TimeElementView::GestationalAge(weeks as int, days as int)),
        forall|instant: Option<(i64, u32)>|
            #[trigger] temporal_outcome(gestational_text(weeks, days), instant)
                == temporal_outcome(gestational_text(weeks, days), None),
{
    let w = decimal(weeks);
    let d = decimal(days);
    let t = gestational_text(weeks, days);
    lemma_decimal(weeks);
    lemma_decimal(days);
    let k = w.len() as int;
    assert(t[k] == 'w');
    assert(forall|i: int| 0 <= i < k ==> #[trigger] t[i] == w[i]);
    lemma_leading_digits(t, k);
    assert(t.take(k) =~= w);
    assert(t.subrange(k + 1, t.len() - 1) =~= d);
    assert(t.last() == 'd');
    assert(t[0] == w[0]);
    assert(is_digit(w[0]));
}

/// The order of the rules decides every text: one ending in `Z` is only
/// ever read as an instant, one starting with `P` (and not ending in `Z`)
/// only as a duration, one of the gestational-age shape (and neither of
/// those) only as a gestational age, and anything else only as an onset
/// label, even where a text resembles more than one form.
pub proof fn lemma_dispatch_order(s: Seq<char>, instant: Option<(i64, u32)>)
    ensures
        ends_with_z(s) ==> match temporal_outcome(s, instant) {
            Ok(TimeElementView::Timestamp(_, _)) => true,
            Err(ErrorView::Text(k, _)) => k == ErrorKind::InvalidTimestamp,
            _ => false,
        },
        !ends_with_z(s) && starts_with_p(s) ==> match temporal_outcome(s, instant) {
            Ok(TimeElementView::Age(_)) => true,
            Err(ErrorView::Text(k, _)) => k == ErrorKind::InvalidDuration,
            _ => false,
        },
        !ends_with_z(s) && !starts_with_p(s) && gestational_parts(s) is Some ==> match temporal_outcome(s, instant) {
            Ok(TimeElementView::GestationalAge(_, _)) => true,
            Err(ErrorView::Text(k, _)) => k == ErrorKind::InvalidGestationalAge,
            _ => false,
        },
        !ends_with_z(s) && !starts_with_p(s) && gestational_parts(s) is None ==> match temporal_outcome(s, instant) {
            Ok(TimeElementView::OntologyClass(_, _)) => true,
            Err(ErrorView::Text(k, _)) => k == ErrorKind::UnrecognizedTemporalExpression,
            _ => false,
        },
{
}

} // verus!
