use vstd::prelude::*;
use vstd::string::StringExecFns;

verus! {

/// The kind of a failure, without the text that caused it.
#[derive(Clone, Copy, Debug, PartialEq, Eq, Structural)]
pub enum ErrorKind {
    EmptyIdentifier,
    MissingSeparator,
    StrayWhitespace,
    MultipleSeparators,
    EmptyPrefix,
    EmptySuffix,
    InvalidSuffixCharacters,
    InvalidDuration,
    InvalidGestationalAge,
    InvalidTimestamp,
    UnrecognizedTemporalExpression,
    BothGeneAndVariant,
    NoGeneOrVariant,
    NoInterpretationStatus,
}

/// A validation or parsing failure. Each one carries the text (or, for a
/// gestational age given as numbers, the number) that was refused.
#[derive(Clone, Debug)]
pub enum Error {
    EmptyIdentifier,
    MissingSeparator(String),
    StrayWhitespace(String),
    MultipleSeparators(String),
    EmptyPrefix(String),
    EmptySuffix(String),
    InvalidSuffixCharacters(String),
    InvalidDuration(String),
    InvalidGestationalAge(String),
    InvalidDays(i32),
    InvalidWeeks(i32),
    InvalidTimestamp(String),
    UnrecognizedTemporalExpression(String),
    /// A genomic interpretation was given both a gene and a variant.
    BothGeneAndVariant,
    /// A genomic interpretation was given neither a gene nor a variant.
    NoGeneOrVariant,
    /// A genomic interpretation was built without a status.
    NoInterpretationStatus,
}

/// What an error says, with its text as a sequence of characters.
pub ghost enum ErrorView {
    Text(ErrorKind, Seq<char>),
    Days(int),
    Weeks(int),
}

impl View for Error {
    type V = ErrorView;

    open spec fn view(&self) -> ErrorView {
        match self {
            Error::EmptyIdentifier => ErrorView::Text(ErrorKind::EmptyIdentifier, Seq::empty()),
            Error::MissingSeparator(s) => ErrorView::Text(ErrorKind::MissingSeparator, s@),
            Error::StrayWhitespace(s) => ErrorView::Text(ErrorKind::StrayWhitespace, s@),
            Error::MultipleSeparators(s) => ErrorView::Text(ErrorKind::MultipleSeparators, s@),
            Error::EmptyPrefix(s) => ErrorView::Text(ErrorKind::EmptyPrefix, s@),
            Error::EmptySuffix(s) => ErrorView::Text(ErrorKind::EmptySuffix, s@),
            Error::InvalidSuffixCharacters(s) => ErrorView::Text(
                ErrorKind::InvalidSuffixCharacters,
                s@,
            ),
            Error::InvalidDuration(s) => ErrorView::Text(ErrorKind::InvalidDuration, s@),
            Error::InvalidGestationalAge(s) => ErrorView::Text(
                ErrorKind::InvalidGestationalAge,
                s@,
            ),
            Error::InvalidDays(d) => ErrorView::Days(*d as int),
            Error::InvalidWeeks(w) => ErrorView::Weeks(*w as int),
            Error::InvalidTimestamp(s) => ErrorView::Text(ErrorKind::InvalidTimestamp, s@),
            Error::UnrecognizedTemporalExpression(s) => ErrorView::Text(
                ErrorKind::UnrecognizedTemporalExpression,
                s@,
            ),
            Error::BothGeneAndVariant => ErrorView::Text(
                ErrorKind::BothGeneAndVariant,
                Seq::empty(),
            ),
            Error::NoGeneOrVariant => ErrorView::Text(ErrorKind::NoGeneOrVariant, Seq::empty()),
            Error::NoInterpretationStatus => ErrorView::Text(
                ErrorKind::NoInterpretationStatus,
                Seq::empty(),
            ),
        }
    }
}

impl Error {
    /// The kind of this error; numbers out of range for a gestational age
    /// are of the kind `InvalidGestationalAge`.
    pub open spec fn spec_kind(&self) -> ErrorKind {
        match self@ {
            ErrorView::Text(k, _) => k,
            _ => ErrorKind::InvalidGestationalAge,
        }
    }

    pub fn kind(&self) -> (r: ErrorKind)
        ensures
            r == self.spec_kind(),
    {
        match self {
            Error::EmptyIdentifier => ErrorKind::EmptyIdentifier,
            Error::MissingSeparator(_) => ErrorKind::MissingSeparator,
            Error::StrayWhitespace(_) => ErrorKind::StrayWhitespace,
            Error::MultipleSeparators(_) => ErrorKind::MultipleSeparators,
            Error::EmptyPrefix(_) => ErrorKind::EmptyPrefix,
            Error::EmptySuffix(_) => ErrorKind::EmptySuffix,
            Error::InvalidSuffixCharacters(_) => ErrorKind::InvalidSuffixCharacters,
            Error::InvalidDuration(_) => ErrorKind::InvalidDuration,
            Error::InvalidGestationalAge(_) => ErrorKind::InvalidGestationalAge,
            Error::InvalidDays(_) => ErrorKind::InvalidGestationalAge,
            Error::InvalidWeeks(_) => ErrorKind::InvalidGestationalAge,
            Error::InvalidTimestamp(_) => ErrorKind::InvalidTimestamp,
            Error::UnrecognizedTemporalExpression(_) => ErrorKind::UnrecognizedTemporalExpression,
            Error::BothGeneAndVariant => ErrorKind::BothGeneAndVariant,
            Error::NoGeneOrVariant => ErrorKind::NoGeneOrVariant,
            Error::NoInterpretationStatus => ErrorKind::NoInterpretationStatus,
        }
    }

    /// A day count outside `0..=7`.
    pub fn invalid_days(days: i32) -> (r: Error)
        ensures
            r@ == ErrorView::Days(days as int),
    {
        Error::InvalidDays(days)
    }

    /// A negative week count.
    pub fn invalid_weeks(weeks: i32) -> (r: Error)
        ensures
            r@ == ErrorView::Weeks(weeks as int),
    {
        Error::InvalidWeeks(weeks)
    }

    /// A text that is not an ISO-8601 duration of the accepted shape.
    pub fn invalid_iso8601(age_string: &str) -> (r: Error)
        ensures
            r@ == ErrorView::Text(ErrorKind::InvalidDuration, age_string@),
    {
        Error::InvalidDuration(String::from_str(age_string))
    }

    /// A text that no rule of the temporal parser accepts.
    pub fn unrecognized_onset(age_string: &str) -> (r: Error)
        ensures
            r@ == ErrorView::Text(ErrorKind::UnrecognizedTemporalExpression, age_string@),
    {
        Error::UnrecognizedTemporalExpression(String::from_str(age_string))
    }

    /// A text of the gestational-age shape whose numbers are out of range.
    pub fn invalid_gestational_age(age_string: &str) -> (r: Error)
        ensures
            r@ == ErrorView::Text(ErrorKind::InvalidGestationalAge, age_string@),
    {
        Error::InvalidGestationalAge(String::from_str(age_string))
    }

    /// A text that does not read as an absolute instant.
    pub fn invalid_timestamp(value: &str) -> (r: Error)
        ensures
            r@ == ErrorView::Text(ErrorKind::InvalidTimestamp, value@),
    {
        Error::InvalidTimestamp(String::from_str(value))
    }

    /// A genomic interpretation may name a gene or a variant, not both.
    pub fn double_oneof() -> (r: Error)
        ensures
            r@ == ErrorView::Text(ErrorKind::BothGeneAndVariant, Seq::empty()),
    {
        Error::BothGeneAndVariant
    }

    /// A genomic interpretation names neither a gene nor a variant.
    pub fn no_call() -> (r: Error)
        ensures
            r@ == ErrorView::Text(ErrorKind::NoGeneOrVariant, Seq::empty()),
    {
        Error::NoGeneOrVariant
    }

    /// A genomic interpretation has no status.
    pub fn no_status() -> (r: Error)
        ensures
            r@ == ErrorView::Text(ErrorKind::NoInterpretationStatus, Seq::empty()),
    {
        Error::NoInterpretationStatus
    }
}

} // verus!
