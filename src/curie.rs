use vstd::prelude::*;
use vstd::string::StringExecFns;

use crate::digits::chars_of;
use crate::error::{Error, ErrorKind, ErrorView};

verus! {

/// Which characters may follow the separator of a CURIE.
#[derive(Clone, Copy, Debug, PartialEq, Eq, Structural)]
pub enum SuffixPolicy {
    /// Letters and numerals (Unicode alphanumeric characters).
    Alphanumeric,
    /// Numerals only (Unicode numeric characters), for strictly numeric
    /// identifier schemes.
    Numeric,
}

/// An ontology term: a validated CURIE and its human-readable label.
#[derive(Clone, Debug)]
pub struct OntologyClass {
    pub id: String,
    pub label: String,
}

impl View for OntologyClass {
    type V = (Seq<char>, Seq<char>);

    open spec fn view(&self) -> (Seq<char>, Seq<char>) {
        (self.id@, self.label@)
    }
}

/// The Unicode `White_Space` property (the characters for which
/// `char::is_whitespace` holds).
pub open spec fn is_white_space(c: char) -> bool {
    let u = c as u32;
    (0x09 <= u && u <= 0x0D) || u == 0x20 || u == 0x85 || u == 0xA0 || u == 0x1680 || (0x2000
        <= u && u <= 0x200A) || u == 0x2028 || u == 0x2029 || u == 0x202F || u == 0x205F || u
        == 0x3000
}

// Whether a character is alphabetic or numeric in the Unicode sense.
pub uninterp spec fn alphanumeric(c: char) -> bool;

// Whether a character has one of the Unicode general categories for numbers.
pub uninterp spec fn numeric(c: char) -> bool;

/// Relies on `char::is_alphanumeric`: whether the character is alphabetic
/// or numeric in the Unicode sense.
#[verifier::external_body]
fn is_alphanumeric_char(c: char) -> (r: bool)
    ensures
        r == alphanumeric(c),
{
    c.is_alphanumeric()
}

/// Relies on `char::is_numeric`: whether the character has one of the
/// Unicode general categories for numbers.
#[verifier::external_body]
fn is_numeric_char(c: char) -> (r: bool)
    ensures
        r == numeric(c),
{
    c.is_numeric()
}

/// Whether `c` may stand in a suffix under `policy`.
pub open spec fn suffix_char_allowed(policy: SuffixPolicy, c: char) -> bool {
    match policy {
        SuffixPolicy::Alphanumeric => alphanumeric(c),
        SuffixPolicy::Numeric => numeric(c),
    }
}

pub open spec fn has_colon(s: Seq<char>) -> bool {
    exists|i: int| 0 <= i < s.len() && s[i] == ':'
}

pub open spec fn has_white_space(s: Seq<char>) -> bool {
    exists|i: int| 0 <= i < s.len() && is_white_space(#[trigger] s[i])
}

pub open spec fn has_two_colons(s: Seq<char>) -> bool {
    exists|i: int, j: int| 0 <= i < j < s.len() && #[trigger] s[i] == ':' && #[trigger] s[j] == ':'
}

/// Some character after a colon is not allowed in a suffix.
pub open spec fn has_bad_suffix_char(policy: SuffixPolicy, s: Seq<char>) -> bool {
    exists|i: int, j: int|
        0 <= i < j < s.len() && #[trigger] s[i] == ':' && !suffix_char_allowed(
            policy,
            #[trigger] s[j],
        )
}

/// The first rule that `s` breaks, in the order in which the rules are
/// applied; `None` for a valid CURIE.
pub open spec fn curie_fault(policy: SuffixPolicy, s: Seq<char>) -> Option<ErrorKind> {
    if s.len() == 0 {
        Some(ErrorKind::EmptyIdentifier)
    } else if !has_colon(s) {
        Some(ErrorKind::MissingSeparator)
    } else if has_white_space(s) {
        Some(ErrorKind::StrayWhitespace)
    } else if has_two_colons(s) {
        Some(ErrorKind::MultipleSeparators)
    } else if s[0] == ':' {
        Some(ErrorKind::EmptyPrefix)
    } else if s.last() == ':' {
        Some(ErrorKind::EmptySuffix)
    } else if has_bad_suffix_char(policy, s) {
        Some(ErrorKind::InvalidSuffixCharacters)
    } else {
        None
    }
}

/// The error that reports `kind` for the text `s`.
pub open spec fn curie_error_view(kind: ErrorKind, s: Seq<char>) -> ErrorView {
    if kind == ErrorKind::EmptyIdentifier {
        ErrorView::Text(kind, Seq::empty())
    } else {
        ErrorView::Text(kind, s)
    }
}

/// What validating `s` under `policy` returns, as a view.
pub open spec fn curie_check_outcome(policy: SuffixPolicy, s: Seq<char>) -> Result<(), ErrorView> {
    match curie_fault(policy, s) {
        None => Ok(()),
        Some(k) => Err(curie_error_view(k, s)),
    }
}

pub open spec fn unit_result_view(r: Result<(), Error>) -> Result<(), ErrorView> {
    match r {
        Ok(()) => Ok(()),
        Err(e) => Err(e@),
    }
}

/// Whether `c` has the Unicode `White_Space` property.
pub fn is_white_space_char(c: char) -> (r: bool)
    ensures
        r == is_white_space(c),
{
    let u = c as u32;
    (0x09 <= u && u <= 0x0D) || u == 0x20 || u == 0x85 || u == 0xA0 || u == 0x1680 || (0x2000
        <= u && u <= 0x200A) || u == 0x2028 || u == 0x2029 || u == 0x202F || u == 0x205F || u
        == 0x3000
}

/// One of the kinds that CURIE validation reports.
pub open spec fn is_curie_kind(kind: ErrorKind) -> bool {
    kind == ErrorKind::EmptyIdentifier || kind == ErrorKind::MissingSeparator || kind
        == ErrorKind::StrayWhitespace || kind == ErrorKind::MultipleSeparators || kind
        == ErrorKind::EmptyPrefix || kind == ErrorKind::EmptySuffix || kind
        == ErrorKind::InvalidSuffixCharacters
}

fn fault_error(kind: ErrorKind, s: &str) -> (r: Error)
    requires
        is_curie_kind(kind),
    ensures
        r@ == curie_error_view(kind, s@),
{
    match kind {
        ErrorKind::MissingSeparator => Error::MissingSeparator(String::from_str(s)),
        ErrorKind::StrayWhitespace => Error::StrayWhitespace(String::from_str(s)),
        ErrorKind::MultipleSeparators => Error::MultipleSeparators(String::from_str(s)),
        ErrorKind::EmptyPrefix => Error::EmptyPrefix(String::from_str(s)),
        ErrorKind::EmptySuffix => Error::EmptySuffix(String::from_str(s)),
        ErrorKind::InvalidSuffixCharacters => Error::InvalidSuffixCharacters(String::from_str(s)),
        // the only kind left is an empty identifier
        _ => Error::EmptyIdentifier,
    }
}

/// The first rule that the characters `s` break, if any.
fn find_curie_fault(policy: SuffixPolicy, s: &Vec<char>) -> (r: Option<ErrorKind>)
    ensures
        r == curie_fault(policy, s@),
{
    let n = s.len();
    if n == 0 {
        return Some(ErrorKind::EmptyIdentifier);
    }
    // the first colon

    let mut p: usize = 0;
    while p < n && s[p] != ':'
        invariant
            n == s@.len(),
            0 <= p <= n,
            forall|i: int| 0 <= i < p ==> s@[i] != ':',
        decreases n - p,
    {
        p = p + 1;
    }
    if p == n {
        return Some(ErrorKind::MissingSeparator);
    }
    assert(has_colon(s@));
    let mut i: usize = 0;
    while i < n
        invariant
            n == s@.len(),
            0 <= i <= n,
            has_colon(s@),
            forall|k: int| 0 <= k < i ==> !is_white_space(#[trigger] s@[k]),
        decreases n - i,
    {
        if is_white_space_char(s[i]) {
            assert(has_white_space(s@));
            return Some(ErrorKind::StrayWhitespace);
        }
        i = i + 1;
    }
    assert(!has_white_space(s@));
    let mut j: usize = p + 1;
    while j < n
        invariant
            n == s@.len(),
            p < j <= n,
            has_colon(s@),
            !has_white_space(s@),
            s@[p as int] == ':',
            forall|i: int| 0 <= i < p ==> s@[i] != ':',
            forall|k: int| p < k < j ==> s@[k] != ':',
        decreases n - j,
    {
        if s[j] == ':' {
            assert(has_two_colons(s@)) by {
                assert(s@[p as int] == ':' && s@[j as int] == ':');
            }
            return Some(ErrorKind::MultipleSeparators);
        }
        j = j + 1;
    }
    assert(!has_two_colons(s@)) by {
        if has_two_colons(s@) {
            let (a, b) = choose|a: int, b: int|
                0 <= a < b < s@.len() && #[trigger] s@[a] == ':' && #[trigger] s@[b] == ':';
            assert(a >= p);
            assert(false);
        }
    }
    if p == 0 {
        return Some(ErrorKind::EmptyPrefix);
    }
    if p == n - 1 {
        return Some(ErrorKind::EmptySuffix);
    }
    let mut k: usize = p + 1;
    while k < n
        invariant
            n == s@.len(),
            p < k <= n,
            0 < p < n - 1,
            has_colon(s@),
            !has_white_space(s@),
            !has_two_colons(s@),
            s@[p as int] == ':',
            forall|i: int| 0 <= i < n && i != p ==> s@[i] != ':',
            forall|m: int| p < m < k ==> suffix_char_allowed(policy, #[trigger] s@[m]),
        decreases n - k,
    {
        let ok = match policy {
            SuffixPolicy::Alphanumeric => is_alphanumeric_char(s[k]),
            SuffixPolicy::Numeric => is_numeric_char(s[k]),
        };
        if !ok {
            assert(has_bad_suffix_char(policy, s@)) by {
                assert(s@[p as int] == ':' && !suffix_char_allowed(policy, s@[k as int]));
            }
            return Some(ErrorKind::InvalidSuffixCharacters);
        }
        k = k + 1;
    }
    assert(!has_bad_suffix_char(policy, s@)) by {
        if has_bad_suffix_char(policy, s@) {
            let (a, b) = choose|a: int, b: int|
                0 <= a < b < s@.len() && #[trigger] s@[a] == ':' && !suffix_char_allowed(
                    policy,
                    #[trigger] s@[b],
                );
            assert(a == p);
            assert(false);
        }
    }
    None
}

/// Validates `s` as a CURIE whose suffix characters follow `policy`. The
/// rules are tried in a fixed order and the first one broken is reported:
/// empty text, no `:`, whitespace anywhere, more than one `:`, nothing
/// before the `:`, nothing after it, a suffix character not allowed.
pub fn check_curie(s: &str, policy: SuffixPolicy) -> (r: Result<(), Error>)
    ensures
        unit_result_view(r) == curie_check_outcome(policy, s@),
{
    let cs = chars_of(s);
    match find_curie_fault(policy, &cs) {
        None => Ok(()),
        Some(kind) => Err(fault_error(kind, s)),
    }
}

/// Validates `s` as a CURIE with an alphanumeric suffix.
pub fn check_valid_curie(s: &str) -> (r: Result<(), Error>)
    ensures
        unit_result_view(r) == curie_check_outcome(SuffixPolicy::Alphanumeric, s@),
{
    check_curie(s, SuffixPolicy::Alphanumeric)
}

/// An ontology class whose id has been validated as a CURIE (alphanumeric
/// suffix); the validation error is handed back unchanged.
pub fn ontology_class(id: &str, label: &str) -> (r: Result<OntologyClass, Error>)
    ensures
        match r {
            Ok(c) => curie_fault(SuffixPolicy::Alphanumeric, id@) is None && c@ == (id@, label@),
            Err(e) => curie_check_outcome(SuffixPolicy::Alphanumeric, id@) == Err::<(), ErrorView>(e@),
        },
{
    match check_valid_curie(id) {
        Ok(()) => Ok(OntologyClass { id: String::from_str(id), label: String::from_str(label) }),
        Err(e) => Err(e),
    }
}

/// A text that holds a `:` and some whitespace is refused for the
/// whitespace, whatever else is wrong with it.
pub proof fn lemma_whitespace_rejected(policy: SuffixPolicy, s: Seq<char>)
    requires
        has_colon(s),
        has_white_space(s),
    ensures
        curie_fault(policy, s) == Some(ErrorKind::StrayWhitespace),
{
}

/// A non-empty text without a `:` is refused for the missing separator.
pub proof fn lemma_no_colon_rejected(policy: SuffixPolicy, s: Seq<char>)
    requires
        s.len() > 0,
        !has_colon(s),
    ensures
        curie_fault(policy, s) == Some(ErrorKind::MissingSeparator),
{
}

/// A text without whitespace that holds two or more `:` is refused for
/// the extra separators.
pub proof fn lemma_many_colons_rejected(policy: SuffixPolicy, s: Seq<char>)
    requires
        has_two_colons(s),
        !has_white_space(s),
    ensures
        curie_fault(policy, s) == Some(ErrorKind::MultipleSeparators),
{
    let (i, j) = choose|i: int, j: int| 0 <= i < j < s.len() && #[trigger] s[i] == ':' && #[trigger] s[j] == ':';
    assert(s[i] == ':');
}

} // verus!
