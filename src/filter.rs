//! Filename filters: a regular expression over names, which also matches a
//! Chinese name through the pinyin initials of its characters.
use vstd::prelude::*;
use vstd::utf8::{decode_utf8, encode_utf8, valid_utf8};

use regex::bytes::{Regex, RegexBuilder};

use crate::pinyin_utils::{has_cjk, has_cjk_spec, pinyin_initials, to_pinyin_initials};

verus! {

/// The case rule of a filename filter.
#[derive(Clone, Copy, Debug, PartialEq, Eq, Structural)]
pub enum FilterCase {
    /// Insensitive unless the pattern holds an upper-case letter.
    Smart,
    /// Letters match only in the same case.
    Sensitive,
    /// Letters match in either case.
    Insensitive,
}

/// The case rule chosen by a command's two switches: `smart` wins, then
/// `insensitive`; with neither, matching is case-sensitive.
pub open spec fn case_of_flags(smart: bool, insensitive: bool) -> FilterCase {
    if smart {
        FilterCase::Smart
    } else if insensitive {
        FilterCase::Insensitive
    } else {
        FilterCase::Sensitive
    }
}

impl FilterCase {
    /// The case rule selected by the `smart` and `insensitive` switches.
    pub fn from_flags(smart: bool, insensitive: bool) -> (r: FilterCase)
        ensures
            r == case_of_flags(smart, insensitive),
    {
        match (smart, insensitive) {
            (true, _) => FilterCase::Smart,
            (_, false) => FilterCase::Sensitive,
            (_, true) => FilterCase::Insensitive,
        }
    }

    /// Whether a pattern is matched without regard to case under this rule,
    /// given whether the pattern holds an upper-case letter.
    pub fn ignores_case(self, pattern_has_upper: bool) -> (r: bool)
        ensures
            r == match self {
                FilterCase::Smart => !pattern_has_upper,
                FilterCase::Sensitive => false,
                FilterCase::Insensitive => true,
            },
    {
        match self {
            FilterCase::Smart => !pattern_has_upper,
            FilterCase::Sensitive => false,
            FilterCase::Insensitive => true,
        }
    }
}

#[verifier::external_type_specification]
#[verifier::external_body]
pub struct ExRegex(Regex);

#[verifier::external_type_specification]
#[verifier::external_body]
pub struct ExRegexError(regex::Error);

/// Whether the regex crate compiles `pattern`, folding case or not.
pub uninterp spec fn pattern_compiles(pattern: Seq<char>, ignore_case: bool) -> bool;

/// Whether the regex compiled from `pattern` matches somewhere in `hay`.
pub uninterp spec fn pattern_is_match(pattern: Seq<char>, ignore_case: bool, hay: Seq<u8>) -> bool;

/// The byte range of the leftmost-first match of the regex compiled from
/// `pattern` in `hay`, if there is one.
pub uninterp spec fn pattern_find(pattern: Seq<char>, ignore_case: bool, hay: Seq<u8>) -> Option<(usize, usize)>;

/// Whether the Unicode `Uppercase` property holds of `c`.
pub uninterp spec fn is_uppercase_of(c: char) -> bool;

/// Relies on `char::is_uppercase`.
#[verifier::external_body]
fn char_is_uppercase(c: char) -> (r: bool)
    ensures
        r == is_uppercase_of(c),
{
    c.is_uppercase()
}

/// Relies on `std::str::from_utf8`: a byte string read as text exactly when
/// it is well-formed UTF-8.
#[verifier::external_body]
fn utf8_text(b: &[u8]) -> (r: Option<&str>)
    ensures
        r is Some <==> valid_utf8(b@),
        r matches Some(s) ==> s@ == decode_utf8(b@),
{
    std::str::from_utf8(b).ok()
}

/// Relies on `regex::bytes::RegexBuilder::new`, `case_insensitive` and
/// `build` (what `Regex::new` does when case is kept): compiles `pattern`,
/// failing exactly where the crate rejects it.
#[verifier::external_body]
fn build_regex(pattern: &str, ignore_case: bool) -> (r: Result<Regex, regex::Error>)
    ensures
        r is Ok <==> pattern_compiles(pattern@, ignore_case),
{
    RegexBuilder::new(pattern).case_insensitive(ignore_case).build()
}

/// Relies on `regex::bytes::Regex::is_match`, applied to the regex that
/// `Filter::new` compiled from the filter's pattern and case rule.
#[verifier::external_body]
fn regex_is_match(f: &Filter, hay: &[u8]) -> (r: bool)
    ensures
        r == pattern_is_match(f.spec_raw(), f.spec_ignore_case(), hay@),
{
    f.regex.is_match(hay)
}

/// Relies on `regex::bytes::Regex::find` and `Match::range`, applied to the
/// regex that `Filter::new` compiled from the filter's pattern and case rule.
#[verifier::external_body]
fn regex_find(f: &Filter, hay: &[u8]) -> (r: Option<std::ops::Range<usize>>)
    ensures
        match r {
            Some(m) => pattern_find(f.spec_raw(), f.spec_ignore_case(), hay@) == Some((m.start, m.end)),
            None => pattern_find(f.spec_raw(), f.spec_ignore_case(), hay@) is None,
        },
{
    f.regex.find(hay).map(|m| m.range())
}

/// Some character of `s` is an upper-case letter.
pub open spec fn has_upper_spec(s: Seq<char>) -> bool {
    exists|i: int| 0 <= i < s.len() && is_uppercase_of(#[trigger] s[i])
}

/// Whether `case` folds letters for a pattern that does or does not hold an
/// upper-case letter.
pub open spec fn folds_case(case: FilterCase, pattern_has_upper: bool) -> bool {
    match case {
        FilterCase::Smart => !pattern_has_upper,
        FilterCase::Sensitive => false,
        FilterCase::Insensitive => true,
    }
}

/// A name, given as the bytes of its encoding, is read as UTF-8 text that
/// holds a CJK ideograph.
pub open spec fn chinese_name(name: Seq<u8>) -> bool {
    valid_utf8(name) && has_cjk_spec(decode_utf8(name))
}

/// A filter with this pattern and case rule accepts `name`: the pattern
/// matches the name itself, or the name is Chinese and the pattern matches
/// its pinyin initials.
pub open spec fn filter_accepts(pattern: Seq<char>, ignore_case: bool, name: Seq<u8>) -> bool {
    pattern_is_match(pattern, ignore_case, name) || (chinese_name(name) && pattern_is_match(
        pattern,
        ignore_case,
        encode_utf8(pinyin_initials(decode_utf8(name))),
    ))
}

/// Whether `s` holds an upper-case letter.
pub fn has_upper(s: &str) -> (r: bool)
    ensures
        r == has_upper_spec(s@),
{
    for c in it: s.chars()
        invariant
            it.seq() == s@,
            forall|j: int| 0 <= j < it.index() ==> !is_uppercase_of(#[trigger] s@[j]),
    {
        if char_is_uppercase(c) {
            assert(s@[it.index() as int] == c);
            return true;
        }
    }
    false
}

/// Why a filter could not be built.
#[derive(Debug)]
pub enum FilterError {
    /// The regex crate rejected the pattern.
    Pattern(regex::Error),
}

/// A compiled filename filter.
///
/// `regex` is always the compilation of `raw` with case folding as
/// `ignore_case` says: the fields are private and `Filter::new` is the only
/// place that builds one.
pub struct Filter {
    raw: String,
    ignore_case: bool,
    regex: Regex,
    has_chinese: bool,
}

impl Filter {
    /// The pattern the filter was built from.
    pub closed spec fn spec_raw(&self) -> Seq<char> {
        self.raw@
    }

    /// Whether the filter matches letters in either case.
    pub closed spec fn spec_ignore_case(&self) -> bool {
        self.ignore_case
    }

    /// Whether the pattern holds a CJK ideograph.
    pub closed spec fn spec_has_chinese(&self) -> bool {
        self.has_chinese
    }

    /// Compiles `s` under the case rule `case`. Fails exactly when the regex
    /// crate rejects the pattern.
    pub fn new(s: &str, case: FilterCase) -> (r: Result<Filter, FilterError>)
        ensures
            r is Ok <==> pattern_compiles(s@, folds_case(case, has_upper_spec(s@))),
            r matches Ok(f) ==> f.spec_raw() == s@ && f.spec_ignore_case() == folds_case(
                case,
                has_upper_spec(s@),
            ) && f.spec_has_chinese() == has_cjk_spec(s@),
    {
        let has_chinese = has_cjk(s);
        let ignore_case = case.ignores_case(has_upper(s));
        match build_regex(s, ignore_case) {
            Ok(regex) => Ok(Filter { raw: s.to_owned(), ignore_case, regex, has_chinese }),
            Err(e) => Err(FilterError::Pattern(e)),
        }
    }

    /// The pattern the filter was built from.
    pub fn as_str(&self) -> (r: &str)
        ensures
            r@ == self.spec_raw(),
    {
        self.raw.as_str()
    }

    /// Whether the filter accepts a name, given as the bytes of its
    /// platform encoding.
    pub fn matches(&self, name: &[u8]) -> (r: bool)
        ensures
            r == filter_accepts(self.spec_raw(), self.spec_ignore_case(), name@),
    {
        if regex_is_match(self, name) {
            return true;
        }
        if let Some(file_name) = utf8_text(name) {
            if has_cjk(file_name) {
                let pinyin = to_pinyin_initials(file_name);
                return regex_is_match(self, pinyin.as_str().as_bytes());
            }
        }
        false
    }

    /// The byte ranges of a name to highlight: the first match of the
    /// pattern, or else, for a Chinese name, the whole name.
    pub fn highlighted(&self, name: &[u8]) -> (r: Option<Vec<std::ops::Range<usize>>>)
        ensures
            match pattern_find(self.spec_raw(), self.spec_ignore_case(), name@) {
                Some((a, b)) => r matches Some(v) && v@.len() == 1 && v@[0].start == a && v@[0].end == b,
                None => if chinese_name(name@) {
                    r matches Some(v) && v@.len() == 1 && v@[0].start == 0 && v@[0].end == name@.len()
                } else {
                    r is None
                },
            },
    {
        if let Some(m) = regex_find(self, name) {
            return Some(vec![m]);
        }
        if let Some(s) = utf8_text(name) {
            if has_cjk(s) {
                return Some(vec![0..name.len()]);
            }
        }
        None
    }
}

impl PartialEq for Filter {
    fn eq(&self, other: &Filter) -> (r: bool) {
        self.raw == other.raw && self.has_chinese == other.has_chinese
    }
}

impl vstd::std_specs::cmp::PartialEqSpecImpl for Filter {
    open spec fn obeys_eq_spec() -> bool {
        true
    }

    open spec fn eq_spec(&self, other: &Filter) -> bool {
        self.spec_raw() == other.spec_raw() && self.spec_has_chinese() == other.spec_has_chinese()
    }
}

impl Default for FilterCase {
    fn default() -> (r: FilterCase)
        ensures
            r == FilterCase::Sensitive,
    {
        FilterCase::Sensitive
    }
}

} // verus!
