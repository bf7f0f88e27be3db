//! Filters on the names of entries.

use crate::error::RSyncError;
use crate::error::RSyncResult;
use crate::path::RelativePath;
use vstd::prelude::*;

verus! {

/// `regex::Regex`, a compiled regular expression.
#[verifier::external_type_specification]
#[verifier::external_body]
pub struct ExRegex(regex::Regex);

/// `regex::Error`, why an expression did not compile.
#[verifier::external_type_specification]
#[verifier::external_body]
pub struct ExRegexError(regex::Error);

/// The texts in which a compiled expression finds a match.
pub uninterp spec fn regex_language(re: regex::Regex) -> Set<Seq<char>>;

/// What `regex::Regex::new` makes of a pattern: the texts in which the compiled
/// expression finds a match, or `None` where the pattern is refused, as no
/// expression or as one whose compiled form exceeds the default size limit, which
/// is counted in the memory that the form takes on the target of the build.
pub uninterp spec fn pattern_language(pattern: Seq<char>) -> Option<Set<Seq<char>>>;

/// `regex::Regex::new` compiles a pattern under the crate's default settings.
/// Claimed: the pattern alone decides whether it is refused and, if it is not,
/// which texts the compiled expression matches.
pub assume_specification[ regex::Regex::new ](re: &str) -> (res: Result<regex::Regex, regex::Error>)
    ensures
        match res {
            Ok(compiled) => pattern_language(re@) == Some(regex_language(compiled)),
            Err(_) => pattern_language(re@) is None,
        },
;

/// `regex::Regex::is_match` tells whether there is a match anywhere in a text.
/// Claimed: the answer depends on the compiled expression and the text alone.
pub assume_specification[ regex::Regex::is_match ](re: &regex::Regex, haystack: &str) -> (res: bool)
    ensures
        res == regex_language(*re).contains(haystack@),
;

/// `Clone` on `regex::Regex` shares the compiled engine and the pattern between
/// the copies. Claimed: the copy matches the same texts.
pub assume_specification[ <regex::Regex as Clone>::clone ](re: &regex::Regex) -> (res: regex::Regex)
    ensures
        regex_language(res) == regex_language(*re),
;

/// Whether a name is selected, given whether each of the two filters that there
/// is matches it: the first has to match, the second must not.
pub open spec fn selected_by(included: Option<bool>, excluded: Option<bool>) -> bool {
    included != Some(false) && excluded != Some(true)
}

/// Whether a name is selected, given what the two filters that there are say of it.
pub fn is_selected(included: Option<bool>, excluded: Option<bool>) -> (res: bool)
    ensures
        res == selected_by(included, excluded),
        res <==> (included is None || included == Some(true)) && (excluded is None || excluded
            == Some(false)),
{
    match (included, excluded) {
        (None, None) => true,
        (Some(included), None) => included,
        (None, Some(excluded)) => !excluded,
        (Some(included), Some(excluded)) => included && !excluded,
    }
}

/// A regular expression that selects names.
#[derive(Debug)]
pub struct RSyncFilter {
    re: regex::Regex,
}

/// A filter stands for the names that it matches.
impl View for RSyncFilter {
    type V = Set<Seq<char>>;

    closed spec fn view(&self) -> Set<Seq<char>> {
        regex_language(self.re)
    }
}

impl RSyncFilter {
    /// The filter of a pattern that may be missing.
    pub fn new(filter: &Option<&str>) -> (res: RSyncResult<Self>)
        ensures
            match res {
                Ok(f) => filter matches Some(text) && pattern_language(text@) == Some(f@),
                Err(e) => e == RSyncError::InvalidRegexError && (filter matches Some(text)
                    ==> pattern_language(text@) is None),
            },
    {
        match filter {
            Some(text) => RSyncFilter::from_str(text),
            None => Err(RSyncError::InvalidRegexError),
        }
    }

    /// The filter of a pattern.
    pub fn from_str(filter: &str) -> (res: RSyncResult<Self>)
        ensures
            match res {
                Ok(f) => pattern_language(filter@) == Some(f@),
                Err(e) => e == RSyncError::InvalidRegexError && pattern_language(filter@) is None,
            },
    {
        RSyncFilter::from_compiled(regex::Regex::new(filter))
    }

    /// The filter of a compiled expression, where compiling did not fail.
    pub fn from_compiled(compiled: Result<regex::Regex, regex::Error>) -> (res: RSyncResult<Self>)
        ensures
            match compiled {
                Ok(re) => res matches Ok(f) && f@ == regex_language(re),
                Err(_) => res == Err::<Self, _>(RSyncError::InvalidRegexError),
            },
    {
        match compiled {
            Ok(re) => Ok(RSyncFilter { re }),
            Err(_) => Err(RSyncError::InvalidRegexError),
        }
    }

    /// Whether the filter matches a name.
    pub fn is_match(&self, path: &RelativePath) -> (res: bool)
        ensures
            res == self@.contains(path@),
    {
        self.re.is_match(path.path())
    }
}

/// Whether a filter that may be missing matches a name.
pub open spec fn matched_by(filter: Option<RSyncFilter>, name: Seq<char>) -> Option<bool> {
    match filter {
        Some(f) => Some(f@.contains(name)),
        None => None,
    }
}

/// Whether a filter that may be missing matches a name.
pub fn match_with(filter: &Option<RSyncFilter>, path: &RelativePath) -> (res: Option<bool>)
    ensures
        res == matched_by(*filter, path@),
        filter is None <==> res is None,
        filter matches Some(f) ==> res == Some(f@.contains(path@)),
{
    match filter {
        Some(f) => Some(f.is_match(path)),
        None => None,
    }
}

impl Clone for RSyncFilter {
    fn clone(&self) -> (res: Self)
        ensures
            res@ == self@,
    {
        RSyncFilter { re: self.re.clone() }
    }
}

} // verus!
