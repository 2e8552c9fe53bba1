//! Suppression of log messages by configured regular expressions.
use vstd::prelude::*;
use crate::model::ReportError;

verus! {

#[verifier::external_type_specification]
#[verifier::external_body]
pub struct ExRegex(regex::Regex);

#[verifier::external_type_specification]
#[verifier::external_body]
pub struct ExRegexError(regex::Error);

/// Whether `regex::Regex::new` accepts a pattern: it is valid syntax and
/// within the default size limit, a function of the pattern alone.
pub uninterp spec fn compiles(pattern: Seq<char>) -> bool;

/// The pattern a compiled expression was built from, as `Regex::as_str`
/// returns it.
pub uninterp spec fn pattern_of(re: regex::Regex) -> Seq<char>;

/// Whether the expression written `pattern` matches anywhere in `haystack`.
pub uninterp spec fn finds_match(pattern: Seq<char>, haystack: Seq<char>) -> bool;

/// Relies on `regex::Regex::new`: it succeeds exactly on the patterns that
/// compile, and the result keeps the pattern it was built from.
#[verifier::external_body]
fn compile_pattern(pattern: &str) -> (r: Result<regex::Regex, regex::Error>)
    ensures
        r is Ok <==> compiles(pattern@),
        r is Ok ==> pattern_of(r->Ok_0) == pattern@,
{
    regex::Regex::new(pattern)
}

/// Relies on `regex::Regex::is_match`: an unanchored search, decided by the
/// pattern and the haystack.
#[verifier::external_body]
fn regex_is_match(re: &regex::Regex, haystack: &str) -> (r: bool)
    ensures
        r == finds_match(pattern_of(*re), haystack@),
{
    re.is_match(haystack)
}

/// Whether some pattern of `patterns` matches `message`.
pub open spec fn suppressed(patterns: Seq<Seq<char>>, message: Seq<char>) -> bool {
    exists|i: int| 0 <= i < patterns.len() && finds_match(#[trigger] patterns[i], message)
}

/// The first position of a pattern that does not compile, if any.
pub open spec fn first_invalid(patterns: Seq<Seq<char>>) -> Option<int> {
    if exists|i: int| 0 <= i < patterns.len() && !compiles(#[trigger] patterns[i]) {
        Some(choose|i: int| 0 <= i < patterns.len() && !compiles(#[trigger] patterns[i])
            && forall|k: int| 0 <= k < i ==> compiles(#[trigger] patterns[k]))
    } else {
        None
    }
}

/// A list of compiled ignore patterns, in configuration order.
pub struct IgnoreList {
    regexes: Vec<regex::Regex>,
}

impl IgnoreList {
    /// The patterns the list was compiled from.
    pub closed spec fn view(&self) -> Seq<Seq<char>> {
        self.regexes@.map_values(|re: regex::Regex| pattern_of(re))
    }

    /// A list that suppresses nothing.
    pub fn empty() -> (r: IgnoreList)
        ensures
            r@ == Seq::<Seq<char>>::empty(),
    {
        let r = IgnoreList { regexes: Vec::new() };
        assert(r@ =~= Seq::<Seq<char>>::empty());
        r
    }

    /// Compiles every pattern before any message is looked at; the first
    /// pattern that does not compile is reported by its position.
    pub fn compile(patterns: &Vec<String>) -> (r: Result<IgnoreList, ReportError>)
        ensures
            match first_invalid(patterns@.map_values(|s: String| s@)) {
                None => r is Ok && r->Ok_0@ == patterns@.map_values(|s: String| s@),
                Some(i) => r == Err::<IgnoreList, ReportError>(ReportError::InvalidIgnorePattern(i as usize)),
            },
    {
        let ghost srcs = patterns@.map_values(|s: String| s@);
        let mut regexes: Vec<regex::Regex> = Vec::new();
        let mut i: usize = 0;
        while i < patterns.len()
            invariant
                i <= patterns@.len(),
                srcs == patterns@.map_values(|s: String| s@),
                regexes@.len() == i,
                forall|k: int| 0 <= k < i ==> compiles(#[trigger] srcs[k]),
                forall|k: int| 0 <= k < i ==> pattern_of(#[trigger] regexes@[k]) == srcs[k],
            decreases patterns.len() - i,
        {
            match compile_pattern(patterns[i].as_str()) {
                Ok(re) => {
                    regexes.push(re);
                },
                Err(_) => {
                    proof {
                        assert(!compiles(srcs[i as int]));
                        let w = choose|j: int| 0 <= j < srcs.len() && !compiles(#[trigger] srcs[j])
                            && forall|k: int| 0 <= k < j ==> compiles(#[trigger] srcs[k]);
                        assert(0 <= i < srcs.len() && !compiles(srcs[i as int])
                            && forall|k: int| 0 <= k < i ==> compiles(#[trigger] srcs[k]));
                        if w < i {
                        } else if w > i {
                            assert(compiles(srcs[i as int]));
                        }
                    }
                    return Err(ReportError::InvalidIgnorePattern(i));
                },
            }
            i = i + 1;
        }
        let r = IgnoreList { regexes };
        assert(r@ =~= srcs);
        assert(first_invalid(srcs) is None);
        Ok(r)
    }
}

/// Whether a log message is suppressed: some pattern of the list matches it.
/// The patterns are tried in order and the first match decides.
pub fn should_ignore_message(message: &str, ignore: &IgnoreList) -> (r: bool)
    ensures
        r == suppressed(ignore@, message@),
{
    let mut i: usize = 0;
    while i < ignore.regexes.len()
        invariant
            i <= ignore.regexes@.len(),
            forall|k: int| 0 <= k < i ==> !finds_match(#[trigger] ignore@[k], message@),
        decreases ignore.regexes.len() - i,
    {
        if regex_is_match(&ignore.regexes[i], message) {
            assert(finds_match(ignore@[i as int], message@));
            return true;
        }
        i = i + 1;
    }
    false
}

} // verus!
