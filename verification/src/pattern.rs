//! Compiled pattern type and the regex calls the engine relies on.
//!
//! A `Pattern` pairs a compiled regular expression with the pattern text it
//! was compiled from; contracts speak of the pattern text alone, since regex
//! compilation and matching are functions of that text.

use vstd::prelude::*;

verus! {

#[verifier::external_type_specification]
#[verifier::external_body]
pub struct ExRegex(regex::Regex);

/// What `regex::Regex::replacen` returns: `text` with at most `limit`
/// leftmost non-overlapping matches of `pattern` rewritten by the
/// `replacement` template (every match when `limit` is zero).
pub uninterp spec fn replacen_of(
    pattern: Seq<char>,
    text: Seq<char>,
    limit: nat,
    replacement: Seq<char>,
) -> Seq<char>;

/// What capture group 1 of the leftmost `pattern` match in `text` holds, if
/// `pattern` matches `text` and that group participates in the match.
pub uninterp spec fn capture1_of(pattern: Seq<char>, text: Seq<char>) -> Option<Seq<char>>;

/// Whether `regex::Regex::new` accepts `pattern`: acceptance is a function of
/// the pattern text alone.
pub uninterp spec fn compiles_of(pattern: Seq<char>) -> bool;

/// A compiled regular expression together with its pattern text.
///
/// The fields are private: the only constructor compiles the expression from
/// the stored text, so the two always agree.
pub struct Pattern {
    re: regex::Regex,
    source: String,
}

impl View for Pattern {
    type V = Seq<char>;

    closed spec fn view(&self) -> Seq<char> {
        self.source@
    }
}

impl Pattern {
    /// Relies on `regex::Regex::new`: compiles the pattern text, succeeding
    /// exactly when the text is a valid pattern; compilation depends on the
    /// pattern text alone.
    #[verifier::external_body]
    pub fn new(source: &str) -> (r: Result<Pattern, String>)
        ensures
            r matches Ok(p) ==> p@ == source@,
            r is Ok <==> compiles_of(source@),
    {
        match regex::Regex::new(source) {
            Ok(re) => Ok(Pattern { re, source: source.to_owned() }),
            Err(e) => Err(e.to_string()),
        }
    }
}

/// Relies on `regex::Regex::replacen`: rewrites at most `limit` leftmost
/// non-overlapping matches (all of them when `limit` is zero); the result
/// depends only on the pattern text, the input, the limit and the
/// replacement template.
#[verifier::external_body]
pub(crate) fn replacen(p: &Pattern, text: &str, limit: usize, replacement: &str) -> (r: String)
    ensures
        r@ == replacen_of(p@, text@, limit as nat, replacement@),
{
    p.re.replacen(text, limit, replacement).into_owned()
}

/// Relies on `regex::Regex::captures` and `regex::Captures::get`: the text of
/// capture group 1 of the leftmost match, `None` when the pattern does not
/// match (or group 1 takes no part in the match); the outcome depends only on
/// the pattern text and the input.
#[verifier::external_body]
pub(crate) fn capture1(p: &Pattern, text: &str) -> (r: Option<String>)
    ensures
        match r {
            Some(s) => capture1_of(p@, text@) == Some(s@),
            None => capture1_of(p@, text@) is None,
        },
{
    match p.re.captures(text) {
        Some(caps) => match caps.get(1) {
            Some(m) => Some(m.as_str().to_owned()),
            None => None,
        },
        None => None,
    }
}

} // verus!
