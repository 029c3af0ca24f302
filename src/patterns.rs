//! Compiled regular expressions, and the text their matches hold.

use vstd::prelude::*;

verus! {

#[verifier::external_type_specification]
#[verifier::external_body]
pub struct ExRegex(regex::Regex);

/// The text of capture group `group` of the leftmost match of the regular
/// expression `pattern` in `hay`, or `None` where there is no match or the
/// group took no part in it or does not exist.
pub uninterp spec fn capture_of(pattern: Seq<char>, hay: Seq<char>, group: nat) -> Option<Seq<char>>;

/// The texts of the successive non-overlapping matches of `pattern` in `hay`.
pub uninterp spec fn matches_of(pattern: Seq<char>, hay: Seq<char>) -> Seq<Seq<char>>;

/// What `str::trim` leaves of `s`.
pub uninterp spec fn trimmed(s: Seq<char>) -> Seq<char>;

/// A regular expression together with the source text it was compiled from.
pub struct Pattern {
    source: String,
    re: regex::Regex,
}

impl Pattern {
    /// The source text of the expression.
    pub closed spec fn source(&self) -> Seq<char> {
        self.source@
    }

    /// Compiles `pattern`; `None` where the regex crate refuses it.
    pub fn new(pattern: &str) -> (r: Option<Pattern>)
        ensures
            r matches Some(p) ==> p.source() == pattern@,
    {
        match compile(pattern) {
            Some(re) => Some(Pattern { source: pattern.to_string(), re }),
            None => None,
        }
    }

    /// Relies on `regex::Regex::captures` and `Captures::get`: capture group
    /// `group` of the leftmost match in `hay`.
    #[verifier::external_body]
    pub(crate) fn capture(&self, hay: &str, group: usize) -> (r: Option<String>)
        ensures
            r matches Some(s) ==> capture_of(self.source(), hay@, group as nat) == Some(s@),
            r is None ==> capture_of(self.source(), hay@, group as nat) is None,
    {
        self.re.captures(hay).and_then(|c| c.get(group)).map(|m| m.as_str().to_string())
    }

    /// Relies on `regex::Regex::find_iter`: the text of each successive
    /// non-overlapping match in `hay`, as characters.
    #[verifier::external_body]
    pub(crate) fn find_all(&self, hay: &str) -> (r: Vec<Vec<char>>)
        ensures
            r@.map_values(|v: Vec<char>| v@) == matches_of(self.source(), hay@),
    {
        self.re.find_iter(hay).map(|m| m.as_str().chars().collect()).collect()
    }
}

/// Relies on `str::trim`: `s` without leading and trailing white space.
#[verifier::external_body]
pub(crate) fn trim_text(s: &str) -> (r: String)
    ensures
        r@ == trimmed(s@),
{
    s.trim().to_string()
}

/// Relies on `regex::Regex::new`: the compiled expression, or `None` on a
/// syntax error or a size limit.
#[verifier::external_body]
fn compile(pattern: &str) -> (r: Option<regex::Regex>)
{
    regex::Regex::new(pattern).ok()
}

} // verus!
