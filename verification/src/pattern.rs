//! Compiled regular expressions and their mathematical model.
//!
//! A [`Pattern`] is known by its source text. What the text means is left to
//! the `regex` crate: [`compiled`] and [`accepts`] stand for what that crate
//! computes, nothing is proved of them, and the rest of the library reasons
//! over them.

use regex::Regex;
use vstd::prelude::*;

verus! {

/// `regex::Regex`, a compiled expression: opaque to the verifier.
#[verifier::external_type_specification]
#[verifier::external_body]
pub struct ExRegex(regex::Regex);

/// `regex::Error`, why a pattern text was rejected: opaque to the verifier.
#[verifier::external_type_specification]
#[verifier::external_body]
pub struct ExRegexError(regex::Error);

/// What `regex::Regex::new` makes of a pattern text: the compiled
/// expression, or `None` where the text is rejected (it is no valid
/// expression, or one that would grow over the crate's size limit).
pub uninterp spec fn compiled(source: Seq<char>) -> Option<Regex>;

/// What `regex::Regex::is_match` answers for a compiled expression and a
/// text: whether the expression matches anywhere in the text.
pub uninterp spec fn accepts(regex: Regex, text: Seq<char>) -> bool;

/// The pattern text is a regular expression that can be compiled.
pub open spec fn compiles(source: Seq<char>) -> bool {
    compiled(source) is Some
}

/// The pattern text compiles and matches somewhere in `text`.
pub open spec fn matches(source: Seq<char>, text: Seq<char>) -> bool {
    compiled(source) matches Some(regex) && accepts(regex, text)
}

/// Some pattern of the list matches somewhere in `text`.
pub open spec fn any_matches(sources: Seq<Seq<char>>, text: Seq<char>) -> bool {
    exists|i: int| 0 <= i < sources.len() && matches(#[trigger] sources[i], text)
}

/// The pattern texts of `sources` that compile, in their order.
pub open spec fn compilable(sources: Seq<Seq<char>>) -> Seq<Seq<char>> {
    sources.filter(|source: Seq<char>| compiles(source))
}

/// Calls `regex::Regex::new`, which compiles with the crate's default
/// options. Trusted: whether the text is accepted, and the expression that
/// comes back, depend on the text alone, so both go by the name [`compiled`].
#[verifier::external_body]
fn compile_regex(source: &str) -> (r: Result<Regex, regex::Error>)
    ensures
        r is Ok <==> compiled(source@) is Some,
        r matches Ok(regex) ==> compiled(source@) == Some(regex),
{
    Regex::new(source)
}

/// Calls `regex::Regex::is_match`, which searches the whole of `text` for a
/// match. Trusted: the answer depends on the expression and the text alone,
/// so it goes by the name [`accepts`]. The call does not panic.
#[verifier::external_body]
fn regex_is_match(regex: &Regex, text: &str) -> (b: bool)
    ensures
        b == accepts(*regex, text@),
{
    regex.is_match(text)
}

/// Calls `clone` on a `regex::Regex`. Trusted: the copy is the same
/// expression as the one it was made from.
#[verifier::external_body]
fn regex_clone(regex: &Regex) -> (copy: Regex)
    ensures
        copy == *regex,
{
    regex.clone()
}

/// A regular expression, kept with the text it was compiled from.
pub struct Pattern {
    source: String,
    regex: Regex,
}

impl View for Pattern {
    type V = Seq<char>;

    /// The source text of the pattern.
    closed spec fn view(&self) -> Seq<char> {
        self.source@
    }
}

impl Pattern {
    #[verifier::type_invariant]
    spec fn well_formed(self) -> bool {
        compiled(self.source@) == Some(self.regex)
    }

    /// Compiles `source`; `None` where it is no valid regular expression.
    pub fn compile(source: &str) -> (pattern: Option<Pattern>)
        ensures
            pattern is Some <==> compiles(source@),
            pattern matches Some(p) ==> p@ == source@,
    {
        match compile_regex(source) {
            Ok(regex) => Some(Pattern { source: source.to_owned(), regex }),
            Err(_) => None,
        }
    }

    /// The text this pattern was compiled from.
    pub fn source(&self) -> (text: &str)
        ensures
            text@ == self@,
    {
        self.source.as_str()
    }

    /// Searches `text` for a match of this pattern.
    pub fn is_match(&self, text: &str) -> (b: bool)
        ensures
            b == matches(self@, text@),
    {
        proof {
            use_type_invariant(self);
        }
        regex_is_match(&self.regex, text)
    }
}

impl Clone for Pattern {
    fn clone(&self) -> (copy: Pattern)
        ensures
            copy@ == self@,
    {
        proof {
            use_type_invariant(self);
        }
        Pattern { source: self.source.clone(), regex: regex_clone(&self.regex) }
    }
}

/// The source texts of a list of patterns.
pub open spec fn sources(patterns: Seq<Pattern>) -> Seq<Seq<char>> {
    patterns.map_values(|p: Pattern| p@)
}

/// Tells whether some pattern of the list matches somewhere in `text`.
pub fn any_match(patterns: &Vec<Pattern>, text: &str) -> (b: bool)
    ensures
        b == any_matches(sources(patterns@), text@),
{
    let mut i: usize = 0;
    while i < patterns.len()
        invariant
            i <= patterns.len(),
            forall|k: int| 0 <= k < i ==> !matches(#[trigger] sources(patterns@)[k], text@),
        decreases patterns.len() - i,
    {
        if patterns[i].is_match(text) {
            assert(matches(sources(patterns@)[i as int], text@));
            return true;
        }
        i += 1;
    }
    false
}

/// Copies a list of patterns.
pub fn clone_patterns(patterns: &Vec<Pattern>) -> (copy: Vec<Pattern>)
    ensures
        sources(copy@) == sources(patterns@),
{
    let mut copy: Vec<Pattern> = Vec::new();
    let mut i: usize = 0;
    while i < patterns.len()
        invariant
            i <= patterns.len(),
            copy.len() == i,
            forall|k: int| 0 <= k < i ==> (#[trigger] copy@[k])@ == patterns@[k]@,
        decreases patterns.len() - i,
    {
        copy.push(patterns[i].clone());
        i += 1;
    }
    assert(sources(copy@) =~= sources(patterns@));
    copy
}

} // verus!
