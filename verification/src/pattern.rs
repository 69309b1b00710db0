//! Matching function names against regular expressions.
//!
//! The regular expressions are those of the `regex` crate. What that crate
//! decides is taken on trust and given a name here; everything built on
//! top of it is proved.

use crate::error::SnipError;
use crate::options::texts;
use regex::RegexSet;
use vstd::prelude::*;

verus! {

/// `regex::RegexSet`, a set of compiled regular expressions. Nothing inside
/// it is visible to the proofs.
#[verifier::external_type_specification]
#[verifier::external_body]
pub struct ExRegexSet(regex::RegexSet);

/// `regex::Error`, what the crate reports of a pattern that it rejects.
/// Nothing inside it is visible to the proofs.
#[verifier::external_type_specification]
#[verifier::external_body]
pub struct ExRegexError(regex::Error);

/// Whether `regex::RegexSet::new` accepts these patterns: whether each is
/// a regular expression in the crate's syntax and all of them together
/// stay within its default size limit.
pub uninterp spec fn regex_set_compiles(patterns: Seq<Seq<char>>) -> bool;

/// The patterns that a `regex::RegexSet` holds, in the order in which they
/// were given to it: what `regex::RegexSet::patterns` returns.
pub uninterp spec fn regex_set_patterns(set: &RegexSet) -> Seq<Seq<char>>;

/// Whether the regular expression `pattern` matches somewhere in `text`, as
/// the `regex` crate searches with its default settings.
pub uninterp spec fn regex_matches(pattern: Seq<char>, text: Seq<char>) -> bool;

/// Whether one of `patterns` matches somewhere in `text`.
pub open spec fn any_matches(patterns: Seq<Seq<char>>, text: Seq<char>) -> bool {
    exists|i: int| 0 <= i < patterns.len() && #[trigger] regex_matches(patterns[i], text)
}

/// `regex::RegexSet::new`, on a vector of patterns. It returns an error
/// when the crate rejects a pattern; a set that it returns holds exactly
/// the patterns given, in their order.
#[verifier::external_body]
fn compile_set(patterns: &Vec<String>) -> (r: Result<RegexSet, regex::Error>)
    ensures
        r is Ok == regex_set_compiles(texts(patterns@)),
        r matches Ok(set) ==> regex_set_patterns(&set) == texts(patterns@),
{
    RegexSet::new(patterns)
}

/// `regex::RegexSet::is_match`: true if and only if one of the regular
/// expressions in the set matches somewhere in `text`. This is claimed of
/// sets made by `RegexSet::new`, which searches with default settings.
#[verifier::external_body]
fn set_is_match(set: &RegexSet, text: &str) -> (b: bool)
    ensures
        b == (exists|i: int|
            0 <= i < regex_set_patterns(set).len() && #[trigger] regex_matches(
                regex_set_patterns(set)[i],
                text@,
            )),
{
    set.is_match(text)
}

/// The `Display` text of a `regex::Error`. Nothing is claimed of it.
#[verifier::external_body]
fn describe(e: &regex::Error) -> (s: String) {
    e.to_string()
}

/// The pattern `p`, wrapped so that it has to match a text from its first
/// character to its last.
pub open spec fn anchored(p: Seq<char>) -> Seq<char> {
    "^(?:"@ + p + ")$"@
}

/// Each pattern, anchored.
pub open spec fn anchor_all(ps: Seq<Seq<char>>) -> Seq<Seq<char>> {
    Seq::new(ps.len(), |i: int| anchored(ps[i]))
}

/// Whether one of `patterns` matches the whole of `name`.
pub open spec fn name_matches(patterns: Seq<Seq<char>>, name: Seq<char>) -> bool {
    any_matches(anchor_all(patterns), name)
}

/// Whether a matcher can be made of `patterns`: each is a regular
/// expression by itself, and stays one when it is anchored. (A pattern
/// that ends in a comment of the verbose syntax does not: the comment
/// swallows the closing anchor.)
pub open spec fn patterns_valid(patterns: Seq<Seq<char>>) -> bool {
    patterns.len() == 0 || (regex_set_compiles(patterns) && regex_set_compiles(
        anchor_all(patterns),
    ))
}

/// Wraps `p` so that it has to match from the first character of a text
/// to the last.
pub fn anchor(p: &str) -> (s: String)
    ensures
        s@ == anchored(p@),
{
    String::from_str("^(?:").concat(p).concat(")$")
}

/// Anchors each pattern.
pub fn anchor_each(patterns: &Vec<String>) -> (v: Vec<String>)
    ensures
        texts(v@) == anchor_all(texts(patterns@)),
{
    let mut v: Vec<String> = Vec::new();
    let mut i: usize = 0;
    while i < patterns.len()
        invariant
            i <= patterns@.len(),
            v@.len() == i,
            forall|j: int| 0 <= j < i ==> (#[trigger] v@[j])@ == anchored(patterns@[j]@),
        decreases patterns@.len() - i,
    {
        v.push(anchor(patterns[i].as_str()));
        i += 1;
    }
    assert(texts(v@) =~= anchor_all(texts(patterns@)));
    v
}

/// A set of patterns, compiled once, against which names are matched.
pub struct NameMatcher {
    raw: Vec<String>,
    set: Option<RegexSet>,
}

impl NameMatcher {
    #[verifier::type_invariant]
    spec fn inv(self) -> bool {
        match self.set {
            None => self.raw@.len() == 0,
            Some(set) => regex_set_patterns(&set) == anchor_all(texts(self.raw@)),
        }
    }

    /// The patterns that the matcher was made of.
    pub closed spec fn patterns(&self) -> Seq<Seq<char>> {
        texts(self.raw@)
    }

    /// Compiles `patterns`. Without patterns there is nothing to compile,
    /// and the matcher matches no name.
    pub fn new(patterns: Vec<String>) -> (r: Result<NameMatcher, SnipError>)
        ensures
            r is Ok <==> patterns_valid(texts(patterns@)),
            r matches Ok(m) ==> m.patterns() == texts(patterns@),
            r matches Err(e) ==> e is Pattern,
    {
        if patterns.len() == 0 {
            return Ok(NameMatcher { raw: patterns, set: None });
        }
        match compile_set(&patterns) {
            Err(e) => Err(SnipError::Pattern(describe(&e))),
            Ok(_) => {
                let whole = anchor_each(&patterns);
                match compile_set(&whole) {
                    Err(e) => Err(SnipError::Pattern(describe(&e))),
                    Ok(set) => Ok(NameMatcher { raw: patterns, set: Some(set) }),
                }
            },
        }
    }

    /// Whether one of the patterns matches the whole of `name`.
    pub fn matches(&self, name: &str) -> (b: bool)
        ensures
            b == name_matches(self.patterns(), name@),
    {
        proof {
            use_type_invariant(self);
        }
        match &self.set {
            None => {
                assert(anchor_all(self.patterns()).len() == 0);
                false
            },
            Some(set) => set_is_match(set, name),
        }
    }
}

} // verus!
