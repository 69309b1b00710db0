//! The configuration of one run.

use vstd::prelude::*;

verus! {

/// What to snip.
#[derive(Clone, Debug, PartialEq, Eq)]
pub struct Options {
    /// Names of functions to snip; a name must be equal to match.
    pub functions: Vec<String>,
    /// Regular expressions; a function is snipped when one of them matches
    /// its whole name.
    pub patterns: Vec<String>,
    /// Snip Rust's `std::fmt` and `core::fmt` code.
    pub snip_rust_fmt_code: bool,
    /// Snip Rust's `std::panicking` and `core::panicking` code.
    pub snip_rust_panicking_code: bool,
    /// Do not emit the producers section when the module is written out.
    pub skip_producers_section: bool,
}

/// The strings that a vector of `String`s holds.
pub open spec fn texts(v: Seq<String>) -> Seq<Seq<char>> {
    Seq::new(v.len(), |i: int| v[i]@)
}

/// The patterns that stand for Rust's formatting code: mangled symbols,
/// symbols mangled inside an impl, and demangled symbols.
pub open spec fn fmt_patterns() -> Seq<Seq<char>> {
    seq![
        ".*4core3fmt.*"@,
        ".*3std3fmt.*"@,
        ".*core\\.\\.fmt\\.\\..*"@,
        ".*std\\.\\.fmt\\.\\..*"@,
        ".*core::fmt::.*"@,
        ".*std::fmt::.*"@,
    ]
}

/// The patterns that stand for Rust's panicking code, in the same three
/// spellings.
pub open spec fn panicking_patterns() -> Seq<Seq<char>> {
    seq![
        ".*4core9panicking.*"@,
        ".*3std9panicking.*"@,
        ".*core\\.\\.panicking\\.\\..*"@,
        ".*std\\.\\.panicking\\.\\..*"@,
        ".*core::panicking::.*"@,
        ".*std::panicking::.*"@,
    ]
}

fn push_pattern(v: &mut Vec<String>, p: &str)
    ensures
        texts(final(v)@) == texts(old(v)@).push(p@),
{
    v.push(String::from_str(p));
    assert(texts(v@) =~= texts(old(v)@).push(p@));
}

fn push_fmt_patterns(v: &mut Vec<String>)
    ensures
        texts(final(v)@) == texts(old(v)@) + fmt_patterns(),
{
    push_pattern(v, ".*4core3fmt.*");
    push_pattern(v, ".*3std3fmt.*");
    push_pattern(v, ".*core\\.\\.fmt\\.\\..*");
    push_pattern(v, ".*std\\.\\.fmt\\.\\..*");
    push_pattern(v, ".*core::fmt::.*");
    push_pattern(v, ".*std::fmt::.*");
    assert(texts(v@) =~= texts(old(v)@) + fmt_patterns());
}

fn push_panicking_patterns(v: &mut Vec<String>)
    ensures
        texts(final(v)@) == texts(old(v)@) + panicking_patterns(),
{
    push_pattern(v, ".*4core9panicking.*");
    push_pattern(v, ".*3std9panicking.*");
    push_pattern(v, ".*core\\.\\.panicking\\.\\..*");
    push_pattern(v, ".*std\\.\\.panicking\\.\\..*");
    push_pattern(v, ".*core::panicking::.*");
    push_pattern(v, ".*std::panicking::.*");
    assert(texts(v@) =~= texts(old(v)@) + panicking_patterns());
}

impl Options {
    /// The patterns of a run: the user's, then those of each heuristic
    /// that is switched on.
    pub open spec fn effective_patterns(&self) -> Seq<Seq<char>> {
        texts(self.patterns@) + (if self.snip_rust_fmt_code {
            fmt_patterns()
        } else {
            Seq::empty()
        }) + (if self.snip_rust_panicking_code {
            panicking_patterns()
        } else {
            Seq::empty()
        })
    }

    /// Options that select nothing.
    pub fn new() -> (o: Options)
        ensures
            o.functions@.len() == 0,
            o.patterns@.len() == 0,
            !o.snip_rust_fmt_code,
            !o.snip_rust_panicking_code,
            !o.skip_producers_section,
    {
        Options {
            functions: Vec::new(),
            patterns: Vec::new(),
            snip_rust_fmt_code: false,
            snip_rust_panicking_code: false,
            skip_producers_section: false,
        }
    }

    /// Computes `effective_patterns`.
    pub fn all_patterns(&self) -> (v: Vec<String>)
        ensures
            texts(v@) == self.effective_patterns(),
    {
        let mut v: Vec<String> = Vec::new();
        let mut i: usize = 0;
        while i < self.patterns.len()
            invariant
                i <= self.patterns@.len(),
                texts(v@) == texts(self.patterns@).take(i as int),
            decreases self.patterns@.len() - i,
        {
            push_pattern(&mut v, self.patterns[i].as_str());
            assert(texts(v@) =~= texts(self.patterns@).take(i + 1));
            i += 1;
        }
        assert(texts(v@) =~= texts(self.patterns@));
        if self.snip_rust_fmt_code {
            push_fmt_patterns(&mut v);
        }
        if self.snip_rust_panicking_code {
            push_panicking_patterns(&mut v);
        }
        assert(texts(v@) =~= self.effective_patterns());
        v
    }

    /// Whether the producers section is to be written out.
    pub fn emits_producers_section(&self) -> (b: bool)
        ensures
            b == !self.skip_producers_section,
    {
        !self.skip_producers_section
    }
}

impl Default for Options {
    fn default() -> (o: Options)
        ensures
            o.functions@.len() == 0,
            o.patterns@.len() == 0,
            !o.snip_rust_fmt_code,
            !o.snip_rust_panicking_code,
            !o.skip_producers_section,
    {
        Options::new()
    }
}

} // verus!
