//! Filters on text: a prefix, a suffix and substrings that must all match.
use vstd::prelude::*;

verus! {

/// What a text must look like: start with `prefix` and end with `suffix` where
/// they are set, and hold each of `substrings`.
#[derive(Debug)]
pub struct StringFilters {
    pub prefix: Option<String>,
    pub suffix: Option<String>,
    pub substrings: Vec<String>,
}

/// The texts of some strings.
pub open spec fn texts(v: Seq<String>) -> Seq<Seq<char>> {
    v.map_values(|s: String| s@)
}

/// The strings as owned strings, in order.
pub fn collect_strings(strings: &[&str]) -> (r: Vec<String>)
    ensures
        r@.len() == strings@.len(),
        forall|i: int| 0 <= i < r@.len() ==> #[trigger] r@[i]@ == strings@[i]@,
{
    let mut r: Vec<String> = Vec::new();
    let mut i: usize = 0;
    while i < strings.len()
        invariant
            i <= strings@.len(),
            r@.len() == i,
            forall|j: int| 0 <= j < i ==> #[trigger] r@[j]@ == strings@[j]@,
        decreases strings@.len() - i,
    {
        r.push(<String as StringExecFns>::from_str(strings[i]));
        i = i + 1;
    }
    r
}

impl StringFilters {
    /// No filter: no prefix, no suffix, no substring.
    pub fn new() -> (r: StringFilters)
        ensures
            r.prefix is None,
            r.suffix is None,
            r.substrings@.len() == 0,
    {
        StringFilters { prefix: None, suffix: None, substrings: Vec::new() }
    }

    /// The same filters with `prefix` as the prefix.
    pub fn with_prefix(self, prefix: &str) -> (r: StringFilters)
        ensures
            r.prefix matches Some(p) && p@ == prefix@,
            r.suffix == self.suffix,
            r.substrings == self.substrings,
    {
        let mut f = self;
        f.prefix = Some(<String as StringExecFns>::from_str(prefix));
        f
    }

    /// The same filters with `suffix` as the suffix.
    pub fn with_suffix(self, suffix: &str) -> (r: StringFilters)
        ensures
            r.suffix matches Some(s) && s@ == suffix@,
            r.prefix == self.prefix,
            r.substrings == self.substrings,
    {
        let mut f = self;
        f.suffix = Some(<String as StringExecFns>::from_str(suffix));
        f
    }

    /// The same filters with `substrings` as the substrings.
    pub fn with_substrings(self, substrings: &[&str]) -> (r: StringFilters)
        ensures
            r.prefix == self.prefix,
            r.suffix == self.suffix,
            r.substrings@.len() == substrings@.len(),
            forall|i: int|
                0 <= i < substrings@.len() ==> #[trigger] r.substrings@[i]@ == substrings@[i]@,
    {
        let mut f = self;
        f.substrings = collect_strings(substrings);
        f
    }
}

impl Default for StringFilters {
    fn default() -> (r: StringFilters)
        ensures
            r.prefix is None,
            r.suffix is None,
            r.substrings@.len() == 0,
    {
        StringFilters::new()
    }
}

} // verus!
