//! Looking up names by id: a fixed table of names, and a lookup that falls back on
//! a second one.
use vstd::prelude::*;
use std::collections::HashMap;
use crate::gw2::error::Error;

verus! {

broadcast use vstd::std_specs::hash::group_hash_axioms;

/// The table that collecting `items` gives: each id with the name of its last entry.
pub open spec fn collected(items: Seq<(u32, String)>) -> Map<u32, Seq<char>>
    decreases items.len(),
{
    if items.len() == 0 {
        Map::empty()
    } else {
        collected(items.drop_last()).insert(items.last().0, items.last().1@)
    }
}

/// Names known in advance, by id.
pub struct StaticLookup {
    items: HashMap<u32, String>,
}

impl StaticLookup {
    /// The names of the table, by id.
    pub closed spec fn spec_names(&self) -> Map<u32, Seq<char>> {
        self.items@.map_values(|s: String| s@)
    }

    /// The table of `items`; where an id comes twice, its last name stays.
    pub fn new(items: Vec<(u32, String)>) -> (r: StaticLookup)
        ensures
            r.spec_names() == collected(items@),
    {
        let mut m: HashMap<u32, String> = HashMap::new();
        let mut i: usize = 0;
        assert(items@.subrange(0, 0) =~= Seq::<(u32, String)>::empty());
        assert(m@.map_values(|s: String| s@) =~= Map::<u32, Seq<char>>::empty());
        while i < items.len()
            invariant
                i <= items@.len(),
                m@.map_values(|s: String| s@) == collected(items@.subrange(0, i as int)),
            decreases items@.len() - i,
        {
            let id = items[i].0;
            let name = items[i].1.clone();
            let ghost before = m@;
            m.insert(id, name);
            proof {
                let pre = items@.subrange(0, i as int);
                let next = items@.subrange(0, i + 1);
                assert(next.drop_last() =~= pre);
                assert(next.last() == items@[i as int]);
                assert(m@.map_values(|s: String| s@) =~= before.map_values(|s: String| s@).insert(
                    id,
                    name@,
                ));
            }
            i = i + 1;
        }
        assert(items@.subrange(0, items@.len() as int) =~= items@);
        StaticLookup { items: m }
    }

    /// The name of `id`, if the table has one.
    pub fn resolve_name(&self, id: u32) -> (r: Option<String>)
        ensures
            match r {
                Some(s) => self.spec_names().contains_key(id) && s@ == self.spec_names()[id],
                None => !self.spec_names().contains_key(id),
            },
    {
        match self.items.get(&id) {
            Some(s) => Some(s.clone()),
            None => None,
        }
    }
}

/// What a lookup that falls back on a second one does once its first lookup has
/// answered.
pub enum FallbackStep {
    /// The first lookup's answer stands.
    Answer(Option<String>),
    /// The first lookup failed; the failure stands.
    Fail(Error),
    /// The first lookup has no name: ask the second one.
    AskFallback,
}

/// Two lookups, the second asked only where the first has no name.
pub struct Fallback<L1, L2> {
    pub primary: L1,
    pub fallback: L2,
}

impl<L1, L2> Fallback<L1, L2> {
    /// The lookup that asks `primary` first and `fallback` where it has no name.
    pub fn new(primary: L1, fallback: L2) -> (r: Fallback<L1, L2>)
        ensures
            r.primary == primary,
            r.fallback == fallback,
    {
        Fallback { primary, fallback }
    }

    /// The next step after the first lookup answered `primary`: a name is the
    /// answer, a failure is the answer as it came, and no name means asking the
    /// second lookup.
    pub fn after_primary(primary: Result<Option<String>, Error>) -> (r: FallbackStep)
        ensures
            match primary {
                Ok(Some(s)) => r matches FallbackStep::Answer(Some(x)) && x@ == s@,
                Ok(None) => r is AskFallback,
                Err(e) => r matches FallbackStep::Fail(x) && x == e,
            },
    {
        match primary {
            Ok(Some(s)) => FallbackStep::Answer(Some(s)),
            Ok(None) => FallbackStep::AskFallback,
            Err(e) => FallbackStep::Fail(e),
        }
    }
}

/// A name that the first lookup has is the answer, whatever the second holds; the
/// second is asked only when the first has no name.
pub proof fn law_fallback_prefers_primary(a: StaticLookup, b: StaticLookup, id: u32)
    ensures
        a.spec_names().contains_key(id) ==> lookup_both(a.spec_names(), b.spec_names(), id) == Some(
            a.spec_names()[id],
        ),
        !a.spec_names().contains_key(id) ==> lookup_both(a.spec_names(), b.spec_names(), id)
            == b.spec_names().get(id),
{
}

/// The name that asking `a`, then `b` where `a` has none, gives for `id`.
pub open spec fn lookup_both(a: Map<u32, Seq<char>>, b: Map<u32, Seq<char>>, id: u32) -> Option<
    Seq<char>,
> {
    if a.contains_key(id) {
        Some(a[id])
    } else {
        b.get(id)
    }
}

/// The name shown for what the API does not know.
pub open spec fn unknown_name() -> Seq<char> {
    "Unknown"@
}

/// The name of a fetched object: its own name, `Unknown` where the API does not
/// know it, the failure otherwise.
pub fn resolved_name(fetched: Result<String, Error>) -> (r: Result<String, Error>)
    ensures
        match fetched {
            Ok(name) => r matches Ok(x) && x@ == name@,
            Err(e) => if e.spec_kind() == crate::gw2::error::ErrorKind::NotFound {
                r matches Ok(x) && x@ == unknown_name()
            } else {
                r matches Err(x) && x == e
            },
        },
{
    match fetched {
        Ok(name) => Ok(name),
        Err(e) => if e.is_not_found() {
            Ok(<String as StringExecFns>::from_str("Unknown"))
        } else {
            Err(e)
        },
    }
}

} // verus!
