//! The doorways: a kind of fashion item that the API does not list.
use vstd::prelude::*;
use crate::gw2::lookup::{collected, StaticLookup};

verus! {

/// A doorway and its name.
#[derive(Debug, Clone, Copy)]
pub struct Doorway {
    pub id: u32,
    pub name: &'static str,
}

/// The doorways known by id: `2`, the Kodan Conjured Doorway, and `5`, the Choya
/// Piñata Conjured Doorway.
pub fn known_doorways() -> (r: Vec<Doorway>)
    ensures
        r@.len() == 2,
        r@[0].id == 2,
        r@[1].id == 5,
        r@[0].name@ == "Kodan Conjured Doorway"@,
        r@[1].name@ == "Choya Piñata Conjured Doorway"@,
{
    vec![
        Doorway { id: 2, name: "Kodan Conjured Doorway" },
        Doorway { id: 5, name: "Choya Piñata Conjured Doorway" },
    ]
}

impl Doorway {
    /// The table of the known doorways' names, by id.
    pub fn lookup() -> (r: StaticLookup)
        ensures
            r.spec_names().dom() == set![2u32, 5u32],
            r.spec_names()[2] == "Kodan Conjured Doorway"@,
            r.spec_names()[5] == "Choya Piñata Conjured Doorway"@,
    {
        let doorways = known_doorways();
        let mut items: Vec<(u32, String)> = Vec::new();
        let mut i: usize = 0;
        while i < doorways.len()
            invariant
                doorways@.len() == 2,
                doorways@[0].id == 2,
                doorways@[1].id == 5,
                doorways@[0].name@ == "Kodan Conjured Doorway"@,
                doorways@[1].name@ == "Choya Piñata Conjured Doorway"@,
                i <= doorways@.len(),
                items@.len() == i,
                forall|j: int|
                    0 <= j < i ==> #[trigger] items@[j].0 == doorways@[j].id && items@[j].1@
                        == doorways@[j].name@,
            decreases doorways@.len() - i,
        {
            let d = doorways[i];
            items.push((d.id, <String as StringExecFns>::from_str(d.name)));
            i = i + 1;
        }
        let r = StaticLookup::new(items);
        proof {
            let s = items@;
            assert(s.len() == 2);
            let s0 = s.drop_last();
            assert(s0.last() == s[0]);
            assert(s0.drop_last() =~= Seq::<(u32, String)>::empty());
            assert(collected(s0.drop_last()) == Map::<u32, Seq<char>>::empty());
            assert(collected(s0) == Map::<u32, Seq<char>>::empty().insert(s[0].0, s[0].1@));
            assert(collected(s) == collected(s0).insert(s[1].0, s[1].1@));
            assert(i == 2);
            assert(items@[0].0 == doorways@[0].id);
            assert(items@[1].0 == doorways@[1].id);
            assert(r.spec_names().dom() =~= set![2u32, 5u32]);
        }
        r
    }

    /// The name of the doorway.
    pub fn name(&self) -> (r: &str)
        ensures
            r@ == self.name@,
    {
        self.name
    }
}

} // verus!
