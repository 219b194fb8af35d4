//! Named chat links used as test cases, and the ways they are listed.
use vstd::prelude::*;

verus! {

/// A template test case: its name and its chat link.
#[derive(Debug, Clone, Copy)]
pub struct FashionTemplate {
    pub name: &'static str,
    pub chat_link: &'static str,
}

impl FashionTemplate {
    /// The test case `name` with the chat link `chat_link`.
    pub fn new(name: &'static str, chat_link: &'static str) -> (r: FashionTemplate)
        ensures
            r.name == name,
            r.chat_link == chat_link,
    {
        FashionTemplate { name, chat_link }
    }

    /// The name of the snapshot of this case: the name alone when `prefix` is empty,
    /// else the prefix, `_` and the name.
    pub fn snapshot_name(&self, prefix: &str) -> (r: String)
        ensures
            r@ == (if prefix@.len() == 0 {
                self.name@
            } else {
                prefix@ + seq!['_'] + self.name@
            }),
    {
        if prefix.unicode_len() == 0 {
            <String as StringExecFns>::from_str(self.name)
        } else {
            let mut s = <String as StringExecFns>::from_str(prefix);
            s.append("_");
            s.append(self.name);
            proof {
                reveal_strlit("_");
            }
            s
        }
    }
}

/// Each case as a CSV line: its name, a comma, its chat link.
pub fn templates_as_csv(templates: &[FashionTemplate]) -> (r: Vec<String>)
    ensures
        r@.len() == templates@.len(),
        forall|i: int|
            0 <= i < r@.len() ==> #[trigger] r@[i]@ == templates@[i].name@ + seq![','] + templates@[i].chat_link@,
{
    let mut r: Vec<String> = Vec::new();
    let mut i: usize = 0;
    while i < templates.len()
        invariant
            i <= templates@.len(),
            r@.len() == i,
            forall|j: int|
                0 <= j < i ==> #[trigger] r@[j]@ == templates@[j].name@ + seq![','] + templates@[j].chat_link@,
        decreases templates@.len() - i,
    {
        let t = templates[i];
        let mut s = <String as StringExecFns>::from_str(t.name);
        s.append(",");
        s.append(t.chat_link);
        proof {
            reveal_strlit(",");
        }
        r.push(s);
        i = i + 1;
    }
    r
}

/// The chat links of the cases, in order.
pub fn templates_as_list(templates: &[FashionTemplate]) -> (r: Vec<String>)
    ensures
        r@.len() == templates@.len(),
        forall|i: int| 0 <= i < r@.len() ==> #[trigger] r@[i]@ == templates@[i].chat_link@,
{
    let mut r: Vec<String> = Vec::new();
    let mut i: usize = 0;
    while i < templates.len()
        invariant
            i <= templates@.len(),
            r@.len() == i,
            forall|j: int| 0 <= j < i ==> #[trigger] r@[j]@ == templates@[j].chat_link@,
        decreases templates@.len() - i,
    {
        r.push(<String as StringExecFns>::from_str(templates[i].chat_link));
        i = i + 1;
    }
    r
}

} // verus!
