//! Names of skins that the API does not know, kept with the program.
use vstd::prelude::*;
use crate::slots::FashionSlotKind;

verus! {

#[verifier::external_type_specification]
#[verifier::external_body]
pub struct ExDatetime(toml::value::Datetime);

/// A name kept with the program: the id it stands for, the name, the wiki page it
/// was taken from and when it was last checked.
#[derive(Debug)]
pub struct StaticName {
    pub id: u32,
    pub name: String,
    pub wiki: String,
    pub last_checked: toml::value::Datetime,
}

impl Clone for StaticName {
    fn clone(&self) -> (r: Self)
        ensures
            r.id == self.id,
            r.name@ == self.name@,
            r.wiki@ == self.wiki@,
            r.last_checked == self.last_checked,
    {
        StaticName {
            id: self.id,
            name: self.name.clone(),
            wiki: self.wiki.clone(),
            last_checked: self.last_checked,
        }
    }
}

impl StaticName {
    /// The name.
    pub fn name(&self) -> (r: &str)
        ensures
            r@ == self.name@,
    {
        self.name.as_str()
    }
}

/// The text of the names file of a kind: a TOML document with an array `skins` of
/// entries (`id`, `name`, `wiki`, `last_checked`). The program carries no fallback
/// names: each file lists no entry.
pub fn read_file(kind: FashionSlotKind) -> (r: &'static str)
    ensures
        r@ == names_file(kind),
{
    match kind {
        FashionSlotKind::Equipment => "skins = []\n",
        FashionSlotKind::Outfit => "skins = []\n",
        FashionSlotKind::Mount => "skins = []\n",
        FashionSlotKind::Glider => "skins = []\n",
        FashionSlotKind::Skiff => "skins = []\n",
        FashionSlotKind::Doorway => "skins = []\n",
    }
}

/// The names file of each kind.
pub open spec fn names_file(kind: FashionSlotKind) -> Seq<char> {
    "skins = []\n"@
}

} // verus!
