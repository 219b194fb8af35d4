//! Fallback names of skins that the API does not know, by kind of slot.
use vstd::prelude::*;
use crate::gw2::static_names::names_file;
use crate::slots::FashionSlotKind;

verus! {

/// The text of the fallback names file of a kind (the same files as the static
/// names).
pub fn read_file(kind: FashionSlotKind) -> (r: &'static str)
    ensures
        r@ == names_file(kind),
{
    crate::gw2::static_names::read_file(kind)
}

} // verus!
