//! Skins, dyes and the appearance of one fashion slot.
use vstd::prelude::*;
use vstd::std_specs::convert::FromSpecImpl;
use crate::le::{le_at, le_bytes, lemma_le_bytes_of_value, lemma_le_roundtrip, push_u16_le, read_u16_le};

verus! {

/// The id of a skin; `0` stands for "no skin".
#[derive(Debug, Clone, Copy, PartialEq, Eq, Hash, Structural)]
pub struct SkinId(pub u16);

impl SkinId {
    pub fn new(id: u16) -> (r: Self)
        ensures
            r.0 == id,
    {
        SkinId(id)
    }

    pub open spec fn spec_is_empty(self) -> bool {
        self.0 == 0
    }

    /// A skin id is empty when it is `0`.
    pub fn is_empty(self) -> (r: bool)
        ensures
            r == self.spec_is_empty(),
    {
        self.0 == 0
    }

    pub fn id(self) -> (r: u16)
        ensures
            r == self.0,
    {
        self.0
    }

    /// Reads a little-endian skin id at `pos`; `None` when fewer than two bytes are
    /// left.
    pub fn from_cursor(bytes: &[u8], pos: usize) -> (r: Option<Self>)
        ensures
            pos + 2 <= bytes@.len() ==> r == Some(SkinId(le_at(bytes@, pos as int))),
            pos + 2 > bytes@.len() ==> r is None,
    {
        match read_u16_le(bytes, pos) {
            Some(v) => Some(SkinId(v)),
            None => None,
        }
    }
}

impl Default for SkinId {
    fn default() -> (r: Self)
        ensures
            r.0 == 0,
    {
        SkinId(0)
    }
}

impl From<u16> for SkinId {
    fn from(id: u16) -> (r: Self) {
        SkinId(id)
    }
}

impl FromSpecImpl<u16> for SkinId {
    open spec fn obeys_from_spec() -> bool {
        true
    }

    open spec fn from_spec(id: u16) -> SkinId {
        SkinId(id)
    }
}

impl From<SkinId> for u16 {
    fn from(id: SkinId) -> (r: u16) {
        id.0
    }
}

impl FromSpecImpl<SkinId> for u16 {
    open spec fn obeys_from_spec() -> bool {
        true
    }

    open spec fn from_spec(id: SkinId) -> u16 {
        id.0
    }
}

impl From<SkinId> for u32 {
    fn from(id: SkinId) -> (r: u32) {
        id.0 as u32
    }
}

impl FromSpecImpl<SkinId> for u32 {
    open spec fn obeys_from_spec() -> bool {
        true
    }

    open spec fn from_spec(id: SkinId) -> u32 {
        id.0 as u32
    }
}

/// The id of a dye; `1` stands for "no dye".
#[derive(Debug, Clone, Copy, PartialEq, Eq, Hash, Structural)]
pub struct DyeId(pub u16);

impl DyeId {
    pub fn new(id: u16) -> (r: Self)
        ensures
            r.0 == id,
    {
        DyeId(id)
    }

    pub open spec fn spec_is_empty(self) -> bool {
        self.0 == 1
    }

    /// A dye id is empty when it is `1`.
    pub fn is_empty(self) -> (r: bool)
        ensures
            r == self.spec_is_empty(),
    {
        self.0 == 1
    }

    pub fn id(self) -> (r: u16)
        ensures
            r == self.0,
    {
        self.0
    }

    /// Reads a little-endian dye id at `pos`; `None` when fewer than two bytes are
    /// left.
    pub fn from_cursor(bytes: &[u8], pos: usize) -> (r: Option<Self>)
        ensures
            pos + 2 <= bytes@.len() ==> r == Some(DyeId(le_at(bytes@, pos as int))),
            pos + 2 > bytes@.len() ==> r is None,
    {
        match read_u16_le(bytes, pos) {
            Some(v) => Some(DyeId(v)),
            None => None,
        }
    }
}

impl Default for DyeId {
    fn default() -> (r: Self)
        ensures
            r.0 == 1,
    {
        DyeId(1)
    }
}

impl From<u16> for DyeId {
    fn from(id: u16) -> (r: Self) {
        DyeId(id)
    }
}

impl FromSpecImpl<u16> for DyeId {
    open spec fn obeys_from_spec() -> bool {
        true
    }

    open spec fn from_spec(id: u16) -> DyeId {
        DyeId(id)
    }
}

impl From<DyeId> for u16 {
    fn from(id: DyeId) -> (r: u16) {
        id.0
    }
}

impl FromSpecImpl<DyeId> for u16 {
    open spec fn obeys_from_spec() -> bool {
        true
    }

    open spec fn from_spec(id: DyeId) -> u16 {
        id.0
    }
}

impl From<DyeId> for u32 {
    fn from(id: DyeId) -> (r: u32) {
        id.0 as u32
    }
}

impl FromSpecImpl<DyeId> for u32 {
    open spec fn obeys_from_spec() -> bool {
        true
    }

    open spec fn from_spec(id: DyeId) -> u32 {
        id.0 as u32
    }
}

/// The four dye channels of a dyeable skin.
#[derive(Debug, Clone, Copy, PartialEq, Eq, Structural)]
pub struct Dyes(pub DyeId, pub DyeId, pub DyeId, pub DyeId);

/// The dyes that a template holds when none is set.
pub open spec fn no_dyes() -> Dyes {
    Dyes(DyeId(1), DyeId(1), DyeId(1), DyeId(1))
}

impl Dyes {
    pub fn new(dye1: DyeId, dye2: DyeId, dye3: DyeId, dye4: DyeId) -> (r: Self)
        ensures
            r == Dyes(dye1, dye2, dye3, dye4),
    {
        Dyes(dye1, dye2, dye3, dye4)
    }

    /// Dyes from four raw ids, in channel order.
    pub fn from_ids(id1: u16, id2: u16, id3: u16, id4: u16) -> (r: Self)
        ensures
            r == Dyes(DyeId(id1), DyeId(id2), DyeId(id3), DyeId(id4)),
    {
        Dyes(DyeId(id1), DyeId(id2), DyeId(id3), DyeId(id4))
    }

    pub open spec fn spec_is_empty(self) -> bool {
        self.0.spec_is_empty() && self.1.spec_is_empty() && self.2.spec_is_empty()
            && self.3.spec_is_empty()
    }

    /// All four channels are empty.
    pub fn is_empty(self) -> (r: bool)
        ensures
            r == self.spec_is_empty(),
    {
        self.0.is_empty() && self.1.is_empty() && self.2.is_empty() && self.3.is_empty()
    }

    pub open spec fn spec_ids(self) -> Seq<DyeId> {
        seq![self.0, self.1, self.2, self.3]
    }

    /// The four channels, in order.
    pub fn ids(self) -> (r: Vec<DyeId>)
        ensures
            r@ == self.spec_ids(),
    {
        let mut v = Vec::new();
        v.push(self.0);
        v.push(self.1);
        v.push(self.2);
        v.push(self.3);
        assert(v@ =~= self.spec_ids());
        v
    }

    /// The raw ids of the four channels, in order.
    pub fn to_ids(self) -> (r: (u16, u16, u16, u16))
        ensures
            r == ((self.0).0, (self.1).0, (self.2).0, (self.3).0),
    {
        ((self.0).0, (self.1).0, (self.2).0, (self.3).0)
    }

    /// Reads four little-endian dye ids from `pos` on; `None` when fewer than eight
    /// bytes are left.
    pub fn from_cursor(bytes: &[u8], pos: usize) -> (r: Option<Self>)
        ensures
            pos + 8 <= bytes@.len() ==> r == Some(dyes_at(bytes@, pos as int)),
            pos + 8 > bytes@.len() ==> r is None,
    {
        if pos > bytes.len() || bytes.len() - pos < 8 {
            return None;
        }
        let d1 = DyeId::from_cursor(bytes, pos).unwrap();
        let d2 = DyeId::from_cursor(bytes, pos + 2).unwrap();
        let d3 = DyeId::from_cursor(bytes, pos + 4).unwrap();
        let d4 = DyeId::from_cursor(bytes, pos + 6).unwrap();
        Some(Dyes(d1, d2, d3, d4))
    }
}

impl Default for Dyes {
    fn default() -> (r: Self)
        ensures
            r == no_dyes(),
    {
        Dyes(DyeId(1), DyeId(1), DyeId(1), DyeId(1))
    }
}

/// The four dyes stored from `pos` on.
pub open spec fn dyes_at(bytes: Seq<u8>, pos: int) -> Dyes {
    Dyes(
        DyeId(le_at(bytes, pos)),
        DyeId(le_at(bytes, pos + 2)),
        DyeId(le_at(bytes, pos + 4)),
        DyeId(le_at(bytes, pos + 6)),
    )
}

/// The bytes of four dyes.
pub open spec fn dyes_bytes(d: Dyes) -> Seq<u8> {
    le_bytes((d.0).0) + le_bytes((d.1).0) + le_bytes((d.2).0) + le_bytes((d.3).0)
}

/// What one slot of a template shows: a skin, whether it is visible and, in a
/// dyeable slot, its dyes.
#[derive(Debug, Clone, Copy, PartialEq, Eq, Structural)]
pub enum Appearance {
    NonDyeable { skin: SkinId, visible: bool },
    Dyeable { skin: SkinId, visible: bool, dyes: Dyes },
}

/// The appearance of a slot with nothing set.
pub open spec fn empty_appearance(dyeable: bool) -> Appearance {
    if dyeable {
        Appearance::Dyeable { skin: SkinId(0), visible: true, dyes: no_dyes() }
    } else {
        Appearance::NonDyeable { skin: SkinId(0), visible: true }
    }
}

/// The number of bytes that an appearance takes in a payload.
pub open spec fn encoded_len(dyeable: bool) -> nat {
    if dyeable {
        10
    } else {
        2
    }
}

impl Appearance {
    pub open spec fn spec_skin(self) -> SkinId {
        match self {
            Appearance::NonDyeable { skin, .. } => skin,
            Appearance::Dyeable { skin, .. } => skin,
        }
    }

    pub open spec fn spec_visible(self) -> bool {
        match self {
            Appearance::NonDyeable { visible, .. } => visible,
            Appearance::Dyeable { visible, .. } => visible,
        }
    }

    pub open spec fn spec_dyes(self) -> Option<Dyes> {
        match self {
            Appearance::NonDyeable { .. } => None,
            Appearance::Dyeable { dyes, .. } => Some(dyes),
        }
    }

    pub open spec fn spec_is_dyeable(self) -> bool {
        self is Dyeable
    }

    /// An appearance is empty when its skin is unset and, if it has dyes, they are unset too.
    pub open spec fn spec_is_empty(self) -> bool {
        &&& self.spec_skin().spec_is_empty()
        &&& (self.spec_dyes() matches Some(d) ==> d.spec_is_empty())
    }

    /// The same appearance with the visibility flag set to `visible`.
    pub open spec fn with_visible(self, visible: bool) -> Appearance {
        match self {
            Appearance::NonDyeable { skin, .. } => Appearance::NonDyeable { skin, visible },
            Appearance::Dyeable { skin, dyes, .. } => Appearance::Dyeable { skin, visible, dyes },
        }
    }

    /// The payload bytes of this appearance: the skin, then the dyes if there are any.
    /// The visibility flag is not part of them.
    pub open spec fn spec_bytes(self) -> Seq<u8> {
        match self {
            Appearance::NonDyeable { skin, .. } => le_bytes(skin.0),
            Appearance::Dyeable { skin, dyes, .. } => le_bytes(skin.0) + dyes_bytes(dyes),
        }
    }

    /// What `merge` gives: `other` wins for what is not ignored, `self` keeps the rest.
    pub open spec fn spec_merge(
        self,
        other: Appearance,
        ignore_skin: bool,
        ignore_dyes: bool,
    ) -> Appearance {
        if other.spec_is_empty() || (ignore_skin && ignore_dyes) {
            self
        } else if ignore_skin {
            appearance_of(self.spec_skin(), self.spec_visible(), other.spec_dyes())
        } else if ignore_dyes {
            appearance_of(other.spec_skin(), other.spec_visible(), self.spec_dyes())
        } else {
            other
        }
    }

    /// The appearance with nothing set, dyeable or not.
    pub fn empty(dyeable: bool) -> (r: Self)
        ensures
            r == empty_appearance(dyeable),
    {
        if dyeable {
            Appearance::Dyeable { skin: SkinId(0), visible: true, dyes: Dyes::default() }
        } else {
            Appearance::NonDyeable { skin: SkinId(0), visible: true }
        }
    }

    pub fn skin(self) -> (r: SkinId)
        ensures
            r == self.spec_skin(),
    {
        match self {
            Appearance::NonDyeable { skin, .. } => skin,
            Appearance::Dyeable { skin, .. } => skin,
        }
    }

    pub fn is_visible(self) -> (r: bool)
        ensures
            r == self.spec_visible(),
    {
        match self {
            Appearance::NonDyeable { visible, .. } => visible,
            Appearance::Dyeable { visible, .. } => visible,
        }
    }

    /// The dyes of a dyeable appearance, `None` for a non-dyeable one.
    pub fn dyes(self) -> (r: Option<Dyes>)
        ensures
            r == self.spec_dyes(),
    {
        match self {
            Appearance::NonDyeable { .. } => None,
            Appearance::Dyeable { dyes, .. } => Some(dyes),
        }
    }

    pub fn is_empty(self) -> (r: bool)
        ensures
            r == self.spec_is_empty(),
    {
        match self {
            Appearance::NonDyeable { skin, .. } => skin.is_empty(),
            Appearance::Dyeable { skin, dyes, .. } => skin.is_empty() && dyes.is_empty(),
        }
    }

    /// Combines two appearances of one slot. An empty `other` changes nothing, nor does
    /// ignoring both skin and dyes. Otherwise `other` gives the skin and visibility
    /// unless `ignore_skin`, and the dyes (with the dyeable kind) unless `ignore_dyes`.
    pub fn merge(&self, other: &Appearance, ignore_skin: bool, ignore_dyes: bool) -> (r: Appearance)
        ensures
            r == self.spec_merge(*other, ignore_skin, ignore_dyes),
            other.spec_is_empty() || (ignore_skin && ignore_dyes) ==> r == *self,
            !other.spec_is_empty() && !ignore_skin && !ignore_dyes ==> r == *other,
            !other.spec_is_empty() && ignore_skin && !ignore_dyes ==> {
                &&& r.spec_skin() == self.spec_skin()
                &&& r.spec_visible() == self.spec_visible()
                &&& r.spec_dyes() == other.spec_dyes()
            },
            !other.spec_is_empty() && !ignore_skin && ignore_dyes ==> {
                &&& r.spec_skin() == other.spec_skin()
                &&& r.spec_visible() == other.spec_visible()
                &&& r.spec_dyes() == self.spec_dyes()
            },
    {
        if other.is_empty() || (ignore_skin && ignore_dyes) {
            *self
        } else if ignore_skin {
            match other {
                Appearance::NonDyeable { .. } => Appearance::NonDyeable {
                    skin: self.skin(),
                    visible: self.is_visible(),
                },
                Appearance::Dyeable { dyes, .. } => Appearance::Dyeable {
                    skin: self.skin(),
                    visible: self.is_visible(),
                    dyes: *dyes,
                },
            }
        } else if ignore_dyes {
            match self {
                Appearance::NonDyeable { .. } => Appearance::NonDyeable {
                    skin: other.skin(),
                    visible: other.is_visible(),
                },
                Appearance::Dyeable { dyes, .. } => Appearance::Dyeable {
                    skin: other.skin(),
                    visible: other.is_visible(),
                    dyes: *dyes,
                },
            }
        } else {
            *other
        }
    }

    /// Reads the appearance stored at `pos`: a skin id and, for a dyeable slot, four dye ids.
    /// Returns the appearance and the position after it, or `None` when the bytes run out.
    pub fn read(bytes: &[u8], pos: usize, dyeable: bool, visible: bool) -> (r: Option<(Appearance, usize)>)
        ensures
            pos + encoded_len(dyeable) <= bytes@.len() ==> r == Some(
                (appearance_at(bytes@, pos as int, dyeable, visible), (pos + encoded_len(dyeable)) as usize),
            ),
            pos + encoded_len(dyeable) > bytes@.len() ==> r is None,
    {
        if pos > bytes.len() || bytes.len() - pos < encoded_len_exec(dyeable) {
            return None;
        }
        let skin = SkinId::from_cursor(bytes, pos).unwrap();
        if dyeable {
            let dyes = Dyes::from_cursor(bytes, pos + 2).unwrap();
            Some((Appearance::Dyeable { skin, visible, dyes }, pos + 10))
        } else {
            Some((Appearance::NonDyeable { skin, visible }, pos + 2))
        }
    }

    /// Appends the payload bytes of this appearance.
    pub fn serialize(&self, buffer: &mut Vec<u8>)
        ensures
            final(buffer)@ == old(buffer)@ + self.spec_bytes(),
    {
        match self {
            Appearance::NonDyeable { skin, .. } => {
                push_u16_le(buffer, skin.0);
            },
            Appearance::Dyeable { skin, dyes, .. } => {
                push_u16_le(buffer, skin.0);
                push_u16_le(buffer, (dyes.0).0);
                push_u16_le(buffer, (dyes.1).0);
                push_u16_le(buffer, (dyes.2).0);
                push_u16_le(buffer, (dyes.3).0);
                assert(final(buffer)@ =~= old(buffer)@ + self.spec_bytes());
            },
        }
    }

    /// The number of payload bytes of an appearance, by whether it is dyeable.
    pub fn encoded_size(dyeable: bool) -> (r: usize)
        ensures
            r == encoded_len(dyeable),
    {
        encoded_len_exec(dyeable)
    }
}

fn encoded_len_exec(dyeable: bool) -> (r: usize)
    ensures
        r == encoded_len(dyeable),
{
    if dyeable {
        10
    } else {
        2
    }
}

/// The appearance built from a skin, a visibility flag and optional dyes.
pub open spec fn appearance_of(skin: SkinId, visible: bool, dyes: Option<Dyes>) -> Appearance {
    match dyes {
        Some(d) => Appearance::Dyeable { skin, visible, dyes: d },
        None => Appearance::NonDyeable { skin, visible },
    }
}

/// The appearance stored at `pos`.
pub open spec fn appearance_at(bytes: Seq<u8>, pos: int, dyeable: bool, visible: bool) -> Appearance {
    if dyeable {
        Appearance::Dyeable {
            skin: SkinId(le_at(bytes, pos)),
            visible,
            dyes: dyes_at(bytes, pos + 2),
        }
    } else {
        Appearance::NonDyeable { skin: SkinId(le_at(bytes, pos)), visible }
    }
}

/// Merging with an appearance changes nothing when both skin and dyes are ignored,
/// and merging with an empty appearance changes nothing.
pub proof fn law_appearance_merge_neutral(a: Appearance, b: Appearance, ignore_skin: bool, ignore_dyes: bool)
    ensures
        a.spec_merge(b, true, true) == a,
        b.spec_is_empty() ==> a.spec_merge(b, ignore_skin, ignore_dyes) == a,
{
}

/// Merging twice with the same appearance gives what merging once gives.
pub proof fn law_appearance_merge_idempotent(a: Appearance, b: Appearance, ignore_skin: bool, ignore_dyes: bool)
    ensures
        a.spec_merge(b, ignore_skin, ignore_dyes).spec_merge(b, ignore_skin, ignore_dyes)
            == a.spec_merge(b, ignore_skin, ignore_dyes),
{
}

/// The bytes that `read` takes are those that `serialize` writes: reading back the
/// bytes of an appearance gives it, up to the visibility flag given to `read`.
pub proof fn lemma_bytes_read_back(a: Appearance, prefix: Seq<u8>, suffix: Seq<u8>, visible: bool)
    ensures
        a.spec_bytes().len() == encoded_len(a.spec_is_dyeable()),
        appearance_at(prefix + a.spec_bytes() + suffix, prefix.len() as int, a.spec_is_dyeable(), visible)
            == a.with_visible(visible),
{
    let all = prefix + a.spec_bytes() + suffix;
    let p = prefix.len() as int;
    lemma_le_roundtrip(a.spec_skin().0);
    assert(all[p] == le_bytes(a.spec_skin().0)[0]);
    assert(all[p + 1] == le_bytes(a.spec_skin().0)[1]);
    match a {
        Appearance::NonDyeable { .. } => {},
        Appearance::Dyeable { dyes, .. } => {
            lemma_le_roundtrip((dyes.0).0);
            lemma_le_roundtrip((dyes.1).0);
            lemma_le_roundtrip((dyes.2).0);
            lemma_le_roundtrip((dyes.3).0);
            assert(all[p + 2] == le_bytes((dyes.0).0)[0]);
            assert(all[p + 3] == le_bytes((dyes.0).0)[1]);
            assert(all[p + 4] == le_bytes((dyes.1).0)[0]);
            assert(all[p + 5] == le_bytes((dyes.1).0)[1]);
            assert(all[p + 6] == le_bytes((dyes.2).0)[0]);
            assert(all[p + 7] == le_bytes((dyes.2).0)[1]);
            assert(all[p + 8] == le_bytes((dyes.3).0)[0]);
            assert(all[p + 9] == le_bytes((dyes.3).0)[1]);
        },
    }
}

/// Reading an appearance and writing it back gives the bytes it was read from.
pub proof fn lemma_read_bytes_back(bytes: Seq<u8>, pos: int, dyeable: bool, visible: bool)
    requires
        0 <= pos,
        pos + encoded_len(dyeable) <= bytes.len(),
    ensures
        appearance_at(bytes, pos, dyeable, visible).spec_bytes()
            == bytes.subrange(pos, pos + encoded_len(dyeable)),
{
    let a = appearance_at(bytes, pos, dyeable, visible);
    lemma_le_bytes_of_value(bytes[pos], bytes[pos + 1]);
    if dyeable {
        lemma_le_bytes_of_value(bytes[pos + 2], bytes[pos + 3]);
        lemma_le_bytes_of_value(bytes[pos + 4], bytes[pos + 5]);
        lemma_le_bytes_of_value(bytes[pos + 6], bytes[pos + 7]);
        lemma_le_bytes_of_value(bytes[pos + 8], bytes[pos + 9]);
    }
    assert(a.spec_bytes() =~= bytes.subrange(pos, pos + encoded_len(dyeable)));
}

/// An appearance is empty exactly when its skin id is `0` and, for a dyeable one,
/// all four dye ids are `1`: a dyeable appearance with a dye set is not empty,
/// whatever its skin.
pub proof fn law_appearance_empty(a: Appearance)
    ensures
        a.spec_is_empty() <==> match a {
            Appearance::NonDyeable { skin, .. } => skin.0 == 0,
            Appearance::Dyeable { skin, dyes, .. } => skin.0 == 0 && (dyes.0).0 == 1 && (dyes.1).0
                == 1 && (dyes.2).0 == 1 && (dyes.3).0 == 1,
        },
{
}

/// Merging dyes only into a dyeable appearance, from a dyeable appearance that has a
/// dye or a skin set, keeps the skin and visibility and takes the other's four dyes.
pub proof fn law_merge_dyes_only(a: Appearance, b: Appearance)
    requires
        a is Dyeable,
        b matches Appearance::Dyeable { skin, dyes, .. } && (skin.0 != 0 || (dyes.0).0 != 1
            || (dyes.1).0 != 1 || (dyes.2).0 != 1 || (dyes.3).0 != 1),
    ensures
        a.spec_merge(b, true, false) == (Appearance::Dyeable {
            skin: a->Dyeable_skin,
            visible: a->Dyeable_visible,
            dyes: b->Dyeable_dyes,
        }),
{
}

/// Merging skins only takes the other's skin and visibility and keeps the dyes,
/// when the other has a skin set.
pub proof fn law_merge_skins_only(a: Appearance, b: Appearance)
    requires
        b.spec_skin().0 != 0,
    ensures
        a.spec_merge(b, false, true).spec_skin() == b.spec_skin(),
        a.spec_merge(b, false, true).spec_visible() == b.spec_visible(),
        a.spec_merge(b, false, true).spec_dyes() == a.spec_dyes(),
{
}

} // verus!
