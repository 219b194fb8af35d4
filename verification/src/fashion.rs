//! Fashions: a named look made of a wardrobe and a travel template, with tags.
use vstd::prelude::*;
use crate::names::{
    parsed_character_name, parsed_fashion_name, parsed_tag_name, CharacterName, CharacterNameError,
    FashionName, FashionNameError, TagName, TagNameError,
};
use crate::slots::{TravelSlot, WardrobeSlot};
use crate::template::Template;
use crate::text::{all_white_space, lemma_trimmed_fixed, no_outer_space, trim, trimmed};

verus! {

#[verifier::external_type_specification]
#[verifier::external_body]
pub struct ExUuid(uuid::Uuid);

// ------------------------------------------------------------------------- tags

/// The pieces of `s` between commas, as `str::split(",")` gives them: one more
/// piece than there are commas.
pub open spec fn comma_pieces(s: Seq<char>) -> Seq<Seq<char>>
    decreases s.len(),
{
    if s.len() == 0 {
        seq![seq![]]
    } else {
        let p = comma_pieces(s.drop_last());
        if s.last() == ',' {
            p.push(seq![])
        } else {
            p.drop_last().push(p.last().push(s.last()))
        }
    }
}

/// The pieces trimmed, the empty ones left out.
pub open spec fn nonempty_trimmed(pieces: Seq<Seq<char>>) -> Seq<Seq<char>> {
    pieces.map_values(|p: Seq<char>| trimmed(p)).filter(|t: Seq<char>| t.len() > 0)
}

/// The tags that a comma-separated list names: each piece between commas,
/// trimmed, the empty ones left out.
pub open spec fn listed_tags(s: Seq<char>) -> Seq<Seq<char>> {
    nonempty_trimmed(comma_pieces(s))
}

/// The texts of some tag names.
pub open spec fn tag_texts(v: Seq<TagName>) -> Seq<Seq<char>> {
    v.map_values(|t: TagName| t@)
}

/// The texts of some string slices.
pub open spec fn str_texts(v: Seq<&str>) -> Seq<Seq<char>> {
    v.map_values(|t: &str| t@)
}

/// Adding a piece adds its trimmed text, unless that is empty.
proof fn lemma_nonempty_trimmed_push(q: Seq<Seq<char>>, x: Seq<char>)
    ensures
        nonempty_trimmed(q.push(x)) == (if trimmed(x).len() > 0 {
            nonempty_trimmed(q).push(trimmed(x))
        } else {
            nonempty_trimmed(q)
        }),
{
    let m = q.push(x).map_values(|p: Seq<char>| trimmed(p));
    assert(m.drop_last() =~= q.map_values(|p: Seq<char>| trimmed(p)));
    assert(m.last() == trimmed(x));
    reveal(Seq::filter);
}

/// The texts joined with a comma between each two.
pub open spec fn comma_joined(ts: Seq<Seq<char>>) -> Seq<char>
    decreases ts.len(),
{
    if ts.len() == 0 {
        seq![]
    } else if ts.len() == 1 {
        ts[0]
    } else {
        comma_joined(ts.drop_last()) + seq![','] + ts.last()
    }
}

/// Text without a comma extends the last piece.
proof fn lemma_pieces_extend(p: Seq<char>, s: Seq<char>)
    requires
        !s.contains(','),
    ensures
        comma_pieces(p + s).len() == comma_pieces(p).len(),
        comma_pieces(p + s) == comma_pieces(p).drop_last().push(comma_pieces(p).last() + s),
    decreases s.len(),
{
    lemma_pieces_len(p);
    if s.len() == 0 {
        assert(p + s =~= p);
        assert(comma_pieces(p).last() + s =~= comma_pieces(p).last());
        assert(comma_pieces(p).drop_last().push(comma_pieces(p).last()) =~= comma_pieces(p));
    } else {
        let init = s.drop_last();
        assert(!init.contains(',')) by {
            if init.contains(',') {
                let k = choose|k: int| 0 <= k < init.len() && init[k] == ',';
                assert(s[k] == ',');
            }
        }
        lemma_pieces_extend(p, init);
        assert((p + s).drop_last() =~= p + init);
        assert((p + s).last() == s.last());
        assert(s.last() != ',') by {
            if s.last() == ',' {
                assert(s[s.len() - 1] == ',');
            }
        }
        let q = comma_pieces(p + init);
        assert(q.drop_last() =~= comma_pieces(p).drop_last());
        assert(q.last() == comma_pieces(p).last() + init);
        assert((comma_pieces(p).last() + init).push(s.last()) =~= comma_pieces(p).last() + s);
        assert(q.drop_last().push(q.last().push(s.last())) =~= comma_pieces(p).drop_last().push(
            comma_pieces(p).last() + s,
        ));
    }
}

proof fn lemma_pieces_len(s: Seq<char>)
    ensures
        comma_pieces(s).len() >= 1,
    decreases s.len(),
{
    if s.len() > 0 {
        lemma_pieces_len(s.drop_last());
    }
}

/// The pieces of texts joined with commas are the texts, when none holds a comma.
proof fn lemma_pieces_of_joined(ts: Seq<Seq<char>>)
    requires
        ts.len() >= 1,
        forall|i: int| 0 <= i < ts.len() ==> !(#[trigger] ts[i]).contains(','),
    ensures
        comma_pieces(comma_joined(ts)) == ts,
    decreases ts.len(),
{
    if ts.len() == 1 {
        lemma_pieces_extend(Seq::<char>::empty(), ts[0]);
        assert(Seq::<char>::empty() + ts[0] =~= ts[0]);
        assert(Seq::<Seq<char>>::empty().push(Seq::<char>::empty() + ts[0]) =~= ts);
    } else {
        let rest = ts.drop_last();
        assert forall|i: int| 0 <= i < rest.len() implies !(#[trigger] rest[i]).contains(',') by {
            assert(rest[i] == ts[i]);
        }
        lemma_pieces_of_joined(rest);
        let j = comma_joined(rest);
        let jc = j + seq![','];
        assert(jc.drop_last() =~= j);
        assert(comma_pieces(jc) == rest.push(seq![]));
        assert(!ts.last().contains(',')) by {
            assert(ts.last() == ts[ts.len() - 1]);
        }
        lemma_pieces_extend(jc, ts.last());
        assert(comma_joined(ts) =~= jc + ts.last());
        assert(rest.push(seq![]).drop_last() =~= rest);
        assert(Seq::<char>::empty() + ts.last() =~= ts.last());
        assert(rest.push(ts.last()) =~= ts);
    }
}

/// Trimming texts that have no outer whitespace, and leaving out empty ones, keeps
/// them all when none is empty.
proof fn lemma_nonempty_trimmed_fixed(ts: Seq<Seq<char>>)
    requires
        forall|i: int|
            0 <= i < ts.len() ==> (#[trigger] ts[i]).len() > 0 && no_outer_space(ts[i]),
    ensures
        nonempty_trimmed(ts) == ts,
    decreases ts.len(),
{
    if ts.len() == 0 {
        reveal(Seq::filter);
        assert(nonempty_trimmed(ts) =~= ts);
    } else {
        let rest = ts.drop_last();
        assert forall|i: int| 0 <= i < rest.len() implies (#[trigger] rest[i]).len() > 0
            && no_outer_space(rest[i]) by {
            assert(rest[i] == ts[i]);
        }
        lemma_nonempty_trimmed_fixed(rest);
        lemma_nonempty_trimmed_push(rest, ts.last());
        assert(ts.last() == ts[ts.len() - 1]);
        lemma_trimmed_fixed(ts.last());
        assert(rest.push(ts.last()) =~= ts);
    }
}

/// A list written from tag texts that hold no comma and no outer whitespace, and
/// are not empty, lists those texts again.
pub proof fn law_tags_roundtrip(ts: Seq<Seq<char>>)
    requires
        forall|i: int|
            0 <= i < ts.len() ==> (#[trigger] ts[i]).len() > 0 && !ts[i].contains(',')
                && no_outer_space(ts[i]),
    ensures
        listed_tags(comma_joined(ts)) == ts,
{
    if ts.len() == 0 {
        reveal(Seq::filter);
        let e = Seq::<Seq<char>>::empty().push(Seq::<char>::empty());
        assert(comma_pieces(Seq::<char>::empty()) == e);
        lemma_nonempty_trimmed_push(Seq::<Seq<char>>::empty(), Seq::<char>::empty());
        assert(Seq::<Seq<char>>::empty().push(Seq::<char>::empty()) =~= e);
        assert(nonempty_trimmed(Seq::<Seq<char>>::empty()) =~= Seq::<Seq<char>>::empty());
    } else {
        assert forall|i: int| 0 <= i < ts.len() implies !(#[trigger] ts[i]).contains(',') by {}
        lemma_pieces_of_joined(ts);
        lemma_nonempty_trimmed_fixed(ts);
    }
}

/// A comma-separated list of tag names.
#[derive(Debug, Clone, Default)]
pub struct Tags(pub String);

impl Tags {
    /// The tags of the list: each piece between commas, trimmed, the empty ones
    /// left out, in order.
    pub fn iter(&self) -> (r: Vec<&str>)
        ensures
            str_texts(r@) == listed_tags(self.0@),
    {
        let s = self.0.as_str();
        let n = s.unicode_len();
        let mut out: Vec<&str> = Vec::new();
        let mut start: usize = 0;
        let mut i: usize = 0;
        proof {
            assert(s@.subrange(0, 0) =~= Seq::<char>::empty());
            assert(str_texts(out@) =~= nonempty_trimmed(Seq::<Seq<char>>::empty()));
            reveal(Seq::filter);
        }
        while i < n
            invariant
                n == s@.len(),
                s@ == self.0@,
                start <= i <= n,
                comma_pieces(s@.subrange(0, i as int)).len() >= 1,
                comma_pieces(s@.subrange(0, i as int)).last() == s@.subrange(start as int, i as int),
                str_texts(out@) == nonempty_trimmed(comma_pieces(s@.subrange(0, i as int)).drop_last()),
            decreases n - i,
        {
            let c = s.get_char(i);
            let ghost pre = s@.subrange(0, i as int);
            let ghost next = s@.subrange(0, i + 1);
            let ghost p = comma_pieces(pre);
            let ghost old_out = out@;
            assert(next.drop_last() =~= pre);
            assert(next.last() == c);
            if c == ',' {
                let piece = s.substring_char(start, i);
                let t = trim(piece);
                proof {
                    lemma_nonempty_trimmed_push(p.drop_last(), p.last());
                    assert(p.drop_last().push(p.last()) =~= p);
                    assert(comma_pieces(next) == p.push(seq![]));
                    assert(p.push(seq![]).drop_last() =~= p);
                }
                if t.unicode_len() > 0 {
                    out.push(t);
                    assert(str_texts(out@) =~= str_texts(old_out).push(t@));
                }
                start = i + 1;
                proof {
                    assert(s@.subrange(start as int, i + 1) =~= Seq::<char>::empty());
                }
            } else {
                proof {
                    assert(comma_pieces(next) == p.drop_last().push(p.last().push(c)));
                    assert(p.drop_last().push(p.last().push(c)).drop_last() =~= p.drop_last());
                    assert(s@.subrange(start as int, i + 1) =~= s@.subrange(start as int, i as int).push(
                        c,
                    ));
                }
            }
            i = i + 1;
        }
        let piece = s.substring_char(start, n);
        let t = trim(piece);
        let ghost p = comma_pieces(s@.subrange(0, n as int));
        let ghost old_out = out@;
        proof {
            assert(s@.subrange(0, n as int) =~= s@);
            lemma_nonempty_trimmed_push(p.drop_last(), p.last());
            assert(p.drop_last().push(p.last()) =~= p);
        }
        if t.unicode_len() > 0 {
            out.push(t);
            assert(str_texts(out@) =~= str_texts(old_out).push(t@));
        }
        out
    }

    /// The list of `names`, joined with commas.
    pub fn from_names(names: &[TagName]) -> (r: Tags)
        ensures
            r.0@ == comma_joined(tag_texts(names@)),
    {
        let mut out = String::new();
        let mut i: usize = 0;
        while i < names.len()
            invariant
                i <= names@.len(),
                out@ == comma_joined(tag_texts(names@).subrange(0, i as int)),
            decreases names@.len() - i,
        {
            let ghost prev = tag_texts(names@).subrange(0, i as int);
            let ghost next = tag_texts(names@).subrange(0, i + 1);
            assert(next.drop_last() =~= prev);
            assert(next.last() == names@[i as int]@);
            if i > 0 {
                out.append(",");
                proof {
                    reveal_strlit(",");
                }
            }
            out.append(names[i].as_str());
            assert(out@ =~= comma_joined(next));
            i = i + 1;
        }
        assert(tag_texts(names@).subrange(0, names@.len() as int) =~= tag_texts(names@));
        Tags(out)
    }

    /// The tag names of the list, in order: `Ok` when every tag of the list reads
    /// as a tag name, else the first error.
    pub fn tag_names(&self) -> (r: Result<Vec<TagName>, TagNameError>)
        ensures
            (forall|i: int|
                0 <= i < listed_tags(self.0@).len() ==> #[trigger] parsed_tag_name(
                    listed_tags(self.0@)[i],
                ) is Ok) <==> r is Ok,
            r matches Ok(v) ==> v@.len() == listed_tags(self.0@).len() && forall|i: int|
                0 <= i < v@.len() ==> parsed_tag_name(listed_tags(self.0@)[i]) == Ok::<
                    Seq<char>,
                    TagNameError,
                >(#[trigger] v@[i]@),
    {
        let items = self.iter();
        let ghost l = listed_tags(self.0@);
        assert(l.len() == items@.len());
        let mut v: Vec<TagName> = Vec::new();
        let mut i: usize = 0;
        while i < items.len()
            invariant
                l == listed_tags(self.0@),
                str_texts(items@) == l,
                l.len() == items@.len(),
                i <= items@.len(),
                v@.len() == i,
                forall|j: int| 0 <= j < i ==> #[trigger] parsed_tag_name(l[j]) is Ok,
                forall|j: int|
                    0 <= j < i ==> parsed_tag_name(l[j]) == Ok::<Seq<char>, TagNameError>(
                        #[trigger] v@[j]@,
                    ),
            decreases items@.len() - i,
        {
            assert(items@[i as int]@ == l[i as int]);
            match TagName::try_new(items[i]) {
                Ok(t) => {
                    v.push(t);
                },
                Err(e) => {
                    return Err(e);
                },
            }
            i = i + 1;
        }
        Ok(v)
    }
}

/// The tags of `existing`, then those of `new` that `existing` does not hold, in
/// their order (a tag that `new` names twice is added twice).
pub open spec fn merged_tags(existing: Seq<Seq<char>>, new: Seq<Seq<char>>) -> Seq<Seq<char>> {
    existing + new.filter(|t: Seq<char>| !existing.contains(t))
}

/// Patching `base` with `other` takes each part that `other` sets, whatever `base`
/// holds there, and keeps the part of `base` where `other` sets none: id,
/// description, character and both templates alike. The name is `other`'s, the
/// times stay `base`'s, and `other`'s tags are added after `base`'s when it has any.
pub proof fn law_patch_takes_what_is_set(base: FashionView, other: FashionView)
    ensures
        other.id matches Some(x) ==> patched_view(base, other).id == Some(x),
        other.id is None ==> patched_view(base, other).id == base.id,
        other.description matches Some(x) ==> patched_view(base, other).description == Some(x),
        other.description is None ==> patched_view(base, other).description == base.description,
        other.character matches Some(x) ==> patched_view(base, other).character == Some(x),
        other.character is None ==> patched_view(base, other).character == base.character,
        other.wardrobe matches Some(x) ==> patched_view(base, other).wardrobe == Some(x),
        other.wardrobe is None ==> patched_view(base, other).wardrobe == base.wardrobe,
        other.travel matches Some(x) ==> patched_view(base, other).travel == Some(x),
        other.travel is None ==> patched_view(base, other).travel == base.travel,
        patched_view(base, other).name == other.name,
        patched_view(base, other).created_at == base.created_at,
        patched_view(base, other).updated_at == base.updated_at,
        other.tags.len() == 0 ==> patched_view(base, other).tags == base.tags,
        other.tags.len() > 0 ==> patched_view(base, other).tags.subrange(0, base.tags.len() as int)
            == base.tags,
        forall|t: Seq<char>| #[trigger] other.tags.contains(t) ==> patched_view(base, other).tags.contains(t),
{
    if other.tags.len() > 0 {
        let m = patched_view(base, other).tags;
        assert(m.subrange(0, base.tags.len() as int) =~= base.tags);
        assert forall|t: Seq<char>| #[trigger] other.tags.contains(t) implies m.contains(t) by {
            let j = choose|j: int| 0 <= j < other.tags.len() && other.tags[j] == t;
            lemma_merged_contains(base.tags, other.tags, j);
        }
    }
}

/// Each tag of `new` is among the merged tags.
proof fn lemma_merged_contains(existing: Seq<Seq<char>>, new: Seq<Seq<char>>, j: int)
    requires
        0 <= j < new.len(),
    ensures
        merged_tags(existing, new).contains(new[j]),
{
    let m = merged_tags(existing, new);
    let q = |t: Seq<char>| !existing.contains(t);
    let x = new[j];
    if existing.contains(x) {
        let k = choose|k: int| 0 <= k < existing.len() && existing[k] == x;
        assert(m[k] == x);
    } else {
        new.lemma_filter_contains(q, j);
        let f = new.filter(q);
        let k = choose|k: int| 0 <= k < f.len() && f[k] == x;
        assert(m[existing.len() + k] == x);
    }
}

/// Merging the same tags a second time changes nothing: each of them is held by
/// then.
pub proof fn law_merge_tags_twice(existing: Seq<Seq<char>>, new: Seq<Seq<char>>)
    ensures
        merged_tags(merged_tags(existing, new), new) == merged_tags(existing, new),
{
    let m = merged_tags(existing, new);
    let q = |t: Seq<char>| !existing.contains(t);
    let p = |t: Seq<char>| !m.contains(t);
    assert forall|j: int| 0 <= j < new.len() implies m.contains(#[trigger] new[j]) by {
        let x = new[j];
        if existing.contains(x) {
            let k = choose|k: int| 0 <= k < existing.len() && existing[k] == x;
            assert(m[k] == x);
        } else {
            new.lemma_filter_contains(q, j);
            let f = new.filter(q);
            let k = choose|k: int| 0 <= k < f.len() && f[k] == x;
            assert(m[existing.len() + k] == x);
        }
    }
    if new.filter(p).len() > 0 {
        new.lemma_filter_pred(p, 0);
        let x = new.filter(p)[0];
        assert(new.filter(p).contains(x));
        new.lemma_filter_contains_rev(p, x);
        let j = choose|j: int| 0 <= j < new.len() && new[j] == x;
        assert(m.contains(new[j]));
    }
    assert(m + new.filter(p) =~= m);
}

/// Applying the same patch twice gives what applying it once gives: a part that the
/// patch sets stays as set, one it leaves alone stays as it was, and its tags are
/// merged in once.
pub proof fn law_patch_twice<T>(
    old: Option<T>,
    new: Option<T>,
    tags: Seq<Seq<char>>,
    new_tags: Seq<Seq<char>>,
)
    ensures
        patched(patched(old, new), new) == patched(old, new),
        merged_tags(merged_tags(tags, new_tags), new_tags) == merged_tags(tags, new_tags),
{
    law_merge_tags_twice(tags, new_tags);
}

proof fn lemma_merged_tags_push(existing: Seq<Seq<char>>, q: Seq<Seq<char>>, x: Seq<char>)
    ensures
        merged_tags(existing, q.push(x)) == (if existing.contains(x) {
            merged_tags(existing, q)
        } else {
            merged_tags(existing, q).push(x)
        }),
{
    assert(q.push(x).drop_last() =~= q);
    reveal(Seq::filter);
    if !existing.contains(x) {
        assert(merged_tags(existing, q.push(x)) =~= merged_tags(existing, q).push(x));
    }
}

/// Appends to `existing` the tags of `new` that it did not hold (see `merged_tags`).
pub fn merge_tags(existing: &mut Vec<TagName>, new: &[TagName])
    ensures
        tag_texts(final(existing)@) == merged_tags(tag_texts(old(existing)@), tag_texts(new@)),
{
    let ghost base = tag_texts(existing@);
    let n0 = existing.len();
    let mut k: usize = 0;
    proof {
        reveal(Seq::filter);
        assert(tag_texts(new@).subrange(0, 0) =~= Seq::<Seq<char>>::empty());
        assert(merged_tags(base, Seq::<Seq<char>>::empty()) =~= base);
    }
    while k < new.len()
        invariant
            base == tag_texts(old(existing)@),
            n0 == base.len(),
            existing@.len() >= n0,
            forall|j: int| 0 <= j < n0 ==> #[trigger] existing@[j]@ == base[j],
            k <= new@.len(),
            tag_texts(existing@) == merged_tags(base, tag_texts(new@).subrange(0, k as int)),
        decreases new@.len() - k,
    {
        let t = &new[k];
        let mut found = false;
        let mut j: usize = 0;
        while j < n0
            invariant
                n0 == base.len(),
                existing@.len() >= n0,
                forall|m: int| 0 <= m < n0 ==> #[trigger] existing@[m]@ == base[m],
                j <= n0,
                found <==> exists|m: int| 0 <= m < j && base[m] == t@,
            decreases n0 - j,
        {
            if existing[j] == *t {
                assert(base[j as int] == t@);
                found = true;
            }
            j = j + 1;
        }
        assert(found <==> base.contains(t@));
        let ghost before = existing@;
        proof {
            let q = tag_texts(new@).subrange(0, k as int);
            lemma_merged_tags_push(base, q, t@);
            assert(tag_texts(new@).subrange(0, k + 1) =~= q.push(t@));
        }
        if !found {
            existing.push(t.clone());
            proof {
                assert(tag_texts(existing@) =~= tag_texts(before).push(t@));
                assert forall|m: int| 0 <= m < n0 implies #[trigger] existing@[m]@ == base[m] by {
                    assert(existing@[m] == before[m]);
                }
            }
        }
        k = k + 1;
    }
    assert(tag_texts(new@).subrange(0, new@.len() as int) =~= tag_texts(new@));
}

// --------------------------------------------------------------------- fashions

/// A fashion. Times are milliseconds since the Unix epoch, in UTC.
#[derive(Debug)]
pub struct Fashion {
    pub id: Option<uuid::Uuid>,
    pub name: FashionName,
    pub description: Option<String>,
    pub character: Option<CharacterName>,
    pub wardrobe_template: Option<Template<WardrobeSlot>>,
    pub travel_template: Option<Template<TravelSlot>>,
    pub created_at: Option<i64>,
    pub updated_at: Option<i64>,
    pub tags: Vec<TagName>,
}

/// What a fashion holds, as values: its id, the texts of its name, description,
/// character and tags, the appearances of its templates, and its times.
pub struct FashionView {
    pub id: Option<uuid::Uuid>,
    pub name: Seq<char>,
    pub description: Option<Seq<char>>,
    pub character: Option<Seq<char>>,
    pub wardrobe: Option<Seq<crate::skins::Appearance>>,
    pub travel: Option<Seq<crate::skins::Appearance>>,
    pub created_at: Option<i64>,
    pub updated_at: Option<i64>,
    pub tags: Seq<Seq<char>>,
}

impl View for Fashion {
    type V = FashionView;

    open spec fn view(&self) -> FashionView {
        FashionView {
            id: self.id,
            name: self.name@,
            description: opt_text(self.description),
            character: opt_character(self.character),
            wardrobe: opt_slots(self.wardrobe_template),
            travel: opt_slots(self.travel_template),
            created_at: self.created_at,
            updated_at: self.updated_at,
            tags: tag_texts(self.tags@),
        }
    }
}

/// The view of an optional string.
pub open spec fn opt_text(o: Option<String>) -> Option<Seq<char>> {
    match o {
        Some(s) => Some(s@),
        None => None,
    }
}

/// The view of an optional character name.
pub open spec fn opt_character(o: Option<CharacterName>) -> Option<Seq<char>> {
    match o {
        Some(c) => Some(c@),
        None => None,
    }
}

/// The view of an optional template.
pub open spec fn opt_slots<S: crate::slots::FashionSlot>(o: Option<Template<S>>) -> Option<
    Seq<crate::skins::Appearance>,
> {
    match o {
        Some(t) => Some(t@),
        None => None,
    }
}

/// What patching a fashion viewed as `base` with one viewed as `other` gives (see
/// `Fashion::patch`).
pub open spec fn patched_view(base: FashionView, other: FashionView) -> FashionView {
    FashionView {
        id: patched(base.id, other.id),
        name: other.name,
        description: patched(base.description, other.description),
        character: patched(base.character, other.character),
        wardrobe: patched(base.wardrobe, other.wardrobe),
        travel: patched(base.travel, other.travel),
        created_at: base.created_at,
        updated_at: base.updated_at,
        tags: if other.tags.len() > 0 {
            merged_tags(base.tags, other.tags)
        } else {
            base.tags
        },
    }
}

/// `new` where it is set, else `old`.
pub open spec fn patched<T>(old: Option<T>, new: Option<T>) -> Option<T> {
    match new {
        Some(v) => Some(v),
        None => old,
    }
}

fn clone_opt_string(o: &Option<String>) -> (r: Option<String>)
    ensures
        opt_text(r) == opt_text(*o),
{
    match o {
        Some(s) => Some(s.clone()),
        None => None,
    }
}

fn clone_opt_character(o: &Option<CharacterName>) -> (r: Option<CharacterName>)
    ensures
        opt_character(r) == opt_character(*o),
{
    match o {
        Some(c) => Some(c.clone()),
        None => None,
    }
}

fn clone_opt_template<S: crate::slots::FashionSlot>(o: &Option<Template<S>>) -> (r: Option<
    Template<S>,
>)
    ensures
        opt_slots(r) == opt_slots(*o),
{
    match o {
        Some(t) => Some(t.clone()),
        None => None,
    }
}

pub(crate) fn clone_tags(v: &Vec<TagName>) -> (r: Vec<TagName>)
    ensures
        tag_texts(r@) == tag_texts(v@),
{
    let mut r: Vec<TagName> = Vec::new();
    let mut i: usize = 0;
    while i < v.len()
        invariant
            i <= v@.len(),
            r@.len() == i,
            forall|j: int| 0 <= j < i ==> #[trigger] r@[j]@ == v@[j]@,
        decreases v@.len() - i,
    {
        r.push(v[i].clone());
        i = i + 1;
    }
    assert(tag_texts(r@) =~= tag_texts(v@));
    r
}

impl Fashion {
    /// The same fashion with `id` as its id.
    pub fn with_id(self, id: uuid::Uuid) -> (r: Fashion)
        ensures
            r == (Fashion { id: Some(id), ..self }),
    {
        Fashion { id: Some(id), ..self }
    }

    /// Takes from `other` each part it sets: its id, its name (always set), its
    /// description, character and templates where present; its tags are merged in
    /// (see `merge_tags`) when it has any. Times stay those of `self`.
    pub fn patch(self, other: &Fashion) -> (r: Fashion)
        ensures
            r.id == patched(self.id, other.id),
            r.name@ == other.name@,
            opt_text(r.description) == patched(opt_text(self.description), opt_text(other.description)),
            opt_character(r.character) == patched(
                opt_character(self.character),
                opt_character(other.character),
            ),
            opt_slots(r.wardrobe_template) == patched(
                opt_slots(self.wardrobe_template),
                opt_slots(other.wardrobe_template),
            ),
            opt_slots(r.travel_template) == patched(
                opt_slots(self.travel_template),
                opt_slots(other.travel_template),
            ),
            r.created_at == self.created_at,
            r.updated_at == self.updated_at,
            tag_texts(r.tags@) == (if other.tags@.len() > 0 {
                merged_tags(tag_texts(self.tags@), tag_texts(other.tags@))
            } else {
                tag_texts(self.tags@)
            }),
            r@ == patched_view(self@, other@),
    {
        let mut f = self;
        if let Some(id) = &other.id {
            f.id = Some(*id);
        }
        if other.name.as_str().unicode_len() > 0 {
            f.name = other.name.clone();
        }
        if other.description.is_some() {
            f.description = clone_opt_string(&other.description);
        }
        if other.character.is_some() {
            f.character = clone_opt_character(&other.character);
        }
        if other.wardrobe_template.is_some() {
            f.wardrobe_template = clone_opt_template(&other.wardrobe_template);
        }
        if other.travel_template.is_some() {
            f.travel_template = clone_opt_template(&other.travel_template);
        }
        if other.tags.len() > 0 {
            merge_tags(&mut f.tags, other.tags.as_slice());
        }
        f
    }
}

impl Clone for Fashion {
    fn clone(&self) -> (r: Self)
        ensures
            r.id == self.id,
            r.name@ == self.name@,
            opt_text(r.description) == opt_text(self.description),
            opt_character(r.character) == opt_character(self.character),
            opt_slots(r.wardrobe_template) == opt_slots(self.wardrobe_template),
            opt_slots(r.travel_template) == opt_slots(self.travel_template),
            r.created_at == self.created_at,
            r.updated_at == self.updated_at,
            tag_texts(r.tags@) == tag_texts(self.tags@),
            r@ == self@,
    {
        Fashion {
            id: self.id,
            name: self.name.clone(),
            description: clone_opt_string(&self.description),
            character: clone_opt_character(&self.character),
            wardrobe_template: clone_opt_template(&self.wardrobe_template),
            travel_template: clone_opt_template(&self.travel_template),
            created_at: self.created_at,
            updated_at: self.updated_at,
            tags: clone_tags(&self.tags),
        }
    }
}

/// A fashion as it is stored: its tags as one comma-separated list. Times are
/// milliseconds since the Unix epoch, in UTC.
#[derive(Debug)]
pub struct FashionRecord {
    pub id: Option<uuid::Uuid>,
    pub name: FashionName,
    pub description: Option<String>,
    pub character: Option<CharacterName>,
    pub wardrobe_template: Option<Template<WardrobeSlot>>,
    pub travel_template: Option<Template<TravelSlot>>,
    pub created_at: Option<i64>,
    pub updated_at: Option<i64>,
    pub tags: Tags,
}

impl FashionRecord {
    /// The record of a fashion: the same parts, the tags joined with commas.
    pub fn from_fashion(fashion: &Fashion) -> (r: FashionRecord)
        ensures
            r.id == fashion.id,
            r.name@ == fashion.name@,
            opt_text(r.description) == opt_text(fashion.description),
            opt_character(r.character) == opt_character(fashion.character),
            opt_slots(r.wardrobe_template) == opt_slots(fashion.wardrobe_template),
            opt_slots(r.travel_template) == opt_slots(fashion.travel_template),
            r.created_at == fashion.created_at,
            r.updated_at == fashion.updated_at,
            r.tags.0@ == comma_joined(tag_texts(fashion.tags@)),
    {
        FashionRecord {
            id: fashion.id,
            name: fashion.name.clone(),
            description: clone_opt_string(&fashion.description),
            character: clone_opt_character(&fashion.character),
            wardrobe_template: clone_opt_template(&fashion.wardrobe_template),
            travel_template: clone_opt_template(&fashion.travel_template),
            created_at: fashion.created_at,
            updated_at: fashion.updated_at,
            tags: Tags::from_names(fashion.tags.as_slice()),
        }
    }
}

impl Fashion {
    /// The fashion of a record: the same parts, the listed tags read as tag names;
    /// the first tag that does not read is the error.
    pub fn try_from_record(record: FashionRecord) -> (r: Result<Fashion, TagNameError>)
        ensures
            (forall|i: int|
                0 <= i < listed_tags(record.tags.0@).len() ==> #[trigger] parsed_tag_name(
                    listed_tags(record.tags.0@)[i],
                ) is Ok) <==> r is Ok,
            r matches Ok(f) ==> {
                &&& f.id == record.id
                &&& f.name == record.name
                &&& f.description == record.description
                &&& f.character == record.character
                &&& f.wardrobe_template == record.wardrobe_template
                &&& f.travel_template == record.travel_template
                &&& f.created_at == record.created_at
                &&& f.updated_at == record.updated_at
                &&& f.tags@.len() == listed_tags(record.tags.0@).len()
                &&& forall|i: int|
                    0 <= i < f.tags@.len() ==> parsed_tag_name(listed_tags(record.tags.0@)[i])
                        == Ok::<Seq<char>, TagNameError>(#[trigger] f.tags@[i]@)
            },
    {
        let tags = record.tags.tag_names()?;
        Ok(
            Fashion {
                id: record.id,
                name: record.name,
                description: record.description,
                character: record.character,
                wardrobe_template: record.wardrobe_template,
                travel_template: record.travel_template,
                created_at: record.created_at,
                updated_at: record.updated_at,
                tags,
            },
        )
    }
}

/// How a fashion is found: by its id, or by its name and character.
#[derive(Debug)]
pub enum FashionIdentifier {
    Id(uuid::Uuid),
    NameAndCharacter { name: String, character: Option<String> },
}

impl FashionIdentifier {
    /// The id of the fashion where it has one, else its name and character.
    pub fn from_fashion(fashion: &Fashion) -> (r: FashionIdentifier)
        ensures
            match fashion.id {
                Some(id) => r == FashionIdentifier::Id(id),
                None => r matches FashionIdentifier::NameAndCharacter { name, character } && name@
                    == fashion.name@ && opt_text(character) == opt_character(fashion.character),
            },
    {
        match fashion.id {
            Some(id) => FashionIdentifier::Id(id),
            None => {
                let name = <String as StringExecFns>::from_str(fashion.name.as_str());
                let character = match &fashion.character {
                    Some(c) => Some(<String as StringExecFns>::from_str(c.as_str())),
                    None => None,
                };
                FashionIdentifier::NameAndCharacter { name, character }
            },
        }
    }
}

/// Builds a fashion part by part; the name must be set.
pub struct FashionBuilder {
    pub id: Option<uuid::Uuid>,
    pub name: Option<FashionName>,
    pub description: Option<String>,
    pub character: Option<CharacterName>,
    pub wardrobe_template: Option<Template<WardrobeSlot>>,
    pub travel_template: Option<Template<TravelSlot>>,
    pub created_at: Option<i64>,
    pub updated_at: Option<i64>,
    pub tags: Vec<TagName>,
}

impl FashionBuilder {
    /// A builder with nothing set and no tags.
    pub fn new() -> (r: FashionBuilder)
        ensures
            r.id is None,
            r.name is None,
            r.description is None,
            r.character is None,
            r.wardrobe_template is None,
            r.travel_template is None,
            r.created_at is None,
            r.updated_at is None,
            r.tags@.len() == 0,
    {
        FashionBuilder {
            id: None,
            name: None,
            description: None,
            character: None,
            wardrobe_template: None,
            travel_template: None,
            created_at: None,
            updated_at: None,
            tags: Vec::new(),
        }
    }

    /// Sets the name.
    pub fn name(self, name: FashionName) -> (r: FashionBuilder)
        ensures
            r == (FashionBuilder { name: Some(name), ..self }),
    {
        FashionBuilder { name: Some(name), ..self }
    }

    /// Reads `s` as a fashion name and sets it; the error of the name otherwise.
    pub fn name_str(self, s: &str) -> (r: Result<FashionBuilder, FashionNameError>)
        ensures
            match parsed_fashion_name(s@) {
                Ok(v) => r matches Ok(b) && b.name matches Some(n) && n@ == v && b == (
                FashionBuilder { name: b.name, ..self }),
                Err(e) => r matches Err(x) && x == e,
            },
    {
        let name = FashionName::try_new(s)?;
        Ok(self.name(name))
    }

    /// Sets the character.
    pub fn character(self, character: CharacterName) -> (r: FashionBuilder)
        ensures
            r == (FashionBuilder { character: Some(character), ..self }),
    {
        FashionBuilder { character: Some(character), ..self }
    }

    /// Reads `s` as a character name and sets it; the error of the name otherwise.
    pub fn character_str(self, s: &str) -> (r: Result<FashionBuilder, CharacterNameError>)
        ensures
            match parsed_character_name(s@) {
                Ok(v) => r matches Ok(b) && b.character matches Some(c) && c@ == v && b == (
                FashionBuilder { character: b.character, ..self }),
                Err(e) => r matches Err(x) && x == e,
            },
    {
        let character = CharacterName::try_new(s)?;
        Ok(self.character(character))
    }

    /// Sets the tags.
    pub fn tags(self, tags: Vec<TagName>) -> (r: FashionBuilder)
        ensures
            r == (FashionBuilder { tags, ..self }),
    {
        FashionBuilder { tags, ..self }
    }

    /// Reads each of `s` as a tag name and sets them, in order; the first error
    /// otherwise.
    pub fn tags_str(self, s: &[&str]) -> (r: Result<FashionBuilder, TagNameError>)
        ensures
            (forall|i: int| 0 <= i < s@.len() ==> #[trigger] parsed_tag_name(s@[i]@) is Ok) <==> r is Ok,
            r is Err <==> exists|i: int| 0 <= i < s@.len() && all_white_space(#[trigger] s@[i]@),
            r matches Ok(b) ==> b == (FashionBuilder { tags: b.tags, ..self }) && b.tags@.len()
                == s@.len() && forall|i: int|
                0 <= i < s@.len() ==> parsed_tag_name(s@[i]@) == Ok::<Seq<char>, TagNameError>(
                    #[trigger] b.tags@[i]@,
                ),
    {
        let mut v: Vec<TagName> = Vec::new();
        let mut i: usize = 0;
        while i < s.len()
            invariant
                i <= s@.len(),
                v@.len() == i,
                forall|j: int| 0 <= j < i ==> #[trigger] parsed_tag_name(s@[j]@) is Ok,
                forall|j: int| 0 <= j < i ==> !all_white_space(#[trigger] s@[j]@),
                forall|j: int|
                    0 <= j < i ==> parsed_tag_name(s@[j]@) == Ok::<Seq<char>, TagNameError>(
                        #[trigger] v@[j]@,
                    ),
            decreases s@.len() - i,
        {
            match TagName::try_new(s[i]) {
                Ok(t) => v.push(t),
                Err(e) => {
                    assert(all_white_space(s@[i as int]@));
                    return Err(e);
                },
            }
            i = i + 1;
        }
        Ok(self.tags(v))
    }

    /// Sets the id.
    pub fn id(self, id: uuid::Uuid) -> (r: FashionBuilder)
        ensures
            r == (FashionBuilder { id: Some(id), ..self }),
    {
        FashionBuilder { id: Some(id), ..self }
    }

    /// Sets the description.
    pub fn description(self, description: String) -> (r: FashionBuilder)
        ensures
            r == (FashionBuilder { description: Some(description), ..self }),
    {
        FashionBuilder { description: Some(description), ..self }
    }

    /// Sets the wardrobe template.
    pub fn wardrobe_template(self, t: Template<WardrobeSlot>) -> (r: FashionBuilder)
        ensures
            r == (FashionBuilder { wardrobe_template: Some(t), ..self }),
    {
        FashionBuilder { wardrobe_template: Some(t), ..self }
    }

    /// Sets the travel template.
    pub fn travel_template(self, t: Template<TravelSlot>) -> (r: FashionBuilder)
        ensures
            r == (FashionBuilder { travel_template: Some(t), ..self }),
    {
        FashionBuilder { travel_template: Some(t), ..self }
    }

    /// Sets when the fashion was created (milliseconds since the Unix epoch).
    pub fn created_at(self, at: i64) -> (r: FashionBuilder)
        ensures
            r == (FashionBuilder { created_at: Some(at), ..self }),
    {
        FashionBuilder { created_at: Some(at), ..self }
    }

    /// Sets when the fashion was last changed (milliseconds since the Unix epoch).
    pub fn updated_at(self, at: i64) -> (r: FashionBuilder)
        ensures
            r == (FashionBuilder { updated_at: Some(at), ..self }),
    {
        FashionBuilder { updated_at: Some(at), ..self }
    }

    /// The fashion, once a name is set, with every part as set; `None` before.
    pub fn build(self) -> (r: Option<Fashion>)
        ensures
            self.name is None <==> r is None,
            r matches Some(f) ==> (self.name matches Some(n) && f == (Fashion {
                id: self.id,
                name: n,
                description: self.description,
                character: self.character,
                wardrobe_template: self.wardrobe_template,
                travel_template: self.travel_template,
                created_at: self.created_at,
                updated_at: self.updated_at,
                tags: self.tags,
            })),
    {
        match self.name {
            Some(name) => Some(
                Fashion {
                    id: self.id,
                    name,
                    description: self.description,
                    character: self.character,
                    wardrobe_template: self.wardrobe_template,
                    travel_template: self.travel_template,
                    created_at: self.created_at,
                    updated_at: self.updated_at,
                    tags: self.tags,
                },
            ),
            None => None,
        }
    }
}

impl Fashion {
    /// A builder for a fashion.
    pub fn builder() -> (r: FashionBuilder)
        ensures
            r.id is None,
            r.name is None,
            r.description is None,
            r.character is None,
            r.wardrobe_template is None,
            r.travel_template is None,
            r.created_at is None,
            r.updated_at is None,
            r.tags@.len() == 0,
    {
        FashionBuilder::new()
    }
}

// ------------------------------------------------------------------------ tags

/// A tag with the number of fashions that carry it. Times are milliseconds since
/// the Unix epoch, in UTC.
#[derive(Debug)]
pub struct Tag {
    pub id: Option<uuid::Uuid>,
    pub name: TagName,
    pub created_at: Option<i64>,
    pub updated_at: Option<i64>,
    pub count: u64,
}

impl Tag {
    /// The same tag with `count` as its count.
    pub fn with_count(self, count: u64) -> (r: Tag)
        ensures
            r == (Tag { count, ..self }),
    {
        Tag { count, ..self }
    }

    /// A builder for a tag.
    pub fn builder() -> (r: TagBuilder)
        ensures
            r.id is None,
            r.name is None,
            r.created_at is None,
            r.updated_at is None,
            r.count == 0,
    {
        TagBuilder::new()
    }
}

/// Builds a tag; the name must be set.
pub struct TagBuilder {
    pub id: Option<uuid::Uuid>,
    pub name: Option<TagName>,
    pub created_at: Option<i64>,
    pub updated_at: Option<i64>,
    pub count: u64,
}

impl TagBuilder {
    /// A builder with nothing set and a count of `0`.
    pub fn new() -> (r: TagBuilder)
        ensures
            r.id is None,
            r.name is None,
            r.created_at is None,
            r.updated_at is None,
            r.count == 0,
    {
        TagBuilder { id: None, name: None, created_at: None, updated_at: None, count: 0 }
    }

    /// Sets the name.
    pub fn name(self, name: TagName) -> (r: TagBuilder)
        ensures
            r == (TagBuilder { name: Some(name), ..self }),
    {
        TagBuilder { name: Some(name), ..self }
    }

    /// Reads `s` as a tag name and sets it; the error of the name otherwise.
    pub fn name_str(self, s: &str) -> (r: Result<TagBuilder, TagNameError>)
        ensures
            match parsed_tag_name(s@) {
                Ok(v) => r matches Ok(b) && b.name matches Some(n) && n@ == v && b == (TagBuilder {
                    name: b.name,
                    ..self
                }),
                Err(e) => r matches Err(x) && x == e,
            },
            r is Err <==> all_white_space(s@),
    {
        let name = TagName::try_new(s)?;
        Ok(self.name(name))
    }

    /// Sets the id.
    pub fn id(self, id: uuid::Uuid) -> (r: TagBuilder)
        ensures
            r == (TagBuilder { id: Some(id), ..self }),
    {
        TagBuilder { id: Some(id), ..self }
    }

    /// Sets the count.
    pub fn count(self, count: u64) -> (r: TagBuilder)
        ensures
            r == (TagBuilder { count, ..self }),
    {
        TagBuilder { count, ..self }
    }

    /// The tag, once a name is set, with every part as set; `None` before.
    pub fn build(self) -> (r: Option<Tag>)
        ensures
            self.name is None <==> r is None,
            r matches Some(t) ==> (self.name matches Some(n) && t == (Tag {
                id: self.id,
                name: n,
                created_at: self.created_at,
                updated_at: self.updated_at,
                count: self.count,
            })),
    {
        match self.name {
            Some(name) => Some(
                Tag {
                    id: self.id,
                    name,
                    created_at: self.created_at,
                    updated_at: self.updated_at,
                    count: self.count,
                },
            ),
            None => None,
        }
    }
}

} // verus!
