//! Chat links: the `[&...]` codes that the game uses to share templates.
use vstd::prelude::*;
use base64::DecodeError;
use base64::Engine;
use crate::error::ChatLinkError;
use crate::skins::Appearance;
use crate::slots::{FashionSlot, TravelSlot, WardrobeSlot};
use crate::template::{
    bit, decoded_slots, dyeable_at, law_payload_rewrite, law_payload_roundtrip, payload_accepted,
    payload_len, payload_visibility, shown, visibility_fits, Template,
};

verus! {

/// The type of a chat link, given by its first byte.
#[derive(Debug, Clone, Copy, PartialEq, Eq, Structural)]
pub enum ChatLinkType {
    Coin,
    Item,
    NPCText,
    MapLink,
    PvPGame,
    Skill,
    Trait,
    User,
    Recipe,
    Wardrobe,
    Outfit,
    WvWObjective,
    BuildTemplate,
    Achievement,
    WardrobeTemplate,
    TravelTemplate,
}

impl ChatLinkType {
    /// The byte that stands for the type: `1` for a coin up to `16` for a travel template.
    pub open spec fn spec_code(self) -> u8 {
        match self {
            ChatLinkType::Coin => 1,
            ChatLinkType::Item => 2,
            ChatLinkType::NPCText => 3,
            ChatLinkType::MapLink => 4,
            ChatLinkType::PvPGame => 5,
            ChatLinkType::Skill => 6,
            ChatLinkType::Trait => 7,
            ChatLinkType::User => 8,
            ChatLinkType::Recipe => 9,
            ChatLinkType::Wardrobe => 10,
            ChatLinkType::Outfit => 11,
            ChatLinkType::WvWObjective => 12,
            ChatLinkType::BuildTemplate => 13,
            ChatLinkType::Achievement => 14,
            ChatLinkType::WardrobeTemplate => 15,
            ChatLinkType::TravelTemplate => 16,
        }
    }

    /// The byte of the type.
    pub fn code(self) -> (r: u8)
        ensures
            r == self.spec_code(),
    {
        match self {
            ChatLinkType::Coin => 1,
            ChatLinkType::Item => 2,
            ChatLinkType::NPCText => 3,
            ChatLinkType::MapLink => 4,
            ChatLinkType::PvPGame => 5,
            ChatLinkType::Skill => 6,
            ChatLinkType::Trait => 7,
            ChatLinkType::User => 8,
            ChatLinkType::Recipe => 9,
            ChatLinkType::Wardrobe => 10,
            ChatLinkType::Outfit => 11,
            ChatLinkType::WvWObjective => 12,
            ChatLinkType::BuildTemplate => 13,
            ChatLinkType::Achievement => 14,
            ChatLinkType::WardrobeTemplate => 15,
            ChatLinkType::TravelTemplate => 16,
        }
    }

    /// The type whose byte is `code`; `None` unless `1 <= code <= 16`.
    pub fn from_code(code: u8) -> (r: Option<ChatLinkType>)
        ensures
            1 <= code <= 16 <==> r is Some,
            r matches Some(t) ==> t.spec_code() == code,
    {
        match code {
            1 => Some(ChatLinkType::Coin),
            2 => Some(ChatLinkType::Item),
            3 => Some(ChatLinkType::NPCText),
            4 => Some(ChatLinkType::MapLink),
            5 => Some(ChatLinkType::PvPGame),
            6 => Some(ChatLinkType::Skill),
            7 => Some(ChatLinkType::Trait),
            8 => Some(ChatLinkType::User),
            9 => Some(ChatLinkType::Recipe),
            10 => Some(ChatLinkType::Wardrobe),
            11 => Some(ChatLinkType::Outfit),
            12 => Some(ChatLinkType::WvWObjective),
            13 => Some(ChatLinkType::BuildTemplate),
            14 => Some(ChatLinkType::Achievement),
            15 => Some(ChatLinkType::WardrobeTemplate),
            16 => Some(ChatLinkType::TravelTemplate),
            _ => None,
        }
    }
}

/// Distinct types have distinct bytes.
pub proof fn law_code_injective(a: ChatLinkType, b: ChatLinkType)
    ensures
        a.spec_code() == b.spec_code() ==> a == b,
{
}

impl ChatLinkType {
    /// The type whose byte is `code`, for a code in `1 ..= 16`.
    pub open spec fn spec_from_code(code: u8) -> ChatLinkType {
        if code == 1 {
            ChatLinkType::Coin
        } else if code == 2 {
            ChatLinkType::Item
        } else if code == 3 {
            ChatLinkType::NPCText
        } else if code == 4 {
            ChatLinkType::MapLink
        } else if code == 5 {
            ChatLinkType::PvPGame
        } else if code == 6 {
            ChatLinkType::Skill
        } else if code == 7 {
            ChatLinkType::Trait
        } else if code == 8 {
            ChatLinkType::User
        } else if code == 9 {
            ChatLinkType::Recipe
        } else if code == 10 {
            ChatLinkType::Wardrobe
        } else if code == 11 {
            ChatLinkType::Outfit
        } else if code == 12 {
            ChatLinkType::WvWObjective
        } else if code == 13 {
            ChatLinkType::BuildTemplate
        } else if code == 14 {
            ChatLinkType::Achievement
        } else if code == 15 {
            ChatLinkType::WardrobeTemplate
        } else {
            ChatLinkType::TravelTemplate
        }
    }
}

/// A parsed chat link: a wardrobe or travel template, or the bytes of a link of
/// another type.
#[derive(Debug)]
pub enum ChatLink {
    WardrobeTemplate(Template<WardrobeSlot>),
    TravelTemplate(Template<TravelSlot>),
    Unparsed { link_type: ChatLinkType, bytes: Vec<u8> },
}

/// What a chat link holds, as mathematical values.
pub enum LinkView {
    Wardrobe(Seq<Appearance>),
    Travel(Seq<Appearance>),
    Unparsed(ChatLinkType, Seq<u8>),
}

/// Why a chat link was refused, as mathematical values.
pub enum LinkFailure {
    InvalidString,
    InvalidBase64,
    EmptyPayload,
    UnknownType(u8),
    UnexpectedType(ChatLinkType, ChatLinkType),
    TruncatedData(Seq<u8>),
    InvalidVisibility(u16),
}

impl ChatLinkError {
    /// The failure that this error reports.
    pub open spec fn failure(&self) -> LinkFailure {
        match self {
            ChatLinkError::InvalidString => LinkFailure::InvalidString,
            ChatLinkError::InvalidBase64(_) => LinkFailure::InvalidBase64,
            ChatLinkError::EmptyPayload => LinkFailure::EmptyPayload,
            ChatLinkError::UnknownType(c) => LinkFailure::UnknownType(*c),
            ChatLinkError::UnexpectedType { expected, found } => LinkFailure::UnexpectedType(
                *expected,
                *found,
            ),
            ChatLinkError::TruncatedData(v) => LinkFailure::TruncatedData(v@),
            ChatLinkError::InvalidVisibility(v) => LinkFailure::InvalidVisibility(*v),
        }
    }
}

impl View for ChatLink {
    type V = LinkView;

    open spec fn view(&self) -> LinkView {
        match self {
            ChatLink::WardrobeTemplate(t) => LinkView::Wardrobe(t@),
            ChatLink::TravelTemplate(t) => LinkView::Travel(t@),
            ChatLink::Unparsed { link_type, bytes } => LinkView::Unparsed(*link_type, bytes@),
        }
    }
}

/// The result of reading a template payload of `S`.
pub open spec fn payload_result<S: FashionSlot>(p: Seq<u8>) -> Result<Seq<Appearance>, LinkFailure> {
    if p.len() != payload_len::<S>() {
        Err(LinkFailure::TruncatedData(p))
    } else if !visibility_fits::<S>(payload_visibility(p)) {
        Err(LinkFailure::InvalidVisibility(payload_visibility(p)))
    } else {
        Ok(decoded_slots::<S>(p))
    }
}

/// The result of reading the decoded bytes of a chat link: a type byte, then the
/// payload of that type.
pub open spec fn parse_link_bytes(b: Seq<u8>) -> Result<LinkView, LinkFailure> {
    if b.len() == 0 {
        Err(LinkFailure::EmptyPayload)
    } else if !(1 <= b[0] <= 16) {
        Err(LinkFailure::UnknownType(b[0]))
    } else if b[0] == 15 {
        match payload_result::<WardrobeSlot>(b.drop_first()) {
            Ok(s) => Ok(LinkView::Wardrobe(s)),
            Err(e) => Err(e),
        }
    } else if b[0] == 16 {
        match payload_result::<TravelSlot>(b.drop_first()) {
            Ok(s) => Ok(LinkView::Travel(s)),
            Err(e) => Err(e),
        }
    } else {
        Ok(LinkView::Unparsed(ChatLinkType::spec_from_code(b[0]), b.drop_first()))
    }
}

/// The text inside the delimiters: `[` and `]` must come together or not at all,
/// and a leading `&` is dropped. `None` when the delimiters do not match.
pub open spec fn stripped(raw: Seq<char>) -> Option<Seq<char>> {
    let inner = if raw.len() > 0 && raw[0] == '[' {
        if raw.len() >= 2 && raw.last() == ']' {
            Some(raw.subrange(1, raw.len() - 1))
        } else {
            None
        }
    } else if raw.len() > 0 && raw.last() == ']' {
        None
    } else {
        Some(raw)
    };
    match inner {
        Some(i) => Some(
            if i.len() > 0 && i[0] == '&' {
                i.drop_first()
            } else {
                i
            },
        ),
        None => None,
    }
}

/// A character of the standard base64 alphabet, or the padding `=`.
pub open spec fn is_base64_char(c: char) -> bool {
    ('A' <= c && c <= 'Z') || ('a' <= c && c <= 'z') || ('0' <= c && c <= '9') || c == '+' || c
        == '/' || c == '='
}

/// All characters of `t` are base64 characters.
pub open spec fn all_base64_chars(t: Seq<char>) -> bool {
    forall|i: int| 0 <= i < t.len() ==> is_base64_char(#[trigger] t[i])
}

/// The bytes that the standard base64 engine decodes from `text`, or `None` where it
/// refuses the text.
pub uninterp spec fn base64_decoded(text: Seq<char>) -> Option<Seq<u8>>;

/// The text that the standard base64 engine encodes `bytes` into.
pub uninterp spec fn base64_encoded(bytes: Seq<u8>) -> Seq<char>;

/// The result of reading the chat link `raw`.
pub open spec fn parse_link(raw: Seq<char>) -> Result<LinkView, LinkFailure> {
    match stripped(raw) {
        None => Err(LinkFailure::InvalidString),
        Some(t) => if !all_base64_chars(t) {
            Err(LinkFailure::InvalidString)
        } else {
            match base64_decoded(t) {
                None => Err(LinkFailure::InvalidBase64),
                Some(b) => parse_link_bytes(b),
            }
        },
    }
}

/// The bytes of a chat link: its type byte, then its payload.
pub open spec fn link_bytes(v: LinkView) -> Seq<u8> {
    match v {
        LinkView::Wardrobe(s) => seq![15u8] + crate::template::encoded_template::<WardrobeSlot>(s),
        LinkView::Travel(s) => seq![16u8] + crate::template::encoded_template::<TravelSlot>(s),
        LinkView::Unparsed(t, b) => seq![t.spec_code()] + b,
    }
}

/// The text of a chat link: `[&`, the base64 of its bytes, `]`.
pub open spec fn link_text(v: LinkView) -> Seq<char> {
    seq!['[', '&'] + base64_encoded(link_bytes(v)) + seq![']']
}

/// A template's slots have the dyeable kind of their place.
pub open spec fn kinds_match<S: FashionSlot>(s: Seq<Appearance>) -> bool {
    &&& s.len() == S::spec_count()
    &&& forall|i: int|
        0 <= i < S::spec_count() ==> s[i].spec_is_dyeable() == dyeable_at::<S>(i as nat)
}

/// The slots as they read back after writing: each visible when shown.
pub open spec fn normalized<S: FashionSlot>(s: Seq<Appearance>) -> Seq<Appearance> {
    Seq::new(S::spec_count(), |i: int| s[i].with_visible(shown::<S>(s, i as nat)))
}

/// A link that reads back as itself up to visibility: its templates have slots of the
/// right kinds, and an unparsed link is not of a template type.
pub open spec fn canonical(v: LinkView) -> bool {
    match v {
        LinkView::Wardrobe(s) => kinds_match::<WardrobeSlot>(s),
        LinkView::Travel(s) => kinds_match::<TravelSlot>(s),
        LinkView::Unparsed(t, _) => t != ChatLinkType::WardrobeTemplate && t
            != ChatLinkType::TravelTemplate,
    }
}

/// The link that a canonical link reads back as.
pub open spec fn normalized_link(v: LinkView) -> LinkView {
    match v {
        LinkView::Wardrobe(s) => LinkView::Wardrobe(normalized::<WardrobeSlot>(s)),
        LinkView::Travel(s) => LinkView::Travel(normalized::<TravelSlot>(s)),
        LinkView::Unparsed(t, b) => LinkView::Unparsed(t, b),
    }
}

/// Text in the form that links are written in: `[&`, then the link, then `]`.
pub open spec fn written_form(raw: Seq<char>) -> bool {
    &&& raw.len() >= 2
    &&& raw[0] == '['
    &&& raw[1] == '&'
    &&& raw.last() == ']'
}

/// A link that writing leaves as it is: every slot that writing shows is visible.
pub open spec fn writes_as_read(v: LinkView) -> bool {
    normalized_link(v) == v
}

/// Text in the written form strips to what lies between `[&` and `]`.
proof fn lemma_written_form(raw: Seq<char>)
    requires
        written_form(raw),
    ensures
        stripped(raw) == Some(raw.subrange(2, raw.len() - 1)),
        raw == seq!['[', '&'] + raw.subrange(2, raw.len() - 1) + seq![']'],
{
    assert(raw.len() >= 3);
    let inner = raw.subrange(1, raw.len() - 1);
    assert(inner.drop_first() =~= raw.subrange(2, raw.len() - 1));
    assert(raw =~= seq!['[', '&'] + raw.subrange(2, raw.len() - 1) + seq![']']);
}

/// Bytes that read as a link that writing leaves as it is are the bytes of that link.
pub proof fn lemma_link_bytes_reread(b: Seq<u8>)
    requires
        parse_link_bytes(b) matches Ok(v) && writes_as_read(v),
    ensures
        parse_link_bytes(b) matches Ok(v) && link_bytes(v) == b,
{
    let v = parse_link_bytes(b)->Ok_0;
    let p = b.drop_first();
    match v {
        LinkView::Wardrobe(s) => {
            lemma_payload_reread::<WardrobeSlot>(p, s);
            assert(b =~= seq![15u8] + p);
        },
        LinkView::Travel(s) => {
            lemma_payload_reread::<TravelSlot>(p, s);
            assert(b =~= seq![16u8] + p);
        },
        LinkView::Unparsed(t, q) => {
            lemma_code_of_byte(b[0]);
            assert(b =~= seq![t.spec_code()] + q);
        },
    }
}

/// A payload read as slots that writing leaves as they are is what writing gives.
proof fn lemma_payload_reread<S: FashionSlot>(p: Seq<u8>, s: Seq<Appearance>)
    requires
        payload_result::<S>(p) == Ok::<Seq<Appearance>, LinkFailure>(s),
        normalized::<S>(s) == s,
    ensures
        crate::template::encoded_template::<S>(s) == p,
{
    assert(payload_accepted::<S>(p));
    assert forall|i: u16|
        (i as nat) < S::spec_count() && S::spec_from_index(i as nat).spec_always_visible()
            implies #[trigger] bit(payload_visibility(p), i) by {
        let k = i as int;
        assert(normalized::<S>(s)[k] == s[k]);
        assert(shown::<S>(s, k as nat));
        assert(s[k].spec_visible() == bit(payload_visibility(p), k as u16));
    }
    law_payload_rewrite::<S>(p);
}

/// The byte of a known type is the code of the type it reads as.
proof fn lemma_code_of_byte(c: u8)
    requires
        1 <= c <= 16,
    ensures
        ChatLinkType::spec_from_code(c).spec_code() == c,
{
}

/// Decodes `text` with the `STANDARD` engine of the `base64` crate (standard RFC 4648
/// alphabet, with padding). Claims: the call succeeds exactly when the named decoding
/// of the text exists, and then returns those bytes; the decode error itself is
/// carried along unexamined. As the engine requires canonical padding and refuses
/// trailing bits, text that decodes is the encoding of what it decodes to.
#[verifier::external_body]
fn base64_decode(text: &str) -> (r: Result<Vec<u8>, DecodeError>)
    ensures
        match r {
            Ok(v) => base64_decoded(text@) == Some(v@),
            Err(_) => base64_decoded(text@) is None,
        },
        r matches Ok(v) ==> base64_encoded(v@) == text@,
{
    base64::engine::general_purpose::STANDARD.decode(text)
}

/// Encodes `bytes` with the `STANDARD` engine of the `base64` crate. Claims: the
/// text is the named encoding of the bytes, it uses only the standard alphabet and
/// `=` padding, and the same engine decodes it back to the bytes (RFC 4648).
#[verifier::external_body]
fn base64_encode(bytes: &[u8]) -> (r: String)
    ensures
        r@ == base64_encoded(bytes@),
        all_base64_chars(r@),
        base64_decoded(r@) == Some(bytes@),
{
    base64::engine::general_purpose::STANDARD.encode(bytes)
}

/// The text inside the delimiters of a chat link (see `stripped`).
pub fn strip_delimiters(raw: &str) -> (r: Result<&str, ChatLinkError>)
    ensures
        match stripped(raw@) {
            Some(t) => r matches Ok(s) && s@ == t,
            None => r matches Err(ChatLinkError::InvalidString),
        },
{
    let n = raw.unicode_len();
    let inner: &str = if n > 0 && raw.get_char(0) == '[' {
        if n >= 2 && raw.get_char(n - 1) == ']' {
            raw.substring_char(1, n - 1)
        } else {
            return Err(ChatLinkError::InvalidString);
        }
    } else if n > 0 && raw.get_char(n - 1) == ']' {
        return Err(ChatLinkError::InvalidString);
    } else {
        raw
    };
    let m = inner.unicode_len();
    if m > 0 && inner.get_char(0) == '&' {
        let r = inner.substring_char(1, m);
        assert(r@ =~= inner@.drop_first());
        Ok(r)
    } else {
        Ok(inner)
    }
}

/// Whether every character of `text` is a base64 character.
pub fn is_base64_text(text: &str) -> (r: bool)
    ensures
        r == all_base64_chars(text@),
{
    let n = text.unicode_len();
    let mut i: usize = 0;
    while i < n
        invariant
            n == text@.len(),
            i <= n,
            forall|j: int| 0 <= j < i ==> is_base64_char(#[trigger] text@[j]),
        decreases n - i,
    {
        let c = text.get_char(i);
        let ok = ('A' <= c && c <= 'Z') || ('a' <= c && c <= 'z') || ('0' <= c && c <= '9')
            || c == '+' || c == '/' || c == '=';
        if !ok {
            return false;
        }
        i = i + 1;
    }
    true
}

/// Strips the delimiters of a chat link and decodes the base64 inside.
fn decode_base64(raw: &str) -> (r: Result<Vec<u8>, ChatLinkError>)
    ensures
        match stripped(raw@) {
            None => r matches Err(ChatLinkError::InvalidString),
            Some(t) => if !all_base64_chars(t) {
                r matches Err(ChatLinkError::InvalidString)
            } else {
                match base64_decoded(t) {
                    None => r matches Err(ChatLinkError::InvalidBase64(_)),
                    Some(b) => r matches Ok(v) && v@ == b,
                }
            },
        },
        r matches Ok(v) ==> stripped(raw@) matches Some(t) && base64_encoded(v@) == t,
{
    let text = strip_delimiters(raw)?;
    if !is_base64_text(text) {
        return Err(ChatLinkError::InvalidString);
    }
    match base64_decode(text) {
        Ok(v) => Ok(v),
        Err(e) => Err(ChatLinkError::InvalidBase64(e)),
    }
}

/// Splits decoded link bytes into the link type and the payload.
pub fn decode_header(decoded: &[u8]) -> (r: Result<(ChatLinkType, &[u8]), ChatLinkError>)
    ensures
        decoded@.len() == 0 ==> r matches Err(ChatLinkError::EmptyPayload),
        decoded@.len() > 0 && !(1 <= decoded@[0] <= 16) ==> (r matches Err(
            ChatLinkError::UnknownType(c),
        ) && c == decoded@[0]),
        decoded@.len() > 0 && 1 <= decoded@[0] <= 16 ==> (r matches Ok((t, p)) && t
            == ChatLinkType::spec_from_code(decoded@[0]) && p@ == decoded@.drop_first()),
{
    if decoded.len() == 0 {
        return Err(ChatLinkError::EmptyPayload);
    }
    let header = decoded[0];
    match ChatLinkType::from_code(header) {
        Some(t) => {
            let payload = vstd::slice::slice_subrange(decoded, 1, decoded.len());
            assert(payload@ =~= decoded@.drop_first());
            Ok((t, payload))
        },
        None => Err(ChatLinkError::UnknownType(header)),
    }
}

/// The type of a chat link.
pub open spec fn view_link_type(v: LinkView) -> ChatLinkType {
    match v {
        LinkView::Wardrobe(_) => ChatLinkType::WardrobeTemplate,
        LinkView::Travel(_) => ChatLinkType::TravelTemplate,
        LinkView::Unparsed(t, _) => t,
    }
}

/// Every byte from `1` to `16` names the type whose code it is.
pub proof fn lemma_code_roundtrip(t: ChatLinkType)
    ensures
        ChatLinkType::spec_from_code(t.spec_code()) == t,
        1 <= t.spec_code() <= 16,
{
}

/// What reading a chat link gives is canonical: the slots of a template have the
/// dyeable kind of their place, and an unparsed link is not of a template type.
pub proof fn lemma_parsed_canonical(raw: Seq<char>)
    ensures
        parse_link(raw) matches Ok(v) ==> canonical(v),
{
    if let Ok(v) = parse_link(raw) {
        match v {
            LinkView::Wardrobe(s) => {
                assert forall|i: int| 0 <= i < WardrobeSlot::spec_count() implies s[i].spec_is_dyeable()
                    == dyeable_at::<WardrobeSlot>(i as nat) by {}
            },
            LinkView::Travel(s) => {
                assert forall|i: int| 0 <= i < TravelSlot::spec_count() implies s[i].spec_is_dyeable()
                    == dyeable_at::<TravelSlot>(i as nat) by {}
            },
            LinkView::Unparsed(t, _) => {},
        }
    }
}

/// The text inside `[&` and `]` is what `stripped` gives of `[&text]`.
proof fn lemma_stripped_wrapped(text: Seq<char>)
    ensures
        stripped(seq!['[', '&'] + text + seq![']']) == Some(text),
{
    let raw = seq!['[', '&'] + text + seq![']'];
    assert(raw[0] == '[');
    assert(raw.last() == ']');
    let inner = raw.subrange(1, raw.len() - 1);
    assert(inner =~= seq!['&'] + text);
    assert(inner.drop_first() =~= text);
}

/// Reading the bytes of a canonical link gives the link, up to visibility.
pub proof fn law_link_bytes_roundtrip(v: LinkView)
    requires
        canonical(v),
    ensures
        parse_link_bytes(link_bytes(v)) == Ok::<LinkView, LinkFailure>(normalized_link(v)),
{
    let b = link_bytes(v);
    match v {
        LinkView::Wardrobe(s) => {
            law_payload_roundtrip::<WardrobeSlot>(s);
            assert(b.drop_first() =~= crate::template::encoded_template::<WardrobeSlot>(s));
        },
        LinkView::Travel(s) => {
            law_payload_roundtrip::<TravelSlot>(s);
            assert(b.drop_first() =~= crate::template::encoded_template::<TravelSlot>(s));
        },
        LinkView::Unparsed(t, bytes) => {
            lemma_code_roundtrip(t);
            assert(b.drop_first() =~= bytes);
        },
    }
}

impl ChatLink {
    /// Reads a chat link: the text, with or without the `[&`, `]` around it, must be
    /// base64 that decodes to a known type byte and its payload. Wardrobe and travel
    /// templates are read; links of other types keep their payload bytes.
    pub fn from_str(raw: &str) -> (r: Result<ChatLink, ChatLinkError>)
        ensures
            match parse_link(raw@) {
                Ok(v) => r matches Ok(l) && l@ == v,
                Err(f) => r matches Err(e) && e.failure() == f,
            },
            r matches Ok(l) ==> canonical(l@),
            r matches Ok(l) ==> (written_form(raw@) && writes_as_read(l@) ==> link_text(l@)
                == raw@),
    {
        proof {
            lemma_parsed_canonical(raw@);
        }
        let decoded = decode_base64(raw)?;
        let r = Self::from_bytes(decoded.as_slice());
        proof {
            if r is Ok && written_form(raw@) && writes_as_read(r->Ok_0@) {
                lemma_link_bytes_reread(decoded@);
                lemma_written_form(raw@);
                assert(link_text(r->Ok_0@) =~= raw@);
            }
        }
        r
    }

    /// Reads the decoded bytes of a chat link: a known type byte, then its payload;
    /// wardrobe and travel templates are read, other links keep their payload.
    pub fn from_bytes(decoded: &[u8]) -> (r: Result<ChatLink, ChatLinkError>)
        ensures
            match parse_link_bytes(decoded@) {
                Ok(v) => r matches Ok(l) && l@ == v,
                Err(f) => r matches Err(e) && e.failure() == f,
            },
    {
        let (link_type, payload) = decode_header(decoded)?;
        match link_type {
            ChatLinkType::WardrobeTemplate => match Template::<WardrobeSlot>::from_bytes(payload) {
                Ok(t) => Ok(ChatLink::WardrobeTemplate(t)),
                Err(e) => Err(e),
            },
            ChatLinkType::TravelTemplate => match Template::<TravelSlot>::from_bytes(payload) {
                Ok(t) => Ok(ChatLink::TravelTemplate(t)),
                Err(e) => Err(e),
            },
            _ => Ok(ChatLink::Unparsed { link_type, bytes: vstd::slice::slice_to_vec(payload) }),
        }
    }

    /// The type of the link.
    pub fn link_type(&self) -> (r: ChatLinkType)
        ensures
            r == view_link_type(self@),
    {
        match self {
            ChatLink::WardrobeTemplate(_) => ChatLinkType::WardrobeTemplate,
            ChatLink::TravelTemplate(_) => ChatLinkType::TravelTemplate,
            ChatLink::Unparsed { link_type, .. } => *link_type,
        }
    }

    /// The bytes of the link: the type byte, then the payload.
    pub fn encode(&self) -> (r: Vec<u8>)
        ensures
            r@ == link_bytes(self@),
    {
        let mut out: Vec<u8> = Vec::new();
        out.push(self.link_type().code());
        let mut payload = match self {
            ChatLink::WardrobeTemplate(t) => t.serialize(),
            ChatLink::TravelTemplate(t) => t.serialize(),
            ChatLink::Unparsed { bytes, .. } => crate::template::copy_vec(bytes),
        };
        out.append(&mut payload);
        proof {
            assert(out@ =~= link_bytes(self@));
        }
        out
    }

    /// The text of the link, `[&` base64 `]`. Reading the text of a canonical link
    /// gives the link back, with every shown slot marked visible.
    pub fn to_string(&self) -> (r: String)
        ensures
            r@ == link_text(self@),
            canonical(self@) ==> parse_link(r@) == Ok::<LinkView, LinkFailure>(normalized_link(self@)),
    {
        let bytes = self.encode();
        link_string(&bytes, Ghost(self@))
    }
}

/// `[&`, the base64 of `bytes`, `]`; reading it back gives what the bytes give.
fn link_string(bytes: &Vec<u8>, Ghost(v): Ghost<LinkView>) -> (r: String)
    requires
        bytes@ == link_bytes(v),
    ensures
        r@ == link_text(v),
        canonical(v) ==> parse_link(r@) == Ok::<LinkView, LinkFailure>(normalized_link(v)),
{
    let enc = base64_encode(bytes.as_slice());
    let mut out = <String as StringExecFns>::from_str("[&");
    out.append(enc.as_str());
    out.append("]");
    proof {
        reveal_strlit("[&");
        reveal_strlit("]");
        assert(out@ =~= link_text(v));
        lemma_stripped_wrapped(enc@);
        if canonical(v) {
            law_link_bytes_roundtrip(v);
        }
    }
    out
}

impl Template<WardrobeSlot> {
    /// The chat link text of this wardrobe template.
    pub fn to_string(&self) -> (r: String)
        ensures
            r@ == link_text(LinkView::Wardrobe(self@)),
            kinds_match::<WardrobeSlot>(self@) ==> parse_link(r@) == Ok::<LinkView, LinkFailure>(
                LinkView::Wardrobe(normalized::<WardrobeSlot>(self@)),
            ),
    {
        let mut bytes: Vec<u8> = Vec::new();
        bytes.push(15u8);
        let mut payload = self.serialize();
        bytes.append(&mut payload);
        proof {
            assert(bytes@ =~= link_bytes(LinkView::Wardrobe(self@)));
        }
        link_string(&bytes, Ghost(LinkView::Wardrobe(self@)))
    }

    /// Takes the wardrobe template out of a link; any other link is an `UnexpectedType`.
    pub fn try_from_link(link: ChatLink) -> (r: Result<Self, ChatLinkError>)
        ensures
            match link@ {
                LinkView::Wardrobe(s) => r matches Ok(t) && t@ == s,
                _ => r matches Err(e) && e.failure() == LinkFailure::UnexpectedType(
                    ChatLinkType::WardrobeTemplate,
                    view_link_type(link@),
                ),
            },
    {
        let found = link.link_type();
        match link {
            ChatLink::WardrobeTemplate(t) => Ok(t),
            _ => Err(ChatLinkError::UnexpectedType { expected: ChatLinkType::WardrobeTemplate, found }),
        }
    }

    /// Reads a chat link that must hold a wardrobe template.
    pub fn from_str(raw: &str) -> (r: Result<Self, ChatLinkError>)
        ensures
            match parse_link(raw@) {
                Ok(LinkView::Wardrobe(s)) => r matches Ok(t) && t@ == s,
                Ok(v) => r matches Err(e) && e.failure() == LinkFailure::UnexpectedType(
                    ChatLinkType::WardrobeTemplate,
                    view_link_type(v),
                ),
                Err(f) => r matches Err(e) && e.failure() == f,
            },
    {
        let link = ChatLink::from_str(raw)?;
        Self::try_from_link(link)
    }
}

impl Template<TravelSlot> {
    /// The chat link text of this travel template.
    pub fn to_string(&self) -> (r: String)
        ensures
            r@ == link_text(LinkView::Travel(self@)),
            kinds_match::<TravelSlot>(self@) ==> parse_link(r@) == Ok::<LinkView, LinkFailure>(
                LinkView::Travel(normalized::<TravelSlot>(self@)),
            ),
    {
        let mut bytes: Vec<u8> = Vec::new();
        bytes.push(16u8);
        let mut payload = self.serialize();
        bytes.append(&mut payload);
        proof {
            assert(bytes@ =~= link_bytes(LinkView::Travel(self@)));
        }
        link_string(&bytes, Ghost(LinkView::Travel(self@)))
    }

    /// Takes the travel template out of a link; any other link is an `UnexpectedType`.
    pub fn try_from_link(link: ChatLink) -> (r: Result<Self, ChatLinkError>)
        ensures
            match link@ {
                LinkView::Travel(s) => r matches Ok(t) && t@ == s,
                _ => r matches Err(e) && e.failure() == LinkFailure::UnexpectedType(
                    ChatLinkType::TravelTemplate,
                    view_link_type(link@),
                ),
            },
    {
        let found = link.link_type();
        match link {
            ChatLink::TravelTemplate(t) => Ok(t),
            _ => Err(ChatLinkError::UnexpectedType { expected: ChatLinkType::TravelTemplate, found }),
        }
    }

    /// Reads a chat link that must hold a travel template.
    pub fn from_str(raw: &str) -> (r: Result<Self, ChatLinkError>)
        ensures
            match parse_link(raw@) {
                Ok(LinkView::Travel(s)) => r matches Ok(t) && t@ == s,
                Ok(v) => r matches Err(e) && e.failure() == LinkFailure::UnexpectedType(
                    ChatLinkType::TravelTemplate,
                    view_link_type(v),
                ),
                Err(f) => r matches Err(e) && e.failure() == f,
            },
    {
        let link = ChatLink::from_str(raw)?;
        Self::try_from_link(link)
    }
}

} // verus!
