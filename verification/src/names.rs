//! Validated names: the name of a fashion, of a character and of a tag.
use vstd::prelude::*;
use crate::text::{
    decimal, decimal_text, collapse_whitespace, collapsed, joined, lemma_collapsed_fixed, lemma_collapsed_no_outer_space,
    lemma_collapsed_shape, lemma_trimmed_fixed, lemma_trimmed_no_outer_space, trim, trimmed,
    word_ranges, words, all_white_space, lemma_trimmed_empty,
};

verus! {

/// A hexadecimal digit, in either case.
pub open spec fn hex_digit(c: char) -> bool {
    ('0' <= c && c <= '9') || ('a' <= c && c <= 'f') || ('A' <= c && c <= 'F')
}

/// Thirty-two hexadecimal digits.
pub open spec fn simple_uuid(s: Seq<char>) -> bool {
    s.len() == 32 && forall|i: int| 0 <= i < 32 ==> hex_digit(#[trigger] s[i])
}

/// Thirty-two hexadecimal digits in groups of 8, 4, 4, 4 and 12, joined by hyphens.
pub open spec fn hyphenated_uuid(s: Seq<char>) -> bool {
    &&& s.len() == 36
    &&& forall|i: int|
        0 <= i < 36 ==> if i == 8 || i == 13 || i == 18 || i == 23 {
            #[trigger] s[i] == '-'
        } else {
            hex_digit(s[i])
        }
}

/// `c` is the ASCII letter or sign `l`, or, for a lowercase letter, its uppercase.
pub open spec fn ascii_ci(c: char, l: char) -> bool {
    c == l || ('a' <= l && l <= 'z' && c as int + 32 == l as int)
}

/// `urn:uuid:`, in any ASCII case.
pub open spec fn urn_prefix(p: Seq<char>) -> bool {
    &&& p.len() == 9
    &&& ascii_ci(p[0], 'u') && ascii_ci(p[1], 'r') && ascii_ci(p[2], 'n') && p[3] == ':'
    &&& ascii_ci(p[4], 'u') && ascii_ci(p[5], 'u') && ascii_ci(p[6], 'i') && ascii_ci(p[7], 'd')
    &&& p[8] == ':'
}

/// The texts that `uuid::Uuid::parse_str` accepts: the simple form, the hyphenated
/// form, the hyphenated form in braces, and the hyphenated form after `urn:uuid:`.
pub open spec fn uuid_accepts(text: Seq<char>) -> bool {
    ||| simple_uuid(text)
    ||| hyphenated_uuid(text)
    ||| text.len() == 38 && text[0] == '{' && text[37] == '}' && hyphenated_uuid(
        text.subrange(1, 37),
    )
    ||| text.len() == 45 && urn_prefix(text.subrange(0, 9)) && hyphenated_uuid(
        text.subrange(9, 45),
    )
}

/// What `str::to_uppercase` gives for `text`.
pub uninterp spec fn uppercased(text: Seq<char>) -> Seq<char>;

/// What `str::to_lowercase` gives for `text`.
pub uninterp spec fn lowercased(text: Seq<char>) -> Seq<char>;

/// Asks `uuid::Uuid::parse_str` whether `text` is a UUID. Claims that it accepts
/// exactly the forms of `uuid_accepts`: the parser works on the UTF-8 bytes, and
/// each form it takes is all ASCII, so bytes and characters agree.
#[verifier::external_body]
fn parses_as_uuid(text: &str) -> (r: bool)
    ensures
        r == uuid_accepts(text@),
{
    uuid::Uuid::parse_str(text).is_ok()
}

/// `str::to_uppercase`. Claims only that the result is the named uppercase mapping
/// of the text; the Unicode case tables are not restated here.
#[verifier::external_body]
fn to_uppercase(text: &str) -> (r: String)
    ensures
        r@ == uppercased(text@),
{
    text.to_uppercase()
}

/// `str::to_lowercase`. Claims that the result is the named lowercase mapping of the
/// text, and that it is empty exactly when the text is (each character lowercases
/// to one or more characters); the Unicode case tables are not restated here.
#[verifier::external_body]
fn to_lowercase(text: &str) -> (r: String)
    ensures
        r@ == lowercased(text@),
        r@.len() == 0 <==> text@.len() == 0,
{
    text.to_lowercase()
}

/// `s` with each maximal run of whitespace replaced by one space.
pub fn normalize_whitespaces(s: &str) -> (r: String)
    ensures
        r@ == collapsed(s@),
{
    collapse_whitespace(s)
}

// ---------------------------------------------------------------- fashion names

/// Why a fashion name was refused.
#[derive(Debug, Clone, Copy, PartialEq, Eq, Structural)]
pub enum FashionNameError {
    Empty,
    IsUuid,
}

impl FashionNameError {
    /// What the error says.
    pub open spec fn spec_message(&self) -> Seq<char> {
        match self {
            FashionNameError::Empty => "Fashion name is empty"@,
            FashionNameError::IsUuid => "Fashion name is a UUID"@,
        }
    }

    /// What the error says.
    pub fn message(&self) -> (r: &'static str)
        ensures
            r@ == self.spec_message(),
    {
        match self {
            FashionNameError::Empty => "Fashion name is empty",
            FashionNameError::IsUuid => "Fashion name is a UUID",
        }
    }
}

/// The form a fashion name is kept in: trimmed, each whitespace run one space.
pub open spec fn fashion_sanitized(raw: Seq<char>) -> Seq<char> {
    collapsed(trimmed(raw))
}

/// The verdict on a sanitized fashion name, given whether it reads as a UUID: an
/// empty name is `Empty`, a UUID is `IsUuid`, anything else is accepted.
pub open spec fn fashion_verdict(s: Seq<char>, is_uuid: bool) -> Result<(), FashionNameError> {
    if s.len() == 0 {
        Err(FashionNameError::Empty)
    } else if is_uuid {
        Err(FashionNameError::IsUuid)
    } else {
        Ok(())
    }
}

/// What reading `raw` as a fashion name gives: its sanitized form, or the reason
/// that form is refused.
pub open spec fn parsed_fashion_name(raw: Seq<char>) -> Result<Seq<char>, FashionNameError> {
    let s = fashion_sanitized(raw);
    match fashion_verdict(s, uuid_accepts(s)) {
        Ok(_) => Ok(s),
        Err(e) => Err(e),
    }
}

/// The form a fashion name is kept in (whitespace runs collapsed).
pub fn normalize_fashion_name(s: &str) -> (r: String)
    ensures
        r@ == collapsed(s@),
{
    normalize_whitespaces(s)
}

/// The verdict on the fashion name `s`, given whether it reads as a UUID.
pub fn judge_fashion_name(s: &str, is_uuid: bool) -> (r: Result<(), FashionNameError>)
    ensures
        r == fashion_verdict(s@, is_uuid),
{
    if s.unicode_len() == 0 {
        Err(FashionNameError::Empty)
    } else if is_uuid {
        Err(FashionNameError::IsUuid)
    } else {
        Ok(())
    }
}

/// Checks a sanitized fashion name: it must not be empty, nor a UUID.
pub fn validate_fashion_name(s: &str) -> (r: Result<(), FashionNameError>)
    ensures
        r == fashion_verdict(s@, uuid_accepts(s@)),
{
    if s.unicode_len() == 0 {
        return Err(FashionNameError::Empty);
    }
    judge_fashion_name(s, parses_as_uuid(s))
}

/// The name of a fashion: trimmed, single-spaced, not empty and not a UUID.
#[derive(Debug)]
pub struct FashionName(String);

impl View for FashionName {
    type V = Seq<char>;

    closed spec fn view(&self) -> Seq<char> {
        self.0@
    }
}

impl FashionName {
    #[verifier::type_invariant]
    spec fn wf(self) -> bool {
        parsed_fashion_name(self.0@) == Ok::<Seq<char>, FashionNameError>(self.0@)
    }

    /// Reads a fashion name: the text is trimmed and its whitespace runs collapsed,
    /// then it must be neither empty nor a UUID.
    pub fn try_new(raw: &str) -> (r: Result<FashionName, FashionNameError>)
        ensures
            match parsed_fashion_name(raw@) {
                Ok(v) => r matches Ok(n) && n@ == v,
                Err(e) => r matches Err(x) && x == e,
            },
    {
        let s = normalize_fashion_name(trim(raw));
        proof {
            law_fashion_name_stable(raw@);
        }
        match validate_fashion_name(s.as_str()) {
            Ok(()) => Ok(FashionName(s)),
            Err(e) => Err(e),
        }
    }

    /// The name as text; it is never empty.
    pub fn as_str(&self) -> (r: &str)
        ensures
            r@ == self@,
            parsed_fashion_name(self@) == Ok::<Seq<char>, FashionNameError>(self@),
            self@.len() > 0,
    {
        proof {
            use_type_invariant(self);
        }
        self.0.as_str()
    }

    /// The name as an owned string.
    pub fn into_inner(self) -> (r: String)
        ensures
            r@ == self@,
    {
        self.0
    }
}

impl Clone for FashionName {
    fn clone(&self) -> (r: Self)
        ensures
            r@ == self@,
    {
        proof {
            use_type_invariant(self);
        }
        FashionName(self.0.clone())
    }
}

impl PartialEq for FashionName {
    fn eq(&self, other: &Self) -> (r: bool) {
        self.0 == other.0
    }
}

impl vstd::std_specs::cmp::PartialEqSpecImpl for FashionName {
    open spec fn obeys_eq_spec() -> bool {
        true
    }

    open spec fn eq_spec(&self, other: &Self) -> bool {
        self@ == other@
    }
}

impl Eq for FashionName {

}

/// Sanitizing a fashion name twice is sanitizing it once, so a name that was read
/// reads back as itself.
pub proof fn law_fashion_name_stable(raw: Seq<char>)
    ensures
        fashion_sanitized(fashion_sanitized(raw)) == fashion_sanitized(raw),
        parsed_fashion_name(raw) matches Ok(v) ==> parsed_fashion_name(v) == Ok::<
            Seq<char>,
            FashionNameError,
        >(v),
{
    let t = trimmed(raw);
    let c = collapsed(t);
    lemma_trimmed_no_outer_space(raw);
    lemma_collapsed_no_outer_space(t);
    lemma_collapsed_shape(t);
    lemma_trimmed_fixed(c);
    lemma_collapsed_fixed(c);
}

// -------------------------------------------------------------- character names

/// Why a character name was refused.
#[derive(Debug, Clone, Copy, PartialEq, Eq, Structural)]
pub enum CharacterNameError {
    InvalidLength(usize),
    InvalidCharacter(char),
}

/// What `format!("{:?}", c)` gives for `c`: the character between single quotes,
/// escaped as `char::escape_debug` escapes it.
pub uninterp spec fn char_debug(c: char) -> Seq<char>;

/// `c` written as `{:?}` writes a `char`. Claims only that the text is the named
/// rendering of `c`; the escaping rules are not restated here.
#[verifier::external_body]
fn debug_char(c: char) -> (r: String)
    ensures
        r@ == char_debug(c),
{
    format!("{c:?}")
}

impl CharacterNameError {
    /// What the error says: the length in bytes, or the refused character.
    pub open spec fn spec_message(&self) -> Seq<char> {
        match self {
            CharacterNameError::InvalidLength(n) => "Invalid character name length: "@ + decimal(
                *n as nat,
            ),
            CharacterNameError::InvalidCharacter(c) => "Character name includes invalid characters: "@
                + char_debug(*c),
        }
    }

    /// What the error says.
    pub fn message(&self) -> (r: String)
        ensures
            r@ == self.spec_message(),
    {
        match self {
            CharacterNameError::InvalidLength(n) => {
                let mut s = <String as StringExecFns>::from_str("Invalid character name length: ");
                let d = decimal_text(*n);
                s.append(d.as_str());
                s
            },
            CharacterNameError::InvalidCharacter(c) => {
                let mut s = <String as StringExecFns>::from_str(
                    "Character name includes invalid characters: ",
                );
                let d = debug_char(*c);
                s.append(d.as_str());
                s
            },
        }
    }
}

/// The accented letters that character names may hold.
pub open spec fn name_diacritic(c: char) -> bool {
    c == 'Á' || c == 'á' || c == 'Â' || c == 'â' || c == 'Ä' || c == 'ä' || c == 'À' || c == 'à'
        || c == 'Æ' || c == 'æ' || c == 'Ç' || c == 'ç' || c == 'Ê' || c == 'ê' || c == 'É' || c
        == 'é' || c == 'Ë' || c == 'ë' || c == 'È' || c == 'è' || c == 'Ï' || c == 'ï' || c == 'Í'
        || c == 'í' || c == 'Î' || c == 'î' || c == 'Ñ' || c == 'ñ' || c == 'Œ' || c == 'œ' || c
        == 'Ô' || c == 'ô' || c == 'Ö' || c == 'ö' || c == 'Ó' || c == 'ó' || c == 'Ú' || c == 'ú'
        || c == 'Ü' || c == 'ü' || c == 'Û' || c == 'û' || c == 'Ù' || c == 'ù'
}

/// The characters a character name may hold: the space, ASCII letters and the
/// accented letters above.
pub open spec fn allowed_in_character_name(c: char) -> bool {
    c == ' ' || ('a' <= c && c <= 'z') || ('A' <= c && c <= 'Z') || name_diacritic(c)
}

/// Whether `c` may stand in a character name.
pub fn is_allowed_character_name_char(c: char) -> (r: bool)
    ensures
        r == allowed_in_character_name(c),
{
    c == ' ' || ('a' <= c && c <= 'z') || ('A' <= c && c <= 'Z') || c == 'Á' || c == 'á' || c
        == 'Â' || c == 'â' || c == 'Ä' || c == 'ä' || c == 'À' || c == 'à' || c == 'Æ' || c == 'æ'
        || c == 'Ç' || c == 'ç' || c == 'Ê' || c == 'ê' || c == 'É' || c == 'é' || c == 'Ë' || c
        == 'ë' || c == 'È' || c == 'è' || c == 'Ï' || c == 'ï' || c == 'Í' || c == 'í' || c == 'Î'
        || c == 'î' || c == 'Ñ' || c == 'ñ' || c == 'Œ' || c == 'œ' || c == 'Ô' || c == 'ô' || c
        == 'Ö' || c == 'ö' || c == 'Ó' || c == 'ó' || c == 'Ú' || c == 'ú' || c == 'Ü' || c == 'ü'
        || c == 'Û' || c == 'û' || c == 'Ù' || c == 'ù'
}

/// The first character of `s` that a character name may not hold, if any.
pub open spec fn first_disallowed(s: Seq<char>) -> Option<char>
    decreases s.len(),
{
    if s.len() == 0 {
        None
    } else if !allowed_in_character_name(s[0]) {
        Some(s[0])
    } else {
        first_disallowed(s.drop_first())
    }
}

/// The verdict on a sanitized character name: its UTF-8 length must be `3 ..= 19`
/// bytes (else `InvalidLength` with the length), then its first disallowed
/// character, if any, is `InvalidCharacter`.
pub open spec fn character_name_check(s: Seq<char>) -> Result<(), CharacterNameError> {
    let n = vstd::utf8::encode_utf8(s).len() as usize;
    if !(3 <= n <= 19) {
        Err(CharacterNameError::InvalidLength(n))
    } else {
        match first_disallowed(s) {
            Some(c) => Err(CharacterNameError::InvalidCharacter(c)),
            None => Ok(()),
        }
    }
}

/// Checks a sanitized character name (see `character_name_check`).
pub fn validate_character_name(s: &str) -> (r: Result<(), CharacterNameError>)
    ensures
        r == character_name_check(s@),
{
    let len = s.len();
    if !(3 <= len && len <= 19) {
        return Err(CharacterNameError::InvalidLength(len));
    }
    let n = s.unicode_len();
    let mut i: usize = 0;
    assert(s@.subrange(0, n as int) =~= s@);
    while i < n
        invariant
            n == s@.len(),
            i <= n,
            first_disallowed(s@) == first_disallowed(s@.subrange(i as int, n as int)),
            3 <= (vstd::utf8::encode_utf8(s@).len() as usize) <= 19,
        decreases n - i,
    {
        let c = s.get_char(i);
        let ghost t = s@.subrange(i as int, n as int);
        assert(t[0] == c);
        if !is_allowed_character_name_char(c) {
            return Err(CharacterNameError::InvalidCharacter(c));
        }
        assert(t.drop_first() =~= s@.subrange(i + 1, n as int));
        i = i + 1;
    }
    Ok(())
}

/// A word with its first character uppercased and the rest lowercased.
pub open spec fn capitalized_word(w: Seq<char>) -> Seq<char> {
    if w.len() == 0 {
        seq![]
    } else {
        uppercased(w.subrange(0, 1)) + lowercased(w.drop_first())
    }
}

/// Each word capitalized.
pub open spec fn capitalized_words(ws: Seq<Seq<char>>) -> Seq<Seq<char>> {
    ws.map_values(|w: Seq<char>| capitalized_word(w))
}

/// The form a character name is kept in: trimmed, then its words capitalized and
/// joined with single spaces.
pub open spec fn character_sanitized(raw: Seq<char>) -> Seq<char> {
    joined(capitalized_words(words(collapsed(trimmed(raw)))))
}

/// Uppercases the first character of `word` and lowercases the rest.
pub fn capitalize_word(word: &str) -> (r: String)
    ensures
        r@ == capitalized_word(word@),
{
    let n = word.unicode_len();
    if n == 0 {
        return String::new();
    }
    let first = word.substring_char(0, 1);
    let rest = word.substring_char(1, n);
    let mut out = to_uppercase(first);
    let lower = to_lowercase(rest);
    out.append(lower.as_str());
    assert(word@.drop_first() =~= word@.subrange(1, n as int));
    out
}

/// The words of `s`, each capitalized, joined with single spaces.
pub fn capitalize_character_name(s: &str) -> (r: String)
    ensures
        r@ == joined(capitalized_words(words(s@))),
{
    let ranges = word_ranges(s);
    let ghost cw = capitalized_words(words(s@));
    let mut out = String::new();
    let mut k: usize = 0;
    assert(cw.subrange(0, 0) =~= Seq::<Seq<char>>::empty());
    while k < ranges.len()
        invariant
            ranges@.len() == words(s@).len(),
            cw == capitalized_words(words(s@)),
            cw.len() == ranges@.len(),
            forall|j: int| #![trigger ranges@[j]]
                0 <= j < ranges@.len() ==> ranges@[j].0 <= ranges@[j].1 && ranges@[j].1
                    <= s@.len(),
            forall|j: int|
                0 <= j < ranges@.len() ==> s@.subrange(ranges@[j].0 as int, ranges@[j].1 as int)
                    == #[trigger] words(s@)[j],
            k <= ranges@.len(),
            out@ == joined(cw.subrange(0, k as int)),
        decreases ranges@.len() - k,
    {
        let (a, b) = ranges[k];
        let word = s.substring_char(a, b);
        let cap = capitalize_word(word);
        assert(cap@ == cw[k as int]);
        let ghost prev = cw.subrange(0, k as int);
        let ghost next = cw.subrange(0, k + 1);
        assert(next.drop_last() =~= prev);
        if k > 0 {
            out.append(" ");
            proof {
                reveal_strlit(" ");
            }
        }
        out.append(cap.as_str());
        assert(out@ =~= joined(next));
        k = k + 1;
    }
    assert(cw.subrange(0, k as int) =~= cw);
    out
}

/// The form a character name is kept in, from trimmed text: whitespace runs
/// collapsed, then each word capitalized and the words joined with single spaces.
pub fn normalize_char_name(s: &str) -> (r: String)
    ensures
        r@ == joined(capitalized_words(words(collapsed(s@)))),
{
    let collapsed_text = normalize_whitespaces(s);
    capitalize_character_name(collapsed_text.as_str())
}

/// What reading `raw` as a character name gives: its sanitized form, or the reason
/// that form is refused.
pub open spec fn parsed_character_name(raw: Seq<char>) -> Result<Seq<char>, CharacterNameError> {
    let s = character_sanitized(raw);
    match character_name_check(s) {
        Ok(_) => Ok(s),
        Err(e) => Err(e),
    }
}

/// The name of a character: capitalized words, 3 to 19 bytes of letters and spaces.
#[derive(Debug)]
pub struct CharacterName(String);

impl View for CharacterName {
    type V = Seq<char>;

    closed spec fn view(&self) -> Seq<char> {
        self.0@
    }
}

impl CharacterName {
    #[verifier::type_invariant]
    spec fn wf(self) -> bool {
        character_name_check(self.0@) == Ok::<(), CharacterNameError>(())
    }

    /// Reads a character name: the text is trimmed, its words capitalized and joined
    /// with single spaces, then checked (see `character_name_check`).
    pub fn try_new(raw: &str) -> (r: Result<CharacterName, CharacterNameError>)
        ensures
            match parsed_character_name(raw@) {
                Ok(v) => r matches Ok(n) && n@ == v,
                Err(e) => r matches Err(x) && x == e,
            },
    {
        let s = normalize_char_name(trim(raw));
        match validate_character_name(s.as_str()) {
            Ok(()) => Ok(CharacterName(s)),
            Err(e) => Err(e),
        }
    }

    /// The name as text; it passes `character_name_check`.
    pub fn as_str(&self) -> (r: &str)
        ensures
            r@ == self@,
            character_name_check(self@) == Ok::<(), CharacterNameError>(()),
    {
        proof {
            use_type_invariant(self);
        }
        self.0.as_str()
    }

    /// The name as an owned string.
    pub fn into_inner(self) -> (r: String)
        ensures
            r@ == self@,
    {
        self.0
    }
}

impl Clone for CharacterName {
    fn clone(&self) -> (r: Self)
        ensures
            r@ == self@,
    {
        proof {
            use_type_invariant(self);
        }
        CharacterName(self.0.clone())
    }
}

impl PartialEq for CharacterName {
    fn eq(&self, other: &Self) -> (r: bool) {
        self.0 == other.0
    }
}

impl vstd::std_specs::cmp::PartialEqSpecImpl for CharacterName {
    open spec fn obeys_eq_spec() -> bool {
        true
    }

    open spec fn eq_spec(&self, other: &Self) -> bool {
        self@ == other@
    }
}

impl Eq for CharacterName {

}

// -------------------------------------------------------------------- tag names

/// Why a tag name was refused.
#[derive(Debug, Clone, Copy, PartialEq, Eq, Structural)]
pub enum TagNameError {
    NotEmptyViolated,
}

/// The form a tag name is kept in: trimmed, lowercased, each whitespace run one
/// space.
pub open spec fn tag_sanitized(raw: Seq<char>) -> Seq<char> {
    collapsed(lowercased(trimmed(raw)))
}

/// What reading `raw` as a tag name gives: its sanitized form, or
/// `NotEmptyViolated` when that is empty.
pub open spec fn parsed_tag_name(raw: Seq<char>) -> Result<Seq<char>, TagNameError> {
    let s = tag_sanitized(raw);
    if s.len() == 0 {
        Err(TagNameError::NotEmptyViolated)
    } else {
        Ok(s)
    }
}

/// The form a tag name is kept in, from trimmed and lowercased text (whitespace
/// runs collapsed).
pub fn normalize_tag_name(s: &str) -> (r: String)
    ensures
        r@ == collapsed(s@),
{
    normalize_whitespaces(s)
}

/// The name of a tag: lowercase, single-spaced and not empty.
#[derive(Debug)]
pub struct TagName(String);

impl View for TagName {
    type V = Seq<char>;

    closed spec fn view(&self) -> Seq<char> {
        self.0@
    }
}

impl TagName {
    #[verifier::type_invariant]
    spec fn wf(self) -> bool {
        self.0@.len() > 0
    }

    /// Reads a tag name: the text is trimmed, lowercased and its whitespace runs
    /// collapsed; it must not end up empty.
    pub fn try_new(raw: &str) -> (r: Result<TagName, TagNameError>)
        ensures
            match parsed_tag_name(raw@) {
                Ok(v) => r matches Ok(n) && n@ == v,
                Err(e) => r matches Err(x) && x == e,
            },
            r is Err <==> all_white_space(raw@),
    {
        let lower = to_lowercase(trim(raw));
        proof {
            lemma_trimmed_empty(raw@);
            lemma_collapsed_shape(lower@);
        }
        let s = normalize_tag_name(lower.as_str());
        if s.as_str().unicode_len() == 0 {
            Err(TagNameError::NotEmptyViolated)
        } else {
            Ok(TagName(s))
        }
    }

    /// The name as text; it is never empty.
    pub fn as_str(&self) -> (r: &str)
        ensures
            r@ == self@,
            self@.len() > 0,
    {
        proof {
            use_type_invariant(self);
        }
        self.0.as_str()
    }

    /// The name as an owned string.
    pub fn into_inner(self) -> (r: String)
        ensures
            r@ == self@,
    {
        self.0
    }
}

impl Clone for TagName {
    fn clone(&self) -> (r: Self)
        ensures
            r@ == self@,
    {
        proof {
            use_type_invariant(self);
        }
        TagName(self.0.clone())
    }
}

impl PartialEq for TagName {
    fn eq(&self, other: &Self) -> (r: bool) {
        self.0 == other.0
    }
}

impl vstd::std_specs::cmp::PartialEqSpecImpl for TagName {
    open spec fn obeys_eq_spec() -> bool {
        true
    }

    open spec fn eq_spec(&self, other: &Self) -> bool {
        self@ == other@
    }
}

impl Eq for TagName {

}

} // verus!
