//! Whitespace handling on text: trimming, collapsing runs, splitting into words.
use vstd::prelude::*;

verus! {

/// The characters with the Unicode `White_Space` property.
pub open spec fn white_space(c: char) -> bool {
    ('\u{9}' <= c && c <= '\u{d}') || c == ' ' || c == '\u{85}' || c == '\u{a0}' || c
        == '\u{1680}' || ('\u{2000}' <= c && c <= '\u{200a}') || c == '\u{2028}' || c
        == '\u{2029}' || c == '\u{202f}' || c == '\u{205f}' || c == '\u{3000}'
}

/// Whether `c` has the Unicode `White_Space` property.
pub fn is_white_space(c: char) -> (r: bool)
    ensures
        r == white_space(c),
{
    ('\u{9}' <= c && c <= '\u{d}') || c == ' ' || c == '\u{85}' || c == '\u{a0}' || c
        == '\u{1680}' || ('\u{2000}' <= c && c <= '\u{200a}') || c == '\u{2028}' || c
        == '\u{2029}' || c == '\u{202f}' || c == '\u{205f}' || c == '\u{3000}'
}

/// `s` without its leading whitespace.
pub open spec fn trim_start(s: Seq<char>) -> Seq<char>
    decreases s.len(),
{
    if s.len() > 0 && white_space(s[0]) {
        trim_start(s.drop_first())
    } else {
        s
    }
}

/// `s` without its trailing whitespace.
pub open spec fn trim_end(s: Seq<char>) -> Seq<char>
    decreases s.len(),
{
    if s.len() > 0 && white_space(s.last()) {
        trim_end(s.drop_last())
    } else {
        s
    }
}

/// `s` without leading and trailing whitespace.
pub open spec fn trimmed(s: Seq<char>) -> Seq<char> {
    trim_end(trim_start(s))
}

/// `s` with each maximal run of whitespace replaced by one space.
pub open spec fn collapsed(s: Seq<char>) -> Seq<char>
    decreases s.len(),
{
    if s.len() == 0 {
        seq![]
    } else {
        let init = s.drop_last();
        if !white_space(s.last()) {
            collapsed(init).push(s.last())
        } else if init.len() > 0 && white_space(init.last()) {
            collapsed(init)
        } else {
            collapsed(init).push(' ')
        }
    }
}

/// Neither end of `s` is whitespace.
pub open spec fn no_outer_space(s: Seq<char>) -> bool {
    s.len() > 0 ==> !white_space(s[0]) && !white_space(s.last())
}

/// Every whitespace character of `s` is a space, and no two are next to each other.
pub open spec fn single_spaced(s: Seq<char>) -> bool {
    &&& forall|i: int| 0 <= i < s.len() && white_space(#[trigger] s[i]) ==> s[i] == ' '
    &&& forall|i: int| 0 < i < s.len() && white_space(#[trigger] s[i]) ==> !white_space(s[i - 1])
}

/// The result of `trim_start` is a suffix of its argument that starts with no
/// whitespace.
pub proof fn lemma_trim_start(s: Seq<char>)
    ensures
        trim_start(s).len() <= s.len(),
        trim_start(s) == s.subrange(s.len() - trim_start(s).len(), s.len() as int),
        trim_start(s).len() > 0 ==> !white_space(trim_start(s)[0]),
        forall|i: int| 0 <= i < s.len() - trim_start(s).len() ==> white_space(#[trigger] s[i]),
    decreases s.len(),
{
    if s.len() > 0 && white_space(s[0]) {
        lemma_trim_start(s.drop_first());
        let t = s.drop_first();
        assert forall|i: int| 0 <= i < s.len() - trim_start(s).len() implies white_space(
            #[trigger] s[i],
        ) by {
            if i > 0 {
                assert(s[i] == t[i - 1]);
            }
        }
        assert(trim_start(s) =~= s.subrange(s.len() - trim_start(s).len(), s.len() as int));
    } else {
        assert(s =~= s.subrange(0, s.len() as int));
    }
}

/// The result of `trim_end` is a prefix of its argument that ends with no
/// whitespace.
pub proof fn lemma_trim_end(s: Seq<char>)
    ensures
        trim_end(s).len() <= s.len(),
        trim_end(s) == s.subrange(0, trim_end(s).len() as int),
        trim_end(s).len() > 0 ==> !white_space(trim_end(s).last()),
        forall|i: int| trim_end(s).len() <= i < s.len() ==> white_space(#[trigger] s[i]),
    decreases s.len(),
{
    if s.len() > 0 && white_space(s.last()) {
        lemma_trim_end(s.drop_last());
        let t = s.drop_last();
        assert forall|i: int| trim_end(s).len() <= i < s.len() implies white_space(
            #[trigger] s[i],
        ) by {
            if i < s.len() - 1 {
                assert(s[i] == t[i]);
            }
        }
        assert(trim_end(s) =~= s.subrange(0, trim_end(s).len() as int));
    } else {
        assert(s =~= s.subrange(0, s.len() as int));
    }
}

/// Trimmed text has no whitespace at either end.
pub proof fn lemma_trimmed_no_outer_space(s: Seq<char>)
    ensures
        no_outer_space(trimmed(s)),
{
    let a = trim_start(s);
    lemma_trim_start(s);
    lemma_trim_end(a);
    let t = trim_end(a);
    if t.len() > 0 {
        assert(t[0] == a[0]);
    }
}

/// Text with no whitespace at either end is its own trim.
pub proof fn lemma_trimmed_fixed(s: Seq<char>)
    requires
        no_outer_space(s),
    ensures
        trimmed(s) == s,
{
}

/// What `collapsed` gives is single-spaced, and it keeps the first and last
/// character of its argument, a space standing for whitespace.
pub proof fn lemma_collapsed_shape(s: Seq<char>)
    ensures
        single_spaced(collapsed(s)),
        collapsed(s).len() <= s.len(),
        s.len() == 0 <==> collapsed(s).len() == 0,
        s.len() > 0 ==> collapsed(s).last() == (if white_space(s.last()) {
            ' '
        } else {
            s.last()
        }),
        s.len() > 0 ==> collapsed(s)[0] == (if white_space(s[0]) {
            ' '
        } else {
            s[0]
        }),
    decreases s.len(),
{
    if s.len() > 0 {
        let init = s.drop_last();
        lemma_collapsed_shape(init);
        let c = collapsed(init);
        let r = collapsed(s);
        if init.len() > 0 {
            assert(init[0] == s[0]);
        }
        if !white_space(s.last()) || !(init.len() > 0 && white_space(init.last())) {
            let x = if white_space(s.last()) {
                ' '
            } else {
                s.last()
            };
            assert(r == c.push(x));
            assert forall|i: int| 0 < i < r.len() && white_space(#[trigger] r[i]) implies !white_space(
                r[i - 1],
            ) by {
                if i == r.len() - 1 {
                    if init.len() > 0 {
                        assert(c.last() == r[i - 1]);
                    }
                } else {
                    assert(r[i] == c[i] && r[i - 1] == c[i - 1]);
                }
            }
            assert forall|i: int| 0 <= i < r.len() && white_space(#[trigger] r[i]) implies r[i]
                == ' ' by {
                if i < r.len() - 1 {
                    assert(r[i] == c[i]);
                }
            }
        }
    }
}

/// Single-spaced text with no whitespace at either end collapses to itself.
pub proof fn lemma_collapsed_fixed(s: Seq<char>)
    requires
        single_spaced(s),
    ensures
        collapsed(s) == s,
    decreases s.len(),
{
    if s.len() > 0 {
        let init = s.drop_last();
        assert(single_spaced(init)) by {
            assert forall|i: int| 0 <= i < init.len() && white_space(#[trigger] init[i]) implies init[i]
                == ' ' by {
                assert(init[i] == s[i]);
            }
            assert forall|i: int| 0 < i < init.len() && white_space(#[trigger] init[i]) implies !white_space(
                init[i - 1],
            ) by {
                assert(init[i] == s[i] && init[i - 1] == s[i - 1]);
            }
        }
        lemma_collapsed_fixed(init);
        if white_space(s.last()) {
            assert(s[s.len() - 1] == ' ');
            if init.len() > 0 {
                assert(!white_space(s[s.len() - 2]));
            }
        }
        assert(collapsed(s) =~= s);
    }
}

/// Collapsing text that has no whitespace at either end keeps it so.
pub proof fn lemma_collapsed_no_outer_space(s: Seq<char>)
    requires
        no_outer_space(s),
    ensures
        no_outer_space(collapsed(s)),
{
    lemma_collapsed_shape(s);
}

/// Whether every character of `s` is whitespace.
pub open spec fn all_white_space(s: Seq<char>) -> bool {
    forall|i: int| 0 <= i < s.len() ==> white_space(#[trigger] s[i])
}

/// Trimming leaves nothing exactly of text that is all whitespace.
pub proof fn lemma_trimmed_empty(s: Seq<char>)
    ensures
        trimmed(s).len() == 0 <==> all_white_space(s),
{
    lemma_trim_start(s);
    let a = trim_start(s);
    lemma_trim_end(a);
    if a.len() > 0 {
        assert(!white_space(a[0]));
        assert(a[0] == s[s.len() - a.len()]);
        assert(!white_space(s[s.len() - a.len()]));
        if trim_end(a).len() == 0 {
            assert(white_space(a[0]));
        }
    }
}

/// `s` without leading and trailing whitespace (like `str::trim`).
pub fn trim(s: &str) -> (r: &str)
    ensures
        r@ == trimmed(s@),
{
    let n = s.unicode_len();
    let mut a: usize = 0;
    assert(s@.subrange(0, n as int) =~= s@);
    while a < n && is_white_space(s.get_char(a))
        invariant
            n == s@.len(),
            a <= n,
            trim_start(s@) == trim_start(s@.subrange(a as int, n as int)),
        decreases n - a,
    {
        let ghost t = s@.subrange(a as int, n as int);
        assert(t.drop_first() =~= s@.subrange(a + 1, n as int));
        a = a + 1;
    }
    let ghost rest = s@.subrange(a as int, n as int);
    assert(trim_start(s@) == rest);
    let mut b: usize = n;
    while b > a && is_white_space(s.get_char(b - 1))
        invariant
            n == s@.len(),
            a <= b <= n,
            rest == s@.subrange(a as int, n as int),
            trim_end(rest) == trim_end(s@.subrange(a as int, b as int)),
        decreases b - a,
    {
        let ghost t = s@.subrange(a as int, b as int);
        assert(t.drop_last() =~= s@.subrange(a as int, b - 1));
        b = b - 1;
    }
    s.substring_char(a, b)
}

/// `s` with each maximal run of whitespace replaced by one space.
pub fn collapse_whitespace(s: &str) -> (r: String)
    ensures
        r@ == collapsed(s@),
{
    let n = s.unicode_len();
    let mut out = String::new();
    let mut i: usize = 0;
    while i < n
        invariant
            n == s@.len(),
            i <= n,
            out@ == collapsed(s@.subrange(0, i as int)),
        decreases n - i,
    {
        let c = s.get_char(i);
        let ghost pre = s@.subrange(0, i as int);
        let ghost next = s@.subrange(0, i + 1);
        assert(next.drop_last() =~= pre);
        assert(next.last() == c);
        if !is_white_space(c) {
            out.append(s.substring_char(i, i + 1));
            assert(s@.subrange(i as int, i + 1) =~= seq![c]);
        } else if i > 0 && is_white_space(s.get_char(i - 1)) {
            assert(pre.last() == s@[i - 1]);
        } else {
            out.append(" ");
            proof {
                reveal_strlit(" ");
            }
        }
        assert(out@ =~= collapsed(next));
        i = i + 1;
    }
    assert(s@.subrange(0, n as int) =~= s@);
    out
}

/// The words of `s`: its maximal runs of non-whitespace characters, in order.
pub open spec fn words(s: Seq<char>) -> Seq<Seq<char>>
    decreases s.len(),
{
    if s.len() == 0 {
        seq![]
    } else {
        let init = s.drop_last();
        let w = words(init);
        if white_space(s.last()) {
            w
        } else if init.len() > 0 && !white_space(init.last()) {
            w.drop_last().push(w.last().push(s.last()))
        } else {
            w.push(seq![s.last()])
        }
    }
}

/// The pieces joined with one space between each two.
pub open spec fn joined(ws: Seq<Seq<char>>) -> Seq<char>
    decreases ws.len(),
{
    if ws.len() == 0 {
        seq![]
    } else if ws.len() == 1 {
        ws[0]
    } else {
        joined(ws.drop_last()) + seq![' '] + ws.last()
    }
}

/// Text that ends in a non-whitespace character has a last word.
proof fn lemma_words_nonempty(s: Seq<char>)
    requires
        s.len() > 0,
        !white_space(s.last()),
    ensures
        words(s).len() > 0,
{
}

/// The positions of the words of `s`: for each word, where it starts and where it
/// ends, in order.
pub fn word_ranges(s: &str) -> (r: Vec<(usize, usize)>)
    ensures
        r@.len() == words(s@).len(),
        forall|k: int| #![trigger r@[k]] 0 <= k < r@.len() ==> r@[k].0 <= r@[k].1 && r@[k].1 <= s@.len(),
        forall|k: int|
            0 <= k < r@.len() ==> s@.subrange(r@[k].0 as int, r@[k].1 as int) == #[trigger] words(
                s@,
            )[k],
{
    let n = s.unicode_len();
    let mut r: Vec<(usize, usize)> = Vec::new();
    let mut i: usize = 0;
    while i < n
        invariant
            n == s@.len(),
            i <= n,
            r@.len() == words(s@.subrange(0, i as int)).len(),
            forall|k: int| #![trigger r@[k]] 0 <= k < r@.len() ==> r@[k].0 <= r@[k].1 && r@[k].1 <= i,
            forall|k: int|
                0 <= k < r@.len() ==> s@.subrange(r@[k].0 as int, r@[k].1 as int)
                    == #[trigger] words(s@.subrange(0, i as int))[k],
            i > 0 && !white_space(s@[i - 1]) ==> r@.len() > 0 && r@.last().1 == i,
        decreases n - i,
    {
        let c = s.get_char(i);
        let ghost pre = s@.subrange(0, i as int);
        let ghost next = s@.subrange(0, i + 1);
        let ghost old_r = r@;
        assert(next.drop_last() =~= pre);
        assert(next.last() == c);
        if is_white_space(c) {
            assert(words(next) == words(pre));
        } else if i > 0 && !is_white_space(s.get_char(i - 1)) {
            assert(pre.last() == s@[i - 1]);
            proof {
                lemma_words_nonempty(pre);
            }
            let last = r.len() - 1;
            let start = r[last].0;
            r.set(last, (start, i + 1));
            proof {
                let w = words(pre);
                assert(words(next) == w.drop_last().push(w.last().push(c)));
                assert(s@.subrange(start as int, i + 1) =~= s@.subrange(start as int, i as int).push(
                    c,
                ));
                assert forall|k: int| 0 <= k < r@.len() implies s@.subrange(
                    r@[k].0 as int,
                    r@[k].1 as int,
                ) == #[trigger] words(next)[k] by {
                    if k < r@.len() - 1 {
                        assert(r@[k] == old_r[k]);
                        assert(words(next)[k] == w[k]);
                    }
                }
                assert forall|k: int| #![trigger r@[k]] 0 <= k < r@.len() implies r@[k].0 <= r@[k].1
                    && r@[k].1 <= i + 1 by {
                    if k < r@.len() - 1 {
                        assert(r@[k] == old_r[k]);
                    }
                }
            }
        } else {
            if i > 0 {
                assert(pre.last() == s@[i - 1]);
            }
            r.push((i, i + 1));
            proof {
                let w = words(pre);
                assert(words(next) == w.push(seq![c]));
                assert(s@.subrange(i as int, i + 1) =~= seq![c]);
                assert forall|k: int| 0 <= k < r@.len() implies s@.subrange(
                    r@[k].0 as int,
                    r@[k].1 as int,
                ) == #[trigger] words(next)[k] by {
                    if k < r@.len() - 1 {
                        assert(r@[k] == old_r[k]);
                        assert(words(next)[k] == w[k]);
                    }
                }
                assert forall|k: int| #![trigger r@[k]] 0 <= k < r@.len() implies r@[k].0 <= r@[k].1
                    && r@[k].1 <= i + 1 by {
                    if k < r@.len() - 1 {
                        assert(r@[k] == old_r[k]);
                    }
                }
            }
        }
        i = i + 1;
    }
    proof {
        let whole = s@.subrange(0, n as int);
        assert(whole =~= s@);
    }
    r
}

/// Whether two texts are the same.
pub fn same_text(a: &str, b: &str) -> (r: bool)
    ensures
        r == (a@ == b@),
{
    let n = a.unicode_len();
    if n != b.unicode_len() {
        return false;
    }
    let mut i: usize = 0;
    while i < n
        invariant
            n == a@.len(),
            n == b@.len(),
            i <= n,
            forall|j: int| 0 <= j < i ==> a@[j] == b@[j],
        decreases n - i,
    {
        if a.get_char(i) != b.get_char(i) {
            return false;
        }
        i = i + 1;
    }
    assert(a@ =~= b@);
    true
}

/// The character of the decimal digit `d`.
pub open spec fn digit_char(d: nat) -> char {
    if d == 0 {
        '0'
    } else if d == 1 {
        '1'
    } else if d == 2 {
        '2'
    } else if d == 3 {
        '3'
    } else if d == 4 {
        '4'
    } else if d == 5 {
        '5'
    } else if d == 6 {
        '6'
    } else if d == 7 {
        '7'
    } else if d == 8 {
        '8'
    } else {
        '9'
    }
}

/// `n` written in decimal, without leading zeros.
pub open spec fn decimal(n: nat) -> Seq<char>
    decreases n,
{
    if n < 10 {
        seq![digit_char(n)]
    } else {
        decimal(n / 10).push(digit_char(n % 10))
    }
}

fn digit_text(d: usize) -> (r: &'static str)
    requires
        d < 10,
    ensures
        r@ == seq![digit_char(d as nat)],
{
    proof {
        reveal_strlit("0");
        reveal_strlit("1");
        reveal_strlit("2");
        reveal_strlit("3");
        reveal_strlit("4");
        reveal_strlit("5");
        reveal_strlit("6");
        reveal_strlit("7");
        reveal_strlit("8");
        reveal_strlit("9");
    }
    if d == 0 {
        "0"
    } else if d == 1 {
        "1"
    } else if d == 2 {
        "2"
    } else if d == 3 {
        "3"
    } else if d == 4 {
        "4"
    } else if d == 5 {
        "5"
    } else if d == 6 {
        "6"
    } else if d == 7 {
        "7"
    } else if d == 8 {
        "8"
    } else {
        "9"
    }
}

/// `n` written in decimal (as `{}` and `{:?}` write it).
pub fn decimal_text(n: usize) -> (r: String)
    ensures
        r@ == decimal(n as nat),
    decreases n,
{
    if n < 10 {
        <String as StringExecFns>::from_str(digit_text(n))
    } else {
        let mut s = decimal_text(n / 10);
        s.append(digit_text(n % 10));
        s
    }
}

} // verus!
