//! Text helpers over `String` and `str`, each specified over the character
//! sequence that `@` gives.

use vstd::prelude::*;

verus! {

/// Whether `c` has the Unicode `White_Space` property, the set that
/// `char::is_whitespace` and `str::trim` go by.
pub open spec fn is_white_space(c: char) -> bool {
    let n = c as u32;
    ||| 0x09 <= n <= 0x0D
    ||| n == 0x20
    ||| n == 0x85
    ||| n == 0xA0
    ||| n == 0x1680
    ||| 0x2000 <= n <= 0x200A
    ||| n == 0x2028
    ||| n == 0x2029
    ||| n == 0x202F
    ||| n == 0x205F
    ||| n == 0x3000
}

/// `s` without its leading white space.
pub open spec fn trim_leading(s: Seq<char>) -> Seq<char>
    decreases s.len(),
{
    if s.len() > 0 && is_white_space(s[0]) {
        trim_leading(s.drop_first())
    } else {
        s
    }
}

/// `s` without its trailing white space.
pub open spec fn trim_trailing(s: Seq<char>) -> Seq<char>
    decreases s.len(),
{
    if s.len() > 0 && is_white_space(s.last()) {
        trim_trailing(s.drop_last())
    } else {
        s
    }
}

/// `s` without white space at either end: what `str::trim` gives.
pub open spec fn trimmed(s: Seq<char>) -> Seq<char> {
    trim_trailing(trim_leading(s))
}

/// A text that is empty once trimmed: empty, or white space only.
pub open spec fn is_blank(s: Seq<char>) -> bool {
    trimmed(s).len() == 0
}

/// `c` with an ASCII capital letter turned into its small letter.
pub open spec fn ascii_lower_char(c: char) -> char {
    if 'A' <= c && c <= 'Z' {
        ((c as u32) + 32) as char
    } else {
        c
    }
}

/// `s` with every ASCII capital letter turned into its small letter.
pub open spec fn ascii_lower(s: Seq<char>) -> Seq<char> {
    s.map_values(|c: char| ascii_lower_char(c))
}

proof fn lemma_trim_leading_shape(s: Seq<char>)
    ensures
        trim_leading(s).len() <= s.len(),
        trim_leading(s) == s.subrange(s.len() - trim_leading(s).len(), s.len() as int),
        trim_leading(s).len() > 0 ==> !is_white_space(trim_leading(s)[0]),
    decreases s.len(),
{
    if s.len() > 0 && is_white_space(s[0]) {
        let rest = s.drop_first();
        lemma_trim_leading_shape(rest);
        let t = trim_leading(rest);
        assert(rest.subrange(rest.len() - t.len(), rest.len() as int) =~= s.subrange(
            s.len() - t.len(),
            s.len() as int,
        ));
    } else {
        assert(s.subrange(0, s.len() as int) =~= s);
    }
}

proof fn lemma_trim_trailing_shape(s: Seq<char>)
    ensures
        trim_trailing(s).len() <= s.len(),
        trim_trailing(s) == s.subrange(0, trim_trailing(s).len() as int),
        trim_trailing(s).len() > 0 ==> !is_white_space(trim_trailing(s).last()),
    decreases s.len(),
{
    if s.len() > 0 && is_white_space(s.last()) {
        let rest = s.drop_last();
        lemma_trim_trailing_shape(rest);
        let t = trim_trailing(rest);
        assert(rest.subrange(0, t.len() as int) =~= s.subrange(0, t.len() as int));
    } else {
        assert(s.subrange(0, s.len() as int) =~= s);
    }
}

/// A trimmed text has nothing left to trim: trimming twice gives what
/// trimming once gives.
pub proof fn lemma_trimmed_is_stable(s: Seq<char>)
    ensures
        trimmed(trimmed(s)) == trimmed(s),
        is_blank(trimmed(s)) == is_blank(s),
{
    let y = trim_leading(s);
    let x = trim_trailing(y);
    lemma_trim_leading_shape(s);
    lemma_trim_trailing_shape(y);
    if x.len() > 0 {
        assert(x[0] == y[0]);
    }
    assert(trim_leading(x) == x);
    lemma_trim_trailing_shape(x);
    assert(trim_trailing(x) == x);
}

pub fn is_white_space_char(c: char) -> (r: bool)
    ensures
        r == is_white_space(c),
{
    let n = c as u32;
    (0x09 <= n && n <= 0x0D) || n == 0x20 || n == 0x85 || n == 0xA0 || n == 0x1680 || (0x2000
        <= n && n <= 0x200A) || n == 0x2028 || n == 0x2029 || n == 0x202F || n == 0x205F || n
        == 0x3000
}

proof fn lemma_trim_leading_skip(s: Seq<char>, i: int)
    requires
        0 <= i < s.len(),
        is_white_space(s[i]),
    ensures
        trim_leading(s.subrange(i, s.len() as int)) == trim_leading(
            s.subrange(i + 1, s.len() as int),
        ),
{
    assert(s.subrange(i, s.len() as int).drop_first() =~= s.subrange(i + 1, s.len() as int));
}

proof fn lemma_trim_trailing_skip(s: Seq<char>, j: int)
    requires
        0 < j <= s.len(),
        is_white_space(s[j - 1]),
    ensures
        trim_trailing(s.subrange(0, j)) == trim_trailing(s.subrange(0, j - 1)),
{
    assert(s.subrange(0, j).drop_last() =~= s.subrange(0, j - 1));
}

/// The text of `s` without white space at either end, as `str::trim` gives it.
pub fn trim_text(s: &str) -> (r: String)
    ensures
        r@ == trimmed(s@),
{
    let n = s.unicode_len();
    let mut i: usize = 0;
    assert(s@.subrange(0, n as int) =~= s@);
    while i < n && is_white_space_char(s.get_char(i))
        invariant
            n == s@.len(),
            i <= n,
            trim_leading(s@) == trim_leading(s@.subrange(i as int, n as int)),
        decreases n - i,
    {
        proof {
            lemma_trim_leading_skip(s@, i as int);
        }
        i = i + 1;
    }
    let ghost lead = s@.subrange(i as int, n as int);
    assert(trim_leading(s@) == lead) by {
        assert(s@.subrange(0, n as int) =~= s@);
        if i < n {
            assert(lead[0] == s@[i as int]);
        }
    }
    let mut j: usize = n;
    assert(lead.subrange(0, n - i) =~= lead);
    while j > i && is_white_space_char(s.get_char(j - 1))
        invariant
            n == s@.len(),
            i <= j <= n,
            lead == s@.subrange(i as int, n as int),
            trim_trailing(lead) == trim_trailing(lead.subrange(0, j - i)),
        decreases j,
    {
        proof {
            lemma_trim_trailing_skip(lead, j - i);
        }
        j = j - 1;
    }
    let ghost kept = lead.subrange(0, j - i);
    assert(trim_trailing(lead) == kept) by {
        assert(lead.subrange(0, lead.len() as int) =~= lead);
        if j > i {
            assert(kept.last() == s@[j - 1]);
        }
    }
    assert(kept =~= s@.subrange(i as int, j as int));
    let piece = s.substring_char(i, j);
    String::from_str(piece)
}

/// Whether `a` and `b` hold the same characters.
pub fn same_text(a: &str, b: &str) -> (r: bool)
    ensures
        r == (a@ == b@),
{
    let n = a.unicode_len();
    if n != b.unicode_len() {
        return false;
    }
    let mut i: usize = 0;
    while i < n
        invariant
            n == a@.len(),
            n == b@.len(),
            i <= n,
            forall|k: int| 0 <= k < i ==> a@[k] == b@[k],
        decreases n - i,
    {
        if a.get_char(i) != b.get_char(i) {
            return false;
        }
        i = i + 1;
    }
    assert(a@ =~= b@);
    true
}

/// Whether `a`, its ASCII capitals read as small letters, equals `lower`.
pub fn same_text_ascii_lower(a: &str, lower: &str) -> (r: bool)
    ensures
        r == (ascii_lower(a@) == lower@),
{
    let n = a.unicode_len();
    if n != lower.unicode_len() {
        assert(ascii_lower(a@).len() == a@.len());
        return false;
    }
    let mut i: usize = 0;
    while i < n
        invariant
            n == a@.len(),
            n == lower@.len(),
            i <= n,
            forall|k: int| 0 <= k < i ==> ascii_lower_char(a@[k]) == lower@[k],
        decreases n - i,
    {
        let c = a.get_char(i);
        let folded = if 'A' <= c && c <= 'Z' {
            ((c as u8) + 32) as char
        } else {
            c
        };
        if folded != lower.get_char(i) {
            assert(ascii_lower(a@)[i as int] != lower@[i as int]);
            return false;
        }
        i = i + 1;
    }
    assert(ascii_lower(a@) =~= lower@);
    true
}

} // verus!
