use vstd::prelude::*;

verus! {

/// First index `>= i` at which `s` holds `c`, or `s.len()` when there is none.
pub open spec fn find_from(s: Seq<char>, c: char, i: int) -> int
    decreases s.len() - i,
{
    if 0 <= i < s.len() {
        if s[i] == c {
            i
        } else {
            find_from(s, c, i + 1)
        }
    } else {
        s.len() as int
    }
}

pub proof fn lemma_find_from_bounds(s: Seq<char>, c: char, i: int)
    requires
        0 <= i <= s.len(),
    ensures
        i <= find_from(s, c, i) <= s.len(),
        find_from(s, c, i) < s.len() ==> s[find_from(s, c, i)] == c,
    decreases s.len() - i,
{
    if i < s.len() && s[i] != c {
        lemma_find_from_bounds(s, c, i + 1);
    }
}

/// Index of the first `c` in `s[from..]`, or the length of `s`.
pub fn find_char(s: &str, len: usize, c: char, from: usize) -> (r: usize)
    requires
        len == s@.len(),
        from <= len,
    ensures
        r == find_from(s@, c, from as int),
        from <= r <= len,
{
    let mut i: usize = from;
    while i < len
        invariant
            from <= i <= len,
            len == s@.len(),
            find_from(s@, c, i as int) == find_from(s@, c, from as int),
        decreases len - i,
    {
        if s.get_char(i) == c {
            return i;
        }
        i = i + 1;
    }
    i
}

/// The pieces of `s[i..]` between occurrences of `c`, as `str::split` gives them.
pub open spec fn split_from(s: Seq<char>, c: char, i: int) -> Seq<Seq<char>>
    decreases s.len() - i,
    via split_from_decreases
{
    if 0 <= i <= s.len() {
        let p = find_from(s, c, i);
        if p >= s.len() {
            seq![s.subrange(i, s.len() as int)]
        } else {
            seq![s.subrange(i, p)] + split_from(s, c, p + 1)
        }
    } else {
        Seq::empty()
    }
}

#[via_fn]
proof fn split_from_decreases(s: Seq<char>, c: char, i: int) {
    if 0 <= i <= s.len() {
        lemma_find_from_bounds(s, c, i);
    }
}

/// The pieces of `s[from..]` separated by `c`, in order.
pub fn split_char(s: &str, len: usize, c: char, from: usize) -> (r: Vec<String>)
    requires
        len == s@.len(),
        from <= len,
    ensures
        r@.map_values(|p: String| p@) == split_from(s@, c, from as int),
{
    let mut pieces: Vec<String> = Vec::new();
    let mut start: usize = from;
    loop
        invariant
            from <= start <= len,
            len == s@.len(),
            pieces@.map_values(|p: String| p@) + split_from(s@, c, start as int)
                == split_from(s@, c, from as int),
        decreases len - start,
    {
        let p = find_char(s, len, c, start);
        let piece = s.substring_char(start, p).to_owned();
        proof {
            lemma_find_from_bounds(s@, c, start as int);
        }
        if p == len {
            pieces.push(piece);
            proof {
                assert(pieces@.map_values(|p: String| p@) =~= split_from(s@, c, from as int));
            }
            return pieces;
        }
        let ghost before = pieces@.map_values(|p: String| p@);
        pieces.push(piece);
        proof {
            assert(pieces@.map_values(|p: String| p@) =~= before.push(piece@));
            assert(before + split_from(s@, c, start as int) =~= before.push(piece@)
                + split_from(s@, c, p + 1));
        }
        start = p + 1;
    }
}

/// Whether `a` and `b` hold the same characters.
pub fn same_text(a: &str, b: &str) -> (r: bool)
    ensures
        r == (a@ == b@),
{
    let n = a.unicode_len();
    if n != b.unicode_len() {
        return false;
    }
    let mut i: usize = 0;
    while i < n
        invariant
            i <= n,
            n == a@.len(),
            n == b@.len(),
            a@.subrange(0, i as int) == b@.subrange(0, i as int),
        decreases n - i,
    {
        if a.get_char(i) != b.get_char(i) {
            assert(a@[i as int] != b@[i as int]);
            return false;
        }
        assert(a@.subrange(0, i + 1) =~= a@.subrange(0, i as int).push(a@[i as int]));
        assert(b@.subrange(0, i + 1) =~= b@.subrange(0, i as int).push(b@[i as int]));
        i = i + 1;
    }
    assert(a@ =~= a@.subrange(0, n as int));
    assert(b@ =~= b@.subrange(0, n as int));
    true
}

/// The blanks that may surround a field: the characters with the Unicode
/// White_Space property.
pub open spec fn is_blank(c: char) -> bool {
    ('\u{9}' <= c && c <= '\u{D}') || c == ' ' || c == '\u{85}' || c == '\u{A0}'
        || c == '\u{1680}' || ('\u{2000}' <= c && c <= '\u{200A}') || c == '\u{2028}'
        || c == '\u{2029}' || c == '\u{202F}' || c == '\u{205F}' || c == '\u{3000}'
}

/// First index `>= i` that does not hold a blank.
pub open spec fn skip_blank_from(s: Seq<char>, i: int) -> int
    decreases s.len() - i,
{
    if 0 <= i < s.len() && is_blank(s[i]) {
        skip_blank_from(s, i + 1)
    } else {
        i
    }
}

/// Smallest `k` in `a..=j` such that `s[k..j]` is all blanks.
pub open spec fn trim_end_to(s: Seq<char>, a: int, j: int) -> int
    decreases j - a,
{
    if a < j && is_blank(s[j - 1]) {
        trim_end_to(s, a, j - 1)
    } else {
        j
    }
}

/// `s` without its leading and trailing blanks.
pub open spec fn trim(s: Seq<char>) -> Seq<char> {
    let a = skip_blank_from(s, 0);
    s.subrange(a, trim_end_to(s, a, s.len() as int))
}

/// Bounds of `s` without its leading and trailing blanks.
pub fn trim_bounds(s: &str, len: usize) -> (r: (usize, usize))
    requires
        len == s@.len(),
    ensures
        r.0 <= r.1 <= len,
        s@.subrange(r.0 as int, r.1 as int) == trim(s@),
{
    let mut a: usize = 0;
    while a < len && is_blank_char(s.get_char(a))
        invariant
            a <= len,
            len == s@.len(),
            skip_blank_from(s@, a as int) == skip_blank_from(s@, 0),
        decreases len - a,
    {
        a = a + 1;
    }
    let mut b: usize = len;
    while b > a && is_blank_char(s.get_char(b - 1))
        invariant
            a <= b <= len,
            len == s@.len(),
            a == skip_blank_from(s@, 0),
            trim_end_to(s@, a as int, b as int) == trim_end_to(s@, a as int, len as int),
        decreases b,
    {
        b = b - 1;
    }
    (a, b)
}

pub fn is_blank_char(c: char) -> (r: bool)
    ensures
        r == is_blank(c),
{
    ('\u{9}' <= c && c <= '\u{D}') || c == ' ' || c == '\u{85}' || c == '\u{A0}'
        || c == '\u{1680}' || ('\u{2000}' <= c && c <= '\u{200A}') || c == '\u{2028}'
        || c == '\u{2029}' || c == '\u{202F}' || c == '\u{205F}' || c == '\u{3000}'
}

/// The second space-separated token of a trimmed field: what follows the key.
pub open spec fn value_of(field: Seq<char>) -> Option<Seq<char>> {
    let t = trim(field);
    let k = find_from(t, ' ', 0);
    if k >= t.len() {
        None
    } else {
        Some(t.subrange(k + 1, find_from(t, ' ', k + 1)))
    }
}

/// The value text of one `key: value` field, if the field has a space after its key.
pub fn field_value(field: &str) -> (r: Option<String>)
    ensures
        match r {
            Some(v) => value_of(field@) == Some(v@),
            None => value_of(field@) is None,
        },
{
    let len = field.unicode_len();
    let (a, b) = trim_bounds(field, len);
    let t = field.substring_char(a, b);
    let tlen = b - a;
    let k = find_char(t, tlen, ' ', 0);
    if k == tlen {
        return None;
    }
    let q = find_char(t, tlen, ' ', k + 1);
    Some(t.substring_char(k + 1, q).to_owned())
}


pub open spec fn is_digit(c: char) -> bool {
    '0' <= c && c <= '9'
}

pub open spec fn is_sign(c: char) -> bool {
    c == '+' || c == '-'
}

pub open spec fn is_exp_mark(c: char) -> bool {
    c == 'e' || c == 'E'
}

pub open spec fn digits_between(s: Seq<char>, a: int, b: int) -> bool {
    forall|i: int| a <= i < b ==> is_digit(#[trigger] s[i])
}

/// First index `>= i` holding an exponent mark, or `s.len()`.
pub open spec fn find_exp_from(s: Seq<char>, i: int) -> int
    decreases s.len() - i,
{
    if 0 <= i < s.len() {
        if is_exp_mark(s[i]) {
            i
        } else {
            find_exp_from(s, i + 1)
        }
    } else {
        s.len() as int
    }
}

/// `s[a..e]` is `digits`, `digits.`, `.digits` or `digits.digits`.
pub open spec fn is_mantissa(s: Seq<char>, a: int, e: int) -> bool {
    let d = find_from(s, '.', a);
    if d >= e {
        a < e && digits_between(s, a, e)
    } else {
        e - a >= 2 && digits_between(s, a, d) && digits_between(s, d + 1, e)
    }
}

/// `s[b..]` is an optional sign followed by at least one digit.
pub open spec fn is_exponent(s: Seq<char>, b: int) -> bool {
    let c = if b < s.len() && is_sign(s[b]) {
        b + 1
    } else {
        b
    };
    c < s.len() && digits_between(s, c, s.len() as int)
}

/// `s` is a finite decimal literal: an optional sign, a mantissa with at
/// least one digit and at most one point, and an optional exponent.
pub open spec fn is_decimal(s: Seq<char>) -> bool {
    let a: int = if s.len() > 0 && is_sign(s[0]) {
        1
    } else {
        0
    };
    let e = find_exp_from(s, a);
    is_mantissa(s, a, e) && (e >= s.len() || is_exponent(s, e + 1))
}

fn all_digits(s: &str, len: usize, a: usize, b: usize) -> (r: bool)
    requires
        len == s@.len(),
        a <= b <= len,
    ensures
        r == digits_between(s@, a as int, b as int),
{
    let mut i: usize = a;
    while i < b
        invariant
            a <= i <= b <= len,
            len == s@.len(),
            digits_between(s@, a as int, i as int),
        decreases b - i,
    {
        let c = s.get_char(i);
        if !('0' <= c && c <= '9') {
            return false;
        }
        i = i + 1;
    }
    true
}

fn find_exp(s: &str, len: usize, from: usize) -> (r: usize)
    requires
        len == s@.len(),
        from <= len,
    ensures
        r == find_exp_from(s@, from as int),
        from <= r <= len,
{
    let mut i: usize = from;
    while i < len
        invariant
            from <= i <= len,
            len == s@.len(),
            find_exp_from(s@, i as int) == find_exp_from(s@, from as int),
        decreases len - i,
    {
        let c = s.get_char(i);
        if c == 'e' || c == 'E' {
            return i;
        }
        i = i + 1;
    }
    i
}

/// Whether `s` is a finite decimal literal.
pub fn is_decimal_text(s: &str) -> (r: bool)
    ensures
        r == is_decimal(s@),
{
    let len = s.unicode_len();
    let a: usize = if len > 0 && (s.get_char(0) == '+' || s.get_char(0) == '-') {
        1
    } else {
        0
    };
    let e = find_exp(s, len, a);
    let d = find_char(s, len, '.', a);
    let mantissa = if d >= e {
        a < e && all_digits(s, len, a, e)
    } else {
        e - a >= 2 && all_digits(s, len, a, d) && all_digits(s, len, d + 1, e)
    };
    if !mantissa {
        return false;
    }
    if e == len {
        return true;
    }
    let c: usize = if e + 1 < len && (s.get_char(e + 1) == '+' || s.get_char(e + 1) == '-') {
        e + 2
    } else {
        e + 1
    };
    c < len && all_digits(s, len, c, len)
}

} // verus!
