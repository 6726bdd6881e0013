//! Character-sequence utilities shared by the codecs: conversions between
//! strings and character vectors, separator splitting, and decimal integers.
use vstd::prelude::*;
use vstd::string::{StringExecFns, StringSliceAdditionalSpecFns};

verus! {

/// The characters of `s`, in order.
pub fn chars_of(s: &str) -> (v: Vec<char>)
    ensures
        v@ == s@,
{
    broadcast use vstd::string::group_string_axioms;

    let mut v: Vec<char> = Vec::new();
    for c in it: s.chars()
        invariant
            it.seq() == s@,
            v@ == s@.take(it.index() as int),
    {
        v.push(c);
    }
    v
}

/// Whether the characters `v` spell exactly the string `s`.
pub fn chars_eq_str(v: &Vec<char>, s: &str) -> (r: bool)
    ensures
        r == (v@ == s@),
{
    let t = chars_of(s);
    if v.len() != t.len() {
        return false;
    }
    let mut i: usize = 0;
    while i < v.len()
        invariant
            t@ == s@,
            v@.len() == t@.len(),
            i <= v@.len(),
            forall|j: int| 0 <= j < i ==> v@[j] == t@[j],
        decreases v@.len() - i,
    {
        if v[i] != t[i] {
            return false;
        }
        i = i + 1;
    }
    assert(v@ =~= t@);
    true
}

/// Whether two strings hold the same text.
pub fn str_eq(a: &str, b: &str) -> (r: bool)
    ensures
        r == (a@ == b@),
{
    let x = a.as_bytes();
    let y = b.as_bytes();
    if x.len() != y.len() {
        return false;
    }
    let mut i: usize = 0;
    while i < x.len()
        invariant
            x@ == a.spec_bytes(),
            y@ == b.spec_bytes(),
            x@.len() == y@.len(),
            i <= x@.len(),
            forall|j: int| 0 <= j < i ==> x@[j] == y@[j],
        decreases x@.len() - i,
    {
        if x[i] != y[i] {
            return false;
        }
        i = i + 1;
    }
    proof {
        assert(x@ =~= y@);
        vstd::utf8::encode_utf8_decode_utf8(a@);
        vstd::utf8::encode_utf8_decode_utf8(b@);
    }
    true
}

/// Index of the first occurrence of `c` in `s`, or `s.len()` where there is none.
pub open spec fn find(s: Seq<char>, c: char) -> int
    decreases s.len(),
{
    if s.len() == 0 || s[0] == c {
        0
    } else {
        1 + find(s.drop_first(), c)
    }
}

/// The pieces of `s` between occurrences of `sep`: one more piece than there
/// are separators, empty pieces included.
pub open spec fn split(s: Seq<char>, sep: char) -> Seq<Seq<char>>
    decreases s.len(),
{
    let i = find(s, sep);
    if 0 <= i < s.len() {
        seq![s.take(i)].add(split(s.skip(i + 1), sep))
    } else {
        seq![s]
    }
}

/// Whether `c` occurs nowhere in `s`.
pub open spec fn free_of(s: Seq<char>, c: char) -> bool {
    forall|i: int| 0 <= i < s.len() ==> s[i] != c
}

/// `find` is `k` where `c` is absent before `k` and `k` is either the end of
/// `s` or a position holding `c`.
pub proof fn lemma_find(s: Seq<char>, c: char, k: int)
    requires
        0 <= k <= s.len(),
        forall|j: int| 0 <= j < k ==> s[j] != c,
        k < s.len() ==> s[k] == c,
    ensures
        find(s, c) == k,
    decreases s.len(),
{
    if s.len() == 0 || s[0] == c {
    } else {
        let t = s.drop_first();
        lemma_find(t, c, k - 1);
    }
}

/// A piece without the separator splits into itself.
pub proof fn lemma_split_single(s: Seq<char>, sep: char)
    requires
        free_of(s, sep),
    ensures
        split(s, sep) == seq![s],
{
    lemma_find(s, sep, s.len() as int);
}

/// A separator-free head, a separator and a tail split into the head
/// followed by the pieces of the tail.
pub proof fn lemma_split_cons(head: Seq<char>, sep: char, tail: Seq<char>)
    requires
        free_of(head, sep),
    ensures
        split(head + seq![sep] + tail, sep) == seq![head].add(split(tail, sep)),
{
    let s = head + seq![sep] + tail;
    let k = head.len() as int;
    lemma_find(s, sep, k);
    assert(s.take(k) =~= head);
    assert(s.skip(k + 1) =~= tail);
}

/// Two separator-free pieces with a separator between them split into
/// those two pieces.
pub proof fn lemma_split_two(a: Seq<char>, b: Seq<char>, sep: char)
    requires
        free_of(a, sep),
        free_of(b, sep),
    ensures
        split(a + seq![sep] + b, sep) == seq![a, b],
{
    lemma_split_single(b, sep);
    lemma_split_cons(a, sep, b);
}

/// Three separator-free pieces with separators between them split into
/// those three pieces.
pub proof fn lemma_split_three(a: Seq<char>, b: Seq<char>, c: Seq<char>, sep: char)
    requires
        free_of(a, sep),
        free_of(b, sep),
        free_of(c, sep),
    ensures
        split(a + seq![sep] + b + seq![sep] + c, sep) == seq![a, b, c],
{
    lemma_split_two(b, c, sep);
    lemma_split_cons(a, sep, b + seq![sep] + c);
    assert(a + seq![sep] + b + seq![sep] + c =~= a + seq![sep] + (b + seq![sep] + c));
}

/// Four separator-free pieces with separators between them split into
/// those four pieces.
pub proof fn lemma_split_four(a: Seq<char>, b: Seq<char>, c: Seq<char>, d: Seq<char>, sep: char)
    requires
        free_of(a, sep),
        free_of(b, sep),
        free_of(c, sep),
        free_of(d, sep),
    ensures
        split(a + seq![sep] + b + seq![sep] + c + seq![sep] + d, sep) == seq![a, b, c, d],
{
    lemma_split_single(d, sep);
    lemma_split_cons(c, sep, d);
    lemma_split_cons(b, sep, c + seq![sep] + d);
    lemma_split_cons(a, sep, b + seq![sep] + (c + seq![sep] + d));
    assert(a + seq![sep] + b + seq![sep] + c + seq![sep] + d =~= a + seq![sep] + (b + seq![sep] + (
    c + seq![sep] + d)));
}

/// Five separator-free pieces with separators between them split into
/// those five pieces.
pub proof fn lemma_split_five(
    a: Seq<char>,
    b: Seq<char>,
    c: Seq<char>,
    d: Seq<char>,
    e: Seq<char>,
    sep: char,
)
    requires
        free_of(a, sep),
        free_of(b, sep),
        free_of(c, sep),
        free_of(d, sep),
        free_of(e, sep),
    ensures
        split(a + seq![sep] + b + seq![sep] + c + seq![sep] + d + seq![sep] + e, sep) == seq![
            a,
            b,
            c,
            d,
            e,
        ],
{
    lemma_split_four(b, c, d, e, sep);
    lemma_split_cons(a, sep, b + seq![sep] + c + seq![sep] + d + seq![sep] + e);
    assert(a + seq![sep] + b + seq![sep] + c + seq![sep] + d + seq![sep] + e =~= a + seq![sep] + (
    b + seq![sep] + c + seq![sep] + d + seq![sep] + e));
}

/// The views of the pieces held in `parts`.
pub open spec fn piece_views(parts: Seq<Vec<char>>) -> Seq<Seq<char>> {
    Seq::new(parts.len(), |i: int| parts[i]@)
}

/// Splits `s` at every occurrence of `sep`.
pub fn split_chars(s: &Vec<char>, sep: char) -> (parts: Vec<Vec<char>>)
    ensures
        piece_views(parts@) == split(s@, sep),
{
    let mut parts: Vec<Vec<char>> = Vec::new();
    let mut cur: Vec<char> = Vec::new();
    let mut i: usize = 0;
    proof {
        assert(s@.skip(0) =~= s@);
    }
    while i < s.len()
        invariant
            i <= s.len(),
            cur@.len() <= i,
            cur@ == s@.subrange(i - cur@.len(), i as int),
            free_of(cur@, sep),
            split(s@, sep) == piece_views(parts@).add(split(s@.skip(i - cur@.len()), sep)),
        decreases s.len() - i,
    {
        let ghost start = i - cur@.len();
        let ghost rest = s@.skip(start);
        let c = s[i];
        if c == sep {
            proof {
                let k = cur@.len() as int;
                lemma_find(rest, sep, k);
                assert(rest.take(k) =~= cur@);
                assert(rest.skip(k + 1) =~= s@.skip(i + 1));
            }
            parts.push(cur);
            cur = Vec::new();
        } else {
            cur.push(c);
        }
        i = i + 1;
    }
    proof {
        let start = i - cur@.len();
        let rest = s@.skip(start);
        lemma_split_single(rest, sep);
    }
    parts.push(cur);
    parts
}

/// Whether `c` is an ASCII decimal digit.
pub open spec fn is_digit(c: char) -> bool {
    '0' <= c && c <= '9'
}

/// The number that the digit `c` stands for.
pub open spec fn digit_value(c: char) -> int {
    c as int - '0' as int
}

/// The digit that stands for `d`, for `0 <= d <= 9`.
pub open spec fn digit_char(d: int) -> char {
    (d + '0' as int) as char
}

/// Whether every character of `s` is an ASCII decimal digit.
pub open spec fn all_digits(s: Seq<char>) -> bool {
    forall|i: int| 0 <= i < s.len() ==> is_digit(#[trigger] s[i])
}

/// The number written by the digits `s`, most significant first.
pub open spec fn digits_value(s: Seq<char>) -> int
    decreases s.len(),
{
    if s.len() == 0 {
        0
    } else {
        digits_value(s.drop_last()) * 10 + digit_value(s.last())
    }
}

/// The integer written by `s`: an optional sign, then at least one digit.
pub open spec fn parse_int(s: Seq<char>) -> Option<int> {
    if s.len() > 0 && (s[0] == '-' || s[0] == '+') {
        let d = s.skip(1);
        if d.len() > 0 && all_digits(d) {
            Some(if s[0] == '-' { -digits_value(d) } else { digits_value(d) })
        } else {
            None
        }
    } else if s.len() > 0 && all_digits(s) {
        Some(digits_value(s))
    } else {
        None
    }
}

/// The `i64` written by `s`, where `s` writes an integer that fits.
pub open spec fn parse_i64_spec(s: Seq<char>) -> Option<i64> {
    match parse_int(s) {
        Some(v) => if i64::MIN <= v <= i64::MAX { Some(v as i64) } else { None },
        None => None,
    }
}

/// The decimal digits of `n`, for `n >= 0`, without leading zeros.
pub open spec fn nat_digits(n: int) -> Seq<char>
    decreases n,
{
    if n < 10 {
        seq![digit_char(n)]
    } else {
        nat_digits(n / 10).push(digit_char(n % 10))
    }
}

/// The decimal form of `n`, with a leading `-` where `n` is negative.
pub open spec fn to_decimal(n: int) -> Seq<char> {
    if n < 0 {
        seq!['-'].add(nat_digits(-n))
    } else {
        nat_digits(n)
    }
}

/// A prefix of a digit string writes a number no larger than the whole.
pub proof fn lemma_digits_value_prefix(s: Seq<char>, k: int)
    requires
        all_digits(s),
        0 <= k <= s.len(),
    ensures
        0 <= digits_value(s.take(k)) <= digits_value(s),
    decreases s.len(),
{
    if k == s.len() {
        assert(s.take(k) =~= s);
        if s.len() > 0 {
            lemma_digits_value_prefix(s.drop_last(), k - 1);
        }
    } else {
        let t = s.drop_last();
        lemma_digits_value_prefix(t, k);
        assert(t.take(k) =~= s.take(k));
    }
}

/// The digits of a non-negative number are digits and write that number.
pub proof fn lemma_nat_digits(n: int)
    requires
        0 <= n,
    ensures
        nat_digits(n).len() >= 1,
        all_digits(nat_digits(n)),
        digits_value(nat_digits(n)) == n,
    decreases n,
{
    if n < 10 {
        let s = nat_digits(n);
        assert(digits_value(s.drop_last()) == 0);
    } else {
        lemma_nat_digits(n / 10);
        let t = nat_digits(n / 10);
        let s = nat_digits(n);
        assert(s.drop_last() =~= t);
    }
}

/// Reading back the decimal form of a number gives that number.
pub proof fn lemma_parse_to_decimal(n: int)
    ensures
        parse_int(to_decimal(n)) == Some(n),
{
    if n < 0 {
        lemma_nat_digits(-n);
        assert(to_decimal(n).skip(1) =~= nat_digits(-n));
    } else {
        lemma_nat_digits(n);
    }
}

/// The decimal form of a number holds digits and, for a negative number,
/// a leading `-`; nothing else.
pub proof fn lemma_to_decimal_free_of(n: int, c: char)
    requires
        !is_digit(c),
        c != '-' || n >= 0,
    ensures
        free_of(to_decimal(n), c),
{
    if n < 0 {
        lemma_nat_digits(-n);
    } else {
        lemma_nat_digits(n);
    }
}

/// Reads `s` as a decimal `i64`.
pub fn parse_i64(s: &Vec<char>) -> (r: Option<i64>)
    ensures
        r == parse_i64_spec(s@),
{
    let n = s.len();
    if n == 0 {
        return None;
    }
    let negative = s[0] == '-';
    let start: usize = if s[0] == '-' || s[0] == '+' { 1 } else { 0 };
    if start == n {
        return None;
    }
    let ghost d = s@.skip(start as int);
    let limit: i128 = 0x8000_0000_0000_0000;
    let mut acc: i128 = 0;
    let mut i: usize = start;
    while i < n
        invariant
            start <= i <= n,
            n == s@.len(),
            n > 0,
            start == (if s@[0] == '-' || s@[0] == '+' { 1int } else { 0int }),
            d == s@.skip(start as int),
            limit == 0x8000_0000_0000_0000,
            all_digits(d.take(i - start)),
            acc == digits_value(d.take(i - start)),
            0 <= acc <= limit,
        decreases n - i,
    {
        let c = s[i];
        if !('0' <= c && c <= '9') {
            proof {
                assert(d[i - start] == c);
            }
            return None;
        }
        let v: i128 = (c as u32 - '0' as u32) as i128;
        let next: i128 = acc * 10 + v;
        proof {
            let p = d.take(i - start + 1);
            assert(p.drop_last() =~= d.take(i - start));
        }
        if next > limit {
            let mut j: usize = i + 1;
            while j < n
                invariant
                    i < j <= n,
                    start <= i,
                    n == s@.len(),
                    n > 0,
                    start == (if s@[0] == '-' || s@[0] == '+' { 1int } else { 0int }),
                    d == s@.skip(start as int),
                    all_digits(d.take(j - start)),
                decreases n - j,
            {
                let cj = s[j];
                if !('0' <= cj && cj <= '9') {
                    proof {
                        assert(d[j - start] == cj);
                    }
                    return None;
                }
                j = j + 1;
            }
            proof {
                assert(d.take(n - start) =~= d);
                lemma_digits_value_prefix(d, i - start + 1);
                if start == 0 {
                    assert(d =~= s@);
                }
            }
            return None;
        }
        acc = next;
        i = i + 1;
    }
    proof {
        assert(d.take(n - start) =~= d);
        if start == 0 {
            assert(d =~= s@);
        }
    }
    if negative {
        Some((-acc) as i64)
    } else if acc == limit {
        None
    } else {
        Some(acc as i64)
    }
}

/// The one-character string of a decimal digit.
pub fn digit_str(d: u8) -> (r: &'static str)
    requires
        d <= 9,
    ensures
        r@ == seq![digit_char(d as int)],
{
    proof {
        reveal_strlit("0");
        reveal_strlit("1");
        reveal_strlit("2");
        reveal_strlit("3");
        reveal_strlit("4");
        reveal_strlit("5");
        reveal_strlit("6");
        reveal_strlit("7");
        reveal_strlit("8");
        reveal_strlit("9");
    }
    let r = if d == 0 {
        "0"
    } else if d == 1 {
        "1"
    } else if d == 2 {
        "2"
    } else if d == 3 {
        "3"
    } else if d == 4 {
        "4"
    } else if d == 5 {
        "5"
    } else if d == 6 {
        "6"
    } else if d == 7 {
        "7"
    } else if d == 8 {
        "8"
    } else {
        "9"
    };
    r
}

/// Appends the decimal digits of `n` to `out`.
pub fn push_nat_digits(n: u64, out: &mut String)
    ensures
        final(out)@ == old(out)@.add(nat_digits(n as int)),
    decreases n,
{
    if n >= 10 {
        push_nat_digits(n / 10, out);
    }
    out.append(digit_str((n % 10) as u8));
}

/// Appends the decimal form of `n` to `out`.
pub fn push_i64(n: i64, out: &mut String)
    ensures
        final(out)@ == old(out)@.add(to_decimal(n as int)),
{
    if n < 0 {
        proof {
            reveal_strlit("-");
        }
        out.append("-");
        let magnitude: u64 = (-(n + 1)) as u64 + 1;
        push_nat_digits(magnitude, out);
    } else {
        push_nat_digits(n as u64, out);
    }
}

} // verus!
