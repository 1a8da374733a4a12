//! Character-level helpers over `Seq<char>`: white space, trimming, splitting
//! on a separator and decimal numbers.

use vstd::prelude::*;
use vstd::string::*;

verus! {

/// The code points with the Unicode property `White_Space`.
pub open spec fn is_whitespace(c: char) -> bool {
    let n = c as u32;
    (0x09 <= n && n <= 0x0D) || n == 0x20 || n == 0x85 || n == 0xA0 || n == 0x1680 || (0x2000 <= n
        && n <= 0x200A) || n == 0x2028 || n == 0x2029 || n == 0x202F || n == 0x205F || n == 0x3000
}

/// Whether `c` is white space.
pub fn char_is_whitespace(c: char) -> (b: bool)
    ensures
        b == is_whitespace(c),
{
    let n: u32 = c as u32;
    (0x09 <= n && n <= 0x0D) || n == 0x20 || n == 0x85 || n == 0xA0 || n == 0x1680 || (0x2000 <= n
        && n <= 0x200A) || n == 0x2028 || n == 0x2029 || n == 0x202F || n == 0x205F || n == 0x3000
}

/// `s` without its leading white space.
pub open spec fn trim_start(s: Seq<char>) -> Seq<char>
    decreases s.len(),
{
    if s.len() > 0 && is_whitespace(s.first()) {
        trim_start(s.drop_first())
    } else {
        s
    }
}

/// `s` without its trailing white space.
pub open spec fn trim_end(s: Seq<char>) -> Seq<char>
    decreases s.len(),
{
    if s.len() > 0 && is_whitespace(s.last()) {
        trim_end(s.drop_last())
    } else {
        s
    }
}

/// `s` without leading and trailing white space.
pub open spec fn trim(s: Seq<char>) -> Seq<char> {
    trim_end(trim_start(s))
}

/// The slice of `s` that is left when white space is taken off both ends.
pub fn trimmed(s: &str) -> (r: &str)
    ensures
        r@ == trim(s@),
{
    let n: usize = s.unicode_len();
    let mut a: usize = 0;
    assert(s@.subrange(0, n as int) =~= s@);
    while a < n && char_is_whitespace(s.get_char(a))
        invariant
            a <= n,
            n == s@.len(),
            trim_start(s@) == trim_start(s@.subrange(a as int, n as int)),
        decreases n - a,
    {
        proof {
            let t = s@.subrange(a as int, n as int);
            assert(t.drop_first() =~= s@.subrange(a as int + 1, n as int));
        }
        a = a + 1;
    }
    let ghost t = s@.subrange(a as int, n as int);
    assert(trim_start(s@) == t);
    let mut b: usize = n;
    while b > a && char_is_whitespace(s.get_char(b - 1))
        invariant
            a <= b <= n,
            n == s@.len(),
            t == s@.subrange(a as int, n as int),
            trim_end(t) == trim_end(s@.subrange(a as int, b as int)),
        decreases b - a,
    {
        proof {
            let u = s@.subrange(a as int, b as int);
            assert(u.drop_last() =~= s@.subrange(a as int, b as int - 1));
        }
        b = b - 1;
    }
    s.substring_char(a, b)
}

/// The index of the first `c` in `s`, or the length of `s` where it holds none.
pub open spec fn index_of(s: Seq<char>, c: char) -> nat
    decreases s.len(),
{
    if s.len() == 0 || s.first() == c {
        0
    } else {
        1 + index_of(s.drop_first(), c)
    }
}

/// The pieces of `s` that lie between occurrences of `sep`, in order; there
/// is one more piece than there are separators.
pub open spec fn split(s: Seq<char>, sep: char) -> Seq<Seq<char>>
    decreases s.len(),
{
    let i = index_of(s, sep) as int;
    if i >= s.len() {
        seq![s]
    } else {
        seq![s.subrange(0, i)] + split(s.subrange(i + 1, s.len() as int), sep)
    }
}

/// Each piece trimmed, and the pieces that are then empty left out.
pub open spec fn trimmed_nonempty(pieces: Seq<Seq<char>>) -> Seq<Seq<char>> {
    pieces.map_values(|p: Seq<char>| trim(p)).filter(|p: Seq<char>| p.len() > 0)
}

/// The entries of a separated list: the pieces between separators, trimmed,
/// without the empty ones.
pub open spec fn entries(s: Seq<char>, sep: char) -> Seq<Seq<char>> {
    trimmed_nonempty(split(s, sep))
}

proof fn lemma_index_of(s: Seq<char>, c: char, k: int)
    requires
        0 <= k <= s.len(),
        forall|j: int| 0 <= j < k ==> s[j] != c,
        k < s.len() ==> s[k] == c,
    ensures
        index_of(s, c) == k,
    decreases k,
{
    if k > 0 {
        let t = s.drop_first();
        assert forall|j: int| 0 <= j < k - 1 implies t[j] != c by {
            assert(t[j] == s[j + 1]);
        }
        lemma_index_of(t, c, k - 1);
    }
}

proof fn lemma_trimmed_nonempty_concat(a: Seq<Seq<char>>, b: Seq<Seq<char>>)
    ensures
        trimmed_nonempty(a + b) == trimmed_nonempty(a) + trimmed_nonempty(b),
{
    let f = |p: Seq<char>| trim(p);
    let g = |p: Seq<char>| p.len() > 0;
    assert((a + b).map_values(f) =~= a.map_values(f) + b.map_values(f));
    Seq::filter_distributes_over_add(a.map_values(f), b.map_values(f), g);
}

proof fn lemma_trimmed_nonempty_one(p: Seq<char>)
    ensures
        trimmed_nonempty(seq![p]) == if trim(p).len() > 0 {
            seq![trim(p)]
        } else {
            Seq::<Seq<char>>::empty()
        },
{
    let f = |p: Seq<char>| trim(p);
    let g = |p: Seq<char>| p.len() > 0;
    let m = seq![p].map_values(f);
    assert(m =~= seq![trim(p)]);
    reveal_with_fuel(Seq::filter, 2);
    assert(m.drop_last() =~= Seq::<Seq<char>>::empty());
    assert(m.filter(g) =~= if trim(p).len() > 0 {
        seq![trim(p)]
    } else {
        Seq::<Seq<char>>::empty()
    });
}

/// The entries of the list `s`: split on `sep`, each piece trimmed, the empty
/// pieces dropped.
pub fn split_entries(s: &str, sep: char) -> (out: Vec<String>)
    ensures
        out.deep_view() == entries(s@, sep),
{
    let n: usize = s.unicode_len();
    let mut out: Vec<String> = Vec::new();
    let mut start: usize = 0;
    let mut i: usize = 0;
    assert(s@.subrange(0, n as int) =~= s@);
    assert(out.deep_view() =~= Seq::<Seq<char>>::empty());
    assert(out.deep_view() + entries(s@, sep) =~= entries(s@, sep));
    while i < n
        invariant
            start <= i <= n,
            n == s@.len(),
            forall|j: int| start <= j < i ==> s@[j] != sep,
            entries(s@, sep) == out.deep_view() + entries(
                s@.subrange(start as int, n as int),
                sep,
            ),
        decreases n - i,
    {
        if s.get_char(i) == sep {
            let piece = trimmed(s.substring_char(start, i));
            let ghost before = out.deep_view();
            let ghost rest = s@.subrange(start as int, n as int);
            let ghost head = s@.subrange(start as int, i as int);
            let ghost tail = s@.subrange(i as int + 1, n as int);
            proof {
                lemma_index_of(rest, sep, i - start);
                assert(rest.subrange(0, i - start) =~= head);
                assert(rest.subrange(i - start + 1, rest.len() as int) =~= tail);
                assert(split(rest, sep) == seq![head] + split(tail, sep));
                lemma_trimmed_nonempty_concat(seq![head], split(tail, sep));
                lemma_trimmed_nonempty_one(head);
            }
            if piece.unicode_len() > 0 {
                out.push(String::from_str(piece));
                assert(out.deep_view() =~= before + seq![trim(head)]);
            }
            assert(entries(s@, sep) =~= out.deep_view() + entries(tail, sep));
            start = i + 1;
        }
        i = i + 1;
    }
    let piece = trimmed(s.substring_char(start, n));
    let ghost before = out.deep_view();
    let ghost rest = s@.subrange(start as int, n as int);
    proof {
        lemma_index_of(rest, sep, n - start);
        assert(split(rest, sep) == seq![rest]);
        lemma_trimmed_nonempty_one(rest);
    }
    if piece.unicode_len() > 0 {
        out.push(String::from_str(piece));
        assert(out.deep_view() =~= before + seq![trim(rest)]);
    }
    assert(entries(s@, sep) =~= out.deep_view());
    out
}

/// Whether `c` is one of the ten decimal digits.
pub open spec fn is_digit(c: char) -> bool {
    0x30 <= c as u32 <= 0x39
}

/// Whether `s` holds decimal digits only.
pub open spec fn all_digits(s: Seq<char>) -> bool {
    forall|i: int| 0 <= i < s.len() ==> is_digit(#[trigger] s[i])
}

/// The number that the decimal digits `s` write, most significant digit first.
pub open spec fn digits_value(s: Seq<char>) -> nat
    decreases s.len(),
{
    if s.len() == 0 {
        0
    } else {
        digits_value(s.drop_last()) * 10 + (s.last() as u32 - 0x30) as nat
    }
}

/// `s` without the sign that it starts with, if any: a plus, or a minus where
/// `minus` allows one.
pub open spec fn after_sign(s: Seq<char>, minus: bool) -> Seq<char> {
    if s.len() > 0 && (s[0] == '+' || (minus && s[0] == '-')) {
        s.drop_first()
    } else {
        s
    }
}

/// The unsigned 64-bit number that `s` writes in decimal: an optional `+`,
/// then one digit or more, and a value that fits.
pub open spec fn parse_u64(s: Seq<char>) -> Option<u64> {
    let d = after_sign(s, false);
    if d.len() > 0 && all_digits(d) && digits_value(d) <= u64::MAX {
        Some(digits_value(d) as u64)
    } else {
        None
    }
}

/// The signed 64-bit number that `s` writes in decimal: an optional `+` or
/// `-`, then one digit or more, and a value that fits.
pub open spec fn parse_i64(s: Seq<char>) -> Option<i64> {
    let d = after_sign(s, true);
    let v = if s.len() > 0 && s[0] == '-' {
        -(digits_value(d) as int)
    } else {
        digits_value(d) as int
    };
    if d.len() > 0 && all_digits(d) && i64::MIN <= v <= i64::MAX {
        Some(v as i64)
    } else {
        None
    }
}

/// A number written with more digits is no smaller than the one that its
/// leading digits write.
proof fn lemma_digits_value_grows(s: Seq<char>, k: int)
    requires
        0 <= k <= s.len(),
    ensures
        digits_value(s.subrange(0, k)) <= digits_value(s),
    decreases s.len() - k,
{
    if k == s.len() {
        assert(s.subrange(0, k) =~= s);
    } else {
        lemma_digits_value_grows(s.drop_last(), k);
        assert(s.drop_last().subrange(0, k) =~= s.subrange(0, k));
    }
}

/// The value of the digits of `s` from `from` on, where there is at least one
/// character there, all are digits and the value is at most `limit`.
fn parse_digits(s: &str, from: usize, limit: u64) -> (r: Option<u64>)
    requires
        from <= s@.len(),
        limit >= 9,
    ensures
        ({
            let d = s@.subrange(from as int, s@.len() as int);
            r == if d.len() > 0 && all_digits(d) && digits_value(d) <= limit {
                Some(digits_value(d) as u64)
            } else {
                None
            }
        }),
{
    let n: usize = s.unicode_len();
    if from >= n {
        return None;
    }
    let ghost d = s@.subrange(from as int, n as int);
    let mut acc: u64 = 0;
    let mut i: usize = from;
    assert(d.subrange(0, 0) =~= Seq::<char>::empty());
    while i < n
        invariant
            from <= i <= n,
            n == s@.len(),
            limit >= 9,
            d == s@.subrange(from as int, n as int),
            all_digits(d.subrange(0, i - from)),
            acc == digits_value(d.subrange(0, i - from)),
            acc <= limit,
        decreases n - i,
    {
        let c = s.get_char(i);
        let code: u32 = c as u32;
        assert(d[i - from] == c);
        if code < 0x30 || code > 0x39 {
            return None;
        }
        let digit: u64 = (code - 0x30) as u64;
        proof {
            let next = d.subrange(0, i - from + 1);
            assert(next.drop_last() =~= d.subrange(0, i - from));
            assert(next.last() == c);
            assert(digits_value(next) == acc * 10 + digit);
            lemma_digits_value_grows(d, i - from + 1);
        }
        if acc > (limit - digit) / 10 {
            return None;
        }
        acc = acc * 10 + digit;
        i = i + 1;
    }
    assert(d.subrange(0, n - from) =~= d);
    Some(acc)
}

/// Reads an unsigned 64-bit decimal number.
pub fn read_u64(s: &str) -> (r: Option<u64>)
    ensures
        r == parse_u64(s@),
{
    let n: usize = s.unicode_len();
    let from: usize = if n > 0 && s.get_char(0) == '+' {
        1
    } else {
        0
    };
    assert(after_sign(s@, false) =~= s@.subrange(from as int, n as int));
    parse_digits(s, from, u64::MAX)
}

/// Reads a signed 64-bit decimal number.
pub fn read_i64(s: &str) -> (r: Option<i64>)
    ensures
        r == parse_i64(s@),
{
    let n: usize = s.unicode_len();
    if n > 0 && s.get_char(0) == '-' {
        assert(after_sign(s@, true) =~= s@.subrange(1, n as int));
        match parse_digits(s, 1, 0x8000_0000_0000_0000) {
            Some(v) => if v == 0x8000_0000_0000_0000 {
                Some(i64::MIN)
            } else {
                Some(0 - (v as i64))
            },
            None => None,
        }
    } else {
        let from: usize = if n > 0 && s.get_char(0) == '+' {
            1
        } else {
            0
        };
        assert(after_sign(s@, true) =~= s@.subrange(from as int, n as int));
        match parse_digits(s, from, 0x7fff_ffff_ffff_ffff) {
            Some(v) => Some(v as i64),
            None => None,
        }
    }
}

} // verus!
