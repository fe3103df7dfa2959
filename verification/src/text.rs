//! Character-level string helpers shared by the rest of the library.

use vstd::prelude::*;

verus! {

/// Number of bytes the UTF-8 encoding of `c` takes.
pub open spec fn char_width(c: char) -> nat {
    if (c as u32) < 0x80 {
        1
    } else if (c as u32) < 0x800 {
        2
    } else if (c as u32) < 0x10000 {
        3
    } else {
        4
    }
}

/// Number of bytes the UTF-8 encoding of `s` takes.
pub open spec fn utf8_len(s: Seq<char>) -> nat
    decreases s.len(),
{
    if s.len() == 0 {
        0
    } else {
        utf8_len(s.drop_last()) + char_width(s.last())
    }
}

/// Whether byte offset `b` of the UTF-8 encoding of `s` starts a character
/// (or is the end of the text).
pub open spec fn on_boundary(s: Seq<char>, b: int) -> bool {
    exists|k: int| 0 <= k <= s.len() && utf8_len(s.take(k)) == b
}

/// The index of the character that starts at byte offset `b`.
pub open spec fn boundary_index(s: Seq<char>, b: int) -> int {
    choose|k: int| 0 <= k <= s.len() && utf8_len(s.take(k)) == b
}

/// A text whose UTF-8 encoding can be addressed by a `usize`.
pub open spec fn text_fits(s: Seq<char>) -> bool {
    utf8_len(s) <= usize::MAX
}

/// One more character adds its width.
pub proof fn lemma_utf8_len_step(s: Seq<char>, k: int)
    requires
        0 <= k < s.len(),
    ensures
        utf8_len(s.take(k + 1)) == utf8_len(s.take(k)) + char_width(s[k]),
{
    assert(s.take(k + 1).drop_last() =~= s.take(k));
}

/// Prefix lengths grow strictly with the prefix.
pub proof fn lemma_utf8_len_strict(s: Seq<char>, i: int, j: int)
    requires
        0 <= i < j <= s.len(),
    ensures
        utf8_len(s.take(i)) < utf8_len(s.take(j)),
    decreases j - i,
{
    lemma_utf8_len_step(s, j - 1);
    if i < j - 1 {
        lemma_utf8_len_strict(s, i, j - 1);
    }
}

/// A prefix is never longer than the whole.
pub proof fn lemma_utf8_len_prefix(s: Seq<char>, i: int)
    requires
        0 <= i <= s.len(),
    ensures
        utf8_len(s.take(i)) <= utf8_len(s),
{
    assert(s.take(s.len() as int) =~= s);
    if i < s.len() {
        lemma_utf8_len_strict(s, i, s.len() as int);
    }
}

/// The whole text ends on a boundary, as does its start.
pub proof fn lemma_boundary_ends(s: Seq<char>)
    ensures
        on_boundary(s, 0),
        on_boundary(s, utf8_len(s) as int),
        boundary_index(s, 0) == 0,
        boundary_index(s, utf8_len(s) as int) == s.len(),
{
    assert(s.take(0) =~= Seq::<char>::empty());
    assert(s.take(s.len() as int) =~= s);
    assert(utf8_len(s.take(0)) == 0);
    lemma_boundary_unique(s, 0, 0);
    lemma_boundary_unique(s, utf8_len(s) as int, s.len() as int);
}

/// A boundary offset has exactly one character index.
pub proof fn lemma_boundary_unique(s: Seq<char>, b: int, k: int)
    requires
        0 <= k <= s.len(),
        utf8_len(s.take(k)) == b,
    ensures
        on_boundary(s, b),
        boundary_index(s, b) == k,
{
    let j = boundary_index(s, b);
    assert(0 <= j <= s.len() && utf8_len(s.take(j)) == b);
    if j < k {
        lemma_utf8_len_strict(s, j, k);
    } else if k < j {
        lemma_utf8_len_strict(s, k, j);
    }
}

/// Lengths add up over concatenation.
pub proof fn lemma_utf8_len_concat(a: Seq<char>, b: Seq<char>)
    ensures
        utf8_len(a + b) == utf8_len(a) + utf8_len(b),
    decreases b.len(),
{
    if b.len() > 0 {
        assert((a + b).drop_last() =~= a + b.drop_last());
        assert((a + b).last() == b.last());
        lemma_utf8_len_concat(a, b.drop_last());
    } else {
        assert(a + b =~= a);
    }
}

/// A single character takes its width.
pub proof fn lemma_utf8_len_single(c: char)
    ensures
        utf8_len(seq![c]) == char_width(c),
{
    let one = seq![c];
    assert(one.drop_last() =~= Seq::<char>::empty());
    assert(utf8_len(one.drop_last()) == 0);
    assert(one.last() == c);
}

/// Inserting a character adds its width; removing one takes it away.
pub proof fn lemma_utf8_len_edit(s: Seq<char>, k: int, c: char)
    ensures
        0 <= k <= s.len() ==> utf8_len(s.insert(k, c)) == utf8_len(s) + char_width(c),
        0 <= k < s.len() ==> utf8_len(s.remove(k)) + char_width(s[k]) == utf8_len(s),
{
    if 0 <= k <= s.len() {
        let a = s.take(k);
        let b = s.skip(k);
        assert(s =~= a + b);
        assert(s.insert(k, c) =~= (a + seq![c]) + b);
        lemma_utf8_len_concat(a, b);
        lemma_utf8_len_concat(a + seq![c], b);
        lemma_utf8_len_concat(a, seq![c]);
        lemma_utf8_len_single(c);
    }
    if 0 <= k < s.len() {
        let a = s.take(k);
        let b = s.skip(k + 1);
        let d = s[k];
        assert(s =~= (a + seq![d]) + b);
        assert(s.remove(k) =~= a + b);
        lemma_utf8_len_concat(a, b);
        lemma_utf8_len_concat(a + seq![d], b);
        lemma_utf8_len_concat(a, seq![d]);
        lemma_utf8_len_single(d);
    }
}

/// Each character takes at most four bytes.
pub proof fn lemma_utf8_len_bound(s: Seq<char>)
    ensures
        s.len() <= utf8_len(s) <= 4 * s.len(),
    decreases s.len(),
{
    if s.len() > 0 {
        lemma_utf8_len_bound(s.drop_last());
    }
}

/// The decimal digit character for `d` (for `d < 10`).
pub open spec fn digit_char(d: nat) -> char {
    if d == 0 { '0' }
    else if d == 1 { '1' }
    else if d == 2 { '2' }
    else if d == 3 { '3' }
    else if d == 4 { '4' }
    else if d == 5 { '5' }
    else if d == 6 { '6' }
    else if d == 7 { '7' }
    else if d == 8 { '8' }
    else { '9' }
}

/// Decimal notation of a natural number, without leading zeros.
pub open spec fn nat_text(n: nat) -> Seq<char>
    decreases n,
{
    if n < 10 {
        seq![digit_char(n)]
    } else {
        nat_text(n / 10).push(digit_char(n % 10))
    }
}

/// Decimal notation of an integer, with a leading `-` when negative.
pub open spec fn int_text(n: int) -> Seq<char> {
    if n < 0 {
        seq!['-'] + nat_text((-n) as nat)
    } else {
        nat_text(n as nat)
    }
}

/// Decimal notation padded with zeros to at least two characters, the sign
/// counting towards the width (as `{:02}` does).
pub open spec fn pad2_text(n: int) -> Seq<char> {
    if 0 <= n < 10 {
        seq!['0', digit_char(n as nat)]
    } else {
        int_text(n)
    }
}

/// Decimal notation padded with zeros to at least four characters, the sign
/// counting towards the width (as `{:04}` does).
pub open spec fn pad4_text(n: int) -> Seq<char> {
    if 0 <= n < 10 {
        seq!['0', '0', '0', digit_char(n as nat)]
    } else if 10 <= n < 100 {
        seq!['0', '0'] + nat_text(n as nat)
    } else if 100 <= n < 1000 {
        seq!['0'] + nat_text(n as nat)
    } else if -100 < n < -9 {
        seq!['-', '0'] + nat_text((-n) as nat)
    } else if -10 < n < 0 {
        seq!['-', '0', '0', digit_char((-n) as nat)]
    } else {
        int_text(n)
    }
}

/// Integer division rounding toward zero, as Rust's `/` does.
pub open spec fn tdiv(a: int, b: int) -> int {
    if a >= 0 {
        a / b
    } else {
        -((-a) / b)
    }
}

/// Remainder of `tdiv`, as Rust's `%` does.
pub open spec fn trem(a: int, b: int) -> int {
    a - b * tdiv(a, b)
}

/// Byte offset at which character `k` of `s` starts.
pub fn byte_offset(s: &Vec<char>, k: usize) -> (b: usize)
    requires
        k <= s@.len(),
        utf8_len(s@.take(k as int)) <= usize::MAX,
    ensures
        b == utf8_len(s@.take(k as int)),
{
    let mut i: usize = 0;
    let mut acc: usize = 0;
    while i < k
        invariant
            k <= s@.len(),
            utf8_len(s@.take(k as int)) <= usize::MAX,
            0 <= i <= k,
            acc == utf8_len(s@.take(i as int)),
        decreases k - i,
    {
        proof {
            lemma_utf8_len_step(s@, i as int);
            if i + 1 < k {
                lemma_utf8_len_strict(s@, i + 1, k as int);
            }
        }
        acc = acc + char_len_utf8(s[i]);
        i = i + 1;
    }
    acc
}

/// The character index that byte offset `b` of `s` falls on, when `b` is a
/// boundary, or `None` when `b` lies past the end of the text.
pub fn locate(s: &Vec<char>, b: usize) -> (r: Option<usize>)
    requires
        on_boundary(s@, b as int) || b >= utf8_len(s@),
    ensures
        match r {
            Some(k) => on_boundary(s@, b as int) && k == boundary_index(s@, b as int) && k
                <= s@.len(),
            None => b > utf8_len(s@) && !on_boundary(s@, b as int),
        },
{
    let mut i: usize = 0;
    let mut acc: usize = 0;
    proof {
        assert(s@.take(0) =~= Seq::<char>::empty());
    }
    while i < s.len() && acc < b
        invariant
            on_boundary(s@, b as int) || b >= utf8_len(s@),
            0 <= i <= s@.len(),
            acc == utf8_len(s@.take(i as int)),
            acc <= b,
        decreases s@.len() - i,
    {
        proof {
            lemma_utf8_len_step(s@, i as int);
        }
        let w = char_len_utf8(s[i]);
        if w > b - acc {
            // `b` falls inside character `i`: it is no boundary, so it lies past the end,
            // which it cannot, being smaller than this prefix.
            proof {
                lemma_utf8_len_prefix(s@, i + 1);
                if on_boundary(s@, b as int) {
                    let j = boundary_index(s@, b as int);
                    if j <= i {
                        if j < i {
                            lemma_utf8_len_strict(s@, j, i as int);
                        }
                    } else {
                        if j > i + 1 {
                            lemma_utf8_len_strict(s@, i + 1, j);
                        }
                    }
                }
                assert(false);
            }
            return None;
        }
        acc = acc + w;
        i = i + 1;
    }
    if acc == b {
        proof {
            lemma_boundary_unique(s@, b as int, i as int);
        }
        Some(i)
    } else {
        proof {
            assert(i == s@.len());
            assert(s@.take(i as int) =~= s@);
            if on_boundary(s@, b as int) {
                let j = boundary_index(s@, b as int);
                lemma_utf8_len_prefix(s@, j);
            }
        }
        None
    }
}

/// Byte length of the UTF-8 encoding of `s`, when it fits a `usize`.
pub fn utf8_length(s: &str) -> (r: Option<usize>)
    ensures
        match r {
            Some(n) => n == utf8_len(s@),
            None => !text_fits(s@),
        },
{
    let cs = chars_of(s);
    let mut i: usize = 0;
    let mut acc: usize = 0;
    while i < cs.len()
        invariant
            cs@ == s@,
            0 <= i <= cs@.len(),
            acc == utf8_len(cs@.take(i as int)),
        decreases cs@.len() - i,
    {
        proof {
            lemma_utf8_len_step(cs@, i as int);
        }
        let w = char_len_utf8(cs[i]);
        if acc > usize::MAX - w {
            proof {
                lemma_utf8_len_prefix(cs@, i + 1);
            }
            return None;
        }
        acc = acc + w;
        i = i + 1;
    }
    proof {
        assert(cs@.take(i as int) =~= cs@);
    }
    Some(acc)
}

/// Whether the UTF-8 encoding of `s` can be addressed by a `usize`, with
/// room to spare for one more character.
pub fn has_room(s: &str) -> (b: bool)
    ensures
        b == (utf8_len(s@) + 4 <= usize::MAX),
{
    match utf8_length(s) {
        Some(n) => n <= usize::MAX - 4,
        None => false,
    }
}

/// The characters of `s`.
pub fn chars_of(s: &str) -> (v: Vec<char>)
    ensures
        v@ == s@,
{
    broadcast use vstd::string::axiom_spec_iter;

    let mut v: Vec<char> = Vec::new();
    for c in it: s.chars()
        invariant
            it.seq() == s@,
            v@ == s@.take(it.index() as int),
    {
        v.push(c);
        proof {
            assert(s@.take(it.index() + 1) =~= v@);
        }
    }
    v
}

/// `String::from_iter` over the characters `v`: the string made of them,
/// in order.
#[verifier::external_body]
pub(crate) fn string_of(v: &[char]) -> (s: String)
    ensures
        s@ == v@,
{
    String::from_iter(v)
}

/// Appends the characters of `s` to `v`.
pub fn push_text(v: &mut Vec<char>, s: &str)
    ensures
        final(v)@ == old(v)@ + s@,
{
    let cs = chars_of(s);
    let mut i: usize = 0;
    while i < cs.len()
        invariant
            0 <= i <= cs@.len(),
            cs@ == s@,
            v@ == old(v)@ + cs@.take(i as int),
        decreases cs@.len() - i,
    {
        v.push(cs[i]);
        i = i + 1;
        assert(cs@.take(i as int) == cs@.take(i - 1).push(cs@[i - 1]));
    }
    assert(cs@.take(cs@.len() as int) == cs@);
}

/// Appends the characters of `s` to `v`.
pub fn push_chars(v: &mut Vec<char>, s: &Vec<char>)
    ensures
        final(v)@ == old(v)@ + s@,
{
    let mut i: usize = 0;
    while i < s.len()
        invariant
            0 <= i <= s@.len(),
            v@ == old(v)@ + s@.take(i as int),
        decreases s@.len() - i,
    {
        v.push(s[i]);
        i = i + 1;
        assert(s@.take(i as int) == s@.take(i - 1).push(s@[i - 1]));
    }
    assert(s@.take(s@.len() as int) == s@);
}

/// Number of bytes the UTF-8 encoding of `c` takes (`char::len_utf8`).
pub fn char_len_utf8(c: char) -> (n: usize)
    ensures
        n == char_width(c),
        1 <= n <= 4,
{
    let u = c as u32;
    if u < 0x80 {
        1
    } else if u < 0x800 {
        2
    } else if u < 0x10000 {
        3
    } else {
        4
    }
}

/// The decimal digit character for `d`.
pub fn digit(d: u64) -> (c: char)
    requires
        d < 10,
    ensures
        c == digit_char(d as nat),
{
    if d == 0 { '0' }
    else if d == 1 { '1' }
    else if d == 2 { '2' }
    else if d == 3 { '3' }
    else if d == 4 { '4' }
    else if d == 5 { '5' }
    else if d == 6 { '6' }
    else if d == 7 { '7' }
    else if d == 8 { '8' }
    else { '9' }
}

/// Decimal notation of `n`.
pub fn nat_chars(n: u64) -> (v: Vec<char>)
    ensures
        v@ == nat_text(n as nat),
    decreases n,
{
    if n < 10 {
        let mut v = Vec::new();
        v.push(digit(n));
        v
    } else {
        let mut v = nat_chars(n / 10);
        v.push(digit(n % 10));
        v
    }
}

/// Magnitude of an `i64`, as a `u64`.
pub fn magnitude(n: i64) -> (m: u64)
    ensures
        m as int == if n < 0 { -n } else { n as int },
{
    if n >= 0 {
        n as u64
    } else if n == i64::MIN {
        9223372036854775808u64
    } else {
        (-n) as u64
    }
}

/// Decimal notation of `n`, with a leading `-` when negative.
pub fn int_chars(n: i64) -> (v: Vec<char>)
    ensures
        v@ == int_text(n as int),
{
    let m = magnitude(n);
    if n < 0 {
        let mut v = Vec::new();
        v.push('-');
        let d = nat_chars(m);
        push_chars(&mut v, &d);
        v
    } else {
        nat_chars(m)
    }
}

/// `{:02}` of `n`.
pub fn pad2_chars(n: i64) -> (v: Vec<char>)
    ensures
        v@ == pad2_text(n as int),
{
    if 0 <= n && n < 10 {
        let mut v = Vec::new();
        v.push('0');
        v.push(digit(n as u64));
        v
    } else {
        int_chars(n)
    }
}

/// `{:04}` of `n`.
pub fn pad4_chars(n: i64) -> (v: Vec<char>)
    ensures
        v@ == pad4_text(n as int),
{
    let mut v = Vec::new();
    if 0 <= n && n < 1000 {
        if n < 10 {
            v.push('0');
            v.push('0');
            v.push('0');
            v.push(digit(n as u64));
        } else if n < 100 {
            v.push('0');
            v.push('0');
            let d = nat_chars(n as u64);
            push_chars(&mut v, &d);
        } else {
            v.push('0');
            let d = nat_chars(n as u64);
            push_chars(&mut v, &d);
        }
        v
    } else if -100 < n && n < 0 {
        v.push('-');
        v.push('0');
        if n > -10 {
            v.push('0');
            v.push(digit((-n) as u64));
        } else {
            let d = nat_chars((-n) as u64);
            push_chars(&mut v, &d);
        }
        v
    } else {
        int_chars(n)
    }
}

/// Rust's `/` on `i64` by a positive constant-free divisor, rounding toward zero.
pub fn div_trunc(a: i64, b: i64) -> (q: i64)
    requires
        b > 0,
    ensures
        q as int == tdiv(a as int, b as int),
{
    let m = magnitude(a);
    let q = m / (b as u64);
    assert(q <= m);
    if a >= 0 {
        q as i64
    } else {
        assert(q as int <= 9223372036854775808);
        if q == 9223372036854775808u64 {
            i64::MIN
        } else {
            -(q as i64)
        }
    }
}

/// Rust's `%` on `i64` by a positive divisor.
pub fn rem_trunc(a: i64, b: i64) -> (r: i64)
    requires
        b > 0,
    ensures
        r as int == trem(a as int, b as int),
        -(b as int) < r < b,
{
    let m = magnitude(a);
    let r = m % (b as u64);
    proof {
        let q = m as int / b as int;
        assert(m as int == b as int * q + r as int) by (nonlinear_arith)
            requires b > 0, q == m as int / b as int, r as int == m as int % b as int;
        assert(b as int * (-q) == -(b as int * q)) by (nonlinear_arith);
    }
    if a >= 0 {
        r as i64
    } else {
        -(r as i64)
    }
}

} // verus!
