//! Character-level text helpers with exact specifications: whitespace
//! trimming, searching, decimal and hexadecimal rendering, and the parsing
//! of unsigned decimal integers.

use vstd::prelude::*;

verus! {

broadcast use vstd::seq_lib::group_seq_properties;

// ── Whitespace and trimming ──────────────────────────────────────────────────

/// Unicode `White_Space` property, as used by `char::is_whitespace` and `str::trim`.
pub open spec fn is_ws(c: char) -> bool {
    let u = c as u32;
    ||| 0x09 <= u <= 0x0d
    ||| u == 0x20
    ||| u == 0x85
    ||| u == 0xa0
    ||| u == 0x1680
    ||| 0x2000 <= u <= 0x200a
    ||| u == 0x2028
    ||| u == 0x2029
    ||| u == 0x202f
    ||| u == 0x205f
    ||| u == 0x3000
}

pub fn is_whitespace(c: char) -> (r: bool)
    ensures
        r == is_ws(c),
{
    let u = c as u32;
    (0x09 <= u && u <= 0x0d) || u == 0x20 || u == 0x85 || u == 0xa0 || u == 0x1680 || (0x2000
        <= u && u <= 0x200a) || u == 0x2028 || u == 0x2029 || u == 0x202f || u == 0x205f || u
        == 0x3000
}

/// Number of whitespace characters at the start of `s`.
pub open spec fn leading_ws(s: Seq<char>) -> nat
    decreases s.len(),
{
    if s.len() == 0 {
        0
    } else if is_ws(s[0]) {
        1 + leading_ws(s.drop_first())
    } else {
        0
    }
}

/// Number of whitespace characters at the end of `s`.
pub open spec fn trailing_ws(s: Seq<char>) -> nat
    decreases s.len(),
{
    if s.len() == 0 {
        0
    } else if is_ws(s.last()) {
        1 + trailing_ws(s.drop_last())
    } else {
        0
    }
}

/// `s` without leading and trailing whitespace (what `str::trim` returns).
pub open spec fn trim(s: Seq<char>) -> Seq<char> {
    let t = s.skip(leading_ws(s) as int);
    t.take(t.len() - trailing_ws(t))
}

pub proof fn lemma_leading_ws_bound(s: Seq<char>)
    ensures
        leading_ws(s) <= s.len(),
    decreases s.len(),
{
    if s.len() > 0 && is_ws(s[0]) {
        lemma_leading_ws_bound(s.drop_first());
    }
}

pub proof fn lemma_trailing_ws_bound(s: Seq<char>)
    ensures
        trailing_ws(s) <= s.len(),
    decreases s.len(),
{
    if s.len() > 0 && is_ws(s.last()) {
        lemma_trailing_ws_bound(s.drop_last());
    }
}

/// Bounds `(lo, hi)` such that `v[lo..hi]` is `v` trimmed.
pub fn trim_bounds(v: &Vec<char>) -> (r: (usize, usize))
    ensures
        r.0 <= r.1 <= v@.len(),
        v@.subrange(r.0 as int, r.1 as int) == trim(v@),
{
    let n = v.len();
    let mut i: usize = 0;
    assert(v@.skip(0) =~= v@);
    while i < n && is_whitespace(v[i])
        invariant
            i <= n == v@.len(),
            leading_ws(v@) == i + leading_ws(v@.skip(i as int)),
            forall|k: int| 0 <= k < i ==> is_ws(#[trigger] v@[k]),
        decreases n - i,
    {
        assert(v@.skip(i as int).drop_first() =~= v@.skip(i + 1));
        i = i + 1;
    }
    assert(leading_ws(v@.skip(i as int)) == 0) by {
        if i == n {
            assert(v@.skip(i as int).len() == 0);
        }
    }
    let lo = i;
    let ghost t = v@.skip(lo as int);
    let mut j: usize = n;
    assert(v@.subrange(lo as int, n as int) =~= t);
    while j > lo && is_whitespace(v[j - 1])
        invariant
            lo <= j <= n == v@.len(),
            t == v@.skip(lo as int),
            trailing_ws(t) == (n - j) + trailing_ws(v@.subrange(lo as int, j as int)),
        decreases j,
    {
        assert(v@.subrange(lo as int, j as int).drop_last() =~= v@.subrange(
            lo as int,
            j - 1,
        ));
        j = j - 1;
    }
    assert(trailing_ws(v@.subrange(lo as int, j as int)) == 0);
    assert(t.take(t.len() - trailing_ws(t)) =~= v@.subrange(lo as int, j as int));
    (lo, j)
}

/// `s` without leading and trailing whitespace.
pub fn trim_str(s: &str) -> (r: &str)
    ensures
        r@ == trim(s@),
{
    let v = chars_of(s);
    let (lo, hi) = trim_bounds(&v);
    s.substring_char(lo, hi)
}

// ── Sequences of characters ──────────────────────────────────────────────────

/// The characters of `s`, in order.
pub fn chars_of(s: &str) -> (v: Vec<char>)
    ensures
        v@ == s@,
{
    let n = s.unicode_len();
    let mut v: Vec<char> = Vec::new();
    for i in 0..n
        invariant
            n == s@.len(),
            v@ == s@.take(i as int),
    {
        v.push(s.get_char(i));
        assert(s@.take(i + 1) =~= s@.take(i as int).push(s@[i as int]));
    }
    assert(s@.take(n as int) =~= s@);
    v
}

/// Whether two strings hold the same characters.
pub fn str_eq(a: &str, b: &str) -> (r: bool)
    ensures
        r == (a@ == b@),
{
    let va = chars_of(a);
    let vb = chars_of(b);
    if va.len() != vb.len() {
        return false;
    }
    let n = va.len();
    for i in 0..n
        invariant
            n == va@.len(),
            n == vb@.len(),
            va@ == a@,
            vb@ == b@,
            forall|j: int| 0 <= j < i ==> va@[j] == vb@[j],
    {
        if va[i] != vb[i] {
            return false;
        }
    }
    assert(a@ =~= b@);
    true
}

/// Whether `a` starts with `c`.
pub fn starts_with_char(a: &str, c: char) -> (r: bool)
    ensures
        r == (a@.len() > 0 && a@[0] == c),
{
    if a.unicode_len() == 0 {
        false
    } else {
        a.get_char(0) == c
    }
}

/// Index of the first occurrence of `c` in `v`.
pub fn find_first(v: &Vec<char>, c: char) -> (r: Option<usize>)
    ensures
        r matches Some(i) ==> v@.index_of_first(c) == Some(i as int) && i < v@.len() && v@[i as int]
            == c && forall|j: int| 0 <= j < i ==> v@[j] != c,
        r is None ==> v@.index_of_first(c) is None && !v@.contains(c),
{
    proof {
        v@.index_of_first_ensures(c);
    }
    for i in 0..v.len()
        invariant
            forall|j: int| 0 <= j < i ==> v@[j] != c,
    {
        if v[i] == c {
            proof {
                v@.index_of_first_ensures(c);
            }
            return Some(i);
        }
    }
    proof {
        v@.index_of_first_ensures(c);
    }
    None
}

/// Index of the last occurrence of `c` in `v`.
pub fn find_last(v: &Vec<char>, c: char) -> (r: Option<usize>)
    ensures
        r matches Some(i) ==> v@.index_of_last(c) == Some(i as int) && i < v@.len() && v@[i as int]
            == c && forall|j: int| i < j < v@.len() ==> v@[j] != c,
        r is None ==> v@.index_of_last(c) is None && !v@.contains(c),
{
    let mut i = v.len();
    while i > 0
        invariant
            i <= v@.len(),
            forall|j: int| i <= j < v@.len() ==> v@[j] != c,
        decreases i,
    {
        if v[i - 1] == c {
            proof {
                v@.index_of_last_ensures(c);
            }
            return Some(i - 1);
        }
        i = i - 1;
    }
    proof {
        v@.index_of_last_ensures(c);
    }
    None
}

/// Whether `c` occurs in `v`.
pub fn contains_char(v: &Vec<char>, c: char) -> (r: bool)
    ensures
        r == v@.contains(c),
{
    proof {
        v@.index_of_first_ensures(c);
    }
    find_first(v, c).is_some()
}

// ── Building strings ─────────────────────────────────────────────────────────

/// Calls `String::push`. Its contract is believed, not proved: as the
/// standard library documents, the character is appended at the end.
#[verifier::external_body]
pub(crate) fn push_char(s: &mut String, c: char)
    ensures
        final(s)@ == old(s)@.push(c),
{
    s.push(c);
}

/// A copy of `s` as an owned string.
pub fn to_owned_string(s: &str) -> (r: String)
    ensures
        r@ == s@,
{
    let mut r = String::new();
    r.append(s);
    assert(r@ =~= s@);
    r
}

// ── Decimal digits ───────────────────────────────────────────────────────────

pub open spec fn is_digit(c: char) -> bool {
    48 <= c as u32 <= 57
}

pub open spec fn digit_value(c: char) -> nat {
    (c as u32 - 48) as nat
}

/// The character of decimal digit `d` (0..=9).
pub open spec fn digit_char(d: nat) -> char {
    (d + 48) as char
}

/// Decimal representation of `n`, without leading zeros.
pub open spec fn dec(n: nat) -> Seq<char>
    decreases n,
{
    if n < 10 {
        seq![digit_char(n)]
    } else {
        dec(n / 10).push(digit_char(n % 10))
    }
}

/// `s` left-padded with `'0'` to at least `w` characters (`{:0w}`).
pub open spec fn zero_pad(s: Seq<char>, w: nat) -> Seq<char> {
    if s.len() >= w {
        s
    } else {
        Seq::new((w - s.len()) as nat, |i: int| '0') + s
    }
}

/// `n` with a comma between groups of three digits counted from the right.
pub open spec fn grouped(n: nat) -> Seq<char>
    decreases n,
{
    if n < 1000 {
        dec(n)
    } else {
        grouped(n / 1000) + seq![','] + zero_pad(dec(n % 1000), 3)
    }
}

pub fn digit_to_char(d: u64) -> (c: char)
    requires
        d < 10,
    ensures
        c == digit_char(d as nat),
        is_digit(c),
        digit_value(c) == d,
{
    let b = (d as u8) + 48;
    let c = b as char;
    assert(c as u32 == b as u32);
    c
}

/// Appends the decimal representation of `n` to `s`.
pub fn push_decimal(s: &mut String, n: u64)
    ensures
        final(s)@ == old(s)@ + dec(n as nat),
    decreases n,
{
    if n >= 10 {
        push_decimal(s, n / 10);
    }
    push_char(s, digit_to_char(n % 10));
    proof {
        if n >= 10 {
            assert(old(s)@ + dec(n as nat) =~= old(s)@ + dec((n / 10) as nat) + seq![
                digit_char((n % 10) as nat),
            ]);
        } else {
            assert(dec(n as nat) == seq![digit_char(n as nat)]);
        }
    }
}

/// Decimal representation of `n` (`n.to_string()`).
pub fn decimal_string(n: u64) -> (r: String)
    ensures
        r@ == dec(n as nat),
{
    let mut s = String::new();
    push_decimal(&mut s, n);
    assert(s@ =~= dec(n as nat));
    s
}

pub proof fn lemma_dec_len(n: nat)
    ensures
        1 <= dec(n).len(),
        n < 10 ==> dec(n).len() == 1,
        10 <= n < 100 ==> dec(n).len() == 2,
        100 <= n < 1000 ==> dec(n).len() == 3,
        n >= 1000 ==> dec(n).len() > 3,
    decreases n,
{
    if n >= 10 {
        lemma_dec_len(n / 10);
    }
}

/// Appends the decimal representation of `n`, left-padded with zeros to `w` characters.
pub fn push_zero_padded(s: &mut String, n: u64, w: usize)
    ensures
        final(s)@ == old(s)@ + zero_pad(dec(n as nat), w as nat),
{
    let d = decimal_string(n);
    let len = d.as_str().unicode_len();
    let ghost start = s@;
    if len < w {
        let mut k = len;
        while k < w
            invariant
                len <= k <= w,
                len == dec(n as nat).len(),
                s@ == start + Seq::new((k - len) as nat, |i: int| '0'),
            decreases w - k,
        {
            push_char(s, '0');
            assert(Seq::new((k + 1 - len) as nat, |i: int| '0') =~= Seq::new(
                (k - len) as nat,
                |i: int| '0',
            ).push('0'));
            k = k + 1;
        }
    }
    s.append(d.as_str());
    assert(s@ =~= start + zero_pad(dec(n as nat), w as nat));
}

/// Appends `n` with thousands separators.
pub fn push_grouped(s: &mut String, n: u64)
    ensures
        final(s)@ == old(s)@ + grouped(n as nat),
    decreases n,
{
    if n < 1000 {
        push_decimal(s, n);
    } else {
        let ghost start = s@;
        push_grouped(s, n / 1000);
        push_char(s, ',');
        push_zero_padded(s, n % 1000, 3);
        assert(s@ =~= start + grouped(n as nat));
    }
}

/// `n` with thousands separators, e.g. `1,234,567`.
pub fn fmt_int(n: u64) -> (r: String)
    ensures
        r@ == grouped(n as nat),
{
    let mut s = String::new();
    push_grouped(&mut s, n);
    assert(s@ =~= grouped(n as nat));
    s
}

// ── Parsing unsigned decimal integers ────────────────────────────────────────

pub open spec fn all_digits(s: Seq<char>) -> bool {
    forall|i: int| 0 <= i < s.len() ==> is_digit(#[trigger] s[i])
}

/// Value of a string of decimal digits.
pub open spec fn digits_value(s: Seq<char>) -> nat
    decreases s.len(),
{
    if s.len() == 0 {
        0
    } else {
        digits_value(s.drop_last()) * 10 + digit_value(s.last())
    }
}

/// The digits of an unsigned integer literal: one leading `+` is allowed.
pub open spec fn unsigned_digits(s: Seq<char>) -> Seq<char> {
    if s.len() > 0 && s[0] == '+' {
        s.drop_first()
    } else {
        s
    }
}

/// What `str::parse` gives for an unsigned integer type whose largest value is `max`.
pub open spec fn parse_unsigned(s: Seq<char>, max: nat) -> Option<nat> {
    let d = unsigned_digits(s);
    if d.len() > 0 && all_digits(d) && digits_value(d) <= max {
        Some(digits_value(d))
    } else {
        None
    }
}

proof fn lemma_digits_value_prefix(s: Seq<char>, k: int)
    requires
        all_digits(s),
        0 <= k <= s.len(),
    ensures
        digits_value(s.take(k)) <= digits_value(s),
    decreases s.len(),
{
    if k < s.len() {
        let t = s.drop_last();
        assert(t.take(k) =~= s.take(k));
        lemma_digits_value_prefix(t, k);
    } else {
        assert(s.take(k) =~= s);
    }
}

/// Parses an unsigned decimal integer no greater than `max`, as `str::parse` does.
pub fn parse_unsigned_str(s: &str, max: u64) -> (r: Option<u64>)
    ensures
        r == (match parse_unsigned(s@, max as nat) {
            Some(v) => Some(v as u64),
            None => None,
        }),
{
    let v = chars_of(s);
    let n = v.len();
    let start: usize = if n > 0 && v[0] == '+' {
        1
    } else {
        0
    };
    let ghost d = unsigned_digits(s@);
    assert(d =~= v@.subrange(start as int, n as int));
    if start == n {
        return None;
    }
    let mut acc: u64 = 0;
    let mut i = start;
    assert(v@.subrange(start as int, start as int) =~= Seq::<char>::empty());
    while i < n
        invariant
            start <= i <= n == v@.len(),
            d == v@.subrange(start as int, n as int),
            d == unsigned_digits(s@),
            v@ == s@,
            acc as nat == digits_value(v@.subrange(start as int, i as int)),
            all_digits(v@.subrange(start as int, i as int)),
            acc <= max,
        decreases n - i,
    {
        let c = v[i];
        let u = c as u32;
        let ghost pre = v@.subrange(start as int, i as int);
        let ghost next = v@.subrange(start as int, i + 1);
        assert(next.drop_last() =~= pre);
        if u < 48 || u > 57 {
            assert(d[i - start] == c);
            assert(!is_digit(d[i - start]));
            return None;
        }
        let dv = (u - 48) as u64;
        if dv > max {
            proof {
                assert(digits_value(next) == acc * 10 + dv);
                if all_digits(d) {
                    assert(d.take(i + 1 - start) =~= next);
                    lemma_digits_value_prefix(d, i + 1 - start);
                }
            }
            return None;
        }
        if acc > (max - dv) / 10 {
            proof {
                assert(digits_value(next) == acc * 10 + dv);
                assert(acc * 10 + dv > max) by (nonlinear_arith)
                    requires
                        acc > (max - dv) / 10,
                        dv <= max,
                ;
                if all_digits(d) {
                    assert(d.take(i + 1 - start) =~= next);
                    lemma_digits_value_prefix(d, i + 1 - start);
                }
            }
            return None;
        }
        assert(acc * 10 + dv <= max) by (nonlinear_arith)
            requires
                acc <= (max - dv) / 10,
                dv <= max,
        ;
        acc = acc * 10 + dv;
        assert(all_digits(next)) by {
            assert forall|k: int| 0 <= k < next.len() implies is_digit(#[trigger] next[k]) by {
                if k < pre.len() {
                    assert(next[k] == pre[k]);
                }
            }
        }
        i = i + 1;
    }
    Some(acc)
}

// ── Hexadecimal ──────────────────────────────────────────────────────────────

/// Lower-case hexadecimal digit for `d` (0..=15).
pub open spec fn hex_digit(d: nat) -> char {
    if d < 10 {
        (d + 48) as char
    } else {
        (d + 87) as char
    }
}

/// Lower-case hexadecimal rendering of bytes, two digits per byte (`{:x}` on a digest).
pub open spec fn hex_lower(b: Seq<u8>) -> Seq<char> {
    Seq::new(
        2 * b.len(),
        |i: int|
            if i % 2 == 0 {
                hex_digit((b[i / 2] / 16) as nat)
            } else {
                hex_digit((b[i / 2] % 16) as nat)
            },
    )
}

fn hex_digit_char(d: u8) -> (c: char)
    requires
        d < 16,
    ensures
        c == hex_digit(d as nat),
{
    let b: u8 = if d < 10 {
        d + 48
    } else {
        d + 87
    };
    let c = b as char;
    assert(c as u32 == b as u32);
    c
}

/// Lower-case hexadecimal rendering of `bytes`.
pub fn to_hex_lower(bytes: &[u8]) -> (r: String)
    ensures
        r@ == hex_lower(bytes@),
{
    let mut s = String::new();
    let n = bytes.len();
    for i in 0..n
        invariant
            n == bytes@.len(),
            s@ =~= hex_lower(bytes@.take(i as int)),
    {
        let b = bytes[i];
        let ghost before = s@;
        push_char(&mut s, hex_digit_char(b / 16));
        push_char(&mut s, hex_digit_char(b % 16));
        assert(s@ =~= hex_lower(bytes@.take(i + 1))) by {
            let t = bytes@.take(i + 1);
            assert forall|k: int| 0 <= k < 2 * i implies #[trigger] hex_lower(t)[k] == before[k] by {
                assert(t[k / 2] == bytes@.take(i as int)[k / 2]);
            }
        }
    }
    assert(bytes@.take(n as int) =~= bytes@);
    s
}

} // verus!

verus! {

// ── Laws of the decimal rendering ────────────────────────────────────────────

/// `s` with every `','` removed.
pub open spec fn without_commas(s: Seq<char>) -> Seq<char>
    decreases s.len(),
{
    if s.len() == 0 {
        s
    } else if s.last() == ',' {
        without_commas(s.drop_last())
    } else {
        without_commas(s.drop_last()).push(s.last())
    }
}

proof fn lemma_without_commas_concat(a: Seq<char>, b: Seq<char>)
    ensures
        without_commas(a + b) == without_commas(a) + without_commas(b),
    decreases b.len(),
{
    if b.len() == 0 {
        assert(a + b =~= a);
        assert(without_commas(a) + without_commas(b) =~= without_commas(a));
    } else {
        assert((a + b).drop_last() =~= a + b.drop_last());
        lemma_without_commas_concat(a, b.drop_last());
        if b.last() != ',' {
            assert(without_commas(a) + without_commas(b.drop_last()).push(b.last()) =~= (
            without_commas(a) + without_commas(b.drop_last())).push(b.last()));
        }
    }
}

proof fn lemma_without_commas_digits(s: Seq<char>)
    requires
        all_digits(s),
    ensures
        without_commas(s) == s,
    decreases s.len(),
{
    if s.len() > 0 {
        assert(is_digit(s[s.len() - 1]));
        assert(all_digits(s.drop_last())) by {
            assert forall|i: int| 0 <= i < s.drop_last().len() implies is_digit(
                #[trigger] s.drop_last()[i],
            ) by {
                assert(s.drop_last()[i] == s[i]);
            }
        }
        lemma_without_commas_digits(s.drop_last());
        assert(s.drop_last().push(s.last()) =~= s);
    }
}

/// Every character of `dec(n)` is a digit, the first one is not `+`, and the
/// digits denote `n`.
pub proof fn lemma_dec_digits(n: nat)
    ensures
        all_digits(dec(n)),
        digits_value(dec(n)) == n,
        dec(n).len() > 0,
        dec(n)[0] != '+',
    decreases n,
{
    lemma_digit_char_value(n % 10);
    if n < 10 {
        assert(dec(n).drop_last() =~= Seq::<char>::empty());
        assert(digits_value(dec(n).drop_last()) == 0);
        assert(digits_value(dec(n)) == digit_value(dec(n).last()));
    }
    if n >= 10 {
        lemma_dec_digits(n / 10);
        let d = dec(n);
        assert(d.drop_last() =~= dec(n / 10));
        assert forall|i: int| 0 <= i < d.len() implies is_digit(#[trigger] d[i]) by {
            if i < d.len() - 1 {
                assert(d[i] == dec(n / 10)[i]);
            }
        }
        assert(d[0] == dec(n / 10)[0]);
        assert(d.last() == digit_char(n % 10));
        assert(digits_value(d) == digits_value(dec(n / 10)) * 10 + digit_value(d.last()));
        assert((n / 10) * 10 + n % 10 == n);
    }
}

pub proof fn lemma_digit_char_value(d: nat)
    requires
        d < 10,
    ensures
        digit_char(d) as u32 == d + 48,
        is_digit(digit_char(d)),
        digit_value(digit_char(d)) == d,
{
}

proof fn lemma_digit_char_zero()
    ensures
        digit_char(0) == '0',
{
}

proof fn lemma_zero_pad3(r: nat)
    requires
        r < 1000,
    ensures
        zero_pad(dec(r), 3) == seq![
            digit_char(r / 100),
            digit_char((r / 10) % 10),
            digit_char(r % 10),
        ],
{
    lemma_digit_char_zero();
    if r < 10 {
        assert(zero_pad(dec(r), 3) =~= seq!['0', '0', digit_char(r)]);
    } else if r < 100 {
        assert(dec(r / 10) == seq![digit_char(r / 10)]);
        assert(zero_pad(dec(r), 3) =~= seq!['0', digit_char(r / 10), digit_char(r % 10)]);
    } else {
        assert(r / 10 >= 10);
        assert(r / 10 / 10 == r / 100);
        assert(dec(r / 10 / 10) == seq![digit_char(r / 100)]);
        assert(dec(r / 10) == dec(r / 10 / 10).push(digit_char((r / 10) % 10)));
        assert(dec(r) == dec(r / 10).push(digit_char(r % 10)));
        assert(dec(r).len() == 3);
        assert(zero_pad(dec(r), 3) =~= seq![
            digit_char(r / 100),
            digit_char((r / 10) % 10),
            digit_char(r % 10),
        ]);
    }
}

proof fn lemma_dec_split_thousands(n: nat)
    requires
        n >= 1000,
    ensures
        dec(n) == dec(n / 1000) + zero_pad(dec(n % 1000), 3),
{
    let r = n % 1000;
    assert(n / 10 / 10 == n / 100);
    assert(n / 100 / 10 == n / 1000);
    assert(r / 100 == n / 100 % 10);
    assert((r / 10) % 10 == (n / 10) % 10);
    assert(r % 10 == n % 10);
    lemma_zero_pad3(r);
    assert(dec(n / 10) == dec(n / 100).push(digit_char((n / 10) % 10)));
    assert(dec(n / 100) == dec(n / 1000).push(digit_char((n / 100) % 10)));
    assert(dec(n) =~= dec(n / 1000) + zero_pad(dec(n % 1000), 3));
}

/// Law: removing the separators from the grouped rendering gives back the
/// plain decimal rendering.
pub proof fn law_grouped_is_decimal(n: nat)
    ensures
        without_commas(grouped(n)) == dec(n),
    decreases n,
{
    lemma_dec_digits(n);
    if n < 1000 {
        lemma_without_commas_digits(dec(n));
    } else {
        law_grouped_is_decimal(n / 1000);
        lemma_dec_digits(n % 1000);
        lemma_zero_pad3(n % 1000);
        let p = zero_pad(dec(n % 1000), 3);
        assert(all_digits(p)) by {
            assert forall|i: int| 0 <= i < p.len() implies is_digit(#[trigger] p[i]) by {}
        }
        lemma_without_commas_digits(p);
        lemma_without_commas_concat(grouped(n / 1000) + seq![','], p);
        lemma_without_commas_concat(grouped(n / 1000), seq![',']);
        assert(seq![','].drop_last() =~= Seq::<char>::empty());
        assert(without_commas(seq![',']) =~= Seq::<char>::empty());
        lemma_dec_split_thousands(n);
        assert(without_commas(grouped(n)) =~= dec(n / 1000) + p);
    }
}

/// Law: parsing the decimal rendering of a value gives the value back.
pub proof fn law_parse_decimal_roundtrip(n: nat, max: nat)
    requires
        n <= max,
    ensures
        parse_unsigned(dec(n), max) == Some(n),
{
    lemma_dec_digits(n);
    assert(unsigned_digits(dec(n)) == dec(n));
}

} // verus!

verus! {

// ── Splitting ────────────────────────────────────────────────────────────────

/// The pieces of `s` between occurrences of `c` (what `str::split(c)` yields):
/// always one more piece than there are occurrences.
pub open spec fn split_on(s: Seq<char>, c: char) -> Seq<Seq<char>>
    decreases s.len(),
{
    match s.index_of_first(c) {
        None => seq![s],
        Some(i) => if 0 <= i < s.len() {
            seq![s.take(i)] + split_on(s.skip(i + 1), c)
        } else {
            seq![s]
        },
    }
}

/// The views of a vector of strings.
pub open spec fn strings_view(v: Seq<String>) -> Seq<Seq<char>> {
    v.map_values(|x: String| x@)
}

/// Splits `s` at every `c` (`s.split(c)`).
pub fn split_str(s: &str, c: char) -> (r: Vec<String>)
    ensures
        strings_view(r@) == split_on(s@, c),
{
    let v = chars_of(s);
    let n = v.len();
    let mut out: Vec<String> = Vec::new();
    let mut start: usize = 0;
    let mut k: usize = 0;
    assert(v@.subrange(0, n as int) =~= v@);
    assert(strings_view(out@) =~= Seq::<Seq<char>>::empty());
    while k < n
        invariant
            start <= k <= n == v@.len(),
            v@ == s@,
            split_on(s@, c) == strings_view(out@) + split_on(v@.subrange(start as int, n as int), c),
            forall|j: int| start <= j < k ==> v@[j] != c,
        decreases n - k,
    {
        if v[k] == c {
            let ghost sub = v@.subrange(start as int, n as int);
            proof {
                sub.index_of_first_ensures(c);
                assert(sub[k - start] == c);
                assert(sub.contains(c));
                let f = sub.index_of_first(c).unwrap();
                if f < k - start {
                    assert(sub[f] == v@[start + f]);
                }
                assert(f == k - start);
                assert(sub.take(k - start) =~= v@.subrange(start as int, k as int));
                assert(sub.skip(k - start + 1) =~= v@.subrange(k + 1, n as int));
            }
            let piece = s.substring_char(start, k);
            let ghost before = out@;
            out.push(to_owned_string(piece));
            assert(strings_view(out@) =~= strings_view(before).push(piece@));
            assert(split_on(sub, c) == seq![sub.take(k - start)] + split_on(
                v@.subrange(k + 1, n as int),
                c,
            ));
            assert(split_on(s@, c) =~= strings_view(out@) + split_on(
                v@.subrange(k + 1, n as int),
                c,
            ));
            start = k + 1;
        }
        k = k + 1;
    }
    let ghost sub = v@.subrange(start as int, n as int);
    proof {
        sub.index_of_first_ensures(c);
        assert(!sub.contains(c)) by {
            if sub.contains(c) {
                let j = choose|j: int| 0 <= j < sub.len() && sub[j] == c;
                assert(sub[j] == v@[start + j]);
            }
        }
    }
    let piece = s.substring_char(start, n);
    let ghost before = out@;
    out.push(to_owned_string(piece));
    assert(strings_view(out@) =~= strings_view(before).push(piece@));
    assert(split_on(s@, c) =~= strings_view(out@));
    out
}

/// The text after the last `c` in `s`, or all of `s` when `c` does not occur
/// (what `s.rsplit(c).next()` yields).
pub open spec fn after_last(s: Seq<char>, c: char) -> Seq<char> {
    match s.index_of_last(c) {
        Some(i) => s.skip(i + 1),
        None => s,
    }
}

/// The text after the last `c` in `s` (all of `s` when `c` does not occur).
pub fn after_last_str(s: &str, c: char) -> (r: &str)
    ensures
        r@ == after_last(s@, c),
{
    let v = chars_of(s);
    match find_last(&v, c) {
        Some(i) => {
            let n = v.len();
            let r = s.substring_char(i + 1, n);
            assert(r@ =~= s@.skip(i + 1));
            r
        },
        None => {
            assert(s@.index_of_last(c) is None);
            s
        },
    }
}

} // verus!
