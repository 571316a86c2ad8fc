//! Verified string utilities: equality, prefix tests, decimal rendering and
//! parsing, and the resolution string format `WIDTHxHEIGHT`.

use vstd::prelude::*;
use vstd::string::*;

verus! {

/// Character-for-character equality of two string slices.
pub fn str_eq(a: &str, b: &str) -> (r: bool)
    ensures
        r == (a@ == b@),
{
    let an = a.unicode_len();
    let bn = b.unicode_len();
    if an != bn {
        return false;
    }
    let mut i: usize = 0;
    while i < an
        invariant
            an == a@.len(),
            an == b@.len(),
            i <= an,
            forall|j: int| 0 <= j < i ==> a@[j] == b@[j],
        decreases an - i,
    {
        if a.get_char(i) != b.get_char(i) {
            return false;
        }
        i += 1;
    }
    proof {
        assert(a@ =~= b@);
    }
    true
}

/// `p` is a prefix of `s`.
pub open spec fn spec_starts_with(s: Seq<char>, p: Seq<char>) -> bool {
    p.len() <= s.len() && s.subrange(0, p.len() as int) == p
}

/// Prefix test on string slices.
pub fn str_starts_with(s: &str, p: &str) -> (r: bool)
    ensures
        r == spec_starts_with(s@, p@),
{
    let sn = s.unicode_len();
    let pn = p.unicode_len();
    if pn > sn {
        return false;
    }
    let mut i: usize = 0;
    while i < pn
        invariant
            sn == s@.len(),
            pn == p@.len(),
            pn <= sn,
            i <= pn,
            forall|j: int| 0 <= j < i ==> s@[j] == p@[j],
        decreases pn - i,
    {
        if s.get_char(i) != p.get_char(i) {
            proof {
                assert(s@.subrange(0, pn as int)[i as int] != p@[i as int]);
            }
            return false;
        }
        i += 1;
    }
    proof {
        assert(s@.subrange(0, pn as int) =~= p@);
    }
    true
}

/// The decimal digit character for a value below ten.
pub open spec fn digit_char(d: nat) -> char
    recommends
        d < 10,
{
    if d == 0 {
        '0'
    } else if d == 1 {
        '1'
    } else if d == 2 {
        '2'
    } else if d == 3 {
        '3'
    } else if d == 4 {
        '4'
    } else if d == 5 {
        '5'
    } else if d == 6 {
        '6'
    } else if d == 7 {
        '7'
    } else if d == 8 {
        '8'
    } else {
        '9'
    }
}

/// The decimal rendering of `n`, most significant digit first, no sign and
/// no leading zeros (`0` renders as `"0"`).
pub open spec fn spec_dec_digits(n: nat) -> Seq<char>
    decreases n,
{
    if n < 10 {
        seq![digit_char(n)]
    } else {
        spec_dec_digits(n / 10).push(digit_char(n % 10))
    }
}

/// A decimal digit character.
pub open spec fn is_digit_char(c: char) -> bool {
    c == '0' || c == '1' || c == '2' || c == '3' || c == '4' || c == '5' || c == '6' || c == '7'
        || c == '8' || c == '9'
}

/// The numeric value of a digit character.
pub open spec fn char_digit_val(c: char) -> nat
    recommends
        is_digit_char(c),
{
    if c == '0' {
        0
    } else if c == '1' {
        1
    } else if c == '2' {
        2
    } else if c == '3' {
        3
    } else if c == '4' {
        4
    } else if c == '5' {
        5
    } else if c == '6' {
        6
    } else if c == '7' {
        7
    } else if c == '8' {
        8
    } else {
        9
    }
}

/// Every character of `s` is a decimal digit.
pub open spec fn all_digits(s: Seq<char>) -> bool {
    forall|i: int| 0 <= i < s.len() ==> is_digit_char(s[i])
}

/// The value of a digit string read as a decimal number.
pub open spec fn dec_val(s: Seq<char>) -> nat
    decreases s.len(),
{
    if s.len() == 0 {
        0
    } else {
        dec_val(s.drop_last()) * 10 + char_digit_val(s.last())
    }
}

fn digit_str(d: u64) -> (r: &'static str)
    requires
        d < 10,
    ensures
        r@ == seq![digit_char(d as nat)],
{
    proof {
        reveal_strlit("0");
        reveal_strlit("1");
        reveal_strlit("2");
        reveal_strlit("3");
        reveal_strlit("4");
        reveal_strlit("5");
        reveal_strlit("6");
        reveal_strlit("7");
        reveal_strlit("8");
        reveal_strlit("9");
    }
    let r: &'static str = if d == 0 {
        "0"
    } else if d == 1 {
        "1"
    } else if d == 2 {
        "2"
    } else if d == 3 {
        "3"
    } else if d == 4 {
        "4"
    } else if d == 5 {
        "5"
    } else if d == 6 {
        "6"
    } else if d == 7 {
        "7"
    } else if d == 8 {
        "8"
    } else {
        "9"
    };
    proof {
        assert(r@ =~= seq![digit_char(d as nat)]);
    }
    r
}

/// Renders `n` in decimal.
pub fn u64_to_dec(n: u64) -> (r: String)
    ensures
        r@ == spec_dec_digits(n as nat),
    decreases n,
{
    if n < 10 {
        digit_str(n).to_owned()
    } else {
        let mut s = u64_to_dec(n / 10);
        s.append(digit_str(n % 10));
        proof {
            assert(s@ =~= spec_dec_digits((n / 10) as nat).push(digit_char((n % 10) as nat)));
        }
        s
    }
}

/// Renders `n` in decimal.
pub fn u32_to_dec(n: u32) -> (r: String)
    ensures
        r@ == spec_dec_digits(n as nat),
{
    u64_to_dec(n as u64)
}

/// The decimal rendering of a number is nonempty, consists of digits only,
/// and reads back to the number it was made from.
pub proof fn lemma_dec_digits_val(n: nat)
    ensures
        spec_dec_digits(n).len() >= 1,
        all_digits(spec_dec_digits(n)),
        dec_val(spec_dec_digits(n)) == n,
    decreases n,
{
    if n < 10 {
        let s = spec_dec_digits(n);
        assert(s == seq![digit_char(n)]);
        assert(s.drop_last() =~= Seq::<char>::empty());
        assert(dec_val(Seq::<char>::empty()) == 0);
        assert(s.last() == digit_char(n));
        assert(dec_val(s) == dec_val(s.drop_last()) * 10 + char_digit_val(s.last()));
    } else {
        lemma_dec_digits_val(n / 10);
        let p = spec_dec_digits(n / 10);
        let s = spec_dec_digits(n);
        assert(s == p.push(digit_char(n % 10)));
        assert(s.drop_last() =~= p);
        assert(s.last() == digit_char(n % 10));
        assert(dec_val(s) == dec_val(p) * 10 + char_digit_val(digit_char(n % 10)));
        assert(char_digit_val(digit_char(n % 10)) == n % 10);
        vstd::arithmetic::div_mod::lemma_fundamental_div_mod(n as int, 10);
        assert(forall|i: int| 0 <= i < s.len() ==> is_digit_char(s[i]));
    }
}

/// `needle` occurs in `hay` at position `k`.
pub open spec fn spec_occurs_at(hay: Seq<char>, needle: Seq<char>, k: int) -> bool {
    &&& 0 <= k
    &&& k + needle.len() <= hay.len()
    &&& hay.subrange(k, k + needle.len() as int) == needle
}

/// `needle` occurs somewhere in `hay`.
pub open spec fn spec_contains_sub(hay: Seq<char>, needle: Seq<char>) -> bool {
    exists|k: int| spec_occurs_at(hay, needle, k)
}

/// Whether `needle` occurs at position `k` of `hay`.
fn occurs_at(hay: &str, needle: &str, k: usize) -> (r: bool)
    requires
        k + needle@.len() <= hay@.len(),
    ensures
        r == spec_occurs_at(hay@, needle@, k as int),
{
    let hn = hay.unicode_len();
    let nn = needle.unicode_len();
    let mut i: usize = 0;
    while i < nn
        invariant
            hn == hay@.len(),
            nn == needle@.len(),
            k + nn <= hn,
            i <= nn,
            forall|j: int| 0 <= j < i ==> hay@[k + j] == needle@[j],
        decreases nn - i,
    {
        if hay.get_char(k + i) != needle.get_char(i) {
            proof {
                assert(hay@.subrange(k as int, k + nn as int)[i as int] != needle@[i as int]);
            }
            return false;
        }
        i += 1;
    }
    proof {
        assert(hay@.subrange(k as int, k + nn as int) =~= needle@);
    }
    true
}

/// Substring search: whether `needle` occurs anywhere in `hay`.
pub fn str_contains_sub(hay: &str, needle: &str) -> (r: bool)
    ensures
        r == spec_contains_sub(hay@, needle@),
{
    let hn = hay.unicode_len();
    let nn = needle.unicode_len();
    if nn > hn {
        return false;
    }
    if nn == 0 {
        proof {
            assert(hay@.subrange(0, 0) =~= needle@);
            assert(spec_occurs_at(hay@, needle@, 0));
        }
        return true;
    }
    let mut k: usize = 0;
    while k <= hn - nn
        invariant
            hn == hay@.len(),
            nn == needle@.len(),
            1 <= nn <= hn,
            k <= hn - nn + 1,
            forall|j: int| 0 <= j < k ==> !spec_occurs_at(hay@, needle@, j),
        decreases hn - nn + 1 - k,
    {
        if occurs_at(hay, needle, k) {
            return true;
        }
        k += 1;
    }
    false
}

/// A Unicode whitespace character: the `White_Space` property's code
/// points, as `char::is_whitespace` recognizes them.
pub open spec fn is_space_char(c: char) -> bool {
    ||| c == '\t'
    ||| c == '\n'
    ||| c == '\u{b}'
    ||| c == '\u{c}'
    ||| c == '\r'
    ||| c == ' '
    ||| c == '\u{85}'
    ||| c == '\u{a0}'
    ||| c == '\u{1680}'
    ||| c == '\u{2000}'
    ||| c == '\u{2001}'
    ||| c == '\u{2002}'
    ||| c == '\u{2003}'
    ||| c == '\u{2004}'
    ||| c == '\u{2005}'
    ||| c == '\u{2006}'
    ||| c == '\u{2007}'
    ||| c == '\u{2008}'
    ||| c == '\u{2009}'
    ||| c == '\u{200a}'
    ||| c == '\u{2028}'
    ||| c == '\u{2029}'
    ||| c == '\u{202f}'
    ||| c == '\u{205f}'
    ||| c == '\u{3000}'
}

/// Every character of `s` is whitespace (true of the empty string).
pub open spec fn spec_is_blank(s: Seq<char>) -> bool {
    forall|i: int| 0 <= i < s.len() ==> is_space_char(s[i])
}

/// Whether `s` holds nothing but whitespace.
pub fn is_blank(s: &str) -> (r: bool)
    ensures
        r == spec_is_blank(s@),
{
    let n = s.unicode_len();
    let mut i: usize = 0;
    while i < n
        invariant
            n == s@.len(),
            i <= n,
            forall|j: int| 0 <= j < i ==> is_space_char(s@[j]),
        decreases n - i,
    {
        let c = s.get_char(i);
        let ws = match c {
            '\t' | '\n' | '\u{b}' | '\u{c}' | '\r' | ' ' => true,
            '\u{85}' | '\u{a0}' | '\u{1680}' => true,
            '\u{2000}' | '\u{2001}' | '\u{2002}' | '\u{2003}' | '\u{2004}' | '\u{2005}'
            | '\u{2006}' | '\u{2007}' | '\u{2008}' | '\u{2009}' | '\u{200a}' => true,
            '\u{2028}' | '\u{2029}' | '\u{202f}' | '\u{205f}' | '\u{3000}' => true,
            _ => false,
        };
        if !ws {
            return false;
        }
        i += 1;
    }
    true
}

/// Reading a prefix of a digit string never yields more than the whole.
pub proof fn lemma_dec_val_prefix(s: Seq<char>, i: int)
    requires
        0 <= i <= s.len(),
    ensures
        dec_val(s.subrange(0, i)) <= dec_val(s),
    decreases s.len(),
{
    if i == s.len() {
        assert(s.subrange(0, i) =~= s);
    } else {
        let p = s.drop_last();
        assert(s.subrange(0, i) =~= p.subrange(0, i));
        lemma_dec_val_prefix(p, i);
        assert(dec_val(s) == dec_val(p) * 10 + char_digit_val(s.last()));
        assert(dec_val(p) * 10 >= dec_val(p)) by (nonlinear_arith);
    }
}

/// What `spec_parse_u32` accepts: a nonempty all-digit string whose value
/// fits in a `u32`.
pub open spec fn spec_parse_u32(s: Seq<char>) -> Option<u32> {
    if s.len() >= 1 && all_digits(s) && dec_val(s) <= u32::MAX {
        Some(dec_val(s) as u32)
    } else {
        None
    }
}

fn char_digit(c: char) -> (r: Option<u32>)
    ensures
        r is Some <==> is_digit_char(c),
        r is Some ==> r->0 == char_digit_val(c) && r->0 < 10,
{
    match c {
        '0' => Some(0),
        '1' => Some(1),
        '2' => Some(2),
        '3' => Some(3),
        '4' => Some(4),
        '5' => Some(5),
        '6' => Some(6),
        '7' => Some(7),
        '8' => Some(8),
        '9' => Some(9),
        _ => None,
    }
}

/// Parses a nonempty string of decimal digits into a `u32`; rejects any
/// other character, the empty string, and values over `u32::MAX`.
pub fn parse_u32_dec(s: &str) -> (r: Option<u32>)
    ensures
        r == spec_parse_u32(s@),
{
    let n = s.unicode_len();
    if n == 0 {
        return None;
    }
    let mut acc: u32 = 0;
    let mut i: usize = 0;
    while i < n
        invariant
            n == s@.len(),
            n >= 1,
            i <= n,
            all_digits(s@.subrange(0, i as int)),
            acc == dec_val(s@.subrange(0, i as int)),
        decreases n - i,
    {
        let c = s.get_char(i);
        let d = match char_digit(c) {
            Some(d) => d,
            None => {
                proof {
                    assert(!is_digit_char(s@[i as int]));
                }
                return None;
            },
        };
        if acc > (u32::MAX - d) / 10 {
            proof {
                let p = s@.subrange(0, i + 1);
                assert(p.drop_last() =~= s@.subrange(0, i as int));
                assert(p.last() == s@[i as int]);
                assert(dec_val(p) == acc * 10 + char_digit_val(s@[i as int]));
                vstd::arithmetic::div_mod::lemma_fundamental_div_mod(
                    (u32::MAX - d) as int,
                    10,
                );
                assert(acc * 10 + d > u32::MAX);
                lemma_dec_val_prefix(s@, i + 1);
            }
            return None;
        }
        proof {
            vstd::arithmetic::div_mod::lemma_fundamental_div_mod((u32::MAX - d) as int, 10);
            assert(acc * 10 + d <= u32::MAX);
            let p = s@.subrange(0, i + 1);
            assert(p.drop_last() =~= s@.subrange(0, i as int));
            assert(p.last() == s@[i as int]);
            assert(dec_val(p) == dec_val(s@.subrange(0, i as int)) * 10 + char_digit_val(
                s@[i as int],
            ));
        }
        acc = acc * 10 + d;
        i += 1;
    }
    proof {
        assert(s@.subrange(0, n as int) =~= s@);
    }
    Some(acc)
}

/// The canonical resolution string for a pair: `"{w}x{h}"`.
pub open spec fn spec_format_resolution(w: nat, h: nat) -> Seq<char> {
    spec_dec_digits(w) + seq!['x'] + spec_dec_digits(h)
}

/// Renders a width and height as `"{w}x{h}"`.
pub fn format_resolution(w: u32, h: u32) -> (r: String)
    ensures
        r@ == spec_format_resolution(w as nat, h as nat),
{
    proof {
        reveal_strlit("x");
    }
    let r = u32_to_dec(w).concat("x").concat(u32_to_dec(h).as_str());
    proof {
        assert(r@ =~= spec_format_resolution(w as nat, h as nat));
    }
    r
}

/// `i` is the position of the only occurrence of `c` in `s`.
pub open spec fn is_sole_index_of(s: Seq<char>, c: char, i: int) -> bool {
    &&& 0 <= i < s.len()
    &&& s[i] == c
    &&& forall|j: int| 0 <= j < s.len() && j != i ==> s[j] != c
}

/// What parsing a resolution string yields: the string must contain exactly
/// one `'x'`, and both sides of it must parse as decimal `u32` values.
pub open spec fn spec_parse_resolution(s: Seq<char>) -> Option<(u32, u32)> {
    if exists|i: int| is_sole_index_of(s, 'x', i) {
        let i = choose|i: int| is_sole_index_of(s, 'x', i);
        match (spec_parse_u32(s.subrange(0, i)), spec_parse_u32(s.subrange(i + 1, s.len() as int))) {
            (Some(w), Some(h)) => Some((w, h)),
            _ => None,
        }
    } else {
        None
    }
}

/// Position of the first occurrence of `c` in `s` at or after `from`.
fn find_char(s: &str, from: usize, c: char) -> (r: Option<usize>)
    requires
        from <= s@.len(),
    ensures
        match r {
            Some(i) => from <= i < s@.len() && s@[i as int] == c && forall|j: int|
                from <= j < i ==> s@[j] != c,
            None => forall|j: int| from <= j < s@.len() ==> s@[j] != c,
        },
{
    let n = s.unicode_len();
    let mut i: usize = from;
    while i < n
        invariant
            n == s@.len(),
            from <= i <= n,
            forall|j: int| from <= j < i ==> s@[j] != c,
        decreases n - i,
    {
        if s.get_char(i) == c {
            return Some(i);
        }
        i += 1;
    }
    None
}

/// Splits a `"{w}x{h}"` string at its single `'x'` and parses both sides.
pub fn parse_resolution(s: &str) -> (r: Option<(u32, u32)>)
    ensures
        r == spec_parse_resolution(s@),
{
    let n = s.unicode_len();
    let i = match find_char(s, 0, 'x') {
        Some(i) => i,
        None => {
            proof {
                assert(forall|k: int| !is_sole_index_of(s@, 'x', k));
            }
            return None;
        },
    };
    match find_char(s, i + 1, 'x') {
        Some(j) => {
            proof {
                assert forall|k: int| !is_sole_index_of(s@, 'x', k) by {
                    if is_sole_index_of(s@, 'x', k) {
                        assert(s@[i as int] == 'x' && s@[j as int] == 'x' && i != j);
                    }
                }
            }
            return None;
        },
        None => {},
    }
    proof {
        assert(is_sole_index_of(s@, 'x', i as int));
        let w = choose|k: int| is_sole_index_of(s@, 'x', k);
        assert(s@[w] == 'x');
        assert(w == i as int);
    }
    let left = s.substring_char(0, i);
    let right = s.substring_char(i + 1, n);
    match (parse_u32_dec(left), parse_u32_dec(right)) {
        (Some(w), Some(h)) => Some((w, h)),
        _ => None,
    }
}

/// Rendering a pair as `"{w}x{h}"` and parsing it back yields the pair.
///
/// This holds for every pair, so every canonical resolution string
/// round-trips through parse and reformat.
pub proof fn lemma_resolution_round_trip(w: u32, h: u32)
    ensures
        spec_parse_resolution(spec_format_resolution(w as nat, h as nat)) == Some((w, h)),
{
    lemma_dec_digits_val(w as nat);
    lemma_dec_digits_val(h as nat);
    let l = spec_dec_digits(w as nat);
    let r = spec_dec_digits(h as nat);
    let s = spec_format_resolution(w as nat, h as nat);
    let m = l.len() as int;
    assert(s[m] == 'x');
    assert forall|j: int| 0 <= j < s.len() && j != m implies s[j] != 'x' by {
        if j < m {
            assert(s[j] == l[j]);
            assert(is_digit_char(l[j]));
        } else {
            assert(s[j] == r[j - m - 1]);
            assert(is_digit_char(r[j - m - 1]));
        }
    }
    assert(is_sole_index_of(s, 'x', m));
    let i = choose|i: int| is_sole_index_of(s, 'x', i);
    assert(s[i] == 'x');
    assert(i == m);
    assert(s.subrange(0, m) =~= l);
    assert(s.subrange(m + 1, s.len() as int) =~= r);
    assert(spec_parse_u32(l) == Some(w));
    assert(spec_parse_u32(r) == Some(h));
}

} // verus!
