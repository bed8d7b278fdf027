//! Verified wire helpers: decimal rendering of counts and the completion
//! payload's format.
//!
//! The downstream registry answers a forwarded call with a small record,
//! `{"num_tokens": N}`, rendered in the host's JSON convention.  The
//! decoder accepts exactly that shape — optional blanks between tokens, a
//! decimal count without sign or leading zeros that fits an unsigned
//! 64-bit integer, and nothing after the closing brace — and answers
//! nothing on any other input: a malformed payload degrades to "no
//! observation", never to an error.

use vstd::prelude::*;
use vstd::string::StringExecFns;

verus! {

/// The character spelling one decimal digit.
pub open spec fn digit_char(d: int) -> char {
    if d == 0 {
        '0'
    } else if d == 1 {
        '1'
    } else if d == 2 {
        '2'
    } else if d == 3 {
        '3'
    } else if d == 4 {
        '4'
    } else if d == 5 {
        '5'
    } else if d == 6 {
        '6'
    } else if d == 7 {
        '7'
    } else if d == 8 {
        '8'
    } else {
        '9'
    }
}

/// The decimal spelling of a non-negative integer, most significant digit
/// first, without sign or leading zeros.
pub open spec fn dec_str(n: int) -> Seq<char>
    recommends
        n >= 0,
    decreases n,
{
    if n < 10 {
        seq![digit_char(n)]
    } else {
        dec_str(n / 10).push(digit_char(n % 10))
    }
}

/// The decimal spelling of a non-negative integer as ASCII bytes.
pub open spec fn dec_bytes(n: int) -> Seq<u8>
    recommends
        n >= 0,
    decreases n,
{
    if n < 10 {
        seq![(48 + n) as u8]
    } else {
        dec_bytes(n / 10).push((48 + n % 10) as u8)
    }
}

fn digit_to_str(d: u128) -> (s: &'static str)
    requires
        d < 10,
    ensures
        s@ =~= seq![digit_char(d as int)],
{
    proof {
        reveal_strlit("0");
        reveal_strlit("1");
        reveal_strlit("2");
        reveal_strlit("3");
        reveal_strlit("4");
        reveal_strlit("5");
        reveal_strlit("6");
        reveal_strlit("7");
        reveal_strlit("8");
        reveal_strlit("9");
    }
    match d {
        0 => "0",
        1 => "1",
        2 => "2",
        3 => "3",
        4 => "4",
        5 => "5",
        6 => "6",
        7 => "7",
        8 => "8",
        _ => "9",
    }
}

/// Renders an amount in decimal, as event attributes carry it.
pub fn u128_to_dec_string(n: u128) -> (s: String)
    ensures
        s@ == dec_str(n as int),
    decreases n,
{
    if n < 10 {
        digit_to_str(n).to_owned()
    } else {
        let mut s = u128_to_dec_string(n / 10);
        s.append(digit_to_str(n % 10));
        proof {
            assert(s@ =~= dec_str(n as int / 10).push(digit_char(n as int % 10)));
        }
        s
    }
}

/// Renders a count in decimal, as event attributes carry it.
pub fn u64_to_dec_string(n: u64) -> (s: String)
    ensures
        s@ == dec_str(n as int),
{
    u128_to_dec_string(n as u128)
}

fn u64_to_dec_bytes(n: u64) -> (v: Vec<u8>)
    ensures
        v@ == dec_bytes(n as int),
    decreases n,
{
    if n < 10 {
        let mut v: Vec<u8> = Vec::new();
        v.push(48 + n as u8);
        proof {
            assert(v@ =~= dec_bytes(n as int));
        }
        v
    } else {
        let mut v = u64_to_dec_bytes(n / 10);
        v.push(48 + (n % 10) as u8);
        proof {
            assert(v@ =~= dec_bytes(n as int / 10).push((48 + n as int % 10) as u8));
        }
        v
    }
}

/// A blank the decoder tolerates between tokens: space, tab, line feed,
/// carriage return.
pub open spec fn is_json_ws(b: u8) -> bool {
    b == 32 || b == 9 || b == 10 || b == 13
}

/// An ASCII decimal digit.
pub open spec fn is_json_digit(b: u8) -> bool {
    48 <= b <= 57
}

/// The first position at or after `i` holding something other than a blank
/// (or the end of the input).
pub open spec fn skip_ws(s: Seq<u8>, i: int) -> int
    decreases s.len() - i,
{
    if 0 <= i < s.len() && is_json_ws(s[i]) {
        skip_ws(s, i + 1)
    } else {
        i
    }
}

/// The first position at or after `i` holding something other than a digit
/// (or the end of the input).
pub open spec fn digits_end(s: Seq<u8>, i: int) -> int
    decreases s.len() - i,
{
    if 0 <= i < s.len() && is_json_digit(s[i]) {
        digits_end(s, i + 1)
    } else {
        i
    }
}

/// The value of the digit run `s[i..j]`, read most significant first.
pub open spec fn digits_val(s: Seq<u8>, i: int, j: int) -> int
    decreases j - i,
{
    if i >= j {
        0
    } else {
        digits_val(s, i, j - 1) * 10 + (s[j - 1] - 48)
    }
}

/// The payload's key, quotes included: `"num_tokens"`.
pub open spec fn json_key() -> Seq<u8> {
    seq![34u8, 110u8, 117u8, 109u8, 95u8, 116u8, 111u8, 107u8, 101u8, 110u8, 115u8, 34u8]
}

/// Everything of the canonical encoding before the count's digits:
/// `{"num_tokens":`.
pub open spec fn json_prefix() -> Seq<u8> {
    seq![123u8] + json_key() + seq![58u8]
}

/// The canonical encoding of a count: `{"num_tokens":` digits `}`.
pub open spec fn spec_encode_num_tokens(n: int) -> Seq<u8>
    recommends
        n >= 0,
{
    json_prefix() + dec_bytes(n) + seq![125u8]
}

/// What the decoder accepts and the count it reads; anything else decodes
/// to nothing.
pub open spec fn spec_decode_num_tokens(s: Seq<u8>) -> Option<u64> {
    let i0 = skip_ws(s, 0);
    if i0 >= s.len() || s[i0] != 123u8 {
        None
    } else {
        let i1 = skip_ws(s, i0 + 1);
        if i1 + 12 > s.len() || s.subrange(i1, i1 + 12) != json_key() {
            None
        } else {
            let i2 = skip_ws(s, i1 + 12);
            if i2 >= s.len() || s[i2] != 58u8 {
                None
            } else {
                let i3 = skip_ws(s, i2 + 1);
                let j = digits_end(s, i3);
                if j == i3 || (s[i3] == 48u8 && j > i3 + 1) {
                    None
                } else {
                    let value = digits_val(s, i3, j);
                    if value > u64::MAX {
                        None
                    } else {
                        let i4 = skip_ws(s, j);
                        if i4 >= s.len() || s[i4] != 125u8 {
                            None
                        } else if skip_ws(s, i4 + 1) != s.len() {
                            None
                        } else {
                            Some(value as u64)
                        }
                    }
                }
            }
        }
    }
}

/// Encodes a count the way the downstream registry's canonical answer
/// carries it.
pub fn encode_num_tokens(n: u64) -> (v: Vec<u8>)
    ensures
        v@ == spec_encode_num_tokens(n as int),
{
    let mut v: Vec<u8> = Vec::new();
    v.push(123);
    v.push(34);
    v.push(110);
    v.push(117);
    v.push(109);
    v.push(95);
    v.push(116);
    v.push(111);
    v.push(107);
    v.push(101);
    v.push(110);
    v.push(115);
    v.push(34);
    v.push(58);
    proof {
        assert(v@ =~= json_prefix());
    }
    let mut digits = u64_to_dec_bytes(n);
    v.append(&mut digits);
    v.push(125);
    proof {
        assert(v@ =~= spec_encode_num_tokens(n as int));
    }
    v
}

fn key_byte(k: usize) -> (b: u8)
    requires
        k < 12,
    ensures
        b == json_key()[k as int],
{
    match k {
        0 => 34,
        1 => 110,
        2 => 117,
        3 => 109,
        4 => 95,
        5 => 116,
        6 => 111,
        7 => 107,
        8 => 101,
        9 => 110,
        10 => 115,
        _ => 34,
    }
}

fn skip_ws_exec(s: &[u8], from: usize) -> (r: usize)
    requires
        from <= s@.len(),
    ensures
        r == skip_ws(s@, from as int),
        from <= r <= s@.len(),
        r < s@.len() ==> !is_json_ws(s@[r as int]),
{
    let mut i: usize = from;
    while i < s.len() && is_json_ws_exec(s[i])
        invariant
            from <= i <= s@.len(),
            skip_ws(s@, from as int) == skip_ws(s@, i as int),
        decreases s@.len() - i,
    {
        i = i + 1;
    }
    i
}

#[inline]
fn is_json_ws_exec(b: u8) -> (r: bool)
    ensures
        r == is_json_ws(b),
{
    b == 32 || b == 9 || b == 10 || b == 13
}

#[inline]
fn is_json_digit_exec(b: u8) -> (r: bool)
    ensures
        r == is_json_digit(b),
{
    48 <= b && b <= 57
}

fn digits_end_exec(s: &[u8], from: usize) -> (r: usize)
    requires
        from <= s@.len(),
    ensures
        r == digits_end(s@, from as int),
        from <= r <= s@.len(),
        r < s@.len() ==> !is_json_digit(s@[r as int]),
        forall|k: int| from <= k < r ==> is_json_digit(s@[k]),
{
    let mut i: usize = from;
    while i < s.len() && is_json_digit_exec(s[i])
        invariant
            from <= i <= s@.len(),
            digits_end(s@, from as int) == digits_end(s@, i as int),
            forall|k: int| from <= k < i ==> is_json_digit(s@[k]),
        decreases s@.len() - i,
    {
        i = i + 1;
    }
    i
}

/// Powers of ten.
pub open spec fn pow10(k: nat) -> int
    decreases k,
{
    if k == 0 {
        1
    } else {
        10 * pow10((k - 1) as nat)
    }
}

proof fn lemma_pow10_vals()
    ensures
        pow10(20) == 100_000_000_000_000_000_000,
        pow10(21) == 1_000_000_000_000_000_000_000,
{
    reveal_with_fuel(pow10, 22);
}

proof fn lemma_pow10_pos(k: nat)
    ensures
        pow10(k) >= 1,
    decreases k,
{
    if k > 0 {
        lemma_pow10_pos((k - 1) as nat);
    }
}

proof fn lemma_pow10_mono(a: nat, b: nat)
    requires
        a <= b,
    ensures
        1 <= pow10(a) <= pow10(b),
    decreases b,
{
    lemma_pow10_pos(a);
    if a < b {
        lemma_pow10_mono(a, (b - 1) as nat);
        lemma_pow10_pos((b - 1) as nat);
    }
}

/// The value of a digit run is bounded by a power of ten in its length.
proof fn lemma_digits_val_bounds(s: Seq<u8>, i: int, j: int)
    requires
        i <= j,
        forall|k: int| i <= k < j ==> is_json_digit(#[trigger] s[k]),
    ensures
        0 <= digits_val(s, i, j) < pow10((j - i) as nat),
    decreases j - i,
{
    if i >= j {
    } else {
        lemma_digits_val_bounds(s, i, j - 1);
        assert(is_json_digit(s[j - 1]));
        assert(pow10((j - i) as nat) == 10 * pow10((j - i - 1) as nat));
    }
}

/// A digit run without a leading zero is at least a power of ten in its
/// length.
proof fn lemma_digits_val_lower(s: Seq<u8>, i: int, j: int)
    requires
        i < j,
        forall|k: int| i <= k < j ==> is_json_digit(#[trigger] s[k]),
        s[i] != 48,
    ensures
        digits_val(s, i, j) >= pow10((j - i - 1) as nat),
    decreases j - i,
{
    if j == i + 1 {
        assert(is_json_digit(s[i]));
        assert(digits_val(s, i, i) == 0);
        assert(digits_val(s, i, j) == s[i] - 48);
    } else {
        lemma_digits_val_lower(s, i, j - 1);
        assert(is_json_digit(s[j - 1]));
        assert(pow10((j - i - 1) as nat) == 10 * pow10((j - i - 2) as nat));
        assert(digits_val(s, i, j) == digits_val(s, i, j - 1) * 10 + (s[j - 1] - 48));
    }
}

/// The decimal spelling holds only digits and at least one of them.
proof fn lemma_dec_bytes_digits(n: int)
    requires
        n >= 0,
    ensures
        dec_bytes(n).len() >= 1,
        forall|k: int| 0 <= k < dec_bytes(n).len() ==> is_json_digit(#[trigger] dec_bytes(n)[k]),
    decreases n,
{
    if n >= 10 {
        lemma_dec_bytes_digits(n / 10);
    }
}

/// A positive number's decimal spelling does not start with a zero.
proof fn lemma_dec_bytes_no_leading_zero(n: int)
    requires
        n >= 1,
    ensures
        dec_bytes(n)[0] != 48,
    decreases n,
{
    if n >= 10 {
        lemma_dec_bytes_no_leading_zero(n / 10);
        lemma_dec_bytes_digits(n / 10);
    }
}

/// Reading a decimal spelling back yields the number it spells.
proof fn lemma_digits_val_of_dec_bytes(s: Seq<u8>, i: int, n: int)
    requires
        n >= 0,
        0 <= i,
        i + dec_bytes(n).len() <= s.len(),
        s.subrange(i, i + dec_bytes(n).len() as int) == dec_bytes(n),
    ensures
        digits_val(s, i, i + dec_bytes(n).len() as int) == n,
    decreases n,
{
    let len = dec_bytes(n).len() as int;
    if n < 10 {
        assert(s.subrange(i, i + 1)[0] == s[i]);
        assert(s[i] == (48 + n) as u8);
        assert(digits_val(s, i, i) == 0);
        assert(digits_val(s, i, i + 1) == s[i] - 48);
    } else {
        let shorter = dec_bytes(n / 10);
        assert(dec_bytes(n) == shorter.push((48 + n % 10) as u8));
        assert(len == shorter.len() + 1);
        assert forall|k: int| 0 <= k < shorter.len() implies s.subrange(
            i,
            i + shorter.len() as int,
        )[k] == shorter[k] by {
            assert(s.subrange(i, i + len)[k] == dec_bytes(n)[k]);
        }
        assert(s.subrange(i, i + shorter.len() as int) =~= shorter);
        lemma_digits_val_of_dec_bytes(s, i, n / 10);
        assert(s.subrange(i, i + len)[len - 1] == dec_bytes(n)[len - 1]);
        assert(s[i + len - 1] == (48 + n % 10) as u8);
        assert(digits_val(s, i, i + len) == digits_val(s, i, i + len - 1) * 10 + (s[i + len - 1]
            - 48));
        assert(digits_val(s, i, i + len) == (n / 10) * 10 + n % 10);
    }
}

/// A run of digits bounded by a non-digit ends exactly at that bound.
proof fn lemma_digits_end_of_run(s: Seq<u8>, i: int, j: int)
    requires
        0 <= i <= j <= s.len(),
        forall|k: int| i <= k < j ==> is_json_digit(#[trigger] s[k]),
        j == s.len() || !is_json_digit(s[j]),
    ensures
        digits_end(s, i) == j,
    decreases j - i,
{
    if i < j {
        lemma_digits_end_of_run(s, i + 1, j);
    }
}

/// Decodes the downstream registry's completion payload; answers nothing
/// on anything but a well-formed count.
#[verifier::loop_isolation(false)]
pub fn decode_num_tokens(s: &[u8]) -> (r: Option<u64>)
    ensures
        r == spec_decode_num_tokens(s@),
{
    let n = s.len();
    let i0 = skip_ws_exec(s, 0);
    if i0 == n || s[i0] != 123 {
        return None;
    }
    let i1 = skip_ws_exec(s, i0 + 1);
    if n < 12 || i1 > n - 12 {
        return None;
    }
    let mut k: usize = 0;
    while k < 12
        invariant
            i1 + 12 <= n,
            n == s@.len(),
            0 <= k <= 12,
            forall|m: int| 0 <= m < k ==> s@[i1 + m] == #[trigger] json_key()[m],
        decreases 12 - k,
    {
        if s[i1 + k] != key_byte(k) {
            proof {
                let sub = s@.subrange(i1 as int, i1 as int + 12);
                assert(sub[k as int] == s@[i1 + k]);
                assert(sub[k as int] != json_key()[k as int]);
                assert(sub != json_key());
            }
            return None;
        }
        k = k + 1;
    }
    proof {
        let sub = s@.subrange(i1 as int, i1 as int + 12);
        assert forall|m: int| 0 <= m < 12 implies sub[m] == json_key()[m] by {
            assert(sub[m] == s@[i1 + m]);
        }
        assert(sub =~= json_key());
    }
    let i2 = skip_ws_exec(s, i1 + 12);
    if i2 == n || s[i2] != 58 {
        return None;
    }
    let i3 = skip_ws_exec(s, i2 + 1);
    let j = digits_end_exec(s, i3);
    if j == i3 || (s[i3] == 48 && j > i3 + 1) {
        return None;
    }
    proof {
        lemma_pow10_vals();
    }
    if j - i3 > 20 {
        // Too many digits: the value cannot fit an unsigned 64-bit count.
        proof {
            lemma_digits_val_lower(s@, i3 as int, j as int);
            lemma_pow10_mono(20, (j - i3 - 1) as nat);
        }
        return None;
    }
    let mut value: u128 = 0;
    let mut p: usize = i3;
    while p < j
        invariant
            i3 <= p <= j,
            j - i3 <= 20,
            j <= s@.len(),
            forall|m: int| i3 <= m < j ==> is_json_digit(#[trigger] s@[m]),
            value == digits_val(s@, i3 as int, p as int),
            0 <= value < pow10((p - i3) as nat),
            pow10(20) == 100_000_000_000_000_000_000,
            pow10(21) == 1_000_000_000_000_000_000_000,
        decreases j - p,
    {
        proof {
            lemma_pow10_mono((p - i3) as nat, 20);
            lemma_pow10_mono((p + 1 - i3) as nat, 21);
        }
        let d = s[p] - 48;
        value = value * 10 + d as u128;
        p = p + 1;
    }
    if value > u64::MAX as u128 {
        return None;
    }
    let i4 = skip_ws_exec(s, j);
    if i4 == n || s[i4] != 125 {
        return None;
    }
    let i5 = skip_ws_exec(s, i4 + 1);
    if i5 != n {
        return None;
    }
    Some(value as u64)
}

/// Law: decoding is the inverse of encoding — a payload carrying a count
/// decodes back to exactly that count.
pub proof fn lemma_encode_decode_round_trip(n: u64)
    ensures
        spec_decode_num_tokens(spec_encode_num_tokens(n as int)) == Some(n),
{
    let s = spec_encode_num_tokens(n as int);
    let db = dec_bytes(n as int);
    let len = s.len() as int;
    lemma_dec_bytes_digits(n as int);
    assert(len == 15 + db.len());
    assert(s[0] == 123u8);
    assert(skip_ws(s, 0) == 0);
    assert(s.subrange(1, 13) =~= json_key());
    assert(s[1] == 34u8);
    assert(skip_ws(s, 1) == 1);
    assert(s[13] == 58u8);
    assert(skip_ws(s, 13) == 13);
    assert(s[14] == db[0]);
    assert(is_json_digit(s[14]));
    assert(skip_ws(s, 14) == 14);
    let j = 14 + db.len() as int;
    assert(forall|k: int| 14 <= k < j ==> s[k] == db[k - 14] && is_json_digit(#[trigger] s[k]));
    assert(s[j] == 125u8);
    lemma_digits_end_of_run(s, 14, j);
    assert(digits_end(s, 14) == j);
    if db.len() > 1 {
        assert(n >= 10) by {
            if n < 10 {
                assert(dec_bytes(n as int).len() == 1);
            }
        }
        lemma_dec_bytes_no_leading_zero(n as int);
        assert(s[14] != 48u8);
    }
    assert(s.subrange(14, j) =~= db);
    lemma_digits_val_of_dec_bytes(s, 14, n as int);
    assert(digits_val(s, 14, j) == n as int);
    assert(skip_ws(s, j) == j);
    assert(skip_ws(s, j + 1) == j + 1);
    assert(j + 1 == s.len());
    assert(spec_decode_num_tokens(s) == Some((n as int) as u64));
}

} // verus!
