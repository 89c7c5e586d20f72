//! Fixed-width lowercase hexadecimal encoding of trace and span identifiers.
//!
//! A trace identifier is wire-encoded as 32 lowercase hex digits, a span
//! identifier as 16. Both directions are implemented here over plain
//! integers, together with the round-trip lemmas the propagation format
//! rests on.

use vstd::prelude::*;

verus! {

/// Sixteen to the power `n`.
pub open spec fn pow16(n: nat) -> int
    decreases n,
{
    if n == 0 {
        1
    } else {
        16 * pow16((n - 1) as nat)
    }
}

/// Whether `c` is a lowercase hexadecimal digit.
pub open spec fn is_hex_char(c: char) -> bool {
    (48 <= c as int && c as int <= 57) || (97 <= c as int && c as int <= 102)
}

/// Whether every character of `s` is a lowercase hexadecimal digit.
pub open spec fn is_hex_seq(s: Seq<char>) -> bool {
    forall|i: int| 0 <= i < s.len() ==> is_hex_char(#[trigger] s[i])
}

/// The value of one hexadecimal digit; 16 for characters that are none.
pub open spec fn nibble_val(c: char) -> int {
    if 48 <= c as int && c as int <= 57 {
        c as int - 48
    } else if 97 <= c as int && c as int <= 102 {
        c as int - 87
    } else {
        16
    }
}

/// The lowercase digit for a value below sixteen.
pub open spec fn nibble_char(d: int) -> char {
    if d == 0 { '0' }
    else if d == 1 { '1' }
    else if d == 2 { '2' }
    else if d == 3 { '3' }
    else if d == 4 { '4' }
    else if d == 5 { '5' }
    else if d == 6 { '6' }
    else if d == 7 { '7' }
    else if d == 8 { '8' }
    else if d == 9 { '9' }
    else if d == 10 { 'a' }
    else if d == 11 { 'b' }
    else if d == 12 { 'c' }
    else if d == 13 { 'd' }
    else if d == 14 { 'e' }
    else { 'f' }
}

/// The `n` least-significant hex digits of `x`, most significant first.
pub open spec fn hex_seq(x: int, n: nat) -> Seq<char>
    decreases n,
{
    if n == 0 {
        Seq::empty()
    } else {
        hex_seq(x / 16, (n - 1) as nat).push(nibble_char(x % 16))
    }
}

/// The number a sequence of hex digits denotes, most significant first.
pub open spec fn hex_val(s: Seq<char>) -> int
    decreases s.len(),
{
    if s.len() == 0 {
        0
    } else {
        hex_val(s.drop_last()) * 16 + nibble_val(s.last())
    }
}

/// Digit-to-character and character-to-digit are mutually inverse.
pub proof fn lemma_nibble_roundtrip(d: int, c: char)
    ensures
        0 <= d < 16 ==> nibble_val(nibble_char(d)) == d && is_hex_char(nibble_char(d)),
        is_hex_char(c) ==> nibble_char(nibble_val(c)) == c && 0 <= nibble_val(c) < 16,
{
}

/// A hex sequence has as many digits as asked for.
pub proof fn lemma_hex_seq_len(x: int, n: nat)
    ensures
        hex_seq(x, n).len() == n,
        is_hex_seq(hex_seq(x, n)),
    decreases n,
{
    if n > 0 {
        lemma_hex_seq_len(x / 16, (n - 1) as nat);
        let t = hex_seq(x / 16, (n - 1) as nat);
        lemma_nibble_roundtrip(x % 16, '0');
        assert forall|i: int| 0 <= i < t.push(nibble_char(x % 16)).len() implies is_hex_char(
            #[trigger] t.push(nibble_char(x % 16))[i],
        ) by {
            if i < t.len() {
                assert(t.push(nibble_char(x % 16))[i] == t[i]);
            }
        }
    }
}

/// The value of a hex digit sequence is bounded by the width.
pub proof fn lemma_hex_val_bound(s: Seq<char>)
    requires
        is_hex_seq(s),
    ensures
        0 <= hex_val(s) < pow16(s.len()),
    decreases s.len(),
{
    if s.len() > 0 {
        let t = s.drop_last();
        assert(is_hex_seq(t)) by {
            assert forall|i: int| 0 <= i < t.len() implies is_hex_char(#[trigger] t[i]) by {
                assert(t[i] == s[i]);
            }
        }
        lemma_hex_val_bound(t);
        lemma_nibble_roundtrip(0, s.last());
        assert(is_hex_char(s.last()));
        assert(hex_val(t) * 16 + nibble_val(s.last()) < pow16(t.len()) * 16) by (nonlinear_arith)
            requires
                hex_val(t) < pow16(t.len()),
                nibble_val(s.last()) < 16,
        ;
        assert(pow16(s.len()) == 16 * pow16(t.len()));
        assert(hex_val(t) * 16 >= 0) by (nonlinear_arith)
            requires
                hex_val(t) >= 0,
        ;
    }
}

/// Decoding an encoded value gives that value back, below the width bound.
pub proof fn lemma_hex_val_of_seq(x: int, n: nat)
    requires
        0 <= x < pow16(n),
    ensures
        hex_val(hex_seq(x, n)) == x,
    decreases n,
{
    if n == 0 {
    } else {
        assert(pow16(n) == 16 * pow16((n - 1) as nat));
        assert(0 <= x / 16 < pow16((n - 1) as nat) && 0 <= x % 16 < 16 && x == (x / 16) * 16 + x
            % 16) by (nonlinear_arith)
            requires
                0 <= x < 16 * pow16((n - 1) as nat),
        ;
        lemma_hex_val_of_seq(x / 16, (n - 1) as nat);
        let t = hex_seq(x / 16, (n - 1) as nat);
        let c = nibble_char(x % 16);
        lemma_nibble_roundtrip(x % 16, '0');
        assert(t.push(c).drop_last() =~= t);
        assert(t.push(c).last() == c);
        assert(hex_val(t.push(c)) == hex_val(t) * 16 + nibble_val(c));
    }
}

/// One lowercase hex digit as a string.
fn nibble_str(d: u128) -> (r: &'static str)
    requires
        d < 16,
    ensures
        r@ =~= seq![nibble_char(d as int)],
{
    proof {
        reveal_strlit("0");
        reveal_strlit("1");
        reveal_strlit("2");
        reveal_strlit("3");
        reveal_strlit("4");
        reveal_strlit("5");
        reveal_strlit("6");
        reveal_strlit("7");
        reveal_strlit("8");
        reveal_strlit("9");
        reveal_strlit("a");
        reveal_strlit("b");
        reveal_strlit("c");
        reveal_strlit("d");
        reveal_strlit("e");
        reveal_strlit("f");
    }
    if d == 0 { "0" }
    else if d == 1 { "1" }
    else if d == 2 { "2" }
    else if d == 3 { "3" }
    else if d == 4 { "4" }
    else if d == 5 { "5" }
    else if d == 6 { "6" }
    else if d == 7 { "7" }
    else if d == 8 { "8" }
    else if d == 9 { "9" }
    else if d == 10 { "a" }
    else if d == 11 { "b" }
    else if d == 12 { "c" }
    else if d == 13 { "d" }
    else if d == 14 { "e" }
    else { "f" }
}

/// Encodes the `width` least-significant hex digits of `x`, most
/// significant first, in lowercase.
pub fn encode_hex(x: u128, width: usize) -> (r: String)
    ensures
        r@ == hex_seq(x as int, width as nat),
        r@.len() == width,
    decreases width,
{
    proof {
        lemma_hex_seq_len(x as int, width as nat);
    }
    if width == 0 {
        String::new()
    } else {
        let mut s = encode_hex(x / 16, width - 1);
        let d: u128 = x % 16;
        let tail = nibble_str(d);
        s.append(tail);
        proof {
            assert(hex_seq(x as int, width as nat) == hex_seq(
                x as int / 16,
                (width - 1) as nat,
            ).push(nibble_char(x as int % 16)));
            assert(s@ =~= hex_seq(x as int, width as nat));
        }
        s
    }
}

/// The value of one lowercase hexadecimal digit character, if it is one.
pub fn hex_digit_val(c: char) -> (r: Option<u128>)
    ensures
        r matches Some(v) ==> is_hex_char(c) && v as int == nibble_val(c),
        r is None ==> !is_hex_char(c),
{
    let v = c as u32;
    if v >= 48 && v <= 57 {
        Some((v - 48) as u128)
    } else if v >= 97 && v <= 102 {
        Some((v - 87) as u128)
    } else {
        None
    }
}

/// Parses a string of at most 32 lowercase hex digits.
///
/// Returns the denoted value exactly when every character is a lowercase
/// hex digit; uppercase digits are rejected.
pub fn parse_hex(s: &str) -> (r: Option<u128>)
    ensures
        r matches Some(v) ==> s@.len() <= 32 && is_hex_seq(s@) && v as int == hex_val(s@),
        r is None ==> !(s@.len() <= 32 && is_hex_seq(s@)),
{
    let n = s.unicode_len();
    if n > 32 {
        return None;
    }
    let mut acc: u128 = 0;
    let mut i: usize = 0;
    while i < n
        invariant
            i <= n,
            n == s@.len() <= 32,
            is_hex_seq(s@.subrange(0, i as int)),
            acc as int == hex_val(s@.subrange(0, i as int)),
            (acc as int) < pow16(i as nat),
        decreases n - i,
    {
        let c = s.get_char(i);
        match hex_digit_val(c) {
            None => {
                proof {
                    assert(!is_hex_char(s@[i as int]));
                }
                return None;
            },
            Some(d) => {
                proof {
                    let pre = s@.subrange(0, i as int);
                    let cur = s@.subrange(0, i as int + 1);
                    assert(cur.drop_last() =~= pre);
                    assert(cur.last() == s@[i as int]);
                    assert forall|j: int| 0 <= j < cur.len() implies is_hex_char(
                        #[trigger] cur[j],
                    ) by {
                        if j < i as int {
                            assert(cur[j] == pre[j]);
                        }
                    }
                    lemma_pow16_mono(i as nat, 31);
                    reveal_with_fuel(pow16, 33);
                    assert(pow16(31) == 0x10000000000000000000000000000000);
                    assert(pow16((i + 1) as nat) == 16 * pow16(i as nat));
                    assert(acc as int * 16 + d < 16 * pow16(i as nat) && acc as int * 16 + d
                        <= 0xffffffffffffffffffffffffffffffff) by (nonlinear_arith)
                        requires
                            (acc as int) < pow16(i as nat),
                            0 <= d < 16,
                            acc >= 0,
                            pow16(i as nat) <= 0x10000000000000000000000000000000,
                        ;
                }
                acc = acc * 16 + d;
            },
        }
        i = i + 1;
    }
    proof {
        assert(s@.subrange(0, n as int) =~= s@);
    }
    Some(acc)
}

/// `pow16` grows with its exponent.
pub proof fn lemma_pow16_mono(a: nat, b: nat)
    requires
        a <= b,
    ensures
        pow16(a) <= pow16(b),
        pow16(a) >= 1,
    decreases b,
{
    if b > 0 {
        if a == b {
            lemma_pow16_mono((a - 1) as nat, (b - 1) as nat);
        } else {
            lemma_pow16_mono(a, (b - 1) as nat);
        }
    }
}

} // verus!
