//! The baggage wire format.
//!
//! Baggage travels in one header value as comma-separated `key=value`
//! members. Keys and values are percent-encoded injectively, so any entry
//! round-trips: a byte outside the plain printable set — controls, space,
//! `"`, `%`, `,`, `;`, `=`, delete, and every non-ASCII byte of the UTF-8
//! form — travels as `%` and two uppercase hex digits, and is decoded on
//! parse. A header that does not parse whole is treated as absent baggage,
//! never as an error.

use vstd::prelude::*;

use vstd::utf8::{
    decode_utf8, encode_utf8, encode_utf8_decode_utf8, encode_utf8_valid_utf8, valid_utf8,
};

verus! {

/// Bytes that travel unescaped: printable ASCII except the characters the
/// format itself uses (`%`, `,`, `=`) and those the original wire formats
/// escape (`"`, `;`).
pub open spec fn is_plain_baggage_byte(b: u8) -> bool {
    33 <= b && b <= 126 && b != 34 && b != 37 && b != 44 && b != 59 && b != 61
}

/// The uppercase hex digit for a value below sixteen.
pub open spec fn upper_hex_char(d: int) -> char {
    if d == 0 { '0' }
    else if d == 1 { '1' }
    else if d == 2 { '2' }
    else if d == 3 { '3' }
    else if d == 4 { '4' }
    else if d == 5 { '5' }
    else if d == 6 { '6' }
    else if d == 7 { '7' }
    else if d == 8 { '8' }
    else if d == 9 { '9' }
    else if d == 10 { 'A' }
    else if d == 11 { 'B' }
    else if d == 12 { 'C' }
    else if d == 13 { 'D' }
    else if d == 14 { 'E' }
    else { 'F' }
}

/// The value of one hex digit of an escape, either case; 16 otherwise.
pub open spec fn escape_digit_val(c: char) -> int {
    if 48 <= c as int && c as int <= 57 {
        c as int - 48
    } else if 97 <= c as int && c as int <= 102 {
        c as int - 87
    } else if 65 <= c as int && c as int <= 70 {
        c as int - 55
    } else {
        16
    }
}

/// One byte on the wire: itself when plain, an escape otherwise.
pub open spec fn enc_byte(b: u8) -> Seq<char> {
    if is_plain_baggage_byte(b) {
        seq![b as char]
    } else {
        seq!['%', upper_hex_char(b as int / 16), upper_hex_char(b as int % 16)]
    }
}

/// A byte string percent-encoded for the wire.
pub open spec fn escape_bytes(bs: Seq<u8>) -> Seq<char>
    decreases bs.len(),
{
    if bs.len() == 0 {
        Seq::empty()
    } else {
        enc_byte(bs[0]) + escape_bytes(bs.drop_first())
    }
}

/// A string percent-encoded for the wire: its UTF-8 bytes, escaped.
pub open spec fn spec_escape(s: Seq<char>) -> Seq<char> {
    escape_bytes(encode_utf8(s))
}

/// The bytes a wire text denotes: an escape yields its byte, any other
/// ASCII character yields itself, anything else fails.
pub open spec fn unescape_chars(s: Seq<char>) -> Option<Seq<u8>>
    decreases s.len(),
{
    if s.len() == 0 {
        Some(Seq::empty())
    } else if s[0] == '%' {
        if s.len() >= 3 && escape_digit_val(s[1]) < 16 && escape_digit_val(s[2]) < 16 {
            match unescape_chars(s.subrange(3, s.len() as int)) {
                Some(rest) => Some(
                    seq![(escape_digit_val(s[1]) * 16 + escape_digit_val(s[2])) as u8] + rest,
                ),
                None => None,
            }
        } else {
            None
        }
    } else if s[0] as int <= 127 {
        match unescape_chars(s.drop_first()) {
            Some(rest) => Some(seq![s[0] as u8] + rest),
            None => None,
        }
    } else {
        None
    }
}

/// Characters the escaper emits: printable ASCII, never a separator.
pub open spec fn is_wire_baggage_char(c: char) -> bool {
    33 <= c as int && c as int <= 126 && c != ',' && c != '='
}

/// An uppercase hex digit decodes to its value and is a wire character.
proof fn lemma_upper_hex(d: int)
    requires
        0 <= d < 16,
    ensures
        escape_digit_val(upper_hex_char(d)) == d,
        is_wire_baggage_char(upper_hex_char(d)),
        upper_hex_char(d) != '%',
{
}

/// Everything the escaper emits is a wire character.
pub proof fn lemma_escape_wire_safe(bs: Seq<u8>)
    ensures
        forall|i: int| 0 <= i < escape_bytes(bs).len() ==> is_wire_baggage_char(
            #[trigger] escape_bytes(bs)[i],
        ),
    decreases bs.len(),
{
    if bs.len() > 0 {
        lemma_escape_wire_safe(bs.drop_first());
        let head = enc_byte(bs[0]);
        let rest = escape_bytes(bs.drop_first());
        assert forall|i: int| 0 <= i < escape_bytes(bs).len() implies is_wire_baggage_char(
            #[trigger] escape_bytes(bs)[i],
        ) by {
            if i < head.len() {
                assert(escape_bytes(bs)[i] == head[i]);
                lemma_upper_hex(bs[0] as int / 16);
                lemma_upper_hex(bs[0] as int % 16);
            } else {
                assert(escape_bytes(bs)[i] == rest[i - head.len()]);
            }
        }
    }
}

/// Unescaping what the escaper produced gives the bytes back.
proof fn lemma_unescape_escape(bs: Seq<u8>)
    ensures
        unescape_chars(escape_bytes(bs)) == Some(bs),
    decreases bs.len(),
{
    if bs.len() > 0 {
        lemma_unescape_escape(bs.drop_first());
        let b = bs[0];
        let s = escape_bytes(bs);
        let rest = escape_bytes(bs.drop_first());
        if is_plain_baggage_byte(b) {
            assert(s[0] == b as char);
            assert(s.drop_first() =~= rest);
            assert(seq![(b as char) as u8] + bs.drop_first() =~= bs);
        } else {
            lemma_upper_hex(b as int / 16);
            lemma_upper_hex(b as int % 16);
            assert(s[0] == '%');
            assert(s[1] == upper_hex_char(b as int / 16));
            assert(s[2] == upper_hex_char(b as int % 16));
            assert(s.subrange(3, s.len() as int) =~= rest);
            assert((b as int / 16) * 16 + b as int % 16 == b as int);
            assert(seq![(escape_digit_val(s[1]) * 16 + escape_digit_val(s[2])) as u8]
                + bs.drop_first() =~= bs);
        }
    }
}

/// Any character value is at least the zero character.
proof fn lemma_char_lower_bound(c: char)
    ensures
        '\0' <= c,
{
}

/// Whatever unescapes is ASCII.
#[verifier::rlimit(50)]
proof fn lemma_unescape_ascii(s: Seq<char>)
    requires
        unescape_chars(s) is Some,
    ensures
        vstd::utf8::is_ascii_chars(s),
    decreases s.len(),
{
    if s.len() > 0 {
        if s[0] == '%' {
            lemma_unescape_ascii(s.subrange(3, s.len() as int));
            assert forall|i: int| 0 <= i < s.len() implies '\0' <= #[trigger] s[i] <= '\u{7f}' by {
                if i == 1 || i == 2 {
                    assert(escape_digit_val(s[i]) < 16);
                } else if i >= 3 {
                    assert(s[i] == s.subrange(3, s.len() as int)[i - 3]);
                }
            }
        } else {
            assert(s[0] as int <= 127);
            lemma_unescape_ascii(s.drop_first());
            assert forall|i: int| 0 <= i < s.len() implies '\0' <= #[trigger] s[i] <= '\u{7f}' by {
                if i > 0 {
                    assert(s[i] == s.drop_first()[i - 1]);
                    assert('\0' <= s.drop_first()[i - 1] <= '\u{7f}');
                } else {
                    lemma_char_lower_bound(s[0]);
                    assert('\0' <= s[0] <= '\u{7f}');
                }
            }
        }
    }
}

/// The index of the first occurrence of `c` in `s`; the length of `s`
/// when it does not occur.
pub open spec fn first_at(s: Seq<char>, c: char) -> nat
    decreases s.len(),
{
    if s.len() == 0 {
        0
    } else if s[0] == c {
        0
    } else {
        1 + first_at(s.drop_first(), c)
    }
}

/// What `first_at` finds: nothing before it, `c` at it when in range.
pub proof fn lemma_first_at_props(s: Seq<char>, c: char)
    ensures
        first_at(s, c) <= s.len(),
        forall|j: int| 0 <= j < first_at(s, c) ==> s[j] != c,
        first_at(s, c) < s.len() ==> s[first_at(s, c) as int] == c,
    decreases s.len(),
{
    if s.len() > 0 && s[0] != c {
        lemma_first_at_props(s.drop_first(), c);
        let t = s.drop_first();
        assert forall|j: int| 0 <= j < first_at(s, c) implies s[j] != c by {
            if j > 0 {
                assert(s[j] == t[j - 1]);
            }
        }
        if first_at(s, c) < s.len() {
            assert(s[first_at(s, c) as int] == t[first_at(t, c) as int]);
        }
    }
}

/// The first occurrence is the one the scan finds.
pub proof fn lemma_first_at_exact(s: Seq<char>, c: char, i: int)
    requires
        0 <= i <= s.len(),
        forall|j: int| 0 <= j < i ==> s[j] != c,
        i < s.len() ==> s[i] == c,
    ensures
        first_at(s, c) == i,
    decreases s.len(),
{
    if s.len() == 0 {
    } else if s[0] == c {
        assert(i == 0);
    } else {
        let t = s.drop_first();
        assert(i >= 1);
        assert forall|j: int| 0 <= j < i - 1 implies t[j] != c by {
            assert(t[j] == s[j + 1]);
        }
        if i - 1 < t.len() {
            assert(t[i - 1] == s[i]);
        }
        lemma_first_at_exact(t, c, i - 1);
    }
}

/// One member of the baggage header: the escaped key, `=`, the escaped
/// value.
pub open spec fn spec_member(kv: (Seq<char>, Seq<char>)) -> Seq<char> {
    spec_escape(kv.0) + seq!['='] + spec_escape(kv.1)
}

/// The baggage header encoding a list of entries.
pub open spec fn spec_format_baggage(e: Seq<(Seq<char>, Seq<char>)>) -> Seq<char>
    decreases e.len(),
{
    if e.len() == 0 {
        Seq::empty()
    } else if e.len() == 1 {
        spec_member(e[0])
    } else {
        spec_member(e[0]) + seq![','] + spec_format_baggage(e.drop_first())
    }
}

/// The entry one member denotes: key and value unescaped at the first
/// `=`, then decoded from UTF-8; anything that fails either step is no
/// entry.
pub open spec fn spec_parse_member(m: Seq<char>) -> Option<(Seq<char>, Seq<char>)> {
    let j = first_at(m, '=');
    if j < m.len() {
        let kb = unescape_chars(m.subrange(0, j as int));
        let vb = unescape_chars(m.subrange(j as int + 1, m.len() as int));
        match (kb, vb) {
            (Some(kb), Some(vb)) => if valid_utf8(kb) && valid_utf8(vb) {
                Some((decode_utf8(kb), decode_utf8(vb)))
            } else {
                None
            },
            _ => None,
        }
    } else {
        None
    }
}

/// The entries a baggage header denotes, if every member is well formed.
pub open spec fn spec_parse_baggage(s: Seq<char>) -> Option<Seq<(Seq<char>, Seq<char>)>>
    decreases s.len(),
{
    let i = first_at(s, ',');
    if i >= s.len() {
        match spec_parse_member(s) {
            Some(kv) => Some(seq![kv]),
            None => None,
        }
    } else {
        match spec_parse_member(s.subrange(0, i as int)) {
            Some(kv) => match spec_parse_baggage(s.subrange(i as int + 1, s.len() as int)) {
                Some(rest) => Some(seq![kv] + rest),
                None => None,
            },
            None => None,
        }
    }
}

/// A member that parses holds only ASCII characters.
proof fn lemma_member_ascii(m: Seq<char>)
    requires
        spec_parse_member(m) is Some,
    ensures
        vstd::utf8::is_ascii_chars(m),
{
    lemma_first_at_props(m, '=');
    let j = first_at(m, '=') as int;
    let kpart = m.subrange(0, j);
    let vpart = m.subrange(j + 1, m.len() as int);
    lemma_unescape_ascii(kpart);
    lemma_unescape_ascii(vpart);
    assert forall|p: int| 0 <= p < m.len() implies '\0' <= #[trigger] m[p] <= '\u{7f}' by {
        if p < j {
            assert(m[p] == kpart[p]);
        } else if p > j {
            assert(m[p] == vpart[p - j - 1]);
        }
    }
}

/// A header that parses holds only ASCII characters.
pub proof fn lemma_parse_baggage_ascii(s: Seq<char>)
    requires
        spec_parse_baggage(s) is Some,
    ensures
        vstd::utf8::is_ascii_chars(s),
    decreases s.len(),
{
    lemma_first_at_props(s, ',');
    let i = first_at(s, ',') as int;
    if i >= s.len() {
        lemma_member_ascii(s);
    } else {
        let head = s.subrange(0, i);
        let tail = s.subrange(i + 1, s.len() as int);
        lemma_member_ascii(head);
        lemma_parse_baggage_ascii(tail);
        assert forall|p: int| 0 <= p < s.len() implies '\0' <= #[trigger] s[p] <= '\u{7f}' by {
            if p < i {
                assert(s[p] == head[p]);
            } else if p == i {
                assert(s[p] == ',');
            } else {
                assert(s[p] == tail[p - i - 1]);
            }
        }
    }
}

/// No character of an encoded member is a comma.
proof fn lemma_member_no_comma(kv: (Seq<char>, Seq<char>))
    ensures
        forall|p: int| 0 <= p < spec_member(kv).len() ==> #[trigger] spec_member(kv)[p] != ',',
{
    let m = spec_member(kv);
    let kw = spec_escape(kv.0);
    let vw = spec_escape(kv.1);
    lemma_escape_wire_safe(encode_utf8(kv.0));
    lemma_escape_wire_safe(encode_utf8(kv.1));
    assert forall|p: int| 0 <= p < m.len() implies #[trigger] m[p] != ',' by {
        if p < kw.len() {
            assert(m[p] == kw[p]);
        } else if p == kw.len() {
            assert(m[p] == '=');
        } else {
            assert(m[p] == vw[p - kw.len() - 1]);
        }
    }
}

/// Parsing an encoded member gives the entry back, whatever it holds.
proof fn lemma_member_roundtrip(kv: (Seq<char>, Seq<char>))
    ensures
        spec_parse_member(spec_member(kv)) == Some(kv),
{
    let m = spec_member(kv);
    let kw = spec_escape(kv.0);
    let vw = spec_escape(kv.1);
    lemma_escape_wire_safe(encode_utf8(kv.0));
    assert forall|j: int| 0 <= j < kw.len() implies kw[j] != '=' by {
        assert(is_wire_baggage_char(kw[j]));
    }
    assert((seq!['='] + vw)[0] == '=');
    assert(m =~= kw + (seq!['='] + vw));
    lemma_first_at_concat(kw, seq!['='] + vw, '=');
    assert(m.subrange(0, kw.len() as int) =~= kw);
    assert(m.subrange(kw.len() as int + 1, m.len() as int) =~= vw);
    lemma_unescape_escape(encode_utf8(kv.0));
    lemma_unescape_escape(encode_utf8(kv.1));
    encode_utf8_valid_utf8(kv.0);
    encode_utf8_valid_utf8(kv.1);
    encode_utf8_decode_utf8(kv.0);
    encode_utf8_decode_utf8(kv.1);
}

/// The first occurrence of `c` in a concatenation whose left part lacks it
/// and whose right part starts with it.
proof fn lemma_first_at_concat(a: Seq<char>, b: Seq<char>, c: char)
    requires
        forall|j: int| 0 <= j < a.len() ==> a[j] != c,
        b.len() > 0,
        b[0] == c,
    ensures
        first_at(a + b, c) == a.len(),
    decreases a.len(),
{
    if a.len() == 0 {
        assert(a + b =~= b);
    } else {
        assert((a + b)[0] == a[0]);
        assert((a + b).drop_first() =~= a.drop_first() + b);
        assert forall|j: int| 0 <= j < a.drop_first().len() implies a.drop_first()[j] != c by {
            assert(a.drop_first()[j] == a[j + 1]);
        }
        lemma_first_at_concat(a.drop_first(), b, c);
    }
}

/// Parsing an encoded non-empty baggage list gives every entry back,
/// whatever the entries hold.
#[verifier::rlimit(100)]
pub proof fn lemma_baggage_roundtrip(e: Seq<(Seq<char>, Seq<char>)>)
    requires
        e.len() > 0,
    ensures
        spec_parse_baggage(spec_format_baggage(e)) == Some(e),
    decreases e.len(),
{
    let s = spec_format_baggage(e);
    lemma_member_no_comma(e[0]);
    let m = spec_member(e[0]);
    if e.len() == 1 {
        lemma_first_at_exact(s, ',', s.len() as int);
        lemma_member_roundtrip(e[0]);
        assert(seq![e[0]] =~= e);
    } else {
        let rest = e.drop_first();
        let rest_s = spec_format_baggage(rest);
        assert(s =~= m + (seq![','] + rest_s));
        assert((seq![','] + rest_s)[0] == ',');
        lemma_first_at_concat(m, seq![','] + rest_s, ',');
        assert(s.subrange(0, m.len() as int) =~= m);
        lemma_member_roundtrip(e[0]);
        assert(s.subrange(m.len() as int + 1, s.len() as int) =~= rest_s);
        lemma_baggage_roundtrip(rest);
        assert(seq![e[0]] + rest =~= e);
    }
}

/// Relies on String::push: appends exactly one character.
#[verifier::external_body]
fn push_char(s: &mut String, c: char)
    ensures
        final(s)@ == old(s)@.push(c),
{
    s.push(c);
}

/// Relies on String::from_utf8: succeeds exactly on valid UTF-8,
/// returning the characters those bytes encode.
#[verifier::external_body]
fn string_from_utf8(v: Vec<u8>) -> (r: Option<String>)
    ensures
        r matches Some(t) ==> valid_utf8(v@) && t@ == decode_utf8(v@),
        r is None ==> !valid_utf8(v@),
{
    String::from_utf8(v).ok()
}

/// The uppercase hex digit of a value below sixteen.
fn upper_hex_digit(d: u8) -> (r: char)
    requires
        d < 16,
    ensures
        r == upper_hex_char(d as int),
{
    if d == 0 { '0' }
    else if d == 1 { '1' }
    else if d == 2 { '2' }
    else if d == 3 { '3' }
    else if d == 4 { '4' }
    else if d == 5 { '5' }
    else if d == 6 { '6' }
    else if d == 7 { '7' }
    else if d == 8 { '8' }
    else if d == 9 { '9' }
    else if d == 10 { 'A' }
    else if d == 11 { 'B' }
    else if d == 12 { 'C' }
    else if d == 13 { 'D' }
    else if d == 14 { 'E' }
    else { 'F' }
}

/// Appends one byte's wire form.
fn push_byte_escaped(out: &mut String, b: u8)
    ensures
        final(out)@ == old(out)@ + enc_byte(b),
{
    let plain = b >= 33 && b <= 126 && b != 34 && b != 37 && b != 44 && b != 59 && b != 61;
    if plain {
        push_char(out, b as char);
        proof {
            assert(final(out)@ =~= old(out)@ + enc_byte(b));
        }
    } else {
        push_char(out, '%');
        push_char(out, upper_hex_digit(b / 16));
        push_char(out, upper_hex_digit(b % 16));
        proof {
            assert(final(out)@ =~= old(out)@ + enc_byte(b));
        }
    }
}

/// Appends the wire form of the bytes from `start` on.
fn escape_append(out: &mut String, bytes: &Vec<u8>, start: usize)
    requires
        start <= bytes@.len(),
    ensures
        final(out)@ == old(out)@ + escape_bytes(bytes@.subrange(start as int, bytes@.len() as int)),
    decreases bytes@.len() - start,
{
    let ghost whole = bytes@.subrange(start as int, bytes@.len() as int);
    if start >= bytes.len() {
        proof {
            assert(whole =~= Seq::<u8>::empty());
            assert(final(out)@ =~= old(out)@ + escape_bytes(whole));
        }
        return ;
    }
    push_byte_escaped(out, bytes[start]);
    escape_append(out, bytes, start + 1);
    proof {
        assert(whole.drop_first() =~= bytes@.subrange(start as int + 1, bytes@.len() as int));
        assert(whole[0] == bytes@[start as int]);
        assert(final(out)@ =~= old(out)@ + escape_bytes(whole));
    }
}

/// Appends the wire form of a string.
fn append_escaped(out: &mut String, s: &str)
    ensures
        final(out)@ == old(out)@ + spec_escape(s@),
{
    let bytes = s.as_bytes_vec();
    proof {
        assert(bytes@.subrange(0, bytes@.len() as int) =~= encode_utf8(s@));
    }
    escape_append(out, &bytes, 0);
}

/// Finds the first occurrence of `c` in `s`, or the length of `s`.
fn find_char(s: &str, c: char) -> (idx: usize)
    ensures
        idx == first_at(s@, c),
        idx <= s@.len(),
{
    let n = s.unicode_len();
    let mut i: usize = 0;
    while i < n
        invariant
            i <= n,
            n == s@.len(),
            forall|j: int| 0 <= j < i ==> s@[j] != c,
        decreases n - i,
    {
        if s.get_char(i) == c {
            proof {
                lemma_first_at_exact(s@, c, i as int);
            }
            return i;
        }
        i = i + 1;
    }
    proof {
        lemma_first_at_exact(s@, c, n as int);
    }
    n
}

/// The value of one escape hex digit, either case.
fn escape_digit(c: char) -> (r: Option<u8>)
    ensures
        r matches Some(v) ==> v as int == escape_digit_val(c) && escape_digit_val(c) < 16,
        r is None ==> escape_digit_val(c) == 16,
{
    let v = c as u32;
    if v >= 48 && v <= 57 {
        Some((v - 48) as u8)
    } else if v >= 97 && v <= 102 {
        Some((v - 87) as u8)
    } else if v >= 65 && v <= 70 {
        Some((v - 55) as u8)
    } else {
        None
    }
}

/// Decodes a wire text to its bytes, exactly when every escape is well
/// formed.
fn unescape(s: &str) -> (r: Option<Vec<u8>>)
    requires
        s.is_ascii(),
    ensures
        r matches Some(v) ==> unescape_chars(s@) == Some(v@),
        r is None ==> unescape_chars(s@) is None,
    decreases s@.len(),
{
    let n = s.unicode_len();
    if n == 0 {
        let out: Vec<u8> = Vec::new();
        proof {
            assert(out@ =~= Seq::<u8>::empty());
        }
        return Some(out);
    }
    let c0 = s.get_char(0);
    if c0 == '%' {
        if n < 3 {
            return None;
        }
        let d1 = match escape_digit(s.get_char(1)) {
            Some(d) => d,
            None => {
                return None;
            },
        };
        let d2 = match escape_digit(s.get_char(2)) {
            Some(d) => d,
            None => {
                return None;
            },
        };
        let tail = s.substring_ascii(3, n);
        match unescape(tail) {
            Some(rest) => {
                let mut out: Vec<u8> = Vec::new();
                out.push(d1 * 16 + d2);
                let mut rest = rest;
                let ghost rest_view = rest@;
                out.append(&mut rest);
                proof {
                    assert(out@ =~= seq![(escape_digit_val(s@[1]) * 16 + escape_digit_val(s@[2])) as u8]
                        + rest_view);
                }
                Some(out)
            },
            None => None,
        }
    } else {
        proof {
            assert(s@[0] as int <= 127);
        }
        let tail = s.substring_ascii(1, n);
        proof {
            assert(tail@ =~= s@.drop_first());
        }
        match unescape(tail) {
            Some(rest) => {
                let mut out: Vec<u8> = Vec::new();
                out.push(c0 as u8);
                let mut rest = rest;
                let ghost rest_view = rest@;
                out.append(&mut rest);
                proof {
                    assert(out@ =~= seq![s@[0] as u8] + rest_view);
                }
                Some(out)
            },
            None => None,
        }
    }
}

/// Decodes one member, exactly when it is well formed.
fn parse_member(m: &str) -> (r: Option<(String, String)>)
    requires
        m.is_ascii(),
    ensures
        r matches Some(kv) ==> spec_parse_member(m@) == Some((kv.0@, kv.1@)),
        r is None ==> spec_parse_member(m@) is None,
{
    let n = m.unicode_len();
    let j = find_char(m, '=');
    if j == n {
        return None;
    }
    let key_bytes = match unescape(m.substring_ascii(0, j)) {
        Some(v) => v,
        None => {
            return None;
        },
    };
    let value_bytes = match unescape(m.substring_ascii(j + 1, n)) {
        Some(v) => v,
        None => {
            return None;
        },
    };
    let key = match string_from_utf8(key_bytes) {
        Some(k) => k,
        None => {
            return None;
        },
    };
    let value = match string_from_utf8(value_bytes) {
        Some(v) => v,
        None => {
            return None;
        },
    };
    Some((key, value))
}

/// Encodes the entries from `start` on as a baggage header.
fn format_baggage_from(entries: &Vec<(String, String)>, start: usize) -> (r: String)
    requires
        start <= entries@.len(),
    ensures
        r@ == spec_format_baggage(
            entries.deep_view().subrange(start as int, entries@.len() as int),
        ),
    decreases entries@.len() - start,
{
    proof {
        reveal_strlit("=");
        reveal_strlit(",");
    }
    let ghost whole = entries.deep_view().subrange(start as int, entries@.len() as int);
    if start >= entries.len() {
        proof {
            assert(whole =~= Seq::<(Seq<char>, Seq<char>)>::empty());
        }
        return String::new();
    }
    let kv = &entries[start];
    let mut s = String::new();
    append_escaped(&mut s, kv.0.as_str());
    s.append("=");
    append_escaped(&mut s, kv.1.as_str());
    proof {
        assert(entries.deep_view()[start as int] == (kv.0@, kv.1@));
        assert(s@ =~= spec_member(whole[0]));
    }
    if start + 1 < entries.len() {
        s.append(",");
        let rest = format_baggage_from(entries, start + 1);
        s.append(rest.as_str());
        proof {
            assert(whole.drop_first() =~= entries.deep_view().subrange(
                start as int + 1,
                entries@.len() as int,
            ));
            assert(s@ =~= spec_member(whole[0]) + seq![','] + spec_format_baggage(
                whole.drop_first(),
            ));
        }
    } else {
        proof {
            assert(whole.len() == 1);
        }
    }
    s
}

/// Encodes a baggage list as its header value.
pub fn format_baggage(entries: &Vec<(String, String)>) -> (r: String)
    ensures
        r@ == spec_format_baggage(entries.deep_view()),
{
    let r = format_baggage_from(entries, 0);
    proof {
        assert(entries.deep_view().subrange(0, entries@.len() as int) =~= entries.deep_view());
    }
    r
}

/// Decodes a baggage header, exactly when every member is well formed.
pub fn parse_baggage(s: &str) -> (r: Option<Vec<(String, String)>>)
    ensures
        r matches Some(v) ==> spec_parse_baggage(s@) == Some(v.deep_view()),
        r is None ==> spec_parse_baggage(s@) is None,
    decreases s@.len(),
{
    if !s.is_ascii() {
        proof {
            if spec_parse_baggage(s@) is Some {
                lemma_parse_baggage_ascii(s@);
            }
        }
        return None;
    }
    let n = s.unicode_len();
    let i = find_char(s, ',');
    if i == n {
        match parse_member(s) {
            Some(kv) => {
                let ghost kview = (kv.0@, kv.1@);
                let mut out: Vec<(String, String)> = Vec::new();
                out.push(kv);
                proof {
                    assert(out.deep_view() =~= seq![kview]);
                }
                Some(out)
            },
            None => None,
        }
    } else {
        let head = s.substring_ascii(0, i);
        let tail = s.substring_ascii(i + 1, n);
        match parse_member(head) {
            None => None,
            Some(kv) => match parse_baggage(tail) {
                None => None,
                Some(rest) => {
                    let ghost kview = (kv.0@, kv.1@);
                    let mut out: Vec<(String, String)> = Vec::new();
                    out.push(kv);
                    let mut rest = rest;
                    let ghost rest_vecview = rest@;
                    let ghost rest_view = rest.deep_view();
                    out.append(&mut rest);
                    proof {
                        assert forall|p: int| 0 <= p < out.deep_view().len() implies
                            out.deep_view()[p] == (seq![kview] + rest_view)[p] by {
                            if p > 0 {
                                assert(out@[p] == rest_vecview[p - 1]);
                            }
                        }
                        assert(out.deep_view() =~= seq![kview] + rest_view);
                    }
                    Some(out)
                },
            },
        }
    }
}

} // verus!
