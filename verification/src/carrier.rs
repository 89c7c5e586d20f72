//! The transport metadata carrier.
//!
//! A remote call's metadata is an ordered multimap of header keys to byte
//! values. This library reads and writes its text-valued entries: the
//! model of a map `m` is `meta_text(m)`, the partial map from each key to
//! its value where that value decodes as printable text. Keys are
//! lowercase header tokens; a key carrying the binary-value marker suffix
//! never holds text.

use vstd::prelude::*;

use tonic::metadata::MetadataMap;

verus! {

/// Characters tonic accepts in a header key, in lowercase wire form.
pub open spec fn is_metadata_key_char(c: char) -> bool {
    ||| c as int == 33
    ||| (35 <= c as int && c as int <= 39)
    ||| c as int == 42
    ||| c as int == 43
    ||| c as int == 45
    ||| c as int == 46
    ||| (48 <= c as int && c as int <= 57)
    ||| (94 <= c as int && c as int <= 96)
    ||| (97 <= c as int && c as int <= 122)
    ||| c as int == 124
    ||| c as int == 126
}

/// The suffix that marks a key as holding a binary value.
pub open spec fn binary_marker() -> Seq<char> {
    seq!['-', 'b', 'i', 'n']
}

/// A key under which a text value can be stored: a non-empty run of
/// lowercase token characters without the binary-value marker suffix.
pub open spec fn valid_metadata_key(k: Seq<char>) -> bool {
    &&& k.len() > 0
    &&& (forall|i: int| 0 <= i < k.len() ==> is_metadata_key_char(#[trigger] k[i]))
    &&& !(k.len() >= 4 && k.subrange(k.len() - 4, k.len() as int) == binary_marker())
}

/// Uppercase ASCII folded to lowercase; every other character unchanged.
pub open spec fn lower_char(c: char) -> char {
    if 65 <= c as int && c as int <= 90 {
        ((c as int + 32) as char)
    } else {
        c
    }
}

/// A key's lowercase wire form.
pub open spec fn lower_seq(k: Seq<char>) -> Seq<char> {
    Seq::new(k.len(), |i: int| lower_char(k[i]))
}

/// A key the metadata can encode: keys are case-insensitive, and one is
/// accepted exactly when its lowercase wire form is a valid stored key.
pub open spec fn encodable_metadata_key(k: Seq<char>) -> bool {
    valid_metadata_key(lower_seq(k))
}

/// Characters a text value may hold: printable ASCII and the tab.
pub open spec fn is_metadata_value_char(c: char) -> bool {
    c == '\t' || (32 <= c as int && c as int <= 126)
}

/// A value that can be stored as text and read back as text.
pub open spec fn valid_metadata_value(v: Seq<char>) -> bool {
    forall|i: int| 0 <= i < v.len() ==> is_metadata_value_char(#[trigger] v[i])
}

#[verifier::external_type_specification]
#[verifier::external_body]
pub struct ExMetadataMap(MetadataMap);

/// The text-valued entries of a metadata map, keyed by their lowercase
/// wire-form key.
pub uninterp spec fn meta_text(m: MetadataMap) -> Map<Seq<char>, Seq<char>>;

/// Relies on tonic's MetadataMap::new: a fresh carrier holding no
/// entries.
#[verifier::external_body]
pub fn new_carrier() -> (m: MetadataMap)
    ensures
        forall|k: Seq<char>| !meta_text(m).contains_key(k),
        meta_all_keys(m).len() == 0,
{
    MetadataMap::new()
}

/// Relies on tonic's MetadataMap::get and MetadataValue::to_str: for an
/// encodable key (looked up case-insensitively, by its lowercase wire
/// form), returns the stored value exactly when the entry exists and
/// decodes as printable text.
#[verifier::external_body]
pub(crate) fn meta_get(m: &MetadataMap, key: &str) -> (r: Option<String>)
    requires
        encodable_metadata_key(key@),
    ensures
        r matches Some(v) ==> meta_text(*m).contains_key(lower_seq(key@)) && v@ == meta_text(
            *m,
        )[lower_seq(key@)] && valid_metadata_value(v@),
        r is None ==> !meta_text(*m).contains_key(lower_seq(key@)),
{
    m.get(key).and_then(|v| v.to_str().ok()).map(|s| s.to_owned())
}

/// Relies on tonic's MetadataKey::from_bytes, MetadataValue::try_from and
/// MetadataMap::insert: an encodable key, folded to its lowercase wire
/// form, and a printable text value parse and are stored, replacing any
/// previous entry under that key.
#[verifier::external_body]
pub(crate) fn meta_insert(m: &mut MetadataMap, key: &str, value: &str)
    requires
        encodable_metadata_key(key@),
        valid_metadata_value(value@),
    ensures
        meta_text(*final(m)) == meta_text(*old(m)).insert(lower_seq(key@), value@),
{
    if let Ok(k) = tonic::metadata::MetadataKey::from_bytes(key.as_bytes()) {
        if let Ok(v) = tonic::metadata::MetadataValue::try_from(value) {
            m.insert(k, v);
        }
    }
}

/// The keys stored in a metadata map, one per key in map order, each in
/// its plain string form (binary-marker keys included).
pub uninterp spec fn meta_all_keys(m: MetadataMap) -> Seq<Seq<char>>;

/// Relies on tonic's MetadataMap::keys: the stored keys are enumerated
/// exactly, one per key in map order, binary-marker keys in their plain
/// string form; every text entry's key is among them.
#[verifier::external_body]
pub(crate) fn meta_keys(m: &MetadataMap) -> (r: Vec<String>)
    ensures
        r.deep_view() == meta_all_keys(*m),
        forall|k: Seq<char>| #[trigger] meta_text(*m).contains_key(k) ==> r.deep_view().contains(
            k,
        ),
{
    m.keys()
        .map(|key| match key {
            tonic::metadata::KeyRef::Ascii(v) => v.as_str().to_owned(),
            tonic::metadata::KeyRef::Binary(v) => v.as_str().to_owned(),
        })
        .collect()
}

/// Whether `s` is a key under which a text value can be stored.
pub fn is_valid_metadata_key(s: &str) -> (r: bool)
    ensures
        r == valid_metadata_key(s@),
{
    let n = s.unicode_len();
    if n == 0 {
        return false;
    }
    let mut i: usize = 0;
    while i < n
        invariant
            i <= n,
            n == s@.len(),
            forall|j: int| 0 <= j < i ==> is_metadata_key_char(#[trigger] s@[j]),
        decreases n - i,
    {
        let c = s.get_char(i);
        let code = c as u32;
        let ok = code == 33 || (code >= 35 && code <= 39) || code == 42 || code == 43 || code == 45
            || code == 46 || (code >= 48 && code <= 57) || (code >= 94 && code <= 96) || (code
            >= 97 && code <= 122) || code == 124 || code == 126;
        if !ok {
            return false;
        }
        i = i + 1;
    }
    if n >= 4 {
        if s.get_char(n - 4) == '-' && s.get_char(n - 3) == 'b' && s.get_char(n - 2) == 'i'
            && s.get_char(n - 1) == 'n' {
            proof {
                assert(s@.subrange(s@.len() - 4, s@.len() as int) =~= binary_marker());
            }
            return false;
        }
        proof {
            if s@.subrange(s@.len() - 4, s@.len() as int) == binary_marker() {
                assert(s@[s@.len() - 4] == binary_marker()[0]);
                assert(s@[s@.len() - 3] == binary_marker()[1]);
                assert(s@[s@.len() - 2] == binary_marker()[2]);
                assert(s@[s@.len() - 1] == binary_marker()[3]);
            }
        }
    }
    true
}

/// The lowercase fold of one character's code.
fn lower_code(c: char) -> (r: u32)
    ensures
        r == lower_char(c) as u32,
{
    let v = c as u32;
    if v >= 65 && v <= 90 {
        v + 32
    } else {
        v
    }
}

/// Whether the metadata can encode `s` as a key, folding uppercase to
/// lowercase.
pub fn is_encodable_metadata_key(s: &str) -> (r: bool)
    ensures
        r == encodable_metadata_key(s@),
{
    let n = s.unicode_len();
    if n == 0 {
        proof {
            assert(lower_seq(s@).len() == 0);
        }
        return false;
    }
    let mut i: usize = 0;
    while i < n
        invariant
            i <= n,
            n == s@.len(),
            forall|j: int| 0 <= j < i ==> is_metadata_key_char(#[trigger] lower_char(s@[j])),
        decreases n - i,
    {
        let c = s.get_char(i);
        let code = lower_code(c);
        let ok = code == 33 || (code >= 35 && code <= 39) || code == 42 || code == 43 || code == 45
            || code == 46 || (code >= 48 && code <= 57) || (code >= 94 && code <= 96) || (code
            >= 97 && code <= 122) || code == 124 || code == 126;
        if !ok {
            proof {
                assert(lower_seq(s@)[i as int] == lower_char(s@[i as int]));
            }
            return false;
        }
        i = i + 1;
    }
    proof {
        assert forall|j: int| 0 <= j < lower_seq(s@).len() implies is_metadata_key_char(
            #[trigger] lower_seq(s@)[j],
        ) by {
            assert(lower_seq(s@)[j] == lower_char(s@[j]));
        }
    }
    if n >= 4 {
        if lower_code(s.get_char(n - 4)) == 45 && lower_code(s.get_char(n - 3)) == 98 && lower_code(
            s.get_char(n - 2),
        ) == 105 && lower_code(s.get_char(n - 1)) == 110 {
            proof {
                assert(lower_seq(s@).subrange(s@.len() - 4, s@.len() as int) =~= binary_marker());
            }
            return false;
        }
        proof {
            let low = lower_seq(s@);
            if low.subrange(low.len() - 4, low.len() as int) == binary_marker() {
                assert(low[low.len() - 4] == binary_marker()[0]);
                assert(low[low.len() - 3] == binary_marker()[1]);
                assert(low[low.len() - 2] == binary_marker()[2]);
                assert(low[low.len() - 1] == binary_marker()[3]);
            }
        }
    }
    true
}

/// Whether `s` can be stored as a text value and read back.
pub fn is_valid_metadata_value(s: &str) -> (r: bool)
    ensures
        r == valid_metadata_value(s@),
{
    let n = s.unicode_len();
    let mut i: usize = 0;
    while i < n
        invariant
            i <= n,
            n == s@.len(),
            forall|j: int| 0 <= j < i ==> is_metadata_value_char(#[trigger] s@[j]),
        decreases n - i,
    {
        let c = s.get_char(i);
        let code = c as u32;
        if !(code == 9 || (code >= 32 && code <= 126)) {
            return false;
        }
        i = i + 1;
    }
    true
}

} // verus!
