//! Storage-key derivation: a cache key is the fixed namespace token
//! `config_cache:` followed by the percent-encoded upstream URL.
//! Namespacing isolates this service's entries inside a shared store;
//! encoding removes delimiter collisions from special characters.

use vstd::prelude::*;
use vstd::string::StrSliceExecFns;
use vstd::string::StringExecFns;
use vstd::string::StringSliceAdditionalSpecFns;

verus! {

/// Bytes that percent-encoding passes through unchanged: ASCII
/// alphanumerics and `-`, `.`, `_`, `~`.
pub open spec fn is_unreserved_byte(b: u8) -> bool {
    ||| 48 <= b <= 57  // '0'..='9'
    ||| 65 <= b <= 90  // 'A'..='Z'
    ||| 97 <= b <= 122  // 'a'..='z'
    ||| b == 45  // '-'
    ||| b == 46  // '.'
    ||| b == 95  // '_'
    ||| b == 126  // '~'
}

/// Uppercase hexadecimal digit for a value below sixteen.
pub open spec fn hex_digit_char(d: u8) -> char
    recommends
        d < 16,
{
    if d < 10 {
        (d + 48) as char
    } else {
        (d + 55) as char
    }
}

/// How one byte is rendered: unreserved bytes stand for themselves,
/// every other byte becomes `%` plus two uppercase hex digits.
pub open spec fn percent_encode_byte(b: u8) -> Seq<char> {
    if is_unreserved_byte(b) {
        seq![b as char]
    } else {
        seq!['%', hex_digit_char(b / 16), hex_digit_char(b % 16)]
    }
}

/// Percent-encoding of a whole byte string, byte by byte.
pub open spec fn percent_encode(bytes: Seq<u8>) -> Seq<char>
    decreases bytes.len(),
{
    if bytes.len() == 0 {
        Seq::empty()
    } else {
        percent_encode_byte(bytes[0]) + percent_encode(bytes.drop_first())
    }
}

/// The namespace token put in front of every key this service writes.
pub open spec fn cache_prefix() -> Seq<char> {
    "config_cache:"@
}

/// A key lies in this service's namespace when it starts with the
/// namespace token.
pub open spec fn has_cache_prefix(key: Seq<char>) -> bool {
    key.len() >= cache_prefix().len() && key.subrange(0, cache_prefix().len() as int)
        == cache_prefix()
}

/// Relies on urlencoding::encode: percent-encodes every byte of the
/// UTF-8 form of the input except ASCII alphanumerics and `-`, `.`,
/// `_`, `~`, writing `%` plus two uppercase hex digits for each
/// escaped byte.
#[verifier::external_body]
fn url_encode(s: &str) -> (r: String)
    ensures
        r@ == percent_encode(s.spec_bytes()),
{
    urlencoding::encode(s).into_owned()
}

/// The storage key for an upstream URL: the namespace token followed
/// by the percent-encoded URL. Deterministic, so concurrent requests
/// for one URL always meet on the same entry.
pub fn cache_key_for(url: &str) -> (key: String)
    ensures
        key@ == cache_prefix() + percent_encode(url.spec_bytes()),
{
    let mut key = "config_cache:".to_owned();
    let encoded = url_encode(url);
    key.append(encoded.as_str());
    key
}

/// The match pattern handed to the store's cursor scan: every key in
/// the namespace, and nothing else.
pub fn scan_pattern() -> (pattern: String)
    ensures
        pattern@ == cache_prefix() + seq!['*'],
{
    proof {
        reveal_strlit("config_cache:");
        reveal_strlit("config_cache:*");
        assert("config_cache:*"@ =~= "config_cache:"@ + seq!['*']);
    }
    "config_cache:*".to_owned()
}

/// Whether a key lies in this service's namespace; the executable
/// counterpart of the scan pattern above.
pub fn is_namespace_key(key: &str) -> (r: bool)
    ensures
        r == has_cache_prefix(key@),
{
    proof {
        reveal_strlit("config_cache:");
    }
    let n = key.unicode_len();
    if n < 13 {
        false
    } else {
        let head = key.substring_char(0, 13);
        let head_owned = String::from_str(head);
        let prefix = String::from_str("config_cache:");
        head_owned == prefix
    }
}

/// Every key this service derives lies in its own namespace: what the
/// purge pattern selects covers exactly what the service writes.
pub proof fn lemma_cache_key_in_namespace(key: Seq<char>, url_bytes: Seq<u8>)
    requires
        key == cache_prefix() + percent_encode(url_bytes),
    ensures
        has_cache_prefix(key),
{
    assert(key.subrange(0, cache_prefix().len() as int) =~= cache_prefix());
}

proof fn lemma_byte_char_injective(x: u8, y: u8)
    requires
        x as char == y as char,
    ensures
        x == y,
{
    assert((x as char) as u32 == x as u32);
    assert((y as char) as u32 == y as u32);
}

proof fn lemma_hex_char_injective(x: u8, y: u8)
    requires
        x < 16,
        y < 16,
        hex_digit_char(x) == hex_digit_char(y),
    ensures
        x == y,
{
    if x < 10 && y < 10 {
        lemma_byte_char_injective((x + 48) as u8, (y + 48) as u8);
    } else if x >= 10 && y >= 10 {
        lemma_byte_char_injective((x + 55) as u8, (y + 55) as u8);
    } else if x < 10 {
        lemma_byte_char_injective((x + 48) as u8, (y + 55) as u8);
    } else {
        lemma_byte_char_injective((x + 55) as u8, (y + 48) as u8);
    }
}

/// Percent-encoding keeps distinct byte strings apart: equal encodings
/// can only come from equal inputs.
pub proof fn lemma_percent_encode_injective(a: Seq<u8>, b: Seq<u8>)
    requires
        percent_encode(a) == percent_encode(b),
    ensures
        a == b,
    decreases a.len(),
{
    if a.len() == 0 && b.len() == 0 {
        assert(a =~= b);
    } else if a.len() == 0 {
        assert(percent_encode(b) == percent_encode_byte(b[0]) + percent_encode(b.drop_first()));
        assert(percent_encode(a).len() == 0 && percent_encode(b).len() >= 1);
    } else if b.len() == 0 {
        assert(percent_encode(a) == percent_encode_byte(a[0]) + percent_encode(a.drop_first()));
        assert(percent_encode(b).len() == 0 && percent_encode(a).len() >= 1);
    } else {
        let ea = percent_encode_byte(a[0]);
        let eb = percent_encode_byte(b[0]);
        let ra = percent_encode(a.drop_first());
        let rb = percent_encode(b.drop_first());
        assert(percent_encode(a) == ea + ra);
        assert(percent_encode(b) == eb + rb);
        assert(ea[0] == (ea + ra)[0] && eb[0] == (eb + rb)[0]);
        if is_unreserved_byte(a[0]) && is_unreserved_byte(b[0]) {
            lemma_byte_char_injective(a[0], b[0]);
        } else if is_unreserved_byte(a[0]) && !is_unreserved_byte(b[0]) {
            // an unreserved byte never renders as the escape character
            assert(a[0] as char == '%');
            lemma_byte_char_injective(a[0], 37);
        } else if !is_unreserved_byte(a[0]) && is_unreserved_byte(b[0]) {
            assert(b[0] as char == '%');
            lemma_byte_char_injective(b[0], 37);
        } else {
            assert(ea[1] == (ea + ra)[1] && eb[1] == (eb + rb)[1]);
            assert(ea[2] == (ea + ra)[2] && eb[2] == (eb + rb)[2]);
            lemma_hex_char_injective(a[0] / 16, b[0] / 16);
            lemma_hex_char_injective(a[0] % 16, b[0] % 16);
        }
        assert(a[0] == b[0]);
        assert(ea.len() == eb.len());
        assert(ra.len() == rb.len());
        assert forall|i: int| 0 <= i < ra.len() implies ra[i] == rb[i] by {
            assert((ea + ra)[ea.len() + i] == ra[i]);
            assert((eb + rb)[eb.len() + i] == rb[i]);
        }
        assert(ra =~= rb);
        lemma_percent_encode_injective(a.drop_first(), b.drop_first());
        assert(a.len() == b.len());
        assert forall|i: int| 0 <= i < a.len() implies a[i] == b[i] by {
            if i > 0 {
                assert(a.drop_first()[i - 1] == a[i]);
                assert(b.drop_first()[i - 1] == b[i]);
            }
        }
        assert(a =~= b);
    }
}

/// Key derivation is injective: two distinct upstream URLs never meet
/// on one storage key, so for any given URL at most one logical cache
/// entry exists at a time.
pub proof fn lemma_cache_key_injective(url1: Seq<char>, url2: Seq<char>)
    requires
        cache_prefix() + percent_encode(vstd::utf8::encode_utf8(url1)) == cache_prefix()
            + percent_encode(vstd::utf8::encode_utf8(url2)),
    ensures
        url1 == url2,
{
    let e1 = percent_encode(vstd::utf8::encode_utf8(url1));
    let e2 = percent_encode(vstd::utf8::encode_utf8(url2));
    let n = cache_prefix().len() as int;
    assert((cache_prefix() + e1).len() == n + e1.len());
    assert((cache_prefix() + e2).len() == n + e2.len());
    assert(e1.len() == e2.len());
    assert forall|i: int| 0 <= i < e1.len() implies e1[i] == e2[i] by {
        assert((cache_prefix() + e1)[n + i] == e1[i]);
        assert((cache_prefix() + e2)[n + i] == e2[i]);
    }
    assert(e1 =~= e2);
    lemma_percent_encode_injective(vstd::utf8::encode_utf8(url1), vstd::utf8::encode_utf8(url2));
    vstd::utf8::encode_utf8_decode_utf8(url1);
    vstd::utf8::encode_utf8_decode_utf8(url2);
}

} // verus!
