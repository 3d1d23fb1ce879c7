//! Digests, message authentication codes and their hex rendering.
use vstd::prelude::*;

verus! {

/// The SHA-256 digest of a byte string.
pub uninterp spec fn sha256_of(data: Seq<u8>) -> Seq<u8>;

/// The HMAC-SHA256 tag of a message under a key.
pub uninterp spec fn hmac_sha256_of(key: Seq<u8>, message: Seq<u8>) -> Seq<u8>;

/// The lowercase hex digit of a value below sixteen.
pub open spec fn hex_digit(n: int) -> char {
    seq!['0', '1', '2', '3', '4', '5', '6', '7', '8', '9', 'a', 'b', 'c', 'd', 'e', 'f'][n]
}

/// Two lowercase hex digits for each byte, high nibble first.
pub open spec fn hex_of(b: Seq<u8>) -> Seq<char>
    decreases b.len(),
{
    if b.len() == 0 {
        Seq::empty()
    } else {
        hex_of(b.drop_last()) + seq![hex_digit(b.last() as int / 16), hex_digit(b.last() as int % 16)]
    }
}

/// Whether a character is a lowercase hex digit.
pub open spec fn is_hex_char(c: char) -> bool {
    ('0' <= c && c <= '9') || ('a' <= c && c <= 'f')
}

/// Whether a text is all lowercase hex digits.
pub open spec fn is_hex_text(s: Seq<char>) -> bool {
    forall|i: int| 0 <= i < s.len() ==> is_hex_char(#[trigger] s[i])
}

proof fn lemma_hex_digit(n: int)
    requires
        0 <= n < 16,
    ensures
        is_hex_char(hex_digit(n)),
{
    let t = seq!['0', '1', '2', '3', '4', '5', '6', '7', '8', '9', 'a', 'b', 'c', 'd', 'e', 'f'];
    assert(t[0] == '0' && t[1] == '1' && t[2] == '2' && t[3] == '3' && t[4] == '4' && t[5] == '5');
    assert(t[6] == '6' && t[7] == '7' && t[8] == '8' && t[9] == '9' && t[10] == 'a' && t[11] == 'b');
    assert(t[12] == 'c' && t[13] == 'd' && t[14] == 'e' && t[15] == 'f');
}

/// Hex text has two lowercase hex digits per byte.
pub proof fn lemma_hex_shape(b: Seq<u8>)
    ensures
        hex_of(b).len() == 2 * b.len(),
        is_hex_text(hex_of(b)),
    decreases b.len(),
{
    if b.len() > 0 {
        lemma_hex_shape(b.drop_last());
        lemma_hex_digit(b.last() as int / 16);
        lemma_hex_digit(b.last() as int % 16);
        let h = hex_of(b);
        let p = hex_of(b.drop_last());
        assert forall|i: int| 0 <= i < h.len() implies is_hex_char(#[trigger] h[i]) by {
            if i < p.len() {
                assert(h[i] == p[i]);
            }
        }
    }
}

/// Relies on `sha2::Sha256::digest`: the 32-byte SHA-256 digest of the input.
#[verifier::external_body]
pub(crate) fn sha256(data: &[u8]) -> (r: Vec<u8>)
    ensures
        r@ == sha256_of(data@),
        r@.len() == 32,
{
    <sha2::Sha256 as sha2::Digest>::digest(data).to_vec()
}

/// Relies on `hmac::Hmac<sha2::Sha256>` through `hmac::Mac`: the 32-byte HMAC-SHA256 tag.
/// HMAC takes a key of any length, so making the MAC does not fail.
#[verifier::external_body]
pub(crate) fn hmac_sha256(key: &[u8], message: &[u8]) -> (r: Vec<u8>)
    ensures
        r@ == hmac_sha256_of(key@, message@),
        r@.len() == 32,
{
    let mut mac = <hmac::Hmac<sha2::Sha256> as hmac::Mac>::new_from_slice(key)
        .expect("HMAC takes keys of any length");
    hmac::Mac::update(&mut mac, message);
    hmac::Mac::finalize(mac).into_bytes().to_vec()
}

/// Relies on `hex::encode`: two lowercase hex digits per byte, in order.
#[verifier::external_body]
pub(crate) fn hex_encode(data: &[u8]) -> (r: String)
    ensures
        r@ == hex_of(data@),
{
    hex::encode(data)
}

/// The first `n` bytes of a byte string, in hex.
pub fn hex_prefix(data: &[u8], n: usize) -> (r: String)
    requires
        n <= data@.len(),
    ensures
        r@ == hex_of(data@.subrange(0, n as int)),
        r@.len() == 2 * n,
        is_hex_text(r@),
{
    proof {
        lemma_hex_shape(data@.subrange(0, n as int));
    }
    let mut head: Vec<u8> = Vec::new();
    let mut i: usize = 0;
    while i < n
        invariant
            i <= n,
            n <= data@.len(),
            head@ == data@.subrange(0, i as int),
        decreases n - i,
    {
        head.push(data[i]);
        i += 1;
        proof {
            assert(head@ =~= data@.subrange(0, i as int));
        }
    }
    hex_encode(head.as_slice())
}

} // verus!
