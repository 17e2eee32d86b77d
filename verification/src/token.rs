//! Token minting: a token is the text `isnad_` followed by the lower-case
//! hexadecimal SHA-256 digest of the peer's name, a 128-bit random value and
//! the time of issue.

use sha2::Digest;
use vstd::prelude::*;
use vstd::utf8::encode_utf8;

verus! {

/// The SHA-256 digest of a byte string.
pub uninterp spec fn sha256_digest(data: Seq<u8>) -> Seq<u8>;

/// `sha2::Sha256::digest`: the SHA-256 digest of the bytes, which is 32
/// bytes long. The digest itself is named, not spelled out.
#[verifier::external_body]
pub(crate) fn sha256(data: &Vec<u8>) -> (r: Vec<u8>)
    ensures
        r@ == sha256_digest(data@),
        r@.len() == 32,
{
    sha2::Sha256::digest(data.as_slice()).to_vec()
}

/// `uuid::Uuid::new_v4`, as its 16 bytes: a random value, of which nothing
/// but its length is known.
#[verifier::external_body]
pub(crate) fn random_nonce() -> (r: Vec<u8>)
    ensures
        r@.len() == 16,
{
    uuid::Uuid::new_v4().as_bytes().to_vec()
}

/// `chrono::Utc::now().timestamp()`: the current time in Unix seconds, of
/// which nothing is known beforehand.
#[verifier::external_body]
pub(crate) fn clock_seconds() -> i64 {
    chrono::Utc::now().timestamp()
}

/// The unsigned 64-bit value with the same bits as `x`.
pub open spec fn unsigned64(x: i64) -> nat {
    if x < 0 {
        (x + 0x1_0000_0000_0000_0000) as nat
    } else {
        x as nat
    }
}

/// The `n` lowest bytes of `v`, lowest first.
pub open spec fn low_bytes(v: nat, n: nat) -> Seq<u8>
    decreases n,
{
    if n == 0 {
        Seq::empty()
    } else {
        seq![(v % 256) as u8] + low_bytes(v / 256, (n - 1) as nat)
    }
}

/// The eight bytes of a 64-bit integer, little-endian.
pub open spec fn le_bytes(x: i64) -> Seq<u8> {
    low_bytes(unsigned64(x), 8)
}

/// The lower-case hexadecimal digit of a value below sixteen.
pub open spec fn hex_digit(d: int) -> char {
    if d == 0 {
        '0'
    } else if d == 1 {
        '1'
    } else if d == 2 {
        '2'
    } else if d == 3 {
        '3'
    } else if d == 4 {
        '4'
    } else if d == 5 {
        '5'
    } else if d == 6 {
        '6'
    } else if d == 7 {
        '7'
    } else if d == 8 {
        '8'
    } else if d == 9 {
        '9'
    } else if d == 10 {
        'a'
    } else if d == 11 {
        'b'
    } else if d == 12 {
        'c'
    } else if d == 13 {
        'd'
    } else if d == 14 {
        'e'
    } else {
        'f'
    }
}

/// Whether a character is a lower-case hexadecimal digit.
pub open spec fn is_hex_digit(c: char) -> bool {
    exists|d: int| 0 <= d < 16 && c == #[trigger] hex_digit(d)
}

/// Bytes written in lower-case hexadecimal, two digits per byte.
pub open spec fn hex_lower(bytes: Seq<u8>) -> Seq<char> {
    Seq::new(
        2 * bytes.len(),
        |i: int|
            if i % 2 == 0 {
                hex_digit(bytes[i / 2] as int / 16)
            } else {
                hex_digit(bytes[i / 2] as int % 16)
            },
    )
}

/// The bytes that are hashed for a token: the peer's name in UTF-8, then the
/// random value, then the time of issue as eight little-endian bytes.
pub open spec fn token_preimage(peer_id: Seq<char>, nonce: Seq<u8>, now: i64) -> Seq<u8> {
    encode_utf8(peer_id) + nonce + le_bytes(now)
}

/// The token for a peer, a random value and a time of issue.
pub open spec fn token_for(peer_id: Seq<char>, nonce: Seq<u8>, now: i64) -> Seq<char> {
    "isnad_"@ + hex_lower(sha256_digest(token_preimage(peer_id, nonce, now)))
}

/// The shape of every token: `isnad_`, then 64 lower-case hexadecimal digits.
pub open spec fn token_shaped(t: Seq<char>) -> bool {
    &&& t.len() == 70
    &&& t.subrange(0, 6) == "isnad_"@
    &&& forall|i: int| 6 <= i < 70 ==> is_hex_digit(#[trigger] t[i])
}

/// The lower-case hexadecimal digit of a value below sixteen.
pub(crate) fn hex_digit_of(d: u8) -> (c: char)
    requires
        d < 16,
    ensures
        c == hex_digit(d as int),
{
    if d == 0 {
        '0'
    } else if d == 1 {
        '1'
    } else if d == 2 {
        '2'
    } else if d == 3 {
        '3'
    } else if d == 4 {
        '4'
    } else if d == 5 {
        '5'
    } else if d == 6 {
        '6'
    } else if d == 7 {
        '7'
    } else if d == 8 {
        '8'
    } else if d == 9 {
        '9'
    } else if d == 10 {
        'a'
    } else if d == 11 {
        'b'
    } else if d == 12 {
        'c'
    } else if d == 13 {
        'd'
    } else if d == 14 {
        'e'
    } else {
        'f'
    }
}

/// Appends the eight little-endian bytes of `x` to `out`.
pub fn push_le_bytes(out: &mut Vec<u8>, x: i64)
    ensures
        final(out)@ == old(out)@ + le_bytes(x),
{
    let mut v: u64 = if x < 0 {
        (x as i128 + 0x1_0000_0000_0000_0000i128) as u64
    } else {
        x as u64
    };
    let mut k: usize = 0;
    assert(old(out)@ + Seq::<u8>::empty() =~= old(out)@);
    while k < 8
        invariant
            k <= 8,
            out@ + low_bytes(v as nat, (8 - k) as nat) == old(out)@ + le_bytes(x),
        decreases 8 - k,
    {
        let ghost before = out@;
        out.push((v % 256) as u8);
        assert(before + (seq![(v % 256) as u8] + low_bytes((v / 256) as nat, (8 - k - 1) as nat))
            =~= before.push((v % 256) as u8) + low_bytes((v / 256) as nat, (8 - k - 1) as nat));
        v = v / 256;
        k = k + 1;
    }
    assert(out@ + Seq::<u8>::empty() =~= out@);
}

/// Writes bytes in lower-case hexadecimal after `prefix`.
pub fn append_hex(prefix: &str, bytes: &Vec<u8>) -> (r: String)
    ensures
        r@ == prefix@ + hex_lower(bytes@),
{
    let mut r: String = prefix.to_owned();
    let mut i: usize = 0;
    assert(hex_lower(bytes@.take(0)) =~= Seq::<char>::empty());
    assert(prefix@ + Seq::<char>::empty() =~= prefix@);
    while i < bytes.len()
        invariant
            i <= bytes.len(),
            r@ == prefix@ + hex_lower(bytes@.take(i as int)),
        decreases bytes.len() - i,
    {
        let b = bytes[i];
        r.push(hex_digit_of(b / 16));
        r.push(hex_digit_of(b % 16));
        assert(hex_lower(bytes@.take(i + 1)) =~= hex_lower(bytes@.take(i as int)).push(
            hex_digit(b as int / 16),
        ).push(hex_digit(b as int % 16)));
        assert(r@ =~= prefix@ + hex_lower(bytes@.take(i + 1)));
        i = i + 1;
    }
    assert(bytes@.take(bytes.len() as int) =~= bytes@);
    r
}

/// Mints the token for a peer from a random value and the time of issue.
pub fn generate_token(peer_id: &str, nonce: &Vec<u8>, now: i64) -> (r: String)
    ensures
        r@ == token_for(peer_id@, nonce@, now),
        token_shaped(r@),
{
    let mut preimage: Vec<u8> = peer_id.as_bytes_vec();
    let mut i: usize = 0;
    while i < nonce.len()
        invariant
            i <= nonce.len(),
            preimage@ == encode_utf8(peer_id@) + nonce@.take(i as int),
        decreases nonce.len() - i,
    {
        preimage.push(nonce[i]);
        assert(nonce@.take(i + 1) =~= nonce@.take(i as int).push(nonce@[i as int]));
        assert(preimage@ =~= encode_utf8(peer_id@) + nonce@.take(i + 1));
        i = i + 1;
    }
    assert(nonce@.take(nonce.len() as int) =~= nonce@);
    push_le_bytes(&mut preimage, now);
    let digest = sha256(&preimage);
    let r = append_hex("isnad_", &digest);
    proof {
        reveal_strlit("isnad_");
        assert(r@.len() == 70);
        assert(r@.subrange(0, 6) =~= "isnad_"@);
        assert forall|k: int| 6 <= k < 70 implies is_hex_digit(#[trigger] r@[k]) by {
            let j = k - 6;
            assert(r@[k] == hex_lower(digest@)[j]);
            if j % 2 == 0 {
                assert(r@[k] == hex_digit(digest@[j / 2] as int / 16));
            } else {
                assert(r@[k] == hex_digit(digest@[j / 2] as int % 16));
            }
        }
    }
    r
}

/// Mints a token for a peer at the given time, with a fresh random value.
pub fn fresh_token(peer_id: &str, now: i64) -> (r: String)
    ensures
        exists|nonce: Seq<u8>| nonce.len() == 16 && r@ == #[trigger] token_for(peer_id@, nonce, now),
        token_shaped(r@),
{
    let nonce = random_nonce();
    generate_token(peer_id, &nonce, now)
}

} // verus!
