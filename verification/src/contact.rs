//! Shareable addresses and contact strings.
//!
//! A contact string is the text `harbor://` followed by the contact's
//! bundle, serialised and written in URL-safe base64 without padding. The
//! bundle carries the contact's address, name and public keys; the keys are
//! written in standard base64.

use crate::api::AddContactRequest;
use crate::text::{
    contains, contains_seq, from_chars, matches_at, occurs_at, slice_of, to_chars,
};
use base64::Engine;
use vstd::prelude::*;
use vstd::utf8::encode_utf8;

verus! {

/// The error of `base64`'s decoders.
#[verifier::external_type_specification]
#[verifier::external_body]
pub struct ExDecodeError(base64::DecodeError);

/// Bytes written in URL-safe base64 without padding.
pub uninterp spec fn url_base64(bytes: Seq<u8>) -> Seq<char>;

/// The bytes that a text in URL-safe base64 without padding stands for, or
/// `None` where the text is not such an encoding.
pub uninterp spec fn url_base64_decoded(text: Seq<char>) -> Option<Seq<u8>>;

/// Bytes written in standard base64 with padding.
pub uninterp spec fn standard_base64(bytes: Seq<u8>) -> Seq<char>;

/// The bytes that a text in standard base64 with padding stands for, or
/// `None` where the text is not such an encoding.
pub uninterp spec fn standard_base64_decoded(text: Seq<char>) -> Option<Seq<u8>>;

/// `Engine::encode` of `base64`'s `URL_SAFE_NO_PAD` engine: the encoding is
/// a function of the bytes, named here. It fails only where the encoded
/// length is more than a buffer can hold, which the bound rules out.
#[verifier::external_body]
pub(crate) fn encode_url(bytes: &Vec<u8>) -> (r: String)
    requires
        bytes@.len() <= usize::MAX / 4,
    ensures
        r@ == url_base64(bytes@),
{
    base64::engine::general_purpose::URL_SAFE_NO_PAD.encode(bytes)
}

/// `Engine::decode` of `base64`'s `URL_SAFE_NO_PAD` engine: whether the text
/// decodes, and to which bytes, is a function of the text, named here.
#[verifier::external_body]
pub(crate) fn decode_url(text: &str) -> (r: Result<Vec<u8>, base64::DecodeError>)
    ensures
        r is Ok <==> url_base64_decoded(text@) is Some,
        r is Ok ==> r->Ok_0@ == url_base64_decoded(text@)->0,
{
    base64::engine::general_purpose::URL_SAFE_NO_PAD.decode(text)
}

/// `Engine::encode` of `base64`'s `STANDARD` engine: the encoding is a
/// function of the bytes, named here. It fails only where the encoded length
/// is more than a buffer can hold, which the bound rules out.
#[verifier::external_body]
pub(crate) fn encode_standard(bytes: &Vec<u8>) -> (r: String)
    requires
        bytes@.len() <= usize::MAX / 4,
    ensures
        r@ == standard_base64(bytes@),
{
    base64::engine::general_purpose::STANDARD.encode(bytes)
}

/// `Engine::decode` of `base64`'s `STANDARD` engine: whether the text
/// decodes, and to which bytes, is a function of the text, named here.
#[verifier::external_body]
pub(crate) fn decode_standard(text: &str) -> (r: Result<Vec<u8>, base64::DecodeError>)
    ensures
        r is Ok <==> standard_base64_decoded(text@) is Some,
        r is Ok ==> r->Ok_0@ == standard_base64_decoded(text@)->0,
{
    base64::engine::general_purpose::STANDARD.decode(text)
}

/// The `Display` text of a `base64::DecodeError`. Nothing is stated of it.
#[verifier::external_body]
pub(crate) fn decode_error_text(e: &base64::DecodeError) -> String {
    format!("{}", e)
}

/// A contact as it travels in a contact string.
#[derive(Debug)]
pub struct ContactBundle {
    pub multiaddr: String,
    pub display_name: String,
    /// The signing key, in standard base64.
    pub public_key: String,
    /// The key-agreement key, in standard base64.
    pub x25519_public: String,
    pub bio: Option<String>,
    pub avatar_hash: Option<String>,
}

/// Why a contact string was refused.
#[derive(Debug)]
pub enum ContactError {
    /// The string does not start with `harbor://`.
    InvalidFormat,
    /// What follows `harbor://` is not URL-safe base64.
    InvalidEncoding(String),
    /// The signing key is not standard base64.
    InvalidPublicKey(String),
    /// The key-agreement key is not standard base64.
    InvalidX25519Key(String),
}

/// The scheme that starts a contact string.
pub open spec fn scheme() -> Seq<char> {
    "harbor://"@
}

/// The marker that precedes a peer's name in an address.
pub open spec fn peer_marker() -> Seq<char> {
    "/p2p/"@
}

/// The views of a list of texts.
pub open spec fn texts(v: Seq<String>) -> Seq<Seq<char>> {
    Seq::new(v.len(), |i: int| v[i]@)
}

/// The view of an optional text.
pub open spec fn optional_text(t: Option<String>) -> Option<Seq<char>> {
    match t {
        Some(s) => Some(s@),
        None => None,
    }
}

/// The address is a loopback address.
pub open spec fn is_loopback(a: Seq<char>) -> bool {
    contains_seq(a, "127.0.0.1"@) || contains_seq(a, "::1"@)
}

/// The address with the peer's name after it, unless it names a peer.
pub open spec fn with_peer(a: Seq<char>, peer_id: Seq<char>) -> Seq<char> {
    if contains_seq(a, peer_marker()) {
        a
    } else {
        a + peer_marker() + peer_id
    }
}

/// The addresses that are not loopback addresses, each naming the peer, in
/// their order.
pub open spec fn public_addresses(external: Seq<Seq<char>>, peer_id: Seq<char>) -> Seq<Seq<char>>
    decreases external.len(),
{
    if external.len() == 0 {
        Seq::empty()
    } else {
        let front = public_addresses(external.drop_last(), peer_id);
        if is_loopback(external.last()) {
            front
        } else {
            front.push(with_peer(external.last(), peer_id))
        }
    }
}

/// The addresses to share: the public ones among the external addresses,
/// or the relay addresses where there is none.
pub open spec fn shareable(
    external: Seq<Seq<char>>,
    relay: Seq<Seq<char>>,
    peer_id: Seq<char>,
) -> Seq<Seq<char>> {
    let public = public_addresses(external, peer_id);
    if public.len() == 0 {
        relay
    } else {
        public
    }
}

/// The one address that goes into a contact string: the first relay
/// address, else the first external address, naming the peer; `None` where
/// there is neither.
pub open spec fn contact_address(
    relay: Seq<Seq<char>>,
    external: Seq<Seq<char>>,
    peer_id: Seq<char>,
) -> Option<Seq<char>> {
    if relay.len() > 0 {
        Some(relay[0])
    } else if external.len() > 0 {
        Some(with_peer(external[0], peer_id))
    } else {
        None
    }
}

/// What follows the last marker in `s`, markers being found from the left
/// and not overlapping; `from` is where the piece after the last marker
/// found so far starts, `at` where the search goes on.
pub open spec fn last_piece_from(s: Seq<char>, marker: Seq<char>, from: int, at: int) -> Seq<char>
    decreases s.len() - at,
{
    if marker.len() == 0 || at < 0 || at + marker.len() > s.len() {
        s.skip(from)
    } else if occurs_at(s, marker, at) {
        last_piece_from(s, marker, at + marker.len(), at + marker.len())
    } else {
        last_piece_from(s, marker, from, at + 1)
    }
}

/// The peer's name in an address: what follows the last `/p2p/`, or the
/// whole address where it has none.
pub open spec fn peer_of_address(a: Seq<char>) -> Seq<char> {
    last_piece_from(a, peer_marker(), 0, 0)
}

/// A copy of a text.
fn copy_text(s: &String) -> (r: String)
    ensures
        r@ == s@,
{
    s.as_str().to_owned()
}

/// A copy of an optional text.
fn copy_optional(t: &Option<String>) -> (r: Option<String>)
    ensures
        optional_text(r) == optional_text(*t),
{
    match t {
        Some(s) => Some(copy_text(s)),
        None => None,
    }
}

/// Tells whether a text holds the given words.
fn holds(a: &Vec<char>, words: &str) -> (r: bool)
    ensures
        r == contains_seq(a@, words@),
{
    let needle = to_chars(words);
    contains(a, &needle)
}

/// The address with the peer's name after it, unless it names a peer.
pub fn address_with_peer(a: &str, peer_id: &str) -> (r: String)
    ensures
        r@ == with_peer(a@, peer_id@),
{
    let chars = to_chars(a);
    if holds(&chars, "/p2p/") {
        a.to_owned()
    } else {
        a.to_owned().concat("/p2p/").concat(peer_id)
    }
}

/// Picks the addresses to share with others: the external addresses that
/// are not loopback addresses, each naming the peer; where there is none,
/// the relay addresses as they are.
pub fn shareable_addresses(external: &Vec<String>, relay: &Vec<String>, peer_id: &str) -> (out: Vec<
    String,
>)
    ensures
        texts(out@) == shareable(texts(external@), texts(relay@), peer_id@),
{
    let mut out: Vec<String> = Vec::new();
    let mut i: usize = 0;
    assert(texts(external@).take(0) =~= Seq::<Seq<char>>::empty());
    assert(texts(out@) =~= Seq::<Seq<char>>::empty());
    while i < external.len()
        invariant
            i <= external.len(),
            texts(out@) == public_addresses(texts(external@).take(i as int), peer_id@),
        decreases external.len() - i,
    {
        let ghost before = texts(out@);
        let ghost upto = texts(external@).take(i + 1);
        assert(upto.drop_last() =~= texts(external@).take(i as int));
        assert(upto.last() == external@[i as int]@);
        let chars = to_chars(external[i].as_str());
        if !holds(&chars, "127.0.0.1") && !holds(&chars, "::1") {
            out.push(address_with_peer(external[i].as_str(), peer_id));
            assert(texts(out@) =~= before.push(with_peer(external@[i as int]@, peer_id@)));
        }
        i = i + 1;
    }
    assert(texts(external@).take(external@.len() as int) =~= texts(external@));
    if out.len() == 0 {
        let mut j: usize = 0;
        while j < relay.len()
            invariant
                j <= relay.len(),
                texts(out@) == texts(relay@).take(j as int),
            decreases relay.len() - j,
        {
            let ghost before = texts(out@);
            out.push(copy_text(&relay[j]));
            assert(texts(out@) =~= before.push(relay@[j as int]@));
            assert(texts(relay@).take(j + 1) =~= texts(relay@).take(j as int).push(
                relay@[j as int]@,
            ));
            j = j + 1;
        }
        assert(texts(relay@).take(relay@.len() as int) =~= texts(relay@));
    }
    out
}

/// Picks the address that goes into a contact string: the first relay
/// address, else the first external address, naming the peer. There is none
/// where the node has neither.
pub fn contact_multiaddr(relay: &Vec<String>, external: &Vec<String>, peer_id: &str) -> (r: Option<
    String,
>)
    ensures
        optional_text(r) == contact_address(texts(relay@), texts(external@), peer_id@),
{
    if relay.len() > 0 {
        Some(copy_text(&relay[0]))
    } else if external.len() > 0 {
        Some(address_with_peer(external[0].as_str(), peer_id))
    } else {
        None
    }
}

/// The peer's name in an address: what follows the last `/p2p/`.
pub fn peer_id_of_multiaddr(address: &str) -> (r: String)
    ensures
        r@ == peer_of_address(address@),
{
    let chars = to_chars(address);
    let marker = to_chars("/p2p/");
    let mut from: usize = 0;
    let mut at: usize = 0;
    if marker.len() == 0 || marker.len() > chars.len() {
        assert(chars@.skip(0) =~= chars@);
        return address.to_owned();
    }
    let last: usize = chars.len() - marker.len();
    while at <= last
        invariant
            marker@.len() > 0,
            last == chars.len() - marker.len(),
            from <= at <= chars.len(),
            peer_of_address(address@) == last_piece_from(
                chars@,
                marker@,
                from as int,
                at as int,
            ),
            chars@ == address@,
            marker@ == peer_marker(),
        decreases chars.len() - at,
    {
        if matches_at(&chars, &marker, at) {
            at = at + marker.len();
            from = at;
        } else {
            at = at + 1;
        }
    }
    let piece = slice_of(&chars, from, chars.len());
    assert(chars@.subrange(from as int, chars@.len() as int) =~= chars@.skip(from as int));
    from_chars(&piece)
}

/// Frames a serialised bundle as a contact string: `harbor://`, then the
/// bundle in URL-safe base64 without padding. There is no contact string for
/// a bundle longer than a quarter of what the machine's word can count.
pub fn frame_contact_string(serialised: &str) -> (r: Option<String>)
    ensures
        encode_utf8(serialised@).len() <= usize::MAX / 4 ==> r is Some && r->0@ == scheme()
            + url_base64(encode_utf8(serialised@)),
        encode_utf8(serialised@).len() > usize::MAX / 4 ==> r is None,
{
    let bytes = serialised.as_bytes_vec();
    if bytes.len() <= usize::MAX / 4 {
        let encoded = encode_url(&bytes);
        Some("harbor://".to_owned().concat(encoded.as_str()))
    } else {
        None
    }
}

/// Takes a contact string apart: checks the scheme and decodes what follows
/// it into the serialised bundle.
///
/// Fails with `InvalidFormat` where the string does not start with
/// `harbor://`, and with `InvalidEncoding` where the rest is not URL-safe
/// base64 without padding.
pub fn unframe_contact_string(contact_string: &str) -> (r: Result<Vec<u8>, ContactError>)
    ensures
        !occurs_at(contact_string@, scheme(), 0) ==> r is Err && r->Err_0 is InvalidFormat,
        occurs_at(contact_string@, scheme(), 0) ==> match url_base64_decoded(
            contact_string@.skip(scheme().len() as int),
        ) {
            Some(bytes) => r is Ok && r->Ok_0@ == bytes,
            None => r is Err && r->Err_0 is InvalidEncoding,
        },
{
    let chars = to_chars(contact_string);
    let prefix = to_chars("harbor://");
    if !matches_at(&chars, &prefix, 0) {
        return Err(ContactError::InvalidFormat);
    }
    let rest = slice_of(&chars, prefix.len(), chars.len());
    assert(chars@.subrange(prefix@.len() as int, chars@.len() as int) =~= chars@.skip(
        prefix@.len() as int,
    ));
    let encoded = from_chars(&rest);
    match decode_url(encoded.as_str()) {
        Ok(bytes) => Ok(bytes),
        Err(e) => Err(ContactError::InvalidEncoding(decode_error_text(&e))),
    }
}

/// Builds the bundle that a contact string carries, writing the keys in
/// standard base64. There is no bundle for a key longer than a quarter of
/// what the machine's word can count.
pub fn build_contact_bundle(
    multiaddr: String,
    display_name: String,
    public_key: &Vec<u8>,
    x25519_public: &Vec<u8>,
    bio: Option<String>,
    avatar_hash: Option<String>,
) -> (r: Option<ContactBundle>)
    ensures
        r is Some <==> public_key@.len() <= usize::MAX / 4 && x25519_public@.len() <= usize::MAX
            / 4,
        r is Some ==> {
            &&& r->0.multiaddr == multiaddr
            &&& r->0.display_name == display_name
            &&& r->0.public_key@ == standard_base64(public_key@)
            &&& r->0.x25519_public@ == standard_base64(x25519_public@)
            &&& r->0.bio == bio
            &&& r->0.avatar_hash == avatar_hash
        },
{
    if public_key.len() <= usize::MAX / 4 && x25519_public.len() <= usize::MAX / 4 {
        Some(
            ContactBundle {
                multiaddr,
                display_name,
                public_key: encode_standard(public_key),
                x25519_public: encode_standard(x25519_public),
                bio,
                avatar_hash,
            },
        )
    } else {
        None
    }
}

/// Reads the contact out of a bundle: decodes the two keys and takes the
/// peer's name from the address.
///
/// Fails with `InvalidPublicKey` where the signing key is not standard
/// base64, and otherwise with `InvalidX25519Key` where the key-agreement key
/// is not.
pub fn contact_of_bundle(bundle: &ContactBundle) -> (r: Result<AddContactRequest, ContactError>)
    ensures
        standard_base64_decoded(bundle.public_key@) is None ==> r is Err && r->Err_0
            is InvalidPublicKey,
        standard_base64_decoded(bundle.public_key@) is Some && standard_base64_decoded(
            bundle.x25519_public@,
        ) is None ==> r is Err && r->Err_0 is InvalidX25519Key,
        standard_base64_decoded(bundle.public_key@) is Some && standard_base64_decoded(
            bundle.x25519_public@,
        ) is Some ==> {
            &&& r is Ok
            &&& r->Ok_0.peer_id@ == peer_of_address(bundle.multiaddr@)
            &&& r->Ok_0.public_key@ == standard_base64_decoded(bundle.public_key@)->0
            &&& r->Ok_0.x25519_public@ == standard_base64_decoded(bundle.x25519_public@)->0
            &&& r->Ok_0.display_name@ == bundle.display_name@
            &&& optional_text(r->Ok_0.avatar_hash) == optional_text(bundle.avatar_hash)
            &&& optional_text(r->Ok_0.bio) == optional_text(bundle.bio)
        },
{
    let public_key = match decode_standard(bundle.public_key.as_str()) {
        Ok(bytes) => bytes,
        Err(e) => {
            return Err(ContactError::InvalidPublicKey(decode_error_text(&e)));
        },
    };
    let x25519_public = match decode_standard(bundle.x25519_public.as_str()) {
        Ok(bytes) => bytes,
        Err(e) => {
            return Err(ContactError::InvalidX25519Key(decode_error_text(&e)));
        },
    };
    Ok(
        AddContactRequest {
            peer_id: peer_id_of_multiaddr(bundle.multiaddr.as_str()),
            public_key,
            x25519_public,
            display_name: copy_text(&bundle.display_name),
            avatar_hash: copy_optional(&bundle.avatar_hash),
            bio: copy_optional(&bundle.bio),
        },
    )
}

impl ContactError {
    /// The text that reports this error.
    pub fn message(&self) -> (r: String)
        ensures
            r@ == (match *self {
                ContactError::InvalidFormat => "Invalid contact string format"@,
                ContactError::InvalidEncoding(why) => "Invalid contact encoding: "@ + why@,
                ContactError::InvalidPublicKey(why) => "Invalid public key: "@ + why@,
                ContactError::InvalidX25519Key(why) => "Invalid x25519 key: "@ + why@,
            }),
    {
        match self {
            ContactError::InvalidFormat => "Invalid contact string format".to_owned(),
            ContactError::InvalidEncoding(why) => "Invalid contact encoding: ".to_owned().concat(
                why.as_str(),
            ),
            ContactError::InvalidPublicKey(why) => "Invalid public key: ".to_owned().concat(
                why.as_str(),
            ),
            ContactError::InvalidX25519Key(why) => "Invalid x25519 key: ".to_owned().concat(
                why.as_str(),
            ),
        }
    }
}

} // verus!
