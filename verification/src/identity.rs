//! Node identity: an Ed25519 keypair.
//!
//! The public half is the node's address-independent identity; messages are
//! attributed to it everywhere. Signing and verification are delegated to the
//! `ed25519_dalek` crate behind trusted wrappers; the rest of the library
//! reasons about them through the named results below.

use ed25519_dalek::Signer;
use ed25519_dalek::Verifier;
use vstd::prelude::*;

use crate::wire::ascii_to_string;

verus! {

/// Number of bytes in an Ed25519 signature.
pub const SIG_LEN: usize = 64;

/// The public key derived from a 32-byte secret seed, as computed by
/// `ed25519_dalek::SigningKey::verifying_key`.
pub uninterp spec fn pk_of(seed: Seq<u8>) -> Seq<u8>;

/// The signature of a message under a secret seed, as computed by
/// `ed25519_dalek`'s `Signer::sign`. Ed25519 signing is deterministic
/// (RFC 8032), so this is a function of seed and message alone.
pub uninterp spec fn sig_of(seed: Seq<u8>, data: Seq<u8>) -> Seq<u8>;

/// Whether `ed25519_dalek::VerifyingKey::verify` accepts the signature for
/// this public key and message; a deterministic function of the three.
pub uninterp spec fn sig_check(pk: Seq<u8>, data: Seq<u8>, sig: Seq<u8>) -> bool;

/// Relies on `ed25519_dalek::SigningKey::verifying_key`: the 32-byte public
/// key is a function of the secret seed alone.
#[verifier::external_body]
fn ed25519_public_key(seed: &Vec<u8>) -> (r: Vec<u8>)
    requires
        seed@.len() == crate::ID_LEN,
    ensures
        r@ == pk_of(seed@),
        r@.len() == crate::ID_LEN,
{
    let arr: [u8; 32] = seed.as_slice().try_into().unwrap();
    let sk = ed25519_dalek::SigningKey::from_bytes(&arr);
    sk.verifying_key().to_bytes().to_vec()
}

/// Relies on `ed25519_dalek`'s `Signer::sign`: the 64-byte signature is a
/// deterministic function of seed and message (RFC 8032), and a signature so
/// produced verifies under the seed's public key.
#[verifier::external_body]
pub(crate) fn ed25519_sign(seed: &Vec<u8>, data: &Vec<u8>) -> (r: Vec<u8>)
    requires
        seed@.len() == crate::ID_LEN,
    ensures
        r@ == sig_of(seed@, data@),
        r@.len() == SIG_LEN,
        sig_check(pk_of(seed@), data@, r@),
{
    let arr: [u8; 32] = seed.as_slice().try_into().unwrap();
    let sk = ed25519_dalek::SigningKey::from_bytes(&arr);
    sk.sign(data.as_slice()).to_bytes().to_vec()
}

/// Relies on `ed25519_dalek::VerifyingKey::verify`: acceptance is a
/// deterministic function of public key, message, and signature. A byte
/// string that is not a valid public key accepts nothing.
#[verifier::external_body]
pub(crate) fn ed25519_verify(pk: &Vec<u8>, data: &Vec<u8>, sig: &Vec<u8>) -> (r: bool)
    requires
        pk@.len() == crate::ID_LEN,
        sig@.len() == SIG_LEN,
    ensures
        r == sig_check(pk@, data@, sig@),
{
    let arr: [u8; 32] = match pk.as_slice().try_into() {
        Ok(a) => a,
        Err(_) => return false,
    };
    let vk = match ed25519_dalek::VerifyingKey::from_bytes(&arr) {
        Ok(k) => k,
        Err(_) => return false,
    };
    let sarr: [u8; 64] = match sig.as_slice().try_into() {
        Ok(a) => a,
        Err(_) => return false,
    };
    let s = ed25519_dalek::Signature::from_bytes(&sarr);
    vk.verify(data.as_slice(), &s).is_ok()
}

/// Relies on `rand::random`: nothing is promised of a random seed beyond its
/// length.
#[verifier::external_body]
pub(crate) fn random_bytes_32() -> (r: Vec<u8>)
    ensures
        r@.len() == crate::ID_LEN,
{
    rand::random::<[u8; 32]>().to_vec()
}

/// Relies on `uuid::Uuid::new_v4` and its `Display` form: a random version-4
/// UUID rendered as 36 hyphenated lower-case hex characters (so 36 UTF-8
/// bytes). Nothing is promised of which identifier comes back, only its
/// shape.
#[verifier::external_body]
pub(crate) fn uuid_v4_string() -> (r: String)
    ensures
        r@.len() == 36,
        vstd::utf8::is_ascii_chars(r@),
        vstd::utf8::encode_utf8(r@).len() == 36,
{
    uuid::Uuid::new_v4().to_string()
}

/// An asymmetric keypair. Created once at node construction, from a supplied
/// seed or freshly generated, and immutable for the node's lifetime.
pub struct NodeIdentity {
    secret: Vec<u8>,
    public: Vec<u8>,
}

impl NodeIdentity {
    /// The secret seed.
    pub closed spec fn seed(&self) -> Seq<u8> {
        self.secret@
    }

    /// The public key.
    pub closed spec fn public_view(&self) -> Seq<u8> {
        self.public@
    }

    /// The public key is the one derived from the seed.
    pub closed spec fn wf(&self) -> bool {
        &&& self.secret@.len() == crate::ID_LEN
        &&& self.public@ == pk_of(self.secret@)
        &&& self.public@.len() == crate::ID_LEN
    }

    /// Build an identity from a 32-byte secret seed.
    pub fn from_seed(seed: Vec<u8>) -> (r: NodeIdentity)
        requires
            seed@.len() == crate::ID_LEN,
        ensures
            r.wf(),
            r.seed() == seed@,
            r.public_view() == pk_of(seed@),
    {
        let public = ed25519_public_key(&seed);
        NodeIdentity { secret: seed, public }
    }

    /// Generate a fresh identity from a random seed.
    pub fn generate() -> (r: NodeIdentity)
        ensures
            r.wf(),
            r.public_view() == pk_of(r.seed()),
    {
        let seed = random_bytes_32();
        NodeIdentity::from_seed(seed)
    }

    /// A well-formed identity's public key has the fixed key length.
    pub proof fn lemma_public_len(&self)
        requires
            self.wf(),
        ensures
            self.public_view().len() == crate::ID_LEN,
            self.public_view() == pk_of(self.seed()),
    {
    }

    /// Sign a byte string with the node's secret key.
    pub fn sign(&self, data: &Vec<u8>) -> (r: Vec<u8>)
        requires
            self.wf(),
        ensures
            r@ == sig_of(self.seed(), data@),
            r@.len() == SIG_LEN,
            sig_check(self.public_view(), data@, r@),
    {
        ed25519_sign(&self.secret, data)
    }

    /// Borrow the public key bytes.
    pub fn public_key(&self) -> (r: &Vec<u8>)
        ensures
            r@ == self.public_view(),
    {
        &self.public
    }

    /// The node's textual identifier: the public key in lower-case hex.
    pub fn node_id_text(&self) -> (r: String)
        requires
            self.wf(),
        ensures
            r@ == hex_of(self.public_view()),
    {
        hex_string(&self.public)
    }
}

// ---------------------------------------------------------------------------
// Hex display of key material
// ---------------------------------------------------------------------------

/// The ASCII code of a nibble's lower-case hex digit.
pub open spec fn hex_digit(n: u8) -> u8
    recommends
        n < 16,
{
    if n < 10 {
        (0x30 + n) as u8
    } else {
        (0x57 + n) as u8
    }
}

/// The lower-case hex text of a byte string, two digits per byte.
pub open spec fn hex_of(b: Seq<u8>) -> Seq<char>
    decreases b.len(),
{
    if b.len() == 0 {
        Seq::empty()
    } else {
        seq![hex_digit(b[0] / 16) as char, hex_digit(b[0] % 16) as char] + hex_of(b.drop_first())
    }
}

/// Render a byte string as lower-case hex.
pub fn hex_string(b: &Vec<u8>) -> (r: String)
    ensures
        r@ == hex_of(b@),
{
    let mut digits: Vec<u8> = Vec::new();
    let mut i: usize = 0;
    while i < b.len()
        invariant
            i <= b@.len(),
            digits@.len() == 2 * i,
            forall|j: int| 0 <= j < digits@.len() ==> digits@[j] < 0x80,
            digits@.map_values(|x: u8| x as char) == hex_of(b@.take(i as int)),
        decreases b@.len() - i,
    {
        let byte = b[i];
        let ghost pre = digits@;
        digits.push(hex_digit_exec(byte / 16));
        digits.push(hex_digit_exec(byte % 16));
        proof {
            lemma_hex_of_snoc(b@.take(i as int), b@[i as int]);
            assert(b@.take(i as int + 1) =~= b@.take(i as int).push(b@[i as int]));
            assert(digits@.map_values(|x: u8| x as char) =~= hex_of(b@.take(i as int + 1)));
        }
        i += 1;
    }
    assert(b@.take(b@.len() as int) =~= b@);
    ascii_to_string(digits)
}

fn hex_digit_exec(n: u8) -> (r: u8)
    requires
        n < 16,
    ensures
        r == hex_digit(n),
        r < 0x80,
{
    if n < 10 {
        0x30 + n
    } else {
        0x57 + n
    }
}

proof fn lemma_hex_of_snoc(b: Seq<u8>, x: u8)
    ensures
        hex_of(b.push(x)) == hex_of(b) + seq![
            hex_digit(x / 16) as char,
            hex_digit(x % 16) as char,
        ],
    decreases b.len(),
{
    let bp = b.push(x);
    let pair = seq![hex_digit(x / 16) as char, hex_digit(x % 16) as char];
    if b.len() == 0 {
        assert(bp[0] == x);
        assert(bp.drop_first() =~= Seq::<u8>::empty());
        assert(hex_of(Seq::<u8>::empty()) == Seq::<char>::empty());
        assert(hex_of(bp) =~= hex_of(b) + pair);
    } else {
        assert(bp[0] == b[0]);
        assert(bp.drop_first() =~= b.drop_first().push(x));
        lemma_hex_of_snoc(b.drop_first(), x);
        assert(hex_of(bp) =~= hex_of(b) + pair);
    }
}

} // verus!
