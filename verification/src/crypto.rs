//! Hashes, hexadecimal text and the sr25519 keys of a node.
use crate::scale::MAX_LEN;
use vstd::prelude::*;

verus! {

/// The 256-bit BLAKE2b digest of `data`.
pub uninterp spec fn blake2_256_of(data: Seq<u8>) -> Seq<u8>;

/// `sp_core::Blake2Hasher::hash`, the 256-bit BLAKE2b hash: it depends on the data alone.
#[verifier::external_body]
pub(crate) fn blake2_256(data: &[u8]) -> (r: [u8; 32])
    ensures
        r@ == blake2_256_of(data@),
{
    <sp_core::Blake2Hasher as sp_core::Hasher>::hash(data).0
}

/// The lower-case hexadecimal digit of `d`.
pub open spec fn hex_digit(d: int) -> char {
    if d < 10 {
        ('0' as int + d) as char
    } else {
        ('a' as int + d - 10) as char
    }
}

/// Two digits for each byte, the high half first.
pub open spec fn hex_text(data: Seq<u8>) -> Seq<char> {
    Seq::new(
        2 * data.len(),
        |i: int|
            hex_digit(
                if i % 2 == 0 {
                    data[i / 2] as int / 16
                } else {
                    data[i / 2] as int % 16
                },
            ),
    )
}

/// `hex::encode`: the lower-case hexadecimal text of the bytes.
#[verifier::external_body]
pub(crate) fn hex_encode(data: &[u8]) -> (r: String)
    ensures
        r@ == hex_text(data@),
{
    hex::encode(data)
}

/// The sr25519 public key that the secret seed material `seed` belongs to, if it is accepted.
pub uninterp spec fn sr25519_public_of(seed: Seq<u8>) -> Option<Seq<u8>>;

/// Whether `sr25519::Pair::verify` accepts `signature` on `message` for `public_key`.
pub uninterp spec fn sr25519_verifies(
    signature: Seq<u8>,
    message: Seq<u8>,
    public_key: Seq<u8>,
) -> bool;

/// The name of the error that refused seed material of this length is reported with.
pub open spec fn seed_error(len: nat) -> Seq<char> {
    if len == 64 {
        "InvalidSeed"@
    } else {
        "InvalidSeedLength"@
    }
}

/// `sp_core::sr25519::Pair::from_seed_slice`, of whose pair the public key is handed out. A
/// seed of 32 bytes is always accepted; one of 64 bytes is a secret key and may be refused; any
/// other length is refused. The error is given by its debug form.
#[verifier::external_body]
fn sr25519_public(seed: &[u8]) -> (r: Result<[u8; 32], String>)
    ensures
        match r {
            Ok(public) => {
                &&& sr25519_public_of(seed@) == Some(public@)
                &&& seed@.len() == 32 || seed@.len() == 64
            },
            Err(text) => {
                &&& sr25519_public_of(seed@) is None
                &&& seed@.len() != 32
                &&& text@ == seed_error(seed@.len())
            },
        },
{
    match <sp_core::sr25519::Pair as sp_core::Pair>::from_seed_slice(seed) {
        Ok(pair) => Ok(sp_core::Pair::public(&pair).0),
        Err(e) => Err(format!("{e:?}")),
    }
}

/// `sp_core::sr25519::Pair::sign` with the pair of `seed`. The signature is drawn at random
/// from those that verify under the public key of the pair. The length of the message is signed
/// with it as a 32-bit number, and a longer message is not taken.
#[verifier::external_body]
fn sr25519_sign(seed: &[u8], message: &[u8]) -> (r: [u8; 64])
    requires
        sr25519_public_of(seed@) is Some,
        message@.len() <= MAX_LEN,
    ensures
        sr25519_verifies(r@, message@, sr25519_public_of(seed@)->0),
{
    let pair = <sp_core::sr25519::Pair as sp_core::Pair>::from_seed_slice(seed)
        .expect("the seed was accepted before");
    sp_core::Pair::sign(&pair, message).0
}

/// An sr25519 key pair, kept as the secret it was made from and its public key.
pub struct IdentityKey {
    secret: Vec<u8>,
    public: [u8; 32],
}

impl IdentityKey {
    /// The secret was accepted, and the public key belongs to it.
    #[verifier::type_invariant]
    spec fn well_formed(self) -> bool {
        sr25519_public_of(self.secret@) == Some(self.public@)
    }

    /// The secret seed material.
    pub closed spec fn secret_bytes(self) -> Seq<u8> {
        self.secret@
    }

    /// The public key.
    pub closed spec fn public_bytes(self) -> Seq<u8> {
        self.public@
    }

    /// The pair of a secret seed (32 bytes) or of a secret key (64 bytes).
    pub fn from_seed_slice(seed: &[u8]) -> (r: Result<IdentityKey, String>)
        ensures
            match r {
                Ok(key) => {
                    &&& key.secret_bytes() == seed@
                    &&& sr25519_public_of(seed@) == Some(key.public_bytes())
                },
                Err(text) => {
                    &&& sr25519_public_of(seed@) is None
                    &&& text@ == seed_error(seed@.len())
                },
            },
            seed@.len() == 32 ==> r is Ok,
            seed@.len() != 32 && seed@.len() != 64 ==> r is Err,
    {
        match sr25519_public(seed) {
            Ok(public) => Ok(IdentityKey { secret: vstd::slice::slice_to_vec(seed), public }),
            Err(text) => Err(text),
        }
    }

    /// The public key.
    pub fn public(&self) -> (r: [u8; 32])
        ensures
            r@ == self.public_bytes(),
            sr25519_public_of(self.secret_bytes()) == Some(r@),
    {
        proof {
            use_type_invariant(self);
        }
        self.public
    }

    /// A signature on `message` that verifies under the public key.
    pub fn sign(&self, message: &[u8]) -> (r: Vec<u8>)
        requires
            message@.len() <= MAX_LEN,
        ensures
            r@.len() == 64,
            sr25519_verifies(r@, message@, self.public_bytes()),
    {
        proof {
            use_type_invariant(self);
        }
        let signature: [u8; 64] = sr25519_sign(self.secret.as_slice(), message);
        vstd::slice::slice_to_vec(signature.as_slice())
    }

    /// The secret seed material, for sealing.
    pub fn secret(&self) -> (r: &Vec<u8>)
        ensures
            r@ == self.secret_bytes(),
    {
        &self.secret
    }
}

/// Whether two byte strings are equal.
pub(crate) fn same_bytes(a: &[u8], b: &[u8]) -> (r: bool)
    ensures
        r == (a@ == b@),
{
    if a.len() != b.len() {
        return false;
    }
    let mut i: usize = 0;
    while i < a.len()
        invariant
            i <= a@.len(),
            a@.len() == b@.len(),
            forall|k: int| 0 <= k < i ==> a@[k] == b@[k],
        decreases a@.len() - i,
    {
        if a[i] != b[i] {
            return false;
        }
        i = i + 1;
    }
    assert(a@ =~= b@);
    true
}

} // verus!
