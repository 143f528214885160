//! The boundary to the underlying threshold cryptosystem.
//!
//! Every call into `threshold_crypto` (and the `bincode` encoding it uses
//! for ciphertexts and secret keys) goes through one of the wrappers below.
//! Each wrapper works on plain byte vectors: it decodes its inputs, makes
//! one call into the scheme, and encodes the result.  What the scheme
//! computes is named by the uninterpreted spec functions at the top; the
//! wrappers' contracts state only what the scheme's source and
//! documentation show.

use vstd::prelude::*;

verus! {

/// Holds when `b` is the 32-byte encoding of a valid secret scalar, that
/// is, when `bincode` decodes it to a `threshold_crypto::SecretKey`.
pub uninterp spec fn sk_well_formed(b: Seq<u8>) -> bool;

/// Holds when `b` is the compressed 48-byte encoding of a group element,
/// that is, when `threshold_crypto::PublicKey::from_bytes` accepts it.
pub uninterp spec fn pk_well_formed(b: Seq<u8>) -> bool;

/// Holds when `b` is the compressed 96-byte encoding of a group element,
/// that is, when `threshold_crypto::Signature::from_bytes` accepts it.
pub uninterp spec fn sig_well_formed(b: Seq<u8>) -> bool;

/// Holds when `b` decodes to a `threshold_crypto::Ciphertext`.
pub uninterp spec fn ct_well_formed(b: Seq<u8>) -> bool;

/// Holds when the ciphertext encoded in `b` passes the scheme's own
/// integrity check, `threshold_crypto::Ciphertext::verify`.
pub uninterp spec fn ct_ok(b: Seq<u8>) -> bool;

/// The 48-byte public key derived from the secret key encoded in `sk`.
pub uninterp spec fn pk_of_sk(sk: Seq<u8>) -> Seq<u8>;

/// The 96-byte signature of `msg` under the secret key encoded in `sk`;
/// signing in this scheme is deterministic.
pub uninterp spec fn sig_of(sk: Seq<u8>, msg: Seq<u8>) -> Seq<u8>;

/// Whether the signature encoded in `sig` is valid for `msg` under the
/// public key encoded in `pk`.
pub uninterp spec fn verifies(pk: Seq<u8>, sig: Seq<u8>, msg: Seq<u8>) -> bool;

/// The encoded ciphertext of `msg` under the public key encoded in `pk`,
/// with the scheme's randomness read from the byte sequence `entropy`:
/// given the same bytes the scheme draws the same values, so the
/// ciphertext is a function of these three arguments alone.
pub uninterp spec fn ct_of(pk: Seq<u8>, msg: Seq<u8>, entropy: Seq<u8>) -> Seq<u8>;

/// The plaintext that the secret key encoded in `sk` recovers from the
/// ciphertext encoded in `ct`.
pub uninterp spec fn plain_of(sk: Seq<u8>, ct: Seq<u8>) -> Seq<u8>;

/// Relies on `bincode::deserialize::<threshold_crypto::SecretKey>`: it
/// accepts exactly the encodings of field elements below the modulus.
#[verifier::external_body]
pub(crate) fn sk_check(b: &Vec<u8>) -> (r: bool)
    ensures
        r == sk_well_formed(b@),
{
    bincode::deserialize::<threshold_crypto::SecretKey>(b).is_ok()
}

/// Relies on `threshold_crypto::PublicKey::from_bytes`: it accepts exactly
/// the compressed encodings of group elements.
#[verifier::external_body]
pub(crate) fn pk_check(b: &Vec<u8>) -> (r: bool)
    requires
        b@.len() == crate::PK_LEN,
    ensures
        r == pk_well_formed(b@),
{
    let mut arr = [0u8; 48];
    arr.copy_from_slice(b);
    threshold_crypto::PublicKey::from_bytes(arr).is_ok()
}

/// Relies on `threshold_crypto::SecretKey::public_key` and
/// `PublicKey::to_bytes`: the matching public key, as its compressed
/// 48-byte encoding, which `PublicKey::from_bytes` accepts back.
#[verifier::external_body]
pub(crate) fn derive_pk(sk: &Vec<u8>) -> (r: Option<Vec<u8>>)
    ensures
        (r is Some) <==> sk_well_formed(sk@),
        r is Some ==> r.unwrap()@ == pk_of_sk(sk@),
        r is Some ==> pk_of_sk(sk@).len() == crate::PK_LEN,
        r is Some ==> pk_well_formed(pk_of_sk(sk@)),
{
    let key: threshold_crypto::SecretKey = match bincode::deserialize(sk) {
        Ok(k) => k,
        Err(_) => return None,
    };
    Some(key.public_key().to_bytes().to_vec())
}

/// Relies on `threshold_crypto::SecretKey::sign` and
/// `Signature::to_bytes`: signing is deterministic, the encoding is 96
/// bytes, `Signature::from_bytes` accepts it back, and
/// `PublicKey::verify` accepts the signature for the same message under
/// the matching public key.
#[verifier::external_body]
pub(crate) fn sign_bytes(sk: &Vec<u8>, msg: &Vec<u8>) -> (r: Option<Vec<u8>>)
    ensures
        (r is Some) <==> sk_well_formed(sk@),
        r is Some ==> r.unwrap()@ == sig_of(sk@, msg@),
        r is Some ==> sig_of(sk@, msg@).len() == crate::SIG_LEN,
        r is Some ==> sig_well_formed(sig_of(sk@, msg@)),
        r is Some ==> verifies(pk_of_sk(sk@), sig_of(sk@, msg@), msg@),
{
    let key: threshold_crypto::SecretKey = match bincode::deserialize(sk) {
        Ok(k) => k,
        Err(_) => return None,
    };
    Some(key.sign(msg).to_bytes().to_vec())
}

/// Relies on `threshold_crypto::PublicKey::verify` (and the two
/// `from_bytes` decoders for its inputs): whether the signature is valid
/// for the message under the key.
#[verifier::external_body]
pub(crate) fn verify_bytes(pk: &Vec<u8>, sig: &Vec<u8>, msg: &Vec<u8>) -> (r: Option<bool>)
    requires
        pk@.len() == crate::PK_LEN,
        sig@.len() == crate::SIG_LEN,
    ensures
        (r is Some) <==> (pk_well_formed(pk@) && sig_well_formed(sig@)),
        r is Some ==> r.unwrap() == verifies(pk@, sig@, msg@),
{
    let mut pk_arr = [0u8; 48];
    pk_arr.copy_from_slice(pk);
    let key = match threshold_crypto::PublicKey::from_bytes(pk_arr) {
        Ok(k) => k,
        Err(_) => return None,
    };
    let mut sig_arr = [0u8; 96];
    sig_arr.copy_from_slice(sig);
    let s = match threshold_crypto::Signature::from_bytes(sig_arr) {
        Ok(v) => v,
        Err(_) => return None,
    };
    Some(key.verify(&s, msg))
}

/// Relies on `threshold_crypto::PublicKey::encrypt_with_rng` and
/// `bincode::serialize`, with the randomness read from `entropy` through
/// `rand`'s `ReadRng`, eight bytes per drawn word, least significant byte
/// first.  The scheme draws four words per attempt and retries only when
/// the drawn field element is out of range, so with the required all-zero
/// second half (the zero element is always in range) the reader never
/// runs dry.  The ciphertext is a function of the three arguments alone;
/// it decodes back, it passes the scheme's integrity check, and the
/// matching secret key recovers the message from it.
#[verifier::external_body]
pub(crate) fn encrypt_bytes(pk: &Vec<u8>, msg: &Vec<u8>, entropy: &Vec<u8>) -> (r: Option<
    Vec<u8>,
>)
    requires
        pk@.len() == crate::PK_LEN,
        entropy@.len() == 64,
        forall|i: int| 32 <= i < 64 ==> entropy@[i] == 0,
    ensures
        (r is Some) <==> pk_well_formed(pk@),
        r is Some ==> r.unwrap()@ == ct_of(pk@, msg@, entropy@),
        r is Some ==> ct_well_formed(ct_of(pk@, msg@, entropy@)),
        r is Some ==> ct_ok(ct_of(pk@, msg@, entropy@)),
        r is Some ==> forall|sk: Seq<u8>|
            sk_well_formed(sk) && pk@ == #[trigger] pk_of_sk(sk) ==> plain_of(
                sk,
                ct_of(pk@, msg@, entropy@),
            ) == msg@,
{
    let mut arr = [0u8; 48];
    arr.copy_from_slice(pk);
    let key = match threshold_crypto::PublicKey::from_bytes(arr) {
        Ok(k) => k,
        Err(_) => return None,
    };
    let mut src: &[u8] = entropy.as_slice();
    let mut rng = rand::rngs::adapter::ReadRng::new(&mut src);
    let ct = key.encrypt_with_rng(&mut rng, msg);
    Some(bincode::serialize(&ct).expect("vector serialization cannot fail"))
}

/// Relies on `bincode::deserialize::<threshold_crypto::Ciphertext>` and
/// `Ciphertext::verify`: whether the bytes decode at all, and whether the
/// decoded ciphertext passes the scheme's integrity check.
#[verifier::external_body]
pub(crate) fn ct_checks(ct: &Vec<u8>) -> (r: Option<bool>)
    ensures
        (r is Some) <==> ct_well_formed(ct@),
        r is Some ==> r.unwrap() == ct_ok(ct@),
{
    let parsed: threshold_crypto::Ciphertext = match bincode::deserialize(ct) {
        Ok(c) => c,
        Err(_) => return None,
    };
    Some(parsed.verify())
}

/// Relies on `threshold_crypto::SecretKey::decrypt`: it returns a
/// plaintext exactly when the ciphertext passes its integrity check, and
/// the plaintext is the ciphertext's payload unmasked, so it is shorter
/// than the encoded ciphertext.
#[verifier::external_body]
pub(crate) fn decrypt_bytes(sk: &Vec<u8>, ct: &Vec<u8>) -> (r: Option<Vec<u8>>)
    ensures
        (r is Some) <==> (sk_well_formed(sk@) && ct_well_formed(ct@) && ct_ok(ct@)),
        r is Some ==> r.unwrap()@ == plain_of(sk@, ct@),
        r is Some ==> r.unwrap()@.len() <= ct@.len(),
{
    let key: threshold_crypto::SecretKey = match bincode::deserialize(sk) {
        Ok(k) => k,
        Err(_) => return None,
    };
    let parsed: threshold_crypto::Ciphertext = match bincode::deserialize(ct) {
        Ok(c) => c,
        Err(_) => return None,
    };
    key.decrypt(&parsed)
}

} // verus!
