//! The shared-buffer store and the five cryptographic operations over it.
//!
//! A `Bridge` owns one fixed-capacity buffer per kind of value — secret
//! key, public key, signature, message, ciphertext — and the entropy
//! queue.  The caller fills input buffers through the indexed setters,
//! invokes an operation, and reads output buffers back through the
//! indexed getters; operations return only scalars.

use vstd::prelude::*;

use crate::entropy::EntropyQueue;
use crate::entropy::block_from;
use crate::scheme::ct_of;
use crate::scheme::ct_ok;
use crate::scheme::ct_well_formed;
use crate::scheme::pk_of_sk;
use crate::scheme::pk_well_formed;
use crate::scheme::plain_of;
use crate::scheme::sig_of;
use crate::scheme::sig_well_formed;
use crate::scheme::sk_well_formed;
use crate::scheme::verifies;
use crate::CT_CAP;
use crate::MSG_CAP;
use crate::PK_LEN;
use crate::SIG_LEN;
use crate::SK_LEN;

verus! {

/// Why an operation failed.  A malformed encoding in an input buffer is
/// the fatal class of failure: the operation rejects the call and leaves
/// every buffer as it was.
#[derive(Clone, Copy, Debug, PartialEq, Eq, Structural)]
pub enum BridgeError {
    /// The secret-key buffer does not decode to a valid secret scalar.
    MalformedSecretKey,
    /// The public-key buffer does not decode to a group element.
    MalformedPublicKey,
    /// The signature buffer does not decode to a group element.
    MalformedSignature,
    /// The ciphertext bytes do not decode to a ciphertext.
    MalformedCiphertext,
    /// The encoded ciphertext would not fit the ciphertext buffer.
    CiphertextTooLarge,
}

/// The process-wide state of the host bridge: every shared buffer and
/// the entropy queue, owned by one explicit object.
pub struct Bridge {
    /// Secret-key buffer, `SK_LEN` bytes.
    pub sk: Vec<u8>,
    /// Public-key buffer, `PK_LEN` bytes.
    pub pk: Vec<u8>,
    /// Signature buffer, `SIG_LEN` bytes.
    pub sig: Vec<u8>,
    /// Message buffer, `MSG_CAP` bytes; logical lengths are passed
    /// explicitly, the buffer carries none.
    pub msg: Vec<u8>,
    /// Ciphertext buffer, `CT_CAP` bytes.
    pub ct: Vec<u8>,
    /// The caller-fed entropy queue that encryption draws from.
    pub entropy: EntropyQueue,
}

/// The 64 bytes of randomness one encryption hands the scheme: the 32
/// bytes of four queue draws, then 32 zero bytes that are reached only
/// when the scheme rejects the drawn field element and retries.
pub open spec fn rng_feed(q: EntropyQueue) -> Seq<u8> {
    block_from(q.words@, q.cursor as int) + Seq::new(32, |i: int| 0u8)
}

/// Both states hold the same bytes and the same entropy queue.
pub open spec fn state_eq(a: Bridge, b: Bridge) -> bool {
    &&& a.sk@ == b.sk@
    &&& a.pk@ == b.pk@
    &&& a.sig@ == b.sig@
    &&& a.msg@ == b.msg@
    &&& a.ct@ == b.ct@
    &&& a.entropy.words@ == b.entropy.words@
    &&& a.entropy.cursor == b.entropy.cursor
}

/// The states agree everywhere but possibly in the secret-key buffer.
pub open spec fn agrees_except_sk(a: Bridge, b: Bridge) -> bool {
    &&& a.pk@ == b.pk@
    &&& a.sig@ == b.sig@
    &&& a.msg@ == b.msg@
    &&& a.ct@ == b.ct@
    &&& a.entropy.words@ == b.entropy.words@
    &&& a.entropy.cursor == b.entropy.cursor
}

/// The states agree everywhere but possibly in the public-key buffer.
pub open spec fn agrees_except_pk(a: Bridge, b: Bridge) -> bool {
    &&& a.sk@ == b.sk@
    &&& a.sig@ == b.sig@
    &&& a.msg@ == b.msg@
    &&& a.ct@ == b.ct@
    &&& a.entropy.words@ == b.entropy.words@
    &&& a.entropy.cursor == b.entropy.cursor
}

/// The states agree everywhere but possibly in the signature buffer.
pub open spec fn agrees_except_sig(a: Bridge, b: Bridge) -> bool {
    &&& a.sk@ == b.sk@
    &&& a.pk@ == b.pk@
    &&& a.msg@ == b.msg@
    &&& a.ct@ == b.ct@
    &&& a.entropy.words@ == b.entropy.words@
    &&& a.entropy.cursor == b.entropy.cursor
}

/// The states agree everywhere but possibly in the message buffer.
pub open spec fn agrees_except_msg(a: Bridge, b: Bridge) -> bool {
    &&& a.sk@ == b.sk@
    &&& a.pk@ == b.pk@
    &&& a.sig@ == b.sig@
    &&& a.ct@ == b.ct@
    &&& a.entropy.words@ == b.entropy.words@
    &&& a.entropy.cursor == b.entropy.cursor
}

/// The states agree everywhere but possibly in the ciphertext buffer.
pub open spec fn agrees_except_ct(a: Bridge, b: Bridge) -> bool {
    &&& a.sk@ == b.sk@
    &&& a.pk@ == b.pk@
    &&& a.sig@ == b.sig@
    &&& a.msg@ == b.msg@
    &&& a.entropy.words@ == b.entropy.words@
    &&& a.entropy.cursor == b.entropy.cursor
}

/// A vector of `n` zero bytes.
fn zero_bytes(n: usize) -> (r: Vec<u8>)
    ensures
        r@ == Seq::new(n as nat, |i: int| 0u8),
{
    let mut out: Vec<u8> = Vec::new();
    let mut i: usize = 0;
    while i < n
        invariant
            i <= n,
            out@ == Seq::new(i as nat, |j: int| 0u8),
        decreases n - i,
    {
        out.push(0);
        assert(out@ =~= Seq::new((i + 1) as nat, |j: int| 0u8));
        i = i + 1;
    }
    out
}

/// A copy of the first `n` bytes of `src`.
fn prefix_bytes(src: &Vec<u8>, n: usize) -> (r: Vec<u8>)
    requires
        n <= src@.len(),
    ensures
        r@ == src@.subrange(0, n as int),
{
    let mut out: Vec<u8> = Vec::new();
    let mut i: usize = 0;
    while i < n
        invariant
            i <= n <= src@.len(),
            out@ == src@.subrange(0, i as int),
        decreases n - i,
    {
        out.push(src[i]);
        assert(out@ =~= src@.subrange(0, (i + 1) as int));
        i = i + 1;
    }
    out
}

/// Overwrite the front of `dst` with `src`; the tail keeps its bytes.
fn write_front(dst: &mut Vec<u8>, src: &Vec<u8>)
    requires
        src@.len() <= old(dst)@.len(),
    ensures
        final(dst)@ == src@ + old(dst)@.skip(src@.len() as int),
{
    let mut i: usize = 0;
    while i < src.len()
        invariant
            i <= src@.len() <= dst@.len(),
            dst@.len() == old(dst)@.len(),
            forall|j: int| 0 <= j < i ==> dst@[j] == src@[j],
            forall|j: int| i <= j < dst@.len() ==> dst@[j] == old(dst)@[j],
        decreases src@.len() - i,
    {
        dst.set(i, src[i]);
        i = i + 1;
    }
    assert(dst@ =~= src@ + old(dst)@.skip(src@.len() as int));
}

impl Bridge {
    /// The bridge's structural invariant: every buffer at its fixed
    /// capacity, the entropy queue well formed.
    pub open spec fn wf(self) -> bool {
        &&& self.sk@.len() == SK_LEN
        &&& self.pk@.len() == PK_LEN
        &&& self.sig@.len() == SIG_LEN
        &&& self.msg@.len() == MSG_CAP
        &&& self.ct@.len() == CT_CAP
        &&& self.entropy.wf()
    }

    /// A bridge whose buffers and entropy queue hold only zeroes.
    pub fn new() -> (r: Bridge)
        ensures
            r.wf(),
            r.sk@ == Seq::new(SK_LEN as nat, |i: int| 0u8),
            r.pk@ == Seq::new(PK_LEN as nat, |i: int| 0u8),
            r.sig@ == Seq::new(SIG_LEN as nat, |i: int| 0u8),
            r.msg@ == Seq::new(MSG_CAP as nat, |i: int| 0u8),
            r.ct@ == Seq::new(CT_CAP as nat, |i: int| 0u8),
            r.entropy.words@ == Seq::new(crate::entropy::QUEUE_LEN as nat, |i: int| 0u32),
            r.entropy.cursor == 0,
    {
        Bridge {
            sk: zero_bytes(SK_LEN),
            pk: zero_bytes(PK_LEN),
            sig: zero_bytes(SIG_LEN),
            msg: zero_bytes(MSG_CAP),
            ct: zero_bytes(CT_CAP),
            entropy: EntropyQueue::new(),
        }
    }

    /// Store one entropy word; the read cursor does not move.
    pub fn set_rng_value(&mut self, i: usize, v: u32)
        requires
            old(self).wf(),
            i < crate::entropy::QUEUE_LEN,
        ensures
            final(self).wf(),
            final(self).entropy.words@ == old(self).entropy.words@.update(i as int, v),
            final(self).entropy.cursor == old(self).entropy.cursor,
            final(self).sk@ == old(self).sk@,
            final(self).pk@ == old(self).pk@,
            final(self).sig@ == old(self).sig@,
            final(self).msg@ == old(self).msg@,
            final(self).ct@ == old(self).ct@,
    {
        self.entropy.set_word(i, v);
    }

    /// Write one byte of the secret-key buffer.
    pub fn set_sk_byte(&mut self, i: usize, v: u8)
        requires
            old(self).wf(),
            i < SK_LEN,
        ensures
            final(self).wf(),
            final(self).sk@ == old(self).sk@.update(i as int, v),
            agrees_except_sk(*final(self), *old(self)),
    {
        self.sk.set(i, v);
    }

    /// Read one byte of the secret-key buffer.
    pub fn get_sk_byte(&self, i: usize) -> (r: u8)
        requires
            self.wf(),
            i < SK_LEN,
        ensures
            r == self.sk@[i as int],
    {
        self.sk[i]
    }

    /// Write one byte of the public-key buffer.
    pub fn set_pk_byte(&mut self, i: usize, v: u8)
        requires
            old(self).wf(),
            i < PK_LEN,
        ensures
            final(self).wf(),
            final(self).pk@ == old(self).pk@.update(i as int, v),
            agrees_except_pk(*final(self), *old(self)),
    {
        self.pk.set(i, v);
    }

    /// Read one byte of the public-key buffer.
    pub fn get_pk_byte(&self, i: usize) -> (r: u8)
        requires
            self.wf(),
            i < PK_LEN,
        ensures
            r == self.pk@[i as int],
    {
        self.pk[i]
    }

    /// Write one byte of the signature buffer.
    pub fn set_sig_byte(&mut self, i: usize, v: u8)
        requires
            old(self).wf(),
            i < SIG_LEN,
        ensures
            final(self).wf(),
            final(self).sig@ == old(self).sig@.update(i as int, v),
            agrees_except_sig(*final(self), *old(self)),
    {
        self.sig.set(i, v);
    }

    /// Read one byte of the signature buffer.
    pub fn get_sig_byte(&self, i: usize) -> (r: u8)
        requires
            self.wf(),
            i < SIG_LEN,
        ensures
            r == self.sig@[i as int],
    {
        self.sig[i]
    }

    /// Write one byte of the message buffer.
    pub fn set_msg_byte(&mut self, i: usize, v: u8)
        requires
            old(self).wf(),
            i < MSG_CAP,
        ensures
            final(self).wf(),
            final(self).msg@ == old(self).msg@.update(i as int, v),
            agrees_except_msg(*final(self), *old(self)),
    {
        self.msg.set(i, v);
    }

    /// Read one byte of the message buffer.
    pub fn get_msg_byte(&self, i: usize) -> (r: u8)
        requires
            self.wf(),
            i < MSG_CAP,
        ensures
            r == self.msg@[i as int],
    {
        self.msg[i]
    }

    /// Write one byte of the ciphertext buffer.
    pub fn set_ct_byte(&mut self, i: usize, v: u8)
        requires
            old(self).wf(),
            i < CT_CAP,
        ensures
            final(self).wf(),
            final(self).ct@ == old(self).ct@.update(i as int, v),
            agrees_except_ct(*final(self), *old(self)),
    {
        self.ct.set(i, v);
    }

    /// Read one byte of the ciphertext buffer.
    pub fn get_ct_byte(&self, i: usize) -> (r: u8)
        requires
            self.wf(),
            i < CT_CAP,
        ensures
            r == self.ct@[i as int],
    {
        self.ct[i]
    }

    /// The first `n` bytes of the message buffer.
    pub open spec fn msg_in(self, n: int) -> Seq<u8> {
        self.msg@.subrange(0, n)
    }

    /// The first `n` bytes of the ciphertext buffer.
    pub open spec fn ct_in(self, n: int) -> Seq<u8> {
        self.ct@.subrange(0, n)
    }

    /// The encoded ciphertext that encrypting the first `n` message
    /// bytes in this state yields: a function of the public-key buffer,
    /// the message prefix, and the entropy queue alone.
    pub open spec fn ct_out(self, n: int) -> Seq<u8> {
        ct_of(self.pk@, self.msg_in(n), rng_feed(self.entropy))
    }

    /// Derive the public key matching the secret key in the secret-key
    /// buffer and write its encoding over the public-key buffer.  When
    /// the secret-key buffer does not decode, fail and change nothing.
    pub fn derive_pk_from_sk(&mut self) -> (r: Result<(), BridgeError>)
        requires
            old(self).wf(),
        ensures
            final(self).wf(),
            (r is Ok) <==> sk_well_formed(old(self).sk@),
            r is Ok ==> final(self).pk@ == pk_of_sk(old(self).sk@),
            r is Ok ==> pk_well_formed(final(self).pk@),
            r is Ok ==> agrees_except_pk(*final(self), *old(self)),
            r is Err ==> r->Err_0 == BridgeError::MalformedSecretKey,
            r is Err ==> state_eq(*final(self), *old(self)),
    {
        match crate::scheme::derive_pk(&self.sk) {
            None => Err(BridgeError::MalformedSecretKey),
            Some(pk) => {
                self.pk = pk;
                Ok(())
            },
        }
    }

    /// Sign the first `msg_size` bytes of the message buffer with the
    /// secret key in the secret-key buffer and write the signature's
    /// encoding over the signature buffer.  The signature verifies
    /// under the matching public key.  When the secret-key buffer does
    /// not decode, fail and change nothing.
    pub fn sign_msg(&mut self, msg_size: usize) -> (r: Result<(), BridgeError>)
        requires
            old(self).wf(),
            msg_size <= MSG_CAP,
        ensures
            final(self).wf(),
            (r is Ok) <==> sk_well_formed(old(self).sk@),
            r is Ok ==> final(self).sig@ == sig_of(
                old(self).sk@,
                old(self).msg_in(msg_size as int),
            ),
            r is Ok ==> sig_well_formed(final(self).sig@),
            r is Ok ==> verifies(
                pk_of_sk(old(self).sk@),
                final(self).sig@,
                old(self).msg_in(msg_size as int),
            ),
            r is Ok ==> agrees_except_sig(*final(self), *old(self)),
            r is Err ==> r->Err_0 == BridgeError::MalformedSecretKey,
            r is Err ==> state_eq(*final(self), *old(self)),
    {
        let m = prefix_bytes(&self.msg, msg_size);
        match crate::scheme::sign_bytes(&self.sk, &m) {
            None => Err(BridgeError::MalformedSecretKey),
            Some(sig) => {
                self.sig = sig;
                Ok(())
            },
        }
    }

    /// Report whether the signature buffer holds a valid signature of
    /// the first `msg_size` bytes of the message buffer under the key
    /// in the public-key buffer.  No buffer changes.  When the
    /// public-key or signature buffer does not decode, fail.
    pub fn verify(&self, msg_size: usize) -> (r: Result<bool, BridgeError>)
        requires
            self.wf(),
            msg_size <= MSG_CAP,
        ensures
            (r is Ok) <==> (pk_well_formed(self.pk@) && sig_well_formed(self.sig@)),
            r is Ok ==> r->Ok_0 == verifies(self.pk@, self.sig@, self.msg_in(msg_size as int)),
            !pk_well_formed(self.pk@) ==> r->Err_0 == BridgeError::MalformedPublicKey,
            pk_well_formed(self.pk@) && !sig_well_formed(self.sig@) ==> r->Err_0
                == BridgeError::MalformedSignature,
    {
        if !crate::scheme::pk_check(&self.pk) {
            return Err(BridgeError::MalformedPublicKey);
        }
        let m = prefix_bytes(&self.msg, msg_size);
        match crate::scheme::verify_bytes(&self.pk, &self.sig, &m) {
            None => Err(BridgeError::MalformedSignature),
            Some(b) => Ok(b),
        }
    }

    /// Encrypt the first `msg_size` bytes of the message buffer under
    /// the key in the public-key buffer, write the encoded ciphertext
    /// over the front of the ciphertext buffer, and return its length.
    ///
    /// The randomness is drawn from the entropy queue: four 64-bit
    /// draws, a full turn of the ring, so the cursor ends where it
    /// began and two calls from equal states yield equal ciphertexts.
    /// The two seed words are accepted for interface compatibility;
    /// the entropy queue alone determines the randomness, so they are
    /// not consulted.
    ///
    /// When the public-key buffer does not decode, or the encoded
    /// ciphertext would not fit its buffer, fail and change nothing.
    pub fn encrypt(&mut self, msg_size: usize, seed1: u64, seed2: u64) -> (r: Result<
        usize,
        BridgeError,
    >)
        requires
            old(self).wf(),
            msg_size <= MSG_CAP,
        ensures
            final(self).wf(),
            (r is Ok) <==> (pk_well_formed(old(self).pk@) && old(self).ct_out(
                msg_size as int,
            ).len() <= CT_CAP),
            r is Ok ==> r->Ok_0 == old(self).ct_out(msg_size as int).len(),
            r is Ok ==> final(self).ct@ == old(self).ct_out(msg_size as int) + old(self).ct@.skip(old(self).ct_out(msg_size as int).len() as int),
            r is Ok ==> agrees_except_ct(*final(self), *old(self)),
            r is Ok ==> ct_well_formed(old(self).ct_out(msg_size as int)),
            r is Ok ==> ct_ok(old(self).ct_out(msg_size as int)),
            r is Ok ==> forall|sk: Seq<u8>|
                sk_well_formed(sk) && old(self).pk@ == #[trigger] pk_of_sk(sk) ==> plain_of(
                    sk,
                    old(self).ct_out(msg_size as int),
                ) == old(self).msg_in(msg_size as int),
            !pk_well_formed(old(self).pk@) ==> r->Err_0 == BridgeError::MalformedPublicKey,
            pk_well_formed(old(self).pk@) && old(self).ct_out(msg_size as int).len() > CT_CAP
                ==> r->Err_0 == BridgeError::CiphertextTooLarge,
            r is Err ==> state_eq(*final(self), *old(self)),
    {
        let _ = seed1;
        let _ = seed2;
        let m = prefix_bytes(&self.msg, msg_size);
        let mut feed = self.entropy.next_block();
        pad_zeros(&mut feed, 32);
        proof {
            assert(feed@ == rng_feed(old(self).entropy));
            assert forall|i: int| 32 <= i < 64 implies feed@[i] == 0 by {
                assert(feed@[i] == Seq::new(32, |j: int| 0u8)[i - 32]);
            }
        }
        match crate::scheme::encrypt_bytes(&self.pk, &m, &feed) {
            None => Err(BridgeError::MalformedPublicKey),
            Some(out) => {
                if out.len() > CT_CAP {
                    Err(BridgeError::CiphertextTooLarge)
                } else {
                    write_front(&mut self.ct, &out);
                    Ok(out.len())
                }
            },
        }
    }

    /// Decrypt the first `ct_size` bytes of the ciphertext buffer with
    /// the secret key in the secret-key buffer.  When the ciphertext
    /// fails the scheme's integrity check, return the sentinel length
    /// `0` and leave the message buffer untouched — the one recoverable
    /// failure.  Otherwise write the plaintext over the front of the
    /// message buffer and return its length.  When the secret-key
    /// buffer or the ciphertext bytes do not decode, fail and change
    /// nothing.
    pub fn decrypt(&mut self, ct_size: usize) -> (r: Result<usize, BridgeError>)
        requires
            old(self).wf(),
            ct_size <= CT_CAP,
        ensures
            final(self).wf(),
            agrees_except_msg(*final(self), *old(self)),
            (r is Ok) <==> (sk_well_formed(old(self).sk@) && ct_well_formed(
                old(self).ct_in(ct_size as int),
            )),
            !sk_well_formed(old(self).sk@) ==> r->Err_0 == BridgeError::MalformedSecretKey,
            sk_well_formed(old(self).sk@) && !ct_well_formed(old(self).ct_in(ct_size as int))
                ==> r->Err_0 == BridgeError::MalformedCiphertext,
            r is Err ==> final(self).msg@ == old(self).msg@,
            r is Ok && !ct_ok(old(self).ct_in(ct_size as int)) ==> r->Ok_0 == 0 && final(self).msg@ == old(self).msg@,
            r is Ok && ct_ok(old(self).ct_in(ct_size as int)) ==> r->Ok_0 == plain_of(
                old(self).sk@,
                old(self).ct_in(ct_size as int),
            ).len() && final(self).msg@ == plain_of(old(self).sk@, old(self).ct_in(ct_size as int))
                + old(self).msg@.skip(
                plain_of(old(self).sk@, old(self).ct_in(ct_size as int)).len() as int,
            ),
    {
        if !crate::scheme::sk_check(&self.sk) {
            return Err(BridgeError::MalformedSecretKey);
        }
        let c = prefix_bytes(&self.ct, ct_size);
        match crate::scheme::ct_checks(&c) {
            None => Err(BridgeError::MalformedCiphertext),
            Some(false) => Ok(0),
            Some(true) => {
                let plain = crate::scheme::decrypt_bytes(&self.sk, &c).unwrap();
                let n = plain.len();
                write_front(&mut self.msg, &plain);
                Ok(n)
            },
        }
    }
}

/// Append `n` zero bytes to `v`.
fn pad_zeros(v: &mut Vec<u8>, n: usize)
    ensures
        final(v)@ == old(v)@ + Seq::new(n as nat, |i: int| 0u8),
{
    let mut i: usize = 0;
    while i < n
        invariant
            i <= n,
            v@ == old(v)@ + Seq::new(i as nat, |j: int| 0u8),
        decreases n - i,
    {
        v.push(0);
        assert(v@ =~= old(v)@ + Seq::new((i + 1) as nat, |j: int| 0u8));
        i = i + 1;
    }
}

/// Encryption is deterministic: two states that agree on the
/// public-key buffer, on the first `n` message bytes, and on the
/// entropy queue's words and cursor produce the same encoded
/// ciphertext for a message of length `n`.
pub proof fn lemma_encrypt_deterministic(a: Bridge, b: Bridge, n: int)
    requires
        a.pk@ == b.pk@,
        a.msg_in(n) == b.msg_in(n),
        a.entropy.words@ == b.entropy.words@,
        a.entropy.cursor == b.entropy.cursor,
    ensures
        a.ct_out(n) == b.ct_out(n),
{
}

} // verus!
