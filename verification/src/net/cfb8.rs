//! AES-128 in 8-bit cipher feedback mode (CFB8), the stream cipher of an
//! online-mode connection. The shared secret is both key and initial
//! register; encryption and decryption feed the ciphertext back.

use vstd::prelude::*;
use aes::cipher::{BlockEncrypt, KeyInit};

verus! {

/// AES-128 encryption of one 16-byte block under a 16-byte key.
pub uninterp spec fn aes128_block(key: Seq<u8>, block: Seq<u8>) -> Seq<u8>;

/// Encrypts one block with `aes::Aes128` (built from `key`) and
/// `BlockEncrypt::encrypt_block`; the result is the named block function of
/// key and block.
#[verifier::external_body]
fn aes128_encrypt_block(key: &[u8; 16], block: &[u8; 16]) -> (r: [u8; 16])
    ensures
        r@ == aes128_block(key@, block@),
{
    let cipher = aes::Aes128::new(&aes::cipher::generic_array::GenericArray::from(*key));
    let mut b = aes::Block::from(*block);
    cipher.encrypt_block(&mut b);
    b.into()
}

/// The register after shifting in one feedback byte.
pub open spec fn shift_in(reg: Seq<u8>, c: u8) -> Seq<u8> {
    reg.subrange(1, 16).push(c)
}

/// The keystream byte for a register.
pub open spec fn keystream(key: Seq<u8>, reg: Seq<u8>) -> u8 {
    aes128_block(key, reg)[0]
}

/// Ciphertext of `data` and the final register, starting from `reg`.
pub open spec fn cfb8_encrypt(key: Seq<u8>, reg: Seq<u8>, data: Seq<u8>) -> (Seq<u8>, Seq<u8>)
    decreases data.len(),
{
    if data.len() == 0 {
        (Seq::empty(), reg)
    } else {
        let c = data[0] ^ keystream(key, reg);
        let rest = cfb8_encrypt(key, shift_in(reg, c), data.drop_first());
        (seq![c] + rest.0, rest.1)
    }
}

/// Plaintext of `data` and the final register, starting from `reg`.
pub open spec fn cfb8_decrypt(key: Seq<u8>, reg: Seq<u8>, data: Seq<u8>) -> (Seq<u8>, Seq<u8>)
    decreases data.len(),
{
    if data.len() == 0 {
        (Seq::empty(), reg)
    } else {
        let p = data[0] ^ keystream(key, reg);
        let rest = cfb8_decrypt(key, shift_in(reg, data[0]), data.drop_first());
        (seq![p] + rest.0, rest.1)
    }
}

/// AES-CFB8 stream state: key and 16-byte shift register.
pub struct AesCfb8 {
    key: [u8; 16],
    state: [u8; 16],
}

impl AesCfb8 {
    pub closed spec fn key(&self) -> Seq<u8> {
        self.key@
    }

    pub closed spec fn register(&self) -> Seq<u8> {
        self.state@
    }

    /// A stream whose key and initial register are both `key`.
    pub fn new(key: &[u8; 16]) -> (r: AesCfb8)
        ensures
            r.key() == key@,
            r.register() == key@,
    {
        AesCfb8 { key: *key, state: *key }
    }

    fn shifted(buf: &[u8; 16], c: u8) -> (r: [u8; 16])
        ensures
            r@ == shift_in(buf@, c),
    {
        let r = [buf[1], buf[2], buf[3], buf[4], buf[5], buf[6], buf[7], buf[8],
            buf[9], buf[10], buf[11], buf[12], buf[13], buf[14], buf[15], c];
        assert(r@ =~= shift_in(buf@, c));
        r
    }

    /// Encrypts `data` in place; the ciphertext is fed back.
    pub fn encrypt(&mut self, data: &mut [u8])
        ensures
            final(self).key() == old(self).key(),
            final(data)@ == cfb8_encrypt(old(self).key(), old(self).register(), old(data)@).0,
            final(self).register() == cfb8_encrypt(old(self).key(), old(self).register(), old(data)@).1,
    {
        let ghost d0 = data@;
        let mut buf: [u8; 16] = self.state;
        let mut i: usize = 0;
        proof {
            assert(d0.subrange(0, d0.len() as int) =~= d0);
            let rest = cfb8_encrypt(self.key@, buf@, d0);
            assert(data@.subrange(0, 0) + rest.0 =~= rest.0);
        }
        while i < data.len()
            invariant
                i <= data@.len(),
                data@.len() == d0.len(),
                data@.subrange(i as int, d0.len() as int) == d0.subrange(i as int, d0.len() as int),
                cfb8_encrypt(self.key@, self.state@, d0) == ({
                    let rest = cfb8_encrypt(self.key@, buf@, d0.subrange(i as int, d0.len() as int));
                    (data@.subrange(0, i as int) + rest.0, rest.1)
                }),
            decreases data@.len() - i,
        {
            let ghost tail = d0.subrange(i as int, d0.len() as int);
            let block = aes128_encrypt_block(&self.key, &buf);
            let k = block[0];
            let c = data[i] ^ k;
            data[i] = c;
            buf = Self::shifted(&buf, c);
            proof {
                assert(tail[0] == d0[i as int]);
                assert(tail.drop_first() =~= d0.subrange(i + 1, d0.len() as int));
                assert(data@.subrange(0, i + 1) =~= data@.subrange(0, i as int).push(c));
                assert(data@.subrange(i + 1, d0.len() as int) =~= d0.subrange(i + 1, d0.len() as int));
            }
            i = i + 1;
            proof {
                let rest = cfb8_encrypt(self.key@, buf@, d0.subrange(i as int, d0.len() as int));
                assert(data@.subrange(0, i as int) + rest.0 =~= data@.subrange(0, i - 1) + (seq![c] + rest.0));
            }
        }
        proof {
            assert(d0.subrange(i as int, d0.len() as int) =~= Seq::<u8>::empty());
            assert(data@.subrange(0, i as int) =~= data@);
            assert(data@ + Seq::<u8>::empty() =~= data@);
        }
        self.state = buf;
    }

    /// Decrypts `data` in place; the ciphertext (the input) is fed back.
    pub fn decrypt(&mut self, data: &mut [u8])
        ensures
            final(self).key() == old(self).key(),
            final(data)@ == cfb8_decrypt(old(self).key(), old(self).register(), old(data)@).0,
            final(self).register() == cfb8_decrypt(old(self).key(), old(self).register(), old(data)@).1,
    {
        let ghost d0 = data@;
        let mut buf: [u8; 16] = self.state;
        let mut i: usize = 0;
        proof {
            assert(d0.subrange(0, d0.len() as int) =~= d0);
            let rest = cfb8_decrypt(self.key@, buf@, d0);
            assert(data@.subrange(0, 0) + rest.0 =~= rest.0);
        }
        while i < data.len()
            invariant
                i <= data@.len(),
                data@.len() == d0.len(),
                data@.subrange(i as int, d0.len() as int) == d0.subrange(i as int, d0.len() as int),
                cfb8_decrypt(self.key@, self.state@, d0) == ({
                    let rest = cfb8_decrypt(self.key@, buf@, d0.subrange(i as int, d0.len() as int));
                    (data@.subrange(0, i as int) + rest.0, rest.1)
                }),
            decreases data@.len() - i,
        {
            let ghost tail = d0.subrange(i as int, d0.len() as int);
            let block = aes128_encrypt_block(&self.key, &buf);
            let k = block[0];
            let ciphertext = data[i];
            let p = ciphertext ^ k;
            data[i] = p;
            buf = Self::shifted(&buf, ciphertext);
            proof {
                assert(tail[0] == d0[i as int]);
                assert(tail.drop_first() =~= d0.subrange(i + 1, d0.len() as int));
                assert(data@.subrange(0, i + 1) =~= data@.subrange(0, i as int).push(p));
                assert(data@.subrange(i + 1, d0.len() as int) =~= d0.subrange(i + 1, d0.len() as int));
            }
            i = i + 1;
            proof {
                let rest = cfb8_decrypt(self.key@, buf@, d0.subrange(i as int, d0.len() as int));
                assert(data@.subrange(0, i as int) + rest.0 =~= data@.subrange(0, i - 1) + (seq![p] + rest.0));
            }
        }
        proof {
            assert(d0.subrange(i as int, d0.len() as int) =~= Seq::<u8>::empty());
            assert(data@.subrange(0, i as int) =~= data@);
            assert(data@ + Seq::<u8>::empty() =~= data@);
        }
        self.state = buf;
    }

    /// Encrypts and then decrypts `data` from the same register: the bytes
    /// come back unchanged, and the register moves on as encrypting them
    /// moves it.
    pub fn process(&mut self, data: &mut [u8])
        ensures
            final(self).key() == old(self).key(),
            final(data)@ == old(data)@,
            final(self).register() == cfb8_encrypt(old(self).key(), old(self).register(), old(data)@).1,
    {
        let start = self.state;
        self.encrypt(data);
        self.state = start;
        self.decrypt(data);
        proof { cfb8_round_trip(self.key@, start@, old(data)@); }
    }
}

/// Decrypting what was encrypted, from the same key and register, gives
/// back the plaintext and leaves both sides with the same register; the
/// ciphertext is as long as the plaintext.
pub proof fn cfb8_round_trip(key: Seq<u8>, reg: Seq<u8>, data: Seq<u8>)
    ensures
        cfb8_decrypt(key, reg, cfb8_encrypt(key, reg, data).0) == (data, cfb8_encrypt(key, reg, data).1),
        cfb8_encrypt(key, reg, data).0.len() == data.len(),
    decreases data.len(),
{
    if data.len() > 0 {
        let k = keystream(key, reg);
        let d = data[0];
        let c = d ^ k;
        assert((c ^ k) == d) by (bit_vector)
            requires c == d ^ k;
        cfb8_round_trip(key, shift_in(reg, c), data.drop_first());
        let enc = cfb8_encrypt(key, reg, data).0;
        assert(enc[0] == c);
        assert(enc.drop_first() =~= cfb8_encrypt(key, shift_in(reg, c), data.drop_first()).0);
        assert(data =~= seq![data[0]] + data.drop_first());
    }
}

/// Encrypting a message in two pieces gives the same bytes as encrypting it
/// at once: the stream carries its register from one call to the next.
pub proof fn cfb8_encrypt_splits(key: Seq<u8>, reg: Seq<u8>, a: Seq<u8>, b: Seq<u8>)
    ensures
        cfb8_encrypt(key, reg, a + b) == ({
            let first = cfb8_encrypt(key, reg, a);
            let second = cfb8_encrypt(key, first.1, b);
            (first.0 + second.0, second.1)
        }),
    decreases a.len(),
{
    if a.len() == 0 {
        assert(a + b =~= b);
    } else {
        let c = a[0] ^ keystream(key, reg);
        cfb8_encrypt_splits(key, shift_in(reg, c), a.drop_first(), b);
        assert((a + b).drop_first() =~= a.drop_first() + b);
        assert((a + b)[0] == a[0]);
        let first = cfb8_encrypt(key, reg, a);
        let rest = cfb8_encrypt(key, shift_in(reg, c), a.drop_first());
        let second = cfb8_encrypt(key, first.1, b);
        assert(seq![c] + (rest.0 + second.0) =~= (seq![c] + rest.0) + second.0);
    }
}

/// CFB8 feeds the ciphertext back. Byte `i` of the ciphertext is plaintext
/// byte `i` xor the first byte of the AES block of the register at that
/// point, and that register is the 16 bytes of the initial register and the
/// ciphertext so far that end just before byte `i`; the final register is
/// the last 16 bytes of the initial register followed by the ciphertext.
pub proof fn cfb8_encrypt_feeds_back_ciphertext(key: Seq<u8>, reg: Seq<u8>, data: Seq<u8>)
    requires
        reg.len() == 16,
    ensures
        ({
            let out = cfb8_encrypt(key, reg, data).0;
            &&& out.len() == data.len()
            &&& forall|i: int| 0 <= i < data.len() ==>
                #[trigger] out[i] == data[i] ^ aes128_block(key, (reg + out).subrange(i, i + 16))[0]
            &&& cfb8_encrypt(key, reg, data).1 == (reg + out).subrange(data.len() as int, data.len() as int + 16)
        }),
    decreases data.len(),
{
    let out = cfb8_encrypt(key, reg, data).0;
    if data.len() == 0 {
        assert((reg + out).subrange(0, 16) =~= reg);
    } else {
        let c = data[0] ^ keystream(key, reg);
        let reg2 = shift_in(reg, c);
        let rest = cfb8_encrypt(key, reg2, data.drop_first());
        cfb8_encrypt_feeds_back_ciphertext(key, reg2, data.drop_first());
        assert(out =~= seq![c] + rest.0);
        assert(reg + out =~= seq![reg[0]] + (reg2 + rest.0));
        assert forall|i: int| 0 <= i < data.len() implies
            #[trigger] out[i] == data[i] ^ aes128_block(key, (reg + out).subrange(i, i + 16))[0] by {
            if i == 0 {
                assert((reg + out).subrange(0, 16) =~= reg);
            } else {
                assert((reg + out).subrange(i, i + 16) =~= (reg2 + rest.0).subrange(i - 1, i + 15));
                assert(out[i] == rest.0[i - 1]);
                assert(data[i] == data.drop_first()[i - 1]);
            }
        }
        let n = data.len() as int;
        assert((reg + out).subrange(n, n + 16) =~= (reg2 + rest.0).subrange(n - 1, n + 15));
    }
}

/// CFB8 decryption feeds the ciphertext it reads back: plaintext byte `i`
/// is ciphertext byte `i` xor the first byte of the AES block of the 16
/// bytes of the initial register and the ciphertext that end just before
/// byte `i`; the final register is the last 16 bytes of the initial
/// register followed by the ciphertext.
pub proof fn cfb8_decrypt_feeds_back_ciphertext(key: Seq<u8>, reg: Seq<u8>, data: Seq<u8>)
    requires
        reg.len() == 16,
    ensures
        ({
            let out = cfb8_decrypt(key, reg, data).0;
            &&& out.len() == data.len()
            &&& forall|i: int| 0 <= i < data.len() ==>
                #[trigger] out[i] == data[i] ^ aes128_block(key, (reg + data).subrange(i, i + 16))[0]
            &&& cfb8_decrypt(key, reg, data).1 == (reg + data).subrange(data.len() as int, data.len() as int + 16)
        }),
    decreases data.len(),
{
    let out = cfb8_decrypt(key, reg, data).0;
    if data.len() == 0 {
        assert((reg + data).subrange(0, 16) =~= reg);
    } else {
        let p = data[0] ^ keystream(key, reg);
        let reg2 = shift_in(reg, data[0]);
        let tail = data.drop_first();
        let rest = cfb8_decrypt(key, reg2, tail);
        cfb8_decrypt_feeds_back_ciphertext(key, reg2, tail);
        assert(out =~= seq![p] + rest.0);
        assert(reg + data =~= seq![reg[0]] + (reg2 + tail));
        assert forall|i: int| 0 <= i < data.len() implies
            #[trigger] out[i] == data[i] ^ aes128_block(key, (reg + data).subrange(i, i + 16))[0] by {
            if i == 0 {
                assert((reg + data).subrange(0, 16) =~= reg);
            } else {
                assert((reg + data).subrange(i, i + 16) =~= (reg2 + tail).subrange(i - 1, i + 15));
                assert(out[i] == rest.0[i - 1]);
                assert(data[i] == tail[i - 1]);
            }
        }
        let n = data.len() as int;
        assert((reg + data).subrange(n, n + 16) =~= (reg2 + tail).subrange(n - 1, n + 15));
    }
}

} // verus!
