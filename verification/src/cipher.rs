//! The vault stream cipher: a fixed-key, position-dependent byte transform.
//!
//! Each byte is combined with a key byte derived from its position: on
//! encryption the key is added (wrapping) and then XORed in; decryption
//! undoes both steps.  The two directions are proved inverse of each other.

use vstd::prelude::*;

verus! {

/// The fixed key byte the position-dependent key stream is derived from.
pub const KEY: u8 = 0xAA;

/// The key byte used at position `i` of the data.
pub open spec fn spec_key_at(i: int) -> u8 {
    ((KEY + (i % 255)) % 256) as u8
}

/// One byte of ciphertext: add the key byte (mod 256), then XOR it in.
pub open spec fn spec_encrypt_byte(b: u8, k: u8) -> u8 {
    (((b + k) % 256) as u8) ^ k
}

/// One byte of plaintext: XOR the key byte out, then subtract it (mod 256).
pub open spec fn spec_decrypt_byte(b: u8, k: u8) -> u8 {
    (((b ^ k) + 256 - k) % 256) as u8
}

/// The whole ciphertext of `s`.
pub open spec fn spec_encrypt(s: Seq<u8>) -> Seq<u8> {
    Seq::new(s.len(), |i: int| spec_encrypt_byte(s[i], spec_key_at(i)))
}

/// The whole plaintext of `s`.
pub open spec fn spec_decrypt(s: Seq<u8>) -> Seq<u8> {
    Seq::new(s.len(), |i: int| spec_decrypt_byte(s[i], spec_key_at(i)))
}

fn key_at(i: usize) -> (k: u8)
    ensures
        k == spec_key_at(i as int),
{
    KEY.wrapping_add((i % 255) as u8)
}

/// Encrypts `data` for storage under a vault path.
pub fn encrypt(data: &[u8]) -> (r: Vec<u8>)
    ensures
        r@ == spec_encrypt(data@),
{
    let mut out: Vec<u8> = Vec::new();
    let mut i: usize = 0;
    while i < data.len()
        invariant
            i <= data@.len(),
            out@.len() == i,
            forall|j: int| 0 <= j < i ==> out@[j] == spec_encrypt_byte(data@[j], spec_key_at(j)),
        decreases data@.len() - i,
    {
        let k = key_at(i);
        out.push(data[i].wrapping_add(k) ^ k);
        i = i + 1;
    }
    proof {
        assert(out@ =~= spec_encrypt(data@));
    }
    out
}

/// Decrypts `data` read back from a vault path.
pub fn decrypt(data: &[u8]) -> (r: Vec<u8>)
    ensures
        r@ == spec_decrypt(data@),
{
    let mut out: Vec<u8> = Vec::new();
    let mut i: usize = 0;
    while i < data.len()
        invariant
            i <= data@.len(),
            out@.len() == i,
            forall|j: int| 0 <= j < i ==> out@[j] == spec_decrypt_byte(data@[j], spec_key_at(j)),
        decreases data@.len() - i,
    {
        let k = key_at(i);
        out.push((data[i] ^ k).wrapping_sub(k));
        i = i + 1;
    }
    proof {
        assert(out@ =~= spec_decrypt(data@));
    }
    out
}

proof fn lemma_byte_round_trip(b: u8, k: u8)
    ensures
        spec_decrypt_byte(spec_encrypt_byte(b, k), k) == b,
{
    let a = ((b + k) % 256) as u8;
    assert((a ^ k) ^ k == a) by (bit_vector);
    assert(((a + 256 - k) % 256) as u8 == b) by {
        assert(a == (b + k) % 256);
    };
}

/// The vault round trip: decrypting an encryption returns the original
/// bytes, for every byte sequence.
pub proof fn lemma_vault_round_trip(s: Seq<u8>)
    ensures
        spec_decrypt(spec_encrypt(s)) == s,
{
    assert forall|i: int| 0 <= i < s.len() implies spec_decrypt(spec_encrypt(s))[i] == s[i] by {
        lemma_byte_round_trip(s[i], spec_key_at(i));
    }
    assert(spec_decrypt(spec_encrypt(s)) =~= s);
}

} // verus!
