//! The cipher computation that the hardware engine performs on one block.
//!
//! The driver never implements AES itself: the peripheral's engine does the
//! arithmetic. Here that computation is given a name, and the `aes` crate
//! stands in for the engine, so the driver's sequencing logic can be proved
//! against an exact statement of what comes out of the output FIFO.

use vstd::prelude::*;

verus! {

/// The AES-256 ciphertext of the 16-byte block `block` under the 32-byte
/// key `key`: a function of the key and the block alone.
pub uninterp spec fn aes256_encipher(key: Seq<u8>, block: Seq<u8>) -> Seq<u8>;

/// The AES-256 plaintext of the 16-byte block `block` under the 32-byte
/// key `key`: a function of the key and the block alone.
pub uninterp spec fn aes256_decipher(key: Seq<u8>, block: Seq<u8>) -> Seq<u8>;

/// Relies on `aes::Aes256` (`KeyInit::new_from_slice` then
/// `BlockCipherEncrypt::encrypt_block`): enciphers one 16-byte block with a
/// 32-byte key. The result depends on the key and the block alone, is 16
/// bytes, and `BlockCipherDecrypt::decrypt_block` inverts it under the same
/// key (AES fixes a key-indexed permutation of the block space, as the
/// crate's own round-trip documentation shows).
#[verifier::external_body]
pub(crate) fn hw_encipher(key: &[u8], block: [u8; 16]) -> (r: [u8; 16])
    requires
        key@.len() == 32,
    ensures
        r@ == aes256_encipher(key@, block@),
        aes256_decipher(key@, r@) == block@,
{
    let cipher = <aes::Aes256 as aes::cipher::KeyInit>::new_from_slice(key).unwrap();
    let mut b = aes::cipher::Array::from(block);
    aes::cipher::BlockCipherEncrypt::encrypt_block(&cipher, &mut b);
    b.0
}

/// Relies on `aes::Aes256` (`KeyInit::new_from_slice` then
/// `BlockCipherDecrypt::decrypt_block`): deciphers one 16-byte block with a
/// 32-byte key. The result depends on the key and the block alone, is 16
/// bytes, and `BlockCipherEncrypt::encrypt_block` maps it back to the input
/// under the same key (AES fixes a key-indexed permutation of the block
/// space, so every block is the ciphertext of exactly one plaintext).
#[verifier::external_body]
pub(crate) fn hw_decipher(key: &[u8], block: [u8; 16]) -> (r: [u8; 16])
    requires
        key@.len() == 32,
    ensures
        r@ == aes256_decipher(key@, block@),
        aes256_encipher(key@, r@) == block@,
{
    let cipher = <aes::Aes256 as aes::cipher::KeyInit>::new_from_slice(key).unwrap();
    let mut b = aes::cipher::Array::from(block);
    aes::cipher::BlockCipherDecrypt::decrypt_block(&cipher, &mut b);
    b.0
}

} // verus!
