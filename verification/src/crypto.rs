//! Digest, cipher and encoding primitives. The MD5 digest, AES-256 block
//! decryption, Base-64 decoding and UTF-8 validation are done by the crates
//! and by std; what this module adds to them is verified.

use aes::cipher::BlockDecrypt;
use aes::cipher::KeyInit;
use base64::Engine;
use vstd::prelude::*;
use vstd::slice::slice_subrange;
use vstd::string::StringExecFns;
use vstd::utf8::decode_utf8;
use vstd::utf8::encode_utf8;
use vstd::utf8::is_ascii_chars;
use vstd::utf8::valid_utf8;

use crate::text::hex_digit_char;
use crate::text::hex_digit_str;

verus! {

/// The MD5 digest of `data`: sixteen bytes.
pub uninterp spec fn md5_digest(data: Seq<u8>) -> Seq<u8>;

/// `md5::compute`, the digest taken out of its `Digest`. The contract names
/// the digest; that it has sixteen bytes is in the type.
#[verifier::external_body]
pub(crate) fn md5_compute(data: &[u8]) -> (digest: [u8; 16])
    ensures
        digest@ == md5_digest(data@),
{
    md5::compute(data).0
}

/// What AES-256 under `key` decrypts the one block `block` to.
pub uninterp spec fn aes256_block_decrypted(key: Seq<u8>, block: Seq<u8>) -> Seq<u8>;

/// `BlockDecrypt::decrypt_block` of an `aes::Aes256` made by `KeyInit::new`
/// from `key`. The key must have 32 bytes and the block 16: the crate
/// panics on other lengths. The contract names the decrypted block.
#[verifier::external_body]
pub(crate) fn aes256_decrypt_block(key: &[u8], block: &[u8]) -> (plain: [u8; 16])
    requires
        key@.len() == 32,
        block@.len() == 16,
    ensures
        plain@ == aes256_block_decrypted(key@, block@),
{
    let cipher = aes::Aes256::new(aes::cipher::generic_array::GenericArray::from_slice(key));
    let mut buffer = aes::cipher::generic_array::GenericArray::clone_from_slice(block);
    cipher.decrypt_block(&mut buffer);
    buffer.into()
}

/// The bytes that `text` stands for in standard Base-64 with padding, or
/// `None` where it is no such encoding.
pub uninterp spec fn base64_standard(text: Seq<char>) -> Option<Seq<u8>>;

/// `Engine::decode` of `base64::engine::general_purpose::STANDARD`. The
/// contract names the decoded bytes; of a failure it only says that there
/// are none, and hands out the crate's description of the error.
#[verifier::external_body]
pub(crate) fn base64_decode(text: &str) -> (r: Result<Vec<u8>, String>)
    ensures
        match r {
            Ok(bytes) => base64_standard(text@) == Some(bytes@),
            Err(_) => base64_standard(text@) is None,
        },
{
    base64::engine::general_purpose::STANDARD.decode(text).map_err(|e| e.to_string())
}

/// `String::from_utf8`: the text that `bytes` encode, if they are valid
/// UTF-8, and std's description of the error if not.
#[verifier::external_body]
pub(crate) fn string_from_utf8(bytes: Vec<u8>) -> (r: Result<String, String>)
    ensures
        match r {
            Ok(s) => valid_utf8(bytes@) && s@ == decode_utf8(bytes@),
            Err(_) => !valid_utf8(bytes@),
        },
{
    String::from_utf8(bytes).map_err(|e| e.to_string())
}

/// Two lower-case hexadecimal digits for each byte, the high one first.
pub open spec fn hex_lower(bytes: Seq<u8>) -> Seq<char> {
    Seq::new(
        2 * bytes.len(),
        |i: int|
            if i % 2 == 0 {
                hex_digit_char(bytes[i / 2] as int / 16)
            } else {
                hex_digit_char(bytes[i / 2] as int % 16)
            },
    )
}

/// The hexadecimal form of any bytes is ASCII, two characters for each
/// byte.
pub proof fn lemma_hex_lower_ascii(bytes: Seq<u8>)
    ensures
        hex_lower(bytes).len() == 2 * bytes.len(),
        is_ascii_chars(hex_lower(bytes)),
{
    assert forall|i: int| 0 <= i < hex_lower(bytes).len() implies '\0' <= #[trigger] hex_lower(
        bytes,
    )[i] <= '\u{7f}' by {
        let d = if i % 2 == 0 {
            bytes[i / 2] as int / 16
        } else {
            bytes[i / 2] as int % 16
        };
        assert(0 <= d < 16);
        assert(hex_lower(bytes)[i] == hex_digit_char(d));
    }
}

/// The lower-case hexadecimal form of `bytes`.
pub fn to_hex_lower(bytes: &[u8]) -> (r: String)
    ensures
        r@ == hex_lower(bytes@),
{
    let n = bytes.len();
    let mut out = String::new();
    let mut i: usize = 0;
    while i < n
        invariant
            n == bytes@.len(),
            i <= n,
            out@ == hex_lower(bytes@.subrange(0, i as int)),
        decreases n - i,
    {
        let b = bytes[i];
        out.append(hex_digit_str(b / 16));
        out.append(hex_digit_str(b % 16));
        assert(out@ =~= hex_lower(bytes@.subrange(0, i + 1)));
        i += 1;
    }
    assert(bytes@.subrange(0, n as int) =~= bytes@);
    out
}

/// The MD5 digest of the UTF-8 form of `text`, in lower-case hexadecimal.
pub open spec fn md5_hex(text: Seq<char>) -> Seq<char> {
    hex_lower(md5_digest(encode_utf8(text)))
}

/// The MD5 digest of `text`, in lower-case hexadecimal: 32 characters of
/// ASCII.
pub fn md5_hex_of(text: &str) -> (r: String)
    ensures
        r@ == md5_hex(text@),
        r@.len() == 32,
        is_ascii_chars(r@),
{
    let digest = md5_compute(text.as_bytes());
    proof {
        lemma_hex_lower_ascii(digest@);
    }
    to_hex_lower(digest.as_slice())
}

/// `data`, a whole number of sixteen-byte blocks, decrypted under `key`
/// block by block, each block by itself.
pub open spec fn ecb_decrypted(key: Seq<u8>, data: Seq<u8>) -> Seq<u8>
    decreases data.len(),
{
    if data.len() < 16 {
        Seq::empty()
    } else {
        let cut = data.len() - 16;
        ecb_decrypted(key, data.subrange(0, cut)) + aes256_block_decrypted(
            key,
            data.subrange(cut, cut + 16),
        )
    }
}

/// Decrypts `data`, a whole number of blocks, block by block under `key`.
pub fn ecb_decrypt(key: &[u8], data: &[u8]) -> (plain: Vec<u8>)
    requires
        key@.len() == 32,
        data@.len() % 16 == 0,
    ensures
        plain@ == ecb_decrypted(key@, data@),
{
    let n = data.len();
    let mut out: Vec<u8> = Vec::new();
    let mut i: usize = 0;
    while i < n
        invariant
            n == data@.len(),
            n % 16 == 0,
            i % 16 == 0,
            i <= n,
            key@.len() == 32,
            out@ == ecb_decrypted(key@, data@.subrange(0, i as int)),
        decreases n - i,
    {
        let block = slice_subrange(data, i, i + 16);
        let plain = aes256_decrypt_block(key, block);
        let mut k: usize = 0;
        let ghost before = out@;
        while k < 16
            invariant
                k <= 16,
                out@ == before + plain@.subrange(0, k as int),
            decreases 16 - k,
        {
            out.push(plain[k]);
            assert(out@ =~= before + plain@.subrange(0, k + 1));
            k += 1;
        }
        proof {
            let next = data@.subrange(0, i + 16);
            assert(next.subrange(0, i as int) =~= data@.subrange(0, i as int));
            assert(next.subrange(i as int, i + 16) =~= block@);
            assert(plain@.subrange(0, 16) =~= plain@);
        }
        i += 16;
    }
    assert(data@.subrange(0, n as int) =~= data@);
    out
}

} // verus!
