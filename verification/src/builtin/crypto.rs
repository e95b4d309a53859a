//! Hashes and checksums of strings and of the contents of files.
//!
//! The digests come from the RustCrypto crates (`sha2`, `sha3`, `md-5`) and
//! are hex-encoded with `hex`; the checksums come from `crc32fast`,
//! `xxhash-rust` and `adler32fast`. Several inputs are hashed as one stream:
//! the digest or checksum of their concatenation.

use vstd::prelude::*;
use crate::registry::Builtin;
use vstd::string::*;
use vstd::utf8::encode_utf8;
use sha2::Digest;
use crate::text::str_eq;

verus! {

/// SHA-256 digest of a byte sequence.
pub uninterp spec fn sha256_of(data: Seq<u8>) -> Seq<u8>;
/// SHA-512 digest of a byte sequence.
pub uninterp spec fn sha512_of(data: Seq<u8>) -> Seq<u8>;
/// SHA-224 digest of a byte sequence.
pub uninterp spec fn sha224_of(data: Seq<u8>) -> Seq<u8>;
/// SHA-512/224 digest of a byte sequence.
pub uninterp spec fn sha512_224_of(data: Seq<u8>) -> Seq<u8>;
/// SHA-512/256 digest of a byte sequence.
pub uninterp spec fn sha512_256_of(data: Seq<u8>) -> Seq<u8>;
/// SHA-384 digest of a byte sequence.
pub uninterp spec fn sha384_of(data: Seq<u8>) -> Seq<u8>;
/// SHA3-224 digest of a byte sequence.
pub uninterp spec fn sha3_224_of(data: Seq<u8>) -> Seq<u8>;
/// SHA3-256 digest of a byte sequence.
pub uninterp spec fn sha3_256_of(data: Seq<u8>) -> Seq<u8>;
/// SHA3-384 digest of a byte sequence.
pub uninterp spec fn sha3_384_of(data: Seq<u8>) -> Seq<u8>;
/// SHA3-512 digest of a byte sequence.
pub uninterp spec fn sha3_512_of(data: Seq<u8>) -> Seq<u8>;
/// MD5 digest of a byte sequence.
pub uninterp spec fn md5_of(data: Seq<u8>) -> Seq<u8>;
/// 64-bit XXH3 hash (default seed and secret) of a byte sequence.
pub uninterp spec fn xxh3_64_of(data: Seq<u8>) -> u64;

/// `sha2::Sha256::digest`.
#[verifier::external_body]
fn sha256_digest(data: &[u8]) -> (res: Vec<u8>)
    ensures
        res@ == sha256_of(data@),
        res@.len() == 32,
{
    sha2::Sha256::digest(data).to_vec()
}

/// `sha2::Sha512::digest`.
#[verifier::external_body]
fn sha512_digest(data: &[u8]) -> (res: Vec<u8>)
    ensures
        res@ == sha512_of(data@),
        res@.len() == 64,
{
    sha2::Sha512::digest(data).to_vec()
}

/// `sha2::Sha224::digest`.
#[verifier::external_body]
fn sha224_digest(data: &[u8]) -> (res: Vec<u8>)
    ensures
        res@ == sha224_of(data@),
        res@.len() == 28,
{
    sha2::Sha224::digest(data).to_vec()
}

/// `sha2::Sha512_224::digest`.
#[verifier::external_body]
fn sha512_224_digest(data: &[u8]) -> (res: Vec<u8>)
    ensures
        res@ == sha512_224_of(data@),
        res@.len() == 28,
{
    sha2::Sha512_224::digest(data).to_vec()
}

/// `sha2::Sha512_256::digest`.
#[verifier::external_body]
fn sha512_256_digest(data: &[u8]) -> (res: Vec<u8>)
    ensures
        res@ == sha512_256_of(data@),
        res@.len() == 32,
{
    sha2::Sha512_256::digest(data).to_vec()
}

/// `sha2::Sha384::digest`.
#[verifier::external_body]
fn sha384_digest(data: &[u8]) -> (res: Vec<u8>)
    ensures
        res@ == sha384_of(data@),
        res@.len() == 48,
{
    sha2::Sha384::digest(data).to_vec()
}

/// `sha3::Sha3_224::digest`.
#[verifier::external_body]
fn sha3_224_digest(data: &[u8]) -> (res: Vec<u8>)
    ensures
        res@ == sha3_224_of(data@),
        res@.len() == 28,
{
    sha3::Sha3_224::digest(data).to_vec()
}

/// `sha3::Sha3_256::digest`.
#[verifier::external_body]
fn sha3_256_digest(data: &[u8]) -> (res: Vec<u8>)
    ensures
        res@ == sha3_256_of(data@),
        res@.len() == 32,
{
    sha3::Sha3_256::digest(data).to_vec()
}

/// `sha3::Sha3_384::digest`.
#[verifier::external_body]
fn sha3_384_digest(data: &[u8]) -> (res: Vec<u8>)
    ensures
        res@ == sha3_384_of(data@),
        res@.len() == 48,
{
    sha3::Sha3_384::digest(data).to_vec()
}

/// `sha3::Sha3_512::digest`.
#[verifier::external_body]
fn sha3_512_digest(data: &[u8]) -> (res: Vec<u8>)
    ensures
        res@ == sha3_512_of(data@),
        res@.len() == 64,
{
    sha3::Sha3_512::digest(data).to_vec()
}

/// `md5::Md5::digest` (crate `md-5`).
#[verifier::external_body]
fn md5_digest(data: &[u8]) -> (res: Vec<u8>)
    ensures
        res@ == md5_of(data@),
        res@.len() == 16,
{
    md5::Md5::digest(data).to_vec()
}

/// `xxhash_rust::xxh3::xxh3_64`, the one-shot form of the `Xxh3` hasher
/// with its default seed.
#[verifier::external_body]
fn xxh3_64_hash(data: &[u8]) -> (res: u64)
    ensures
        res == xxh3_64_of(data@),
{
    xxhash_rust::xxh3::xxh3_64(data)
}

/// The lower-case hex digit of a value below 16.
pub open spec fn hex_digit(v: u8) -> char {
    if v < 10 {
        ((v + 48) as u8) as char
    } else {
        ((v + 87) as u8) as char
    }
}

/// Lower-case hex encoding: two digits per byte, high nibble first.
pub open spec fn spec_hex(data: Seq<u8>) -> Seq<char>
    decreases data.len(),
{
    if data.len() == 0 {
        seq![]
    } else {
        spec_hex(data.drop_last()) + seq![hex_digit(data.last() / 16), hex_digit(data.last() % 16)]
    }
}

/// `hex::encode`: the lower-case hex encoding of the bytes.
#[verifier::external_body]
fn hex_encode(data: &[u8]) -> (res: String)
    ensures
        res@ == spec_hex(data@),
{
    hex::encode(data)
}

/// One step of the bitwise CRC-32 (IEEE, reflected polynomial 0xEDB88320).
pub open spec fn crc32_shift(c: u32, k: nat) -> u32
    decreases k,
{
    if k == 0 {
        c
    } else {
        let c1 = crc32_shift(c, (k - 1) as nat);
        if c1 & 1 == 1 {
            (c1 >> 1u32) ^ 0xEDB88320u32
        } else {
            c1 >> 1u32
        }
    }
}

/// The CRC-32 register after reading `data`, starting from all ones.
pub open spec fn crc32_register(data: Seq<u8>) -> u32
    decreases data.len(),
{
    if data.len() == 0 {
        0xFFFF_FFFFu32
    } else {
        crc32_shift(crc32_register(data.drop_last()) ^ (data.last() as u32), 8)
    }
}

/// The CRC-32 (IEEE 802.3) checksum of `data`.
pub open spec fn spec_crc32(data: Seq<u8>) -> u32 {
    crc32_register(data) ^ 0xFFFF_FFFFu32
}

/// `crc32fast::hash`: the CRC-32 (IEEE) checksum of the bytes, which is what
/// the `crc32fast::Hasher` yields after writing them.
#[verifier::external_body]
fn crc32_hash(data: &[u8]) -> (res: u32)
    ensures
        res == spec_crc32(data@),
{
    crc32fast::hash(data)
}

/// The two Adler-32 sums after reading `data`.
pub open spec fn adler32_sums(data: Seq<u8>) -> (nat, nat)
    decreases data.len(),
{
    if data.len() == 0 {
        (1, 0)
    } else {
        let prev = adler32_sums(data.drop_last());
        let a = ((prev.0 + data.last()) % 65521) as nat;
        (a, ((prev.1 + a) % 65521) as nat)
    }
}

/// The Adler-32 checksum of `data`.
pub open spec fn spec_adler32(data: Seq<u8>) -> u32 {
    (adler32_sums(data).1 * 65536 + adler32_sums(data).0) as u32
}

/// `adler32fast::Adler32`: a fresh hasher (`new`), fed the bytes (`update`),
/// read out (`as_u32`); the Adler-32 checksum of the bytes.
#[verifier::external_body]
fn adler32_hash(data: &[u8]) -> (res: u32)
    ensures
        res == spec_adler32(data@),
{
    let mut hasher = adler32fast::Adler32::new();
    hasher.update(data);
    hasher.as_u32()
}

/// The digest algorithms that `hash` and `hashs` accept.
#[derive(Debug, Clone, Copy, PartialEq, Eq, Structural)]
pub enum HashAlgorithm {
    Sha256,
    Sha512,
    Sha224,
    Sha512_224,
    Sha512_256,
    Sha384,
    Sha3_224,
    Sha3_256,
    Sha3_384,
    Sha3_512,
    Md5,
}

/// The checksum algorithms that `checksum` and `checksums` accept.
#[derive(Debug, Clone, Copy, PartialEq, Eq, Structural)]
pub enum ChecksumAlgorithm {
    Crc32,
    Xxh3,
    Adler32,
}

/// Errors of the hashing builtins.
#[derive(Debug)]
pub enum CryptoError {
    /// The digest algorithm is not known.
    UnknownHash { name: String },
    /// The checksum algorithm is not known.
    UnknownChecksum { name: String },
}

impl CryptoError {
    /// The message that accompanies the error.
    pub fn message(&self) -> (res: String)
        ensures
            res@ == (match self {
                CryptoError::UnknownHash { name } => "Unkown hash algorithm: "@ + name@,
                CryptoError::UnknownChecksum { name } => "Unknown checksum algorithm: "@ + name@,
            }),
    {
        match self {
            CryptoError::UnknownHash { name } => {
                let mut res = "Unkown hash algorithm: ".to_owned();
                res.append(name.as_str());
                res
            },
            CryptoError::UnknownChecksum { name } => {
                let mut res = "Unknown checksum algorithm: ".to_owned();
                res.append(name.as_str());
                res
            },
        }
    }
}

/// The digest algorithm that a name stands for.
pub open spec fn hash_algorithm_named(name: Seq<char>) -> Option<HashAlgorithm> {
    if name == "sha256"@ {
        Some(HashAlgorithm::Sha256)
    } else if name == "sha512"@ {
        Some(HashAlgorithm::Sha512)
    } else if name == "sha224"@ {
        Some(HashAlgorithm::Sha224)
    } else if name == "sha512-224"@ {
        Some(HashAlgorithm::Sha512_224)
    } else if name == "sha512-256"@ {
        Some(HashAlgorithm::Sha512_256)
    } else if name == "sha384"@ {
        Some(HashAlgorithm::Sha384)
    } else if name == "sha3-224"@ {
        Some(HashAlgorithm::Sha3_224)
    } else if name == "sha3-256"@ {
        Some(HashAlgorithm::Sha3_256)
    } else if name == "sha3-384"@ {
        Some(HashAlgorithm::Sha3_384)
    } else if name == "sha3-512"@ {
        Some(HashAlgorithm::Sha3_512)
    } else if name == "md5"@ {
        Some(HashAlgorithm::Md5)
    } else {
        None
    }
}

/// The checksum algorithm that a name stands for.
pub open spec fn checksum_algorithm_named(name: Seq<char>) -> Option<ChecksumAlgorithm> {
    if name == "crc32"@ {
        Some(ChecksumAlgorithm::Crc32)
    } else if name == "xxh3"@ {
        Some(ChecksumAlgorithm::Xxh3)
    } else if name == "adler32"@ {
        Some(ChecksumAlgorithm::Adler32)
    } else {
        None
    }
}

/// The digest of `data` under `alg`.
pub open spec fn digest_of(alg: HashAlgorithm, data: Seq<u8>) -> Seq<u8> {
    match alg {
        HashAlgorithm::Sha256 => sha256_of(data),
        HashAlgorithm::Sha512 => sha512_of(data),
        HashAlgorithm::Sha224 => sha224_of(data),
        HashAlgorithm::Sha512_224 => sha512_224_of(data),
        HashAlgorithm::Sha512_256 => sha512_256_of(data),
        HashAlgorithm::Sha384 => sha384_of(data),
        HashAlgorithm::Sha3_224 => sha3_224_of(data),
        HashAlgorithm::Sha3_256 => sha3_256_of(data),
        HashAlgorithm::Sha3_384 => sha3_384_of(data),
        HashAlgorithm::Sha3_512 => sha3_512_of(data),
        HashAlgorithm::Md5 => md5_of(data),
    }
}

/// The length in bytes of a digest under `alg`.
pub open spec fn digest_len(alg: HashAlgorithm) -> nat {
    match alg {
        HashAlgorithm::Sha256 => 32,
        HashAlgorithm::Sha512 => 64,
        HashAlgorithm::Sha224 => 28,
        HashAlgorithm::Sha512_224 => 28,
        HashAlgorithm::Sha512_256 => 32,
        HashAlgorithm::Sha384 => 48,
        HashAlgorithm::Sha3_224 => 28,
        HashAlgorithm::Sha3_256 => 32,
        HashAlgorithm::Sha3_384 => 48,
        HashAlgorithm::Sha3_512 => 64,
        HashAlgorithm::Md5 => 16,
    }
}

/// The hex encoding has two digits per byte.
pub proof fn lemma_hex_len(data: Seq<u8>)
    ensures
        spec_hex(data).len() == 2 * data.len(),
    decreases data.len(),
{
    if data.len() > 0 {
        lemma_hex_len(data.drop_last());
    }
}

/// The checksum of `data` under `alg`, widened to 64 bits.
pub open spec fn checksum_of(alg: ChecksumAlgorithm, data: Seq<u8>) -> u64 {
    match alg {
        ChecksumAlgorithm::Crc32 => spec_crc32(data) as u64,
        ChecksumAlgorithm::Xxh3 => xxh3_64_of(data),
        ChecksumAlgorithm::Adler32 => spec_adler32(data) as u64,
    }
}

/// The UTF-8 bytes of several strings, one after the other.
pub open spec fn concat_utf8(parts: Seq<Seq<char>>) -> Seq<u8>
    decreases parts.len(),
{
    if parts.len() == 0 {
        seq![]
    } else {
        concat_utf8(parts.drop_last()) + encode_utf8(parts.last())
    }
}

/// Several strings written one after the other, as one string.
pub open spec fn joined(parts: Seq<Seq<char>>) -> Seq<char>
    decreases parts.len(),
{
    if parts.len() == 0 {
        seq![]
    } else {
        joined(parts.drop_last()) + parts.last()
    }
}

/// The UTF-8 encoding of two strings one after the other is their two
/// encodings one after the other.
proof fn lemma_encode_utf8_append(a: Seq<char>, b: Seq<char>)
    ensures
        encode_utf8(a + b) == encode_utf8(a) + encode_utf8(b),
    decreases a.len(),
{
    if a.len() == 0 {
        assert(a + b =~= b);
        assert(encode_utf8(a) + encode_utf8(b) =~= encode_utf8(b));
    } else {
        lemma_encode_utf8_append(a.drop_first(), b);
        assert((a + b).drop_first() =~= a.drop_first() + b);
        assert((a + b)[0] == a[0]);
        let head = vstd::utf8::encode_scalar(a[0] as u32);
        assert(encode_utf8(a + b) == head + encode_utf8(a.drop_first() + b));
        assert(encode_utf8(a) == head + encode_utf8(a.drop_first()));
        assert(head + (encode_utf8(a.drop_first()) + encode_utf8(b)) =~= (head + encode_utf8(
            a.drop_first(),
        )) + encode_utf8(b));
    }
}

/// Each name stands for the digest algorithm of that name, and hashing
/// under it gives that algorithm's digest of the bytes: `sha224` is SHA-224,
/// `sha3-224` is SHA3-224, `md5` is MD5, and so on.
pub proof fn lemma_names_select_their_digests(data: Seq<u8>)
    ensures
        hash_algorithm_named("sha256"@) == Some(HashAlgorithm::Sha256),
        digest_of(HashAlgorithm::Sha256, data) == sha256_of(data),
        hash_algorithm_named("sha512"@) == Some(HashAlgorithm::Sha512),
        digest_of(HashAlgorithm::Sha512, data) == sha512_of(data),
        hash_algorithm_named("sha224"@) == Some(HashAlgorithm::Sha224),
        digest_of(HashAlgorithm::Sha224, data) == sha224_of(data),
        hash_algorithm_named("sha512-224"@) == Some(HashAlgorithm::Sha512_224),
        digest_of(HashAlgorithm::Sha512_224, data) == sha512_224_of(data),
        hash_algorithm_named("sha512-256"@) == Some(HashAlgorithm::Sha512_256),
        digest_of(HashAlgorithm::Sha512_256, data) == sha512_256_of(data),
        hash_algorithm_named("sha384"@) == Some(HashAlgorithm::Sha384),
        digest_of(HashAlgorithm::Sha384, data) == sha384_of(data),
        hash_algorithm_named("sha3-224"@) == Some(HashAlgorithm::Sha3_224),
        digest_of(HashAlgorithm::Sha3_224, data) == sha3_224_of(data),
        hash_algorithm_named("sha3-256"@) == Some(HashAlgorithm::Sha3_256),
        digest_of(HashAlgorithm::Sha3_256, data) == sha3_256_of(data),
        hash_algorithm_named("sha3-384"@) == Some(HashAlgorithm::Sha3_384),
        digest_of(HashAlgorithm::Sha3_384, data) == sha3_384_of(data),
        hash_algorithm_named("sha3-512"@) == Some(HashAlgorithm::Sha3_512),
        digest_of(HashAlgorithm::Sha3_512, data) == sha3_512_of(data),
        hash_algorithm_named("md5"@) == Some(HashAlgorithm::Md5),
        digest_of(HashAlgorithm::Md5, data) == md5_of(data),
{
    reveal_strlit("sha256");
    reveal_strlit("sha512");
    reveal_strlit("sha224");
    reveal_strlit("sha512-224");
    reveal_strlit("sha512-256");
    reveal_strlit("sha384");
    reveal_strlit("sha3-224");
    reveal_strlit("sha3-256");
    reveal_strlit("sha3-384");
    reveal_strlit("sha3-512");
    reveal_strlit("md5");
    assert("sha512"@[3] != "sha256"@[3]);
    assert("sha224"@[4] != "sha256"@[4]);
    assert("sha224"@[3] != "sha512"@[3]);
    assert("sha512-224"@.len() != "sha256"@.len());
    assert("sha512-224"@.len() != "sha512"@.len());
    assert("sha512-224"@.len() != "sha224"@.len());
    assert("sha512-256"@.len() != "sha256"@.len());
    assert("sha512-256"@.len() != "sha512"@.len());
    assert("sha512-256"@.len() != "sha224"@.len());
    assert("sha512-256"@[8] != "sha512-224"@[8]);
    assert("sha384"@[3] != "sha256"@[3]);
    assert("sha384"@[3] != "sha512"@[3]);
    assert("sha384"@[3] != "sha224"@[3]);
    assert("sha384"@.len() != "sha512-224"@.len());
    assert("sha384"@.len() != "sha512-256"@.len());
    assert("sha3-224"@.len() != "sha256"@.len());
    assert("sha3-224"@.len() != "sha512"@.len());
    assert("sha3-224"@.len() != "sha224"@.len());
    assert("sha3-224"@.len() != "sha512-224"@.len());
    assert("sha3-224"@.len() != "sha512-256"@.len());
    assert("sha3-224"@.len() != "sha384"@.len());
    assert("sha3-256"@.len() != "sha256"@.len());
    assert("sha3-256"@.len() != "sha512"@.len());
    assert("sha3-256"@.len() != "sha224"@.len());
    assert("sha3-256"@.len() != "sha512-224"@.len());
    assert("sha3-256"@.len() != "sha512-256"@.len());
    assert("sha3-256"@.len() != "sha384"@.len());
    assert("sha3-256"@[6] != "sha3-224"@[6]);
    assert("sha3-384"@.len() != "sha256"@.len());
    assert("sha3-384"@.len() != "sha512"@.len());
    assert("sha3-384"@.len() != "sha224"@.len());
    assert("sha3-384"@.len() != "sha512-224"@.len());
    assert("sha3-384"@.len() != "sha512-256"@.len());
    assert("sha3-384"@.len() != "sha384"@.len());
    assert("sha3-384"@[5] != "sha3-224"@[5]);
    assert("sha3-384"@[5] != "sha3-256"@[5]);
    assert("sha3-512"@.len() != "sha256"@.len());
    assert("sha3-512"@.len() != "sha512"@.len());
    assert("sha3-512"@.len() != "sha224"@.len());
    assert("sha3-512"@.len() != "sha512-224"@.len());
    assert("sha3-512"@.len() != "sha512-256"@.len());
    assert("sha3-512"@.len() != "sha384"@.len());
    assert("sha3-512"@[5] != "sha3-224"@[5]);
    assert("sha3-512"@[5] != "sha3-256"@[5]);
    assert("sha3-512"@[5] != "sha3-384"@[5]);
    assert("md5"@.len() != "sha256"@.len());
    assert("md5"@.len() != "sha512"@.len());
    assert("md5"@.len() != "sha224"@.len());
    assert("md5"@.len() != "sha512-224"@.len());
    assert("md5"@.len() != "sha512-256"@.len());
    assert("md5"@.len() != "sha384"@.len());
    assert("md5"@.len() != "sha3-224"@.len());
    assert("md5"@.len() != "sha3-256"@.len());
    assert("md5"@.len() != "sha3-384"@.len());
    assert("md5"@.len() != "sha3-512"@.len());
}

/// The CRC-32 register step is one-to-one.
proof fn lemma_crc32_step_injective(a: u32, b: u32)
    by (bit_vector)
    ensures
        (if a & 1 == 1 {
            (a >> 1u32) ^ 0xEDB88320u32
        } else {
            a >> 1u32
        }) == (if b & 1 == 1 {
            (b >> 1u32) ^ 0xEDB88320u32
        } else {
            b >> 1u32
        }) ==> a == b,
{
}

/// Any number of register steps is one-to-one.
proof fn lemma_crc32_shift_injective(a: u32, b: u32, k: nat)
    ensures
        crc32_shift(a, k) == crc32_shift(b, k) ==> a == b,
    decreases k,
{
    if k > 0 {
        lemma_crc32_shift_injective(a, b, (k - 1) as nat);
        lemma_crc32_step_injective(crc32_shift(a, (k - 1) as nat), crc32_shift(b, (k - 1) as nat));
    }
}

/// The checksum names stand for their algorithms, and each checksum is
/// taken over every byte of the input: CRC-32 is `spec_crc32` of the bytes,
/// Adler-32 is `spec_adler32` of them, XXH3 is the 64-bit XXH3 hash. Two
/// inputs that differ only in their last byte have different CRC-32
/// checksums, so no trailing byte is left out.
pub proof fn lemma_checksums_cover_every_byte(data: Seq<u8>, b: u8, c: u8)
    ensures
        checksum_algorithm_named("crc32"@) == Some(ChecksumAlgorithm::Crc32),
        checksum_algorithm_named("xxh3"@) == Some(ChecksumAlgorithm::Xxh3),
        checksum_algorithm_named("adler32"@) == Some(ChecksumAlgorithm::Adler32),
        checksum_of(ChecksumAlgorithm::Crc32, data) == spec_crc32(data) as u64,
        checksum_of(ChecksumAlgorithm::Adler32, data) == spec_adler32(data) as u64,
        checksum_of(ChecksumAlgorithm::Xxh3, data) == xxh3_64_of(data),
        checksum_of(ChecksumAlgorithm::Crc32, data.push(b)) == checksum_of(ChecksumAlgorithm::Crc32, data.push(c))
            ==> b == c,
{
    reveal_strlit("crc32");
    reveal_strlit("xxh3");
    reveal_strlit("adler32");
    assert("xxh3"@.len() != "crc32"@.len());
    assert("adler32"@.len() != "crc32"@.len());
    assert("adler32"@.len() != "xxh3"@.len());
    let r = crc32_register(data);
    assert(data.push(b).drop_last() =~= data);
    assert(data.push(c).drop_last() =~= data);
    let x = r ^ (b as u32);
    let y = r ^ (c as u32);
    lemma_crc32_shift_injective(x, y, 8);
    assert((x ^ 0xFFFF_FFFFu32) == (y ^ 0xFFFF_FFFFu32) ==> x == y) by (bit_vector);
    assert(crc32_shift(x, 8) ^ 0xFFFF_FFFFu32 == crc32_shift(y, 8) ^ 0xFFFF_FFFFu32 ==> crc32_shift(x, 8)
        == crc32_shift(y, 8)) by (bit_vector);
    assert(x == y ==> b == c) by (bit_vector)
        requires
            x == r ^ (b as u32),
            y == r ^ (c as u32),
    ;
}

/// Hashing several texts as one stream is hashing them joined into one
/// text: what `hash` and `checksum` give for a list of file contents is what
/// `hashs` and `checksums` give for those contents joined.
pub proof fn lemma_stream_is_joined_text(parts: Seq<Seq<char>>, alg: HashAlgorithm, calg: ChecksumAlgorithm)
    ensures
        concat_utf8(parts) == encode_utf8(joined(parts)),
        digest_of(alg, concat_utf8(parts)) == digest_of(alg, encode_utf8(joined(parts))),
        checksum_of(calg, concat_utf8(parts)) == checksum_of(calg, encode_utf8(joined(parts))),
    decreases parts.len(),
{
    if parts.len() > 0 {
        lemma_stream_is_joined_text(parts.drop_last(), alg, calg);
        lemma_encode_utf8_append(joined(parts.drop_last()), parts.last());
    }
}

/// The digest algorithm named by `format`.
pub fn get_hasher(format: &str) -> (res: Result<HashAlgorithm, CryptoError>)
    ensures
        match hash_algorithm_named(format@) {
            Some(alg) => res matches Ok(a) && a == alg,
            None => res matches Err(CryptoError::UnknownHash { name }) && name@ == format@,
        },
{
    if str_eq(format, "sha256") {
        Ok(HashAlgorithm::Sha256)
    } else if str_eq(format, "sha512") {
        Ok(HashAlgorithm::Sha512)
    } else if str_eq(format, "sha224") {
        Ok(HashAlgorithm::Sha224)
    } else if str_eq(format, "sha512-224") {
        Ok(HashAlgorithm::Sha512_224)
    } else if str_eq(format, "sha512-256") {
        Ok(HashAlgorithm::Sha512_256)
    } else if str_eq(format, "sha384") {
        Ok(HashAlgorithm::Sha384)
    } else if str_eq(format, "sha3-224") {
        Ok(HashAlgorithm::Sha3_224)
    } else if str_eq(format, "sha3-256") {
        Ok(HashAlgorithm::Sha3_256)
    } else if str_eq(format, "sha3-384") {
        Ok(HashAlgorithm::Sha3_384)
    } else if str_eq(format, "sha3-512") {
        Ok(HashAlgorithm::Sha3_512)
    } else if str_eq(format, "md5") {
        Ok(HashAlgorithm::Md5)
    } else {
        Err(CryptoError::UnknownHash { name: format.to_owned() })
    }
}

/// The checksum algorithm named by `format`.
pub fn get_checksum_algo(format: &str) -> (res: Result<ChecksumAlgorithm, CryptoError>)
    ensures
        match checksum_algorithm_named(format@) {
            Some(alg) => res matches Ok(a) && a == alg,
            None => res matches Err(CryptoError::UnknownChecksum { name }) && name@ == format@,
        },
{
    if str_eq(format, "crc32") {
        Ok(ChecksumAlgorithm::Crc32)
    } else if str_eq(format, "xxh3") {
        Ok(ChecksumAlgorithm::Xxh3)
    } else if str_eq(format, "adler32") {
        Ok(ChecksumAlgorithm::Adler32)
    } else {
        Err(CryptoError::UnknownChecksum { name: format.to_owned() })
    }
}

/// The digest of `data` under `alg`.
pub fn digest(alg: HashAlgorithm, data: &[u8]) -> (res: Vec<u8>)
    ensures
        res@ == digest_of(alg, data@),
        res@.len() == digest_len(alg),
{
    match alg {
        HashAlgorithm::Sha256 => sha256_digest(data),
        HashAlgorithm::Sha512 => sha512_digest(data),
        HashAlgorithm::Sha224 => sha224_digest(data),
        HashAlgorithm::Sha512_224 => sha512_224_digest(data),
        HashAlgorithm::Sha512_256 => sha512_256_digest(data),
        HashAlgorithm::Sha384 => sha384_digest(data),
        HashAlgorithm::Sha3_224 => sha3_224_digest(data),
        HashAlgorithm::Sha3_256 => sha3_256_digest(data),
        HashAlgorithm::Sha3_384 => sha3_384_digest(data),
        HashAlgorithm::Sha3_512 => sha3_512_digest(data),
        HashAlgorithm::Md5 => md5_digest(data),
    }
}

/// The checksum of `data` under `alg`.
pub fn checksum_bytes(alg: ChecksumAlgorithm, data: &[u8]) -> (res: u64)
    ensures
        res == checksum_of(alg, data@),
{
    match alg {
        ChecksumAlgorithm::Crc32 => crc32_hash(data) as u64,
        ChecksumAlgorithm::Xxh3 => xxh3_64_hash(data),
        ChecksumAlgorithm::Adler32 => adler32_hash(data) as u64,
    }
}

/// The UTF-8 bytes of all the strings in `parts`, one after the other.
pub fn concat_bytes(parts: &Vec<String>) -> (res: Vec<u8>)
    ensures
        res@ == concat_utf8(parts.deep_view()),
{
    let mut res: Vec<u8> = Vec::new();
    let mut i: usize = 0;
    while i < parts.len()
        invariant
            i <= parts.len(),
            res@ == concat_utf8(parts.deep_view().subrange(0, i as int)),
        decreases parts.len() - i,
    {
        let bytes = parts[i].as_str().as_bytes();
        let ghost before = res@;
        let mut j: usize = 0;
        while j < bytes.len()
            invariant
                j <= bytes@.len(),
                res@ == before + bytes@.subrange(0, j as int),
            decreases bytes@.len() - j,
        {
            res.push(bytes[j]);
            assert(bytes@.subrange(0, j + 1) =~= bytes@.subrange(0, j as int).push(bytes@[j as int]));
            j = j + 1;
        }
        assert(bytes@.subrange(0, bytes@.len() as int) =~= bytes@);
        let ghost pre = parts.deep_view().subrange(0, i as int);
        let ghost next = parts.deep_view().subrange(0, i + 1);
        assert(next.drop_last() =~= pre);
        assert(next.last() == parts[i as int]@);
        i = i + 1;
    }
    assert(parts.deep_view().subrange(0, parts.len() as int) =~= parts.deep_view());
    res
}

/// Hashes a string (its UTF-8 bytes) with the algorithm named by `format`
/// and returns the digest in lower-case hex.
pub fn hash_str(data: &str, format: &str) -> (res: Result<String, CryptoError>)
    ensures
        match hash_algorithm_named(format@) {
            Some(alg) => res matches Ok(s) && s@ == spec_hex(digest_of(alg, encode_utf8(data@)))
                && s@.len() == 2 * digest_len(alg),
            None => res matches Err(CryptoError::UnknownHash { name }) && name@ == format@,
        },
{
    let alg = get_hasher(format)?;
    let out = digest(alg, data.as_bytes());
    proof {
        lemma_hex_len(out@);
    }
    Ok(hex_encode(out.as_slice()))
}

/// Hashes the contents of several files as one stream (the digest of their
/// concatenation) with the algorithm named by `format`, in lower-case hex.
pub fn hash(contents: &Vec<String>, format: &str) -> (res: Result<String, CryptoError>)
    ensures
        match hash_algorithm_named(format@) {
            Some(alg) => res matches Ok(s) && s@ == spec_hex(
                digest_of(alg, concat_utf8(contents.deep_view())),
            ) && s@.len() == 2 * digest_len(alg),
            None => res matches Err(CryptoError::UnknownHash { name }) && name@ == format@,
        },
{
    let alg = get_hasher(format)?;
    let data = concat_bytes(contents);
    let out = digest(alg, data.as_slice());
    proof {
        lemma_hex_len(out@);
    }
    Ok(hex_encode(out.as_slice()))
}

/// The checksum of a string (its UTF-8 bytes) under the algorithm named by
/// `format`.
pub fn checksums(data: &str, format: &str) -> (res: Result<u64, CryptoError>)
    ensures
        match checksum_algorithm_named(format@) {
            Some(alg) => res matches Ok(c) && c == checksum_of(alg, encode_utf8(data@)),
            None => res matches Err(CryptoError::UnknownChecksum { name }) && name@ == format@,
        },
{
    let alg = get_checksum_algo(format)?;
    Ok(checksum_bytes(alg, data.as_bytes()))
}

/// The checksum of the contents of several files as one stream under the
/// algorithm named by `format`.
pub fn checksum(contents: &Vec<String>, format: &str) -> (res: Result<u64, CryptoError>)
    ensures
        match checksum_algorithm_named(format@) {
            Some(alg) => res matches Ok(c) && c == checksum_of(alg, concat_utf8(contents.deep_view())),
            None => res matches Err(CryptoError::UnknownChecksum { name }) && name@ == format@,
        },
{
    let alg = get_checksum_algo(format)?;
    let data = concat_bytes(contents);
    Ok(checksum_bytes(alg, data.as_slice()))
}

/// The builtins of this module, in the order they are bound.
pub fn register() -> (res: Vec<Builtin>)
    ensures
        res@ == seq![Builtin::Hash, Builtin::Hashs, Builtin::Checksum, Builtin::Checksums],
{
    vec![Builtin::Hash, Builtin::Hashs, Builtin::Checksum, Builtin::Checksums]
}

} // verus!
