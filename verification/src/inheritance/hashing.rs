//! Hashes of names, emails, claim codes and claims.
use vstd::arithmetic::div_mod::{lemma_div_denominator, lemma_fundamental_div_mod};
use vstd::prelude::*;

use crate::inheritance::types::InheritanceError;
use crate::table::Key;

verus! {

/// A hash of 32 bytes.
#[derive(Clone, Copy, Debug, PartialEq, Eq)]
pub struct Digest {
    pub bytes: [u8; 32],
}

impl View for Digest {
    type V = Digest;

    open spec fn view(&self) -> Digest {
        *self
    }
}

impl Key for Digest {
    fn same(&self, other: &Self) -> (equal: bool) {
        let mut i: usize = 0;
        while i < 32
            invariant
                i <= 32,
                forall|j: int| 0 <= j < i ==> self.bytes@[j] == other.bytes@[j],
            decreases 32 - i,
        {
            if self.bytes[i] != other.bytes[i] {
                return false;
            }
            i += 1;
        }
        proof {
            assert(self.bytes =~= other.bytes);
        }
        true
    }
}

/// Longest text that is hashed: names and emails.
pub const MAX_TEXT_LEN: usize = 256;

/// Most bytes that are hashed at once. A fresh ledger host grants a hundred
/// million instructions and spends about 55 on each byte.
pub const MAX_HASH_INPUT_LEN: usize = 1_000_000;

/// Largest claim code: six digits.
pub const MAX_CLAIM_CODE: u32 = 999_999;

/// The SHA-256 digest of a byte string.
pub uninterp spec fn sha256_digest(data: Seq<u8>) -> [u8; 32];

/// Calls `soroban_sdk::crypto::Crypto::sha256` on a fresh host, whose budget
/// covers an input of the stated length. Claimed of it: the digest is a
/// function of the bytes alone.
#[verifier::external_body]
fn sha256(data: &Vec<u8>) -> (bytes: [u8; 32])
    requires
        data@.len() <= MAX_HASH_INPUT_LEN,
    ensures
        bytes == sha256_digest(data@),
{
    let env = soroban_sdk::Env::default();
    let bytes = soroban_sdk::Bytes::from_slice(&env, data.as_slice());
    env.crypto().sha256(&bytes).to_array()
}

/// The hash of a byte string.
pub open spec fn hash_of(data: Seq<u8>) -> Digest {
    Digest { bytes: sha256_digest(data) }
}

/// The hash of a byte string.
pub fn hash_data(data: &Vec<u8>) -> (digest: Digest)
    requires
        data@.len() <= MAX_HASH_INPUT_LEN,
    ensures
        digest == hash_of(data@),
{
    Digest { bytes: sha256(data) }
}

/// The decimal digit of a code at a power of ten.
pub open spec fn digit(code: u32, power: u32) -> u8 {
    (48 + (code / power) % 10) as u8
}

/// The six decimal digits of a claim code.
pub open spec fn code_digits(code: u32) -> Seq<u8> {
    seq![
        digit(code, 100_000),
        digit(code, 10_000),
        digit(code, 1_000),
        digit(code, 100),
        digit(code, 10),
        digit(code, 1),
    ]
}

/// The hash of a claim code: of the salt, followed by the six digits.
pub open spec fn claim_code_hash(code: u32, salt: Digest) -> Digest {
    hash_of(salt.bytes@ + code_digits(code))
}

/// The byte of a number at a power of 256.
pub open spec fn byte_of(n: u64, power: u64) -> u8 {
    ((n / power) % 256) as u8
}

/// A number as eight bytes, the most significant first.
pub open spec fn big_endian(n: u64) -> Seq<u8> {
    seq![
        byte_of(n, 0x100_0000_0000_0000),
        byte_of(n, 0x1_0000_0000_0000),
        byte_of(n, 0x100_0000_0000),
        byte_of(n, 0x1_0000_0000),
        byte_of(n, 0x100_0000),
        byte_of(n, 0x1_0000),
        byte_of(n, 0x100),
        byte_of(n, 1),
    ]
}

/// The eight bytes of an id, followed by those of a digest.
pub open spec fn id_and_digest(id: u64, digest: Digest) -> Seq<u8> {
    big_endian(id) + digest.bytes@
}

/// The key under which the claim of a beneficiary of a plan is recorded: the
/// hash of the plan's id, followed by the hash of the beneficiary's email.
pub open spec fn claim_key(plan_id: u64, hashed_email: Digest) -> Digest {
    hash_of(id_and_digest(plan_id, hashed_email))
}

/// The hash that binds a signature to one will of one vault: of the vault's id,
/// followed by the hash of the will.
pub open spec fn signed_will_hash(vault_id: u64, will_hash: Digest) -> Digest {
    hash_of(id_and_digest(vault_id, will_hash))
}

/// Numbers that agree above a byte and in that byte agree from it on.
proof fn lemma_next_byte(n: u64, m: u64, power: u64, above: int)
    requires
        power > 0,
        above == power * 256,
        n as int / above == m as int / above,
        byte_of(n, power) == byte_of(m, power),
    ensures
        n as int / power as int == m as int / power as int,
{
    lemma_div_denominator(n as int, power as int, 256);
    lemma_div_denominator(m as int, power as int, 256);
}

/// Two numbers with the same eight bytes are the same.
proof fn lemma_big_endian(n: u64, m: u64)
    requires
        big_endian(n) == big_endian(m),
    ensures
        n == m,
{
    let a = big_endian(n);
    let b = big_endian(m);
    assert(a[0] == b[0] && a[1] == b[1] && a[2] == b[2] && a[3] == b[3]);
    assert(a[4] == b[4] && a[5] == b[5] && a[6] == b[6] && a[7] == b[7]);
    lemma_next_byte(n, m, 0x100_0000_0000_0000, 0x1_0000_0000_0000_0000);
    lemma_next_byte(n, m, 0x1_0000_0000_0000, 0x100_0000_0000_0000);
    lemma_next_byte(n, m, 0x100_0000_0000, 0x1_0000_0000_0000);
    lemma_next_byte(n, m, 0x1_0000_0000, 0x100_0000_0000);
    lemma_next_byte(n, m, 0x100_0000, 0x1_0000_0000);
    lemma_next_byte(n, m, 0x1_0000, 0x100_0000);
    lemma_next_byte(n, m, 0x100, 0x1_0000);
    lemma_next_byte(n, m, 1, 0x100);
}

/// Ids and digests can be told apart by their bytes.
pub proof fn lemma_id_and_digest(id: u64, digest: Digest, other_id: u64, other: Digest)
    requires
        id_and_digest(id, digest) == id_and_digest(other_id, other),
    ensures
        id == other_id,
        digest == other,
{
    let a = id_and_digest(id, digest);
    let b = id_and_digest(other_id, other);
    assert(a.take(8) =~= big_endian(id));
    assert(b.take(8) =~= big_endian(other_id));
    lemma_big_endian(id, other_id);
    assert forall|k: int| 0 <= k < 32 implies #[trigger] digest.bytes@[k] == other.bytes@[k] by {
        assert(a[8 + k] == b[8 + k]);
    }
    assert(digest.bytes =~= other.bytes);
}

fn append_digest(data: &mut Vec<u8>, digest: &Digest)
    ensures
        final(data)@ == old(data)@ + digest.bytes@,
{
    let mut i: usize = 0;
    while i < 32
        invariant
            i <= 32,
            data@ == old(data)@ + digest.bytes@.take(i as int),
        decreases 32 - i,
    {
        proof {
            assert(digest.bytes@.take(i + 1) =~= digest.bytes@.take(i as int).push(digest.bytes@[i as int]));
        }
        data.push(digest.bytes[i]);
        i += 1;
        proof {
            assert(data@ =~= old(data)@ + digest.bytes@.take(i as int));
        }
    }
    proof {
        assert(digest.bytes@.take(i as int) =~= digest.bytes@);
    }
}

/// The hash of a claim code under a salt. A code has at most six digits.
pub fn hash_claim_code_with_salt(claim_code: u32, salt: &Digest) -> (hash: Result<
    Digest,
    InheritanceError,
>)
    ensures
        match hash {
            Ok(h) => claim_code <= MAX_CLAIM_CODE && h == claim_code_hash(claim_code, *salt),
            Err(e) => claim_code > MAX_CLAIM_CODE && e == InheritanceError::InvalidClaimCodeRange,
        },
{
    if claim_code > MAX_CLAIM_CODE {
        return Err(InheritanceError::InvalidClaimCodeRange);
    }
    let mut data: Vec<u8> = Vec::new();
    append_digest(&mut data, salt);
    data.push(48 + ((claim_code / 100_000) % 10) as u8);
    data.push(48 + ((claim_code / 10_000) % 10) as u8);
    data.push(48 + ((claim_code / 1_000) % 10) as u8);
    data.push(48 + ((claim_code / 100) % 10) as u8);
    data.push(48 + ((claim_code / 10) % 10) as u8);
    data.push(48 + (claim_code % 10) as u8);
    proof {
        assert(data@ =~= salt.bytes@ + code_digits(claim_code));
    }
    Ok(hash_data(&data))
}

fn join_id_and_digest(id: u64, digest: &Digest) -> (data: Vec<u8>)
    ensures
        data@ == id_and_digest(id, *digest),
{
    let mut data: Vec<u8> = Vec::new();
    data.push((id / 0x100_0000_0000_0000) as u8);
    data.push(((id / 0x1_0000_0000_0000) % 256) as u8);
    data.push(((id / 0x100_0000_0000) % 256) as u8);
    data.push(((id / 0x1_0000_0000) % 256) as u8);
    data.push(((id / 0x100_0000) % 256) as u8);
    data.push(((id / 0x1_0000) % 256) as u8);
    data.push(((id / 0x100) % 256) as u8);
    data.push((id % 256) as u8);
    proof {
        assert(data@ =~= big_endian(id));
    }
    append_digest(&mut data, digest);
    data
}

/// The key under which the claim of a beneficiary of a plan is recorded.
pub fn make_claim_key(plan_id: u64, hashed_email: &Digest) -> (key: Digest)
    ensures
        key == claim_key(plan_id, *hashed_email),
{
    hash_data(&join_id_and_digest(plan_id, hashed_email))
}

/// The hash that binds a signature to one will of one vault.
pub fn hash_signed_will(vault_id: u64, will_hash: &Digest) -> (hash: Digest)
    ensures
        hash == signed_will_hash(vault_id, *will_hash),
{
    hash_data(&join_id_and_digest(vault_id, will_hash))
}

/// A number is made of what stands above a place, the place itself and what stands
/// below it.
proof fn lemma_place(n: int, power: int, base: int)
    requires
        n >= 0,
        power > 0,
        base > 0,
    ensures
        n / power == base * (n / (power * base)) + (n / power) % base,
{
    lemma_div_denominator(n, power, base);
    lemma_fundamental_div_mod(n / power, base);
}

/// A claim code below a million is written with six decimal digits in ASCII, the
/// leading one first.
pub proof fn law_claim_codes_are_six_digits(code: u32)
    requires
        code < 1_000_000,
    ensures
        code_digits(code).len() == 6,
        forall|i: int| 0 <= i < 6 ==> 48 <= #[trigger] code_digits(code)[i] <= 57,
        code == (code_digits(code)[0] - 48) * 100_000 + (code_digits(code)[1] - 48) * 10_000 + (
        code_digits(code)[2] - 48) * 1_000 + (code_digits(code)[3] - 48) * 100 + (code_digits(
            code,
        )[4] - 48) * 10 + (code_digits(code)[5] - 48),
        forall|salt: Digest| #[trigger]
            claim_code_hash(code, salt).bytes == sha256_digest(salt.bytes@ + code_digits(code)),
{
    let n = code as int;
    let digits = code_digits(code);
    let (a, b, c, d, e) = (n / 10, n / 100, n / 1_000, n / 10_000, n / 100_000);
    lemma_place(n, 1, 10);
    lemma_place(n, 10, 10);
    lemma_place(n, 100, 10);
    lemma_place(n, 1_000, 10);
    lemma_place(n, 10_000, 10);
    lemma_place(n, 100_000, 10);
    assert(n / 1_000_000 == 0);
    assert(digits[0] == 48 + e % 10 && digits[1] == 48 + d % 10 && digits[2] == 48 + c % 10);
    assert(digits[3] == 48 + b % 10 && digits[4] == 48 + a % 10 && digits[5] == 48 + n % 10);
}

/// What is hashed for a claim or for a will that is signed: the id as eight bytes, the
/// leading one first, and then the 32 bytes of the hash of the email or of the will.
pub proof fn law_ids_are_eight_bytes(id: u64, digest: Digest)
    ensures
        id_and_digest(id, digest).len() == 40,
        id_and_digest(id, digest).take(8) == big_endian(id),
        id_and_digest(id, digest).skip(8) == digest.bytes@,
        ({
            let bytes = big_endian(id);
            id == bytes[0] * 0x100_0000_0000_0000 + bytes[1] * 0x1_0000_0000_0000 + bytes[2]
                * 0x100_0000_0000 + bytes[3] * 0x1_0000_0000 + bytes[4] * 0x100_0000 + bytes[5]
                * 0x1_0000 + bytes[6] * 0x100 + bytes[7]
        }),
        claim_key(id, digest).bytes == sha256_digest(id_and_digest(id, digest)),
        signed_will_hash(id, digest).bytes == sha256_digest(id_and_digest(id, digest)),
{
    assert(id_and_digest(id, digest).take(8) =~= big_endian(id));
    assert(id_and_digest(id, digest).skip(8) =~= digest.bytes@);
    let n = id as int;
    lemma_place(n, 1, 256);
    lemma_place(n, 0x100, 256);
    lemma_place(n, 0x1_0000, 256);
    lemma_place(n, 0x100_0000, 256);
    lemma_place(n, 0x1_0000_0000, 256);
    lemma_place(n, 0x100_0000_0000, 256);
    lemma_place(n, 0x1_0000_0000_0000, 256);
    lemma_place(n, 0x100_0000_0000_0000, 256);
    lemma_bytes(id);
    assert(n / 0x1_0000_0000_0000_0000 == 0);
}

/// The bytes of a number as remainders.
proof fn lemma_bytes(id: u64)
    ensures
        ({
            let bytes = big_endian(id);
            let n = id as int;
            &&& bytes.len() == 8
            &&& bytes[0] == (n / 0x100_0000_0000_0000) % 256
            &&& bytes[1] == (n / 0x1_0000_0000_0000) % 256
            &&& bytes[2] == (n / 0x100_0000_0000) % 256
            &&& bytes[3] == (n / 0x1_0000_0000) % 256
            &&& bytes[4] == (n / 0x100_0000) % 256
            &&& bytes[5] == (n / 0x1_0000) % 256
            &&& bytes[6] == (n / 0x100) % 256
            &&& bytes[7] == (n / 1) % 256
        }),
{
}

/// Names and emails have at most 256 bytes, a claim code six digits, and at most a million
/// bytes are hashed at once.
pub proof fn law_limits()
    ensures
        MAX_TEXT_LEN == 256,
        MAX_CLAIM_CODE == 999_999,
        MAX_HASH_INPUT_LEN == 1_000_000,
{
}

} // verus!
