use vstd::prelude::*;

use sha2::Digest;

use crate::constants::ROLL_RANGE;
use crate::identity::Identity;

verus! {

/// The SHA-256 digest of a byte string.
pub uninterp spec fn sha256_of(data: Seq<u8>) -> Seq<u8>;

/// Relies on sha2's `Sha256` through `digest::Digest::digest`: the SHA-256
/// digest of `data`. Feeding several pieces to one hasher, as the roll
/// derivation describes, digests their concatenation.
#[verifier::external_body]
fn sha256(data: &Vec<u8>) -> (r: [u8; 32])
    ensures
        r@ == sha256_of(data@),
{
    sha2::Sha256::digest(data.as_slice()).into()
}

/// The eight little-endian bytes of `x`.
pub open spec fn le_bytes8(x: int) -> Seq<u8> {
    seq![
        (x % 256) as u8,
        ((x / 0x100) % 256) as u8,
        ((x / 0x1_0000) % 256) as u8,
        ((x / 0x100_0000) % 256) as u8,
        ((x / 0x1_0000_0000) % 256) as u8,
        ((x / 0x100_0000_0000) % 256) as u8,
        ((x / 0x1_0000_0000_0000) % 256) as u8,
        ((x / 0x100_0000_0000_0000) % 256) as u8,
    ]
}

/// The unsigned integer whose little-endian encoding is the first eight bytes of `b`.
pub open spec fn le_value8(b: Seq<u8>) -> int {
    b[0] + b[1] * 0x100 + b[2] * 0x1_0000 + b[3] * 0x100_0000 + b[4] * 0x1_0000_0000 + b[5]
        * 0x100_0000_0000 + b[6] * 0x1_0000_0000_0000 + b[7] * 0x100_0000_0000_0000
}

/// A stand-in for a recent block hash: the digest of the slot, an offset
/// (both as eight little-endian bytes) and the commitment's address.
pub open spec fn simulated_blockhash(slot: u64, offset: u64, key: Identity) -> Seq<u8> {
    sha256_of(le_bytes8(slot as int) + le_bytes8(offset as int) + key.bytes@)
}

/// A roll in `0..1000`: the three simulated block hashes at the given offsets
/// are read as integers, digested together, and the digest's leading integer
/// is reduced modulo 1000.
pub open spec fn roll_value(slot: u64, offsets: (u64, u64, u64), key: Identity) -> int {
    let n1 = le_value8(simulated_blockhash(slot, offsets.0, key));
    let n2 = le_value8(simulated_blockhash(slot, offsets.1, key));
    let n3 = le_value8(simulated_blockhash(slot, offsets.2, key));
    le_value8(sha256_of(le_bytes8(n1) + le_bytes8(n2) + le_bytes8(n3))) % 1000
}

/// Block offsets whose hashes make the attacker's roll.
pub open spec fn attacker_offsets() -> (u64, u64, u64) {
    (0, 4, 8)
}

/// Block offsets whose hashes make the defender's roll.
pub open spec fn defender_offsets() -> (u64, u64, u64) {
    (1, 5, 11)
}

/// Appends the eight little-endian bytes of `x` to `buf`.
fn push_le_bytes(buf: &mut Vec<u8>, x: u64)
    ensures
        final(buf)@ == old(buf)@ + le_bytes8(x as int),
{
    buf.push((x % 256) as u8);
    buf.push(((x / 0x100) % 256) as u8);
    buf.push(((x / 0x1_0000) % 256) as u8);
    buf.push(((x / 0x100_0000) % 256) as u8);
    buf.push(((x / 0x1_0000_0000) % 256) as u8);
    buf.push(((x / 0x100_0000_0000) % 256) as u8);
    buf.push(((x / 0x1_0000_0000_0000) % 256) as u8);
    buf.push(((x / 0x100_0000_0000_0000) % 256) as u8);
    assert(buf@ =~= old(buf)@ + le_bytes8(x as int));
}

/// Appends an address's 32 bytes to `buf`.
fn push_identity(buf: &mut Vec<u8>, key: &Identity)
    ensures
        final(buf)@ == old(buf)@ + key.bytes@,
{
    let mut i: usize = 0;
    while i < 32
        invariant
            0 <= i <= 32,
            buf@ == old(buf)@ + key.bytes@.subrange(0, i as int),
        decreases 32 - i,
    {
        buf.push(key.bytes[i]);
        assert(key.bytes@.subrange(0, i + 1) =~= key.bytes@.subrange(0, i as int).push(key.bytes@[i as int]));
        i = i + 1;
    }
    assert(key.bytes@.subrange(0, 32) =~= key.bytes@);
}

/// Reads the first eight bytes of a block hash as a little-endian integer.
pub fn blockhash_to_u64(blockhash: &[u8; 32]) -> (r: u64)
    ensures
        r == le_value8(blockhash@),
{
    blockhash[0] as u64 + blockhash[1] as u64 * 0x100 + blockhash[2] as u64 * 0x1_0000
        + blockhash[3] as u64 * 0x100_0000 + blockhash[4] as u64 * 0x1_0000_0000 + blockhash[5] as u64
        * 0x100_0000_0000 + blockhash[6] as u64 * 0x1_0000_0000_0000 + blockhash[7] as u64
        * 0x100_0000_0000_0000
}

/// The simulated block hash for `slot` at `offset`, tied to the commitment
/// address `attack_key`.
pub fn get_simulated_blockhash(slot: u64, offset: u64, attack_key: &Identity) -> (r: [u8; 32])
    ensures
        r@ == simulated_blockhash(slot, offset, *attack_key),
{
    let mut buf: Vec<u8> = Vec::new();
    push_le_bytes(&mut buf, slot);
    push_le_bytes(&mut buf, offset);
    push_identity(&mut buf, attack_key);
    sha256(&buf)
}

/// One combat roll in `0..1000` from the block hashes at three offsets.
pub fn roll(slot: u64, offset1: u64, offset2: u64, offset3: u64, attack_key: &Identity) -> (r: u16)
    ensures
        r == roll_value(slot, (offset1, offset2, offset3), *attack_key),
        r < 1000,
{
    let n1 = blockhash_to_u64(&get_simulated_blockhash(slot, offset1, attack_key));
    let n2 = blockhash_to_u64(&get_simulated_blockhash(slot, offset2, attack_key));
    let n3 = blockhash_to_u64(&get_simulated_blockhash(slot, offset3, attack_key));
    let mut buf: Vec<u8> = Vec::new();
    push_le_bytes(&mut buf, n1);
    push_le_bytes(&mut buf, n2);
    push_le_bytes(&mut buf, n3);
    let digest = sha256(&buf);
    (blockhash_to_u64(&digest) % ROLL_RANGE) as u16
}

/// The attacker's and the defender's rolls for a commitment resolved at `slot`.
pub fn draw_rolls(slot: u64, attack_key: &Identity) -> (r: (u16, u16))
    ensures
        r.0 == roll_value(slot, attacker_offsets(), *attack_key),
        r.1 == roll_value(slot, defender_offsets(), *attack_key),
        r.0 < 1000 && r.1 < 1000,
{
    let attacker = roll(slot, 0, 4, 8, attack_key);
    let defender = roll(slot, 1, 5, 11, attack_key);
    (attacker, defender)
}

} // verus!
