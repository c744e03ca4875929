use vstd::prelude::*;

verus! {

/// The Keccak-256 digest of a byte string: the one source of pseudo-randomness in
/// the game. It is a function of the bytes alone, so anyone can recompute any
/// outcome that was drawn from it.
pub uninterp spec fn keccak256(input: Seq<u8>) -> Seq<u8>;

/// Hashes `input` with `anchor_lang::solana_program::keccak::hash` and hands out
/// the 32 bytes of the hash it returns.
///
/// Trusted: that function returns the Keccak-256 digest of the bytes it is given.
/// Off the chain it feeds them to a Keccak-256 hasher and returns what the hasher
/// finalizes to; on the chain it asks the runtime for the same digest. So the
/// result is `keccak256` of the bytes.
#[verifier::external_body]
pub(crate) fn keccak_hash(input: &[u8]) -> (digest: [u8; 32])
    ensures
        digest@ == keccak256(input@),
{
    anchor_lang::solana_program::keccak::hash(input).0
}

/// The eight bytes of `x`, least significant first.
pub open spec fn u64_le_bytes(x: u64) -> Seq<u8> {
    seq![
        (x % 0x100) as u8,
        (x / 0x100 % 0x100) as u8,
        (x / 0x1_0000 % 0x100) as u8,
        (x / 0x100_0000 % 0x100) as u8,
        (x / 0x1_0000_0000 % 0x100) as u8,
        (x / 0x100_0000_0000 % 0x100) as u8,
        (x / 0x1_0000_0000_0000 % 0x100) as u8,
        (x / 0x100_0000_0000_0000 % 0x100) as u8,
    ]
}

/// The number whose eight bytes, least significant first, open the sequence.
pub open spec fn u64_from_le_bytes(bytes: Seq<u8>) -> int {
    bytes[0] + 0x100 * bytes[1] + 0x1_0000 * bytes[2] + 0x100_0000 * bytes[3] + 0x1_0000_0000
        * bytes[4] + 0x100_0000_0000 * bytes[5] + 0x1_0000_0000_0000 * bytes[6]
        + 0x100_0000_0000_0000 * bytes[7]
}

/// A signed 64-bit number read as unsigned, in two's complement.
pub open spec fn twos_complement(t: i64) -> u64 {
    if t >= 0 {
        t as u64
    } else {
        (t + 0x1_0000_0000_0000_0000) as u64
    }
}

/// Appends the little-endian bytes of `x` to `buf`.
pub fn push_u64_le(buf: &mut Vec<u8>, x: u64)
    ensures
        final(buf)@ == old(buf)@ + u64_le_bytes(x),
{
    buf.push((x % 0x100) as u8);
    buf.push((x / 0x100 % 0x100) as u8);
    buf.push((x / 0x1_0000 % 0x100) as u8);
    buf.push((x / 0x100_0000 % 0x100) as u8);
    buf.push((x / 0x1_0000_0000 % 0x100) as u8);
    buf.push((x / 0x100_0000_0000 % 0x100) as u8);
    buf.push((x / 0x1_0000_0000_0000 % 0x100) as u8);
    buf.push((x / 0x100_0000_0000_0000 % 0x100) as u8);
    assert(buf@ =~= old(buf)@ + u64_le_bytes(x));
}

/// Appends `bytes` to `buf`.
pub fn push_bytes(buf: &mut Vec<u8>, bytes: &[u8])
    ensures
        final(buf)@ == old(buf)@ + bytes@,
{
    let mut i: usize = 0;
    while i < bytes.len()
        invariant
            i <= bytes.len(),
            buf@ == old(buf)@ + bytes@.take(i as int),
        decreases bytes.len() - i,
    {
        buf.push(bytes[i]);
        i += 1;
        assert(buf@ =~= old(buf)@ + bytes@.take(i as int));
    }
    assert(bytes@.take(i as int) =~= bytes@);
}

/// The unsigned reading of a timestamp, as it enters a hash or a seed.
pub fn unsigned_time(t: i64) -> (u: u64)
    ensures
        u == twos_complement(t),
{
    if t >= 0 {
        t as u64
    } else {
        u64::MAX - ((-(t + 1)) as u64)
    }
}

/// Reads the first eight bytes of a digest as a little-endian number.
pub fn seed_from_digest(digest: &[u8; 32]) -> (seed: u64)
    ensures
        seed == u64_from_le_bytes(digest@),
{
    digest[0] as u64 + 0x100 * (digest[1] as u64) + 0x1_0000 * (digest[2] as u64) + 0x100_0000 * (
    digest[3] as u64) + 0x1_0000_0000 * (digest[4] as u64) + 0x100_0000_0000 * (digest[5] as u64)
        + 0x1_0000_0000_0000 * (digest[6] as u64) + 0x100_0000_0000_0000 * (digest[7] as u64)
}

} // verus!
