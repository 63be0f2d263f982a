//! Checksum engine: the 4-byte integrity code appended to every upload
//! chunk frame.
//!
//! The code is a CRC-32 (reflected, polynomial 0xEDB88320) of the span,
//! emitted big-endian. It is a pure function of the input bytes; the device
//! is authoritative about mismatches, so no error conditions exist here.

use vstd::prelude::*;

verus! {

/// One shift-and-conditionally-xor round of the bitwise CRC-32.
pub open spec fn crc32_step(crc: u32) -> u32 {
    if crc & 1 == 1 {
        (crc >> 1) ^ 0xEDB88320u32
    } else {
        crc >> 1
    }
}

/// `crc32_step` applied `n` times.
pub open spec fn crc32_steps(crc: u32, n: nat) -> u32
    decreases n,
{
    if n == 0 {
        crc
    } else {
        crc32_step(crc32_steps(crc, (n - 1) as nat))
    }
}

/// Folding one byte into the running CRC state.
pub open spec fn crc32_fold_byte(crc: u32, b: u8) -> u32 {
    crc32_steps(crc ^ (b as u32), 8)
}

/// CRC state after folding a whole byte sequence into the all-ones seed.
pub open spec fn crc32_state(s: Seq<u8>) -> u32
    decreases s.len(),
{
    if s.len() == 0 {
        0xFFFFFFFFu32
    } else {
        crc32_fold_byte(crc32_state(s.drop_last()), s.last())
    }
}

/// The finished 32-bit code for a byte sequence.
pub open spec fn crc32_of(s: Seq<u8>) -> u32 {
    crc32_state(s) ^ 0xFFFFFFFFu32
}

/// The 4-byte big-endian rendering of the code: what gets appended to a
/// chunk frame.
pub open spec fn spec_checksum(s: Seq<u8>) -> Seq<u8> {
    let c = crc32_of(s);
    seq![
        ((c >> 24) & 0xFF) as u8,
        ((c >> 16) & 0xFF) as u8,
        ((c >> 8) & 0xFF) as u8,
        (c & 0xFF) as u8,
    ]
}

/// Law: the checksum engine is pure and deterministic. The code is a
/// function of the input bytes alone — any two computations over equal
/// byte sequences yield equal 4-byte codes, and the executable `checksum`
/// returns exactly `spec_checksum` of its input.
pub proof fn lemma_checksum_deterministic(a: Seq<u8>, b: Seq<u8>)
    requires
        a == b,
    ensures
        spec_checksum(a) == spec_checksum(b),
{
}

/// Computes the 4-byte integrity code over `bytes`. Deterministic: the
/// result is exactly `spec_checksum(bytes@)`, a function of the input bytes
/// alone, for every input length.
pub fn checksum(bytes: &[u8]) -> (r: [u8; 4])
    ensures
        r@ == spec_checksum(bytes@),
{
    let mut crc: u32 = 0xFFFFFFFF;
    let mut i: usize = 0;
    while i < bytes.len()
        invariant
            i <= bytes@.len(),
            crc == crc32_state(bytes@.take(i as int)),
        decreases bytes@.len() - i,
    {
        let b = bytes[i];
        crc = crc ^ (b as u32);
        let ghost entry = crc;
        let mut j: usize = 0;
        while j < 8
            invariant
                j <= 8,
                crc == crc32_steps(entry, j as nat),
            decreases 8 - j,
        {
            if crc & 1 == 1 {
                crc = (crc >> 1) ^ 0xEDB88320;
            } else {
                crc = crc >> 1;
            }
            j = j + 1;
        }
        proof {
            let pre = bytes@.take(i as int);
            let post = bytes@.take(i as int + 1);
            assert(post.drop_last() =~= pre);
            assert(post.last() == bytes@[i as int]);
            assert(crc == crc32_fold_byte(crc32_state(pre), bytes@[i as int]));
        }
        i = i + 1;
    }
    proof {
        assert(bytes@.take(bytes@.len() as int) =~= bytes@);
    }
    let c = crc ^ 0xFFFFFFFF;
    proof {
        assert((c >> 24) & 0xFF < 256 && (c >> 16) & 0xFF < 256 && (c >> 8) & 0xFF < 256 && c
            & 0xFF < 256) by (bit_vector);
    }
    let r: [u8; 4] = [
        ((c >> 24) & 0xFF) as u8,
        ((c >> 16) & 0xFF) as u8,
        ((c >> 8) & 0xFF) as u8,
        (c & 0xFF) as u8,
    ];
    proof {
        assert(r@ =~= spec_checksum(bytes@));
    }
    r
}

} // verus!
