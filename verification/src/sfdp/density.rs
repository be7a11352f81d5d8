//! The memory density word of the basic flash parameter table.
//!
//! A density below 2 GiBit is stored as the bit count minus one; a larger one
//! is stored as `0x8000_0000` plus the base-2 logarithm of the bit count.
use vstd::prelude::*;

use vstd::arithmetic::power2::{lemma_pow2_strictly_increases, pow2};
use vstd::bits::{lemma_u32_pow2_no_overflow, lemma_u32_shl_is_mul};

use crate::bits::{le_u32, read_le_u32};
use crate::error::ErrorCode;

verus! {

/// The flash size, in the encoding of the second basic flash word.
#[derive(Clone, Copy, Debug, PartialEq, Eq, Structural)]
pub struct MemoryDensity(pub u32);

/// Whether `n` is `2^k` for some `k` below 32.
pub open spec fn is_pow2_u32(n: u32) -> bool {
    exists|k: nat| k < 32 && pow2(k) == n
}

/// The exponent `k` with `2^k == n`, for a power of two `n`.
pub open spec fn log2_u32(n: u32) -> nat {
    choose|k: nat| k < 32 && pow2(k) == n
}

impl MemoryDensity {
    /// The density word that describes `byte_len` bytes, or the error when
    /// there is none: no word describes zero bytes, and above 256 MiB only
    /// powers of two can be described.
    pub open spec fn encode(byte_len: u32) -> Result<MemoryDensity, ErrorCode> {
        if byte_len == 0 {
            Err(ErrorCode::FLASH_GENERIC_SFDP_INVALID_MEMORY_DENSITY)
        } else if 8 * byte_len <= 0x8000_0000 {
            Ok(MemoryDensity((8 * byte_len - 1) as u32))
        } else if is_pow2_u32(byte_len) {
            Ok(MemoryDensity((0x8000_0000 + log2_u32(byte_len) + 3) as u32))
        } else {
            Err(ErrorCode::FLASH_GENERIC_SFDP_INVALID_MEMORY_DENSITY)
        }
    }

    /// The number of bytes this word describes, or the error when that number
    /// does not fit in 32 bits or the word is malformed.
    pub open spec fn decoded_len(self) -> Result<u32, ErrorCode> {
        if self.0 < 0x8000_0000 {
            Ok(((self.0 + 1) / 8) as u32)
        } else if self.0 - 0x8000_0000 < 3 || self.0 - 0x8000_0000 - 3 > 31 {
            Err(ErrorCode::FLASH_GENERIC_SFDP_INVALID_MEMORY_DENSITY)
        } else {
            Ok(pow2((self.0 - 0x8000_0000 - 3) as nat) as u32)
        }
    }

    /// Encodes a flash size given in bytes.
    pub fn from_byte_len(byte_len: u32) -> (r: Result<Self, ErrorCode>)
        ensures
            r == Self::encode(byte_len),
    {
        if byte_len == 0 {
            return Err(ErrorCode::FLASH_GENERIC_SFDP_INVALID_MEMORY_DENSITY);
        }
        match byte_len.checked_mul(8) {
            Some(bit_len) if bit_len <= 0x8000_0000 => Ok(MemoryDensity(bit_len - 1)),
            _ => {
                match exponent_of_pow2(byte_len) {
                    None => Err(ErrorCode::FLASH_GENERIC_SFDP_INVALID_MEMORY_DENSITY),
                    Some(shift) => {
                        proof {
                            lemma_log2_unique(byte_len, shift as nat);
                            lemma_set_top_bit((shift + 3) as u32);
                        }
                        Ok(MemoryDensity(0x8000_0000 | (shift + 3)))
                    },
                }
            },
        }
    }

    /// Decodes the flash size in bytes.
    pub fn byte_len(&self) -> (r: Result<u32, ErrorCode>)
        ensures
            r == self.decoded_len(),
    {
        let v = self.0;
        proof {
            lemma_top_bit(v);
        }
        if (v & 0x8000_0000) == 0 {
            return Ok((v + 1) / 8);
        }
        let bits_power = v & !0x8000_0000u32;
        if bits_power < 3 {
            return Err(ErrorCode::FLASH_GENERIC_SFDP_INVALID_MEMORY_DENSITY);
        }
        let power = bits_power - 3;
        if power > 31 {
            return Err(ErrorCode::FLASH_GENERIC_SFDP_INVALID_MEMORY_DENSITY);
        }
        proof {
            lemma_u32_pow2_no_overflow(power as nat);
            lemma_u32_shl_is_mul(1, power);
        }
        Ok(1u32 << power)
    }

    /// Reads the word from its four little-endian bytes; any other number
    /// of bytes gives `None`.
    pub fn read_from_bytes(bytes: &[u8]) -> (r: Option<Self>)
        ensures
            r == (if bytes@.len() == 4 {
                Some(MemoryDensity(le_u32(bytes@, 0)))
            } else {
                None
            }),
    {
        if bytes.len() == 4 {
            Some(MemoryDensity(read_le_u32(bytes, 0)))
        } else {
            None
        }
    }

    /// The four little-endian bytes of the word.
    pub fn as_bytes(&self) -> (r: Vec<u8>)
        ensures
            r@.len() == 4,
            le_u32(r@, 0) == self.0,
    {
        let v = self.0;
        let mut r = Vec::new();
        r.push((v % 0x100) as u8);
        r.push((v / 0x100 % 0x100) as u8);
        r.push((v / 0x1_0000 % 0x100) as u8);
        r.push((v / 0x100_0000) as u8);
        let ghost w = v as int;
        assert(w % 0x100 + 0x100 * (w / 0x100 % 0x100) + 0x1_0000 * (w / 0x1_0000 % 0x100)
            + 0x100_0000 * (w / 0x100_0000) == w) by (nonlinear_arith)
            requires
                w >= 0,
        ;
        r
    }
}

/// The top bit of a word is clear exactly when the word is below `2^31`, and
/// clearing it subtracts `2^31` otherwise.
proof fn lemma_top_bit(v: u32)
    ensures
        ((v & 0x8000_0000) == 0) == (v < 0x8000_0000),
        v >= 0x8000_0000 ==> v & !0x8000_0000u32 == v - 0x8000_0000,
{
    assert(((v & 0x8000_0000) == 0) == (v < 0x8000_0000) && (v >= 0x8000_0000 ==> v
        & !0x8000_0000u32 == v - 0x8000_0000)) by (bit_vector);
}

/// Setting the top bit of a word below `2^31` adds `2^31`.
proof fn lemma_set_top_bit(x: u32)
    requires
        x < 0x8000_0000,
    ensures
        0x8000_0000 | x == 0x8000_0000 + x,
{
    assert(x < 0x8000_0000 ==> 0x8000_0000 | x == 0x8000_0000 + x) by (bit_vector);
}

/// The exponent of a power of two is unique.
proof fn lemma_log2_unique(n: u32, k: nat)
    requires
        k < 32,
        pow2(k) == n,
    ensures
        is_pow2_u32(n),
        log2_u32(n) == k,
{
    let j = log2_u32(n);
    assert(j < 32 && pow2(j) == n);
    if j < k {
        lemma_pow2_strictly_increases(j, k);
    } else if k < j {
        lemma_pow2_strictly_increases(k, j);
    }
}

/// The exponent `k` with `2^k == n`, if `n` is a power of two.
fn exponent_of_pow2(n: u32) -> (r: Option<u32>)
    ensures
        match r {
            Some(k) => k < 32 && pow2(k as nat) == n,
            None => !is_pow2_u32(n),
        },
{
    let mut k: u32 = 0;
    while k < 32
        invariant
            k <= 32,
            forall|j: nat| j < k ==> pow2(j) != n,
        decreases 32 - k,
    {
        proof {
            lemma_u32_pow2_no_overflow(k as nat);
            lemma_u32_shl_is_mul(1, k);
        }
        if (1u32 << k) == n {
            return Some(k);
        }
        k = k + 1;
    }
    None
}

/// Encoding a flash size and decoding the word gives the size back.
pub proof fn lemma_density_roundtrip(byte_len: u32)
    ensures
        MemoryDensity::encode(byte_len) matches Ok(d) ==> d.decoded_len() == Ok::<u32, ErrorCode>(byte_len),
{
    if let Ok(d) = MemoryDensity::encode(byte_len) {
        if 8 * byte_len > 0x8000_0000 {
            let k = log2_u32(byte_len);
            assert(k < 32 && pow2(k) == byte_len);
        }
    }
}

} // verus!
