//! Integers in their archived form: a fixed number of bytes, least significant byte first,
//! on every platform.

use vstd::prelude::*;

verus! {

/// The number that two bytes spell, least significant byte first.
pub open spec fn le_2(b: Seq<u8>) -> int {
    b[0] + 0x100 * b[1]
}

/// The number that four bytes spell, least significant byte first.
pub open spec fn le_4(b: Seq<u8>) -> int {
    b[0] + 0x100 * b[1] + 0x1_0000 * b[2] + 0x100_0000 * b[3]
}

/// The number that eight bytes spell, least significant byte first.
pub open spec fn le_8(b: Seq<u8>) -> int {
    le_4(b) + 0x1_0000_0000 * (b[4] + 0x100 * b[5] + 0x1_0000 * b[6] + 0x100_0000 * b[7])
}

/// The two's complement reading of an unsigned number out of a range of `2 * half` numbers.
pub open spec fn twos_complement(n: int, half: int) -> int {
    if n < half {
        n
    } else {
        n - 2 * half
    }
}

/// An archived `u16`.
#[derive(Clone, Copy, Debug, PartialEq, Eq)]
pub struct ArchivedU16 {
    /// The bytes of the number, least significant byte first.
    pub bytes: [u8; 2],
}

impl View for ArchivedU16 {
    type V = int;

    open spec fn view(&self) -> int {
        le_2(self.bytes@)
    }
}

impl ArchivedU16 {
    /// Archives a native `u16`.
    pub fn from_native(n: u16) -> (r: Self)
        ensures
            r@ == n,
    {
        ArchivedU16 { bytes: [(n % 0x100) as u8, (n / 0x100) as u8] }
    }

    /// The native `u16` that is archived here.
    pub fn to_native(self) -> (n: u16)
        ensures
            n == self@,
    {
        self.bytes[0] as u16 + 0x100 * self.bytes[1] as u16
    }
}

/// An archived `u32`.
#[derive(Clone, Copy, Debug, PartialEq, Eq)]
pub struct ArchivedU32 {
    /// The bytes of the number, least significant byte first.
    pub bytes: [u8; 4],
}

impl View for ArchivedU32 {
    type V = int;

    open spec fn view(&self) -> int {
        le_4(self.bytes@)
    }
}

impl ArchivedU32 {
    /// The archived form of a `u32`.
    pub open spec fn spec_from_native(n: u32) -> Self {
        ArchivedU32 {
            bytes: [
                (n % 0x100) as u8,
                (n / 0x100 % 0x100) as u8,
                (n / 0x1_0000 % 0x100) as u8,
                (n / 0x100_0000) as u8,
            ],
        }
    }

    /// Archives a native `u32`.
    #[verifier::when_used_as_spec(spec_from_native)]
    pub fn from_native(n: u32) -> (r: Self)
        ensures
            r == Self::from_native(n),
            r@ == n,
    {
        ArchivedU32 {
            bytes: [
                (n % 0x100) as u8,
                (n / 0x100 % 0x100) as u8,
                (n / 0x1_0000 % 0x100) as u8,
                (n / 0x100_0000) as u8,
            ],
        }
    }

    /// The native `u32` that is archived here.
    pub fn to_native(self) -> (n: u32)
        ensures
            n == self@,
    {
        self.bytes[0] as u32 + 0x100 * self.bytes[1] as u32 + 0x1_0000 * self.bytes[2] as u32
            + 0x100_0000 * self.bytes[3] as u32
    }
}

impl Default for ArchivedU32 {
    fn default() -> (r: Self)
        ensures
            r@ == 0,
    {
        ArchivedU32::from_native(0)
    }
}

/// An archived `u64`.
#[derive(Clone, Copy, Debug, PartialEq, Eq)]
pub struct ArchivedU64 {
    /// The bytes of the number, least significant byte first.
    pub bytes: [u8; 8],
}

impl View for ArchivedU64 {
    type V = int;

    open spec fn view(&self) -> int {
        le_8(self.bytes@)
    }
}

impl ArchivedU64 {
    /// Archives a native `u64`.
    pub fn from_native(n: u64) -> (r: Self)
        ensures
            r@ == n,
    {
        let low = ArchivedU32::from_native((n % 0x1_0000_0000) as u32).bytes;
        let high = ArchivedU32::from_native((n / 0x1_0000_0000) as u32).bytes;
        ArchivedU64 {
            bytes: [low[0], low[1], low[2], low[3], high[0], high[1], high[2], high[3]],
        }
    }

    /// The native `u64` that is archived here.
    pub fn to_native(self) -> (n: u64)
        ensures
            n == self@,
    {
        let b = self.bytes;
        let low = ArchivedU32 { bytes: [b[0], b[1], b[2], b[3]] };
        let high = ArchivedU32 { bytes: [b[4], b[5], b[6], b[7]] };
        low.to_native() as u64 + 0x1_0000_0000 * high.to_native() as u64
    }
}

/// An archived `i16`, in two's complement.
#[derive(Clone, Copy, Debug, PartialEq, Eq)]
pub struct ArchivedI16 {
    /// The bytes of the number, least significant byte first.
    pub bytes: [u8; 2],
}

impl View for ArchivedI16 {
    type V = int;

    open spec fn view(&self) -> int {
        twos_complement(le_2(self.bytes@), 0x8000)
    }
}

impl ArchivedI16 {
    /// Archives a native `i16`.
    pub fn from_native(n: i16) -> (r: Self)
        ensures
            r@ == n,
    {
        let u: u16 = #[verifier::truncate]
        (n as u16);
        assert(n == twos_complement(u as int, 0x8000)) by {
            assert(n == (if (n as u16) < 0x8000 {
                (n as u16) as int
            } else {
                (n as u16) - 0x1_0000
            })) by (bit_vector);
        }
        ArchivedI16 { bytes: ArchivedU16::from_native(u).bytes }
    }

    /// The native `i16` that is archived here.
    pub fn to_native(self) -> (n: i16)
        ensures
            n == self@,
    {
        let u: u16 = ArchivedU16 { bytes: self.bytes }.to_native();
        assert((u as i16) == (if u < 0x8000 {
            u as int
        } else {
            u - 0x1_0000
        })) by (bit_vector);
        #[verifier::truncate]
        (u as i16)
    }
}

/// An archived `i32`, in two's complement.
#[derive(Clone, Copy, Debug, PartialEq, Eq)]
pub struct ArchivedI32 {
    /// The bytes of the number, least significant byte first.
    pub bytes: [u8; 4],
}

impl View for ArchivedI32 {
    type V = int;

    open spec fn view(&self) -> int {
        twos_complement(le_4(self.bytes@), 0x8000_0000)
    }
}

impl ArchivedI32 {
    /// Archives a native `i32`.
    pub fn from_native(n: i32) -> (r: Self)
        ensures
            r@ == n,
    {
        let u: u32 = #[verifier::truncate]
        (n as u32);
        assert(n == twos_complement(u as int, 0x8000_0000)) by {
            assert(n == (if (n as u32) < 0x8000_0000 {
                (n as u32) as int
            } else {
                (n as u32) - 0x1_0000_0000
            })) by (bit_vector);
        }
        ArchivedI32 { bytes: ArchivedU32::from_native(u).bytes }
    }

    /// The native `i32` that is archived here.
    pub fn to_native(self) -> (n: i32)
        ensures
            n == self@,
    {
        let u: u32 = ArchivedU32 { bytes: self.bytes }.to_native();
        assert((u as i32) == (if u < 0x8000_0000 {
            u as int
        } else {
            u - 0x1_0000_0000
        })) by (bit_vector);
        #[verifier::truncate]
        (u as i32)
    }
}

/// An archived `i64`, in two's complement.
#[derive(Clone, Copy, Debug, PartialEq, Eq)]
pub struct ArchivedI64 {
    /// The bytes of the number, least significant byte first.
    pub bytes: [u8; 8],
}

impl View for ArchivedI64 {
    type V = int;

    open spec fn view(&self) -> int {
        twos_complement(le_8(self.bytes@), 0x8000_0000_0000_0000)
    }
}

impl ArchivedI64 {
    /// Archives a native `i64`.
    pub fn from_native(n: i64) -> (r: Self)
        ensures
            r@ == n,
    {
        let u: u64 = #[verifier::truncate]
        (n as u64);
        assert(n == twos_complement(u as int, 0x8000_0000_0000_0000)) by {
            assert(n == (if (n as u64) < 0x8000_0000_0000_0000 {
                (n as u64) as int
            } else {
                (n as u64) - 0x1_0000_0000_0000_0000
            })) by (bit_vector);
        }
        ArchivedI64 { bytes: ArchivedU64::from_native(u).bytes }
    }

    /// The native `i64` that is archived here.
    pub fn to_native(self) -> (n: i64)
        ensures
            n == self@,
    {
        let u: u64 = ArchivedU64 { bytes: self.bytes }.to_native();
        assert((u as i64) == (if u < 0x8000_0000_0000_0000 {
            u as int
        } else {
            u - 0x1_0000_0000_0000_0000
        })) by (bit_vector);
        #[verifier::truncate]
        (u as i64)
    }
}

} // verus!
