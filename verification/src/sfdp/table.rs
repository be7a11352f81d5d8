//! The parameter tables, decoded from their little-endian bytes.
use vstd::prelude::*;

use crate::bits::{le_u32, read_le_u32};
use crate::sfdp::density::MemoryDensity;
use crate::sfdp::header::ParameterHeader;
use crate::sfdp::words::{
    BasicFlashWord1, BasicFlashWord3, BasicFlashWord4, BasicFlashWord5, BasicFlashWord6,
    BasicFlashWord7, BasicFlashWord8, BasicFlashWord9, BasicFlashWord10, BasicFlashWord11,
    BasicFlashWord12, BasicFlashWord13, BasicFlashWord14, BasicFlashWord15, BasicFlashWord16,
    BasicFlashWord17, BasicFlashWord18, BasicFlashWord19, BasicFlashWord20, BasicFlashWord21,
    BasicFlashWord22, BasicFlashWord23, _4BInstructionTableWord1, _4BInstructionTableWord2,
};

verus! {

/// The part of the basic flash table defined by JESD216: words 1 to 9.
#[derive(Clone, Copy, Debug, PartialEq, Eq, Structural)]
pub struct BasicFlashParameterTableJESD216 {
    pub word1: BasicFlashWord1,
    pub memory_density: MemoryDensity,
    pub word3: BasicFlashWord3,
    pub word4: BasicFlashWord4,
    pub word5: BasicFlashWord5,
    pub word6: BasicFlashWord6,
    pub word7: BasicFlashWord7,
    pub word8: BasicFlashWord8,
    pub word9: BasicFlashWord9,
}

impl BasicFlashParameterTableJESD216 {
    /// The length of this part in bytes.
    pub const LEN: usize = 36;

    /// The part laid out in the 36 bytes of `s` starting at `off`.
    pub open spec fn decode(s: Seq<u8>, off: int) -> Self {
        BasicFlashParameterTableJESD216 {
            word1: BasicFlashWord1::decode(le_u32(s, off + 0)),
            memory_density: MemoryDensity(le_u32(s, off + 4)),
            word3: BasicFlashWord3::decode(le_u32(s, off + 8)),
            word4: BasicFlashWord4::decode(le_u32(s, off + 12)),
            word5: BasicFlashWord5::decode(le_u32(s, off + 16)),
            word6: BasicFlashWord6::decode(le_u32(s, off + 20)),
            word7: BasicFlashWord7::decode(le_u32(s, off + 24)),
            word8: BasicFlashWord8::decode(le_u32(s, off + 28)),
            word9: BasicFlashWord9::decode(le_u32(s, off + 32)),
        }
    }

    /// Reads the part from the 36 bytes of `s` starting at `off`.
    pub fn read_from(s: &[u8], off: usize) -> (r: Self)
        requires
            off + 36 <= s.len(),
        ensures
            r == Self::decode(s@, off as int),
    {
        BasicFlashParameterTableJESD216 {
            word1: BasicFlashWord1::from_bits(read_le_u32(s, off + 0)),
            memory_density: MemoryDensity(read_le_u32(s, off + 4)),
            word3: BasicFlashWord3::from_bits(read_le_u32(s, off + 8)),
            word4: BasicFlashWord4::from_bits(read_le_u32(s, off + 12)),
            word5: BasicFlashWord5::from_bits(read_le_u32(s, off + 16)),
            word6: BasicFlashWord6::from_bits(read_le_u32(s, off + 20)),
            word7: BasicFlashWord7::from_bits(read_le_u32(s, off + 24)),
            word8: BasicFlashWord8::from_bits(read_le_u32(s, off + 28)),
            word9: BasicFlashWord9::from_bits(read_le_u32(s, off + 32)),
        }
    }
}

/// The part added by JESD216A: words 10 to 16.
#[derive(Clone, Copy, Debug, PartialEq, Eq, Structural)]
pub struct BasicFlashParameterTableJESD216A {
    pub word10: BasicFlashWord10,
    pub word11: BasicFlashWord11,
    pub word12: BasicFlashWord12,
    pub word13: BasicFlashWord13,
    pub word14: BasicFlashWord14,
    pub word15: BasicFlashWord15,
    pub word16: BasicFlashWord16,
}

impl BasicFlashParameterTableJESD216A {
    /// The length of this part in bytes.
    pub const LEN: usize = 28;

    /// The part laid out in the 28 bytes of `s` starting at `off`.
    pub open spec fn decode(s: Seq<u8>, off: int) -> Self {
        BasicFlashParameterTableJESD216A {
            word10: BasicFlashWord10::decode(le_u32(s, off + 0)),
            word11: BasicFlashWord11::decode(le_u32(s, off + 4)),
            word12: BasicFlashWord12::decode(le_u32(s, off + 8)),
            word13: BasicFlashWord13::decode(le_u32(s, off + 12)),
            word14: BasicFlashWord14::decode(le_u32(s, off + 16)),
            word15: BasicFlashWord15::decode(le_u32(s, off + 20)),
            word16: BasicFlashWord16::decode(le_u32(s, off + 24)),
        }
    }

    /// Reads the part from the 28 bytes of `s` starting at `off`.
    pub fn read_from(s: &[u8], off: usize) -> (r: Self)
        requires
            off + 28 <= s.len(),
        ensures
            r == Self::decode(s@, off as int),
    {
        BasicFlashParameterTableJESD216A {
            word10: BasicFlashWord10::from_bits(read_le_u32(s, off + 0)),
            word11: BasicFlashWord11::from_bits(read_le_u32(s, off + 4)),
            word12: BasicFlashWord12::from_bits(read_le_u32(s, off + 8)),
            word13: BasicFlashWord13::from_bits(read_le_u32(s, off + 12)),
            word14: BasicFlashWord14::from_bits(read_le_u32(s, off + 16)),
            word15: BasicFlashWord15::from_bits(read_le_u32(s, off + 20)),
            word16: BasicFlashWord16::from_bits(read_le_u32(s, off + 24)),
        }
    }
}

/// The part added by JESD216C: words 17 to 20.
#[derive(Clone, Copy, Debug, PartialEq, Eq, Structural)]
pub struct BasicFlashParameterTableJESD216C {
    pub word17: BasicFlashWord17,
    pub word18: BasicFlashWord18,
    pub word19: BasicFlashWord19,
    pub word20: BasicFlashWord20,
}

impl BasicFlashParameterTableJESD216C {
    /// The length of this part in bytes.
    pub const LEN: usize = 16;

    /// The part laid out in the 16 bytes of `s` starting at `off`.
    pub open spec fn decode(s: Seq<u8>, off: int) -> Self {
        BasicFlashParameterTableJESD216C {
            word17: BasicFlashWord17::decode(le_u32(s, off + 0)),
            word18: BasicFlashWord18::decode(le_u32(s, off + 4)),
            word19: BasicFlashWord19::decode(le_u32(s, off + 8)),
            word20: BasicFlashWord20::decode(le_u32(s, off + 12)),
        }
    }

    /// Reads the part from the 16 bytes of `s` starting at `off`.
    pub fn read_from(s: &[u8], off: usize) -> (r: Self)
        requires
            off + 16 <= s.len(),
        ensures
            r == Self::decode(s@, off as int),
    {
        BasicFlashParameterTableJESD216C {
            word17: BasicFlashWord17::from_bits(read_le_u32(s, off + 0)),
            word18: BasicFlashWord18::from_bits(read_le_u32(s, off + 4)),
            word19: BasicFlashWord19::from_bits(read_le_u32(s, off + 8)),
            word20: BasicFlashWord20::from_bits(read_le_u32(s, off + 12)),
        }
    }
}

/// The part added by JESD216F: words 21 to 23.
#[derive(Clone, Copy, Debug, PartialEq, Eq, Structural)]
pub struct BasicFlashParameterTableJESD216F {
    pub word21: BasicFlashWord21,
    pub word22: BasicFlashWord22,
    pub word23: BasicFlashWord23,
}

impl BasicFlashParameterTableJESD216F {
    /// The length of this part in bytes.
    pub const LEN: usize = 12;

    /// The part laid out in the 12 bytes of `s` starting at `off`.
    pub open spec fn decode(s: Seq<u8>, off: int) -> Self {
        BasicFlashParameterTableJESD216F {
            word21: BasicFlashWord21::decode(le_u32(s, off + 0)),
            word22: BasicFlashWord22::decode(le_u32(s, off + 4)),
            word23: BasicFlashWord23::decode(le_u32(s, off + 8)),
        }
    }

    /// Reads the part from the 12 bytes of `s` starting at `off`.
    pub fn read_from(s: &[u8], off: usize) -> (r: Self)
        requires
            off + 12 <= s.len(),
        ensures
            r == Self::decode(s@, off as int),
    {
        BasicFlashParameterTableJESD216F {
            word21: BasicFlashWord21::from_bits(read_le_u32(s, off + 0)),
            word22: BasicFlashWord22::from_bits(read_le_u32(s, off + 4)),
            word23: BasicFlashWord23::from_bits(read_le_u32(s, off + 8)),
        }
    }
}

/// The basic flash parameter table, in all the parts that JESD216 and its
/// revisions define.
#[derive(Clone, Copy, Debug, PartialEq, Eq, Structural)]
pub struct BasicFlashParameterTable {
    pub table_jesd216: BasicFlashParameterTableJESD216,
    pub table_jesd216a: BasicFlashParameterTableJESD216A,
    pub table_jesd216c: BasicFlashParameterTableJESD216C,
    pub table_jesd216f: BasicFlashParameterTableJESD216F,
}

impl BasicFlashParameterTable {
    /// The length of the whole table in bytes.
    pub const LEN: usize = 92;
    /// The shortest table that is accepted: the JESD216 part.
    pub const MIN_LEN: usize = 36;
    /// The byte offset of the JESD216A part.
    pub const OFFSET_JESD216A: usize = 36;
    /// The byte offset of the JESD216C part.
    pub const OFFSET_JESD216C: usize = 64;
    /// The byte offset of the JESD216F part.
    pub const OFFSET_JESD216F: usize = 80;

    /// The table laid out in the first 92 bytes of `s`.
    pub open spec fn decode(s: Seq<u8>) -> Self {
        BasicFlashParameterTable {
            table_jesd216: BasicFlashParameterTableJESD216::decode(s, 0),
            table_jesd216a: BasicFlashParameterTableJESD216A::decode(s, 36),
            table_jesd216c: BasicFlashParameterTableJESD216C::decode(s, 64),
            table_jesd216f: BasicFlashParameterTableJESD216F::decode(s, 80),
        }
    }

    /// Reads the table from the first 92 bytes of `s`.
    pub fn read_from(s: &[u8]) -> (r: Self)
        requires
            s.len() == Self::LEN,
        ensures
            r == Self::decode(s@),
    {
        BasicFlashParameterTable {
            table_jesd216: BasicFlashParameterTableJESD216::read_from(s, 0),
            table_jesd216a: BasicFlashParameterTableJESD216A::read_from(s, 36),
            table_jesd216c: BasicFlashParameterTableJESD216C::read_from(s, 64),
            table_jesd216f: BasicFlashParameterTableJESD216F::read_from(s, 80),
        }
    }
}

/// The 4-byte address instruction table.
#[derive(Clone, Copy, Debug, PartialEq, Eq, Structural)]
pub struct _4BInstructionTable {
    pub word1: _4BInstructionTableWord1,
    pub word2: _4BInstructionTableWord2,
}

impl _4BInstructionTable {
    /// The length of the table in bytes, which is also its minimal length.
    pub const LEN: usize = 8;

    /// The table laid out in the first 8 bytes of `s`.
    pub open spec fn decode(s: Seq<u8>) -> Self {
        _4BInstructionTable {
            word1: _4BInstructionTableWord1::decode(le_u32(s, 0)),
            word2: _4BInstructionTableWord2::decode(le_u32(s, 4)),
        }
    }

    /// Reads the table from the first 8 bytes of `s`.
    pub fn read_from(s: &[u8]) -> (r: Self)
        requires
            s.len() == Self::LEN,
        ensures
            r == Self::decode(s@),
    {
        _4BInstructionTable {
            word1: _4BInstructionTableWord1::from_bits(read_le_u32(s, 0)),
            word2: _4BInstructionTableWord2::from_bits(read_le_u32(s, 4)),
        }
    }
}

/// A parameter table together with the parameter header it was read by.
#[derive(Debug, PartialEq, Eq)]
pub struct HeaderAndTable<T> {
    pub header: ParameterHeader,
    pub table: T,
}

impl HeaderAndTable<BasicFlashParameterTable> {
    /// Whether the header's length covers the `len` bytes that start at `offset`.
    pub open spec fn covers(self, offset: int, len: int) -> bool {
        self.header.len_in_dwords * 4 >= offset + len
    }

    /// The JESD216 part, which every accepted table has.
    pub fn table_jesd216(&self) -> (r: BasicFlashParameterTableJESD216)
        ensures
            r == self.table.table_jesd216,
    {
        self.table.table_jesd216
    }

    /// The JESD216A part, if the header's length covers it.
    pub fn table_jesd216a(&self) -> (r: Option<&BasicFlashParameterTableJESD216A>)
        ensures
            r == (if self.covers(36, 28) {
                Some(&self.table.table_jesd216a)
            } else {
                None
            }),
    {
        if self.header.len_in_dwords as usize * 4 >= BasicFlashParameterTable::OFFSET_JESD216A
            + BasicFlashParameterTableJESD216A::LEN {
            Some(&self.table.table_jesd216a)
        } else {
            None
        }
    }

    /// The JESD216C part, if the header's length covers it.
    pub fn table_jesd216c(&self) -> (r: Option<&BasicFlashParameterTableJESD216C>)
        ensures
            r == (if self.covers(64, 16) {
                Some(&self.table.table_jesd216c)
            } else {
                None
            }),
    {
        if self.header.len_in_dwords as usize * 4 >= BasicFlashParameterTable::OFFSET_JESD216C
            + BasicFlashParameterTableJESD216C::LEN {
            Some(&self.table.table_jesd216c)
        } else {
            None
        }
    }

    /// The JESD216F part, if the header's length covers it.
    pub fn table_jesd216f(&self) -> (r: Option<&BasicFlashParameterTableJESD216F>)
        ensures
            r == (if self.covers(80, 12) {
                Some(&self.table.table_jesd216f)
            } else {
                None
            }),
    {
        if self.header.len_in_dwords as usize * 4 >= BasicFlashParameterTable::OFFSET_JESD216F
            + BasicFlashParameterTableJESD216F::LEN {
            Some(&self.table.table_jesd216f)
        } else {
            None
        }
    }
}

} // verus!
