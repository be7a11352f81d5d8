//! Timing fields of the basic flash parameter table and their durations.
//!
//! A timing field holds a count and a unit; the time it stands for is the
//! unit times one more than the count.  Durations are computed exactly in
//! nanoseconds and then handed to `core::time::Duration`.
use core::time::Duration;
use vstd::prelude::*;

use crate::bits::{field8, get_field8};
use crate::sfdp::fields::{
    ByteProgramTimeUnit, ChipEraseTimeUnit, DurationEnumAUnit, EraseTimeUnit, PageProgramTimeUnit,
};

verus! {

/// The `Duration` that `Duration::from_nanos` builds from a count of nanoseconds.
pub uninterp spec fn duration_from_nanos(nanos: u64) -> Duration;

/// Calls `core::time::Duration::from_nanos`, which builds the duration of
/// `nanos` nanoseconds; the contract names that result and says no more.
#[verifier::external_body]
fn duration_of_nanos(nanos: u64) -> (d: Duration)
    ensures
        d == duration_from_nanos(nanos),
{
    Duration::from_nanos(nanos)
}

impl EraseTimeUnit {
    /// The length of this unit in nanoseconds.
    pub open spec fn nanos(self) -> u64 {
        match self {
            EraseTimeUnit::_1ms => 1_000_000,
            EraseTimeUnit::_16ms => 16_000_000,
            EraseTimeUnit::_128ms => 128_000_000,
            EraseTimeUnit::_1s => 1_000_000_000,
        }
    }

    /// The length of this unit in nanoseconds.
    pub fn as_nanos(self) -> (r: u64)
        ensures
            r == self.nanos(),
    {
        match self {
            EraseTimeUnit::_1ms => 1_000_000,
            EraseTimeUnit::_16ms => 16_000_000,
            EraseTimeUnit::_128ms => 128_000_000,
            EraseTimeUnit::_1s => 1_000_000_000,
        }
    }
}

impl From<EraseTimeUnit> for Duration {
    fn from(value: EraseTimeUnit) -> (d: Duration) {
        duration_of_nanos(value.as_nanos())
    }
}

impl vstd::std_specs::convert::FromSpecImpl<EraseTimeUnit> for Duration {
    open spec fn obeys_from_spec() -> bool {
        true
    }

    open spec fn from_spec(v: EraseTimeUnit) -> Duration {
        duration_from_nanos(v.nanos())
    }
}

impl PageProgramTimeUnit {
    /// The length of this unit in nanoseconds.
    pub open spec fn nanos(self) -> u64 {
        match self {
            PageProgramTimeUnit::_8us => 8_000,
            PageProgramTimeUnit::_64us => 64_000,
        }
    }

    /// The length of this unit in nanoseconds.
    pub fn as_nanos(self) -> (r: u64)
        ensures
            r == self.nanos(),
    {
        match self {
            PageProgramTimeUnit::_8us => 8_000,
            PageProgramTimeUnit::_64us => 64_000,
        }
    }
}

impl From<PageProgramTimeUnit> for Duration {
    fn from(value: PageProgramTimeUnit) -> (d: Duration) {
        duration_of_nanos(value.as_nanos())
    }
}

impl vstd::std_specs::convert::FromSpecImpl<PageProgramTimeUnit> for Duration {
    open spec fn obeys_from_spec() -> bool {
        true
    }

    open spec fn from_spec(v: PageProgramTimeUnit) -> Duration {
        duration_from_nanos(v.nanos())
    }
}

impl ByteProgramTimeUnit {
    /// The length of this unit in nanoseconds.
    pub open spec fn nanos(self) -> u64 {
        match self {
            ByteProgramTimeUnit::_1us => 1_000,
            ByteProgramTimeUnit::_8us => 8_000,
        }
    }

    /// The length of this unit in nanoseconds.
    pub fn as_nanos(self) -> (r: u64)
        ensures
            r == self.nanos(),
    {
        match self {
            ByteProgramTimeUnit::_1us => 1_000,
            ByteProgramTimeUnit::_8us => 8_000,
        }
    }
}

impl From<ByteProgramTimeUnit> for Duration {
    fn from(value: ByteProgramTimeUnit) -> (d: Duration) {
        duration_of_nanos(value.as_nanos())
    }
}

impl vstd::std_specs::convert::FromSpecImpl<ByteProgramTimeUnit> for Duration {
    open spec fn obeys_from_spec() -> bool {
        true
    }

    open spec fn from_spec(v: ByteProgramTimeUnit) -> Duration {
        duration_from_nanos(v.nanos())
    }
}

impl ChipEraseTimeUnit {
    /// The length of this unit in nanoseconds.
    pub open spec fn nanos(self) -> u64 {
        match self {
            ChipEraseTimeUnit::_16ms => 16_000_000,
            ChipEraseTimeUnit::_256ms => 256_000_000,
            ChipEraseTimeUnit::_4s => 4_000_000_000,
            ChipEraseTimeUnit::_64s => 64_000_000_000,
        }
    }

    /// The length of this unit in nanoseconds.
    pub fn as_nanos(self) -> (r: u64)
        ensures
            r == self.nanos(),
    {
        match self {
            ChipEraseTimeUnit::_16ms => 16_000_000,
            ChipEraseTimeUnit::_256ms => 256_000_000,
            ChipEraseTimeUnit::_4s => 4_000_000_000,
            ChipEraseTimeUnit::_64s => 64_000_000_000,
        }
    }
}

impl From<ChipEraseTimeUnit> for Duration {
    fn from(value: ChipEraseTimeUnit) -> (d: Duration) {
        duration_of_nanos(value.as_nanos())
    }
}

impl vstd::std_specs::convert::FromSpecImpl<ChipEraseTimeUnit> for Duration {
    open spec fn obeys_from_spec() -> bool {
        true
    }

    open spec fn from_spec(v: ChipEraseTimeUnit) -> Duration {
        duration_from_nanos(v.nanos())
    }
}

impl DurationEnumAUnit {
    /// The length of this unit in nanoseconds.
    pub open spec fn nanos(self) -> u64 {
        match self {
            DurationEnumAUnit::_128ns => 128,
            DurationEnumAUnit::_1us => 1_000,
            DurationEnumAUnit::_8us => 8_000,
            DurationEnumAUnit::_64us => 64_000,
        }
    }

    /// The length of this unit in nanoseconds.
    pub fn as_nanos(self) -> (r: u64)
        ensures
            r == self.nanos(),
    {
        match self {
            DurationEnumAUnit::_128ns => 128,
            DurationEnumAUnit::_1us => 1_000,
            DurationEnumAUnit::_8us => 8_000,
            DurationEnumAUnit::_64us => 64_000,
        }
    }
}

impl From<DurationEnumAUnit> for Duration {
    fn from(value: DurationEnumAUnit) -> (d: Duration) {
        duration_of_nanos(value.as_nanos())
    }
}

impl vstd::std_specs::convert::FromSpecImpl<DurationEnumAUnit> for Duration {
    open spec fn obeys_from_spec() -> bool {
        true
    }

    open spec fn from_spec(v: DurationEnumAUnit) -> Duration {
        duration_from_nanos(v.nanos())
    }
}

/// A typical sector erase time: `count + 1` units.
#[derive(Clone, Copy, Debug, PartialEq, Eq, Structural)]
pub struct EraseTime {
    pub count: u8,
    pub units: EraseTimeUnit,
}

impl EraseTime {
    /// The count (bits 0..5) and the unit (bits 5..7) held in `bits`.
    pub open spec fn decode(bits: u8) -> Self {
        EraseTime {
            count: field8(bits, 0, 0x1f),
            units: EraseTimeUnit::decode(field8(bits, 5, 0x3)),
        }
    }

    /// Decodes the field from its byte; bit 7 is ignored.
    pub fn from_bits(bits: u8) -> (r: Self)
        ensures
            r == Self::decode(bits),
    {
        EraseTime {
            count: get_field8(bits, 0, 0x1f),
            units: EraseTimeUnit::from_bits(get_field8(bits, 5, 0x3)),
        }
    }

    /// The time in nanoseconds: the unit times one more than the count.
    pub open spec fn nanos(self) -> nat {
        (self.units.nanos() * (self.count + 1)) as nat
    }

    /// The time in nanoseconds.
    pub fn as_nanos(self) -> (r: u64)
        ensures
            r == self.nanos(),
    {
        let unit = self.units.as_nanos();
        assert(unit * (self.count + 1) <= 1_000_000_000 * 256) by (nonlinear_arith)
            requires
                unit <= 1_000_000_000,
                self.count <= 255,
        ;
        unit * (self.count as u64 + 1)
    }
}

impl From<EraseTime> for Duration {
    fn from(value: EraseTime) -> (d: Duration) {
        duration_of_nanos(value.as_nanos())
    }
}

impl vstd::std_specs::convert::FromSpecImpl<EraseTime> for Duration {
    open spec fn obeys_from_spec() -> bool {
        true
    }

    open spec fn from_spec(v: EraseTime) -> Duration {
        duration_from_nanos(v.nanos() as u64)
    }
}

/// A typical page program time: `count + 1` units.
#[derive(Clone, Copy, Debug, PartialEq, Eq, Structural)]
pub struct PageProgramTime {
    pub count: u8,
    pub units: PageProgramTimeUnit,
}

impl PageProgramTime {
    /// The count (bits 0..5) and the unit (bits 5..6) held in `bits`.
    pub open spec fn decode(bits: u8) -> Self {
        PageProgramTime {
            count: field8(bits, 0, 0x1f),
            units: PageProgramTimeUnit::decode(field8(bits, 5, 0x1)),
        }
    }

    /// Decodes the field from its byte; bits 6 and 7 are ignored.
    pub fn from_bits(bits: u8) -> (r: Self)
        ensures
            r == Self::decode(bits),
    {
        PageProgramTime {
            count: get_field8(bits, 0, 0x1f),
            units: PageProgramTimeUnit::from_bits(get_field8(bits, 5, 0x1)),
        }
    }

    /// The time in nanoseconds: the unit times one more than the count.
    pub open spec fn nanos(self) -> nat {
        (self.units.nanos() * (self.count + 1)) as nat
    }

    /// The time in nanoseconds.
    pub fn as_nanos(self) -> (r: u64)
        ensures
            r == self.nanos(),
    {
        let unit = self.units.as_nanos();
        assert(unit * (self.count + 1) <= 64_000 * 256) by (nonlinear_arith)
            requires
                unit <= 64_000,
                self.count <= 255,
        ;
        unit * (self.count as u64 + 1)
    }
}

impl From<PageProgramTime> for Duration {
    fn from(value: PageProgramTime) -> (d: Duration) {
        duration_of_nanos(value.as_nanos())
    }
}

impl vstd::std_specs::convert::FromSpecImpl<PageProgramTime> for Duration {
    open spec fn obeys_from_spec() -> bool {
        true
    }

    open spec fn from_spec(v: PageProgramTime) -> Duration {
        duration_from_nanos(v.nanos() as u64)
    }
}

/// A typical byte program time: `count + 1` units.
#[derive(Clone, Copy, Debug, PartialEq, Eq, Structural)]
pub struct ByteProgramTime {
    pub count: u8,
    pub unit: ByteProgramTimeUnit,
}

impl ByteProgramTime {
    /// The count (bits 0..4) and the unit (bits 4..5) held in `bits`.
    pub open spec fn decode(bits: u8) -> Self {
        ByteProgramTime {
            count: field8(bits, 0, 0xf),
            unit: ByteProgramTimeUnit::decode(field8(bits, 4, 0x1)),
        }
    }

    /// Decodes the field from its byte; bits 5 to 7 are ignored.
    pub fn from_bits(bits: u8) -> (r: Self)
        ensures
            r == Self::decode(bits),
    {
        ByteProgramTime {
            count: get_field8(bits, 0, 0xf),
            unit: ByteProgramTimeUnit::from_bits(get_field8(bits, 4, 0x1)),
        }
    }

    /// The time in nanoseconds: the unit times one more than the count.
    pub open spec fn nanos(self) -> nat {
        (self.unit.nanos() * (self.count + 1)) as nat
    }

    /// The time in nanoseconds.
    pub fn as_nanos(self) -> (r: u64)
        ensures
            r == self.nanos(),
    {
        let unit = self.unit.as_nanos();
        assert(unit * (self.count + 1) <= 8_000 * 256) by (nonlinear_arith)
            requires
                unit <= 8_000,
                self.count <= 255,
        ;
        unit * (self.count as u64 + 1)
    }
}

impl From<ByteProgramTime> for Duration {
    fn from(value: ByteProgramTime) -> (d: Duration) {
        duration_of_nanos(value.as_nanos())
    }
}

impl vstd::std_specs::convert::FromSpecImpl<ByteProgramTime> for Duration {
    open spec fn obeys_from_spec() -> bool {
        true
    }

    open spec fn from_spec(v: ByteProgramTime) -> Duration {
        duration_from_nanos(v.nanos() as u64)
    }
}

/// A typical chip erase time: `count + 1` units.
#[derive(Clone, Copy, Debug, PartialEq, Eq, Structural)]
pub struct ChipEraseTime {
    pub count: u8,
    pub units: ChipEraseTimeUnit,
}

impl ChipEraseTime {
    /// The count (bits 0..4) and the unit (bits 4..6) held in `bits`.
    pub open spec fn decode(bits: u8) -> Self {
        ChipEraseTime {
            count: field8(bits, 0, 0xf),
            units: ChipEraseTimeUnit::decode(field8(bits, 4, 0x3)),
        }
    }

    /// Decodes the field from its byte; bits 6 and 7 are ignored.
    pub fn from_bits(bits: u8) -> (r: Self)
        ensures
            r == Self::decode(bits),
    {
        ChipEraseTime {
            count: get_field8(bits, 0, 0xf),
            units: ChipEraseTimeUnit::from_bits(get_field8(bits, 4, 0x3)),
        }
    }

    /// The time in nanoseconds: the unit times one more than the count.
    pub open spec fn nanos(self) -> nat {
        (self.units.nanos() * (self.count + 1)) as nat
    }

    /// The time in nanoseconds.
    pub fn as_nanos(self) -> (r: u64)
        ensures
            r == self.nanos(),
    {
        let unit = self.units.as_nanos();
        assert(unit * (self.count + 1) <= 64_000_000_000 * 256) by (nonlinear_arith)
            requires
                unit <= 64_000_000_000,
                self.count <= 255,
        ;
        unit * (self.count as u64 + 1)
    }
}

impl From<ChipEraseTime> for Duration {
    fn from(value: ChipEraseTime) -> (d: Duration) {
        duration_of_nanos(value.as_nanos())
    }
}

impl vstd::std_specs::convert::FromSpecImpl<ChipEraseTime> for Duration {
    open spec fn obeys_from_spec() -> bool {
        true
    }

    open spec fn from_spec(v: ChipEraseTime) -> Duration {
        duration_from_nanos(v.nanos() as u64)
    }
}

/// An interval of `counts_64ms` periods of 64 ms.
#[derive(Clone, Copy, Debug, PartialEq, Eq, Structural)]
pub struct Interval64us {
    pub counts_64ms: u8,
}

impl Interval64us {
    /// The count held in bits 0..4 of `bits`.
    pub open spec fn decode(bits: u8) -> Self {
        Interval64us { counts_64ms: field8(bits, 0, 0xf) }
    }

    /// Decodes the interval from its byte; bits 4 to 7 are ignored.
    pub fn from_bits(bits: u8) -> (r: Self)
        ensures
            r == Self::decode(bits),
    {
        Interval64us { counts_64ms: get_field8(bits, 0, 0xf) }
    }

    /// The interval in nanoseconds: 64 ms per count.
    pub open spec fn nanos(self) -> nat {
        (64_000_000 * self.counts_64ms) as nat
    }

    /// The interval in nanoseconds.
    pub fn as_nanos(self) -> (r: u64)
        ensures
            r == self.nanos(),
    {
        64_000_000 * (self.counts_64ms as u64)
    }
}

impl From<Interval64us> for Duration {
    fn from(value: Interval64us) -> (d: Duration) {
        duration_of_nanos(value.as_nanos())
    }
}

impl vstd::std_specs::convert::FromSpecImpl<Interval64us> for Duration {
    open spec fn obeys_from_spec() -> bool {
        true
    }

    open spec fn from_spec(v: Interval64us) -> Duration {
        duration_from_nanos(v.nanos() as u64)
    }
}

/// A latency or delay: `count + 1` units (used by several fields).
#[derive(Clone, Copy, Debug, PartialEq, Eq, Structural)]
pub struct DurationEnumA {
    pub count: u8,
    pub units: DurationEnumAUnit,
}

impl DurationEnumA {
    /// The count (bits 0..5) and the unit (bits 5..7) held in `bits`.
    pub open spec fn decode(bits: u8) -> Self {
        DurationEnumA {
            count: field8(bits, 0, 0x1f),
            units: DurationEnumAUnit::decode(field8(bits, 5, 0x3)),
        }
    }

    /// Decodes the field from its byte; bit 7 is ignored.
    pub fn from_bits(bits: u8) -> (r: Self)
        ensures
            r == Self::decode(bits),
    {
        DurationEnumA {
            count: get_field8(bits, 0, 0x1f),
            units: DurationEnumAUnit::from_bits(get_field8(bits, 5, 0x3)),
        }
    }
}

} // verus!
