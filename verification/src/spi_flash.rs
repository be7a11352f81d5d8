//! The decisions of a generic SPI NOR flash driver that configures itself
//! from SFDP: which commands to send, to which addresses, in which pieces.
//!
//! The bus transactions themselves are made by the caller; this module says
//! what they are and keeps the driver's configuration.
use vstd::prelude::*;

use vstd::arithmetic::power2::{lemma2_to64, lemma_pow2_pos, lemma_pow2_unfold, pow2};
use vstd::bits::{lemma_usize_pow2_no_overflow, lemma_usize_shl_is_mul};

use crate::error::ErrorCode;
use crate::sfdp::reader::{open_result, table_bytes, SfdpReader};
use crate::sfdp::table::{BasicFlashParameterTable, HeaderAndTable};

verus! {

/// Write Enable.
pub const OP_WRITE_EN: u8 = 0x06;
/// Read Status Register.
pub const OP_READ_STATUS: u8 = 0x05;
/// Enter 4-Byte Address Mode.
pub const OP_ENTER_4B: u8 = 0xB7;
/// Read SFDP.
pub const OP_SFDP_READ: u8 = 0x5A;
/// Read Data.
pub const OP_READ: u8 = 0x03;
/// Page Program.
pub const OP_PAGE_PROGRAM: u8 = 0x02;
/// Sector Erase, 4 KiB.
pub const OP_ERASE_4K: u8 = 0x20;
/// Block Erase, 64 KiB.
pub const OP_ERASE_64K: u8 = 0xD8;
/// The write-in-progress bit of the status register.
pub const STATUS_WIP_MASK: u8 = 0x01;
/// Programming never crosses a window of this many bytes.
pub const PROGRAM_WINDOW_SIZE: usize = 256;
/// The size of the SFDP address space.
pub const SFDP_SPACE_SIZE: usize = 0x100_0000;
/// The largest flash that is addressed with 3-byte addresses.
pub const MAX_3_BYTE_ADDRESSABLE: u32 = 0x100_0000;
/// The erase sizes the driver supports, as a bitmap of base-2 logarithms:
/// 4 KiB (bit 12) and 64 KiB (bit 16).
pub const ERASABLE_SIZES_BITMAP: u32 = 0x1_1000;

/// A flash command: its opcode, address length and dummy bytes.
#[derive(Clone, Copy, Debug, PartialEq, Eq, Structural)]
pub struct SfCmd {
    pub opcode: u8,
    pub addr_bytes: u8,
    pub dummy_bytes: u8,
}

/// The four big-endian bytes of `addr`.
pub open spec fn be_bytes(addr: u32) -> Seq<u8> {
    seq![
        (addr / 0x100_0000) as u8,
        (addr / 0x1_0000 % 0x100) as u8,
        (addr / 0x100 % 0x100) as u8,
        (addr % 0x100) as u8,
    ]
}

/// The command prefix for `opcode` at `addr`: the opcode then the address,
/// three bytes of it (and a zero pad byte) when `addr_bytes` is 3 and four
/// otherwise; with the number of bytes that are sent.
pub open spec fn cmd_prefix(opcode: u8, addr: u32, addr_bytes: u8) -> (Seq<u8>, nat) {
    let b = be_bytes(addr);
    if addr_bytes == 3 {
        (seq![opcode, b[1], b[2], b[3], 0u8], 4)
    } else {
        (seq![opcode, b[0], b[1], b[2], b[3]], 5)
    }
}

/// Lays out the command prefix for `opcode` at `addr`.
pub fn format_cmd_prefix(opcode: u8, addr: u32, addr_bytes: u8) -> (r: ([u8; 5], usize))
    ensures
        r.0@ == cmd_prefix(opcode, addr, addr_bytes).0,
        r.1 == cmd_prefix(opcode, addr, addr_bytes).1,
{
    let b0 = (addr / 0x100_0000) as u8;
    let b1 = (addr / 0x1_0000 % 0x100) as u8;
    let b2 = (addr / 0x100 % 0x100) as u8;
    let b3 = (addr % 0x100) as u8;
    if addr_bytes == 3 {
        let r = [opcode, b1, b2, b3, 0];
        assert(r@ =~= cmd_prefix(opcode, addr, addr_bytes).0);
        (r, 4)
    } else {
        let r = [opcode, b0, b1, b2, b3];
        assert(r@ =~= cmd_prefix(opcode, addr, addr_bytes).0);
        (r, 5)
    }
}

/// The first `len` bytes of a prefix.
fn prefix_bytes(prefix: &[u8; 5], len: usize) -> (r: Vec<u8>)
    requires
        len <= 5,
    ensures
        r@ == prefix@.take(len as int),
{
    let mut r: Vec<u8> = Vec::new();
    let mut i: usize = 0;
    while i < len
        invariant
            i <= len <= 5,
            r@ == prefix@.take(i as int),
        decreases len - i,
    {
        r.push(prefix[i]);
        i = i + 1;
        assert(r@ =~= prefix@.take(i as int));
    }
    r
}

/// The command that reads the SFDP space at `start_addr`: the opcode, the low
/// three bytes of the address (big-endian) and a dummy byte.
pub fn sfdp_read_command(start_addr: usize) -> (r: [u8; 5])
    ensures
        r@ == seq![
            OP_SFDP_READ,
            be_bytes(start_addr as u32)[1],
            be_bytes(start_addr as u32)[2],
            be_bytes(start_addr as u32)[3],
            0u8,
        ],
{
    let addr = start_addr as u32;
    let r = [
        OP_SFDP_READ,
        (addr / 0x1_0000 % 0x100) as u8,
        (addr / 0x100 % 0x100) as u8,
        (addr % 0x100) as u8,
        0,
    ];
    assert(r@ =~= seq![
        OP_SFDP_READ,
        be_bytes(start_addr as u32)[1],
        be_bytes(start_addr as u32)[2],
        be_bytes(start_addr as u32)[3],
        0u8,
    ]);
    r
}

/// Whether a status register read means that the flash is busy: the
/// write-in-progress bit is set, or the status could not be read.
pub fn status_means_busy(status: Result<u8, ErrorCode>) -> (r: bool)
    ensures
        r == match status {
            Ok(s) => s % 2 == 1,
            Err(_) => true,
        },
{
    match status {
        Ok(s) => {
            assert((s & STATUS_WIP_MASK) == s % 2) by (bit_vector);
            (s & STATUS_WIP_MASK) != 0
        },
        Err(_) => true,
    }
}

/// What opening the SFDP bytes `image` and reading its basic flash
/// parameter table gives, with the driver's error codes: a failure to open
/// is an invalid signature, and a failure to read the table is a table
/// that is too short.
pub open spec fn flash_parameters(image: Seq<u8>) -> Result<
    (Option<crate::sfdp::header::ParameterHeader>, BasicFlashParameterTable),
    ErrorCode,
> {
    match open_result(image) {
        Err(_) => Err(ErrorCode::FLASH_GENERIC_SFDP_INVALID_SIGNATURE),
        Ok((basic, _)) => match table_bytes(image, basic, 92, 36) {
            Err(_) => Err(ErrorCode::FLASH_GENERIC_SFDP_PARAMETERS_TOO_SHORT),
            Ok(s) => Ok((basic, BasicFlashParameterTable::decode(s))),
        },
    }
}

/// Opens the SFDP bytes `image` and reads the basic flash parameter table.
pub fn read_flash_parameters(image: &[u8]) -> (r: Result<
    HeaderAndTable<BasicFlashParameterTable>,
    ErrorCode,
>)
    ensures
        match (r, flash_parameters(image@)) {
            (Ok(t), Ok((h, table))) => Some(t.header) == h && t.table == table,
            (Err(e), Err(f)) => e == f,
            _ => false,
        },
{
    let mut sfdp = match SfdpReader::new(image) {
        Ok(s) => s,
        Err(_) => return Err(ErrorCode::FLASH_GENERIC_SFDP_INVALID_SIGNATURE),
    };
    match sfdp.basic_flash_parameters() {
        Ok(t) => Ok(t),
        Err(_) => Err(ErrorCode::FLASH_GENERIC_SFDP_PARAMETERS_TOO_SHORT),
    }
}

/// The configuration of a flash driver.
pub ghost struct SpiFlashView {
    pub size_bytes: nat,
    pub erasable_sizes_bitmap: u32,
    pub read_cmd: SfCmd,
    pub program_cmd: SfCmd,
    pub erase_4k_opcode: u8,
    pub erase_64k_opcode: u8,
    pub addr_mode_4b: bool,
    pub initialized: bool,
}

/// What the caller must do to finish initialization.
#[derive(Clone, Copy, Debug, PartialEq, Eq, Structural)]
pub enum InitStep {
    /// Nothing: the driver is initialized.
    Done,
    /// Enter 4-byte address mode (write enable, then `OP_ENTER_4B`), then
    /// call `finish_4byte_init`.
    Enter4ByteMode,
}

/// A piece of a program operation: the command prefix, and the part of the
/// data that follows it.
#[derive(Clone, Debug)]
pub struct ProgramChunk {
    pub prefix: Vec<u8>,
    pub data_start: usize,
    pub data_len: usize,
}

/// The pieces of programming `remaining` bytes at flash address `addr`,
/// starting at data position `pos`: each piece ends at the data's end or at
/// the next program window boundary, whichever comes first.  Each piece is
/// `(address, data position, length)`.
pub open spec fn program_pieces(addr: int, pos: int, remaining: int) -> Seq<(int, int, int)>
    decreases remaining,
{
    if remaining <= 0 {
        Seq::empty()
    } else {
        let room = PROGRAM_WINDOW_SIZE - addr % (PROGRAM_WINDOW_SIZE as int);
        let n = if remaining <= room {
            remaining
        } else {
            room
        };
        seq![(addr, pos, n)] + program_pieces(addr + n, pos + n, remaining - n)
    }
}

/// The pieces of a program operation cover the data exactly once and in
/// order, each is nonempty and written at the address that matches its data
/// position, and none crosses a program window boundary.
pub proof fn lemma_program_pieces(addr: int, pos: int, remaining: int)
    requires
        addr >= 0,
        remaining >= 0,
    ensures
        ({
            let ps = program_pieces(addr, pos, remaining);
            &&& (ps.len() == 0 <==> remaining == 0)
            &&& ps.len() > 0 ==> ps[0].1 == pos
            &&& ps.len() > 0 ==> ps.last().1 + ps.last().2 == pos + remaining
            &&& forall|i: int|
                0 <= i < ps.len() ==> {
                    &&& #[trigger] ps[i].2 > 0
                    &&& ps[i].0 - ps[i].1 == addr - pos
                    &&& ps[i].0 % (PROGRAM_WINDOW_SIZE as int) + ps[i].2 <= PROGRAM_WINDOW_SIZE
                }
            &&& forall|i: int| 0 < i < ps.len() ==> #[trigger] ps[i].1 == ps[i - 1].1 + ps[i - 1].2
        }),
    decreases remaining,
{
    if remaining > 0 {
        let room = PROGRAM_WINDOW_SIZE - addr % (PROGRAM_WINDOW_SIZE as int);
        let n = if remaining <= room {
            remaining
        } else {
            room
        };
        lemma_program_pieces(addr + n, pos + n, remaining - n);
        let ps = program_pieces(addr, pos, remaining);
        let rest = program_pieces(addr + n, pos + n, remaining - n);
        assert(ps == seq![(addr, pos, n)] + rest);
        assert forall|i: int| 0 < i < ps.len() implies #[trigger] ps[i].1 == ps[i - 1].1 + ps[i
            - 1].2 by {
            assert(ps[i] == rest[i - 1]);
            if i > 1 {
                assert(ps[i - 1] == rest[i - 2]);
            }
        }
        assert forall|i: int| 0 <= i < ps.len() implies {
            &&& #[trigger] ps[i].2 > 0
            &&& ps[i].0 - ps[i].1 == addr - pos
            &&& ps[i].0 % (PROGRAM_WINDOW_SIZE as int) + ps[i].2 <= PROGRAM_WINDOW_SIZE
        } by {
            if i > 0 {
                assert(ps[i] == rest[i - 1]);
            }
        }
    }
}

/// Whether `n` is `2^k` for some `k` below the width of `usize`.
pub open spec fn is_pow2_usize(n: usize) -> bool {
    exists|k: nat| k < usize::BITS && pow2(k) == n
}

/// The number of trailing zero bits of `x`: 32 for zero.
pub open spec fn trailing_zeros32(x: u32) -> nat
    decreases x,
{
    if x == 0 {
        32
    } else if x % 2 == 1 {
        0
    } else {
        1 + trailing_zeros32((x / 2) as u32)
    }
}

/// A nonzero value below `2^k` has fewer than `k` trailing zero bits.
proof fn lemma_trailing_zeros_bound(x: u32, k: nat)
    requires
        x != 0,
        x < pow2(k),
    ensures
        trailing_zeros32(x) < k,
    decreases k,
{
    lemma2_to64();
    if k > 0 {
        lemma_pow2_unfold(k);
        if x % 2 == 0 {
            lemma_trailing_zeros_bound((x / 2) as u32, (k - 1) as nat);
        }
    }
}

/// The number of trailing zero bits of `x`.
fn trailing_zeros(x: u32) -> (r: u32)
    ensures
        r == trailing_zeros32(x),
{
    if x == 0 {
        return 32;
    }
    proof {
        lemma2_to64();
        lemma_trailing_zeros_bound(x, 32);
    }
    let mut y = x;
    let mut n: u32 = 0;
    while y % 2 == 0
        invariant
            y != 0,
            n + trailing_zeros32(y) == trailing_zeros32(x),
            trailing_zeros32(x) < 32,
        decreases y,
    {
        y = y / 2;
        n = n + 1;
    }
    n
}

/// The command that reads at `offset` with the command `cmd`: the command
/// prefix, followed by the dummy bytes as zeros as far as five bytes reach.
pub open spec fn read_prefix(cmd: SfCmd, offset: u32) -> Seq<u8> {
    let p = cmd_prefix(cmd.opcode, offset, cmd.addr_bytes);
    let n = if p.1 + cmd.dummy_bytes <= 5 {
        p.1 + cmd.dummy_bytes
    } else {
        5
    };
    p.0.take(n as int)
}

/// What erasing `size` bytes at `offset` asks of a driver configured as `v`.
pub open spec fn erase_result(v: SpiFlashView, offset: u32, size: usize) -> Result<Seq<u8>, ErrorCode> {
    if !v.initialized {
        Err(ErrorCode::FLASH_GENERIC_NOT_INITIALIZED)
    } else if (offset as int) % (size as int) != 0 {
        Err(ErrorCode::FLASH_GENERIC_ERASE_INVALID_ADDR)
    } else if offset + size > v.size_bytes {
        Err(ErrorCode::FLASH_GENERIC_ADDR_OUT_OF_BOUNDS)
    } else if size != 0x1000 && size != 0x1_0000 {
        Err(ErrorCode::FLASH_GENERIC_ERASE_INVALID_SIZE)
    } else {
        let opcode = if size == 0x1000 {
            v.erase_4k_opcode
        } else {
            v.erase_64k_opcode
        };
        let p = cmd_prefix(opcode, offset, if v.addr_mode_4b { 4 } else { 3 });
        Ok(p.0.take(p.1 as int))
    }
}

/// An erase is accepted only by an initialized driver, at an offset that is
/// a multiple of the erase size, for a range within the flash, and for a
/// 4 KiB or 64 KiB erase; its command is then the erase opcode for that size
/// followed by the offset, big-endian, in three bytes in 3-byte address mode
/// and four in 4-byte mode. An uninitialized driver refuses every erase as
/// not initialized, and an initialized one refuses every misaligned offset
/// as an invalid erase address, whatever the range and the size.
pub proof fn lemma_erase_checks(v: SpiFlashView, offset: u32, size: usize)
    requires
        size > 0,
    ensures
        !v.initialized ==> erase_result(v, offset, size) == Err::<Seq<u8>, ErrorCode>(
            ErrorCode::FLASH_GENERIC_NOT_INITIALIZED,
        ),
        v.initialized && (offset as int) % (size as int) != 0 ==> erase_result(v, offset, size) == Err::<
            Seq<u8>,
            ErrorCode,
        >(ErrorCode::FLASH_GENERIC_ERASE_INVALID_ADDR),
        erase_result(v, offset, size) matches Ok(cmd) ==> {
            let opcode = if size == 0x1000 {
                v.erase_4k_opcode
            } else {
                v.erase_64k_opcode
            };
            &&& v.initialized
            &&& (offset as int) % (size as int) == 0
            &&& offset + size <= v.size_bytes
            &&& size == 0x1000 || size == 0x1_0000
            &&& cmd[0] == opcode
            &&& v.addr_mode_4b ==> cmd == seq![
                opcode,
                (offset / 0x100_0000) as u8,
                (offset / 0x1_0000 % 0x100) as u8,
                (offset / 0x100 % 0x100) as u8,
                (offset % 0x100) as u8,
            ]
            &&& !v.addr_mode_4b ==> cmd == seq![
                opcode,
                (offset / 0x1_0000 % 0x100) as u8,
                (offset / 0x100 % 0x100) as u8,
                (offset % 0x100) as u8,
            ]
        },
{
    if erase_result(v, offset, size) is Ok {
        let opcode = if size == 0x1000 {
            v.erase_4k_opcode
        } else {
            v.erase_64k_opcode
        };
        let p = cmd_prefix(opcode, offset, if v.addr_mode_4b { 4 } else { 3 });
        if v.addr_mode_4b {
            assert(p.0.take(p.1 as int) =~= seq![
                opcode,
                (offset / 0x100_0000) as u8,
                (offset / 0x1_0000 % 0x100) as u8,
                (offset / 0x100 % 0x100) as u8,
                (offset % 0x100) as u8,
            ]);
        } else {
            assert(p.0.take(p.1 as int) =~= seq![
                opcode,
                (offset / 0x1_0000 % 0x100) as u8,
                (offset / 0x100 % 0x100) as u8,
                (offset % 0x100) as u8,
            ]);
        }
    }
}

/// The driver's configuration, before and after initialization.
pub struct SpiFlashState {
    size_bytes: usize,
    erasable_sizes_bitmap: u32,
    read_cmd: SfCmd,
    program_cmd: SfCmd,
    erase_4k_opcode: u8,
    erase_64k_opcode: u8,
    addr_mode_4b: bool,
    initialized: bool,
}

impl View for SpiFlashState {
    type V = SpiFlashView;

    closed spec fn view(&self) -> SpiFlashView {
        SpiFlashView {
            size_bytes: self.size_bytes as nat,
            erasable_sizes_bitmap: self.erasable_sizes_bitmap,
            read_cmd: self.read_cmd,
            program_cmd: self.program_cmd,
            erase_4k_opcode: self.erase_4k_opcode,
            erase_64k_opcode: self.erase_64k_opcode,
            addr_mode_4b: self.addr_mode_4b,
            initialized: self.initialized,
        }
    }
}

/// The commands of a flash addressed with `addr_bytes`-byte addresses.
pub open spec fn configured(v: SpiFlashView, addr_bytes: u8) -> SpiFlashView {
    SpiFlashView {
        read_cmd: SfCmd { opcode: OP_READ, addr_bytes, dummy_bytes: 0 },
        program_cmd: SfCmd { opcode: OP_PAGE_PROGRAM, addr_bytes, dummy_bytes: 0 },
        erase_4k_opcode: OP_ERASE_4K,
        erase_64k_opcode: OP_ERASE_64K,
        addr_mode_4b: addr_bytes == 4,
        initialized: true,
        ..v
    }
}

impl SpiFlashState {
    /// Once initialized, the driver supports exactly the 4 KiB and 64 KiB
    /// erase sizes.
    pub closed spec fn wf(&self) -> bool {
        self.initialized ==> self.erasable_sizes_bitmap == ERASABLE_SIZES_BITMAP
    }

    /// An uninitialized driver.
    pub fn new() -> (r: Self)
        ensures
            r.wf(),
            r@ == (SpiFlashView {
                size_bytes: 0,
                erasable_sizes_bitmap: 0,
                read_cmd: SfCmd { opcode: 0, addr_bytes: 0, dummy_bytes: 0 },
                program_cmd: SfCmd { opcode: 0, addr_bytes: 0, dummy_bytes: 0 },
                erase_4k_opcode: 0,
                erase_64k_opcode: 0,
                addr_mode_4b: false,
                initialized: false,
            }),
    {
        SpiFlashState {
            size_bytes: 0,
            erasable_sizes_bitmap: 0,
            read_cmd: SfCmd { opcode: 0, addr_bytes: 0, dummy_bytes: 0 },
            program_cmd: SfCmd { opcode: 0, addr_bytes: 0, dummy_bytes: 0 },
            erase_4k_opcode: 0,
            erase_64k_opcode: 0,
            addr_mode_4b: false,
            initialized: false,
        }
    }

    /// The first initialization step, from the basic flash parameter table:
    /// records the flash size (or fails if the density cannot be decoded)
    /// and the supported erase sizes, checks that a JESD216A table, if
    /// present, announces 256-byte pages, then configures 3-byte addressing
    /// for flashes of up to 16 MiB; larger flashes need 4-byte addressing,
    /// which the caller enters before `finish_4byte_init`.
    pub fn configure(&mut self, table: &HeaderAndTable<BasicFlashParameterTable>) -> (r: Result<
        InitStep,
        ErrorCode,
    >)
        requires
            old(self).wf(),
        ensures
            final(self).wf(),
            match table.table.table_jesd216.memory_density.decoded_len() {
                Err(_) => {
                    &&& r == Err::<InitStep, ErrorCode>(
                        ErrorCode::FLASH_GENERIC_SFDP_INVALID_MEMORY_DENSITY,
                    )
                    &&& final(self)@ == old(self)@
                },
                Ok(size) => {
                    let sized = SpiFlashView {
                        size_bytes: size as nat,
                        erasable_sizes_bitmap: ERASABLE_SIZES_BITMAP,
                        ..old(self)@
                    };
                    if table.covers(36, 28) && pow2(
                        (table.table.table_jesd216a.word11.page_size.n & 0xf) as nat,
                    ) != 256 {
                        &&& r == Err::<InitStep, ErrorCode>(
                            ErrorCode::FLASH_GENERIC_INVALID_PAGE_SIZE,
                        )
                        &&& final(self)@ == sized
                    } else if size <= MAX_3_BYTE_ADDRESSABLE {
                        &&& r == Ok::<InitStep, ErrorCode>(InitStep::Done)
                        &&& final(self)@ == configured(sized, 3)
                    } else {
                        &&& r == Ok::<InitStep, ErrorCode>(InitStep::Enter4ByteMode)
                        &&& final(self)@ == sized
                    }
                },
            },
    {
        let size = match table.table_jesd216().memory_density.byte_len() {
            Ok(size) => size,
            Err(_) => return Err(ErrorCode::FLASH_GENERIC_SFDP_INVALID_MEMORY_DENSITY),
        };
        self.size_bytes = size as usize;
        self.erasable_sizes_bitmap = ERASABLE_SIZES_BITMAP;
        if let Some(jesd216a) = table.table_jesd216a() {
            let page_size = jesd216a.word11.page_size.value();
            if page_size != 256 {
                return Err(ErrorCode::FLASH_GENERIC_INVALID_PAGE_SIZE);
            }
        }
        if size <= MAX_3_BYTE_ADDRESSABLE {
            self.set_commands(3);
            Ok(InitStep::Done)
        } else {
            Ok(InitStep::Enter4ByteMode)
        }
    }

    /// Completes initialization once 4-byte address mode has been entered.
    pub fn finish_4byte_init(&mut self)
        requires
            old(self).wf(),
            old(self)@.erasable_sizes_bitmap == ERASABLE_SIZES_BITMAP,
        ensures
            final(self).wf(),
            final(self)@ == configured(old(self)@, 4),
    {
        self.set_commands(4);
    }

    fn set_commands(&mut self, addr_bytes: u8)
        requires
            old(self).erasable_sizes_bitmap == ERASABLE_SIZES_BITMAP,
        ensures
            final(self).wf(),
            final(self)@ == configured(old(self)@, addr_bytes),
    {
        self.read_cmd = SfCmd { opcode: OP_READ, addr_bytes, dummy_bytes: 0 };
        self.program_cmd = SfCmd { opcode: OP_PAGE_PROGRAM, addr_bytes, dummy_bytes: 0 };
        self.erase_4k_opcode = OP_ERASE_4K;
        self.erase_64k_opcode = OP_ERASE_64K;
        self.addr_mode_4b = addr_bytes == 4;
        self.initialized = true;
    }

    /// The flash size, the smallest erase size and the bitmap of erase sizes.
    pub fn geometry(&self) -> (r: Result<(usize, usize, u32), ErrorCode>)
        requires
            self.wf(),
        ensures
            !self@.initialized ==> r == Err::<(usize, usize, u32), ErrorCode>(
                ErrorCode::FLASH_GENERIC_NOT_INITIALIZED,
            ),
            self@.initialized && self@.size_bytes == 0 ==> r == Err::<(usize, usize, u32), ErrorCode>(
                ErrorCode::FLASH_GENERIC_NOT_INITIALIZED,
            ),
            self@.initialized && self@.size_bytes != 0 ==> r == Ok::<(usize, usize, u32), ErrorCode>(
                (
                    self@.size_bytes as usize,
                    pow2(trailing_zeros32(self@.erasable_sizes_bitmap)) as usize,
                    self@.erasable_sizes_bitmap,
                ),
            ),
    {
        if !self.initialized {
            return Err(ErrorCode::FLASH_GENERIC_NOT_INITIALIZED);
        }
        let bitmap = self.erasable_sizes_bitmap;
        let shift = trailing_zeros(bitmap);
        assert(shift == 12) by {
            reveal_with_fuel(trailing_zeros32, 14);
        }
        proof {
            lemma_usize_pow2_no_overflow(shift as nat);
            lemma_usize_shl_is_mul(1, shift as usize);
        }
        let page_size = 1usize << shift as usize;
        if self.size_bytes == 0 {
            return Err(ErrorCode::FLASH_GENERIC_NOT_INITIALIZED);
        }
        Ok((self.size_bytes, page_size, bitmap))
    }

    /// The command that reads `len` bytes at `offset`: `None` when there is
    /// nothing to read, an error when the driver is not initialized or the
    /// range passes the end of the flash.  The read command's dummy bytes,
    /// as zeros, follow the address as far as the 5-byte prefix allows.
    pub fn read_command(&self, offset: u32, len: usize) -> (r: Result<Option<Vec<u8>>, ErrorCode>)
        requires
            self.wf(),
        ensures
            !self@.initialized ==> r == Err::<Option<Vec<u8>>, ErrorCode>(
                ErrorCode::FLASH_GENERIC_NOT_INITIALIZED,
            ),
            self@.initialized && len == 0 ==> r == Ok::<Option<Vec<u8>>, ErrorCode>(None),
            self@.initialized && len != 0 && offset + len > self@.size_bytes ==> r == Err::<
                Option<Vec<u8>>,
                ErrorCode,
            >(ErrorCode::FLASH_GENERIC_ADDR_OUT_OF_BOUNDS),
            self@.initialized && len != 0 && offset + len <= self@.size_bytes ==> (r matches Ok(
                Some(cmd),
            ) && cmd@ == read_prefix(self@.read_cmd, offset)),
    {
        if !self.initialized {
            return Err(ErrorCode::FLASH_GENERIC_NOT_INITIALIZED);
        }
        if len == 0 {
            return Ok(None);
        }
        let start = offset as usize;
        if start > usize::MAX - len || start + len > self.size_bytes {
            return Err(ErrorCode::FLASH_GENERIC_ADDR_OUT_OF_BOUNDS);
        }
        let (mut prefix, mut n) = format_cmd_prefix(
            self.read_cmd.opcode,
            offset,
            self.read_cmd.addr_bytes,
        );
        let ghost p = cmd_prefix(self.read_cmd.opcode, offset, self.read_cmd.addr_bytes);
        let mut i: u8 = 0;
        while i < self.read_cmd.dummy_bytes
            invariant
                i <= self.read_cmd.dummy_bytes,
                prefix@ == p.0,
                p.0.len() == 5,
                p.1 == 4 || p.1 == 5,
                p.1 == 4 ==> p.0[4] == 0,
                n == (if p.1 + i <= 5 {
                    p.1 + i
                } else {
                    5
                }),
            decreases self.read_cmd.dummy_bytes - i,
        {
            if n < 5 {
                prefix[n] = 0;
                n = n + 1;
                assert(prefix@ =~= p.0);
            }
            i = i + 1;
        }
        Ok(Some(prefix_bytes(&prefix, n)))
    }

    /// The command that erases `size` bytes at `offset`: an error when the
    /// driver is not initialized, the address is not aligned to the size,
    /// the range passes the end of the flash, or the size is neither 4 KiB
    /// nor 64 KiB.
    pub fn erase_command(&self, offset: u32, size: usize) -> (r: Result<Vec<u8>, ErrorCode>)
        requires
            self.wf(),
            is_pow2_usize(size),
        ensures
            match (r, erase_result(self@, offset, size)) {
                (Ok(cmd), Ok(c)) => cmd@ == c,
                (Err(e), Err(f)) => e == f,
                _ => false,
            },
    {
        if !self.initialized {
            return Err(ErrorCode::FLASH_GENERIC_NOT_INITIALIZED);
        }
        proof {
            let k = choose|k: nat| k < usize::BITS && pow2(k) == size;
            lemma_pow2_pos(k);
        }
        let start = offset as usize;
        if start % size != 0 {
            return Err(ErrorCode::FLASH_GENERIC_ERASE_INVALID_ADDR);
        }
        if start > usize::MAX - size || start + size > self.size_bytes {
            return Err(ErrorCode::FLASH_GENERIC_ADDR_OUT_OF_BOUNDS);
        }
        let opcode = if size == 0x1000 {
            self.erase_4k_opcode
        } else if size == 0x1_0000 {
            self.erase_64k_opcode
        } else {
            return Err(ErrorCode::FLASH_GENERIC_ERASE_INVALID_SIZE);
        };
        let addr_bytes: u8 = if self.addr_mode_4b {
            4
        } else {
            3
        };
        let (prefix, n) = format_cmd_prefix(opcode, offset, addr_bytes);
        Ok(prefix_bytes(&prefix, n))
    }

    /// The pieces in which `len` bytes are programmed at `start`: none when
    /// there is nothing to program, an error when the driver is not
    /// initialized; otherwise one piece per part of the data that lies in
    /// one program window, each with the page program command for its
    /// address.
    pub fn program_plan(&self, start: u32, len: usize) -> (r: Result<Vec<ProgramChunk>, ErrorCode>)
        requires
            self.wf(),
            self@.initialized ==> start + len <= u32::MAX,
        ensures
            !self@.initialized ==> r == Err::<Vec<ProgramChunk>, ErrorCode>(
                ErrorCode::FLASH_GENERIC_NOT_INITIALIZED,
            ),
            self@.initialized ==> (r matches Ok(chunks) && {
                let pieces = program_pieces(start as int, 0, len as int);
                &&& chunks@.len() == pieces.len()
                &&& forall|i: int|
                    0 <= i < pieces.len() ==> {
                        let p = cmd_prefix(
                            self@.program_cmd.opcode,
                            pieces[i].0 as u32,
                            self@.program_cmd.addr_bytes,
                        );
                        &&& #[trigger] chunks@[i].data_start == pieces[i].1
                        &&& chunks@[i].data_len == pieces[i].2
                        &&& chunks@[i].prefix@ == p.0.take(p.1 as int)
                    }
            }),
    {
        if !self.initialized {
            return Err(ErrorCode::FLASH_GENERIC_NOT_INITIALIZED);
        }
        let mut chunks: Vec<ProgramChunk> = Vec::new();
        let mut addr = start;
        let mut pos: usize = 0;
        let ghost mut done: Seq<(int, int, int)> = Seq::empty();
        while pos < len
            invariant
                pos <= len,
                addr == start + pos,
                start + len <= u32::MAX,
                done + program_pieces(addr as int, pos as int, len - pos) == program_pieces(
                    start as int,
                    0,
                    len as int,
                ),
                chunks@.len() == done.len(),
                forall|i: int|
                    0 <= i < done.len() ==> {
                        let p = cmd_prefix(
                            self.program_cmd.opcode,
                            done[i].0 as u32,
                            self.program_cmd.addr_bytes,
                        );
                        &&& #[trigger] chunks@[i].data_start == done[i].1
                        &&& chunks@[i].data_len == done[i].2
                        &&& chunks@[i].prefix@ == p.0.take(p.1 as int)
                    },
            decreases len - pos,
        {
            let remaining = len - pos;
            let room = PROGRAM_WINDOW_SIZE - (addr % 256) as usize;
            let n = if remaining <= room {
                remaining
            } else {
                room
            };
            let (prefix, plen) = format_cmd_prefix(
                self.program_cmd.opcode,
                addr,
                self.program_cmd.addr_bytes,
            );
            chunks.push(
                ProgramChunk { prefix: prefix_bytes(&prefix, plen), data_start: pos, data_len: n },
            );
            proof {
                let piece = (addr as int, pos as int, n as int);
                assert(program_pieces(addr as int, pos as int, remaining as int) == seq![piece]
                    + program_pieces(addr + n, pos + n, remaining - n));
                assert(done.push(piece) + program_pieces(addr + n, pos + n, remaining - n)
                    =~= done + program_pieces(addr as int, pos as int, remaining as int));
                done = done.push(piece);
            }
            addr = addr + n as u32;
            pos = pos + n;
        }
        assert(done + program_pieces(addr as int, pos as int, 0) =~= done);
        Ok(chunks)
    }

    /// Whether the driver has been initialized.
    pub fn initialized(&self) -> (r: bool)
        ensures
            r == self@.initialized,
    {
        self.initialized
    }
}

} // verus!
