//! Reading the SFDP space: the headers, then the parameter tables they point to.
use vstd::prelude::*;

use crate::error::ErrorCode;
use crate::sfdp::header::{
    FunctionSpecificParameterTableIdAssignments, ParameterHeader, SfdpHeader, HEADER_LEN,
};
use crate::sfdp::table::{BasicFlashParameterTable, HeaderAndTable, _4BInstructionTable};

verus! {

/// Whether `len` bytes can be read from `image` at `start`.
pub open spec fn readable(image: Seq<u8>, start: int, len: int) -> bool {
    0 <= start && start + len <= image.len()
}

/// The byte offset of the parameter header with the given index.
pub open spec fn parameter_header_offset(index: int) -> int {
    HEADER_LEN * (index + 1)
}

/// The parameter header with the given index, as laid out in `image`.
pub open spec fn parameter_header_at(image: Seq<u8>, index: int) -> ParameterHeader {
    ParameterHeader::decode(image, parameter_header_offset(index))
}

/// Whether the parameter header with the given index can be read, has major
/// revision 1 and describes the table `id`.
pub open spec fn header_usable(image: Seq<u8>, index: int, id: u16) -> bool {
    &&& readable(image, parameter_header_offset(index), HEADER_LEN as int)
    &&& parameter_header_at(image, index).major_rev == 1
    &&& parameter_header_at(image, index).id() == id
}

/// Among the first `count` parameter headers, the last usable one for the
/// table `id`.
pub open spec fn chosen_header(image: Seq<u8>, count: nat, id: u16) -> Option<ParameterHeader>
    decreases count,
{
    if count == 0 {
        None
    } else if header_usable(image, count - 1, id) {
        Some(parameter_header_at(image, count - 1))
    } else {
        chosen_header(image, (count - 1) as nat, id)
    }
}

/// Among the first `count` parameter headers, the header chosen for the
/// table `id` is the last usable one: it is one of them, it is usable, and
/// no later one among them is; no header is chosen only when none of them is
/// usable. In particular, when the last of them is usable it is the one
/// chosen.
pub proof fn lemma_last_usable_header_chosen(image: Seq<u8>, count: nat, id: u16)
    ensures
        match chosen_header(image, count, id) {
            Some(h) => exists|i: int|
                #![trigger header_usable(image, i, id)]
                {
                    &&& 0 <= i < count
                    &&& header_usable(image, i, id)
                    &&& h == parameter_header_at(image, i)
                    &&& forall|j: int| i < j < count ==> !#[trigger] header_usable(image, j, id)
                },
            None => forall|j: int| 0 <= j < count ==> !#[trigger] header_usable(image, j, id),
        },
        count > 0 && header_usable(image, count - 1, id) ==> chosen_header(image, count, id) == Some(
            parameter_header_at(image, count - 1),
        ),
    decreases count,
{
    if count > 0 {
        lemma_last_usable_header_chosen(image, (count - 1) as nat, id);
        if header_usable(image, count - 1, id) {
            assert(header_usable(image, count - 1, id));
        } else {
            match chosen_header(image, (count - 1) as nat, id) {
                Some(h) => {
                    let i = choose|i: int|
                        #![trigger header_usable(image, i, id)]
                        {
                            &&& 0 <= i < count - 1
                            &&& header_usable(image, i, id)
                            &&& h == parameter_header_at(image, i)
                            &&& forall|j: int|
                                i < j < count - 1 ==> !#[trigger] header_usable(image, j, id)
                        };
                    assert(forall|j: int| i < j < count ==> !#[trigger] header_usable(image, j, id));
                },
                None => {},
            }
        }
    }
}

/// What opening `image` gives: the error of the first check that fails, or
/// the headers of the basic flash table and of the 4-byte address
/// instruction table that will be used.
pub open spec fn open_result(image: Seq<u8>) -> Result<
    (Option<ParameterHeader>, Option<ParameterHeader>),
    ErrorCode,
> {
    if !readable(image, 0, HEADER_LEN as int) {
        Err(ErrorCode::IO_READ_OUT_OF_BOUNDS)
    } else if SfdpHeader::decode(image, 0).sig.0 != 0x50444653 {
        Err(ErrorCode::FLASH_GENERIC_SFDP_INVALID_SIGNATURE)
    } else if SfdpHeader::decode(image, 0).major_rev != 1 {
        Err(ErrorCode::FLASH_GENERIC_SFDP_UNSUPPORTED_HEADER_MAJOR_REV)
    } else {
        let count = (SfdpHeader::decode(image, 0).num_parameter_header + 1) as nat;
        Ok(
            (
                chosen_header(image, count, 0xFF00),
                chosen_header(image, count, 0xFF84),
            ),
        )
    }
}

/// The bytes of the table that `header` points to, for a table of `size`
/// bytes of which at least `min_len` must be present: the bytes the header
/// covers, up to `size`, followed by zeros up to `size`.
pub open spec fn table_bytes(
    image: Seq<u8>,
    header: Option<ParameterHeader>,
    size: nat,
    min_len: nat,
) -> Result<Seq<u8>, ErrorCode> {
    match header {
        None => Err(ErrorCode::FLASH_GENERIC_SFDP_NO_VALID_PARAMETER_HEADER_FOUND),
        Some(h) => {
            let n = if h.len_in_dwords * 4 <= size {
                h.len_in_dwords * 4
            } else {
                size as int
            };
            if n < min_len {
                Err(ErrorCode::FLASH_GENERIC_SFDP_PARAMETERS_TOO_SHORT)
            } else if !readable(image, h.ptr.value() as int, n) {
                Err(ErrorCode::IO_READ_OUT_OF_BOUNDS)
            } else {
                Ok(
                    image.subrange(h.ptr.value() as int, h.ptr.value() + n) + Seq::new(
                        (size - n) as nat,
                        |i: int| 0u8,
                    ),
                )
            }
        },
    }
}

/// The number of leading SFDP bytes that opening the space and reading its
/// basic flash parameter table look at, as far as the leading bytes already
/// known, `prefix`, tell: the SFDP header; then, if it is valid, all the
/// parameter headers; then the part of the basic flash table that the chosen
/// header covers.
pub open spec fn bytes_needed(prefix: Seq<u8>) -> nat {
    if prefix.len() < HEADER_LEN {
        HEADER_LEN as nat
    } else {
        let h = SfdpHeader::decode(prefix, 0);
        let headers_end = (HEADER_LEN * (h.num_parameter_header + 2)) as nat;
        if h.sig.0 != 0x50444653 || h.major_rev != 1 {
            HEADER_LEN as nat
        } else if prefix.len() < headers_end {
            headers_end
        } else {
            match chosen_header(prefix, (h.num_parameter_header + 1) as nat, 0xFF00) {
                None => headers_end,
                Some(b) => {
                    let n = if b.len_in_dwords * 4 <= 92 {
                        b.len_in_dwords * 4
                    } else {
                        92
                    };
                    if b.ptr.value() + n <= headers_end {
                        headers_end
                    } else {
                        (b.ptr.value() + n) as nat
                    }
                },
            }
        }
    }
}

/// The number of leading SFDP bytes needed, given the ones read so far.
pub fn sfdp_bytes_needed(prefix: &[u8]) -> (r: usize)
    ensures
        r == bytes_needed(prefix@),
{
    if prefix.len() < HEADER_LEN {
        return HEADER_LEN;
    }
    let h = SfdpHeader::read_from(prefix, 0);
    let headers_end = HEADER_LEN * (h.num_parameter_header as usize + 2);
    if !h.sig.is_valid() || h.major_rev != 1 {
        return HEADER_LEN;
    }
    if prefix.len() < headers_end {
        return headers_end;
    }
    let reader = SfdpReader { reader: prefix, basic_flash_header: None, _4b_instructions_header: None };
    let (basic, _) = reader.choose_headers(h.num_parameter_header as u16 + 1);
    match basic {
        None => headers_end,
        Some(b) => {
            let covered = b.len_in_dwords as usize * 4;
            let n = if covered <= 92 {
                covered
            } else {
                92
            };
            let end = b.ptr.as_usize() + n;
            if end <= headers_end {
                headers_end
            } else {
                end
            }
        },
    }
}

/// Opening the same leading headers gives the same chosen header.
proof fn lemma_chosen_header_prefix(prefix: Seq<u8>, full: Seq<u8>, count: nat, id: u16)
    requires
        prefix.len() <= full.len(),
        prefix == full.take(prefix.len() as int),
        HEADER_LEN * (count + 1) <= prefix.len(),
    ensures
        chosen_header(prefix, count, id) == chosen_header(full, count, id),
    decreases count,
{
    if count > 0 {
        let off = parameter_header_offset(count - 1);
        assert(parameter_header_at(prefix, count - 1) == parameter_header_at(full, count - 1));
        lemma_chosen_header_prefix(prefix, full, (count - 1) as nat, id);
    }
}

/// Reading the bytes that `sfdp_bytes_needed` asks for is enough: opening
/// them and reading the basic flash parameter table gives what opening the
/// whole SFDP space and reading the table from it gives.
pub proof fn lemma_needed_bytes_suffice(prefix: Seq<u8>, full: Seq<u8>)
    requires
        prefix.len() <= full.len(),
        prefix == full.take(prefix.len() as int),
        bytes_needed(prefix) <= prefix.len(),
    ensures
        open_result(prefix) == open_result(full),
        open_result(prefix) matches Ok((basic, _)) ==> table_bytes(prefix, basic, 92, 36)
            == table_bytes(full, basic, 92, 36),
{
    assert(SfdpHeader::decode(prefix, 0) == SfdpHeader::decode(full, 0));
    let h = SfdpHeader::decode(prefix, 0);
    if h.sig.0 == 0x50444653 && h.major_rev == 1 {
        let count = (h.num_parameter_header + 1) as nat;
        lemma_chosen_header_prefix(prefix, full, count, 0xFF00);
        lemma_chosen_header_prefix(prefix, full, count, 0xFF84);
        if let Some(b) = chosen_header(prefix, count, 0xFF00) {
            let n = if b.len_in_dwords * 4 <= 92 {
                b.len_in_dwords * 4
            } else {
                92
            };
            if n >= 36 {
                assert(prefix.subrange(b.ptr.value() as int, b.ptr.value() + n) =~= full.subrange(
                    b.ptr.value() as int,
                    b.ptr.value() + n,
                ));
            }
        }
    }
}

/// A reader of the SFDP space of a flash device, held as its bytes.
pub struct SfdpReader<'a> {
    reader: &'a [u8],
    basic_flash_header: Option<ParameterHeader>,
    _4b_instructions_header: Option<ParameterHeader>,
}

impl<'a> SfdpReader<'a> {
    /// The SFDP bytes being read.
    pub closed spec fn image(&self) -> Seq<u8> {
        self.reader@
    }

    /// The parameter header used for the basic flash table.
    pub closed spec fn basic_header(&self) -> Option<ParameterHeader> {
        self.basic_flash_header
    }

    /// The parameter header used for the 4-byte address instruction table.
    pub closed spec fn four_byte_header(&self) -> Option<ParameterHeader> {
        self._4b_instructions_header
    }

    /// Opens the SFDP space: checks its header, then walks the parameter
    /// headers and keeps, for each known table, the last usable one.
    pub fn new(reader: &'a [u8]) -> (r: Result<Self, ErrorCode>)
        ensures
            match (r, open_result(reader@)) {
                (Ok(s), Ok((basic, four_byte))) => {
                    &&& s.image() == reader@
                    &&& s.basic_header() == basic
                    &&& s.four_byte_header() == four_byte
                },
                (Err(e), Err(f)) => e == f,
                _ => false,
            },
    {
        let mut sfdp_reader = SfdpReader {
            reader,
            basic_flash_header: None,
            _4b_instructions_header: None,
        };
        match sfdp_reader.parse_headers() {
            Ok(()) => Ok(sfdp_reader),
            Err(e) => Err(e),
        }
    }

    /// Reads the SFDP header.
    pub fn header(&mut self) -> (r: Result<SfdpHeader, ErrorCode>)
        ensures
            *final(self) == *old(self),
            r == (if readable(old(self).image(), 0, HEADER_LEN as int) {
                Ok::<SfdpHeader, ErrorCode>(SfdpHeader::decode(old(self).image(), 0))
            } else {
                Err(ErrorCode::IO_READ_OUT_OF_BOUNDS)
            }),
    {
        if self.reader.len() < HEADER_LEN {
            return Err(ErrorCode::IO_READ_OUT_OF_BOUNDS);
        }
        Ok(SfdpHeader::read_from(self.reader, 0))
    }

    /// Reads the parameter header with the given index.
    fn read_parameter_header(&self, index: u8) -> (r: Result<ParameterHeader, ErrorCode>)
        ensures
            r == (if readable(self.image(), parameter_header_offset(index as int), HEADER_LEN as int) {
                Ok::<ParameterHeader, ErrorCode>(parameter_header_at(self.image(), index as int))
            } else {
                Err(ErrorCode::IO_READ_OUT_OF_BOUNDS)
            }),
    {
        let offset = HEADER_LEN * (index as usize + 1);
        if offset > self.reader.len() || self.reader.len() - offset < HEADER_LEN {
            return Err(ErrorCode::IO_READ_OUT_OF_BOUNDS);
        }
        Ok(ParameterHeader::read_from(self.reader, offset))
    }

    /// Reads the parameter header with the given index.
    pub fn parameter_header(&mut self, index: u8) -> (r: Result<ParameterHeader, ErrorCode>)
        ensures
            *final(self) == *old(self),
            r == (if readable(
                old(self).image(),
                parameter_header_offset(index as int),
                HEADER_LEN as int,
            ) {
                Ok::<ParameterHeader, ErrorCode>(parameter_header_at(old(self).image(), index as int))
            } else {
                Err(ErrorCode::IO_READ_OUT_OF_BOUNDS)
            }),
    {
        self.read_parameter_header(index)
    }

    fn parse_headers(&mut self) -> (r: Result<(), ErrorCode>)
        requires
            old(self).basic_header() is None,
            old(self).four_byte_header() is None,
        ensures
            final(self).image() == old(self).image(),
            match (r, open_result(old(self).image())) {
                (Ok(()), Ok((basic, four_byte))) => {
                    &&& final(self).basic_header() == basic
                    &&& final(self).four_byte_header() == four_byte
                },
                (Err(e), Err(f)) => e == f,
                _ => false,
            },
    {
        let sfdp_header = self.header()?;
        if !sfdp_header.sig.is_valid() {
            return Err(ErrorCode::FLASH_GENERIC_SFDP_INVALID_SIGNATURE);
        }
        if sfdp_header.major_rev != 1 {
            return Err(ErrorCode::FLASH_GENERIC_SFDP_UNSUPPORTED_HEADER_MAJOR_REV);
        }
        let (basic, four_byte) = self.choose_headers(sfdp_header.num_parameter_header as u16 + 1);
        self.basic_flash_header = basic;
        self._4b_instructions_header = four_byte;
        Ok(())
    }

    /// Walks the first `count` parameter headers and returns, for the basic
    /// flash table and the 4-byte address instruction table, the last usable
    /// header; headers that cannot be read, that have another major revision
    /// or that describe another table are skipped.
    fn choose_headers(&self, count: u16) -> (r: (Option<ParameterHeader>, Option<ParameterHeader>))
        requires
            count <= 0x100,
        ensures
            r.0 == chosen_header(self.image(), count as nat, 0xFF00),
            r.1 == chosen_header(self.image(), count as nat, 0xFF84),
    {
        let mut basic: Option<ParameterHeader> = None;
        let mut four_byte: Option<ParameterHeader> = None;
        let mut index: u16 = 0;
        while index < count
            invariant
                index <= count <= 0x100,
                basic == chosen_header(self.image(), index as nat, 0xFF00),
                four_byte == chosen_header(self.image(), index as nat, 0xFF84),
            decreases count - index,
        {
            if let Ok(parameter_header) = self.read_parameter_header(index as u8) {
                if parameter_header.major_rev == 1 {
                    let id = parameter_header.parameter_id();
                    if id.0 == FunctionSpecificParameterTableIdAssignments::BASIC_FLASH {
                        basic = Some(parameter_header);
                    } else if id.0
                        == FunctionSpecificParameterTableIdAssignments::_4B_ADDRESS_INSTRUCTION_TABLE {
                        four_byte = Some(parameter_header);
                    }
                }
            }
            index = index + 1;
        }
        (basic, four_byte)
    }

    /// Reads the table that `header` points to into a zeroed buffer of
    /// `size` bytes, failing if fewer than `min_len` bytes are described.
    fn read_table_common(&self, header: Option<ParameterHeader>, size: usize, min_len: usize) -> (r:
        Result<Vec<u8>, ErrorCode>)
        requires
            size <= 0x1000,
        ensures
            match (r, table_bytes(self.image(), header, size as nat, min_len as nat)) {
                (Ok(v), Ok(s)) => v@ == s,
                (Err(e), Err(f)) => e == f,
                _ => false,
            },
    {
        let parameter_header = match header {
            None => return Err(ErrorCode::FLASH_GENERIC_SFDP_NO_VALID_PARAMETER_HEADER_FOUND),
            Some(h) => h,
        };
        let covered = parameter_header.len_in_dwords as usize * 4;
        let bytes_len = if covered <= size {
            covered
        } else {
            size
        };
        if bytes_len < min_len {
            return Err(ErrorCode::FLASH_GENERIC_SFDP_PARAMETERS_TOO_SHORT);
        }
        let start = parameter_header.ptr.as_usize();
        if start > self.reader.len() || self.reader.len() - start < bytes_len {
            return Err(ErrorCode::IO_READ_OUT_OF_BOUNDS);
        }
        let mut target: Vec<u8> = Vec::new();
        let mut i: usize = 0;
        while i < size
            invariant
                i <= size,
                bytes_len <= size,
                start + bytes_len <= self.reader.len(),
                target@.len() == i,
                forall|j: int|
                    0 <= j < i ==> target@[j] == (if j < bytes_len {
                        self.reader@[start + j]
                    } else {
                        0u8
                    }),
            decreases size - i,
        {
            if i < bytes_len {
                target.push(self.reader[start + i]);
            } else {
                target.push(0);
            }
            i = i + 1;
        }
        let ghost expected = self.image().subrange(start as int, start + bytes_len) + Seq::new(
            (size - bytes_len) as nat,
            |k: int| 0u8,
        );
        assert(target@ =~= expected);
        Ok(target)
    }

    /// Reads the basic flash parameter table.
    pub fn basic_flash_parameters(&mut self) -> (r: Result<
        HeaderAndTable<BasicFlashParameterTable>,
        ErrorCode,
    >)
        ensures
            *final(self) == *old(self),
            match (r, table_bytes(old(self).image(), old(self).basic_header(), 92, 36)) {
                (Ok(t), Ok(s)) => {
                    &&& Some(t.header) == old(self).basic_header()
                    &&& t.table == BasicFlashParameterTable::decode(s)
                },
                (Err(e), Err(f)) => e == f,
                _ => false,
            },
    {
        let bytes = self.read_table_common(
            self.basic_flash_header,
            BasicFlashParameterTable::LEN,
            BasicFlashParameterTable::MIN_LEN,
        )?;
        let header = match self.basic_flash_header {
            Some(h) => h,
            None => return Err(ErrorCode::FLASH_GENERIC_SFDP_NO_VALID_PARAMETER_HEADER_FOUND),
        };
        Ok(HeaderAndTable { header, table: BasicFlashParameterTable::read_from(bytes.as_slice()) })
    }

    /// Reads the 4-byte address instruction table.
    pub fn _4b_instructions_parameters(&mut self) -> (r: Result<
        HeaderAndTable<_4BInstructionTable>,
        ErrorCode,
    >)
        ensures
            *final(self) == *old(self),
            match (r, table_bytes(old(self).image(), old(self).four_byte_header(), 8, 8)) {
                (Ok(t), Ok(s)) => {
                    &&& Some(t.header) == old(self).four_byte_header()
                    &&& t.table == _4BInstructionTable::decode(s)
                },
                (Err(e), Err(f)) => e == f,
                _ => false,
            },
    {
        let bytes = self.read_table_common(
            self._4b_instructions_header,
            _4BInstructionTable::LEN,
            _4BInstructionTable::LEN,
        )?;
        let header = match self._4b_instructions_header {
            Some(h) => h,
            None => return Err(ErrorCode::FLASH_GENERIC_SFDP_NO_VALID_PARAMETER_HEADER_FOUND),
        };
        Ok(HeaderAndTable { header, table: _4BInstructionTable::read_from(bytes.as_slice()) })
    }

    /// The parameter header used for the basic flash table, if any.
    pub fn basic_flash_header(&self) -> (r: Option<ParameterHeader>)
        ensures
            r == self.basic_header(),
    {
        self.basic_flash_header
    }

    /// The parameter header used for the 4-byte address instruction table,
    /// if any.
    pub fn _4b_instructions_header(&self) -> (r: Option<ParameterHeader>)
        ensures
            r == self.four_byte_header(),
    {
        self._4b_instructions_header
    }
}

} // verus!
