//! The payload handling of an SPI TPM bridge and of a mock TPM service.
//!
//! The bridge watches TPM accesses on the SPI device: a write to the TPM data
//! FIFO carries a command that is forwarded to the TPM service, and the
//! service's response is queued in the read FIFO for the host to read.
use vstd::prelude::*;

verus! {

/// The TPM register address of the data FIFO.
pub const TPM_DATA_FIFO_ADDR: u32 = 0x024;
/// The word offset of the write FIFO in the SPI device's ingress buffer.
pub const TPM_WRITE_START_WORDS: usize = 0x60;
/// The length in words of the write FIFO.
pub const TPM_WRITE_LEN_WORDS: usize = 16;
/// The largest transfer of one TPM access, in bytes.
pub const TPM_MAX_TRANSFER: usize = 64;

/// What a TPM access asks of the bridge.
#[derive(Clone, Copy, Debug, PartialEq, Eq, Structural)]
pub enum TpmAccess {
    /// The host writes `size` bytes to the data FIFO.
    FifoWrite { size: usize },
    /// The host reads from the data FIFO.
    FifoRead,
    /// An access to another register, which the bridge ignores.
    Ignored,
}

/// The access described by the command byte `cmd` at register `addr`: bit 7
/// of the command is set for reads, and its low six bits hold the transfer
/// size minus one.
pub open spec fn tpm_access(cmd: u8, addr: u32) -> TpmAccess {
    if addr != TPM_DATA_FIFO_ADDR {
        TpmAccess::Ignored
    } else if cmd >= 0x80 {
        TpmAccess::FifoRead
    } else {
        TpmAccess::FifoWrite { size: (cmd % 0x40 + 1) as usize }
    }
}

/// Decodes a TPM access from its command byte and register address.
pub fn decode_tpm_access(cmd: u8, addr: u32) -> (r: TpmAccess)
    ensures
        r == tpm_access(cmd, addr),
{
    let is_read = (cmd & 0x80) != 0;
    assert((cmd & 0x80 != 0) == (cmd >= 0x80) && cmd & 0x3F == cmd % 0x40) by (bit_vector);
    let size = (cmd & 0x3F) as usize + 1;
    if addr != TPM_DATA_FIFO_ADDR {
        TpmAccess::Ignored
    } else if is_read {
        TpmAccess::FifoRead
    } else {
        TpmAccess::FifoWrite { size }
    }
}

/// Only the data FIFO register (0x024) is served: every access to another
/// register is ignored, whether bit 7 of the command (the read bit) is set
/// or not; an access to the data FIFO is a read exactly when the read bit is
/// set, and otherwise a write of `(cmd & 0x3F) + 1` bytes.
pub proof fn lemma_tpm_access_decoding(cmd: u8, addr: u32)
    ensures
        addr != 0x024 ==> tpm_access(cmd, addr) == TpmAccess::Ignored,
        (tpm_access(cmd, addr) == TpmAccess::FifoRead) <==> (addr == 0x024 && cmd & 0x80 != 0),
        addr == 0x024 && cmd & 0x80 == 0 ==> tpm_access(cmd, addr) == (TpmAccess::FifoWrite {
            size: ((cmd & 0x3F) + 1) as usize,
        }),
        tpm_access(cmd, addr) matches TpmAccess::FifoWrite { size } ==> 1 <= size <= TPM_MAX_TRANSFER,
{
    assert((cmd & 0x80 == 0) == (cmd < 0x80) && cmd & 0x3F == cmd % 0x40) by (bit_vector);
}

/// The number of FIFO words that hold a write of `size` bytes.
pub fn payload_words(size: usize) -> (r: usize)
    requires
        size <= TPM_MAX_TRANSFER,
    ensures
        r == (size + 3) / 4,
        r <= TPM_WRITE_LEN_WORDS,
{
    (size + 3) / 4
}

/// Byte `j` (least significant first) of `word`.
pub open spec fn word_byte(word: u32, j: int) -> u8 {
    if j == 0 {
        (word % 0x100) as u8
    } else if j == 1 {
        (word / 0x100 % 0x100) as u8
    } else if j == 2 {
        (word / 0x1_0000 % 0x100) as u8
    } else {
        (word / 0x100_0000) as u8
    }
}

/// The command bytes of a write of `size` bytes, from the FIFO words that
/// hold it: the words' little-endian bytes, in order, up to `size`.
pub fn collect_write_payload(words: &[u32], size: usize) -> (r: Vec<u8>)
    requires
        words@.len() <= TPM_WRITE_LEN_WORDS,
        size <= 4 * words@.len(),
    ensures
        r@.len() == size,
        forall|k: int| 0 <= k < size ==> r@[k] == word_byte(#[trigger] words@[k / 4], k % 4),
{
    let mut r: Vec<u8> = Vec::new();
    let mut i: usize = 0;
    while i < words.len()
        invariant
            i <= words@.len() <= TPM_WRITE_LEN_WORDS,
            size <= 4 * words@.len(),
            r@.len() == if 4 * i <= size {
                4 * i
            } else {
                size as int
            },
            forall|k: int| 0 <= k < r@.len() ==> r@[k] == word_byte(#[trigger] words@[k / 4], k % 4),
        decreases words@.len() - i,
    {
        let offset = 4 * i;
        if offset < size {
            let word = words[i];
            let bytes = [
                (word % 0x100) as u8,
                (word / 0x100 % 0x100) as u8,
                (word / 0x1_0000 % 0x100) as u8,
                (word / 0x100_0000) as u8,
            ];
            let mut j: usize = 0;
            while j < 4
                invariant
                    j <= 4,
                    offset == 4 * i,
                    i < words@.len(),
                    word == words@[i as int],
                    offset < size,
                    size <= 4 * words@.len(),
                    bytes@ == seq![word_byte(word, 0), word_byte(word, 1), word_byte(word, 2), word_byte(word, 3)],
                    r@.len() == if offset + j <= size {
                        offset + j
                    } else {
                        size as int
                    },
                    forall|k: int| 0 <= k < r@.len() ==> r@[k] == word_byte(#[trigger] words@[k / 4], k % 4),
                decreases 4 - j,
            {
                if offset + j < size {
                    r.push(bytes[j]);
                    assert((offset + j) / 4 == i && (offset + j) % 4 == j);
                }
                j = j + 1;
            }
        }
        i = i + 1;
    }
    r
}

/// The read FIFO words that queue the first `len` bytes of a response, one
/// byte per word.
pub fn response_fifo_words(resp: &[u8], len: usize) -> (r: Vec<u32>)
    requires
        len <= resp@.len(),
    ensures
        r@.len() == len,
        forall|k: int| 0 <= k < len ==> r@[k] == resp@[k] as u32,
{
    let mut r: Vec<u32> = Vec::new();
    let mut i: usize = 0;
    while i < len
        invariant
            i <= len <= resp@.len(),
            r@.len() == i,
            forall|k: int| 0 <= k < i ==> r@[k] == resp@[k] as u32,
        decreases len - i,
    {
        r.push(resp[i] as u32);
        i = i + 1;
    }
    r
}

/// The bytes of the write FIFO words `fifo`, each word least significant
/// byte first.
pub open spec fn fifo_bytes(fifo: Seq<u32>) -> Seq<u8> {
    Seq::new(4 * fifo.len(), |k: int| word_byte(fifo[k / 4], k % 4))
}

/// One turn of the bridge on the access `cmd` at `addr`, with the write
/// FIFO holding `fifo`, when the TPM service answers a request with
/// `answer` (`None` if the transaction failed): the request sent to the
/// service, if any, and the words queued in the read FIFO.
pub open spec fn bridge_turn(cmd: u8, addr: u32, fifo: Seq<u32>, answer: Option<Seq<u8>>) -> (
    Option<Seq<u8>>,
    Seq<u32>,
) {
    match tpm_access(cmd, addr) {
        TpmAccess::FifoWrite { size } => (
            Some(fifo_bytes(fifo).take(size as int)),
            match answer {
                Some(resp) => resp.map_values(|b: u8| b as u32),
                None => Seq::empty(),
            },
        ),
        _ => (None, Seq::empty()),
    }
}

/// The request that one turn of the bridge sends to the TPM service for
/// the access `cmd` at `addr`, with the write FIFO holding `fifo`.
pub fn bridge_request(cmd: u8, addr: u32, fifo: &[u32]) -> (r: Option<Vec<u8>>)
    requires
        fifo@.len() == TPM_WRITE_LEN_WORDS,
    ensures
        match (r, bridge_turn(cmd, addr, fifo@, None).0) {
            (Some(req), Some(s)) => req@ == s,
            (None, None) => true,
            _ => false,
        },
{
    match decode_tpm_access(cmd, addr) {
        TpmAccess::FifoWrite { size } => {
            let n = payload_words(size);
            let words = vstd::slice::slice_subrange(fifo, 0, n);
            let req = collect_write_payload(words, size);
            assert(req@ =~= fifo_bytes(fifo@).take(size as int)) by {
                assert forall|k: int| 0 <= k < size implies req@[k] == fifo_bytes(fifo@)[k] by {
                    assert(k / 4 < n);
                    assert(words@[k / 4] == fifo@[k / 4]);
                }
            }
            Some(req)
        },
        _ => None,
    }
}

/// One turn of the bridge: a write of `(cmd & 0x3F) + 1` bytes to the data
/// FIFO (address 0x024, read bit clear) sends exactly the first that many
/// bytes of the write FIFO, little-endian word by word, and queues the
/// service's answer in the read FIFO one byte per word, in order, or nothing
/// if the transaction failed; any other access sends and queues nothing.
pub proof fn lemma_bridge_turn(cmd: u8, addr: u32, fifo: Seq<u32>, answer: Option<Seq<u8>>)
    requires
        fifo.len() == TPM_WRITE_LEN_WORDS,
    ensures
        ({
            let (sent, queued) = bridge_turn(cmd, addr, fifo, answer);
            if addr == 0x024 && cmd & 0x80 == 0 {
                let size = (cmd & 0x3F) + 1;
                &&& sent == Some(
                    Seq::new(size as nat, |k: int| word_byte(fifo[k / 4], k % 4)),
                )
                &&& match answer {
                    Some(resp) => queued.len() == resp.len() && forall|k: int|
                        0 <= k < resp.len() ==> #[trigger] queued[k] == resp[k] as u32,
                    None => queued.len() == 0,
                }
            } else {
                sent is None && queued.len() == 0
            }
        }),
{
    assert((cmd & 0x80 == 0) == (cmd < 0x80) && cmd & 0x3F == cmd % 0x40) by (bit_vector);
    if addr == 0x024 && cmd & 0x80 == 0 {
        let size = (cmd & 0x3F) + 1;
        assert(fifo_bytes(fifo).take(size as int) =~= Seq::new(
            size as nat,
            |k: int| word_byte(fifo[k / 4], k % 4),
        ));
    }
}

/// The mock TPM's response to a command: the command itself, echoed back;
/// an empty command gets no response.
pub fn echo_response(cmd: &[u8]) -> (r: Option<Vec<u8>>)
    ensures
        cmd@.len() == 0 ==> r is None,
        cmd@.len() != 0 ==> (r matches Some(v) && v@ == cmd@),
{
    if cmd.len() == 0 {
        return None;
    }
    Some(vstd::slice::slice_to_vec(cmd))
}

} // verus!
