//! NVMe admin commands as the pass-through protocol takes them, and the chunked read of a
//! boot partition through its log page.

use vstd::arithmetic::div_mod::{lemma_basic_div, lemma_div_plus_one};
use vstd::arithmetic::power2::{lemma2_to64, lemma_pow2_strictly_increases, pow2};
use vstd::prelude::*;

use crate::efi::{EfiError, INVALID_PARAMETER, SUCCESS};

verus! {

pub const OPCODE_GET_LOG_PAGE: u8 = 0x02;

pub const OPCODE_IDENTIFY: u8 = 0x06;

pub const IDENTIFY_CNS_CONTROLLER: u32 = 0x01;

pub const IDENTIFY_BUFFER_BYTES: usize = 4096;

/// Where the Identify Controller data holds the maximum data transfer size (MDTS).
pub const ID_CTRL_OFFSET_MDTS: usize = 77;

pub const LID_BOOT_PARTITION: u32 = 0x15;

pub const CMD_FLAG_CDW10_VALID: u8 = 4;

pub const CMD_FLAG_CDW11_VALID: u8 = 8;

pub const CMD_FLAG_CDW12_VALID: u8 = 16;

pub const CMD_FLAG_CDW13_VALID: u8 = 32;

pub const QUEUE_TYPE_ADMIN: u8 = 0;

/// Timeouts in units of 100 ns.
pub const TIMEOUT_NS_5_SEC: u64 = 50_000_000;

pub const TIMEOUT_NS_10_SEC: u64 = 100_000_000;

/// The log page of a boot partition starts with this many header bytes.
pub const LID_BP_HEADER_BYTES: u64 = 16;

/// Lower bound for chunked log-page reads.
pub const READ_CHUNK_MIN: usize = 65536;

/// Upper bound for chunked log-page reads.
pub const READ_CHUNK_MAX: usize = 524288;

/// The chunk size when the transfer-size probe fails.
pub const READ_CHUNK_DEFAULT: usize = 65536;

/// An NVMe command.
#[derive(Debug, Clone, Copy, PartialEq, Eq, Structural)]
pub struct Command {
    pub cdw0: u32,
    pub flags: u8,
    pub nsid: u32,
    pub cdw2: u32,
    pub cdw3: u32,
    pub cdw10: u32,
    pub cdw11: u32,
    pub cdw12: u32,
    pub cdw13: u32,
    pub cdw14: u32,
    pub cdw15: u32,
}

impl Command {
    /// The command with every field zero.
    pub open spec fn zero() -> Command {
        Command {
            cdw0: 0,
            flags: 0,
            nsid: 0,
            cdw2: 0,
            cdw3: 0,
            cdw10: 0,
            cdw11: 0,
            cdw12: 0,
            cdw13: 0,
            cdw14: 0,
            cdw15: 0,
        }
    }
}

impl Default for Command {
    fn default() -> (command: Self)
        ensures
            command == Command::zero(),
    {
        Command {
            cdw0: 0,
            flags: 0,
            nsid: 0,
            cdw2: 0,
            cdw3: 0,
            cdw10: 0,
            cdw11: 0,
            cdw12: 0,
            cdw13: 0,
            cdw14: 0,
            cdw15: 0,
        }
    }
}

/// The completion of an NVMe command.
#[derive(Debug, Clone, Copy, PartialEq, Eq, Structural)]
pub struct Completion {
    pub dw0: u32,
    pub dw1: u32,
    pub dw2: u32,
    pub dw3: u32,
}

impl Default for Completion {
    fn default() -> (completion: Self)
        ensures
            completion == (Completion { dw0: 0, dw1: 0, dw2: 0, dw3: 0 }),
    {
        Completion { dw0: 0, dw1: 0, dw2: 0, dw3: 0 }
    }
}

/// What the pass-through call is handed besides its buffers.
#[derive(Debug, Clone, Copy, PartialEq, Eq, Structural)]
pub struct CommandPacket {
    pub command_timeout: u64,
    pub transfer_length: u32,
    pub metadata_length: u32,
    pub queue_type: u8,
    pub nvme_cmd: Command,
}

/// The request for the Identify Controller data.
pub fn identify_controller() -> (packet: CommandPacket)
    ensures
        packet == (CommandPacket {
            command_timeout: TIMEOUT_NS_5_SEC,
            transfer_length: 4096,
            metadata_length: 0,
            queue_type: QUEUE_TYPE_ADMIN,
            nvme_cmd: Command {
                cdw0: 0x06,
                cdw10: IDENTIFY_CNS_CONTROLLER,
                flags: CMD_FLAG_CDW10_VALID,
                ..Command::zero()
            },
        }),
{
    let mut nvme_cmd = Command::default();
    nvme_cmd.cdw0 = OPCODE_IDENTIFY as u32;
    nvme_cmd.cdw10 = IDENTIFY_CNS_CONTROLLER;
    nvme_cmd.flags = CMD_FLAG_CDW10_VALID;
    CommandPacket {
        command_timeout: TIMEOUT_NS_5_SEC,
        transfer_length: IDENTIFY_BUFFER_BYTES as u32,
        metadata_length: 0,
        queue_type: QUEUE_TYPE_ADMIN,
        nvme_cmd,
    }
}

/// The chunk size for a controller that reports `mdts`: no limit for zero, else that power
/// of two in pages of 4 KiB; within the bounds for chunked reads.
pub open spec fn chunk_for_mdts(mdts: u8) -> int {
    let limit = pow2(mdts as nat) * 4096;
    if mdts == 0 || limit > READ_CHUNK_MAX {
        READ_CHUNK_MAX as int
    } else if limit < READ_CHUNK_MIN {
        READ_CHUNK_MIN as int
    } else {
        limit as int
    }
}

/// Derive the largest log-page chunk from the Identify Controller data; `None` where the
/// request for it failed.
///
/// The controller's transfer limit is clamped to the bounds for chunked reads; a limit that
/// does not fit a machine word is above them.
pub fn probe_max_transfer(identify: Option<&[u8]>) -> (chunk: usize)
    requires
        identify matches Some(data) ==> data@.len() == IDENTIFY_BUFFER_BYTES,
    ensures
        chunk == match identify {
            Some(data) => chunk_for_mdts(data@[77]),
            None => READ_CHUNK_DEFAULT as int,
        },
        READ_CHUNK_MIN <= chunk <= READ_CHUNK_MAX,
        chunk % 4 == 0,
{
    let data = match identify {
        Some(data) => data,
        None => return READ_CHUNK_DEFAULT,
    };
    let mdts: u8 = data[ID_CTRL_OFFSET_MDTS];
    proof {
        lemma2_to64();
        if mdts > 7 {
            lemma_pow2_strictly_increases(7, mdts as nat);
        }
    }
    match mdts {
        1 => READ_CHUNK_MIN,
        2 => READ_CHUNK_MIN,
        3 => READ_CHUNK_MIN,
        4 => READ_CHUNK_MIN,
        5 => 131072,
        6 => 262144,
        _ => READ_CHUNK_MAX,
    }
}

// ---------------------------------------------------------------------------
// Log-page reads
// ---------------------------------------------------------------------------

/// One read of a boot partition's log page: the part of the destination that it fills and
/// the command that asks for it.
#[derive(Debug, Clone, Copy, PartialEq, Eq, Structural)]
pub struct LogPageRequest {
    pub offset: usize,
    pub length: usize,
    pub packet: CommandPacket,
}

/// The command that reads `length` bytes at `offset` of the image in boot partition `bp_id`.
///
/// The length goes as a zero-based count of dwords, its low half in CDW10 and its high half
/// in CDW11; the offset behind the log page's header goes in CDW12 and CDW13. The image
/// bytes land in the buffer without that header.
pub open spec fn log_page_packet(bp_id: u8, offset: int, length: int) -> CommandPacket {
    let dwords = (length / 4 - 1) % 0x1_0000_0000;
    let position = LID_BP_HEADER_BYTES + offset;
    CommandPacket {
        command_timeout: TIMEOUT_NS_10_SEC,
        transfer_length: (length % 0x1_0000_0000) as u32,
        metadata_length: 0,
        queue_type: QUEUE_TYPE_ADMIN,
        nvme_cmd: Command {
            cdw0: 0x02,
            flags: 60,
            cdw10: (dwords % 0x1_0000 * 0x1_0000 + bp_id % 0x80 * 0x100 + LID_BOOT_PARTITION)
                as u32,
            cdw11: (dwords / 0x1_0000) as u32,
            cdw12: (position % 0x1_0000_0000) as u32,
            cdw13: (position / 0x1_0000_0000) as u32,
            ..Command::zero()
        },
    }
}

/// Where a chunked read stands.
pub struct LogPageReadView {
    /// The boot partition.
    pub bp_id: u8,
    /// The largest length of one request.
    pub chunk: int,
    /// The length of the destination.
    pub len: int,
    /// How much of the destination was filled.
    pub done: int,
}

impl LogPageReadView {
    /// The length of the next request.
    pub open spec fn next_length(self) -> int {
        if self.len - self.done < self.chunk {
            self.len - self.done
        } else {
            self.chunk
        }
    }

    /// The next request, until the destination is full.
    pub open spec fn request(self) -> Option<LogPageRequest> {
        if self.done < self.len {
            Some(
                LogPageRequest {
                    offset: self.done as usize,
                    length: self.next_length() as usize,
                    packet: log_page_packet(self.bp_id, self.done, self.next_length()),
                },
            )
        } else {
            None
        }
    }

    /// The read after its request succeeded.
    pub open spec fn advanced(self) -> LogPageReadView {
        LogPageReadView { done: self.done + self.next_length(), ..self }
    }

    /// Sizes are whole dwords, the chunk is not empty, and the destination was not
    /// overrun.
    pub open spec fn valid(self) -> bool {
        &&& 4 <= self.chunk
        &&& self.chunk % 4 == 0
        &&& self.len % 4 == 0
        &&& 0 <= self.done <= self.len
        &&& self.done % 4 == 0
    }

    /// All requests that are left, if none of them fails.
    pub open spec fn requests(self) -> Seq<LogPageRequest>
        decreases self.len - self.done,
    {
        if self.valid() && self.done < self.len {
            seq![self.request()->0] + self.advanced().requests()
        } else {
            seq![]
        }
    }
}

/// A chunked read of a boot partition's image through its log page. The caller issues
/// [`Self::request`] and passes the status to [`Self::complete`] until no request is left.
#[derive(Debug, Clone, Copy)]
pub struct LogPageRead {
    bp_id: u8,
    chunk: usize,
    len: usize,
    done: usize,
}

impl View for LogPageRead {
    type V = LogPageReadView;

    closed spec fn view(&self) -> LogPageReadView {
        LogPageReadView {
            bp_id: self.bp_id,
            chunk: self.chunk as int,
            len: self.len as int,
            done: self.done as int,
        }
    }
}

/// Prepare to read the first `len` bytes of the image in boot partition `bp_id`, at most
/// `chunk_bytes` at a time.
///
/// Reads are issued in whole dwords, so a chunk below four bytes and sizes that are no
/// multiple of four are refused as an invalid parameter before any command is issued.
pub fn read_bp_via_log_page(bp_id: u8, chunk_bytes: usize, len: usize) -> (read: Result<
    LogPageRead,
    EfiError,
>)
    requires
        len <= isize::MAX,
    ensures
        match read {
            Ok(r) => chunk_bytes >= 4 && chunk_bytes % 4 == 0 && len % 4 == 0 && r@ == (
            LogPageReadView { bp_id, chunk: chunk_bytes as int, len: len as int, done: 0 }),
            Err(e) => !(chunk_bytes >= 4 && chunk_bytes % 4 == 0 && len % 4 == 0) && e.status
                == INVALID_PARAMETER,
        },
{
    if chunk_bytes < 4 || chunk_bytes % 4 != 0 || len % 4 != 0 {
        return Err(EfiError { status: INVALID_PARAMETER });
    }
    Ok(LogPageRead::new(bp_id, chunk_bytes, len))
}

impl LogPageRead {
    #[verifier::type_invariant]
    spec fn type_inv(self) -> bool {
        self@.valid() && self.len <= isize::MAX
    }

    /// A read of which nothing was done yet.
    pub(crate) fn new(bp_id: u8, chunk: usize, len: usize) -> (read: LogPageRead)
        requires
            4 <= chunk,
            chunk % 4 == 0,
            len % 4 == 0,
            len <= isize::MAX,
        ensures
            read@ == (LogPageReadView { bp_id, chunk: chunk as int, len: len as int, done: 0 }),
    {
        LogPageRead { bp_id, chunk, len, done: 0 }
    }

    /// The next request, or `None` once the destination is full.
    pub fn request(&self) -> (request: Option<LogPageRequest>)
        ensures
            request == self@.request(),
            self@.valid(),
            self@.len <= isize::MAX,
    {
        proof {
            use_type_invariant(self);
        }
        if self.done >= self.len {
            return None;
        }
        let length: usize = self.next_length();
        let dwords: u32 = ((length / 4 - 1) as u64 % 0x1_0000_0000) as u32;
        let position: u64 = LID_BP_HEADER_BYTES + self.done as u64;
        let mut nvme_cmd = Command::default();
        nvme_cmd.cdw0 = OPCODE_GET_LOG_PAGE as u32;
        nvme_cmd.cdw10 = dwords % 0x1_0000 * 0x1_0000 + self.bp_id as u32 % 0x80 * 0x100
            + LID_BOOT_PARTITION;
        nvme_cmd.cdw11 = dwords / 0x1_0000;
        nvme_cmd.cdw12 = (position % 0x1_0000_0000) as u32;
        nvme_cmd.cdw13 = (position / 0x1_0000_0000) as u32;
        nvme_cmd.flags = CMD_FLAG_CDW10_VALID + CMD_FLAG_CDW11_VALID + CMD_FLAG_CDW12_VALID
            + CMD_FLAG_CDW13_VALID;
        Some(
            LogPageRequest {
                offset: self.done,
                length,
                packet: CommandPacket {
                    command_timeout: TIMEOUT_NS_10_SEC,
                    transfer_length: (length as u64 % 0x1_0000_0000) as u32,
                    metadata_length: 0,
                    queue_type: QUEUE_TYPE_ADMIN,
                    nvme_cmd,
                },
            },
        )
    }

    /// The length of the next request.
    fn next_length(&self) -> (length: usize)
        ensures
            length == self@.next_length(),
    {
        proof {
            use_type_invariant(self);
        }
        if self.len - self.done < self.chunk {
            self.len - self.done
        } else {
            self.chunk
        }
    }

    /// Take the status of the last request: a success moves on to the next, anything else
    /// is the error that ends the read.
    pub fn complete(&mut self, status: usize) -> (result: Result<(), EfiError>)
        ensures
            result == crate::efi::result_of(status),
            final(self)@ == if status == SUCCESS {
                old(self)@.advanced()
            } else {
                old(self)@
            },
    {
        EfiError::status_to_result(status)?;
        proof {
            use_type_invariant(&*self);
        }
        let length: usize = self.next_length();
        self.done = self.done + length;
        Ok(())
    }
}

// ---------------------------------------------------------------------------
// Laws
// ---------------------------------------------------------------------------

/// Whatever a controller reports, the chunk size derived from it is one that a read accepts:
/// whole dwords, within the bounds for chunked reads.
pub proof fn law_probed_chunk_is_accepted(mdts: u8)
    ensures
        READ_CHUNK_MIN <= chunk_for_mdts(mdts) <= READ_CHUNK_MAX,
        chunk_for_mdts(mdts) >= 4,
        chunk_for_mdts(mdts) % 4 == 0,
{
}

/// The requests of a read tile its destination: they start where it starts, each follows
/// the one before, none is empty or longer than the chunk, all are whole dwords, and the
/// last ends where the destination ends.
pub proof fn law_requests_tile_destination(read: LogPageReadView)
    requires
        read.valid(),
        read.len <= isize::MAX,
    ensures
        ({
            let requests = read.requests();
            &&& requests.len() == 0 <==> read.done == read.len
            &&& requests.len() > 0 ==> requests[0].offset == read.done
            &&& requests.len() > 0 ==> requests.last().offset + requests.last().length == read.len
            &&& forall|i: int|
                0 <= i < requests.len() ==> 0 < (#[trigger] requests[i]).length <= read.chunk
                    && requests[i].length % 4 == 0
            &&& forall|i: int|
                0 <= i < requests.len() - 1 ==> (#[trigger] requests[i]).offset + requests[i].length
                    == requests[i + 1].offset
        }),
    decreases read.len - read.done,
{
    if read.done < read.len {
        let next = read.advanced();
        law_requests_tile_destination(next);
        let rest = next.requests();
        let requests = read.requests();
        assert(requests[0] == read.request()->0);
        assert forall|i: int| 0 <= i < requests.len() - 1 implies (#[trigger] requests[i]).offset
            + requests[i].length == requests[i + 1].offset by {
            assert(requests[i + 1] == rest[i]);
            if i > 0 {
                assert(requests[i] == rest[i - 1]);
            }
        }
    }
}

/// All requests of a read but the last have the length of the chunk, and each carries the
/// command for its own place and length.
pub proof fn law_requests_carry_their_commands(read: LogPageReadView, i: int)
    requires
        read.valid(),
        read.len <= isize::MAX,
        0 <= i < read.requests().len(),
    ensures
        ({
            let request = read.requests()[i];
            &&& i < read.requests().len() - 1 ==> request.length == read.chunk
            &&& request.packet == log_page_packet(
                read.bp_id,
                request.offset as int,
                request.length as int,
            )
        }),
    decreases read.len - read.done,
{
    let next = read.advanced();
    if i > 0 {
        assert(read.requests()[i] == next.requests()[i - 1]);
        law_requests_carry_their_commands(next, i - 1);
    } else {
        assert(read.requests()[0] == read.request()->0);
        reveal_with_fuel(LogPageReadView::requests, 2);
        if next.requests().len() > 0 {
            assert(next.done < next.len);
        }
    }
}

/// A read takes no more requests than needed: what is left by the chunk size, rounded up.
pub proof fn law_request_count(read: LogPageReadView)
    requires
        read.valid(),
    ensures
        read.requests().len() == (read.len - read.done + read.chunk - 1) / read.chunk,
    decreases read.len - read.done,
{
    let left = read.len - read.done;
    if left > 0 {
        law_request_count(read.advanced());
        lemma_div_plus_one(left - 1, read.chunk);
        if left < read.chunk {
            lemma_basic_div(left - 1, read.chunk);
        }
    }
    lemma_basic_div(read.chunk - 1, read.chunk);
}

/// The fields of a log-page command's CDW10 do not overlap.
proof fn lemma_cdw10_fields(dwords: int, bp_id: int)
    requires
        0 <= dwords < 0x1_0000,
        0 <= bp_id < 0x80,
    ensures
        ({
            let word = dwords * 0x1_0000 + bp_id * 0x100 + LID_BOOT_PARTITION;
            &&& 0 <= word < 0x1_0000_0000
            &&& word % 0x100 == LID_BOOT_PARTITION
            &&& word / 0x100 % 0x80 == bp_id
            &&& word / 0x1_0000 == dwords
        }),
{
}

/// A log-page command says what it asks for: the controller finds the boot-partition page,
/// the partition, the number of dwords and the offset behind the page's header in its
/// fields.
pub proof fn law_log_page_command_decodes(bp_id: u8, offset: int, length: int)
    requires
        0 <= offset <= isize::MAX,
        4 <= length <= u32::MAX,
        length % 4 == 0,
    ensures
        ({
            let packet = log_page_packet(bp_id, offset, length);
            let cmd = packet.nvme_cmd;
            &&& cmd.cdw10 % 0x100 == LID_BOOT_PARTITION
            &&& cmd.cdw10 / 0x100 % 0x80 == bp_id % 0x80
            &&& (cmd.cdw11 * 0x1_0000 + cmd.cdw10 / 0x1_0000 + 1) * 4 == length
            &&& cmd.cdw13 * 0x1_0000_0000 + cmd.cdw12 == LID_BP_HEADER_BYTES + offset
            &&& packet.transfer_length == length
        }),
{
    let dwords = length / 4 - 1;
    lemma_cdw10_fields(dwords % 0x1_0000, (bp_id % 0x80) as int);
}

/// What a controller returns for a log-page command: as many dwords as it asks for, from the
/// offset that it names, of the boot partition's log page.
pub open spec fn log_page_reply(page: Seq<u8>, cmd: Command) -> Seq<u8> {
    let start = cmd.cdw13 * 0x1_0000_0000 + cmd.cdw12;
    let length = (cmd.cdw11 * 0x1_0000 + cmd.cdw10 / 0x1_0000 + 1) * 4;
    page.subrange(start, start + length)
}

/// What the destination holds where the requests of a read were answered one after another.
pub open spec fn replies(page: Seq<u8>, requests: Seq<LogPageRequest>) -> Seq<u8>
    decreases requests.len(),
{
    if requests.len() == 0 {
        seq![]
    } else {
        log_page_reply(page, requests[0].packet.nvme_cmd) + replies(page, requests.drop_first())
    }
}

/// A read gives back the image: from a controller that answers each command, the destination
/// gets the log page's bytes right behind its header, without that header and without a gap.
pub proof fn law_read_returns_image(page: Seq<u8>, read: LogPageReadView)
    requires
        read.valid(),
        read.chunk <= u32::MAX || read.len - read.done <= u32::MAX,
        read.len <= isize::MAX,
        page.len() >= LID_BP_HEADER_BYTES + read.len,
    ensures
        replies(page, read.requests()) == page.subrange(
            LID_BP_HEADER_BYTES + read.done,
            LID_BP_HEADER_BYTES + read.len,
        ),
    decreases read.len - read.done,
{
    if read.done < read.len {
        let next = read.advanced();
        law_read_returns_image(page, next);
        let requests = read.requests();
        assert(requests.drop_first() =~= next.requests());
        law_log_page_command_decodes(read.bp_id, read.done, read.next_length());
    }
}

/// The chunk size follows the controller's limit: 64 KiB up to MDTS 4, then twice as much for
/// each step, up to 512 KiB from MDTS 7 on and where there is no limit.
pub proof fn law_chunk_follows_the_limit(mdts: u8)
    ensures
        mdts == 0 ==> chunk_for_mdts(mdts) == 524288,
        1 <= mdts <= 4 ==> chunk_for_mdts(mdts) == 65536,
        mdts == 5 ==> chunk_for_mdts(mdts) == 131072,
        mdts == 6 ==> chunk_for_mdts(mdts) == 262144,
        mdts >= 7 ==> chunk_for_mdts(mdts) == 524288,
        READ_CHUNK_DEFAULT == 65536,
        READ_CHUNK_MIN == 65536,
        READ_CHUNK_MAX == 524288,
{
    lemma2_to64();
    if mdts > 7 {
        lemma_pow2_strictly_increases(7, mdts as nat);
    }
}

/// A log-page command is a Get Log Page admin command with a timeout of ten seconds and no
/// metadata, whose four command dwords are marked valid and whose other fields are zero; the
/// length goes in it modulo 2^32, for every place and length.
pub proof fn law_log_page_command_fields(bp_id: u8, offset: int, length: int)
    requires
        0 <= offset <= isize::MAX,
        4 <= length,
        length % 4 == 0,
    ensures
        ({
            let packet = log_page_packet(bp_id, offset, length);
            let cmd = packet.nvme_cmd;
            let dwords = (length / 4 - 1) % 0x1_0000_0000;
            &&& packet.command_timeout == 100_000_000
            &&& packet.transfer_length == length % 0x1_0000_0000
            &&& packet.metadata_length == 0
            &&& packet.queue_type == 0
            &&& cmd.cdw0 == 2
            &&& cmd.flags == 4 + 8 + 16 + 32
            &&& cmd.nsid == 0 && cmd.cdw2 == 0 && cmd.cdw3 == 0 && cmd.cdw14 == 0 && cmd.cdw15 == 0
            &&& cmd.cdw10 == 0x15 + 256 * (bp_id % 0x80) + 65536 * (dwords % 65536)
            &&& cmd.cdw11 == dwords / 65536
            &&& cmd.cdw12 + 0x1_0000_0000 * cmd.cdw13 == 16 + offset
        }),
{
    let dwords = (length / 4 - 1) % 0x1_0000_0000;
    lemma_cdw10_fields(dwords % 0x1_0000, (bp_id % 0x80) as int);
}

/// A read asks for the next part of its destination, the chunk or what is left of it, and a
/// success moves it on by that part and changes nothing else; it is over where its
/// destination is full.
pub proof fn law_read_goes_on_by_its_request(read: LogPageReadView)
    requires
        read.valid(),
        read.len <= isize::MAX,
    ensures
        read.done == read.len ==> read.request() is None,
        read.done < read.len ==> {
            &&& read.request() matches Some(request)
            &&& request.offset == read.done
            &&& request.length == read.chunk || (request.length < read.chunk && request.length
                == read.len - read.done)
            &&& request.packet == log_page_packet(
                read.bp_id,
                read.done,
                request.length as int,
            )
            &&& read.advanced() == (LogPageReadView {
                bp_id: read.bp_id,
                chunk: read.chunk,
                len: read.len,
                done: read.done + request.length,
            })
        },
{
}

/// What the Identify Controller request is made of, and the place of its answer; a command
/// starts with every field zero.
pub proof fn law_identify_constants()
    ensures
        OPCODE_IDENTIFY == 6,
        IDENTIFY_CNS_CONTROLLER == 1,
        IDENTIFY_BUFFER_BYTES == 4096,
        ID_CTRL_OFFSET_MDTS == 77,
        CMD_FLAG_CDW10_VALID == 4,
        TIMEOUT_NS_5_SEC == 50_000_000,
        QUEUE_TYPE_ADMIN == 0,
        Command::zero() == (Command {
            cdw0: 0,
            flags: 0,
            nsid: 0,
            cdw2: 0,
            cdw3: 0,
            cdw10: 0,
            cdw11: 0,
            cdw12: 0,
            cdw13: 0,
            cdw14: 0,
            cdw15: 0,
        }),
{
}

} // verus!
