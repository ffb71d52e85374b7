//! Recovery boot path: read the recovery payload from an NVMe boot partition, expose it as
//! a RAM disk, and chainload the default bootloader from the volume on it.

use vstd::prelude::*;

use crate::block_io;
use crate::block_io::RegisterStage;
use crate::device_path;
use crate::device_path::{append_file_path, bytes_equal, device_path_size, DevicePathBuf};
use crate::efi::{EfiError, INVALID_PARAMETER, NOT_FOUND, OUT_OF_RESOURCES};
use crate::nvme_pass_thru;
use crate::nvme_pass_thru::{read_bp_via_log_page, LogPageRead, LogPageReadView};

verus! {

/// The boot partition that holds the recovery payload.
pub const TARGET_BPID: u8 = 1;

/// Size of the boot partition's image: 1 GiB.
pub const BPSIZE_BYTES: usize = 1073741824;

/// How much of the image is read to look for a payload.
pub const HEAD_BYTES: usize = 512;

// ---------------------------------------------------------------------------
// Payload probe
// ---------------------------------------------------------------------------

/// The read of the image's first sector, in one request.
pub fn head_read() -> (read: LogPageRead)
    ensures
        read@ == (LogPageReadView { bp_id: TARGET_BPID, chunk: 512, len: 512, done: 0 }),
{
    LogPageRead::new(TARGET_BPID, HEAD_BYTES, HEAD_BYTES)
}

/// The head ends in the boot signature of a FAT volume.
pub open spec fn has_boot_signature(head: Seq<u8>) -> bool {
    head[510] == 0x55 && head[511] == 0xaa
}

/// True if the boot partition holds a FAT volume, the only payload that can be chainloaded
/// from: its first sector ends in the boot signature.
///
/// `head` is the first sector, `None` where the pass-through protocol is absent or the read
/// failed. The jump opcode at its start is not checked, because the volume's boot code may
/// start otherwise.
pub fn bp_has_sre_payload(head: Option<&[u8]>) -> (result: bool)
    requires
        head matches Some(sector) ==> sector@.len() == HEAD_BYTES,
    ensures
        result == match head {
            Some(sector) => has_boot_signature(sector@),
            None => false,
        },
{
    match head {
        Some(sector) => sector[510] == 0x55 && sector[511] == 0xaa,
        None => false,
    }
}

// ---------------------------------------------------------------------------
// Chainload
// ---------------------------------------------------------------------------

/// The path descends from `prefix`: it is at least as long, and starts with it.
pub open spec fn descends_from(path: Seq<u8>, prefix: Seq<u8>) -> bool {
    &&& device_path::spec_device_path_size(path) >= prefix.len()
    &&& path.take(prefix.len() as int) == prefix
}

/// The first volume whose path descends from `prefix`.
pub open spec fn first_descendant(
    volumes: Seq<Option<DevicePathBuf>>,
    prefix: Seq<u8>,
) -> Option<Seq<u8>>
    decreases volumes.len(),
{
    if volumes.len() == 0 {
        None
    } else if volumes[0] is Some && descends_from(volumes[0]->0@, prefix) {
        Some(volumes[0]->0@)
    } else {
        first_descendant(volumes.drop_first(), prefix)
    }
}

/// The path to chainload: `file` on the first volume that descends from `parent`.
pub open spec fn chainload_target(
    parent: Seq<u8>,
    volumes: Seq<Option<DevicePathBuf>>,
    file: Seq<char>,
) -> Result<Seq<u8>, EfiError> {
    if device_path::spec_device_path_size(parent) < 4 {
        Err(EfiError { status: INVALID_PARAMETER })
    } else {
        match first_descendant(volumes, device_path::payload(parent)) {
            Some(volume) => if device_path::spec_device_path_size(volume) >= 4 {
                Ok(device_path::file_on_volume(volume, file))
            } else {
                Err(EfiError { status: INVALID_PARAMETER })
            },
            None => Err(EfiError { status: NOT_FOUND }),
        }
    }
}

/// Find the file-system volume on the device at `parent` and build the path of `file` on it.
///
/// `volumes` holds the device path of each file-system handle, `None` where a handle has
/// none. Fails as not found where no volume descends from the device, and as an invalid
/// parameter where the path of the device or of the volume is malformed.
pub fn chainload_path(
    parent: &DevicePathBuf,
    volumes: &Vec<Option<DevicePathBuf>>,
    file: &str,
) -> (path: Result<DevicePathBuf, EfiError>)
    ensures
        match path {
            Ok(p) => chainload_target(parent@, volumes@, file@) == Ok::<Seq<u8>, EfiError>(p@),
            Err(e) => chainload_target(parent@, volumes@, file@) == Err::<Seq<u8>, EfiError>(e),
        },
{
    let parent_size: usize = device_path_size(parent.as_bytes());
    if parent_size < device_path::NODE_HDR_BYTES {
        return Err(EfiError { status: INVALID_PARAMETER });
    }
    let prefix_size: usize = parent_size - device_path::NODE_HDR_BYTES;
    let prefix = &parent.as_bytes()[0..prefix_size];
    assert(volumes@.skip(0) =~= volumes@);
    for i in 0..volumes.len()
        invariant
            device_path::spec_device_path_size(parent@) >= 4,
            prefix@ == device_path::payload(parent@),
            prefix@.len() == prefix_size,
            first_descendant(volumes@, prefix@) == first_descendant(
                volumes@.skip(i as int),
                prefix@,
            ),
    {
        assert(volumes@.skip(i as int).drop_first() =~= volumes@.skip(i + 1));
        if let Some(volume) = &volumes[i] {
            let size: usize = device_path_size(volume.as_bytes());
            if size >= prefix_size {
                let start = &volume.as_bytes()[0..prefix_size];
                if bytes_equal(start, prefix) {
                    if size < device_path::NODE_HDR_BYTES {
                        return Err(EfiError { status: INVALID_PARAMETER });
                    }
                    return Ok(append_file_path(volume, file));
                }
            }
        }
    }
    Err(EfiError { status: NOT_FOUND })
}

/// Where a chainload stands: the request whose reply is awaited.
#[derive(Debug)]
pub enum ChainloadStage {
    /// The handle of the RAM disk is being located by its device path.
    Locating,
    /// Its controllers are being connected.
    Connecting,
    /// The file-system volumes are being listed.
    Listing,
    /// The image at the path is being loaded and started.
    Booting(DevicePathBuf),
    /// The chainload is over with this result.
    Finished(Result<(), EfiError>),
}

/// A chainload's stage by the contents of its device path.
pub enum ChainloadStageView {
    Locating,
    Connecting,
    Listing,
    Booting(Seq<u8>),
    Finished(Result<(), EfiError>),
}

impl View for ChainloadStage {
    type V = ChainloadStageView;

    open spec fn view(&self) -> ChainloadStageView {
        match self {
            ChainloadStage::Locating => ChainloadStageView::Locating,
            ChainloadStage::Connecting => ChainloadStageView::Connecting,
            ChainloadStage::Listing => ChainloadStageView::Listing,
            ChainloadStage::Booting(path) => ChainloadStageView::Booting(path@),
            ChainloadStage::Finished(result) => ChainloadStageView::Finished(*result),
        }
    }
}

/// The reply to a request of a chainload.
#[derive(Debug)]
pub enum ChainloadReply {
    /// How the request ended.
    Status(Result<(), EfiError>),
    /// The device path of each file-system handle, `None` where a handle has none.
    Volumes(Result<Vec<Option<DevicePathBuf>>, EfiError>),
}

/// The stage after a reply; one that answers no request of the stage changes nothing.
pub open spec fn next_chainload_stage(
    parent: Seq<u8>,
    file: Seq<char>,
    stage: ChainloadStageView,
    reply: ChainloadReply,
) -> ChainloadStageView {
    match (stage, reply) {
        (ChainloadStageView::Locating, ChainloadReply::Status(located)) => match located {
            Ok(_) => ChainloadStageView::Connecting,
            Err(e) => ChainloadStageView::Finished(Err(e)),
        },
        (ChainloadStageView::Connecting, ChainloadReply::Status(_)) => {
            if device_path::spec_device_path_size(parent) >= 4 {
                ChainloadStageView::Listing
            } else {
                ChainloadStageView::Finished(Err(EfiError { status: INVALID_PARAMETER }))
            }
        },
        (ChainloadStageView::Listing, ChainloadReply::Volumes(listed)) => match listed {
            Ok(volumes) => match chainload_target(parent, volumes@, file) {
                Ok(path) => ChainloadStageView::Booting(path),
                Err(e) => ChainloadStageView::Finished(Err(e)),
            },
            Err(e) => ChainloadStageView::Finished(Err(e)),
        },
        (ChainloadStageView::Booting(_), ChainloadReply::Status(
            booted,
        )) => ChainloadStageView::Finished(booted),
        _ => stage,
    }
}

/// Chainload `file` from the volume on the device at `parent`.
///
/// Starts at [`ChainloadStage::Locating`]. Failing to connect is no failure; a malformed
/// device path is an invalid parameter, and a volume that cannot be found is not found.
pub fn chainload_from_ramdisk(
    parent: &DevicePathBuf,
    file: &str,
    stage: ChainloadStage,
    reply: ChainloadReply,
) -> (next: ChainloadStage)
    ensures
        next@ == next_chainload_stage(parent@, file@, stage@, reply),
{
    match (stage, reply) {
        (ChainloadStage::Locating, ChainloadReply::Status(located)) => match located {
            Ok(()) => ChainloadStage::Connecting,
            Err(e) => ChainloadStage::Finished(Err(e)),
        },
        (ChainloadStage::Connecting, ChainloadReply::Status(_)) => {
            if device_path_size(parent.as_bytes()) >= device_path::NODE_HDR_BYTES {
                ChainloadStage::Listing
            } else {
                ChainloadStage::Finished(Err(EfiError { status: INVALID_PARAMETER }))
            }
        },
        (ChainloadStage::Listing, ChainloadReply::Volumes(listed)) => match listed {
            Ok(volumes) => match chainload_path(parent, &volumes, file) {
                Ok(path) => ChainloadStage::Booting(path),
                Err(e) => ChainloadStage::Finished(Err(e)),
            },
            Err(e) => ChainloadStage::Finished(Err(e)),
        },
        (ChainloadStage::Booting(_), ChainloadReply::Status(booted)) => ChainloadStage::Finished(
            booted,
        ),
        (stage, _) => stage,
    }
}

// ---------------------------------------------------------------------------
// Recovery flow
// ---------------------------------------------------------------------------

/// Where the recovery flow stands: the request whose reply is awaited.
#[derive(Debug, Clone, Copy, PartialEq, Eq)]
pub enum RecoveryStage {
    /// All controllers are being connected.
    Connecting,
    /// The NVMe pass-through protocol is being located.
    Locating,
    /// The chunk size is being probed.
    Identifying,
    /// A buffer of [`BPSIZE_BYTES`] is being allocated.
    Allocating { chunk: usize },
    /// The image of [`TARGET_BPID`] is being read into the buffer.
    Reading { chunk: usize },
    /// The buffer is being registered as a RAM disk.
    Registering,
    /// The bootloader is being chainloaded from the RAM disk.
    Chainloading,
    /// The RAM disk is being torn down, after the chainload returned this result.
    TearingDown(Result<(), EfiError>),
    /// The flow is over. The buffer, if there is one, is freed if `free_buffer`; else it
    /// stays allocated for the rest of the boot.
    Finished { result: Result<(), EfiError>, free_buffer: bool },
}

/// The reply to a request of the recovery flow.
#[derive(Debug, Clone, Copy, PartialEq, Eq)]
pub enum RecoveryReply {
    /// How the request ended.
    Status(Result<(), EfiError>),
    /// The chunk size that the probe gave.
    Chunk(usize),
    /// The RAM disk was not registered, but an interface over the buffer is still installed.
    RegisterStuck(EfiError),
}

/// The reply that the end of a registration gives.
pub open spec fn register_reply_of(result: Result<(), EfiError>, installed: bool) -> RecoveryReply {
    match result {
        Err(e) if installed => RecoveryReply::RegisterStuck(e),
        _ => RecoveryReply::Status(result),
    }
}

/// The reply that the end of a registration gives: `result` and `installed` are those of
/// [`RegisterStage::Finished`].
pub fn register_reply(result: Result<(), EfiError>, installed: bool) -> (reply: RecoveryReply)
    ensures
        reply == register_reply_of(result, installed),
{
    match result {
        Err(e) if installed => RecoveryReply::RegisterStuck(e),
        _ => RecoveryReply::Status(result),
    }
}

/// The read of the whole image of [`TARGET_BPID`] into the buffer of [`BPSIZE_BYTES`], at
/// most `chunk` bytes at a time. A chunk that is no whole number of dwords is refused.
pub fn image_read(chunk: usize) -> (read: Result<LogPageRead, EfiError>)
    ensures
        match read {
            Ok(r) => chunk >= 4 && chunk % 4 == 0 && r@ == (LogPageReadView {
                bp_id: TARGET_BPID,
                chunk: chunk as int,
                len: BPSIZE_BYTES as int,
                done: 0,
            }),
            Err(e) => (chunk < 4 || chunk % 4 != 0) && e.status == INVALID_PARAMETER,
        },
{
    read_bp_via_log_page(TARGET_BPID, chunk, BPSIZE_BYTES)
}

/// The stage after a reply; one that answers no request of the stage changes nothing.
pub open spec fn next_recovery_stage(stage: RecoveryStage, reply: RecoveryReply) -> RecoveryStage {
    match (stage, reply) {
        (RecoveryStage::Connecting, RecoveryReply::Status(_)) => RecoveryStage::Locating,
        (RecoveryStage::Locating, RecoveryReply::Status(Ok(_))) => RecoveryStage::Identifying,
        (RecoveryStage::Identifying, RecoveryReply::Chunk(chunk)) => RecoveryStage::Allocating {
            chunk,
        },
        (
            RecoveryStage::Allocating { chunk },
            RecoveryReply::Status(Ok(_)),
        ) => RecoveryStage::Reading { chunk },
        (
            RecoveryStage::Allocating { .. },
            RecoveryReply::Status(Err(_)),
        ) => RecoveryStage::Finished {
            result: Err(EfiError { status: OUT_OF_RESOURCES }),
            free_buffer: true,
        },
        (RecoveryStage::Reading { .. }, RecoveryReply::Status(Ok(_))) => RecoveryStage::Registering,
        (RecoveryStage::Registering, RecoveryReply::Status(Ok(_))) => RecoveryStage::Chainloading,
        (RecoveryStage::Locating, RecoveryReply::Status(Err(e)))
        | (RecoveryStage::Reading { .. }, RecoveryReply::Status(Err(e)))
        | (RecoveryStage::Registering, RecoveryReply::Status(Err(e))) => RecoveryStage::Finished {
            result: Err(e),
            free_buffer: true,
        },
        (RecoveryStage::Registering, RecoveryReply::RegisterStuck(e)) => RecoveryStage::Finished {
            result: Err(e),
            free_buffer: false,
        },
        (RecoveryStage::Chainloading, RecoveryReply::Status(loaded)) => RecoveryStage::TearingDown(
            loaded,
        ),
        (
            RecoveryStage::TearingDown(result),
            RecoveryReply::Status(torn_down),
        ) => RecoveryStage::Finished { result, free_buffer: torn_down is Ok },
        _ => stage,
    }
}

/// Run the recovery flow end-to-end:
///
/// 1. Connect all controllers and locate the NVMe pass-through protocol
/// 2. Probe the transfer limit, pick the chunk size
/// 3. Read the boot partition into a fresh allocation
/// 4. Register the allocation as a RAM disk
/// 5. Chainload the default bootloader from the volume on it
///
/// Starts at [`RecoveryStage::Connecting`]. Control comes back only if the load failed or the
/// image exited; then the RAM disk is torn down, the buffer is freed unless an interface is
/// still open somewhere, and the result is that of the chainload. The buffer also stays if
/// the registration failed and could not be rolled back.
pub fn run_sre_flow(stage: RecoveryStage, reply: RecoveryReply) -> (next: RecoveryStage)
    ensures
        next == next_recovery_stage(stage, reply),
{
    match (stage, reply) {
        (RecoveryStage::Connecting, RecoveryReply::Status(_)) => RecoveryStage::Locating,
        (RecoveryStage::Locating, RecoveryReply::Status(located)) => match located {
            Ok(()) => RecoveryStage::Identifying,
            Err(e) => RecoveryStage::Finished { result: Err(e), free_buffer: true },
        },
        (RecoveryStage::Identifying, RecoveryReply::Chunk(chunk)) => RecoveryStage::Allocating {
            chunk,
        },
        (
            RecoveryStage::Allocating { chunk },
            RecoveryReply::Status(allocated),
        ) => match allocated {
            Ok(()) => RecoveryStage::Reading { chunk },
            Err(_) => RecoveryStage::Finished {
                result: Err(EfiError { status: OUT_OF_RESOURCES }),
                free_buffer: true,
            },
        },
        (RecoveryStage::Reading { .. }, RecoveryReply::Status(read)) => match read {
            Ok(()) => RecoveryStage::Registering,
            Err(e) => RecoveryStage::Finished { result: Err(e), free_buffer: true },
        },
        (RecoveryStage::Registering, RecoveryReply::Status(registered)) => match registered {
            Ok(()) => RecoveryStage::Chainloading,
            Err(e) => RecoveryStage::Finished { result: Err(e), free_buffer: true },
        },
        (RecoveryStage::Registering, RecoveryReply::RegisterStuck(e)) => RecoveryStage::Finished {
            result: Err(e),
            free_buffer: false,
        },
        (RecoveryStage::Chainloading, RecoveryReply::Status(loaded)) => RecoveryStage::TearingDown(
            loaded,
        ),
        (
            RecoveryStage::TearingDown(result),
            RecoveryReply::Status(torn_down),
        ) => RecoveryStage::Finished { result, free_buffer: torn_down.is_ok() },
        _ => stage,
    }
}

// ---------------------------------------------------------------------------
// Laws
// ---------------------------------------------------------------------------

/// A path that starts with the nodes of another is walked past them.
proof fn lemma_walk_through_prefix(parent: Seq<u8>, path: Seq<u8>, offset: int)
    requires
        0 <= offset,
        device_path::walk_end(parent, offset) is Some,
        ({
            let cut = device_path::walk_end(parent, offset)->0 - 4;
            &&& offset <= cut <= path.len()
            &&& path.take(cut) == parent.take(cut)
        }),
    ensures
        device_path::walk_end(path, offset) == device_path::walk_end(
            path,
            device_path::walk_end(parent, offset)->0 - 4,
        ),
    decreases parent.len() - offset,
{
    let cut = device_path::walk_end(parent, offset)->0 - 4;
    let header = device_path::header_at(parent, offset);
    if !header.spec_is_end_entire() {
        let next = offset + header.length;
        device_path::lemma_walk_end_bounds(parent, next);
        assert(forall|i: int| 0 <= i < cut ==> parent.take(cut)[i] == parent[i]);
        lemma_walk_through_prefix(parent, path, next);
    }
}

/// What is chainloaded is on the RAM disk: its path is a device path that starts with the
/// nodes of the RAM disk's, and ends in the file.
pub proof fn law_chainload_descends_from_ram_disk(
    parent: Seq<u8>,
    volumes: Seq<Option<DevicePathBuf>>,
    file: Seq<char>,
)
    ensures
        chainload_target(parent, volumes, file) matches Ok(path) ==> device_path::well_formed(path)
            && device_path::payload(parent).is_prefix_of(path) && exists|nodes: Seq<u8>| #[trigger]
            (nodes + device_path::file_path_node(file)) == path,
{
    if let Ok(path) = chainload_target(parent, volumes, file) {
        let prefix = device_path::payload(parent);
        let volume = first_descendant(volumes, prefix)->0;
        lemma_first_descendant(volumes, prefix);
        device_path::law_file_on_volume_well_formed(volume, file);
        device_path::lemma_walk_end_bounds(parent, 0);
        device_path::lemma_walk_end_bounds(volume, 0);
        let cut = prefix.len() as int;
        lemma_walk_through_prefix(parent, volume, 0);
        device_path::lemma_walk_end_bounds(volume, cut);
    }
}

/// The first descendant is one of the volumes, and descends from the prefix.
proof fn lemma_first_descendant(volumes: Seq<Option<DevicePathBuf>>, prefix: Seq<u8>)
    ensures
        first_descendant(volumes, prefix) matches Some(volume) ==> descends_from(volume, prefix),
    decreases volumes.len(),
{
    if volumes.len() > 0 {
        lemma_first_descendant(volumes.drop_first(), prefix);
    }
}

/// The RAM disk's own device path is never refused as malformed.
pub proof fn law_ram_disk_parent_is_accepted()
    ensures
        device_path::spec_device_path_size(block_io::ram_disk_path()) >= 4,
{
    block_io::law_ram_disk_path_well_formed();
}

/// The buffer outlives every interface over it, however the registration goes: after one
/// that failed, the buffer is freed if and only if no interface was left installed; after
/// one that succeeded, if and only if the RAM disk could be torn down. The result is the
/// error of the registration, else that of the chainload.
pub proof fn law_buffer_outlives_ram_disk(
    block_io: Result<(), EfiError>,
    path: Result<(), EfiError>,
    third: Result<(), EfiError>,
    loaded: Result<(), EfiError>,
    torn_down: Result<(), EfiError>,
)
    ensures
        ({
            let first = block_io::next_register_stage(RegisterStage::InstallingBlockIo, block_io);
            let second = block_io::next_register_stage(first, path);
            let last = block_io::next_register_stage(second, third);
            let registered = next_recovery_stage(
                RecoveryStage::Registering,
                register_reply_of(last->result, last->installed),
            );
            let returned = next_recovery_stage(registered, RecoveryReply::Status(loaded));
            let finished = next_recovery_stage(returned, RecoveryReply::Status(torn_down));
            match last->result {
                Ok(_) => registered is Chainloading && finished == (RecoveryStage::Finished {
                    result: loaded,
                    free_buffer: torn_down is Ok,
                }),
                Err(e) => registered == (RecoveryStage::Finished {
                    result: Err(e),
                    free_buffer: !(block_io is Ok && third is Err),
                }),
            }
        }),
{
}

/// Any chunk size that the probe gives reads the whole image of the boot partition: from a
/// controller that answers each command, the buffer gets the bytes right behind the log
/// page's header.
pub proof fn law_image_read_is_complete(page: Seq<u8>, mdts: u8)
    requires
        page.len() >= nvme_pass_thru::LID_BP_HEADER_BYTES + BPSIZE_BYTES,
    ensures
        ({
            let read = LogPageReadView {
                bp_id: TARGET_BPID,
                chunk: nvme_pass_thru::chunk_for_mdts(mdts),
                len: BPSIZE_BYTES as int,
                done: 0,
            };
            &&& read.valid()
            &&& nvme_pass_thru::replies(page, read.requests()) == page.subrange(
                nvme_pass_thru::LID_BP_HEADER_BYTES as int,
                nvme_pass_thru::LID_BP_HEADER_BYTES + BPSIZE_BYTES,
            )
        }),
{
    let read = LogPageReadView {
        bp_id: TARGET_BPID,
        chunk: nvme_pass_thru::chunk_for_mdts(mdts),
        len: BPSIZE_BYTES as int,
        done: 0,
    };
    nvme_pass_thru::law_probed_chunk_is_accepted(mdts);
    nvme_pass_thru::law_read_returns_image(page, read);
}

/// Each step of the flow comes only after the success of the one before: it chainloads only
/// from a RAM disk that was registered, registers only a buffer that was read to its end,
/// reads only into a buffer that was allocated, with the chunk size that was probed, and
/// probes only a controller that was located.
pub proof fn law_recovery_steps_in_order(stage: RecoveryStage, reply: RecoveryReply)
    ensures
        ({
            let next = next_recovery_stage(stage, reply);
            next != stage ==> match next {
                RecoveryStage::Connecting => false,
                RecoveryStage::Locating => stage is Connecting,
                RecoveryStage::Identifying => stage is Locating && reply is Status
                    && reply->Status_0 is Ok,
                RecoveryStage::Allocating { chunk } => stage is Identifying && reply
                    == RecoveryReply::Chunk(chunk),
                RecoveryStage::Reading { chunk } => stage == (RecoveryStage::Allocating { chunk })
                    && reply is Status && reply->Status_0 is Ok,
                RecoveryStage::Registering => stage is Reading && reply is Status
                    && reply->Status_0 is Ok,
                RecoveryStage::Chainloading => stage is Registering && reply is Status
                    && reply->Status_0 is Ok,
                RecoveryStage::TearingDown(result) => stage is Chainloading && reply
                    == RecoveryReply::Status(result),
                RecoveryStage::Finished { .. } => !(stage is Finished),
            }
        }),
{
}

/// The payload shows by the two last bytes of the first sector alone: whatever else two
/// sectors hold, they count alike if they agree there.
pub proof fn law_payload_shows_by_signature_alone(one: Seq<u8>, other: Seq<u8>)
    ensures
        has_boot_signature(one) <==> one[510] == 0x55 && one[511] == 0xaa,
        one[510] == other[510] && one[511] == other[511] ==> has_boot_signature(one)
            == has_boot_signature(other),
        HEAD_BYTES == 512,
        TARGET_BPID == 1,
        BPSIZE_BYTES == 1024 * 1024 * 1024,
{
}

/// The first volume on the device is chainloaded from, whatever stands before and behind it:
/// one whose path is at least as long as the device's without its end, and starts with it.
/// Where there is none, nothing is found; and a malformed path, of the device or of that
/// volume, is an invalid parameter.
pub proof fn law_first_volume_on_the_device(
    parent: Seq<u8>,
    volumes: Seq<Option<DevicePathBuf>>,
    file: Seq<char>,
    i: int,
)
    requires
        0 <= i <= volumes.len(),
        device_path::spec_device_path_size(parent) >= 4,
        forall|j: int|
            0 <= j < i && (#[trigger] volumes[j]) is Some ==> device_path::spec_device_path_size(
                volumes[j]->0@,
            ) < device_path::spec_device_path_size(parent) - 4 || volumes[j]->0@.take(
                device_path::spec_device_path_size(parent) - 4,
            ) != parent.take(device_path::spec_device_path_size(parent) - 4),
    ensures
        i == volumes.len() ==> chainload_target(parent, volumes, file) == Err::<Seq<u8>, EfiError>(
            EfiError { status: NOT_FOUND },
        ),
        i < volumes.len() && volumes[i] is Some ==> {
            let cut = device_path::spec_device_path_size(parent) - 4;
            let volume = volumes[i]->0@;
            let size = device_path::spec_device_path_size(volume);
            size >= cut && volume.take(cut) == parent.take(cut) ==> chainload_target(
                parent,
                volumes,
                file,
            ) == if size >= 4 {
                Ok::<Seq<u8>, EfiError>(volume.take(size - 4) + device_path::file_path_node(file))
            } else {
                Err(EfiError { status: INVALID_PARAMETER })
            }
        },
    decreases i,
{
    device_path::lemma_walk_end_bounds(parent, 0);
    let prefix = device_path::payload(parent);
    if i > 0 {
        assert(volumes[0] is Some ==> !descends_from(volumes[0]->0@, prefix));
        let rest = volumes.drop_first();
        assert forall|j: int| 0 <= j < i - 1 && (#[trigger] rest[j]) is Some implies
            device_path::spec_device_path_size(rest[j]->0@) < device_path::spec_device_path_size(
            parent,
        ) - 4 || rest[j]->0@.take(device_path::spec_device_path_size(parent) - 4) != parent.take(
            device_path::spec_device_path_size(parent) - 4,
        ) by {
            assert(rest[j] == volumes[j + 1]);
        }
        law_first_volume_on_the_device(parent, rest, file, i - 1);
        assert(first_descendant(volumes, prefix) == first_descendant(rest, prefix));
    }
}

/// A device whose own path is malformed is never chainloaded from.
pub proof fn law_malformed_device_is_refused(
    parent: Seq<u8>,
    volumes: Seq<Option<DevicePathBuf>>,
    file: Seq<char>,
)
    requires
        device_path::spec_device_path_size(parent) < 4,
    ensures
        chainload_target(parent, volumes, file) == Err::<Seq<u8>, EfiError>(
            EfiError { status: INVALID_PARAMETER },
        ),
{
}

/// The whole course of a chainload: the device is located, connected, and the volumes are
/// listed; then the target is booted, and its result is the result. It ends before only on a
/// failure to locate or list, with that error, or where there is no target, with the reason;
/// a failure to connect is none.
pub proof fn law_chainload_takes_its_course(
    parent: Seq<u8>,
    file: Seq<char>,
    located: Result<(), EfiError>,
    connected: Result<(), EfiError>,
    listed: Result<Vec<Option<DevicePathBuf>>, EfiError>,
    booted: Result<(), EfiError>,
)
    requires
        device_path::spec_device_path_size(parent) >= 4,
    ensures
        ({
            let first = next_chainload_stage(
                parent,
                file,
                ChainloadStageView::Locating,
                ChainloadReply::Status(located),
            );
            let second = next_chainload_stage(
                parent,
                file,
                first,
                ChainloadReply::Status(connected),
            );
            let third = next_chainload_stage(parent, file, second, ChainloadReply::Volumes(listed));
            let last = next_chainload_stage(parent, file, third, ChainloadReply::Status(booted));
            &&& located is Ok ==> first == ChainloadStageView::Connecting && second
                == ChainloadStageView::Listing
            &&& located is Err ==> first == ChainloadStageView::Finished(located) && last == first
            &&& located is Ok ==> (listed matches Err(e) ==> third == ChainloadStageView::Finished(
                Err(e),
            ) && last == third)
            &&& located is Ok ==> (listed matches Ok(volumes) ==> match chainload_target(
                parent,
                volumes@,
                file,
            ) {
                Ok(path) => third == ChainloadStageView::Booting(path) && last
                    == ChainloadStageView::Finished(booted),
                Err(e) => third == ChainloadStageView::Finished(Err(e)) && last == third,
            })
        }),
{
}

/// A chainload from a device with a malformed path ends once it was located and connected.
pub proof fn law_chainload_refuses_a_malformed_device(
    parent: Seq<u8>,
    file: Seq<char>,
    connected: Result<(), EfiError>,
)
    requires
        device_path::spec_device_path_size(parent) < 4,
    ensures
        next_chainload_stage(
            parent,
            file,
            ChainloadStageView::Connecting,
            ChainloadReply::Status(connected),
        ) == ChainloadStageView::Finished(Err(EfiError { status: INVALID_PARAMETER })),
{
}

/// A reply to no request of the stage changes nothing, and a finished chainload stays so.
pub proof fn law_chainload_ignores_other_replies(
    parent: Seq<u8>,
    file: Seq<char>,
    stage: ChainloadStageView,
    reply: ChainloadReply,
)
    requires
        stage is Finished || (stage is Listing) != (reply is Volumes),
    ensures
        next_chainload_stage(parent, file, stage, reply) == stage,
{
}

/// The whole course of the recovery: from the start the flow locates, probes, allocates,
/// reads, registers, chainloads and tears down, with whatever chunk size the probe gave, and
/// its result is that of the chainload. It ends before only on a failure, with the error of
/// that failure (out of resources for the allocation), and a failure to connect is none.
pub proof fn law_recovery_takes_its_course(
    connected: Result<(), EfiError>,
    located: Result<(), EfiError>,
    chunk: usize,
    allocated: Result<(), EfiError>,
    read: Result<(), EfiError>,
    registered: Result<(), EfiError>,
    loaded: Result<(), EfiError>,
    torn_down: Result<(), EfiError>,
)
    ensures
        ({
            let s1 = next_recovery_stage(
                RecoveryStage::Connecting,
                RecoveryReply::Status(connected),
            );
            let s2 = next_recovery_stage(s1, RecoveryReply::Status(located));
            let s3 = next_recovery_stage(s2, RecoveryReply::Chunk(chunk));
            let s4 = next_recovery_stage(s3, RecoveryReply::Status(allocated));
            let s5 = next_recovery_stage(s4, RecoveryReply::Status(read));
            let s6 = next_recovery_stage(s5, RecoveryReply::Status(registered));
            let s7 = next_recovery_stage(s6, RecoveryReply::Status(loaded));
            let s8 = next_recovery_stage(s7, RecoveryReply::Status(torn_down));
            let to_registered = located is Ok && allocated is Ok && read is Ok;
            &&& s1 == RecoveryStage::Locating
            &&& located is Ok ==> s2 == RecoveryStage::Identifying && s3 == (
            RecoveryStage::Allocating { chunk })
            &&& located is Ok && allocated is Ok ==> s4 == (RecoveryStage::Reading { chunk })
            &&& to_registered ==> s5 == RecoveryStage::Registering
            &&& to_registered && registered is Ok ==> s6 == RecoveryStage::Chainloading && s7
                == RecoveryStage::TearingDown(loaded) && s8 == (RecoveryStage::Finished {
                result: loaded,
                free_buffer: torn_down is Ok,
            })
            &&& to_registered && registered is Err ==> s8 == (RecoveryStage::Finished {
                result: registered,
                free_buffer: true,
            })
            &&& located is Err ==> s8 == (RecoveryStage::Finished {
                result: located,
                free_buffer: true,
            })
            &&& located is Ok && allocated is Err ==> s8 == (RecoveryStage::Finished {
                result: Err(EfiError { status: OUT_OF_RESOURCES }),
                free_buffer: true,
            })
            &&& located is Ok && allocated is Ok && read is Err ==> s8 == (RecoveryStage::Finished {
                result: read,
                free_buffer: true,
            })
        }),
{
}

/// A reply to no request of the stage changes nothing, and a finished flow stays so.
pub proof fn law_recovery_ignores_other_replies(stage: RecoveryStage, reply: RecoveryReply)
    requires
        ({
            ||| stage is Finished
            ||| (stage is Identifying) != (reply is Chunk)
            ||| !(stage is Registering) && reply is RegisterStuck
        }),
        stage is Registering ==> !(reply is RegisterStuck),
    ensures
        next_recovery_stage(stage, reply) == stage,
{
}

/// A registration that left an interface installed is reported as such, with its error, and
/// then the buffer stays; any other end is reported as it is.
pub proof fn law_stuck_registration_is_reported(
    result: Result<(), EfiError>,
    installed: bool,
)
    ensures
        installed ==> (result matches Err(e) ==> register_reply_of(result, installed)
            == RecoveryReply::RegisterStuck(e) && next_recovery_stage(
            RecoveryStage::Registering,
            RecoveryReply::RegisterStuck(e),
        ) == (RecoveryStage::Finished { result: Err(e), free_buffer: false })),
        !installed || result is Ok ==> register_reply_of(result, installed)
            == RecoveryReply::Status(result),
{
}

/// A chainload's stage is seen whole, with its path or result as it is.
pub proof fn law_chainload_stages_are_seen_whole(
    path: DevicePathBuf,
    result: Result<(), EfiError>,
)
    ensures
        ChainloadStage::Locating@ == ChainloadStageView::Locating,
        ChainloadStage::Connecting@ == ChainloadStageView::Connecting,
        ChainloadStage::Listing@ == ChainloadStageView::Listing,
        ChainloadStage::Booting(path)@ == ChainloadStageView::Booting(path@),
        ChainloadStage::Finished(result)@ == ChainloadStageView::Finished(result),
{
}

} // verus!
