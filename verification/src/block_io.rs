//! A read-only RAM disk behind the block I/O protocol: its media, its reads, and the
//! install and teardown of its protocol interfaces.

use vstd::prelude::*;

use crate::device_path;
use crate::device_path::DevicePathBuf;
use crate::efi::{
    EfiError, BAD_BUFFER_SIZE, INVALID_PARAMETER, MEDIA_CHANGED, SUCCESS, WRITE_PROTECTED,
};

verus! {

/// Revision of the block I/O protocol.
pub const REVISION: u64 = 0x00010000;

/// Block size of the RAM disk.
pub const RAM_DISK_BLOCK_SIZE: u32 = 512;

/// The media identifier of the RAM disk, which never changes.
pub const RAM_DISK_MEDIA_ID: u32 = 0;

/// What the block I/O protocol says of a medium.
#[derive(Debug, Clone, Copy, PartialEq, Eq, Structural)]
pub struct Media {
    pub media_id: u32,
    pub removable_media: bool,
    pub media_present: bool,
    pub logical_partition: bool,
    pub read_only: bool,
    pub write_caching: bool,
    pub block_size: u32,
    pub io_align: u32,
    pub last_block: u64,
}

/// The medium of a RAM disk over `size` bytes.
///
/// It is a logical partition, so that a file-system driver binds to it directly: the buffer
/// holds a raw volume, not a partition table.
pub fn ram_disk_media(size: usize) -> (media: Media)
    ensures
        media == (Media {
            media_id: RAM_DISK_MEDIA_ID,
            removable_media: false,
            media_present: true,
            logical_partition: true,
            read_only: true,
            write_caching: false,
            block_size: RAM_DISK_BLOCK_SIZE,
            io_align: 0,
            last_block: if size / 512 == 0 {
                0
            } else {
                (size / 512 - 1) as u64
            },
        }),
{
    let blocks: u64 = size as u64 / RAM_DISK_BLOCK_SIZE as u64;
    Media {
        media_id: RAM_DISK_MEDIA_ID,
        removable_media: false,
        media_present: true,
        logical_partition: true,
        read_only: true,
        write_caching: false,
        block_size: RAM_DISK_BLOCK_SIZE,
        io_align: 0,
        last_block: if blocks == 0 {
            0
        } else {
            blocks - 1
        },
    }
}

/// What a read of `buffer_size` bytes from block `lba` of the RAM disk over `disk` returns.
pub open spec fn blocks_read(
    disk: Seq<u8>,
    media_id: u32,
    lba: u64,
    buffer_size: usize,
) -> Result<Seq<u8>, EfiError> {
    let offset = lba * RAM_DISK_BLOCK_SIZE;
    if media_id != RAM_DISK_MEDIA_ID {
        Err(EfiError { status: MEDIA_CHANGED })
    } else if offset + buffer_size > disk.len() {
        Err(EfiError { status: INVALID_PARAMETER })
    } else if buffer_size % 512 != 0 {
        Err(EfiError { status: BAD_BUFFER_SIZE })
    } else {
        Ok(disk.subrange(offset, offset + buffer_size))
    }
}

/// Read `buffer_size` bytes from block `lba` on: the bytes of `disk` there. Fails if the
/// media identifier is not that of the RAM disk, if the read would pass its end, and if the
/// size is no whole number of blocks, in this order.
pub fn ram_disk_read_blocks(
    disk: &[u8],
    media_id: u32,
    lba: u64,
    buffer_size: usize,
) -> (result: Result<&[u8], EfiError>)
    ensures
        match result {
            Ok(bytes) => blocks_read(disk@, media_id, lba, buffer_size) == Ok::<
                Seq<u8>,
                EfiError,
            >(bytes@),
            Err(e) => blocks_read(disk@, media_id, lba, buffer_size) == Err::<Seq<u8>, EfiError>(
                e,
            ),
        },
{
    if media_id != RAM_DISK_MEDIA_ID {
        return Err(EfiError { status: MEDIA_CHANGED });
    }
    let offset: u128 = lba as u128 * RAM_DISK_BLOCK_SIZE as u128;
    let end: u128 = offset + buffer_size as u128;
    if end > disk.len() as u128 {
        return Err(EfiError { status: INVALID_PARAMETER });
    }
    if buffer_size % 512 != 0 {
        return Err(EfiError { status: BAD_BUFFER_SIZE });
    }
    Ok(&disk[offset as usize..end as usize])
}

/// The status of a write to the RAM disk.
pub fn ram_disk_write_blocks() -> (status: usize)
    ensures
        status == WRITE_PROTECTED,
{
    WRITE_PROTECTED
}

/// The status of a reset of the RAM disk.
pub fn ram_disk_reset() -> (status: usize)
    ensures
        status == SUCCESS,
{
    SUCCESS
}

/// The status of a flush of the RAM disk.
pub fn ram_disk_flush_blocks() -> (status: usize)
    ensures
        status == SUCCESS,
{
    SUCCESS
}

/// The bytes of the RAM disk's device path: a vendor media node with an identifier of its
/// own, which tells it from every other block device, and an *end entire* node.
pub open spec fn ram_disk_path() -> Seq<u8> {
    seq![
        0x04,
        0x03,
        0x14,
        0x00,
        0x7e,
        0x1c,
        0x0b,
        0x5d,
        0x2f,
        0x8a,
        0x5c,
        0x4e,
        0x9d,
        0x3a,
        0x7b,
        0x8e,
        0x9f,
        0x1c,
        0x2d,
        0x4a,
        0x7f,
        0xff,
        0x04,
        0x00,
    ]
}

/// The device path of the RAM disk.
pub fn ram_disk_device_path() -> (path: DevicePathBuf)
    ensures
        path@ == ram_disk_path(),
{
    let bytes: Vec<u8> = vec![
        0x04, 0x03, 0x14, 0x00, 0x7e, 0x1c, 0x0b, 0x5d, 0x2f, 0x8a, 0x5c, 0x4e, 0x9d, 0x3a, 0x7b,
        0x8e, 0x9f, 0x1c, 0x2d, 0x4a, 0x7f, 0xff, 0x04, 0x00,
    ];
    DevicePathBuf::from_bytes(bytes)
}

// ---------------------------------------------------------------------------
// Install and teardown
// ---------------------------------------------------------------------------

/// Where the install of the RAM disk stands: the request whose reply is awaited.
#[derive(Debug, Clone, Copy, PartialEq, Eq)]
pub enum RegisterStage {
    /// The block I/O interface is being installed on a new handle.
    InstallingBlockIo,
    /// The device path is being installed on the same handle.
    InstallingDevicePath,
    /// The block I/O interface is being uninstalled, after the device path was refused with
    /// this error.
    RollingBack(EfiError),
    /// Controllers are being connected so that a file-system driver binds.
    Connecting,
    /// The install is over. The protocol state is freed if `free_state`; else it stays
    /// allocated. If `installed`, the block I/O interface is on the handle, even where the
    /// install failed.
    Finished { result: Result<(), EfiError>, free_state: bool, installed: bool },
}

/// The stage after the reply to the request of `stage`.
pub open spec fn next_register_stage(
    stage: RegisterStage,
    reply: Result<(), EfiError>,
) -> RegisterStage {
    match stage {
        RegisterStage::InstallingBlockIo => match reply {
            Ok(_) => RegisterStage::InstallingDevicePath,
            Err(e) => RegisterStage::Finished {
                result: Err(e),
                free_state: false,
                installed: false,
            },
        },
        RegisterStage::InstallingDevicePath => match reply {
            Ok(_) => RegisterStage::Connecting,
            Err(e) => RegisterStage::RollingBack(e),
        },
        RegisterStage::RollingBack(e) => RegisterStage::Finished {
            result: Err(e),
            free_state: reply is Ok,
            installed: reply is Err,
        },
        RegisterStage::Connecting => RegisterStage::Finished {
            result: Ok(()),
            free_state: false,
            installed: true,
        },
        RegisterStage::Finished { .. } => stage,
    }
}

/// Expose a buffer as a block device on a new handle.
///
/// Starts at [`RegisterStage::InstallingBlockIo`]. If the device path cannot be installed,
/// the block I/O interface is rolled back so that no half-registered handle remains, and
/// its state is freed only if that succeeded; else the interface stays installed, and the
/// buffer must stay allocated with the state. A failure to connect is no failure: a file
/// system may still be bound.
pub fn register_ram_disk(stage: RegisterStage, reply: Result<(), EfiError>) -> (next:
    RegisterStage)
    ensures
        next == next_register_stage(stage, reply),
{
    match stage {
        RegisterStage::InstallingBlockIo => match reply {
            Ok(()) => RegisterStage::InstallingDevicePath,
            Err(e) => RegisterStage::Finished {
                result: Err(e),
                free_state: false,
                installed: false,
            },
        },
        RegisterStage::InstallingDevicePath => match reply {
            Ok(()) => RegisterStage::Connecting,
            Err(e) => RegisterStage::RollingBack(e),
        },
        RegisterStage::RollingBack(e) => RegisterStage::Finished {
            result: Err(e),
            free_state: reply.is_ok(),
            installed: reply.is_err(),
        },
        RegisterStage::Connecting => RegisterStage::Finished {
            result: Ok(()),
            free_state: false,
            installed: true,
        },
        RegisterStage::Finished { .. } => stage,
    }
}

/// Where the teardown of the RAM disk stands: the request whose reply is awaited.
#[derive(Debug, Clone, Copy, PartialEq, Eq)]
pub enum TeardownStage {
    /// Bound drivers are being disconnected.
    Disconnecting,
    /// The device path is being uninstalled.
    UninstallingDevicePath,
    /// The block I/O interface is being uninstalled.
    UninstallingBlockIo,
    /// The teardown is over. The protocol state is freed if and only if it succeeded.
    Finished(Result<(), EfiError>),
}

/// The stage after the reply to the request of `stage`.
pub open spec fn next_teardown_stage(
    stage: TeardownStage,
    reply: Result<(), EfiError>,
) -> TeardownStage {
    match stage {
        TeardownStage::Disconnecting => TeardownStage::UninstallingDevicePath,
        TeardownStage::UninstallingDevicePath => match reply {
            Ok(_) => TeardownStage::UninstallingBlockIo,
            Err(e) => TeardownStage::Finished(Err(e)),
        },
        TeardownStage::UninstallingBlockIo => TeardownStage::Finished(reply),
        TeardownStage::Finished(result) => TeardownStage::Finished(result),
    }
}

/// Disconnect bound drivers and uninstall both interfaces.
///
/// Starts at [`TeardownStage::Disconnecting`], which is best-effort. An uninstall that is
/// refused ends the teardown with its error; the protocol state and the backing buffer must
/// then stay allocated, because a driver may still hold the interface.
pub fn teardown(stage: TeardownStage, reply: Result<(), EfiError>) -> (next: TeardownStage)
    ensures
        next == next_teardown_stage(stage, reply),
{
    match stage {
        TeardownStage::Disconnecting => TeardownStage::UninstallingDevicePath,
        TeardownStage::UninstallingDevicePath => match reply {
            Ok(()) => TeardownStage::UninstallingBlockIo,
            Err(e) => TeardownStage::Finished(Err(e)),
        },
        TeardownStage::UninstallingBlockIo => TeardownStage::Finished(reply),
        TeardownStage::Finished(result) => TeardownStage::Finished(result),
    }
}

// ---------------------------------------------------------------------------
// Laws
// ---------------------------------------------------------------------------

/// The media describe what can be read: of a disk of at least one block, every block up to
/// the last one reads as its bytes, and the one after that does not read.
pub proof fn law_media_bounds_reads(disk: Seq<u8>, lba: u64)
    requires
        512 <= disk.len() <= usize::MAX,
    ensures
        ({
            let last_block = disk.len() / 512 - 1;
            &&& lba <= last_block ==> blocks_read(disk, RAM_DISK_MEDIA_ID, lba, 512) == Ok::<
                Seq<u8>,
                EfiError,
            >(disk.subrange(lba * 512, lba * 512 + 512))
            &&& lba > last_block ==> blocks_read(disk, RAM_DISK_MEDIA_ID, lba, 512) == Err::<
                Seq<u8>,
                EfiError,
            >(EfiError { status: INVALID_PARAMETER })
        }),
{
}

/// Reading two neighbouring runs of blocks gives the same bytes as reading both at once.
pub proof fn law_reads_concatenate(disk: Seq<u8>, lba: u64, first: usize, second: usize)
    requires
        first % 512 == 0,
        first + second <= usize::MAX,
        lba + first / 512 <= u64::MAX,
        blocks_read(disk, RAM_DISK_MEDIA_ID, lba, (first + second) as usize) is Ok,
    ensures
        blocks_read(disk, RAM_DISK_MEDIA_ID, lba, first) is Ok,
        blocks_read(disk, RAM_DISK_MEDIA_ID, (lba + first / 512) as u64, second) is Ok,
        blocks_read(disk, RAM_DISK_MEDIA_ID, lba, (first + second) as usize)->Ok_0 == blocks_read(
            disk,
            RAM_DISK_MEDIA_ID,
            lba,
            first,
        )->Ok_0 + blocks_read(
            disk,
            RAM_DISK_MEDIA_ID,
            (lba + first / 512) as u64,
            second,
        )->Ok_0,
{
}

/// The RAM disk's device path is one, of 24 bytes, and is no USB path.
pub proof fn law_ram_disk_path_well_formed()
    ensures
        device_path::well_formed(ram_disk_path()),
        device_path::spec_device_path_size(ram_disk_path()) == 24,
        !device_path::has_usb_node(ram_disk_path()),
{
    reveal_with_fuel(device_path::walk_end, 3);
    reveal_with_fuel(device_path::nodes_from, 3);
}

/// Once the device path was refused, the protocol state is freed if and only if the block
/// I/O interface could be taken back, else the interface stays installed; and the result is
/// the refusal.
pub proof fn law_register_rolls_back(refusal: EfiError, rollback: Result<(), EfiError>)
    ensures
        ({
            let refused = next_register_stage(
                RegisterStage::InstallingDevicePath,
                Err(refusal),
            );
            next_register_stage(refused, rollback) == (RegisterStage::Finished {
                result: Err(refusal),
                free_state: rollback is Ok,
                installed: rollback is Err,
            })
        }),
{
}

/// An install reports success if and only if both interfaces were installed. The block I/O
/// interface is left on the handle if it was installed and not taken back, and its protocol
/// state is never freed under it.
pub proof fn law_register_result(
    block_io: Result<(), EfiError>,
    path: Result<(), EfiError>,
    third: Result<(), EfiError>,
)
    ensures
        ({
            let first = next_register_stage(RegisterStage::InstallingBlockIo, block_io);
            let second = next_register_stage(first, path);
            let last = next_register_stage(second, third);
            &&& last is Finished
            &&& last->result is Ok <==> block_io is Ok && path is Ok
            &&& last->installed <==> block_io is Ok && (path is Ok || third is Err)
            &&& last->installed ==> !last->free_state
        }),
{
}

/// A teardown succeeds, and so frees the protocol state, if and only if both interfaces were
/// uninstalled; whether drivers could be disconnected does not matter.
pub proof fn law_teardown_frees_after_uninstalls(
    disconnected: Result<(), EfiError>,
    path: Result<(), EfiError>,
    block_io: Result<(), EfiError>,
)
    ensures
        ({
            let first = next_teardown_stage(TeardownStage::Disconnecting, disconnected);
            let second = next_teardown_stage(first, path);
            let last = next_teardown_stage(second, block_io);
            last == TeardownStage::Finished(
                if path is Err {
                    path
                } else {
                    block_io
                },
            )
        }),
{
}

/// A read gives exactly the bytes of the disk at its place, and each reason against it has
/// its own error: another medium, a place beyond the end, or no whole number of blocks, the
/// first that holds.
pub proof fn law_reads_are_the_disks_bytes(disk: Seq<u8>, media_id: u32, lba: u64, size: usize)
    ensures
        ({
            let read = blocks_read(disk, media_id, lba, size);
            &&& media_id != 0 ==> read == Err::<Seq<u8>, EfiError>(
                EfiError { status: MEDIA_CHANGED },
            )
            &&& media_id == 0 && lba * 512 + size > disk.len() ==> read == Err::<
                Seq<u8>,
                EfiError,
            >(EfiError { status: INVALID_PARAMETER })
            &&& media_id == 0 && lba * 512 + size <= disk.len() && size % 512 != 0 ==> read == Err::<
                Seq<u8>,
                EfiError,
            >(EfiError { status: BAD_BUFFER_SIZE })
            &&& media_id == 0 && lba * 512 + size <= disk.len() && size % 512 == 0 ==> {
                &&& read matches Ok(bytes)
                &&& bytes.len() == size
                &&& forall|i: int| 0 <= i < size ==> #[trigger] bytes[i] == disk[lba * 512 + i]
            }
        }),
{
}

/// The whole course of an install: block I/O comes before the device path, controllers are
/// connected only once both are there, a refused device path leads to a rollback and nothing
/// else, and the error is that of the interface that was refused.
pub proof fn law_install_takes_its_course(
    block_io: Result<(), EfiError>,
    path: Result<(), EfiError>,
    third: Result<(), EfiError>,
    late: Result<(), EfiError>,
)
    ensures
        ({
            let first = next_register_stage(RegisterStage::InstallingBlockIo, block_io);
            let second = next_register_stage(first, path);
            let last = next_register_stage(second, third);
            &&& block_io is Ok ==> first == RegisterStage::InstallingDevicePath
            &&& block_io is Ok && path is Ok ==> second == RegisterStage::Connecting && last == (
            RegisterStage::Finished { result: Ok(()), free_state: false, installed: true })
            &&& block_io is Ok ==> (path matches Err(e) ==> second == RegisterStage::RollingBack(e)
                && last == (RegisterStage::Finished {
                result: Err(e),
                free_state: third is Ok,
                installed: third is Err,
            }))
            &&& block_io matches Err(e) ==> first == (RegisterStage::Finished {
                result: Err(e),
                free_state: false,
                installed: false,
            }) && last == first
            &&& next_register_stage(last, late) == last
        }),
{
}

/// The whole course of a teardown: drivers are disconnected first, then the device path and
/// only then block I/O is uninstalled, and the first refusal ends it.
pub proof fn law_teardown_takes_its_course(
    disconnected: Result<(), EfiError>,
    path: Result<(), EfiError>,
    block_io: Result<(), EfiError>,
    late: Result<(), EfiError>,
)
    ensures
        ({
            let first = next_teardown_stage(TeardownStage::Disconnecting, disconnected);
            let second = next_teardown_stage(first, path);
            let last = next_teardown_stage(second, block_io);
            &&& first == TeardownStage::UninstallingDevicePath
            &&& path is Ok ==> second == TeardownStage::UninstallingBlockIo && last
                == TeardownStage::Finished(block_io)
            &&& path is Err ==> second == TeardownStage::Finished(path) && last == second
            &&& next_teardown_stage(last, late) == last
        }),
{
}

/// The RAM disk's device path is a vendor media node of twenty bytes, with the identifier
/// 5d0b1c7e-8a2f-4e5c-9d3a-7b8e9f1c2d4a in UEFI's byte order, and the end of the path.
pub proof fn law_ram_disk_path_bytes()
    ensures
        ({
            let path = ram_disk_path();
            &&& path.len() == 24
            &&& path.take(4) == seq![4u8, 3, 20, 0]
            &&& path[4] + 256 * (path[5] + 256 * (path[6] + 256 * path[7])) == 0x5d0b1c7e
            &&& path[8] + 256 * path[9] == 0x8a2f
            &&& path[10] + 256 * path[11] == 0x4e5c
            &&& path.subrange(12, 20) == seq![0x9du8, 0x3a, 0x7b, 0x8e, 0x9f, 0x1c, 0x2d, 0x4a]
            &&& path.skip(20) == seq![0x7fu8, 0xff, 4, 0]
        }),
        RAM_DISK_BLOCK_SIZE == 512,
        RAM_DISK_MEDIA_ID == 0,
        REVISION == 0x1_0000,
{
    let path = ram_disk_path();
    assert(path.take(4) =~= seq![4u8, 3, 20, 0]);
    assert(path.subrange(12, 20) =~= seq![0x9du8, 0x3a, 0x7b, 0x8e, 0x9f, 0x1c, 0x2d, 0x4a]);
    assert(path.skip(20) =~= seq![0x7fu8, 0xff, 4, 0]);
}

} // verus!
