use odp_platform_common::block_io::{
    ram_disk_device_path, ram_disk_flush_blocks, ram_disk_media, ram_disk_read_blocks,
    ram_disk_reset, ram_disk_write_blocks, register_ram_disk, teardown, Media, RegisterStage,
    TeardownStage,
};
use odp_platform_common::bp_recovery::{
    bp_has_sre_payload, chainload_from_ramdisk, chainload_path, head_read, image_read,
    register_reply, run_sre_flow, ChainloadReply, ChainloadStage, RecoveryReply, RecoveryStage,
    BPSIZE_BYTES,
};
use odp_platform_common::device_path::{build_file_path_node, device_path_size, DevicePathBuf};
use odp_platform_common::efi::{
    EfiError, BAD_BUFFER_SIZE, ERROR_BIT, INVALID_PARAMETER, MEDIA_CHANGED, NOT_FOUND,
    OUT_OF_RESOURCES, SUCCESS, WRITE_PROTECTED,
};
use odp_platform_common::nvme_pass_thru::{
    identify_controller, probe_max_transfer, read_bp_via_log_page as prepare_read, Command,
    CommandPacket, Completion, IDENTIFY_BUFFER_BYTES, IDENTIFY_CNS_CONTROLLER,
    ID_CTRL_OFFSET_MDTS, LID_BOOT_PARTITION, LID_BP_HEADER_BYTES, OPCODE_IDENTIFY,
    READ_CHUNK_DEFAULT, READ_CHUNK_MAX, READ_CHUNK_MIN,
};

const DEVICE_ERROR: usize = ERROR_BIT + 7;
const REFUSED: EfiError = EfiError { status: DEVICE_ERROR };

/// Probe the transfer limit through a pass-through call.
fn probe(mut pass_thru: impl FnMut(&CommandPacket, &mut [u8]) -> usize) -> usize {
    let mut buf = vec![0u8; IDENTIFY_BUFFER_BYTES];
    let packet = identify_controller();
    let status = pass_thru(&packet, &mut buf);
    probe_max_transfer(if status == SUCCESS { Some(&buf) } else { None })
}

/// An Identify Controller call that reports `mdts` and keeps the packet.
fn identify_with_mdts(mdts: u8) -> (usize, CommandPacket) {
    let mut seen = None;
    let chunk = probe(|packet, buf| {
        assert_eq!(buf.len(), packet.transfer_length as usize);
        seen = Some(*packet);
        buf[ID_CTRL_OFFSET_MDTS] = mdts;
        SUCCESS
    });
    (chunk, seen.unwrap())
}

#[test]
fn test_probe_max_transfer_mdts_7_yields_512_kib() {
    let (chunk, packet) = identify_with_mdts(7);
    // MDTS=7 -> 128 * 4096 = 512 KiB; equals READ_CHUNK_MAX, returned as-is.
    assert_eq!(chunk, 512 * 1024);
    // CDW0 opcode + CDW10 CNS=1 must match Identify Controller request.
    assert_eq!(packet.nvme_cmd.cdw0 & 0xFF, OPCODE_IDENTIFY as u32);
    assert_eq!(packet.nvme_cmd.cdw10, IDENTIFY_CNS_CONTROLLER);
}

#[test]
fn test_probe_max_transfer_mdts_0_yields_chunk_max() {
    let (chunk, _) = identify_with_mdts(0);
    assert_eq!(
        chunk, READ_CHUNK_MAX,
        "MDTS=0 (no limit) clamps to self-imposed ceiling"
    );
}

#[test]
fn test_probe_max_transfer_mdts_low_clamps_to_min() {
    // MDTS=3 -> 8 * 4096 = 32 KiB, below READ_CHUNK_MIN.
    let (chunk, _) = identify_with_mdts(3);
    assert_eq!(chunk, READ_CHUNK_MIN, "below floor clamps to READ_CHUNK_MIN");
}

#[test]
fn test_probe_max_transfer_identify_failure_uses_default() {
    let chunk = probe(|_, _| DEVICE_ERROR);
    assert_eq!(chunk, READ_CHUNK_DEFAULT);
}

#[test]
fn every_mdts_gives_the_clamped_power_of_two() {
    for mdts in 0..=255u8 {
        let limit = 1u128
            .checked_shl(mdts as u32)
            .and_then(|pages| pages.checked_mul(4096))
            .unwrap_or(u128::MAX);
        let expected = if mdts == 0 {
            READ_CHUNK_MAX
        } else {
            limit.clamp(READ_CHUNK_MIN as u128, READ_CHUNK_MAX as u128) as usize
        };
        assert_eq!(identify_with_mdts(mdts).0, expected, "mdts {mdts}");
    }
}

#[test]
fn identify_packet_is_an_admin_command() {
    let packet = identify_controller();
    assert_eq!(packet.queue_type, 0);
    assert_eq!(packet.command_timeout, 50_000_000);
    assert_eq!(packet.metadata_length, 0);
    assert_eq!(packet.nvme_cmd.flags, 1 << 2);
    assert_eq!(packet.nvme_cmd.nsid, 0);
    assert_eq!(Command::default().cdw10, 0);
    assert_eq!(Completion::default(), Completion { dw0: 0, dw1: 0, dw2: 0, dw3: 0 });
}

/// Read a boot partition through a pass-through call.
fn read_bp_via_log_page(
    mut pass_thru: impl FnMut(&CommandPacket, &mut [u8]) -> usize,
    bp_id: u8,
    chunk_bytes: usize,
    dest: &mut [u8],
) -> Result<(), EfiError> {
    let mut read = prepare_read(bp_id, chunk_bytes, dest.len())?;
    while let Some(request) = read.request() {
        let part = &mut dest[request.offset..request.offset + request.length];
        let status = pass_thru(&request.packet, part);
        read.complete(status)?;
    }
    Ok(())
}

fn lpol(packet: &CommandPacket) -> u64 {
    (packet.nvme_cmd.cdw12 as u64) | ((packet.nvme_cmd.cdw13 as u64) << 32)
}

#[test]
fn test_read_bp_via_log_page_single_chunk_skips_lid_header() {
    let mut seen = Vec::new();
    let mut dest = vec![0u8; 64 * 1024];
    let result = read_bp_via_log_page(
        |packet, part| {
            seen.push(*packet);
            assert_eq!(part.len(), packet.transfer_length as usize);
            part.fill(0xA5);
            SUCCESS
        },
        1,
        64 * 1024,
        &mut dest,
    );
    assert!(result.is_ok());
    assert_eq!(seen.len(), 1);
    assert_eq!(lpol(&seen[0]), LID_BP_HEADER_BYTES);
    let cdw10 = seen[0].nvme_cmd.cdw10;
    assert_eq!(cdw10 & 0xFF, LID_BOOT_PARTITION, "LID byte");
    assert_eq!((cdw10 >> 8) & 0x7F, 1, "BPID in LSP");
    assert_eq!(dest[0], 0xA5, "destination buffer was populated");
}

#[test]
fn test_read_bp_via_log_page_propagates_failure() {
    let mut dest = vec![0u8; 64 * 1024];
    let result = read_bp_via_log_page(|_, _| DEVICE_ERROR, 1, 64 * 1024, &mut dest);
    assert!(result.is_err());
    assert_eq!(result, Err(EfiError { status: DEVICE_ERROR }));
}

#[test]
fn test_read_bp_via_log_page_rejects_unaligned_sizes() {
    let fails = |_: &CommandPacket, _: &mut [u8]| -> usize { panic!("no command is issued") };
    let mut dest = [0u8; 64];
    // Zero and non-dword chunk sizes must be rejected before any command is issued.
    assert!(read_bp_via_log_page(fails, 1, 0, &mut dest).is_err());
    assert!(read_bp_via_log_page(fails, 1, 6, &mut dest).is_err());
    let invalid = Err(EfiError { status: INVALID_PARAMETER });
    assert_eq!(read_bp_via_log_page(fails, 1, 4, &mut dest[..63]), invalid);
    assert_eq!(read_bp_via_log_page(fails, 1, 4, &mut dest[..0]), Ok(()));
}

#[test]
fn chunks_tile_the_destination_and_carry_their_offset() {
    let mut seen = Vec::new();
    let mut dest = vec![0u8; 100];
    read_bp_via_log_page(
        |packet, part| {
            for (i, byte) in part.iter_mut().enumerate() {
                *byte = (lpol(packet) - 16) as u8 + i as u8;
            }
            seen.push((lpol(packet), packet.transfer_length, packet.nvme_cmd));
            SUCCESS
        },
        0x81,
        32,
        &mut dest,
    )
    .unwrap();
    assert_eq!(dest, (0..100).collect::<Vec<u8>>());
    let spans: Vec<(u64, u32)> = seen.iter().map(|s| (s.0, s.1)).collect();
    assert_eq!(spans, vec![(16, 32), (48, 32), (80, 32), (112, 4)]);
    // NUMD is zero-based in dwords, the partition goes in seven bits.
    assert_eq!(seen[0].2.cdw10, (7 << 16) | (1 << 8) | 0x15);
    assert_eq!(seen[3].2.cdw10, (1 << 8) | 0x15);
    assert_eq!(seen[0].2.cdw11, 0);
    assert_eq!(seen[0].2.flags, (1 << 2) | (1 << 3) | (1 << 4) | (1 << 5));
    assert_eq!(seen[0].2.cdw0, 0x02);
}

#[test]
fn large_requests_split_the_dword_count_and_the_offset() {
    let mut read = prepare_read(1, 0x10_0000, 0x2_0000_0000).unwrap();
    let request = read.request().unwrap();
    let numd = 0x10_0000 / 4 - 1;
    assert_eq!(request.packet.nvme_cmd.cdw10 >> 16, numd & 0xffff);
    assert_eq!(request.packet.nvme_cmd.cdw11, numd >> 16);
    assert_eq!(request.packet.command_timeout, 100_000_000);
    for _ in 0..0x1_0000_0000u64 / 0x10_0000 {
        read.complete(SUCCESS).unwrap();
    }
    let request = read.request().unwrap();
    assert_eq!(request.offset, 0x1_0000_0000);
    assert_eq!(request.packet.nvme_cmd.cdw12, 16);
    assert_eq!(request.packet.nvme_cmd.cdw13, 1);
}

#[test]
fn a_chunk_beyond_the_destination_is_cut_to_it() {
    let mut read = prepare_read(1, 0x2_0000_0000, 64).unwrap();
    let request = read.request().unwrap();
    assert_eq!((request.offset, request.length), (0, 64));
    assert_eq!(request.packet.transfer_length, 64);
    assert_eq!(request.packet.nvme_cmd.cdw10 >> 16, 15);
    read.complete(SUCCESS).unwrap();
    assert!(read.request().is_none());
}

#[test]
fn a_failed_request_stays_where_it_was() {
    let mut read = prepare_read(1, 4, 8).unwrap();
    let first = read.request();
    assert_eq!(read.complete(DEVICE_ERROR), Err(REFUSED));
    assert_eq!(read.request(), first);
    assert_eq!(read.complete(SUCCESS), Ok(()));
    assert_eq!(read.complete(SUCCESS), Ok(()));
    assert_eq!(read.request(), None);
}

#[test]
fn payload_is_recognized_by_its_signature_alone() {
    let mut head = [0u8; 512];
    assert!(!bp_has_sre_payload(None));
    assert!(!bp_has_sre_payload(Some(&head)));
    head[510] = 0x55;
    assert!(!bp_has_sre_payload(Some(&head)));
    head[511] = 0xaa;
    assert!(bp_has_sre_payload(Some(&head)));
    head[0] = 0x33;
    assert!(bp_has_sre_payload(Some(&head)));
    head[510] = 0xaa;
    head[511] = 0x55;
    assert!(!bp_has_sre_payload(Some(&head)));
}

#[test]
fn the_head_is_one_request_of_a_sector() {
    let mut read = head_read();
    let request = read.request().unwrap();
    assert_eq!((request.offset, request.length), (0, 512));
    assert_eq!(request.packet.nvme_cmd.cdw10 >> 8 & 0x7f, 1);
    read.complete(SUCCESS).unwrap();
    assert!(read.request().is_none());
}

#[test]
fn the_partition_is_read_in_whole_chunks() {
    let mut read = prepare_read(1, READ_CHUNK_MAX, BPSIZE_BYTES).unwrap();
    let mut requests = 0;
    while let Some(request) = read.request() {
        assert_eq!(request.length, READ_CHUNK_MAX);
        read.complete(SUCCESS).unwrap();
        requests += 1;
    }
    assert_eq!(requests * READ_CHUNK_MAX, BPSIZE_BYTES);
}

// ── RAM disk ──────────────────────────────────────────────────────────────────

#[test]
fn media_describe_a_read_only_logical_partition() {
    assert_eq!(
        ram_disk_media(4 * 512),
        Media {
            media_id: 0,
            removable_media: false,
            media_present: true,
            logical_partition: true,
            read_only: true,
            write_caching: false,
            block_size: 512,
            io_align: 0,
            last_block: 3,
        }
    );
    assert_eq!(ram_disk_media(0).last_block, 0);
    assert_eq!(ram_disk_media(511).last_block, 0);
    assert_eq!(ram_disk_media(1025).last_block, 1);
}

#[test]
fn blocks_read_as_the_bytes_of_the_disk() {
    let disk: Vec<u8> = (0..3 * 512).map(|i| (i / 512 * 10 + i % 7) as u8).collect();
    assert_eq!(ram_disk_read_blocks(&disk, 0, 1, 512).unwrap(), &disk[512..1024]);
    assert_eq!(ram_disk_read_blocks(&disk, 0, 0, 3 * 512).unwrap(), disk.as_slice());
    assert_eq!(ram_disk_read_blocks(&disk, 0, 3, 0).unwrap(), &[] as &[u8]);
    // Two neighbouring reads give what one read of both gives.
    let mut both = ram_disk_read_blocks(&disk, 0, 1, 512).unwrap().to_vec();
    both.extend_from_slice(ram_disk_read_blocks(&disk, 0, 2, 512).unwrap());
    assert_eq!(ram_disk_read_blocks(&disk, 0, 1, 1024).unwrap(), both.as_slice());
}

#[test]
fn bad_reads_are_refused() {
    let disk = vec![0u8; 1024];
    let status = |r: Result<&[u8], EfiError>| r.unwrap_err().status;
    assert_eq!(status(ram_disk_read_blocks(&disk, 1, 0, 512)), MEDIA_CHANGED);
    assert_eq!(status(ram_disk_read_blocks(&disk, 0, 2, 512)), INVALID_PARAMETER);
    assert_eq!(status(ram_disk_read_blocks(&disk, 0, u64::MAX, 512)), INVALID_PARAMETER);
    assert_eq!(status(ram_disk_read_blocks(&disk, 0, 0, usize::MAX)), INVALID_PARAMETER);
    assert_eq!(status(ram_disk_read_blocks(&disk, 0, 0, 100)), BAD_BUFFER_SIZE);
    // The media identifier is looked at first, the end of the disk second.
    assert_eq!(status(ram_disk_read_blocks(&disk, 9, u64::MAX, 1)), MEDIA_CHANGED);
    assert_eq!(status(ram_disk_read_blocks(&disk, 0, 2, 1)), INVALID_PARAMETER);
}

#[test]
fn writes_are_refused_and_the_rest_succeeds() {
    assert_eq!(ram_disk_write_blocks(), WRITE_PROTECTED);
    assert_eq!(ram_disk_reset(), SUCCESS);
    assert_eq!(ram_disk_flush_blocks(), SUCCESS);
}

#[test]
fn a_refused_device_path_rolls_the_install_back() {
    let stage = register_ram_disk(RegisterStage::InstallingBlockIo, Ok(()));
    assert_eq!(stage, RegisterStage::InstallingDevicePath);
    let stage = register_ram_disk(stage, Err(REFUSED));
    assert_eq!(stage, RegisterStage::RollingBack(REFUSED));
    assert_eq!(
        register_ram_disk(stage, Ok(())),
        RegisterStage::Finished { result: Err(REFUSED), free_state: true, installed: false }
    );
    assert_eq!(
        register_ram_disk(stage, Err(EfiError { status: 1 })),
        RegisterStage::Finished { result: Err(REFUSED), free_state: false, installed: true }
    );
}

#[test]
fn an_install_succeeds_whether_or_not_a_driver_binds() {
    for connected in [Ok(()), Err(REFUSED)] {
        let stage = register_ram_disk(RegisterStage::InstallingDevicePath, Ok(()));
        assert_eq!(stage, RegisterStage::Connecting);
        assert_eq!(
            register_ram_disk(stage, connected),
            RegisterStage::Finished { result: Ok(()), free_state: false, installed: true }
        );
    }
    let refused = register_ram_disk(RegisterStage::InstallingBlockIo, Err(REFUSED));
    assert_eq!(
        refused,
        RegisterStage::Finished { result: Err(REFUSED), free_state: false, installed: false }
    );
    assert_eq!(register_ram_disk(refused, Ok(())), refused);
}

#[test]
fn a_teardown_ends_at_the_first_refused_uninstall() {
    let stage = teardown(TeardownStage::Disconnecting, Err(REFUSED));
    assert_eq!(stage, TeardownStage::UninstallingDevicePath);
    assert_eq!(teardown(stage, Err(REFUSED)), TeardownStage::Finished(Err(REFUSED)));
    let stage = teardown(stage, Ok(()));
    assert_eq!(stage, TeardownStage::UninstallingBlockIo);
    assert_eq!(teardown(stage, Err(REFUSED)), TeardownStage::Finished(Err(REFUSED)));
    assert_eq!(teardown(stage, Ok(())), TeardownStage::Finished(Ok(())));
}

#[test]
fn the_ram_disk_path_is_a_vendor_node() {
    let path = ram_disk_device_path();
    let bytes = path.as_bytes();
    assert_eq!(device_path_size(bytes), 24);
    assert_eq!(&bytes[..4], &[0x04, 0x03, 0x14, 0x00]);
    assert_eq!(
        &bytes[4..20],
        r_efi::efi::Guid::from_fields(
            0x5d0b1c7e,
            0x8a2f,
            0x4e5c,
            0x9d,
            0x3a,
            &[0x7b, 0x8e, 0x9f, 0x1c, 0x2d, 0x4a]
        )
        .as_bytes()
    );
}

// ── Chainload ─────────────────────────────────────────────────────────────────

const FILE: &str = "\\EFI\\Boot\\bootx64.efi";

/// A volume on the RAM disk: its nodes, one more, and the end.
fn ram_disk_volume() -> DevicePathBuf {
    let mut bytes = ram_disk_device_path().as_bytes()[..20].to_vec();
    bytes.extend_from_slice(&[0x04, 0x02, 0x06, 0x00, 1, 2, 0x7f, 0xff, 0x04, 0x00]);
    DevicePathBuf::from_bytes(bytes)
}

fn other_volume() -> DevicePathBuf {
    DevicePathBuf::from_bytes(vec![0x03, 0x05, 0x06, 0x00, 0, 0, 0x7f, 0xff, 0x04, 0x00])
}

#[test]
fn the_chainload_path_is_on_the_ram_disk() {
    let parent = ram_disk_device_path();
    let volumes = vec![None, Some(other_volume()), Some(ram_disk_volume())];
    let path = chainload_path(&parent, &volumes, FILE).unwrap();
    let mut expected = ram_disk_volume().as_bytes()[..26].to_vec();
    expected.extend_from_slice(&build_file_path_node(FILE));
    assert_eq!(path.as_bytes(), expected.as_slice());
    assert_eq!(device_path_size(path.as_bytes()), expected.len());
}

#[test]
fn a_volume_on_the_ram_disk_itself_is_taken() {
    let parent = ram_disk_device_path();
    let volumes = vec![Some(ram_disk_device_path())];
    let path = chainload_path(&parent, &volumes, FILE).unwrap();
    assert_eq!(&path.as_bytes()[..20], &parent.as_bytes()[..20]);
}

#[test]
fn chainload_errors() {
    let parent = ram_disk_device_path();
    let none = chainload_path(&parent, &vec![None, Some(other_volume())], FILE);
    assert_eq!(none.unwrap_err(), EfiError { status: NOT_FOUND });
    let malformed = DevicePathBuf::from_bytes(vec![1, 1, 0, 0]);
    let volumes = vec![Some(ram_disk_volume())];
    assert_eq!(
        chainload_path(&malformed, &volumes, FILE).unwrap_err(),
        EfiError { status: INVALID_PARAMETER }
    );
    // Everything descends from a bare end node, even a path that is itself malformed.
    let bare = DevicePathBuf::from_bytes(vec![0x7f, 0xff, 0x04, 0x00]);
    assert_eq!(
        chainload_path(&bare, &vec![Some(malformed)], FILE).unwrap_err(),
        EfiError { status: INVALID_PARAMETER }
    );
}

/// Run a chainload with given replies.
fn chainload(
    located: Result<(), EfiError>,
    connected: Result<(), EfiError>,
    listed: Result<Vec<Option<DevicePathBuf>>, EfiError>,
    booted: Result<(), EfiError>,
) -> (Option<Vec<u8>>, Result<(), EfiError>) {
    let parent = ram_disk_device_path();
    let mut listed = Some(listed);
    let mut image = None;
    let mut stage = ChainloadStage::Locating;
    loop {
        let reply = match &stage {
            ChainloadStage::Locating => ChainloadReply::Status(located),
            ChainloadStage::Connecting => ChainloadReply::Status(connected),
            ChainloadStage::Listing => ChainloadReply::Volumes(listed.take().unwrap()),
            ChainloadStage::Booting(path) => {
                image = Some(path.as_bytes().to_vec());
                ChainloadReply::Status(booted)
            }
            ChainloadStage::Finished(result) => return (image, *result),
        };
        stage = chainload_from_ramdisk(&parent, FILE, stage, reply);
    }
}

#[test]
fn a_chainload_boots_the_file_and_returns_its_result() {
    let volumes = vec![Some(ram_disk_volume())];
    let (image, result) = chainload(Ok(()), Err(REFUSED), Ok(volumes), Err(EfiError { status: 3 }));
    let image = image.unwrap();
    assert_eq!(&image[..26], &ram_disk_volume().as_bytes()[..26]);
    assert_eq!(result, Err(EfiError { status: 3 }));
}

#[test]
fn a_chainload_that_finds_nothing_boots_nothing() {
    let (image, result) = chainload(Err(REFUSED), Ok(()), Ok(Vec::new()), Ok(()));
    assert_eq!((image, result), (None, Err(REFUSED)));
    let (image, result) = chainload(Ok(()), Ok(()), Err(REFUSED), Ok(()));
    assert_eq!((image, result), (None, Err(REFUSED)));
    let (image, result) = chainload(Ok(()), Ok(()), Ok(Vec::new()), Ok(()));
    assert_eq!((image, result), (None, Err(EfiError { status: NOT_FOUND })));
}

#[test]
fn a_chainload_with_a_malformed_parent_is_refused_after_connecting() {
    let malformed = DevicePathBuf::from_bytes(Vec::new());
    let stage = chainload_from_ramdisk(
        &malformed,
        FILE,
        ChainloadStage::Connecting,
        ChainloadReply::Status(Ok(())),
    );
    let refused = matches!(
        stage,
        ChainloadStage::Finished(Err(EfiError { status: INVALID_PARAMETER }))
    );
    assert!(refused);
}

// ── Recovery flow ─────────────────────────────────────────────────────────────

/// Run the recovery flow; the stage named `failing` fails, all others succeed.
fn recover(failing: &str) -> (Vec<&'static str>, Result<(), EfiError>, bool) {
    let mut trace = Vec::new();
    let mut stage = RecoveryStage::Connecting;
    loop {
        let name = match stage {
            RecoveryStage::Connecting => "connect",
            RecoveryStage::Locating => "locate",
            RecoveryStage::Identifying => "identify",
            RecoveryStage::Allocating { chunk } => {
                assert_eq!(chunk, 65536);
                "allocate"
            }
            RecoveryStage::Reading { chunk } => {
                assert_eq!(chunk, 65536);
                "read"
            }
            RecoveryStage::Registering => "register",
            RecoveryStage::Chainloading => "chainload",
            RecoveryStage::TearingDown(_) => "teardown",
            RecoveryStage::Finished { result, free_buffer } => return (trace, result, free_buffer),
        };
        trace.push(name);
        let reply = if name == "identify" {
            RecoveryReply::Chunk(65536)
        } else if name == failing {
            RecoveryReply::Status(Err(REFUSED))
        } else {
            RecoveryReply::Status(Ok(()))
        };
        stage = run_sre_flow(stage, reply);
    }
}

#[test]
fn recovery_runs_all_steps_in_order() {
    let all = vec![
        "connect", "locate", "identify", "allocate", "read", "register", "chainload", "teardown",
    ];
    assert_eq!(recover(""), (all.clone(), Ok(()), true));
    assert_eq!(recover("connect"), (all.clone(), Ok(()), true));
    assert_eq!(recover("chainload"), (all, Err(REFUSED), true));
}

#[test]
fn recovery_stops_at_the_first_failure() {
    assert_eq!(recover("locate"), (vec!["connect", "locate"], Err(REFUSED), true));
    let (trace, result, _) = recover("allocate");
    assert_eq!(trace.last(), Some(&"allocate"));
    assert_eq!(result, Err(EfiError { status: OUT_OF_RESOURCES }));
    let (trace, result, free) = recover("read");
    assert_eq!((trace.last(), result, free), (Some(&"read"), Err(REFUSED), true));
    let (trace, result, free) = recover("register");
    assert_eq!((trace.last(), result, free), (Some(&"register"), Err(REFUSED), true));
}

#[test]
fn the_buffer_stays_while_the_ram_disk_does() {
    let (_, result, free_buffer) = recover("teardown");
    assert_eq!(result, Ok(()));
    assert!(!free_buffer);
}

#[test]
fn the_buffer_stays_where_a_registration_could_not_be_rolled_back() {
    let stuck = register_reply(Err(REFUSED), true);
    assert_eq!(stuck, RecoveryReply::RegisterStuck(REFUSED));
    assert_eq!(
        run_sre_flow(RecoveryStage::Registering, stuck),
        RecoveryStage::Finished { result: Err(REFUSED), free_buffer: false }
    );
    let refused = register_reply(Err(REFUSED), false);
    assert_eq!(
        run_sre_flow(RecoveryStage::Registering, refused),
        RecoveryStage::Finished { result: Err(REFUSED), free_buffer: true }
    );
    let registered = register_reply(Ok(()), true);
    assert_eq!(
        run_sre_flow(RecoveryStage::Registering, registered),
        RecoveryStage::Chainloading
    );
    assert_eq!(run_sre_flow(RecoveryStage::Locating, stuck), RecoveryStage::Locating);
}

#[test]
fn the_image_of_the_target_partition_is_read_whole() {
    let mut read = image_read(READ_CHUNK_MAX).unwrap();
    let mut requests = 0;
    let mut end = 0;
    while let Some(request) = read.request() {
        assert_eq!(request.offset, end);
        assert_eq!(request.packet.nvme_cmd.cdw10 >> 8 & 0x7f, 1);
        end += request.length;
        requests += 1;
        read.complete(SUCCESS).unwrap();
    }
    assert_eq!((end, requests), (1024 * 1024 * 1024, 2048));
    let invalid = EfiError { status: INVALID_PARAMETER };
    assert_eq!(image_read(0).unwrap_err(), invalid);
    assert_eq!(image_read(6).unwrap_err(), invalid);
}
