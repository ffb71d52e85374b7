use odp_platform_common::device_path as own;
use odp_platform_common::device_path::{
    append_file_path, build_file_path_node, default_boot_file_path, device_path_has_fw_file_node,
    device_path_has_usb_node, device_path_size, encode_utf16, find_first_usb_sfs_device_path,
    fv_file_device_path, fv_volume_file_device_path, hard_drive_nodes, DevicePathBuf,
    DevicePathWalk, Header, WalkStep, DEVICE_PATH_MAX_BYTES, NODE_HDR_BYTES,
};
use odp_platform_common::efi::Guid;
use r_efi::protocols::device_path as r_efi_path;

const DEFAULT_BOOT_FILE_PATH_IS_AARCH64: bool = false;

#[test]
fn test_build_file_path_node_header_and_path_bytes() {
    let bytes = build_file_path_node("\\X");
    // Expected layout: type=0x04, subtype=0x04, length=4 + 2*3 = 10 (2 bytes LE);
    // UTF-16 LE: 0x005C 0x0058 0x0000; then END_ENTIRE: 0x7F 0xFF 0x04 0x00.
    let expected: &[u8] = &[
        0x04, 0x04, 0x0A, 0x00, // node header
        0x5C, 0x00, 0x58, 0x00, 0x00, 0x00, // UTF-16 "\X\0"
        0x7F, 0xFF, 0x04, 0x00, // END_ENTIRE
    ];
    assert_eq!(bytes.as_slice(), expected);
}

#[test]
fn test_build_file_path_node_overlong_path_falls_back_to_end_node() {
    // A path whose UTF-16 encoding overflows the 16-bit node length must not emit a header
    // that misdescribes the appended bytes; the fallback is a bare END_ENTIRE node.
    let long_path = String::from_utf8(vec![b'a'; 40 * 1024]).unwrap();
    let bytes = build_file_path_node(&long_path);
    assert_eq!(bytes.as_slice(), &[0x7F, 0xFF, 0x04, 0x00]);
}

#[test]
fn the_longest_file_path_that_fits_is_built() {
    // 4 + 2 * (32764 + 1) = 65534 fits; one more unit does not.
    let fits = "a".repeat(32764);
    let bytes = build_file_path_node(&fits);
    assert_eq!(bytes.len(), 65534 + 4);
    assert_eq!(&bytes[..4], &[0x04, 0x04, 0xfe, 0xff]);
    let too_long = "a".repeat(32765);
    assert_eq!(build_file_path_node(&too_long).len(), 4);
}

#[test]
fn test_device_path_size_over_cap_returns_zero() {
    // A chain of valid nodes with no END_ENTIRE inside the 64 KiB cap must be rejected via
    // the cap.
    const NODE_LEN: usize = 1024;
    let mut path = vec![0u8; 72 * 1024];
    let mut off = 0;
    while off + NODE_LEN <= path.len() {
        path[off] = 0x01; // Hardware, arbitrary non-END type
        path[off + 1] = 0x01;
        path[off + 2] = (NODE_LEN & 0xFF) as u8;
        path[off + 3] = (NODE_LEN >> 8) as u8;
        off += NODE_LEN;
    }
    assert_eq!(device_path_size(&path), 0);
}

/// Three valid nodes that consume exactly the cap without an END_ENTIRE node.
fn missing_end_at_cap() -> Vec<u8> {
    let mut path = vec![0u8; DEVICE_PATH_MAX_BYTES + NODE_HDR_BYTES];
    let first_node_len = DEVICE_PATH_MAX_BYTES - (2 * NODE_HDR_BYTES);
    path[0] = 0x01;
    path[1] = 0x01;
    path[2..4].copy_from_slice(&(first_node_len as u16).to_le_bytes());
    for offset in [first_node_len, first_node_len + NODE_HDR_BYTES] {
        path[offset] = 0x01;
        path[offset + 1] = 0x01;
        path[offset + 2..offset + 4].copy_from_slice(&(NODE_HDR_BYTES as u16).to_le_bytes());
    }
    path
}

#[test]
fn test_device_path_size_rejects_missing_end_at_cap() {
    assert_eq!(device_path_size(&missing_end_at_cap()), 0);
}

#[test]
fn a_path_that_ends_exactly_at_the_cap_is_accepted() {
    let mut path = missing_end_at_cap();
    let last = DEVICE_PATH_MAX_BYTES - NODE_HDR_BYTES;
    path[last] = 0x7f;
    path[last + 1] = 0xff;
    assert_eq!(device_path_size(&path), DEVICE_PATH_MAX_BYTES);
}

#[test]
fn test_build_file_path_node_chainload_default() {
    let bytes = build_file_path_node(default_boot_file_path(DEFAULT_BOOT_FILE_PATH_IS_AARCH64));
    // First two bytes must always be the FilePath node type/subtype.
    assert_eq!(bytes[0], 0x04, "MEDIA_DEVICE_PATH type");
    assert_eq!(bytes[1], 0x04, "MEDIA_FILEPATH_DP subtype");
    // Last four bytes must always be the END_ENTIRE node.
    let len = bytes.len();
    assert_eq!(&bytes[len - 4..], &[0x7F, 0xFF, 0x04, 0x00]);
}

#[test]
fn default_boot_file_depends_on_the_architecture() {
    assert_eq!(default_boot_file_path(false), "\\EFI\\Boot\\bootx64.efi");
    assert_eq!(default_boot_file_path(true), "\\EFI\\Boot\\bootaa64.efi");
}

#[test]
fn test_device_path_size_walks_to_end_entire() {
    // Synthetic device path: one ACPI node (type=2, subtype=1, length=12) +
    // END_ENTIRE (type=0x7F, subtype=0xFF, length=4).
    let dp: [u8; 16] = [
        0x02, 0x01, 0x0C, 0x00, // ACPI node header
        0x41, 0xD0, 0x0A, 0x03, // HID
        0x00, 0x00, 0x00, 0x00, // UID
        0x7F, 0xFF, 0x04, 0x00, // END_ENTIRE
    ];
    let size = device_path_size(&dp);
    assert_eq!(size, 16);
}

#[test]
fn test_device_path_size_end_entire_only() {
    let dp: [u8; 4] = [0x7F, 0xFF, 0x04, 0x00];
    let size = device_path_size(&dp);
    assert_eq!(size, 4);
}

#[test]
fn test_device_path_size_rejects_end_entire_with_invalid_length() {
    let dp: [u8; 8] = [0x7F, 0xFF, 0x08, 0x00, 0, 0, 0, 0];
    assert_eq!(device_path_size(&dp), 0);
}

#[test]
fn test_device_path_size_walks_and_rejects_malformed() {
    // Well-formed: single END_ENTIRE node.
    let end_only = [0x7Fu8, 0xFF, 0x04, 0x00];
    assert_eq!(device_path_size(&end_only), 4);

    // Well-formed: one 6-byte node + END_ENTIRE.
    let usb = [0x03u8, 0x05, 0x06, 0x00, 0, 0, 0x7F, 0xFF, 0x04, 0x00];
    assert_eq!(device_path_size(&usb), 10);

    // Malformed: node length 0 would never advance the walk.
    let zero_len = [0x01u8, 0x01, 0x00, 0x00, 0x7F, 0xFF, 0x04, 0x00];
    assert_eq!(device_path_size(&zero_len), 0);

    // Malformed: node length below the 4-byte header minimum.
    let short_len = [0x01u8, 0x01, 0x03, 0x00, 0x7F, 0xFF, 0x04, 0x00];
    assert_eq!(device_path_size(&short_len), 0);
}

#[test]
fn a_missing_header_is_malformed() {
    assert_eq!(device_path_size(&[]), 0);
    assert_eq!(device_path_size(&[0x7f, 0xff, 0x04]), 0);
    assert_eq!(device_path_size(&[0x01, 0x01, 0x08, 0x00, 0, 0, 0, 0]), 0);
    assert_eq!(device_path_size(&[0x01, 0x01, 0xff, 0xff]), 0);
}

#[test]
fn an_end_of_instance_does_not_end_the_path() {
    let dp = [0x7f, 0x01, 0x04, 0x00, 0x7f, 0xff, 0x04, 0x00, 0xaa];
    assert_eq!(device_path_size(&dp), 8);
}

#[test]
fn a_walk_takes_headers_one_by_one() {
    let mut walk = DevicePathWalk::new();
    assert!(walk.wants_header());
    let node = Header { node_type: 0x01, sub_type: 0x01, length: 0xfff8 };
    assert_eq!(walk.feed(node), WalkStep::Continue);
    assert_eq!(walk.consumed, 0xfff8);
    assert!(walk.wants_header());
    let end = Header { node_type: 0x7f, sub_type: 0xff, length: 4 };
    assert_eq!(walk.feed(end), WalkStep::End(0xfffc));

    let mut walk = DevicePathWalk { consumed: 0xfffc };
    assert!(walk.wants_header());
    assert_eq!(walk.feed(Header { node_type: 1, sub_type: 1, length: 5 }), WalkStep::Malformed);
    assert_eq!(walk.consumed, 0xfffc);
    assert!(!DevicePathWalk { consumed: 0xfffd }.wants_header());
}

// Raw node byte streams (header = [type, sub_type, len_lo, len_hi]), matching the UEFI spec
// node layouts.

/// ACPI PciRoot node: type 2 (ACPI), sub 1, len 12.
const NODE_PCI_ROOT: [u8; 12] =
    [0x02, 0x01, 0x0C, 0x00, 0xD0, 0x41, 0x03, 0x0A, 0x00, 0x00, 0x00, 0x00];
/// Messaging/Usb node: type 3, sub 5, len 6.
const NODE_USB: [u8; 6] = [0x03, 0x05, 0x06, 0x00, 0x00, 0x00];
/// Messaging/UsbClass node: type 3, sub 15, len 11.
const NODE_USB_CLASS: [u8; 11] = [0x03, 0x0F, 0x0B, 0x00, 0, 0, 0, 0, 0xFF, 0xFF, 0xFF];
/// Messaging/UsbWwid node: type 3, sub 16, len 10.
const NODE_USB_WWID: [u8; 10] = [0x03, 0x10, 0x0A, 0x00, 0, 0, 0, 0, 0, 0];
/// Messaging/Sata node: type 3, sub 18, len 10.
const NODE_SATA: [u8; 10] = [0x03, 0x12, 0x0A, 0x00, 0, 0, 0xFF, 0xFF, 0, 0];
/// Media/PiwgFirmwareFile node: type 4, sub 6, len 20 (header + GUID).
const NODE_FW_FILE: [u8; 20] =
    [0x04, 0x06, 0x14, 0x00, 0, 0, 0, 0, 0, 0, 0, 0, 0, 0, 0, 0, 0, 0, 0, 0];
/// Media/PiwgFirmwareVolume node: type 4, sub 7, len 20.
const NODE_FW_VOL: [u8; 20] =
    [0x04, 0x07, 0x14, 0x00, 0, 0, 0, 0, 0, 0, 0, 0, 0, 0, 0, 0, 0, 0, 0, 0];
/// Media/Vendor node: type 4, sub 3, len 20. Media type with a non-FW sub-type exercises the
/// sub-type check in the FW-file classifier.
const NODE_MEDIA_VENDOR: [u8; 20] =
    [0x04, 0x03, 0x14, 0x00, 0, 0, 0, 0, 0, 0, 0, 0, 0, 0, 0, 0, 0, 0, 0, 0];
/// Media node whose sub-type collides with Messaging/Usb (type 4, sub 5) exercises the type
/// check in the USB classifier.
const NODE_MEDIA_SUB5: [u8; 20] =
    [0x04, 0x05, 0x14, 0x00, 0, 0, 0, 0, 0, 0, 0, 0, 0, 0, 0, 0, 0, 0, 0, 0];
/// EndEntire node.
const NODE_END: [u8; 4] = [0x7F, 0xFF, 0x04, 0x00];

/// Concatenate `nodes` and terminate with EndEntire.
fn synth_path(nodes: &[&[u8]]) -> Vec<u8> {
    let mut bytes = Vec::new();
    for node in nodes {
        bytes.extend_from_slice(node);
    }
    bytes.extend_from_slice(&NODE_END);
    bytes
}

fn classify<F: Fn(&DevicePathBuf) -> bool>(bytes: &[u8], f: F) -> bool {
    f(&DevicePathBuf::from_bytes(bytes.to_vec()))
}

#[test]
fn test_device_path_has_usb_node_classification() {
    let cases: &[(&str, Vec<u8>, bool)] = &[
        ("pci_root + usb", synth_path(&[&NODE_PCI_ROOT, &NODE_USB]), true),
        ("usb_class", synth_path(&[&NODE_PCI_ROOT, &NODE_USB_CLASS]), true),
        ("usb_wwid", synth_path(&[&NODE_USB_WWID]), true),
        ("sata only", synth_path(&[&NODE_PCI_ROOT, &NODE_SATA]), false),
        ("end only", synth_path(&[]), false),
        (
            "media node with usb sub-type value",
            synth_path(&[&NODE_MEDIA_SUB5]),
            false,
        ),
        ("usb after media", synth_path(&[&NODE_MEDIA_VENDOR, &NODE_USB]), true),
    ];
    for (name, bytes, expected) in cases {
        assert_eq!(classify(bytes, device_path_has_usb_node), *expected, "case: {name}");
    }
}

#[test]
fn test_device_path_has_fw_file_node_classification() {
    let cases: &[(&str, Vec<u8>, bool)] = &[
        ("fw_vol + fw_file", synth_path(&[&NODE_FW_VOL, &NODE_FW_FILE]), true),
        ("fw_vol only", synth_path(&[&NODE_FW_VOL]), true),
        ("fw_file only", synth_path(&[&NODE_FW_FILE]), true),
        ("media vendor only", synth_path(&[&NODE_MEDIA_VENDOR]), false),
        ("messaging only", synth_path(&[&NODE_PCI_ROOT, &NODE_USB]), false),
        ("end only", synth_path(&[]), false),
    ];
    for (name, bytes, expected) in cases {
        assert_eq!(classify(bytes, device_path_has_fw_file_node), *expected, "case: {name}");
    }
}

#[test]
fn nodes_are_listed_in_order() {
    let path = DevicePathBuf::from_bytes(synth_path(&[&NODE_PCI_ROOT, &NODE_USB]));
    let nodes = path.nodes();
    assert_eq!(nodes.len(), 3);
    assert_eq!((nodes[0].node_type, nodes[0].sub_type), (0x02, 0x01));
    assert_eq!(nodes[0].data, NODE_PCI_ROOT[4..].to_vec());
    assert_eq!((nodes[1].node_type, nodes[1].sub_type), (0x03, 0x05));
    assert_eq!(nodes[1].data, vec![0, 0]);
    assert_eq!((nodes[2].node_type, nodes[2].sub_type), (0x7f, 0xff));
    assert!(nodes[2].data.is_empty());
}

#[test]
fn nodes_stop_at_the_first_that_is_not_whole() {
    let mut bytes = synth_path(&[&NODE_USB]);
    bytes.extend_from_slice(&[0x03, 0x05, 0x40, 0x00]);
    assert_eq!(DevicePathBuf::from_bytes(bytes).nodes().len(), 2);
    let spinning = DevicePathBuf::from_bytes(vec![0x01, 0x01, 0x00, 0x00]);
    assert!(spinning.nodes().is_empty());
}

#[test]
fn hard_drives_are_read_from_their_nodes() {
    let mut node = vec![0x04, 0x01, 42, 0x00];
    node.extend_from_slice(&0x0403_0201u32.to_le_bytes());
    node.extend_from_slice(&[0; 16]);
    node.extend_from_slice(&[7; 16]);
    node.extend_from_slice(&[0x02, 0x01]);
    let path = DevicePathBuf::from_bytes(synth_path(&[&NODE_USB, &node]));
    let drives = hard_drive_nodes(&path);
    assert_eq!(drives.len(), 1);
    assert_eq!(drives[0].partition_number, 0x0403_0201);
    assert_eq!(drives[0].partition_signature, vec![7; 16]);
    assert_eq!(drives[0].partition_format, 2);
    assert_eq!(drives[0].signature_type, 1);
}

#[test]
fn utf16_matches_the_standard_encoding() {
    for text in ["", "\\EFI", "caf\u{e9}", "\u{1f980} crab", "\u{10ffff}\u{ffff}\u{10000}"] {
        let expected: Vec<u16> = text.encode_utf16().collect();
        assert_eq!(encode_utf16(text), expected);
    }
}

const FILE_GUID: Guid = Guid {
    time_low: 0x00112233,
    time_mid: 0x4455,
    time_hi_and_version: 0x6677,
    clk_seq_hi_res: 0x88,
    clk_seq_low: 0x99,
    node: [0xaa, 0xbb, 0xcc, 0xdd, 0xee, 0xff],
};

const FILE_GUID_BYTES: [u8; 16] = [
    0x33, 0x22, 0x11, 0x00, 0x55, 0x44, 0x77, 0x66, 0x88, 0x99, 0xaa, 0xbb, 0xcc, 0xdd, 0xee, 0xff,
];

#[test]
fn firmware_file_path_holds_the_file() {
    let path = fv_file_device_path(FILE_GUID);
    let mut expected = vec![0x04, 0x06, 0x14, 0x00];
    expected.extend_from_slice(&FILE_GUID_BYTES);
    expected.extend_from_slice(&NODE_END);
    assert_eq!(path.as_bytes(), expected.as_slice());
    assert_eq!(device_path_size(path.as_bytes()), 24);
    assert!(device_path_has_fw_file_node(&path));
}

#[test]
fn firmware_volume_path_holds_volume_and_file() {
    let volume = Guid { time_low: 1, ..FILE_GUID };
    let path = fv_volume_file_device_path(volume, FILE_GUID);
    let bytes = path.as_bytes();
    assert_eq!(bytes.len(), 44);
    assert_eq!(&bytes[..8], &[0x04, 0x07, 0x14, 0x00, 1, 0, 0, 0]);
    assert_eq!(&bytes[20..24], &[0x04, 0x06, 0x14, 0x00]);
    assert_eq!(&bytes[24..40], &FILE_GUID_BYTES);
    assert_eq!(device_path_size(bytes), 44);
}

#[test]
fn the_first_usb_volume_is_found() {
    let file = "\\EFI\\Boot\\bootx64.efi";
    let sata = DevicePathBuf::from_bytes(synth_path(&[&NODE_PCI_ROOT, &NODE_SATA]));
    let usb = DevicePathBuf::from_bytes(synth_path(&[&NODE_PCI_ROOT, &NODE_USB]));
    let other = DevicePathBuf::from_bytes(synth_path(&[&NODE_USB_WWID]));
    let malformed = DevicePathBuf::from_bytes(NODE_USB.to_vec());
    let volumes = vec![None, Some(sata), Some(malformed), Some(usb), Some(other)];

    let found = find_first_usb_sfs_device_path(&volumes, file).unwrap();
    let mut expected = NODE_PCI_ROOT.to_vec();
    expected.extend_from_slice(&NODE_USB);
    expected.extend_from_slice(&build_file_path_node(file));
    assert_eq!(found.as_bytes(), expected.as_slice());
    assert_eq!(device_path_size(found.as_bytes()), expected.len());

    assert!(find_first_usb_sfs_device_path(&vec![None], file).is_none());
    assert!(find_first_usb_sfs_device_path(&Vec::new(), file).is_none());
}

#[test]
fn a_usb_node_behind_the_end_does_not_count() {
    let mut bytes = synth_path(&[&NODE_SATA]);
    bytes.extend_from_slice(&NODE_USB);
    let volumes = vec![Some(DevicePathBuf::from_bytes(bytes))];
    assert!(find_first_usb_sfs_device_path(&volumes, "\\X").is_none());
}

#[test]
fn a_file_is_appended_before_the_end() {
    let base = DevicePathBuf::from_bytes(synth_path(&[&NODE_SATA]));
    let path = append_file_path(&base, "\\X");
    let mut expected = NODE_SATA.to_vec();
    expected.extend_from_slice(&[0x04, 0x04, 0x0A, 0x00, 0x5C, 0, 0x58, 0, 0, 0]);
    expected.extend_from_slice(&NODE_END);
    assert_eq!(path.as_bytes(), expected.as_slice());
}

#[test]
fn constants_are_those_of_the_uefi_headers() {
    assert_eq!(own::TYPE_MESSAGING, r_efi_path::TYPE_MESSAGING);
    assert_eq!(own::TYPE_MEDIA, r_efi_path::TYPE_MEDIA);
    assert_eq!(own::TYPE_END, r_efi_path::TYPE_END);
    assert_eq!(own::SUBTYPE_END_ENTIRE, r_efi_path::End::SUBTYPE_ENTIRE);
    assert_eq!(own::SUBTYPE_HARD_DRIVE, r_efi_path::Media::SUBTYPE_HARDDRIVE);
    assert_eq!(own::SUBTYPE_FILE_PATH, r_efi_path::Media::SUBTYPE_FILE_PATH);
    assert_eq!(
        own::SUBTYPE_PIWG_FIRMWARE_FILE,
        r_efi_path::Media::SUBTYPE_PIWG_FIRMWARE_FILE
    );
    assert_eq!(
        own::SUBTYPE_PIWG_FIRMWARE_VOLUME,
        r_efi_path::Media::SUBTYPE_PIWG_FIRMWARE_VOLUME
    );
}
