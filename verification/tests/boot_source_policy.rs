use odp_platform_common::boot_source_policy::{BootSourcePolicy, SecureBootState};
use odp_platform_common::device_path::DevicePathBuf;

const END: [u8; 4] = [0x7f, 0xff, 0x04, 0x00];

/// ACPI node of a PCI root bridge.
fn acpi_node(root: u32) -> Vec<u8> {
    let mut bytes = vec![0x02, 0x01, 0x0c, 0x00, 0xd0, 0x41, 0x03, 0x0a];
    bytes.extend_from_slice(&root.to_le_bytes());
    bytes
}

/// PCI node of function 0 of device 1.
fn pci_node() -> Vec<u8> {
    vec![0x01, 0x01, 0x06, 0x00, 0x00, 0x01]
}

/// Hard-drive node of a GPT partition.
fn gpt_node(number: u32, start: u64, size: u64, guid: [u8; 16]) -> Vec<u8> {
    let mut bytes = vec![0x04, 0x01, 42, 0x00];
    bytes.extend_from_slice(&number.to_le_bytes());
    bytes.extend_from_slice(&start.to_le_bytes());
    bytes.extend_from_slice(&size.to_le_bytes());
    bytes.extend_from_slice(&guid);
    bytes.extend_from_slice(&[0x02, 0x02]);
    bytes
}

fn path(nodes: &[Vec<u8>]) -> DevicePathBuf {
    let mut bytes: Vec<u8> = nodes.concat();
    bytes.extend_from_slice(&END);
    DevicePathBuf::from_bytes(bytes)
}

fn internal_path(root: u32) -> DevicePathBuf {
    path(&[acpi_node(root), pci_node(), gpt_node(1, 2048, 1_000_000, [root as u8; 16])])
}

fn short_form_internal_path(root: u32) -> DevicePathBuf {
    path(&[gpt_node(1, 2048, 1_000_000, [root as u8; 16])])
}

fn usb_path() -> DevicePathBuf {
    let bytes = [0x03, 0x05, 0x06, 0x00, 0x00, 0x00, 0x7f, 0xff, 0x04, 0x00];
    DevicePathBuf::from_bytes(bytes.to_vec())
}

#[test]
fn default_policy_denies_all_sources() {
    let policy = BootSourcePolicy::new();
    assert!(!policy.has_sources());
    assert!(!policy.allows_device(&internal_path(0)));
}

#[test]
fn approved_internal_identity_matches_only_that_partition() {
    let approved = internal_path(0);
    let policy = BootSourcePolicy::new().with_approved_internal_device(approved.clone());

    assert!(policy.allows_device(&approved));
    assert!(!policy.allows_device(&internal_path(1)));
}

#[test]
fn short_form_internal_approval_matches_full_device_path() {
    let approved = short_form_internal_path(0);
    let candidate = internal_path(0);
    let policy = BootSourcePolicy::new().with_approved_internal_device(approved);

    assert!(policy.has_sources());
    assert!(policy.allows_device(&candidate));
}

#[test]
fn broad_controller_prefix_is_not_an_approved_volume() {
    let controller = path(&[acpi_node(0)]);
    let candidate = internal_path(0);
    let policy = BootSourcePolicy::new().with_approved_internal_device(controller);

    assert!(!policy.has_sources());
    assert!(!policy.allows_device(&candidate));
}

#[test]
fn removable_media_requires_separate_opt_in() {
    let usb = usb_path();
    let internal_only = BootSourcePolicy::new().with_approved_internal_device(usb.clone());
    assert!(!internal_only.allows_device(&usb));

    let removable = internal_only.allow_removable_media();
    assert!(removable.allows_device(&usb));
}

#[test]
fn non_enforcing_security_states_require_opt_in() {
    let default = BootSourcePolicy::new();
    assert!(default.allows_security_state(SecureBootState::Enabled));
    assert!(!default.allows_security_state(SecureBootState::Disabled));
    assert!(!default.allows_security_state(SecureBootState::SetupMode));

    let permissive = default.allow_when_secure_boot_disabled().allow_in_setup_mode();
    assert!(permissive.allows_security_state(SecureBootState::Disabled));
    assert!(permissive.allows_security_state(SecureBootState::SetupMode));
}

#[test]
fn partition_start_and_size_do_not_identify_a_partition() {
    let approved = path(&[gpt_node(1, 2048, 1_000_000, [9; 16])]);
    let moved = path(&[gpt_node(1, 4096, 7, [9; 16])]);
    let renumbered = path(&[gpt_node(0x0100_0001, 2048, 1_000_000, [9; 16])]);
    let policy = BootSourcePolicy::default().with_approved_internal_device(approved);
    assert!(policy.allows_device(&moved));
    assert!(!policy.allows_device(&renumbered));
}

#[test]
fn a_usb_volume_on_an_approved_partition_still_needs_the_opt_in() {
    let usb_volume = path(&[
        vec![0x03, 0x05, 0x06, 0x00, 0x00, 0x00],
        gpt_node(1, 2048, 1_000_000, [3; 16]),
    ]);
    let policy = BootSourcePolicy::new()
        .with_approved_internal_device(path(&[gpt_node(1, 2048, 1_000_000, [3; 16])]));
    assert!(!policy.allows_device(&usb_volume));
    assert!(policy.clone().allow_removable_media().allows_device(&usb_volume));
}

#[test]
fn a_second_approval_keeps_the_first() {
    let policy = BootSourcePolicy::new()
        .with_approved_internal_device(internal_path(0))
        .with_approved_internal_device(internal_path(1));
    assert!(policy.allows_device(&internal_path(0)));
    assert!(policy.allows_device(&internal_path(1)));
    assert!(!policy.allows_device(&internal_path(2)));
}

#[test]
fn a_truncated_partition_node_names_no_partition() {
    let mut bytes = gpt_node(1, 2048, 1_000_000, [3; 16]);
    bytes.truncate(41);
    bytes[2] = 41;
    let policy = BootSourcePolicy::new().with_approved_internal_device(path(&[bytes.clone()]));
    assert!(!policy.has_sources());
    assert!(!policy.allows_device(&path(&[bytes])));
}
