//! Platform-independent logic of the ODP platform tooling: the UEFI boot
//! managers with their NVMe boot-partition recovery path, and the host-side
//! embedded-controller test library.
//!
//! Everything here computes on plain values. Firmware services, Win32 calls and
//! terminal rendering live in the application crate, which performs the actions
//! that the state machines of this library ask for and hands the replies back.

pub mod block_io;
pub mod boot_source_policy;
pub mod bp_recovery;
pub mod capsule;
pub mod device_path;
pub mod efi;
pub mod events;
pub mod le;
pub mod nvme_pass_thru;
pub mod simple_boot_manager;
pub mod sre_boot_manager;
pub mod text;
pub mod ucsi;
pub mod ucsi_view;
pub mod windows;
