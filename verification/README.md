# odp_platform_common

Verified logic of the ODP platform tooling: the UEFI boot managers with their
recovery path, and the host-side embedded-controller test library. The library is
written in Verus. Every function states what it returns or changes, and the
properties that span functions stand beside them as public `law_*` proof functions.

## Layout

- `src/` is the library. It computes on plain values only.
  - `device_path`: device paths as bytes, their walk, their nodes, and built paths
  - `boot_source_policy`: which volumes may be booted outside the provisioned entries
  - `simple_boot_manager`, `sre_boot_manager`: the boot flows as state machines
  - `events`, `capsule`: event-group signaling and the capsule hook
  - `nvme_pass_thru`: NVMe commands and the chunked log-page read
  - `block_io`: the RAM disk, its install and its teardown
  - `bp_recovery`: payload probe, chainload and the recovery flow
  - `ucsi`, `ucsi_view`: the UCSI mailbox and the rows that show it
  - `windows`: device lookup, device requests and wire formats of the Windows source
  - `efi`, `le`, `text`: status codes and GUIDs, little-endian numbers, numbers as text
- `app/` performs what the state machines ask for: firmware calls, Win32 calls and
  terminal rendering.
- `tests/` runs the library on concrete values.

## State machines

Work that only the platform can do is not called from the library. A state machine
takes its stage and what happened, and returns the next stage and what is to be done.
The caller does it and passes the reply. A reply that answers nothing the stage waits
for changes nothing.

## Trusted items

Calls into other crates are wrapped in small functions marked `external_body`. Their
contracts are believed, not proved:

- `le::read_u16`, `le::read_u32`, `le::write_u16` (scroll)
- `efi::error_status` (patina), `efi::Guid::as_bytes` (r-efi)
- `ucsi::decode_capability_fields` (bincode)
