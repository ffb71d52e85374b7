//! Explicit policy for boot sources discovered outside provisioned boot entries.

use vstd::prelude::*;

use crate::device_path;
use crate::device_path::{
    device_path_has_usb_node, hard_drive_identity_matches, hard_drive_nodes, DevicePathBuf,
    PartitionIdentity,
};

verus! {

/// Firmware Secure Boot state used to authorize fallback boot sources.
#[derive(Debug, Clone, Copy, PartialEq, Eq, Structural)]
pub enum SecureBootState {
    /// Secure Boot is enabled and the platform is not in setup mode.
    Enabled,
    /// Secure Boot is disabled and the platform is not in setup mode.
    Disabled,
    /// The platform is provisioning keys in setup mode.
    SetupMode,
}

/// OEM policy for filesystem fallback after provisioned boot options fail.
///
/// The default policy permits no fallback sources. Approved internal volume paths,
/// removable media, and non-enforcing Secure Boot states must each be enabled explicitly.
#[derive(Debug)]
pub struct BootSourcePolicy {
    approved_internal_devices: Vec<DevicePathBuf>,
    allow_removable_media: bool,
    allow_secure_boot_disabled: bool,
    allow_setup_mode: bool,
}

/// What a policy permits.
pub struct PolicyView {
    /// The approved internal volume paths, in the order of their approval.
    pub approved: Seq<Seq<u8>>,
    pub removable_media: bool,
    pub secure_boot_disabled: bool,
    pub setup_mode: bool,
}

impl PolicyView {
    /// The policy that permits no fallback source.
    pub open spec fn deny_all() -> PolicyView {
        PolicyView {
            approved: seq![],
            removable_media: false,
            secure_boot_disabled: false,
            setup_mode: false,
        }
    }

    /// One of the approved volume paths names the partition.
    pub open spec fn approves(self, partition: PartitionIdentity) -> bool {
        exists|i: int|
            0 <= i < self.approved.len() && device_path::names_partition(
                #[trigger] self.approved[i],
                partition,
            )
    }

    /// The policy has a source to offer: removable media, or a partition of an approved
    /// volume path.
    pub open spec fn has_sources(self) -> bool {
        self.removable_media || exists|p: PartitionIdentity| #[trigger] self.approves(p)
    }

    /// Fallback is permitted in the Secure Boot state.
    pub open spec fn allows_security_state(self, state: SecureBootState) -> bool {
        match state {
            SecureBootState::Enabled => true,
            SecureBootState::Disabled => self.secure_boot_disabled,
            SecureBootState::SetupMode => self.setup_mode,
        }
    }

    /// The volume at `candidate` may be booted: a USB volume if removable media is
    /// permitted, another if it names an approved partition.
    pub open spec fn allows_device(self, candidate: Seq<u8>) -> bool {
        if device_path::has_usb_node(candidate) {
            self.removable_media
        } else {
            exists|p: PartitionIdentity| #[trigger]
                self.approves(p) && device_path::names_partition(candidate, p)
        }
    }
}

impl View for BootSourcePolicy {
    type V = PolicyView;

    closed spec fn view(&self) -> PolicyView {
        PolicyView {
            approved: device_path::path_views(self.approved_internal_devices@),
            removable_media: self.allow_removable_media,
            secure_boot_disabled: self.allow_secure_boot_disabled,
            setup_mode: self.allow_setup_mode,
        }
    }
}

impl Default for BootSourcePolicy {
    fn default() -> (policy: Self)
        ensures
            policy@ == PolicyView::deny_all(),
    {
        let policy = BootSourcePolicy {
            approved_internal_devices: Vec::new(),
            allow_removable_media: false,
            allow_secure_boot_disabled: false,
            allow_setup_mode: false,
        };
        assert(policy@.approved =~= seq![]);
        policy
    }
}

impl Clone for BootSourcePolicy {
    fn clone(&self) -> (copy: Self)
        ensures
            copy@ == self@,
    {
        let mut approved: Vec<DevicePathBuf> = Vec::new();
        for i in 0..self.approved_internal_devices.len()
            invariant
                approved@.len() == i,
                forall|j: int|
                    0 <= j < i ==> #[trigger] approved@[j]@
                        == self.approved_internal_devices@[j]@,
        {
            approved.push(self.approved_internal_devices[i].clone());
        }
        let copy = BootSourcePolicy {
            approved_internal_devices: approved,
            allow_removable_media: self.allow_removable_media,
            allow_secure_boot_disabled: self.allow_secure_boot_disabled,
            allow_setup_mode: self.allow_setup_mode,
        };
        assert(copy@.approved =~= self@.approved);
        copy
    }
}

impl BootSourcePolicy {
    /// Create a policy with no fallback sources enabled.
    pub fn new() -> (policy: Self)
        ensures
            policy@ == PolicyView::deny_all(),
    {
        Self::default()
    }

    /// Approve an internal filesystem volume for fallback.
    ///
    /// `device_path` must contain a hard-drive partition node and may end there or go on
    /// to the full volume path. USB paths are never treated as internal; enable them
    /// separately with [`Self::allow_removable_media`].
    pub fn with_approved_internal_device(self, device_path: DevicePathBuf) -> (policy: Self)
        ensures
            policy@ == (PolicyView { approved: self@.approved.push(device_path@), ..self@ }),
    {
        let mut policy = self;
        policy.approved_internal_devices.push(device_path);
        assert(policy@.approved =~= self@.approved.push(device_path@));
        policy
    }

    /// Permit fallback to removable USB filesystem volumes.
    pub fn allow_removable_media(self) -> (policy: Self)
        ensures
            policy@ == (PolicyView { removable_media: true, ..self@ }),
    {
        let mut policy = self;
        policy.allow_removable_media = true;
        policy
    }

    /// Permit fallback while Secure Boot is disabled outside setup mode.
    pub fn allow_when_secure_boot_disabled(self) -> (policy: Self)
        ensures
            policy@ == (PolicyView { secure_boot_disabled: true, ..self@ }),
    {
        let mut policy = self;
        policy.allow_secure_boot_disabled = true;
        policy
    }

    /// Permit fallback while the platform is in Secure Boot setup mode.
    pub fn allow_in_setup_mode(self) -> (policy: Self)
        ensures
            policy@ == (PolicyView { setup_mode: true, ..self@ }),
    {
        let mut policy = self;
        policy.allow_setup_mode = true;
        policy
    }

    /// True if the policy has any fallback source to offer.
    pub fn has_sources(&self) -> (result: bool)
        ensures
            result == self@.has_sources(),
    {
        if self.allow_removable_media {
            return true;
        }
        for i in 0..self.approved_internal_devices.len()
            invariant
                !self@.removable_media,
                forall|j: int, p: PartitionIdentity|
                    0 <= j < i ==> !#[trigger] device_path::names_partition(
                        self@.approved[j],
                        p,
                    ),
        {
            let approved = &self.approved_internal_devices[i];
            assert(approved@ == self@.approved[i as int]);
            let drives = hard_drive_nodes(approved);
            if drives.len() > 0 {
                proof {
                    let p = drives@[0]@;
                    assert(device_path::drive_views(drives@)[0] == p);
                    lemma_names(approved@, p);
                    assert(self@.approves(p));
                }
                return true;
            }
            assert forall|p: PartitionIdentity|
                !#[trigger] device_path::names_partition(approved@, p) by {
                lemma_names(approved@, p);
            }
        }
        false
    }

    /// True if the policy permits fallback in the Secure Boot state.
    pub fn allows_security_state(&self, state: SecureBootState) -> (result: bool)
        ensures
            result == self@.allows_security_state(state),
    {
        match state {
            SecureBootState::Enabled => true,
            SecureBootState::Disabled => self.allow_secure_boot_disabled,
            SecureBootState::SetupMode => self.allow_setup_mode,
        }
    }

    /// True if the policy permits booting the volume at `candidate`.
    pub fn allows_device(&self, candidate: &DevicePathBuf) -> (result: bool)
        ensures
            result == self@.allows_device(candidate@),
    {
        if device_path_has_usb_node(candidate) {
            return self.allow_removable_media;
        }
        let found = hard_drive_nodes(candidate);
        for i in 0..self.approved_internal_devices.len()
            invariant
                !device_path::has_usb_node(candidate@),
                device_path::drive_views(found@) == device_path::partitions_of(
                    device_path::nodes(candidate@),
                ),
                forall|j: int, p: PartitionIdentity|
                    0 <= j < i && device_path::names_partition(candidate@, p)
                        ==> !#[trigger] device_path::names_partition(self@.approved[j], p),
        {
            let approved = &self.approved_internal_devices[i];
            assert(approved@ == self@.approved[i as int]);
            let drives = hard_drive_nodes(approved);
            match matching_drive(&drives, &found) {
                Some(k) => {
                    proof {
                        let p = drives@[k as int]@;
                        assert(device_path::drive_views(drives@)[k as int] == p);
                        lemma_names(approved@, p);
                        lemma_names(candidate@, p);
                        assert(self@.approves(p));
                    }
                    return true;
                },
                None => {
                    assert forall|p: PartitionIdentity|
                        device_path::names_partition(candidate@, p) implies
                        !#[trigger] device_path::names_partition(approved@, p) by {
                        lemma_names(approved@, p);
                        lemma_names(candidate@, p);
                    }
                },
            }
        }
        false
    }
}

/// A path names a partition if and only if its hard-drive nodes do.
proof fn lemma_names(bytes: Seq<u8>, partition: PartitionIdentity)
    ensures
        device_path::names_partition(bytes, partition) == device_path::partitions_of(
            device_path::nodes(bytes),
        ).contains(partition),
{
    device_path::lemma_partitions_of(device_path::nodes(bytes), partition);
}

/// The first drive of `left` that `right` holds too.
fn matching_drive(
    left: &Vec<crate::device_path::HardDrive>,
    right: &Vec<crate::device_path::HardDrive>,
) -> (found: Option<usize>)
    ensures
        match found {
            Some(k) => k < left@.len() && device_path::drive_views(right@).contains(
                left@[k as int]@,
            ),
            None => forall|p: PartitionIdentity|
                device_path::drive_views(left@).contains(p)
                    ==> !device_path::drive_views(right@).contains(p),
        },
{
    for i in 0..left.len()
        invariant
            forall|k: int|
                0 <= k < i ==> !device_path::drive_views(right@).contains(#[trigger] left@[k]@),
    {
        for j in 0..right.len()
            invariant
                i < left@.len(),
                forall|k: int| 0 <= k < j ==> #[trigger] right@[k]@ != left@[i as int]@,
        {
            if hard_drive_identity_matches(&left[i], &right[j]) {
                assert(device_path::drive_views(right@)[j as int] == left@[i as int]@);
                return Some(i);
            }
        }
    }
    None
}

/// A policy straight from [`BootSourcePolicy::new`] has no sources and permits no device.
pub proof fn law_default_denies_all(candidate: Seq<u8>)
    ensures
        !PolicyView::deny_all().has_sources(),
        !PolicyView::deny_all().allows_device(candidate),
{
    assert forall|p: PartitionIdentity| !#[trigger] PolicyView::deny_all().approves(p) by {}
}

/// A policy fails closed: one that has no sources permits no device.
pub proof fn law_without_sources_denies_all(policy: PolicyView, candidate: Seq<u8>)
    requires
        !policy.has_sources(),
    ensures
        !policy.allows_device(candidate),
{
}

/// Removable media needs its own opt-in: a USB volume is permitted if and only if the
/// policy permits removable media, whatever internal volumes are approved.
pub proof fn law_removable_media_needs_opt_in(policy: PolicyView, candidate: Seq<u8>)
    requires
        device_path::has_usb_node(candidate),
    ensures
        policy.allows_device(candidate) == policy.removable_media,
{
}

/// An approved path without a partition, such as a whole controller, permits no further
/// device.
pub proof fn law_broad_prefix_approves_nothing(
    policy: PolicyView,
    broad: Seq<u8>,
    candidate: Seq<u8>,
)
    requires
        forall|p: PartitionIdentity| !#[trigger] device_path::names_partition(broad, p),
    ensures
        ({
            let wider = PolicyView { approved: policy.approved.push(broad), ..policy };
            &&& wider.allows_device(candidate) == policy.allows_device(candidate)
            &&& wider.has_sources() == policy.has_sources()
        }),
{
    let wider = PolicyView { approved: policy.approved.push(broad), ..policy };
    assert forall|p: PartitionIdentity| #[trigger] wider.approves(p) == policy.approves(p) by {
        if policy.approves(p) {
            let i = choose|i: int|
                0 <= i < policy.approved.len() && device_path::names_partition(
                    #[trigger] policy.approved[i],
                    p,
                );
            assert(wider.approved[i] == policy.approved[i]);
        }
        if wider.approves(p) {
            let i = choose|i: int|
                0 <= i < wider.approved.len() && device_path::names_partition(
                    #[trigger] wider.approved[i],
                    p,
                );
        }
    }
    if policy.has_sources() && !policy.removable_media {
        let p = choose|p: PartitionIdentity| #[trigger] policy.approves(p);
        assert(wider.approves(p));
    }
    if !device_path::has_usb_node(candidate) && policy.allows_device(candidate) {
        let p = choose|p: PartitionIdentity| #[trigger]
            policy.approves(p) && device_path::names_partition(candidate, p);
        assert(wider.approves(p));
    }
}

/// Each builder only adds: what a policy permits, it still permits after any of them.
pub proof fn law_builders_only_permit_more(
    policy: PolicyView,
    path: Seq<u8>,
    candidate: Seq<u8>,
    state: SecureBootState,
)
    ensures
        ({
            let internal = PolicyView { approved: policy.approved.push(path), ..policy };
            let removable = PolicyView { removable_media: true, ..policy };
            let disabled = PolicyView { secure_boot_disabled: true, ..policy };
            let setup = PolicyView { setup_mode: true, ..policy };
            &&& policy.allows_device(candidate) ==> internal.allows_device(candidate)
                && removable.allows_device(candidate) && disabled.allows_device(candidate)
                && setup.allows_device(candidate)
            &&& policy.allows_security_state(state) ==> internal.allows_security_state(state)
                && removable.allows_security_state(state) && disabled.allows_security_state(state)
                && setup.allows_security_state(state)
        }),
{
    if !device_path::has_usb_node(candidate) && policy.allows_device(candidate) {
        let p = choose|p: PartitionIdentity| #[trigger]
            policy.approves(p) && device_path::names_partition(candidate, p);
        let i = choose|i: int|
            0 <= i < policy.approved.len() && device_path::names_partition(
                #[trigger] policy.approved[i],
                p,
            );
        let internal = PolicyView { approved: policy.approved.push(path), ..policy };
        let removable = PolicyView { removable_media: true, ..policy };
        let disabled = PolicyView { secure_boot_disabled: true, ..policy };
        let setup = PolicyView { setup_mode: true, ..policy };
        assert(internal.approved[i] == policy.approved[i]);
        assert(internal.approves(p));
        assert(removable.approved[i] == policy.approved[i]);
        assert(removable.approves(p));
        assert(disabled.approved[i] == policy.approved[i]);
        assert(disabled.approves(p));
        assert(setup.approved[i] == policy.approved[i]);
        assert(setup.approves(p));
    }
}

/// An approval goes by the partition alone: a volume that is not on USB is permitted as soon
/// as it names a partition that an approved path names, in short form or in full.
pub proof fn law_approval_goes_by_partition(
    policy: PolicyView,
    approved: Seq<u8>,
    candidate: Seq<u8>,
    partition: PartitionIdentity,
)
    requires
        policy.approved.contains(approved),
        device_path::names_partition(approved, partition),
        device_path::names_partition(candidate, partition),
        !device_path::has_usb_node(candidate),
    ensures
        policy.allows_device(candidate),
        policy.has_sources(),
{
    assert(policy.approves(partition));
}

/// Only approved partitions are permitted: a volume that is not on USB and names no partition
/// that an approved path names is not, whatever else the policy permits.
pub proof fn law_only_approved_partitions(policy: PolicyView, candidate: Seq<u8>)
    requires
        !device_path::has_usb_node(candidate),
        forall|i: int, p: PartitionIdentity|
            0 <= i < policy.approved.len() && device_path::names_partition(candidate, p)
                ==> !#[trigger] device_path::names_partition(policy.approved[i], p),
    ensures
        !policy.allows_device(candidate),
{
}

/// The flags are independent: removable media decides about USB volumes alone, the approvals
/// about the others alone, and the Secure Boot states about no volume.
pub proof fn law_flags_are_independent(one: PolicyView, other: PolicyView, candidate: Seq<u8>)
    ensures
        device_path::has_usb_node(candidate) && one.removable_media == other.removable_media
            ==> one.allows_device(candidate) == other.allows_device(candidate),
        !device_path::has_usb_node(candidate) && one.approved == other.approved
            ==> one.allows_device(candidate) == other.allows_device(candidate),
        one.approved == other.approved && one.removable_media == other.removable_media
            ==> one.has_sources() == other.has_sources(),
{
    if one.approved == other.approved {
        assert forall|p: PartitionIdentity| one.approves(p) == other.approves(p) by {
            if one.approves(p) {
                let i = choose|i: int|
                    0 <= i < one.approved.len() && device_path::names_partition(
                        #[trigger] one.approved[i],
                        p,
                    );
                assert(device_path::names_partition(other.approved[i], p));
            }
            if other.approves(p) {
                let i = choose|i: int|
                    0 <= i < other.approved.len() && device_path::names_partition(
                        #[trigger] other.approved[i],
                        p,
                    );
                assert(device_path::names_partition(one.approved[i], p));
            }
        }
    }
}

/// A policy has sources if it permits removable media or an approved path names a partition,
/// and only then.
pub proof fn law_sources_come_from_media_or_approvals(policy: PolicyView)
    ensures
        policy.removable_media ==> policy.has_sources(),
        !policy.removable_media && (forall|i: int, p: PartitionIdentity|
            0 <= i < policy.approved.len() ==> !#[trigger] device_path::names_partition(
                policy.approved[i],
                p,
            )) ==> !policy.has_sources(),
{
}

/// Enforced Secure Boot permits fallback; each other state does so only by its own opt-in.
pub proof fn law_security_states_need_their_own_opt_in(policy: PolicyView)
    ensures
        policy.allows_security_state(SecureBootState::Enabled),
        policy.allows_security_state(SecureBootState::Disabled) == policy.secure_boot_disabled,
        policy.allows_security_state(SecureBootState::SetupMode) == policy.setup_mode,
        PolicyView::deny_all() == (PolicyView {
            approved: seq![],
            removable_media: false,
            secure_boot_disabled: false,
            setup_mode: false,
        }),
{
}

} // verus!
