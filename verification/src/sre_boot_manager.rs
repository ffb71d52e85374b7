//! System Recovery Environment boot manager.
//!
//! [`SreBootManager`] decides the boot of a platform that ships a System Recovery
//! Environment (SRE) alongside the main OS. The flow:
//!
//! 1. Signal the start-of-BDS event group and, when enabled, the DFCI one
//! 2. Dispatch drivers until no more are dispatched, then connect the device tree except
//!    USB host controllers
//! 3. Optional capsule-queue processing, while the flash is still writable
//! 4. Enter the locked boot phase; abort the boot if that fails
//! 5. Probe the hotkey. On Vol-Up, connect everything and run the configured SRE app or
//!    the recovery flow of the boot partition; on Vol-Down, boot the first USB volume or
//!    else the configured frontpage app
//! 6. Normal boot: boot each provisioned entry in order; if none was attempted, the main
//!    OS path, then the filesystem sources that the policy authorizes
//! 7. Safety net: if nothing booted, connect the full tree and retry, then boot the
//!    filesystem sources that the policy authorizes, whether or not an entry was attempted
//! 8. Run the recovery flow if the boot partition holds a payload, then give up
//!
//! The manager is a state machine: [`SreBootManager::next`] takes the stage and what
//! happened, and returns the next stage and the actions to perform in order. The reply to
//! the last action is the next event. An action that boots an image either never returns
//! or returns control, and then the next action follows.

use vstd::prelude::*;

use crate::boot_source_policy::{BootSourcePolicy, PolicyView};
use crate::device_path;
use crate::device_path::{
    device_path_has_fw_file_node, device_path_has_usb_node, DevicePathBuf,
};
use crate::efi::{EfiError, NOT_FOUND};
use crate::events::EventGroup;

verus! {

/// Result of probing the platform's button services for an SRE hotkey.
#[derive(Debug, Clone, Copy, PartialEq, Eq, Structural)]
pub enum SreHotkey {
    /// Power + Vol-Up was latched.
    VolumeUp,
    /// Power + Vol-Down was latched.
    VolumeDown,
    /// No hotkey latched, or the button services are absent.
    NotLatched,
}

/// A call of the button services.
#[derive(Debug, Clone, Copy, PartialEq, Eq, Structural)]
pub enum ButtonCall {
    CheckVolumeUp,
    CheckVolumeDown,
    ClearVolumeState,
}

/// The calls that probe the button services: Vol-Up first, then Vol-Down, and then the
/// latched state is cleared so that no other consumer acts on the same press. None where
/// the services are absent.
pub fn button_calls(services_present: bool) -> (calls: Vec<ButtonCall>)
    ensures
        calls@ == if services_present {
            seq![ButtonCall::CheckVolumeUp, ButtonCall::CheckVolumeDown, ButtonCall::ClearVolumeState]
        } else {
            seq![]
        },
{
    if services_present {
        vec![ButtonCall::CheckVolumeUp, ButtonCall::CheckVolumeDown, ButtonCall::ClearVolumeState]
    } else {
        Vec::new()
    }
}

/// The hotkey that the button services report: each button's flag as it stands after the
/// calls of [`button_calls`], zero before them. Vol-Up takes priority when both are set.
pub fn probe_sre_hotkey(services_present: bool, vol_up: u8, vol_down: u8) -> (hotkey: SreHotkey)
    ensures
        hotkey == if !services_present {
            SreHotkey::NotLatched
        } else if vol_up != 0 {
            SreHotkey::VolumeUp
        } else if vol_down != 0 {
            SreHotkey::VolumeDown
        } else {
            SreHotkey::NotLatched
        },
{
    if !services_present {
        return SreHotkey::NotLatched;
    }
    match (vol_up != 0, vol_down != 0) {
        (true, _) => SreHotkey::VolumeUp,
        (false, true) => SreHotkey::VolumeDown,
        (false, false) => SreHotkey::NotLatched,
    }
}

/// Something that the boot flow asks of the platform.
#[derive(Debug)]
pub enum SreAction {
    /// Signal an event group.
    SignalEventGroup(EventGroup),
    /// Dispatch drivers once; replied with [`SreEvent::Dispatched`].
    DispatchDrivers,
    /// Connect the device tree except USB host controllers.
    ConnectAllSkipUsb,
    /// Process the capsule queue.
    ProcessCapsules,
    /// Signal the end of driver execution and lock the platform; replied with
    /// [`SreEvent::Locked`].
    EnterLockedBoot,
    /// Probe the hotkey; replied with [`SreEvent::Hotkey`].
    ProbeHotkey,
    /// Connect the full device tree.
    ConnectAll,
    /// Discover console devices.
    DiscoverConsoles,
    /// Look for a USB volume; replied with [`SreEvent::UsbVolume`].
    FindUsbVolume,
    /// Signal that a boot attempt follows.
    SignalReadyToBoot,
    /// Load and start the image at the device path.
    Boot(DevicePathBuf),
    /// Run the recovery flow of the boot partition.
    RunRecovery,
    /// Look for a recovery payload in the boot partition; replied with
    /// [`SreEvent::RecoveryPayload`].
    ProbeRecoveryPayload,
    /// Read the provisioned boot entries; replied with [`SreEvent::BootOptions`].
    DiscoverBootOptions,
    /// List the filesystem sources that the policy authorizes; replied with
    /// [`SreEvent::FallbackOptions`].
    ListFallback(BootSourcePolicy),
    /// The boot is over with this error.
    Fail(EfiError),
}

/// An action by the contents of its device path or policy.
pub enum ActionView {
    SignalEventGroup(EventGroup),
    DispatchDrivers,
    ConnectAllSkipUsb,
    ProcessCapsules,
    EnterLockedBoot,
    ProbeHotkey,
    ConnectAll,
    DiscoverConsoles,
    FindUsbVolume,
    SignalReadyToBoot,
    Boot(Seq<u8>),
    RunRecovery,
    ProbeRecoveryPayload,
    DiscoverBootOptions,
    ListFallback(PolicyView),
    Fail(EfiError),
}

impl View for SreAction {
    type V = ActionView;

    open spec fn view(&self) -> ActionView {
        match self {
            SreAction::SignalEventGroup(group) => ActionView::SignalEventGroup(*group),
            SreAction::DispatchDrivers => ActionView::DispatchDrivers,
            SreAction::ConnectAllSkipUsb => ActionView::ConnectAllSkipUsb,
            SreAction::ProcessCapsules => ActionView::ProcessCapsules,
            SreAction::EnterLockedBoot => ActionView::EnterLockedBoot,
            SreAction::ProbeHotkey => ActionView::ProbeHotkey,
            SreAction::ConnectAll => ActionView::ConnectAll,
            SreAction::DiscoverConsoles => ActionView::DiscoverConsoles,
            SreAction::FindUsbVolume => ActionView::FindUsbVolume,
            SreAction::SignalReadyToBoot => ActionView::SignalReadyToBoot,
            SreAction::Boot(path) => ActionView::Boot(path@),
            SreAction::RunRecovery => ActionView::RunRecovery,
            SreAction::ProbeRecoveryPayload => ActionView::ProbeRecoveryPayload,
            SreAction::DiscoverBootOptions => ActionView::DiscoverBootOptions,
            SreAction::ListFallback(policy) => ActionView::ListFallback(policy@),
            SreAction::Fail(e) => ActionView::Fail(*e),
        }
    }
}

/// The views of a list of actions.
pub open spec fn action_views(list: Seq<SreAction>) -> Seq<ActionView> {
    Seq::new(list.len(), |i: int| list[i]@)
}

/// Where the boot flow stands: what it waits for.
#[derive(Debug, Clone, Copy, PartialEq, Eq, Structural)]
pub enum SreStage {
    /// The flow has not started.
    Start,
    /// Drivers are being dispatched.
    Dispatching,
    /// The platform is being locked.
    Locking,
    /// The hotkey is being probed.
    Probing,
    /// A USB volume is being looked for.
    FindingUsb,
    /// The boot partition is being probed.
    CheckingPayload,
    /// The boot entries are being read, in the first or second pass, knowing whether the
    /// boot partition holds a recovery payload.
    Discovering { second_pass: bool, has_payload: bool },
    /// The fallback sources are being listed, in the first or second pass.
    FallingBack { second_pass: bool, has_payload: bool },
    /// The boot is over.
    Done,
}

/// What happened: the reply to the last action.
#[derive(Debug)]
pub enum SreEvent {
    /// The boot flow starts.
    Begin,
    /// Drivers were dispatched, with whether any was.
    Dispatched(Result<bool, EfiError>),
    /// The locked boot phase was entered, or not.
    Locked(Result<(), EfiError>),
    /// The hotkey was probed.
    Hotkey(SreHotkey),
    /// The boot path of the first USB volume, if there is one.
    UsbVolume(Option<DevicePathBuf>),
    /// Whether the boot partition holds a recovery payload.
    RecoveryPayload(bool),
    /// The device paths of the provisioned boot entries.
    BootOptions(Result<Vec<DevicePathBuf>, EfiError>),
    /// The boot paths of the authorized fallback sources.
    FallbackOptions(Result<Vec<DevicePathBuf>, EfiError>),
}

/// An event by the contents of its device paths.
pub enum EventView {
    Begin,
    Dispatched(Result<bool, EfiError>),
    Locked(Result<(), EfiError>),
    Hotkey(SreHotkey),
    UsbVolume(Option<Seq<u8>>),
    RecoveryPayload(bool),
    BootOptions(Result<Seq<Seq<u8>>, EfiError>),
    FallbackOptions(Result<Seq<Seq<u8>>, EfiError>),
}

impl View for SreEvent {
    type V = EventView;

    open spec fn view(&self) -> EventView {
        match self {
            SreEvent::Begin => EventView::Begin,
            SreEvent::Dispatched(r) => EventView::Dispatched(*r),
            SreEvent::Locked(r) => EventView::Locked(*r),
            SreEvent::Hotkey(hotkey) => EventView::Hotkey(*hotkey),
            SreEvent::UsbVolume(Some(path)) => EventView::UsbVolume(Some(path@)),
            SreEvent::UsbVolume(None) => EventView::UsbVolume(None),
            SreEvent::RecoveryPayload(found) => EventView::RecoveryPayload(*found),
            SreEvent::BootOptions(Ok(paths)) => EventView::BootOptions(
                Ok(device_path::path_views(paths@)),
            ),
            SreEvent::BootOptions(Err(e)) => EventView::BootOptions(Err(*e)),
            SreEvent::FallbackOptions(Ok(paths)) => EventView::FallbackOptions(
                Ok(device_path::path_views(paths@)),
            ),
            SreEvent::FallbackOptions(Err(e)) => EventView::FallbackOptions(Err(*e)),
        }
    }
}

/// What an [`SreBootManager`] is configured with.
pub struct SreConfig {
    pub main_os: Seq<u8>,
    pub sre_app: Option<Seq<u8>>,
    pub frontpage_app: Option<Seq<u8>>,
    pub bp_sre_fallback: bool,
    pub dfci_bds_signal: bool,
    pub capsule_processing: bool,
    pub policy: PolicyView,
}

/// A boot attempt: the platform is told before the image is started.
pub open spec fn attempt(path: Seq<u8>) -> Seq<ActionView> {
    seq![ActionView::SignalReadyToBoot, ActionView::Boot(path)]
}

/// One boot attempt per path, in order.
pub open spec fn attempts(paths: Seq<Seq<u8>>) -> Seq<ActionView>
    decreases paths.len(),
{
    if paths.len() == 0 {
        seq![]
    } else {
        attempts(paths.drop_last()) + attempt(paths.last())
    }
}

/// The boot entries to attempt: all of them, but with a recovery payload in the boot
/// partition neither those on USB, which would run the flashing tool again, nor those in
/// firmware volumes.
pub open spec fn eligible_options(paths: Seq<Seq<u8>>, has_payload: bool) -> Seq<Seq<u8>>
    decreases paths.len(),
{
    if paths.len() == 0 {
        seq![]
    } else {
        let rest = eligible_options(paths.drop_last(), has_payload);
        if has_payload && (device_path::has_usb_node(paths.last())
            || device_path::has_fw_file_node(paths.last())) {
            rest
        } else {
            rest.push(paths.last())
        }
    }
}

/// The starts of the fallback sources, in order: all of them, but with a recovery payload
/// in the boot partition none on USB.
pub open spec fn fallback_boots(paths: Seq<Seq<u8>>, has_payload: bool) -> Seq<ActionView>
    decreases paths.len(),
{
    if paths.len() == 0 {
        seq![]
    } else {
        let rest = fallback_boots(paths.drop_last(), has_payload);
        if has_payload && device_path::has_usb_node(paths.last()) {
            rest
        } else {
            rest.push(ActionView::Boot(paths.last()))
        }
    }
}

impl SreConfig {
    /// The flow after the hotkey was served.
    pub open spec fn normal_boot(self) -> (SreStage, Seq<ActionView>) {
        if self.bp_sre_fallback {
            (SreStage::CheckingPayload, seq![ActionView::ProbeRecoveryPayload])
        } else {
            (
                SreStage::Discovering { second_pass: false, has_payload: false },
                seq![ActionView::DiscoverBootOptions],
            )
        }
    }

    /// The flow after `served` was done for the hotkey.
    pub open spec fn after_hotkey(self, served: Seq<ActionView>) -> (SreStage, Seq<ActionView>) {
        let (stage, actions) = self.normal_boot();
        (stage, served + actions)
    }

    /// The flow after a pass over the boot options that ended with `tried`.
    pub open spec fn after_pass(
        self,
        second_pass: bool,
        has_payload: bool,
        tried: Seq<ActionView>,
    ) -> (SreStage, Seq<ActionView>) {
        if !second_pass {
            (
                SreStage::Discovering { second_pass: true, has_payload },
                tried + seq![ActionView::ConnectAll, ActionView::DiscoverBootOptions],
            )
        } else if has_payload {
            (
                SreStage::Done,
                tried + seq![
                    ActionView::RunRecovery,
                    ActionView::Fail(EfiError { status: NOT_FOUND }),
                ],
            )
        } else {
            (SreStage::Done, tried + seq![ActionView::Fail(EfiError { status: NOT_FOUND })])
        }
    }

    /// The boot flow: the next stage and the actions to perform, in order. An event that
    /// is no reply to what the stage waits for changes nothing.
    pub open spec fn step(self, stage: SreStage, event: EventView) -> (
        SreStage,
        Seq<ActionView>,
    ) {
        let recovery = seq![ActionView::ConnectAll, ActionView::DiscoverConsoles];
        match (stage, event) {
            (SreStage::Start, EventView::Begin) => (
                SreStage::Dispatching,
                seq![ActionView::SignalEventGroup(EventGroup::MsStartOfBds)] + (
                if self.dfci_bds_signal {
                    seq![ActionView::SignalEventGroup(EventGroup::DfciStartOfBds)]
                } else {
                    seq![]
                }) + seq![ActionView::DispatchDrivers],
            ),
            (SreStage::Dispatching, EventView::Dispatched(reply)) => if reply == Ok::<
                bool,
                EfiError,
            >(true) {
                (SreStage::Dispatching, seq![ActionView::DispatchDrivers])
            } else {
                (
                    SreStage::Locking,
                    seq![ActionView::ConnectAllSkipUsb] + (if self.capsule_processing {
                        seq![ActionView::ProcessCapsules]
                    } else {
                        seq![]
                    }) + seq![ActionView::EnterLockedBoot],
                )
            },
            (SreStage::Locking, EventView::Locked(reply)) => match reply {
                Ok(()) => (SreStage::Probing, seq![ActionView::ProbeHotkey]),
                Err(e) => (SreStage::Done, seq![ActionView::Fail(e)]),
            },
            (SreStage::Probing, EventView::Hotkey(hotkey)) => match hotkey {
                SreHotkey::NotLatched => self.normal_boot(),
                SreHotkey::VolumeUp => self.after_hotkey(
                    recovery + match self.sre_app {
                        Some(path) => attempt(path),
                        None => seq![ActionView::SignalReadyToBoot, ActionView::RunRecovery],
                    },
                ),
                SreHotkey::VolumeDown => (
                    SreStage::FindingUsb,
                    recovery + seq![ActionView::FindUsbVolume],
                ),
            },
            (SreStage::FindingUsb, EventView::UsbVolume(found)) => self.after_hotkey(
                match found {
                    Some(path) => attempt(path),
                    None => match self.frontpage_app {
                        Some(path) => attempt(path),
                        None => seq![],
                    },
                },
            ),
            (SreStage::CheckingPayload, EventView::RecoveryPayload(has_payload)) => (
                SreStage::Discovering { second_pass: false, has_payload },
                seq![ActionView::DiscoverBootOptions],
            ),
            (
                SreStage::Discovering { second_pass, has_payload },
                EventView::BootOptions(reply),
            ) => {
                let options = match reply {
                    Ok(paths) => eligible_options(paths, has_payload),
                    Err(_) => seq![],
                };
                if options.len() > 0 && !second_pass {
                    self.after_pass(second_pass, has_payload, attempts(options))
                } else {
                    (
                        SreStage::FallingBack { second_pass, has_payload },
                        (if options.len() > 0 {
                            attempts(options)
                        } else {
                            attempt(self.main_os)
                        }) + seq![ActionView::ListFallback(self.policy)],
                    )
                }
            },
            (
                SreStage::FallingBack { second_pass, has_payload },
                EventView::FallbackOptions(reply),
            ) => self.after_pass(
                second_pass,
                has_payload,
                match reply {
                    Ok(paths) => fallback_boots(paths, has_payload),
                    Err(_) => seq![],
                },
            ),
            _ => (stage, seq![]),
        }
    }

    /// The stage and all actions after the events, from the start of the flow.
    pub open spec fn run(self, events: Seq<EventView>) -> (SreStage, Seq<ActionView>)
        decreases events.len(),
    {
        if events.len() == 0 {
            (SreStage::Start, seq![])
        } else {
            let (stage, actions) = self.run(events.drop_last());
            let (next, more) = self.step(stage, events.last());
            (next, actions + more)
        }
    }
}

/// SRE boot manager: the configuration of the boot flow.
#[derive(Debug)]
pub struct SreBootManager {
    main_os_path: DevicePathBuf,
    sre_app_path: Option<DevicePathBuf>,
    frontpage_app_path: Option<DevicePathBuf>,
    bp_sre_fallback: bool,
    dfci_bds_signal: bool,
    capsule_processing: bool,
    boot_source_policy: BootSourcePolicy,
}

/// The contents of an optional device path.
pub open spec fn optional_path(path: Option<DevicePathBuf>) -> Option<Seq<u8>> {
    match path {
        Some(p) => Some(p@),
        None => None,
    }
}

impl View for SreBootManager {
    type V = SreConfig;

    closed spec fn view(&self) -> SreConfig {
        SreConfig {
            main_os: self.main_os_path@,
            sre_app: optional_path(self.sre_app_path),
            frontpage_app: optional_path(self.frontpage_app_path),
            bp_sre_fallback: self.bp_sre_fallback,
            dfci_bds_signal: self.dfci_bds_signal,
            capsule_processing: self.capsule_processing,
            policy: self.boot_source_policy@,
        }
    }
}

/// Append an action.
fn push(list: &mut Vec<SreAction>, action: SreAction)
    ensures
        action_views(final(list)@) == action_views(old(list)@).push(action@),
{
    list.push(action);
}

/// Append a boot attempt.
fn push_attempt(list: &mut Vec<SreAction>, path: &DevicePathBuf)
    ensures
        action_views(final(list)@) == action_views(old(list)@) + attempt(path@),
{
    push(list, SreAction::SignalReadyToBoot);
    push(list, SreAction::Boot(path.clone()));
}

/// Append an attempt for each boot entry that is eligible.
fn push_options(list: &mut Vec<SreAction>, paths: &Vec<DevicePathBuf>, has_payload: bool) -> (tried:
    bool)
    ensures
        action_views(final(list)@) == action_views(old(list)@) + attempts(
            eligible_options(device_path::path_views(paths@), has_payload),
        ),
        tried == (eligible_options(device_path::path_views(paths@), has_payload).len() > 0),
{
    let ghost all = device_path::path_views(paths@);
    let ghost before = action_views(list@);
    let mut tried = false;
    for i in 0..paths.len()
        invariant
            all == device_path::path_views(paths@),
            action_views(list@) == before + attempts(
                eligible_options(all.take(i as int), has_payload),
            ),
            tried == (eligible_options(all.take(i as int), has_payload).len() > 0),
    {
        let path = &paths[i];
        assert(all.take(i + 1).drop_last() =~= all.take(i as int));
        if !(has_payload && (device_path_has_usb_node(path) || device_path_has_fw_file_node(path)))
        {
            let ghost rest = eligible_options(all.take(i as int), has_payload);
            push_attempt(list, path);
            tried = true;
            assert(rest.push(path@).drop_last() =~= rest);
        }
    }
    assert(all.take(paths@.len() as int) =~= all);
    tried
}

/// Append the start of each fallback source that is eligible.
fn push_fallback(list: &mut Vec<SreAction>, paths: &Vec<DevicePathBuf>, has_payload: bool)
    ensures
        action_views(final(list)@) == action_views(old(list)@) + fallback_boots(
            device_path::path_views(paths@),
            has_payload,
        ),
{
    let ghost all = device_path::path_views(paths@);
    let ghost before = action_views(list@);
    for i in 0..paths.len()
        invariant
            all == device_path::path_views(paths@),
            action_views(list@) == before + fallback_boots(all.take(i as int), has_payload),
    {
        let path = &paths[i];
        assert(all.take(i + 1).drop_last() =~= all.take(i as int));
        if !(has_payload && device_path_has_usb_node(path)) {
            push(list, SreAction::Boot(path.clone()));
        }
    }
    assert(all.take(paths@.len() as int) =~= all);
}

impl SreBootManager {
    /// Construct a manager from the main OS boot device path.
    pub fn new(main_os_path: DevicePathBuf) -> (manager: Self)
        ensures
            manager@ == (SreConfig {
                main_os: main_os_path@,
                sre_app: None,
                frontpage_app: None,
                bp_sre_fallback: false,
                dfci_bds_signal: false,
                capsule_processing: false,
                policy: PolicyView::deny_all(),
            }),
    {
        SreBootManager {
            main_os_path,
            sre_app_path: None,
            frontpage_app_path: None,
            bp_sre_fallback: false,
            dfci_bds_signal: false,
            capsule_processing: false,
            boot_source_policy: BootSourcePolicy::new(),
        }
    }

    /// Wire the SRE recovery app's device path. When set, Vol-Up boots it; when unset,
    /// Vol-Up runs the recovery flow of the boot partition.
    pub fn with_sre_app_path(self, sre_app_path: DevicePathBuf) -> (manager: Self)
        ensures
            manager@ == (SreConfig { sre_app: Some(sre_app_path@), ..self@ }),
    {
        let mut manager = self;
        manager.sre_app_path = Some(sre_app_path);
        manager
    }

    /// Wire the fallback boot-menu or settings app's device path. Vol-Down boots it when
    /// no USB volume is present.
    pub fn with_frontpage_app_path(self, frontpage_app_path: DevicePathBuf) -> (manager: Self)
        ensures
            manager@ == (SreConfig { frontpage_app: Some(frontpage_app_path@), ..self@ }),
    {
        let mut manager = self;
        manager.frontpage_app_path = Some(frontpage_app_path);
        manager
    }

    /// Opt into the fallback to the recovery payload of the boot partition: while one is
    /// present, USB and firmware-file boot entries are skipped, and the recovery flow runs
    /// before the boot gives up. Default is off.
    pub fn with_bp_sre_fallback(self) -> (manager: Self)
        ensures
            manager@ == (SreConfig { bp_sre_fallback: true, ..self@ }),
    {
        let mut manager = self;
        manager.bp_sre_fallback = true;
        manager
    }

    /// Opt into signaling the DFCI start-of-BDS event group. Default is off.
    pub fn with_dfci_bds_signal(self) -> (manager: Self)
        ensures
            manager@ == (SreConfig { dfci_bds_signal: true, ..self@ }),
    {
        let mut manager = self;
        manager.dfci_bds_signal = true;
        manager
    }

    /// Opt into capsule-queue processing before the platform is locked. Default is off.
    pub fn with_capsule_processing(self) -> (manager: Self)
        ensures
            manager@ == (SreConfig { capsule_processing: true, ..self@ }),
    {
        let mut manager = self;
        manager.capsule_processing = true;
        manager
    }

    /// Configure filesystem fallback sources and allowed Secure Boot states. Without this
    /// call the policy denies every source.
    pub fn with_boot_source_policy(self, policy: BootSourcePolicy) -> (manager: Self)
        ensures
            manager@ == (SreConfig { policy: policy@, ..self@ }),
    {
        let mut manager = self;
        manager.boot_source_policy = policy;
        manager
    }

    /// Go on to the normal boot.
    fn push_normal_boot(&self, list: &mut Vec<SreAction>) -> (stage: SreStage)
        ensures
            stage == self@.normal_boot().0,
            action_views(final(list)@) == action_views(old(list)@) + self@.normal_boot().1,
    {
        if self.bp_sre_fallback {
            push(list, SreAction::ProbeRecoveryPayload);
            SreStage::CheckingPayload
        } else {
            push(list, SreAction::DiscoverBootOptions);
            SreStage::Discovering { second_pass: false, has_payload: false }
        }
    }

    /// Go on after a pass over the boot options.
    fn push_after_pass(
        &self,
        second_pass: bool,
        has_payload: bool,
        list: &mut Vec<SreAction>,
    ) -> (stage: SreStage)
        ensures
            (stage, action_views(final(list)@)) == self@.after_pass(
                second_pass,
                has_payload,
                action_views(old(list)@),
            ),
    {
        if !second_pass {
            push(list, SreAction::ConnectAll);
            push(list, SreAction::DiscoverBootOptions);
            SreStage::Discovering { second_pass: true, has_payload }
        } else {
            if has_payload {
                push(list, SreAction::RunRecovery);
            }
            push(list, SreAction::Fail(EfiError { status: NOT_FOUND }));
            SreStage::Done
        }
    }

    /// Serve the hotkey.
    fn push_hotkey(&self, hotkey: SreHotkey, list: &mut Vec<SreAction>) -> (stage: SreStage)
        requires
            action_views(old(list)@) == Seq::<ActionView>::empty(),
        ensures
            (stage, action_views(final(list)@)) == self@.step(
                SreStage::Probing,
                EventView::Hotkey(hotkey),
            ),
    {
        if hotkey != SreHotkey::NotLatched {
            push(list, SreAction::ConnectAll);
            push(list, SreAction::DiscoverConsoles);
        }
        match hotkey {
            SreHotkey::VolumeUp => {
                match &self.sre_app_path {
                    Some(path) => push_attempt(list, path),
                    None => {
                        push(list, SreAction::SignalReadyToBoot);
                        push(list, SreAction::RunRecovery);
                    },
                }
                self.push_normal_boot(list)
            },
            SreHotkey::VolumeDown => {
                push(list, SreAction::FindUsbVolume);
                SreStage::FindingUsb
            },
            SreHotkey::NotLatched => self.push_normal_boot(list),
        }
    }

    /// Decide the boot: from the stage and the reply to the last action, the next stage
    /// and the actions to perform in order.
    ///
    /// The flow starts with [`SreEvent::Begin`] at [`SreStage::Start`] and is over at
    /// [`SreStage::Done`], with the error of the last action.
    pub fn next(&self, stage: SreStage, event: SreEvent) -> (result: (SreStage, Vec<SreAction>))
        ensures
            (result.0, action_views(result.1@)) == self@.step(stage, event@),
    {
        let mut list: Vec<SreAction> = Vec::new();
        assert(action_views(list@) =~= seq![]);
        let next = match (stage, event) {
            (SreStage::Start, SreEvent::Begin) => {
                push(&mut list, SreAction::SignalEventGroup(EventGroup::MsStartOfBds));
                if self.dfci_bds_signal {
                    push(&mut list, SreAction::SignalEventGroup(EventGroup::DfciStartOfBds));
                }
                push(&mut list, SreAction::DispatchDrivers);
                SreStage::Dispatching
            },
            (SreStage::Dispatching, SreEvent::Dispatched(reply)) => match reply {
                Ok(true) => {
                    push(&mut list, SreAction::DispatchDrivers);
                    SreStage::Dispatching
                },
                _ => {
                    push(&mut list, SreAction::ConnectAllSkipUsb);
                    if self.capsule_processing {
                        push(&mut list, SreAction::ProcessCapsules);
                    }
                    push(&mut list, SreAction::EnterLockedBoot);
                    SreStage::Locking
                },
            },
            (SreStage::Locking, SreEvent::Locked(reply)) => match reply {
                Ok(()) => {
                    push(&mut list, SreAction::ProbeHotkey);
                    SreStage::Probing
                },
                Err(e) => {
                    push(&mut list, SreAction::Fail(e));
                    SreStage::Done
                },
            },
            (SreStage::Probing, SreEvent::Hotkey(hotkey)) => self.push_hotkey(hotkey, &mut list),
            (SreStage::FindingUsb, SreEvent::UsbVolume(found)) => {
                match &found {
                    Some(path) => push_attempt(&mut list, path),
                    None => {
                        if let Some(path) = &self.frontpage_app_path {
                            push_attempt(&mut list, path);
                        }
                    },
                }
                self.push_normal_boot(&mut list)
            },
            (SreStage::CheckingPayload, SreEvent::RecoveryPayload(has_payload)) => {
                push(&mut list, SreAction::DiscoverBootOptions);
                SreStage::Discovering { second_pass: false, has_payload }
            },
            (
                SreStage::Discovering { second_pass, has_payload },
                SreEvent::BootOptions(reply),
            ) => {
                let tried = match &reply {
                    Ok(paths) => push_options(&mut list, paths, has_payload),
                    Err(_) => false,
                };
                if tried && !second_pass {
                    self.push_after_pass(second_pass, has_payload, &mut list)
                } else {
                    if !tried {
                        push_attempt(&mut list, &self.main_os_path);
                    }
                    push(&mut list, SreAction::ListFallback(self.boot_source_policy.clone()));
                    SreStage::FallingBack { second_pass, has_payload }
                }
            },
            (
                SreStage::FallingBack { second_pass, has_payload },
                SreEvent::FallbackOptions(reply),
            ) => {
                if let Ok(paths) = &reply {
                    push_fallback(&mut list, paths, has_payload);
                }
                self.push_after_pass(second_pass, has_payload, &mut list)
            },
            _ => stage,
        };
        (next, list)
    }
}

// ---------------------------------------------------------------------------
// Laws
// ---------------------------------------------------------------------------

/// The action starts an image.
pub open spec fn starts_image(action: ActionView) -> bool {
    action is Boot || action is RunRecovery
}

/// The action signals an event group, ends the boot, locks the platform or processes
/// capsules.
spec fn is_milestone(action: ActionView) -> bool {
    action is SignalEventGroup || action is Fail || action is EnterLockedBoot
        || action is ProcessCapsules
}

/// Each path in turn is signalled and then booted.
proof fn lemma_attempts(paths: Seq<Seq<u8>>)
    ensures
        attempts(paths).len() == 2 * paths.len(),
        forall|j: int|
            0 <= j < attempts(paths).len() ==> #[trigger] attempts(paths)[j] == if j % 2 == 0 {
                ActionView::SignalReadyToBoot
            } else {
                ActionView::Boot(paths[j / 2])
            },
    decreases paths.len(),
{
    if paths.len() > 0 {
        lemma_attempts(paths.drop_last());
    }
}

/// The fallback boots given paths only, and over USB only without a payload.
proof fn lemma_fallback_boots(paths: Seq<Seq<u8>>, has_payload: bool)
    ensures
        forall|j: int|
            0 <= j < fallback_boots(paths, has_payload).len() ==> (#[trigger] fallback_boots(
                paths,
                has_payload,
            )[j] matches ActionView::Boot(p) && paths.contains(p) && !(has_payload
                && device_path::has_usb_node(p))),
    decreases paths.len(),
{
    if paths.len() > 0 {
        let front = paths.drop_last();
        lemma_fallback_boots(front, has_payload);
    }
}

/// The eligible options are given paths, and with a payload neither USB nor firmware files.
proof fn lemma_eligible(paths: Seq<Seq<u8>>, has_payload: bool)
    ensures
        forall|j: int|
            0 <= j < eligible_options(paths, has_payload).len() ==> {
                let p = #[trigger] eligible_options(paths, has_payload)[j];
                &&& paths.contains(p)
                &&& !(has_payload && (device_path::has_usb_node(p)
                    || device_path::has_fw_file_node(p)))
            },
    decreases paths.len(),
{
    if paths.len() > 0 {
        let front = paths.drop_last();
        lemma_eligible(front, has_payload);
        let rest = eligible_options(front, has_payload);
        let all = eligible_options(paths, has_payload);
        assert forall|j: int| 0 <= j < all.len() implies paths.contains(#[trigger] all[j]) by {
            if j < rest.len() {
                assert(paths[front.index_of(rest[j])] == rest[j]);
            } else {
                assert(paths.last() == all[j]);
            }
        }
    }
}

/// What the steps of the normal boot do not do.
proof fn lemma_boot_steps(config: SreConfig, stage: SreStage, event: EventView)
    requires
        !(stage is Start),
        !(stage is Dispatching),
    ensures
        forall|j: int|
            0 <= j < config.step(stage, event).1.len() ==> (is_milestone(
                #[trigger] config.step(stage, event).1[j],
            ) ==> config.step(stage, event).1[j] is Fail && j == config.step(stage, event).1.len()
                - 1 && config.step(stage, event).0 == SreStage::Done),
{
    if let (SreStage::Discovering { second_pass, has_payload }, EventView::BootOptions(Ok(paths))) =
        (stage, event) {
        lemma_attempts(eligible_options(paths, has_payload));
    }
    if let (
        SreStage::FallingBack { second_pass, has_payload },
        EventView::FallbackOptions(Ok(paths)),
    ) = (stage, event) {
        lemma_fallback_boots(paths, has_payload);
    }
}

/// Until the platform has entered the locked boot phase, no image is started: neither a
/// boot path nor the recovery flow, whatever the events.
pub proof fn law_no_image_before_lock(config: SreConfig, events: Seq<EventView>)
    requires
        forall|i: int| 0 <= i < events.len() ==> #[trigger] events[i] != EventView::Locked(Ok(())),
    ensures
        forall|j: int|
            0 <= j < config.run(events).1.len() ==> !starts_image(#[trigger] config.run(events).1[j]),
        config.run(events).0 is Start || config.run(events).0 is Dispatching || config.run(events).0
            is Locking || config.run(events).0 is Done,
    decreases events.len(),
{
    if events.len() > 0 {
        let before = events.drop_last();
        assert forall|i: int| 0 <= i < before.len() implies #[trigger] before[i]
            != EventView::Locked(Ok(())) by {}
        law_no_image_before_lock(config, before);
        // The unit value is the only one that a successful lock carries.
        if let EventView::Locked(Ok(unit)) = events.last() {
            assert(unit == ());
        }
    }
}

/// A boot that is over stays over: later events cause nothing.
pub proof fn law_done_is_final(config: SreConfig, events: Seq<EventView>, later: Seq<EventView>)
    requires
        config.run(events).0 == SreStage::Done,
    ensures
        config.run(events + later) == config.run(events),
    decreases later.len(),
{
    if later.len() > 0 {
        law_done_is_final(config, events, later.drop_last());
        assert((events + later).drop_last() =~= events + later.drop_last());
    }
}

/// If entering the locked boot phase fails, the boot ends with exactly that error: nothing
/// else happens, whatever comes later.
pub proof fn law_lock_failure_ends_boot(
    config: SreConfig,
    events: Seq<EventView>,
    error: EfiError,
    later: Seq<EventView>,
)
    requires
        config.run(events).0 == SreStage::Locking,
    ensures
        config.run(events.push(EventView::Locked(Err(error))) + later) == (
            SreStage::Done,
            config.run(events).1.push(ActionView::Fail(error)),
        ),
{
    let failed = events.push(EventView::Locked(Err(error)));
    assert(failed.drop_last() =~= events);
    law_done_is_final(config, failed, later);
}

/// Every boot attempt is announced: an image path is started only right after the
/// ready-to-boot signal. Fallback sources are the one exception.
pub proof fn law_ready_to_boot_precedes_boot(
    config: SreConfig,
    stage: SreStage,
    event: EventView,
)
    requires
        !(event is FallbackOptions),
    ensures
        ({
            let actions = config.step(stage, event).1;
            forall|j: int|
                0 <= j < actions.len() && (#[trigger] actions[j] is Boot) ==> j > 0 && actions[j - 1]
                    == ActionView::SignalReadyToBoot
        }),
{
    if let (SreStage::Discovering { second_pass, has_payload }, EventView::BootOptions(Ok(paths))) =
        (stage, event) {
        lemma_attempts(eligible_options(paths, has_payload));
    }
}

/// The start-of-BDS signals come first: before any other action the start-of-BDS group is
/// signaled, then the DFCI group if enabled, and no event group is signaled later.
pub proof fn law_start_of_bds_comes_first(config: SreConfig, events: Seq<EventView>)
    ensures
        ({
            let actions = config.run(events).1;
            let signals: int = if config.dfci_bds_signal { 2 } else { 1 };
            &&& actions.len() > 0 ==> actions.len() > signals && actions[0]
                == ActionView::SignalEventGroup(EventGroup::MsStartOfBds)
            &&& actions.len() > 0 && config.dfci_bds_signal ==> actions[1]
                == ActionView::SignalEventGroup(EventGroup::DfciStartOfBds)
            &&& forall|j: int|
                signals <= j < actions.len() ==> !(#[trigger] actions[j] is SignalEventGroup)
            &&& actions.len() == 0 <==> config.run(events).0 == SreStage::Start
        }),
    decreases events.len(),
{
    if events.len() > 0 {
        law_start_of_bds_comes_first(config, events.drop_last());
        let stage = config.run(events.drop_last()).0;
        if !(stage is Start) && !(stage is Dispatching) {
            lemma_boot_steps(config, stage, events.last());
        }
    }
}

/// Locking the platform comes right after capsule processing where that is enabled, and
/// capsules are processed nowhere else: never once the platform is locked.
pub proof fn law_capsules_only_before_lock(config: SreConfig, events: Seq<EventView>)
    ensures
        ({
            let actions = config.run(events).1;
            &&& forall|j: int|
                0 <= j < actions.len() && (#[trigger] actions[j] is EnterLockedBoot) ==> j > 0 && (
                actions[j - 1] is ProcessCapsules) == config.capsule_processing
            &&& forall|j: int|
                0 <= j < actions.len() && (#[trigger] actions[j] is ProcessCapsules) ==> j + 1
                    < actions.len() && actions[j + 1] is EnterLockedBoot
        }),
    decreases events.len(),
{
    if events.len() > 0 {
        law_capsules_only_before_lock(config, events.drop_last());
        let stage = config.run(events.drop_last()).0;
        if !(stage is Start) && !(stage is Dispatching) {
            lemma_boot_steps(config, stage, events.last());
        }
    }
}

/// With a recovery payload in the boot partition no provisioned entry on USB or in a
/// firmware volume is booted, and no fallback source on USB. What is booted comes from the
/// list, or is the main OS path.
pub proof fn law_payload_skips_usb(
    config: SreConfig,
    second_pass: bool,
    paths: Seq<Seq<u8>>,
    booted: Seq<u8>,
)
    ensures
        config.step(
            SreStage::Discovering { second_pass, has_payload: true },
            EventView::BootOptions(Ok(paths)),
        ).1.contains(ActionView::Boot(booted)) && booted != config.main_os ==> paths.contains(booted)
            && !device_path::has_usb_node(booted) && !device_path::has_fw_file_node(booted),
        config.step(
            SreStage::FallingBack { second_pass, has_payload: true },
            EventView::FallbackOptions(Ok(paths)),
        ).1.contains(ActionView::Boot(booted)) ==> paths.contains(booted)
            && !device_path::has_usb_node(booted),
{
    let options = eligible_options(paths, true);
    lemma_eligible(paths, true);
    lemma_attempts(options);
    lemma_fallback_boots(paths, true);
}

/// No path is made up: what is booted is a configured path or one that the platform just
/// reported.
pub proof fn law_boots_only_given_paths(
    config: SreConfig,
    stage: SreStage,
    event: EventView,
    booted: Seq<u8>,
)
    requires
        config.step(stage, event).1.contains(ActionView::Boot(booted)),
    ensures
        ({
            ||| booted == config.main_os
            ||| config.sre_app == Some(booted)
            ||| config.frontpage_app == Some(booted)
            ||| event == EventView::UsbVolume(Some(booted))
            ||| event matches EventView::BootOptions(Ok(paths)) && paths.contains(booted)
            ||| event matches EventView::FallbackOptions(Ok(paths)) && paths.contains(booted)
        }),
{
    match (stage, event) {
        (
            SreStage::Discovering { second_pass, has_payload },
            EventView::BootOptions(Ok(paths)),
        ) => {
            let options = eligible_options(paths, has_payload);
            lemma_eligible(paths, has_payload);
            lemma_attempts(options);
        },
        (
            SreStage::FallingBack { second_pass, has_payload },
            EventView::FallbackOptions(Ok(paths)),
        ) => {
            lemma_fallback_boots(paths, has_payload);
        },
        _ => {},
    }
}

/// Without a recovery payload every provisioned entry is attempted, in order.
pub proof fn law_no_payload_attempts_all(paths: Seq<Seq<u8>>)
    ensures
        eligible_options(paths, false) == paths,
    decreases paths.len(),
{
    if paths.len() > 0 {
        law_no_payload_attempts_all(paths.drop_last());
    }
}

/// With an empty boot partition the opt-in to its payload changes nothing: from the boot
/// entries on, the flow is that of a manager without it, and the recovery flow is not run.
pub proof fn law_empty_partition_boots_normally(
    config: SreConfig,
    stage: SreStage,
    event: EventView,
)
    requires
        stage matches SreStage::Discovering { has_payload, .. } ==> !has_payload,
        stage matches SreStage::FallingBack { has_payload, .. } ==> !has_payload,
        stage is Discovering || stage is FallingBack,
    ensures
        config.step(stage, event) == (SreConfig {
            bp_sre_fallback: !config.bp_sre_fallback,
            ..config
        }).step(stage, event),
        forall|j: int|
            0 <= j < config.step(stage, event).1.len() ==> !(#[trigger] config.step(
                stage,
                event,
            ).1[j] is RunRecovery),
{
    if let (SreStage::Discovering { second_pass, has_payload }, EventView::BootOptions(Ok(paths))) =
        (stage, event) {
        lemma_attempts(eligible_options(paths, has_payload));
    }
    if let (
        SreStage::FallingBack { second_pass, has_payload },
        EventView::FallbackOptions(Ok(paths)),
    ) = (stage, event) {
        lemma_fallback_boots(paths, has_payload);
    }
}

/// The full tree was connected for another pass, the boot entries were read again, and the
/// sources that `policy` authorizes were listed after that.
pub open spec fn listed_after_full_connect(actions: Seq<ActionView>, policy: PolicyView) -> bool {
    exists|j: int, k: int|
        0 <= j && j + 1 < k < actions.len() && #[trigger] actions[j] is ConnectAll && actions[j + 1]
            is DiscoverBootOptions && #[trigger] actions[k] == ActionView::ListFallback(policy)
}

/// A listing stays one, whatever is done later.
proof fn lemma_listed_stays(
    actions: Seq<ActionView>,
    more: Seq<ActionView>,
    policy: PolicyView,
)
    requires
        listed_after_full_connect(actions, policy),
    ensures
        listed_after_full_connect(actions + more, policy),
{
    let (j, k) = choose|j: int, k: int|
        0 <= j && j + 1 < k < actions.len() && #[trigger] actions[j] is ConnectAll && actions[j + 1]
            is DiscoverBootOptions && #[trigger] actions[k] == ActionView::ListFallback(policy);
    let all = actions + more;
    assert(all[j] is ConnectAll && all[j + 1] is DiscoverBootOptions && all[k]
        == ActionView::ListFallback(policy));
}

/// How far the second pass has come at each stage.
proof fn lemma_second_pass(config: SreConfig, events: Seq<EventView>)
    ensures
        ({
            let (stage, actions) = config.run(events);
            &&& forall|j: int| 0 <= j < actions.len() && (#[trigger] actions[j] is Fail) ==> stage
                is Done
            &&& stage is Start || stage is Dispatching || stage is Locking ==> !actions.contains(
                ActionView::ProbeHotkey,
            )
            &&& stage matches SreStage::Discovering { second_pass: true, .. } ==> actions.len() >= 2
                && actions[actions.len() - 2] is ConnectAll && actions.last()
                is DiscoverBootOptions
            &&& stage matches SreStage::FallingBack { second_pass: true, .. }
                ==> listed_after_full_connect(actions, config.policy)
            &&& stage is Done && actions.contains(ActionView::ProbeHotkey)
                ==> listed_after_full_connect(actions, config.policy)
        }),
    decreases events.len(),
{
    if events.len() > 0 {
        lemma_second_pass(config, events.drop_last());
        let event = events.last();
        let (stage, actions) = config.run(events.drop_last());
        let (next, more) = config.step(stage, event);
        let all = actions + more;
        law_last_action_is_awaited(config, stage, event);
        if listed_after_full_connect(actions, config.policy) {
            lemma_listed_stays(actions, more, config.policy);
        }
        if stage is Discovering && next is FallingBack && stage->Discovering_second_pass {
            let j = actions.len() - 2;
            let k = all.len() - 1;
            assert(all[j] is ConnectAll && all[j + 1] is DiscoverBootOptions && all[k]
                == ActionView::ListFallback(config.policy));
        }
    }
}

/// The boot gives up only after the policy was consulted: past the lock, every run that
/// fails as not found has connected the full tree for another pass, read the boot entries
/// again and then listed the sources that the policy authorizes, whether or not an entry
/// was attempted. A lock that failed with that error ends the boot before.
pub proof fn law_policy_consulted_before_giving_up(config: SreConfig, events: Seq<EventView>)
    requires
        config.run(events).1.contains(ActionView::ProbeHotkey),
        config.run(events).1.contains(ActionView::Fail(EfiError { status: NOT_FOUND })),
    ensures
        listed_after_full_connect(config.run(events).1, config.policy),
{
    lemma_second_pass(config, events);
}

/// Every authorized source that is listed is booted, but with a recovery payload in the boot
/// partition none on USB.
pub proof fn law_listed_sources_are_booted(
    config: SreConfig,
    second_pass: bool,
    has_payload: bool,
    paths: Seq<Seq<u8>>,
    source: Seq<u8>,
)
    requires
        paths.contains(source),
        !(has_payload && device_path::has_usb_node(source)),
    ensures
        config.step(
            SreStage::FallingBack { second_pass, has_payload },
            EventView::FallbackOptions(Ok(paths)),
        ).1.contains(ActionView::Boot(source)),
{
    lemma_fallback_complete(paths, has_payload, source);
    let boots = fallback_boots(paths, has_payload);
    let actions = config.step(
        SreStage::FallingBack { second_pass, has_payload },
        EventView::FallbackOptions(Ok(paths)),
    ).1;
    assert(actions[boots.index_of(ActionView::Boot(source))] == ActionView::Boot(source));
}

/// The fallback leaves out no source that it may boot.
proof fn lemma_fallback_complete(paths: Seq<Seq<u8>>, has_payload: bool, source: Seq<u8>)
    requires
        paths.contains(source),
        !(has_payload && device_path::has_usb_node(source)),
    ensures
        fallback_boots(paths, has_payload).contains(ActionView::Boot(source)),
    decreases paths.len(),
{
    let front = paths.drop_last();
    let rest = fallback_boots(front, has_payload);
    let boots = fallback_boots(paths, has_payload);
    if source == paths.last() {
        assert(boots.last() == ActionView::Boot(source));
    } else {
        assert(front[paths.index_of(source)] == source);
        lemma_fallback_complete(front, has_payload, source);
        assert(boots[rest.index_of(ActionView::Boot(source))] == ActionView::Boot(source));
    }
}

/// The action probes the hotkey or the boot partition, or processes capsules.
spec fn is_once(action: ActionView) -> bool {
    action is ProbeHotkey || action is ProbeRecoveryPayload || action is ProcessCapsules
}

/// An action stands at most once in the list.
pub open spec fn at_most_once(actions: Seq<ActionView>, action: ActionView) -> bool {
    forall|j: int, k: int|
        0 <= j < actions.len() && 0 <= k < actions.len() && #[trigger] actions[j] == action
            && #[trigger] actions[k] == action ==> j == k
}

/// The steps of the boot options neither probe nor process capsules.
proof fn lemma_options_probe_nothing(config: SreConfig, stage: SreStage, event: EventView)
    requires
        stage is Discovering || stage is FallingBack || stage is Done,
    ensures
        forall|j: int|
            0 <= j < config.step(stage, event).1.len() ==> !is_once(
                #[trigger] config.step(stage, event).1[j],
            ),
{
    if let (SreStage::Discovering { second_pass, has_payload }, EventView::BootOptions(Ok(paths))) =
        (stage, event) {
        lemma_attempts(eligible_options(paths, has_payload));
    }
    if let (
        SreStage::FallingBack { second_pass, has_payload },
        EventView::FallbackOptions(Ok(paths)),
    ) = (stage, event) {
        lemma_fallback_boots(paths, has_payload);
    }
}

/// The action was not asked for before the stage.
spec fn still_ahead(stage: SreStage, action: ActionView) -> bool {
    match stage {
        SreStage::Start | SreStage::Dispatching => is_once(action),
        SreStage::Locking => action is ProbeHotkey || action is ProbeRecoveryPayload,
        SreStage::Probing | SreStage::FindingUsb => action is ProbeRecoveryPayload,
        _ => false,
    }
}

/// A step asks for such an action only where it is still ahead, and then it no longer is.
proof fn lemma_once_step(
    config: SreConfig,
    stage: SreStage,
    event: EventView,
    action: ActionView,
)
    requires
        is_once(action),
    ensures
        ({
            let (next, more) = config.step(stage, event);
            &&& at_most_once(more, action)
            &&& more.contains(action) ==> still_ahead(stage, action) && !still_ahead(next, action)
            &&& still_ahead(next, action) ==> still_ahead(stage, action)
        }),
{
    if stage is Discovering || stage is FallingBack || stage is Done {
        lemma_options_probe_nothing(config, stage, event);
    }
}

/// Such an action is asked for at most once, and not before the stage that asks for it.
proof fn lemma_once(config: SreConfig, events: Seq<EventView>, action: ActionView)
    requires
        is_once(action),
    ensures
        at_most_once(config.run(events).1, action),
        still_ahead(config.run(events).0, action) ==> !config.run(events).1.contains(action),
    decreases events.len(),
{
    if events.len() > 0 {
        lemma_once(config, events.drop_last(), action);
        let (stage, actions) = config.run(events.drop_last());
        let more = config.step(stage, events.last()).1;
        lemma_once_step(config, stage, events.last(), action);
        let all = actions + more;
        assert forall|j: int, k: int|
            0 <= j < all.len() && 0 <= k < all.len() && #[trigger] all[j] == action
                && #[trigger] all[k] == action implies j == k by {
            if j < actions.len() {
                assert(actions.contains(actions[j]));
            } else {
                assert(more.contains(more[j - actions.len()]));
            }
            if k < actions.len() {
                assert(actions.contains(actions[k]));
            } else {
                assert(more.contains(more[k - actions.len()]));
            }
        }
        if all.contains(action) {
            let j = all.index_of(action);
            if j < actions.len() {
                assert(actions.contains(actions[j]));
            } else {
                assert(more.contains(more[j - actions.len()]));
            }
        }
    }
}

/// Whatever the events, the latched hotkey is read at most once, the boot partition is
/// probed at most once, and capsules are processed at most once.
pub proof fn law_probes_at_most_once(config: SreConfig, events: Seq<EventView>)
    ensures
        at_most_once(config.run(events).1, ActionView::ProbeHotkey),
        at_most_once(config.run(events).1, ActionView::ProbeRecoveryPayload),
        at_most_once(config.run(events).1, ActionView::ProcessCapsules),
{
    lemma_once(config, events, ActionView::ProbeHotkey);
    lemma_once(config, events, ActionView::ProbeRecoveryPayload);
    lemma_once(config, events, ActionView::ProcessCapsules);
}

/// The payload of the boot partition is the last resort: once the authorized sources of the
/// second pass are exhausted, the recovery flow is run, once, right before the boot gives
/// up; without a payload it is not.
pub proof fn law_payload_is_the_last_resort(
    config: SreConfig,
    has_payload: bool,
    reply: Result<Seq<Seq<u8>>, EfiError>,
)
    ensures
        ({
            let (next, actions) = config.step(
                SreStage::FallingBack { second_pass: true, has_payload },
                EventView::FallbackOptions(reply),
            );
            &&& next == SreStage::Done
            &&& actions.last() == ActionView::Fail(EfiError { status: NOT_FOUND })
            &&& forall|j: int|
                0 <= j < actions.len() ==> ((#[trigger] actions[j] is RunRecovery) <==> has_payload
                    && j == actions.len() - 2)
        }),
{
    if let Ok(paths) = reply {
        lemma_fallback_boots(paths, has_payload);
    }
}

/// How many replies the flow can still take from a stage, not counting dispatches that
/// dispatched a driver.
pub open spec fn replies_left(stage: SreStage) -> nat {
    match stage {
        SreStage::Start => 10,
        SreStage::Dispatching => 9,
        SreStage::Locking => 8,
        SreStage::Probing => 7,
        SreStage::FindingUsb => 6,
        SreStage::CheckingPayload => 5,
        SreStage::Discovering { second_pass, .. } => if second_pass {
            2
        } else {
            4
        },
        SreStage::FallingBack { second_pass, .. } => if second_pass {
            1
        } else {
            3
        },
        SreStage::Done => 0,
    }
}

/// The boot flow makes progress: every event is ignored, or reports a dispatched driver, or
/// brings the flow closer to its end.
pub proof fn law_flow_terminates(config: SreConfig, stage: SreStage, event: EventView)
    ensures
        ({
            let (next, actions) = config.step(stage, event);
            ||| next == stage && actions.len() == 0
            ||| event == EventView::Dispatched(Ok(true)) && next == stage
            ||| replies_left(next) < replies_left(stage)
        }),
{
}

/// The action whose reply a stage waits for.
pub open spec fn awaited(config: SreConfig, stage: SreStage, action: ActionView) -> bool {
    match stage {
        SreStage::Start => false,
        SreStage::Dispatching => action is DispatchDrivers,
        SreStage::Locking => action is EnterLockedBoot,
        SreStage::Probing => action is ProbeHotkey,
        SreStage::FindingUsb => action is FindUsbVolume,
        SreStage::CheckingPayload => action is ProbeRecoveryPayload,
        SreStage::Discovering { .. } => action is DiscoverBootOptions,
        SreStage::FallingBack { .. } => action == ActionView::ListFallback(config.policy),
        SreStage::Done => action is Fail,
    }
}

/// Whatever an event causes ends with the one action that the next stage waits for, or with
/// the failure that ends the boot; and only then does the boot fail.
pub proof fn law_last_action_is_awaited(config: SreConfig, stage: SreStage, event: EventView)
    ensures
        ({
            let (next, actions) = config.step(stage, event);
            &&& actions.len() > 0 ==> awaited(config, next, actions.last())
            &&& forall|j: int|
                0 <= j < actions.len() && (#[trigger] actions[j] is Fail) ==> j == actions.len() - 1
                    && next == SreStage::Done
        }),
{
    if !(stage is Start) && !(stage is Dispatching) {
        lemma_boot_steps(config, stage, event);
    }
}

/// What is kept of a list by a predicate that holds exactly of the entries that are not
/// skipped.
proof fn lemma_eligible_are_kept(
    paths: Seq<Seq<u8>>,
    has_payload: bool,
    keep: spec_fn(Seq<u8>) -> bool,
)
    requires
        forall|p: Seq<u8>| #[trigger]
            keep(p) <==> !(has_payload && (device_path::has_usb_node(p)
                || device_path::has_fw_file_node(p))),
    ensures
        eligible_options(paths, has_payload) == paths.filter(keep),
    decreases paths.len(),
{
    reveal(Seq::filter);
    if paths.len() > 0 {
        lemma_eligible_are_kept(paths.drop_last(), has_payload, keep);
    }
}

/// What is kept of a list by a predicate that holds exactly of the sources that are not
/// skipped.
proof fn lemma_fallback_are_kept(
    paths: Seq<Seq<u8>>,
    has_payload: bool,
    keep: spec_fn(Seq<u8>) -> bool,
)
    requires
        forall|p: Seq<u8>| #[trigger]
            keep(p) <==> !(has_payload && device_path::has_usb_node(p)),
    ensures
        fallback_boots(paths, has_payload).len() == paths.filter(keep).len(),
        forall|i: int|
            0 <= i < paths.filter(keep).len() ==> fallback_boots(paths, has_payload)[i]
                == ActionView::Boot(#[trigger] paths.filter(keep)[i]),
    decreases paths.len(),
{
    reveal(Seq::filter);
    if paths.len() > 0 {
        lemma_fallback_are_kept(paths.drop_last(), has_payload, keep);
    }
}

/// Every provisioned entry that is not skipped is attempted, as often as it is listed and in
/// the order of the list, each right after the ready-to-boot signal: skipped are, and only
/// with a recovery payload, those with a USB node and those with a firmware-volume node. If
/// none is left the main OS path is attempted instead. Then the first pass connects the full
/// tree and reads the entries again, and lists the authorized sources before that if it
/// attempted the main OS path; the second pass lists them in any case.
pub proof fn law_every_entry_is_attempted(
    config: SreConfig,
    second_pass: bool,
    has_payload: bool,
    paths: Seq<Seq<u8>>,
    keep: spec_fn(Seq<u8>) -> bool,
)
    requires
        forall|p: Seq<u8>| #[trigger]
            keep(p) <==> !(has_payload && (device_path::has_usb_node(p)
                || device_path::has_fw_file_node(p))),
    ensures
        ({
            let kept = paths.filter(keep);
            let n = kept.len() as int;
            let (next, actions) = config.step(
                SreStage::Discovering { second_pass, has_payload },
                EventView::BootOptions(Ok(paths)),
            );
            &&& n == 0 ==> actions == seq![
                ActionView::SignalReadyToBoot,
                ActionView::Boot(config.main_os),
                ActionView::ListFallback(config.policy),
            ] && next == (SreStage::FallingBack { second_pass, has_payload })
            &&& n > 0 ==> forall|i: int|
                0 <= i < n ==> actions[2 * i] == ActionView::SignalReadyToBoot && actions[2 * i + 1]
                    == ActionView::Boot(#[trigger] kept[i])
            &&& n > 0 && !second_pass ==> actions.skip(2 * n) == seq![
                ActionView::ConnectAll,
                ActionView::DiscoverBootOptions,
            ] && next == (SreStage::Discovering { second_pass: true, has_payload })
            &&& n > 0 && second_pass ==> actions.skip(2 * n) == seq![
                ActionView::ListFallback(config.policy),
            ] && next == (SreStage::FallingBack { second_pass: true, has_payload })
            &&& n > 0 ==> actions.len() == 2 * n + if second_pass { 1int } else { 2 }
        }),
{
    lemma_eligible_are_kept(paths, has_payload, keep);
    let kept = paths.filter(keep);
    let n = kept.len() as int;
    lemma_attempts(kept);
    let actions = config.step(
        SreStage::Discovering { second_pass, has_payload },
        EventView::BootOptions(Ok(paths)),
    ).1;
    if n > 0 {
        assert forall|i: int| 0 <= i < n implies actions[2 * i] == ActionView::SignalReadyToBoot
            && actions[2 * i + 1] == ActionView::Boot(#[trigger] kept[i]) by {
            assert(actions[2 * i] == attempts(kept)[2 * i]);
            assert(actions[2 * i + 1] == attempts(kept)[2 * i + 1]);
        }
        if second_pass {
            assert(actions.skip(2 * n) =~= seq![ActionView::ListFallback(config.policy)]);
        } else {
            assert(actions.skip(2 * n) =~= seq![
                ActionView::ConnectAll,
                ActionView::DiscoverBootOptions,
            ]);
        }
    } else {
        assert(actions =~= seq![
            ActionView::SignalReadyToBoot,
            ActionView::Boot(config.main_os),
            ActionView::ListFallback(config.policy),
        ]);
    }
}

/// Boot entries that cannot be read are no entries, and sources that cannot be listed are no
/// sources.
pub proof fn law_unreadable_lists_are_empty(
    config: SreConfig,
    second_pass: bool,
    has_payload: bool,
    error: EfiError,
)
    ensures
        config.step(
            SreStage::Discovering { second_pass, has_payload },
            EventView::BootOptions(Err(error)),
        ) == config.step(
            SreStage::Discovering { second_pass, has_payload },
            EventView::BootOptions(Ok(seq![])),
        ),
        config.step(
            SreStage::FallingBack { second_pass, has_payload },
            EventView::FallbackOptions(Err(error)),
        ) == config.step(
            SreStage::FallingBack { second_pass, has_payload },
            EventView::FallbackOptions(Ok(seq![])),
        ),
{
}

/// Every listed source that is not skipped is booted, as often as it is listed and in the
/// order of the list: skipped are, and only with a recovery payload, those with a USB node.
/// Then the first pass connects the full tree and reads the boot entries again; the second
/// runs the recovery flow if there is a payload, and gives up.
pub proof fn law_every_source_is_booted(
    config: SreConfig,
    second_pass: bool,
    has_payload: bool,
    paths: Seq<Seq<u8>>,
    keep: spec_fn(Seq<u8>) -> bool,
)
    requires
        forall|p: Seq<u8>| #[trigger]
            keep(p) <==> !(has_payload && device_path::has_usb_node(p)),
    ensures
        ({
            let kept = paths.filter(keep);
            let n = kept.len() as int;
            let (next, actions) = config.step(
                SreStage::FallingBack { second_pass, has_payload },
                EventView::FallbackOptions(Ok(paths)),
            );
            &&& forall|i: int|
                0 <= i < n ==> actions[i] == ActionView::Boot(#[trigger] kept[i])
            &&& n <= actions.len()
            &&& !second_pass ==> actions.skip(n) == seq![
                ActionView::ConnectAll,
                ActionView::DiscoverBootOptions,
            ] && next == (SreStage::Discovering { second_pass: true, has_payload })
            &&& second_pass && has_payload ==> actions.skip(n) == seq![
                ActionView::RunRecovery,
                ActionView::Fail(EfiError { status: NOT_FOUND }),
            ] && next == SreStage::Done
            &&& second_pass && !has_payload ==> actions.skip(n) == seq![
                ActionView::Fail(EfiError { status: NOT_FOUND }),
            ] && next == SreStage::Done
        }),
{
    lemma_fallback_are_kept(paths, has_payload, keep);
    let n = paths.filter(keep).len() as int;
    let actions = config.step(
        SreStage::FallingBack { second_pass, has_payload },
        EventView::FallbackOptions(Ok(paths)),
    ).1;
    if !second_pass {
        assert(actions.skip(n) =~= seq![ActionView::ConnectAll, ActionView::DiscoverBootOptions]);
    } else if has_payload {
        assert(actions.skip(n) =~= seq![
            ActionView::RunRecovery,
            ActionView::Fail(EfiError { status: NOT_FOUND }),
        ]);
    } else {
        assert(actions.skip(n) =~= seq![ActionView::Fail(EfiError { status: NOT_FOUND })]);
    }
}

/// The course before the lock: the start is signaled, drivers are dispatched until none is or
/// a dispatch fails, the tree is connected except USB, capsules are processed if enabled, and
/// the platform is locked. A refused lock ends the boot with its error; else the hotkey is
/// probed.
pub proof fn law_pre_lock_takes_its_course(config: SreConfig, error: EfiError)
    ensures
        ({
            let (next, actions) = config.step(SreStage::Start, EventView::Begin);
            &&& next == SreStage::Dispatching
            &&& config.dfci_bds_signal ==> actions == seq![
                ActionView::SignalEventGroup(EventGroup::MsStartOfBds),
                ActionView::SignalEventGroup(EventGroup::DfciStartOfBds),
                ActionView::DispatchDrivers,
            ]
            &&& !config.dfci_bds_signal ==> actions == seq![
                ActionView::SignalEventGroup(EventGroup::MsStartOfBds),
                ActionView::DispatchDrivers,
            ]
        }),
        config.step(SreStage::Dispatching, EventView::Dispatched(Ok(true))) == (
            SreStage::Dispatching,
            seq![ActionView::DispatchDrivers],
        ),
        ({
            let (next, actions) = config.step(
                SreStage::Dispatching,
                EventView::Dispatched(Ok(false)),
            );
            &&& next == SreStage::Locking
            &&& config.capsule_processing ==> actions == seq![
                ActionView::ConnectAllSkipUsb,
                ActionView::ProcessCapsules,
                ActionView::EnterLockedBoot,
            ]
            &&& !config.capsule_processing ==> actions == seq![
                ActionView::ConnectAllSkipUsb,
                ActionView::EnterLockedBoot,
            ]
        }),
        config.step(SreStage::Dispatching, EventView::Dispatched(Err(error))) == config.step(
            SreStage::Dispatching,
            EventView::Dispatched(Ok(false)),
        ),
        config.step(SreStage::Locking, EventView::Locked(Ok(()))) == (
            SreStage::Probing,
            seq![ActionView::ProbeHotkey],
        ),
        config.step(SreStage::Locking, EventView::Locked(Err(error))) == (
            SreStage::Done,
            seq![ActionView::Fail(error)],
        ),
{
    let started = config.step(SreStage::Start, EventView::Begin).1;
    if config.dfci_bds_signal {
        assert(started =~= seq![
            ActionView::SignalEventGroup(EventGroup::MsStartOfBds),
            ActionView::SignalEventGroup(EventGroup::DfciStartOfBds),
            ActionView::DispatchDrivers,
        ]);
    } else {
        assert(started =~= seq![
            ActionView::SignalEventGroup(EventGroup::MsStartOfBds),
            ActionView::DispatchDrivers,
        ]);
    }
    let locking = config.step(SreStage::Dispatching, EventView::Dispatched(Ok(false))).1;
    if config.capsule_processing {
        assert(locking =~= seq![
            ActionView::ConnectAllSkipUsb,
            ActionView::ProcessCapsules,
            ActionView::EnterLockedBoot,
        ]);
    } else {
        assert(locking =~= seq![ActionView::ConnectAllSkipUsb, ActionView::EnterLockedBoot]);
    }
}

/// The hotkey decides what comes before the normal boot, and only that. Without one nothing
/// does. On Vol-Up everything and the consoles are connected, and the configured app, or else
/// the recovery flow, is run; on Vol-Down too, and a USB volume is looked for. The volume that
/// was found, or else the configured frontpage app, or else nothing, is booted.
pub proof fn law_hotkey_comes_before_the_normal_boot(config: SreConfig, usb: Seq<u8>)
    ensures
        ({
            let (next, normal) = config.step(
                SreStage::Probing,
                EventView::Hotkey(SreHotkey::NotLatched),
            );
            let connect = seq![ActionView::ConnectAll, ActionView::DiscoverConsoles];
            let ready = seq![ActionView::SignalReadyToBoot];
            let up = config.step(SreStage::Probing, EventView::Hotkey(SreHotkey::VolumeUp));
            let down = config.step(SreStage::Probing, EventView::Hotkey(SreHotkey::VolumeDown));
            let found = config.step(SreStage::FindingUsb, EventView::UsbVolume(Some(usb)));
            let missing = config.step(SreStage::FindingUsb, EventView::UsbVolume(None));
            &&& config.bp_sre_fallback ==> next == SreStage::CheckingPayload && normal == seq![
                ActionView::ProbeRecoveryPayload,
            ]
            &&& !config.bp_sre_fallback ==> next == (SreStage::Discovering {
                second_pass: false,
                has_payload: false,
            }) && normal == seq![ActionView::DiscoverBootOptions]
            &&& config.sre_app matches Some(app) ==> up == (
                next,
                connect + ready + seq![ActionView::Boot(app)] + normal,
            )
            &&& config.sre_app is None ==> up == (
                next,
                connect + ready + seq![ActionView::RunRecovery] + normal,
            )
            &&& down == (SreStage::FindingUsb, connect + seq![ActionView::FindUsbVolume])
            &&& found == (next, ready + seq![ActionView::Boot(usb)] + normal)
            &&& config.frontpage_app matches Some(app) ==> missing == (
                next,
                ready + seq![ActionView::Boot(app)] + normal,
            )
            &&& config.frontpage_app is None ==> missing == (next, normal)
        }),
{
    let (next, normal) = config.step(SreStage::Probing, EventView::Hotkey(SreHotkey::NotLatched));
    let connect = seq![ActionView::ConnectAll, ActionView::DiscoverConsoles];
    let ready = seq![ActionView::SignalReadyToBoot];
    let up = config.step(SreStage::Probing, EventView::Hotkey(SreHotkey::VolumeUp)).1;
    let found = config.step(SreStage::FindingUsb, EventView::UsbVolume(Some(usb))).1;
    let missing = config.step(SreStage::FindingUsb, EventView::UsbVolume(None)).1;
    match config.sre_app {
        Some(app) => {
            assert(up =~= connect + ready + seq![ActionView::Boot(app)] + normal);
        },
        None => {
            assert(up =~= connect + ready + seq![ActionView::RunRecovery] + normal);
        },
    }
    assert(found =~= ready + seq![ActionView::Boot(usb)] + normal);
    match config.frontpage_app {
        Some(app) => {
            assert(missing =~= ready + seq![ActionView::Boot(app)] + normal);
        },
        None => {
            assert(missing =~= normal);
        },
    }
}

/// What the probe of the boot partition reports is what the passes over the boot entries go
/// by, and it changes nothing else.
pub proof fn law_probed_payload_is_remembered(config: SreConfig, found: bool)
    ensures
        config.step(SreStage::CheckingPayload, EventView::RecoveryPayload(found)) == (
            SreStage::Discovering { second_pass: false, has_payload: found },
            seq![ActionView::DiscoverBootOptions],
        ),
{
}

/// An event that is no reply to what the stage waits for changes nothing.
pub proof fn law_boot_ignores_other_events(config: SreConfig, stage: SreStage, event: EventView)
    requires
        ({
            ||| stage is Done
            ||| (stage is Start) != (event is Begin)
            ||| (stage is Dispatching) != (event is Dispatched)
            ||| (stage is Locking) != (event is Locked)
            ||| (stage is Probing) != (event is Hotkey)
            ||| (stage is FindingUsb) != (event is UsbVolume)
            ||| (stage is CheckingPayload) != (event is RecoveryPayload)
            ||| (stage is Discovering) != (event is BootOptions)
            ||| (stage is FallingBack) != (event is FallbackOptions)
        }),
    ensures
        config.step(stage, event) == (stage, Seq::<ActionView>::empty()),
{
}

/// Actions and events are seen whole: each path, policy and reply as it is, and lists item by
/// item.
pub proof fn law_actions_and_events_are_seen_whole(
    list: Seq<SreAction>,
    i: int,
    path: DevicePathBuf,
    paths: Vec<DevicePathBuf>,
    policy: BootSourcePolicy,
    error: EfiError,
    group: EventGroup,
    hotkey: SreHotkey,
    flag: bool,
)
    ensures
        action_views(list).len() == list.len(),
        0 <= i < list.len() ==> action_views(list)[i] == list[i]@,
        SreAction::Boot(path)@ == ActionView::Boot(path@),
        SreAction::ListFallback(policy)@ == ActionView::ListFallback(policy@),
        SreAction::Fail(error)@ == ActionView::Fail(error),
        SreAction::SignalEventGroup(group)@ == ActionView::SignalEventGroup(group),
        SreAction::DispatchDrivers@ == ActionView::DispatchDrivers,
        SreAction::ConnectAllSkipUsb@ == ActionView::ConnectAllSkipUsb,
        SreAction::ProcessCapsules@ == ActionView::ProcessCapsules,
        SreAction::EnterLockedBoot@ == ActionView::EnterLockedBoot,
        SreAction::ProbeHotkey@ == ActionView::ProbeHotkey,
        SreAction::ConnectAll@ == ActionView::ConnectAll,
        SreAction::DiscoverConsoles@ == ActionView::DiscoverConsoles,
        SreAction::FindUsbVolume@ == ActionView::FindUsbVolume,
        SreAction::SignalReadyToBoot@ == ActionView::SignalReadyToBoot,
        SreAction::RunRecovery@ == ActionView::RunRecovery,
        SreAction::ProbeRecoveryPayload@ == ActionView::ProbeRecoveryPayload,
        SreAction::DiscoverBootOptions@ == ActionView::DiscoverBootOptions,
        SreEvent::Begin@ == EventView::Begin,
        SreEvent::Dispatched(Ok(flag))@ == EventView::Dispatched(Ok(flag)),
        SreEvent::Dispatched(Err(error))@ == EventView::Dispatched(Err(error)),
        SreEvent::Locked(Ok(()))@ == EventView::Locked(Ok(())),
        SreEvent::Locked(Err(error))@ == EventView::Locked(Err(error)),
        SreEvent::Hotkey(hotkey)@ == EventView::Hotkey(hotkey),
        SreEvent::UsbVolume(Some(path))@ == EventView::UsbVolume(Some(path@)),
        SreEvent::UsbVolume(None)@ == EventView::UsbVolume(None),
        SreEvent::RecoveryPayload(flag)@ == EventView::RecoveryPayload(flag),
        SreEvent::BootOptions(Ok(paths))@ == EventView::BootOptions(
            Ok(device_path::path_views(paths@)),
        ),
        SreEvent::BootOptions(Err(error))@ == EventView::BootOptions(Err(error)),
        SreEvent::FallbackOptions(Ok(paths))@ == EventView::FallbackOptions(
            Ok(device_path::path_views(paths@)),
        ),
        SreEvent::FallbackOptions(Err(error))@ == EventView::FallbackOptions(Err(error)),
{
}

} // verus!
