//! Simple boot manager for platforms with straightforward boot topologies:
//!
//! - multi-device boot via [`BootConfig`]
//! - optional hotkey detection for alternate boot paths
//! - a failure handler when every option is exhausted
//!
//! Both the manager and the interleaving of controller connection with driver dispatch are
//! state machines: they take what happened and return what is to be done next.

use vstd::prelude::*;

use crate::device_path;
use crate::device_path::DevicePathBuf;
use crate::efi::{EfiError, NOT_FOUND};

verus! {

/// The devices to boot from, in order, and those to boot from instead while a hotkey is
/// pressed.
#[derive(Debug)]
pub struct BootConfig {
    devices: Vec<DevicePathBuf>,
    hotkey: Option<u16>,
    hotkey_devices: Vec<DevicePathBuf>,
}

/// What a boot configuration holds.
pub struct BootConfigView {
    pub devices: Seq<Seq<u8>>,
    pub hotkey: Option<u16>,
    pub hotkey_devices: Seq<Seq<u8>>,
}

impl View for BootConfig {
    type V = BootConfigView;

    closed spec fn view(&self) -> BootConfigView {
        BootConfigView {
            devices: device_path::path_views(self.devices@),
            hotkey: self.hotkey,
            hotkey_devices: device_path::path_views(self.hotkey_devices@),
        }
    }
}

impl BootConfig {
    /// A configuration with one device and no hotkey.
    pub fn new(device: DevicePathBuf) -> (config: Self)
        ensures
            config@ == (BootConfigView {
                devices: seq![device@],
                hotkey: None,
                hotkey_devices: seq![],
            }),
    {
        let config = BootConfig { devices: vec![device], hotkey: None, hotkey_devices: Vec::new() };
        assert(config@.devices =~= seq![device@]);
        assert(config@.hotkey_devices =~= seq![]);
        config
    }

    /// Add a device to boot from after those already there.
    pub fn with_device(self, device: DevicePathBuf) -> (config: Self)
        ensures
            config@ == (BootConfigView { devices: self@.devices.push(device@), ..self@ }),
    {
        let mut config = self;
        config.devices.push(device);
        assert(config@.devices =~= self@.devices.push(device@));
        config
    }

    /// Set the scan code of the hotkey.
    pub fn with_hotkey(self, hotkey: u16) -> (config: Self)
        ensures
            config@ == (BootConfigView { hotkey: Some(hotkey), ..self@ }),
    {
        let mut config = self;
        config.hotkey = Some(hotkey);
        config
    }

    /// Add a device to boot from while the hotkey is pressed.
    pub fn with_hotkey_device(self, device: DevicePathBuf) -> (config: Self)
        ensures
            config@ == (BootConfigView {
                hotkey_devices: self@.hotkey_devices.push(device@),
                ..self@
            }),
    {
        let mut config = self;
        config.hotkey_devices.push(device);
        assert(config@.hotkey_devices =~= self@.hotkey_devices.push(device@));
        config
    }

    /// The devices to boot from.
    pub fn devices(&self) -> (list: &Vec<DevicePathBuf>)
        ensures
            device_path::path_views(list@) == self@.devices,
    {
        &self.devices
    }

    /// The scan code of the hotkey, if one is configured.
    pub fn hotkey(&self) -> (hotkey: Option<u16>)
        ensures
            hotkey == self@.hotkey,
    {
        self.hotkey
    }

    /// The devices to boot from while the hotkey is pressed.
    pub fn hotkey_devices(&self) -> (list: &Vec<DevicePathBuf>)
        ensures
            device_path::path_views(list@) == self@.hotkey_devices,
    {
        &self.hotkey_devices
    }
}

// ---------------------------------------------------------------------------
// Interleaving
// ---------------------------------------------------------------------------

/// Where the interleaving of controller connection with driver dispatch stands: the request
/// whose reply is awaited. `prev` is the handle count before the round.
#[derive(Debug, Clone, Copy, PartialEq, Eq)]
pub enum InterleaveStage {
    /// The handles are being counted before the first round.
    CountingFirst,
    /// Controllers are being connected.
    Connecting { prev: usize },
    /// Drivers are being dispatched.
    Dispatching { prev: usize },
    /// The handles are being counted after a round.
    Counting { prev: usize },
    /// The interleaving is over with this result.
    Finished(Result<(), EfiError>),
}

/// The reply to a request of the interleaving.
#[derive(Debug, Clone, Copy, PartialEq, Eq)]
pub enum InterleaveReply {
    /// The total number of handles in the system.
    Counted(Result<usize, EfiError>),
    /// Controllers were connected.
    Connected(Result<(), EfiError>),
    /// Drivers were dispatched, with whether any was.
    Dispatched(Result<bool, EfiError>),
}

/// The error of a reply, if it reports one.
pub open spec fn reply_error(reply: InterleaveReply) -> Option<EfiError> {
    match reply {
        InterleaveReply::Counted(Err(e)) => Some(e),
        InterleaveReply::Connected(Err(e)) => Some(e),
        InterleaveReply::Dispatched(Err(e)) => Some(e),
        _ => None,
    }
}

/// The reply answers the request of the stage.
pub open spec fn answers(stage: InterleaveStage, reply: InterleaveReply) -> bool {
    match stage {
        InterleaveStage::CountingFirst => reply is Counted,
        InterleaveStage::Connecting { .. } => reply is Connected,
        InterleaveStage::Dispatching { .. } => reply is Dispatched,
        InterleaveStage::Counting { .. } => reply is Counted,
        InterleaveStage::Finished(_) => false,
    }
}

/// The stage after a reply: an error ends the interleaving, the rounds go on while the
/// handle count grows, and a reply to no request of the stage changes nothing.
pub open spec fn next_interleave_stage(
    stage: InterleaveStage,
    reply: InterleaveReply,
) -> InterleaveStage {
    if !answers(stage, reply) {
        stage
    } else if reply_error(reply) is Some {
        InterleaveStage::Finished(Err(reply_error(reply)->0))
    } else {
        match stage {
            InterleaveStage::CountingFirst => InterleaveStage::Connecting {
                prev: reply->Counted_0->Ok_0,
            },
            InterleaveStage::Connecting { prev } => InterleaveStage::Dispatching { prev },
            InterleaveStage::Dispatching { prev } => InterleaveStage::Counting { prev },
            InterleaveStage::Counting { prev } => if reply->Counted_0->Ok_0 <= prev {
                InterleaveStage::Finished(Ok(()))
            } else {
                InterleaveStage::Connecting { prev: reply->Counted_0->Ok_0 }
            },
            InterleaveStage::Finished(result) => InterleaveStage::Finished(result),
        }
    }
}

/// Interleave controller connection with driver dispatch.
///
/// Alternates between connecting controllers and dispatching newly loaded drivers until the
/// total handle count stops growing across a round, so that drivers loaded during
/// enumeration can bind to newly discovered controllers. Starts at
/// [`InterleaveStage::CountingFirst`].
pub fn interleave_connect_and_dispatch(
    stage: InterleaveStage,
    reply: InterleaveReply,
) -> (next: InterleaveStage)
    ensures
        next == next_interleave_stage(stage, reply),
{
    match (stage, reply) {
        (InterleaveStage::CountingFirst, InterleaveReply::Counted(count)) => match count {
            Ok(prev) => InterleaveStage::Connecting { prev },
            Err(e) => InterleaveStage::Finished(Err(e)),
        },
        (InterleaveStage::Connecting { prev }, InterleaveReply::Connected(result)) => match result {
            Ok(()) => InterleaveStage::Dispatching { prev },
            Err(e) => InterleaveStage::Finished(Err(e)),
        },
        (
            InterleaveStage::Dispatching { prev },
            InterleaveReply::Dispatched(result),
        ) => match result {
            Ok(_) => InterleaveStage::Counting { prev },
            Err(e) => InterleaveStage::Finished(Err(e)),
        },
        (InterleaveStage::Counting { prev }, InterleaveReply::Counted(count)) => match count {
            Ok(current) => {
                if current <= prev {
                    InterleaveStage::Finished(Ok(()))
                } else {
                    InterleaveStage::Connecting { prev: current }
                }
            },
            Err(e) => InterleaveStage::Finished(Err(e)),
        },
        _ => stage,
    }
}

/// The stage after rounds in which nothing failed: `counts` holds the handle counts, the
/// first before any round, then one after each; `dispatched` says for each count whether the
/// round before it dispatched a driver.
pub open spec fn after_rounds(counts: Seq<usize>, dispatched: Seq<bool>) -> InterleaveStage
    decreases counts.len(),
{
    if counts.len() == 0 {
        InterleaveStage::CountingFirst
    } else {
        let before = after_rounds(counts.drop_last(), dispatched);
        let connected = next_interleave_stage(before, InterleaveReply::Connected(Ok(())));
        let drivers = next_interleave_stage(
            connected,
            InterleaveReply::Dispatched(Ok(dispatched[counts.len() - 1])),
        );
        next_interleave_stage(drivers, InterleaveReply::Counted(Ok(counts.last())))
    }
}

/// The handle count did not grow across some round.
pub open spec fn settled(counts: Seq<usize>) -> bool {
    exists|i: int| 0 < i < counts.len() && #[trigger] counts[i] <= counts[i - 1]
}

/// Where nothing fails, the interleaving succeeds as soon as the handle count does not grow
/// across a round, and goes on with another round until then, whatever was dispatched.
pub proof fn law_interleave_converges(counts: Seq<usize>, dispatched: Seq<bool>)
    requires
        counts.len() > 0,
    ensures
        after_rounds(counts, dispatched) == if settled(counts) {
            InterleaveStage::Finished(Ok(()))
        } else {
            InterleaveStage::Connecting { prev: counts.last() }
        },
    decreases counts.len(),
{
    if counts.len() > 1 {
        let before = counts.drop_last();
        law_interleave_converges(before, dispatched);
        let n = counts.len() - 1;
        if settled(before) {
            let i = choose|i: int| 0 < i < before.len() && #[trigger] before[i] <= before[i - 1];
            assert(counts[i] <= counts[i - 1]);
        } else if counts[n] > counts[n - 1] && settled(counts) {
            let i = choose|i: int| 0 < i < counts.len() && #[trigger] counts[i] <= counts[i - 1];
            assert(before[i] <= before[i - 1]);
        }
    } else {
        reveal_with_fuel(after_rounds, 2);
    }
}

/// An error in any reply that is awaited is the result of the interleaving.
pub proof fn law_interleave_propagates_errors(stage: InterleaveStage, reply: InterleaveReply)
    requires
        answers(stage, reply),
        reply_error(reply) is Some,
    ensures
        next_interleave_stage(stage, reply) == InterleaveStage::Finished(
            Err(reply_error(reply)->0),
        ),
{
}

// ---------------------------------------------------------------------------
// Manager
// ---------------------------------------------------------------------------

/// Connects all controllers recursively.
#[derive(Debug, Clone, Copy)]
pub struct ConnectAllStrategy;

/// Something that the boot flow asks of the platform.
#[derive(Debug)]
pub enum BootAction {
    /// Interleave controller connection with driver dispatch.
    ConnectAndDispatch,
    /// Signal the end of driver execution and lock the platform; replied with
    /// [`BootEvent::Locked`].
    EnterLockedBoot,
    /// Discover console devices.
    DiscoverConsoles,
    /// Look whether the hotkey is pressed; replied with [`BootEvent::HotkeyDetected`].
    DetectHotkey(u16),
    /// Signal that a boot attempt follows.
    SignalReadyToBoot,
    /// Load and start the image at the device path.
    Boot(DevicePathBuf),
    /// Call the configured failure handler.
    HandleFailure,
    /// The boot is over with this error.
    Fail(EfiError),
}

/// An action by the contents of its device path.
pub enum BootActionView {
    ConnectAndDispatch,
    EnterLockedBoot,
    DiscoverConsoles,
    DetectHotkey(u16),
    SignalReadyToBoot,
    Boot(Seq<u8>),
    HandleFailure,
    Fail(EfiError),
}

impl View for BootAction {
    type V = BootActionView;

    open spec fn view(&self) -> BootActionView {
        match self {
            BootAction::ConnectAndDispatch => BootActionView::ConnectAndDispatch,
            BootAction::EnterLockedBoot => BootActionView::EnterLockedBoot,
            BootAction::DiscoverConsoles => BootActionView::DiscoverConsoles,
            BootAction::DetectHotkey(hotkey) => BootActionView::DetectHotkey(*hotkey),
            BootAction::SignalReadyToBoot => BootActionView::SignalReadyToBoot,
            BootAction::Boot(path) => BootActionView::Boot(path@),
            BootAction::HandleFailure => BootActionView::HandleFailure,
            BootAction::Fail(e) => BootActionView::Fail(*e),
        }
    }
}

/// The views of a list of actions.
pub open spec fn boot_action_views(list: Seq<BootAction>) -> Seq<BootActionView> {
    Seq::new(list.len(), |i: int| list[i]@)
}

/// Where the boot flow stands.
#[derive(Debug, Clone, Copy, PartialEq, Eq, Structural)]
pub enum BootStage {
    /// The flow has not started.
    Start,
    /// The platform is being locked.
    Locking,
    /// The hotkey is being looked for.
    Detecting,
    /// The boot is over.
    Done,
}

/// What happened: the reply to the last action.
#[derive(Debug, Clone, Copy, PartialEq, Eq)]
pub enum BootEvent {
    /// The boot flow starts.
    Begin,
    /// The locked boot phase was entered, or not.
    Locked(Result<(), EfiError>),
    /// Whether the hotkey is pressed.
    HotkeyDetected(bool),
}

/// One attempt per device, in order, each announced by the ready-to-boot signal.
pub open spec fn device_attempts(devices: Seq<Seq<u8>>) -> Seq<BootActionView> {
    Seq::new(
        2 * devices.len(),
        |i: int|
            if i % 2 == 0 {
                BootActionView::SignalReadyToBoot
            } else {
                BootActionView::Boot(devices[i / 2])
            },
    )
}

/// The end of the boot: every device is attempted, then the failure handler is called.
pub open spec fn boot_from(devices: Seq<Seq<u8>>) -> (BootStage, Seq<BootActionView>) {
    (
        BootStage::Done,
        device_attempts(devices) + seq![
            BootActionView::HandleFailure,
            BootActionView::Fail(EfiError { status: NOT_FOUND }),
        ],
    )
}

impl BootConfigView {
    /// The boot flow: the next stage and the actions to perform, in order. An event that is
    /// no reply to what the stage waits for changes nothing.
    pub open spec fn step(self, stage: BootStage, event: BootEvent) -> (
        BootStage,
        Seq<BootActionView>,
    ) {
        match (stage, event) {
            (BootStage::Start, BootEvent::Begin) => (
                BootStage::Locking,
                seq![BootActionView::ConnectAndDispatch, BootActionView::EnterLockedBoot],
            ),
            (BootStage::Locking, BootEvent::Locked(Err(e))) => (
                BootStage::Done,
                seq![BootActionView::Fail(e)],
            ),
            (BootStage::Locking, BootEvent::Locked(Ok(_))) => match self.hotkey {
                Some(hotkey) => (
                    BootStage::Detecting,
                    seq![BootActionView::DiscoverConsoles, BootActionView::DetectHotkey(hotkey)],
                ),
                None => (
                    BootStage::Done,
                    seq![BootActionView::DiscoverConsoles] + boot_from(self.devices).1,
                ),
            },
            (BootStage::Detecting, BootEvent::HotkeyDetected(pressed)) => boot_from(
                if pressed {
                    self.hotkey_devices
                } else {
                    self.devices
                },
            ),
            _ => (stage, seq![]),
        }
    }

    /// The stage and all actions after the events, from the start of the flow.
    pub open spec fn run(self, events: Seq<BootEvent>) -> (BootStage, Seq<BootActionView>)
        decreases events.len(),
    {
        if events.len() == 0 {
            (BootStage::Start, seq![])
        } else {
            let (stage, actions) = self.run(events.drop_last());
            let (next, more) = self.step(stage, events.last());
            (next, actions + more)
        }
    }
}

/// Append an attempt for each device and the end of the boot.
fn push_boot_from(list: &mut Vec<BootAction>, devices: &Vec<DevicePathBuf>)
    ensures
        boot_action_views(final(list)@) == boot_action_views(old(list)@) + boot_from(
            device_path::path_views(devices@),
        ).1,
{
    let ghost all = device_path::path_views(devices@);
    let ghost before = boot_action_views(list@);
    for i in 0..devices.len()
        invariant
            all == device_path::path_views(devices@),
            boot_action_views(list@) == before + device_attempts(all.take(i as int)),
    {
        let ghost so_far = list@;
        list.push(BootAction::SignalReadyToBoot);
        list.push(BootAction::Boot(devices[i].clone()));
        assert(boot_action_views(list@) =~= boot_action_views(so_far) + seq![
            BootActionView::SignalReadyToBoot,
            BootActionView::Boot(all[i as int]),
        ]);
    }
    let ghost attempted = list@;
    list.push(BootAction::HandleFailure);
    list.push(BootAction::Fail(EfiError { status: NOT_FOUND }));
    assert(boot_action_views(list@) =~= boot_action_views(attempted) + seq![
        BootActionView::HandleFailure,
        BootActionView::Fail(EfiError { status: NOT_FOUND }),
    ]);
}

/// Simple boot manager: a boot configuration and the strategy that connects controllers
/// during device enumeration.
///
/// Boot flow:
///
/// 1. Interleave controller connection with driver dispatch
/// 2. Enter the locked boot phase; abort the boot if that fails
/// 3. Discover console devices
/// 4. Detect the hotkey, if configured; select alternate devices if pressed
/// 5. Signal ready-to-boot and attempt to boot, device by device
/// 6. Call the failure handler if all options are exhausted
#[derive(Debug)]
pub struct SimpleBootManager<C = ConnectAllStrategy> {
    config: BootConfig,
    connect_strategy: C,
}

impl<C> View for SimpleBootManager<C> {
    type V = BootConfigView;

    closed spec fn view(&self) -> BootConfigView {
        self.config@
    }
}

impl SimpleBootManager<ConnectAllStrategy> {
    /// Create a manager from a boot configuration, with [`ConnectAllStrategy`].
    pub fn new(config: BootConfig) -> (manager: Self)
        ensures
            manager@ == config@,
            manager.strategy() == ConnectAllStrategy,
    {
        SimpleBootManager { config, connect_strategy: ConnectAllStrategy }
    }
}

impl<C> SimpleBootManager<C> {
    /// The strategy that the manager was made with.
    pub closed spec fn strategy(&self) -> C {
        self.connect_strategy
    }

    /// Create a manager with a custom connection strategy.
    pub fn with_connect_strategy(config: BootConfig, strategy: C) -> (manager: Self)
        ensures
            manager@ == config@,
            manager.strategy() == strategy,
    {
        SimpleBootManager { config, connect_strategy: strategy }
    }

    /// The boot configuration.
    pub fn config(&self) -> (config: &BootConfig)
        ensures
            config@ == self@,
    {
        &self.config
    }

    /// The strategy that connects controllers.
    pub fn connect_strategy(&self) -> (strategy: &C)
        ensures
            *strategy == self.strategy(),
    {
        &self.connect_strategy
    }

    /// Decide the boot: from the stage and the reply to the last action, the next stage and
    /// the actions to perform in order.
    ///
    /// The flow starts with [`BootEvent::Begin`] at [`BootStage::Start`] and is over at
    /// [`BootStage::Done`], with the error of the last action.
    pub fn next(&self, stage: BootStage, event: BootEvent) -> (result: (BootStage, Vec<BootAction>))
        ensures
            (result.0, boot_action_views(result.1@)) == self@.step(stage, event),
    {
        let mut list: Vec<BootAction> = Vec::new();
        let next = match (stage, event) {
            (BootStage::Start, BootEvent::Begin) => {
                list.push(BootAction::ConnectAndDispatch);
                list.push(BootAction::EnterLockedBoot);
                BootStage::Locking
            },
            (BootStage::Locking, BootEvent::Locked(reply)) => match reply {
                Err(e) => {
                    list.push(BootAction::Fail(e));
                    BootStage::Done
                },
                Ok(()) => {
                    list.push(BootAction::DiscoverConsoles);
                    match self.config.hotkey {
                        Some(hotkey) => {
                            list.push(BootAction::DetectHotkey(hotkey));
                            BootStage::Detecting
                        },
                        None => {
                            push_boot_from(&mut list, &self.config.devices);
                            BootStage::Done
                        },
                    }
                },
            },
            (BootStage::Detecting, BootEvent::HotkeyDetected(pressed)) => {
                if pressed {
                    push_boot_from(&mut list, &self.config.hotkey_devices);
                } else {
                    push_boot_from(&mut list, &self.config.devices);
                }
                BootStage::Done
            },
            _ => stage,
        };
        (next, list)
    }
}

// ---------------------------------------------------------------------------
// Laws
// ---------------------------------------------------------------------------

/// Until the platform has entered the locked boot phase no image is started, whatever the
/// events.
pub proof fn law_no_image_before_lock(config: BootConfigView, events: Seq<BootEvent>)
    requires
        forall|i: int| 0 <= i < events.len() ==> #[trigger] events[i] != BootEvent::Locked(Ok(())),
    ensures
        forall|j: int|
            0 <= j < config.run(events).1.len() ==> !(#[trigger] config.run(events).1[j] is Boot),
        !(config.run(events).0 is Detecting),
    decreases events.len(),
{
    if events.len() > 0 {
        let before = events.drop_last();
        assert forall|i: int| 0 <= i < before.len() implies #[trigger] before[i]
            != BootEvent::Locked(Ok(())) by {}
        law_no_image_before_lock(config, before);
        // The unit value is the only one that a successful lock carries.
        if let BootEvent::Locked(Ok(unit)) = events.last() {
            assert(unit == ());
        }
    }
}

/// A boot that is over stays over: later events cause nothing.
pub proof fn law_done_is_final(
    config: BootConfigView,
    events: Seq<BootEvent>,
    later: Seq<BootEvent>,
)
    requires
        config.run(events).0 == BootStage::Done,
    ensures
        config.run(events + later) == config.run(events),
    decreases later.len(),
{
    if later.len() > 0 {
        law_done_is_final(config, events, later.drop_last());
        assert((events + later).drop_last() =~= events + later.drop_last());
    }
}

/// If entering the locked boot phase fails, the boot ends with exactly that error: nothing
/// else happens, whatever comes later.
pub proof fn law_lock_failure_ends_boot(
    config: BootConfigView,
    events: Seq<BootEvent>,
    error: EfiError,
    later: Seq<BootEvent>,
)
    requires
        config.run(events).0 == BootStage::Locking,
    ensures
        config.run(events.push(BootEvent::Locked(Err(error))) + later) == (
            BootStage::Done,
            config.run(events).1.push(BootActionView::Fail(error)),
        ),
{
    let failed = events.push(BootEvent::Locked(Err(error)));
    assert(failed.drop_last() =~= events);
    law_done_is_final(config, failed, later);
}

/// Every boot attempt is announced: an image is started only right after the ready-to-boot
/// signal.
pub proof fn law_ready_to_boot_precedes_boot(
    config: BootConfigView,
    stage: BootStage,
    event: BootEvent,
)
    ensures
        ({
            let actions = config.step(stage, event).1;
            forall|j: int|
                0 <= j < actions.len() && (#[trigger] actions[j] is Boot) ==> j > 0 && actions[j - 1]
                    == BootActionView::SignalReadyToBoot
        }),
{
}

/// The hotkey selects the devices: pressed, exactly the hotkey devices are attempted; not
/// pressed or not configured, exactly the others. Either way the failure handler is called
/// last, before the boot fails as not found.
pub proof fn law_hotkey_selects_devices(config: BootConfigView, hotkey: u16)
    ensures
        (BootConfigView { hotkey: Some(hotkey), ..config }).run(
            seq![BootEvent::Begin, BootEvent::Locked(Ok(())), BootEvent::HotkeyDetected(true)],
        ).1 == seq![
            BootActionView::ConnectAndDispatch,
            BootActionView::EnterLockedBoot,
            BootActionView::DiscoverConsoles,
            BootActionView::DetectHotkey(hotkey),
        ] + boot_from(config.hotkey_devices).1,
        (BootConfigView { hotkey: Some(hotkey), ..config }).run(
            seq![BootEvent::Begin, BootEvent::Locked(Ok(())), BootEvent::HotkeyDetected(false)],
        ).1 == seq![
            BootActionView::ConnectAndDispatch,
            BootActionView::EnterLockedBoot,
            BootActionView::DiscoverConsoles,
            BootActionView::DetectHotkey(hotkey),
        ] + boot_from(config.devices).1,
        (BootConfigView { hotkey: None, ..config }).run(
            seq![BootEvent::Begin, BootEvent::Locked(Ok(()))],
        ).1 == seq![
            BootActionView::ConnectAndDispatch,
            BootActionView::EnterLockedBoot,
            BootActionView::DiscoverConsoles,
        ] + boot_from(config.devices).1,
{
    reveal_with_fuel(BootConfigView::run, 4);
}

/// A round connects controllers, then dispatches drivers, then counts; only a count that grew
/// starts another, with that count. Whether a driver was dispatched does not matter.
pub proof fn law_interleave_takes_its_course(
    prev: usize,
    current: usize,
    dispatched: bool,
    result: Result<(), EfiError>,
    reply: InterleaveReply,
)
    ensures
        next_interleave_stage(InterleaveStage::CountingFirst, InterleaveReply::Counted(Ok(prev)))
            == (InterleaveStage::Connecting { prev }),
        next_interleave_stage(
            InterleaveStage::Connecting { prev },
            InterleaveReply::Connected(Ok(())),
        ) == (InterleaveStage::Dispatching { prev }),
        next_interleave_stage(
            InterleaveStage::Dispatching { prev },
            InterleaveReply::Dispatched(Ok(dispatched)),
        ) == (InterleaveStage::Counting { prev }),
        current > prev ==> next_interleave_stage(
            InterleaveStage::Counting { prev },
            InterleaveReply::Counted(Ok(current)),
        ) == (InterleaveStage::Connecting { prev: current }),
        current <= prev ==> next_interleave_stage(
            InterleaveStage::Counting { prev },
            InterleaveReply::Counted(Ok(current)),
        ) == InterleaveStage::Finished(Ok(())),
        next_interleave_stage(InterleaveStage::Finished(result), reply)
            == InterleaveStage::Finished(result),
{
}

/// A failure of the call that a stage waits for ends the interleaving with its error, and the
/// reply to any other call changes nothing.
pub proof fn law_interleave_fails_with_the_awaited_call(
    stage: InterleaveStage,
    error: EfiError,
    counted: Result<usize, EfiError>,
    connected: Result<(), EfiError>,
    dispatched: Result<bool, EfiError>,
)
    ensures
        stage is CountingFirst || stage is Counting ==> {
            &&& next_interleave_stage(stage, InterleaveReply::Counted(Err(error)))
                == InterleaveStage::Finished(Err(error))
            &&& next_interleave_stage(stage, InterleaveReply::Connected(connected)) == stage
            &&& next_interleave_stage(stage, InterleaveReply::Dispatched(dispatched)) == stage
        },
        stage is Connecting ==> {
            &&& next_interleave_stage(stage, InterleaveReply::Connected(Err(error)))
                == InterleaveStage::Finished(Err(error))
            &&& next_interleave_stage(stage, InterleaveReply::Counted(counted)) == stage
            &&& next_interleave_stage(stage, InterleaveReply::Dispatched(dispatched)) == stage
        },
        stage is Dispatching ==> {
            &&& next_interleave_stage(stage, InterleaveReply::Dispatched(Err(error)))
                == InterleaveStage::Finished(Err(error))
            &&& next_interleave_stage(stage, InterleaveReply::Counted(counted)) == stage
            &&& next_interleave_stage(stage, InterleaveReply::Connected(connected)) == stage
        },
{
}

/// Every device is attempted, as often as it is listed and in the order of the list, each
/// right after the ready-to-boot signal; then the failure handler is called and the boot fails
/// as not found, and nothing else happens.
pub proof fn law_every_device_is_attempted(config: BootConfigView, pressed: bool)
    ensures
        ({
            let (next, actions) = config.step(
                BootStage::Detecting,
                BootEvent::HotkeyDetected(pressed),
            );
            let devices = if pressed { config.hotkey_devices } else { config.devices };
            let n = devices.len() as int;
            &&& next == BootStage::Done
            &&& actions.len() == 2 * n + 2
            &&& forall|i: int|
                0 <= i < n ==> actions[2 * i] == BootActionView::SignalReadyToBoot && actions[2 * i
                    + 1] == BootActionView::Boot(#[trigger] devices[i])
            &&& actions[2 * n] == BootActionView::HandleFailure
            &&& actions[2 * n + 1] == BootActionView::Fail(EfiError { status: NOT_FOUND })
        }),
{
}

/// Without a hotkey the boot goes on right after the lock: consoles are discovered, and then
/// the devices are attempted as they are where a hotkey is not pressed.
pub proof fn law_no_hotkey_boots_the_devices(config: BootConfigView)
    ensures
        config.hotkey is None ==> config.step(BootStage::Locking, BootEvent::Locked(Ok(()))) == (
            BootStage::Done,
            seq![BootActionView::DiscoverConsoles] + config.step(
                BootStage::Detecting,
                BootEvent::HotkeyDetected(false),
            ).1,
        ),
        config.hotkey matches Some(hotkey) ==> config.step(
            BootStage::Locking,
            BootEvent::Locked(Ok(())),
        ) == (
            BootStage::Detecting,
            seq![BootActionView::DiscoverConsoles, BootActionView::DetectHotkey(hotkey)],
        ),
        config.step(BootStage::Start, BootEvent::Begin) == (
            BootStage::Locking,
            seq![BootActionView::ConnectAndDispatch, BootActionView::EnterLockedBoot],
        ),
{
}

/// A failed lock ends the boot with its error and no other action, and an event that is no
/// reply to what the stage waits for changes nothing.
pub proof fn law_boot_waits_for_its_reply(
    config: BootConfigView,
    stage: BootStage,
    event: BootEvent,
    error: EfiError,
)
    ensures
        config.step(BootStage::Locking, BootEvent::Locked(Err(error))) == (
            BootStage::Done,
            seq![BootActionView::Fail(error)],
        ),
        stage is Done || (stage is Start) != (event is Begin) || (stage is Locking) != (event
            is Locked) || (stage is Detecting) != (event is HotkeyDetected) ==> config.step(
            stage,
            event,
        ) == (stage, Seq::<BootActionView>::empty()),
{
}

/// A list of actions is seen action by action.
pub proof fn law_boot_actions_are_seen_whole(list: Seq<BootAction>, i: int)
    ensures
        boot_action_views(list).len() == list.len(),
        0 <= i < list.len() ==> match list[i] {
            BootAction::ConnectAndDispatch => boot_action_views(list)[i]
                == BootActionView::ConnectAndDispatch,
            BootAction::EnterLockedBoot => boot_action_views(list)[i]
                == BootActionView::EnterLockedBoot,
            BootAction::DiscoverConsoles => boot_action_views(list)[i]
                == BootActionView::DiscoverConsoles,
            BootAction::DetectHotkey(hotkey) => boot_action_views(list)[i]
                == BootActionView::DetectHotkey(hotkey),
            BootAction::SignalReadyToBoot => boot_action_views(list)[i]
                == BootActionView::SignalReadyToBoot,
            BootAction::Boot(path) => boot_action_views(list)[i] == BootActionView::Boot(path@),
            BootAction::HandleFailure => boot_action_views(list)[i]
                == BootActionView::HandleFailure,
            BootAction::Fail(e) => boot_action_views(list)[i] == BootActionView::Fail(e),
        },
{
}

} // verus!
