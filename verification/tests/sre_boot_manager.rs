use odp_platform_common::boot_source_policy::BootSourcePolicy;
use odp_platform_common::capsule::{process, CapsuleAction};
use odp_platform_common::device_path::DevicePathBuf;
use odp_platform_common::efi::{EfiError, ERROR_BIT, NOT_FOUND};
use odp_platform_common::events::{signal_event_group, EventGroup, SignalStage};
use odp_platform_common::sre_boot_manager::{
    button_calls, probe_sre_hotkey, ButtonCall, SreAction, SreBootManager, SreEvent, SreHotkey,
    SreStage,
};

const REFUSED: EfiError = EfiError { status: ERROR_BIT + 15 };

fn test_device_path() -> DevicePathBuf {
    DevicePathBuf::from_bytes(vec![0x7f, 0xff, 0x04, 0x00])
}

/// A path with one node of the given type and sub-type that holds a number.
fn node_path(node_type: u8, sub_type: u8, n: u8) -> DevicePathBuf {
    DevicePathBuf::from_bytes(vec![node_type, sub_type, 0x05, 0x00, n, 0x7f, 0xff, 0x04, 0x00])
}

fn disk(n: u8) -> DevicePathBuf {
    node_path(0x03, 0x12, n)
}

fn usb(n: u8) -> DevicePathBuf {
    node_path(0x03, 0x05, n)
}

fn firmware(n: u8) -> DevicePathBuf {
    node_path(0x04, 0x06, n)
}

/// What a platform answers.
struct Platform {
    dispatches: Vec<Result<bool, EfiError>>,
    locked: Result<(), EfiError>,
    hotkey: SreHotkey,
    usb: Option<DevicePathBuf>,
    payload: bool,
    options: Vec<Result<Vec<DevicePathBuf>, EfiError>>,
    fallback: Vec<Result<Vec<DevicePathBuf>, EfiError>>,
}

impl Platform {
    fn new() -> Self {
        Platform {
            dispatches: vec![Ok(false)],
            locked: Ok(()),
            hotkey: SreHotkey::NotLatched,
            usb: None,
            payload: false,
            options: vec![Ok(Vec::new()), Ok(Vec::new())],
            fallback: vec![Ok(Vec::new()), Ok(Vec::new())],
        }
    }
}

/// Run the boot flow on a platform; returns the names of the actions and the error.
fn boot(manager: &SreBootManager, mut platform: Platform) -> (Vec<String>, EfiError) {
    let mut trace = Vec::new();
    let mut stage = SreStage::Start;
    let mut event = SreEvent::Begin;
    loop {
        let (next, actions) = manager.next(stage, event);
        stage = next;
        event = SreEvent::Begin;
        assert!(!actions.is_empty());
        for action in actions {
            let name = match action {
                SreAction::SignalEventGroup(group) => format!("signal {group:?}"),
                SreAction::DispatchDrivers => {
                    event = SreEvent::Dispatched(platform.dispatches.remove(0));
                    "dispatch".to_string()
                }
                SreAction::ConnectAllSkipUsb => "connect-skip-usb".to_string(),
                SreAction::ProcessCapsules => "capsules".to_string(),
                SreAction::EnterLockedBoot => {
                    event = SreEvent::Locked(platform.locked);
                    "lock".to_string()
                }
                SreAction::ProbeHotkey => {
                    event = SreEvent::Hotkey(platform.hotkey);
                    "hotkey".to_string()
                }
                SreAction::ConnectAll => "connect-all".to_string(),
                SreAction::DiscoverConsoles => "consoles".to_string(),
                SreAction::FindUsbVolume => {
                    event = SreEvent::UsbVolume(platform.usb.take());
                    "find-usb".to_string()
                }
                SreAction::SignalReadyToBoot => "ready".to_string(),
                SreAction::Boot(path) => format!("boot {}", path.as_bytes()[4]),
                SreAction::RunRecovery => "recovery".to_string(),
                SreAction::ProbeRecoveryPayload => {
                    event = SreEvent::RecoveryPayload(platform.payload);
                    "probe-payload".to_string()
                }
                SreAction::DiscoverBootOptions => {
                    event = SreEvent::BootOptions(platform.options.remove(0));
                    "options".to_string()
                }
                SreAction::ListFallback(policy) => {
                    event = SreEvent::FallbackOptions(platform.fallback.remove(0));
                    format!("fallback {}", policy.has_sources())
                }
                SreAction::Fail(error) => {
                    assert_eq!(stage, SreStage::Done);
                    return (trace, error);
                }
            };
            trace.push(name);
        }
    }
}

const PRE_LOCK: [&str; 4] = ["signal MsStartOfBds", "dispatch", "connect-skip-usb", "lock"];

fn after_lock(manager: &SreBootManager, platform: Platform) -> Vec<String> {
    let (trace, error) = boot(manager, platform);
    assert_eq!(error, EfiError { status: NOT_FOUND });
    assert_eq!(trace[..4], PRE_LOCK);
    assert_eq!(trace[4], "hotkey");
    trace[5..].to_vec()
}

#[test]
fn test_new_constructs() {
    let _ = SreBootManager::new(test_device_path());
}

#[test]
fn test_dfci_start_of_bds_precedes_work_and_security_transition() {
    let manager = SreBootManager::new(test_device_path()).with_dfci_bds_signal();
    let mut platform = Platform::new();
    platform.locked = Err(REFUSED);
    let (trace, _) = boot(&manager, platform);

    let mut creates = 0;
    let mut signals = 0;
    let mut closes = 0;
    for _ in trace.iter().filter(|action| action.starts_with("signal ")) {
        let mut stage = SignalStage::Creating;
        loop {
            match stage {
                SignalStage::Creating => creates += 1,
                SignalStage::Signaling => signals += 1,
                SignalStage::Closing(_) => closes += 1,
                SignalStage::Finished(result) => {
                    assert_eq!(result, Ok(()));
                    break;
                }
            }
            stage = signal_event_group(stage, Ok(()));
        }
    }
    assert_eq!((creates, signals, closes), (2, 2, 2));

    let phases: Vec<&str> = trace
        .iter()
        .map(|action| match action.as_str() {
            "signal MsStartOfBds" => "ms-start-of-bds",
            "signal DfciStartOfBds" => "dfci-start-of-bds",
            "dispatch" | "connect-skip-usb" => "pre-lock-work",
            "lock" => "security-transition",
            other => panic!("unexpected action: {other:?}"),
        })
        .collect();
    let mut phases = phases;
    phases.dedup();
    assert_eq!(
        phases,
        vec![
            "ms-start-of-bds",
            "dfci-start-of-bds",
            "pre-lock-work",
            "security-transition",
        ]
    );
}

#[test]
fn a_refused_lock_ends_the_boot_with_its_error() {
    let manager = SreBootManager::new(disk(9)).with_bp_sre_fallback().with_capsule_processing();
    let mut platform = Platform::new();
    platform.locked = Err(REFUSED);
    let (trace, error) = boot(&manager, platform);
    assert_eq!(
        trace,
        vec!["signal MsStartOfBds", "dispatch", "connect-skip-usb", "capsules", "lock"]
    );
    assert_eq!(error, REFUSED);
}

#[test]
fn drivers_are_dispatched_until_none_is_left() {
    let manager = SreBootManager::new(disk(9));
    let mut platform = Platform::new();
    platform.dispatches = vec![Ok(true), Ok(true), Err(REFUSED)];
    platform.locked = Err(REFUSED);
    let (trace, _) = boot(&manager, platform);
    assert_eq!(
        trace,
        vec![
            "signal MsStartOfBds",
            "dispatch",
            "dispatch",
            "dispatch",
            "connect-skip-usb",
            "lock"
        ]
    );
}

#[test]
fn entries_boot_in_order_in_both_passes() {
    let manager = SreBootManager::new(disk(9));
    let mut platform = Platform::new();
    platform.options = vec![Ok(vec![disk(1), usb(2), firmware(3)]), Ok(vec![disk(4)])];
    assert_eq!(
        after_lock(&manager, platform),
        vec![
            "options", "ready", "boot 1", "ready", "boot 2", "ready", "boot 3", "connect-all",
            "options", "ready", "boot 4", "fallback false",
        ]
    );
}

#[test]
fn without_entries_the_main_os_and_the_fallback_sources_boot() {
    let manager = SreBootManager::new(disk(9))
        .with_boot_source_policy(BootSourcePolicy::new().allow_removable_media());
    let mut platform = Platform::new();
    platform.options = vec![Err(REFUSED), Ok(Vec::new())];
    platform.fallback = vec![Ok(vec![usb(5), disk(6)]), Err(REFUSED)];
    assert_eq!(
        after_lock(&manager, platform),
        vec![
            "options", "ready", "boot 9", "fallback true", "boot 5", "boot 6", "connect-all",
            "options", "ready", "boot 9", "fallback true",
        ]
    );
}

#[test]
fn exhausted_entries_lead_to_the_authorized_sources() {
    let manager = SreBootManager::new(disk(9))
        .with_boot_source_policy(BootSourcePolicy::new().allow_removable_media());
    let mut platform = Platform::new();
    platform.options = vec![Ok(vec![disk(1)]), Ok(vec![disk(1)])];
    platform.fallback = vec![Ok(vec![usb(5), disk(6)])];
    assert_eq!(
        after_lock(&manager, platform),
        vec![
            "options", "ready", "boot 1", "connect-all", "options", "ready", "boot 1",
            "fallback true", "boot 5", "boot 6",
        ]
    );

    let manager = SreBootManager::new(disk(9)).with_bp_sre_fallback();
    let mut platform = Platform::new();
    platform.payload = true;
    platform.options = vec![Ok(vec![disk(1)]), Ok(vec![disk(1)])];
    platform.fallback = vec![Ok(vec![usb(5), disk(6)])];
    assert_eq!(
        after_lock(&manager, platform),
        vec![
            "probe-payload", "options", "ready", "boot 1", "connect-all", "options", "ready",
            "boot 1", "fallback false", "boot 6", "recovery",
        ]
    );
}

#[test]
fn a_payload_filters_entries_and_runs_last() {
    let manager = SreBootManager::new(disk(9)).with_bp_sre_fallback();
    let mut platform = Platform::new();
    platform.payload = true;
    platform.options = vec![
        Ok(vec![usb(1), disk(2), firmware(3)]),
        Ok(vec![usb(1), firmware(3)]),
    ];
    platform.fallback = vec![Ok(vec![usb(5), firmware(6)])];
    assert_eq!(
        after_lock(&manager, platform),
        vec![
            "probe-payload", "options", "ready", "boot 2", "connect-all", "options", "ready",
            "boot 9", "fallback false", "boot 6", "recovery",
        ]
    );
}

#[test]
fn without_a_payload_nothing_is_filtered() {
    let manager = SreBootManager::new(disk(9)).with_bp_sre_fallback();
    let mut platform = Platform::new();
    platform.options = vec![Ok(vec![usb(1)]), Ok(vec![firmware(3)])];
    assert_eq!(
        after_lock(&manager, platform),
        vec![
            "probe-payload", "options", "ready", "boot 1", "connect-all", "options", "ready",
            "boot 3", "fallback false",
        ]
    );
}

#[test]
fn volume_up_runs_the_app_or_the_recovery() {
    let mut platform = Platform::new();
    platform.hotkey = SreHotkey::VolumeUp;
    let trace = after_lock(&SreBootManager::new(disk(9)), platform);
    assert_eq!(trace[..5], ["connect-all", "consoles", "ready", "recovery", "options"]);

    let mut platform = Platform::new();
    platform.hotkey = SreHotkey::VolumeUp;
    let manager = SreBootManager::new(disk(9)).with_sre_app_path(firmware(7));
    let trace = after_lock(&manager, platform);
    assert_eq!(trace[..5], ["connect-all", "consoles", "ready", "boot 7", "options"]);
}

#[test]
fn volume_down_prefers_usb_over_the_frontpage() {
    let manager = SreBootManager::new(disk(9)).with_frontpage_app_path(firmware(8));
    let mut platform = Platform::new();
    platform.hotkey = SreHotkey::VolumeDown;
    platform.usb = Some(usb(4));
    let trace = after_lock(&manager, platform);
    assert_eq!(
        trace[..6],
        ["connect-all", "consoles", "find-usb", "ready", "boot 4", "options"]
    );

    let mut platform = Platform::new();
    platform.hotkey = SreHotkey::VolumeDown;
    let trace = after_lock(&manager, platform);
    assert_eq!(
        trace[..6],
        ["connect-all", "consoles", "find-usb", "ready", "boot 8", "options"]
    );

    let mut platform = Platform::new();
    platform.hotkey = SreHotkey::VolumeDown;
    let trace = after_lock(&SreBootManager::new(disk(9)), platform);
    assert_eq!(trace[..4], ["connect-all", "consoles", "find-usb", "options"]);
}

#[test]
fn replies_out_of_turn_cause_nothing() {
    let manager = SreBootManager::new(disk(9));
    let (stage, actions) = manager.next(SreStage::Start, SreEvent::Locked(Ok(())));
    assert_eq!(stage, SreStage::Start);
    assert!(actions.is_empty());
    let (stage, actions) = manager.next(SreStage::Done, SreEvent::Begin);
    assert_eq!(stage, SreStage::Done);
    assert!(actions.is_empty());
}

#[test]
fn volume_up_wins_over_volume_down() {
    assert_eq!(probe_sre_hotkey(true, 1, 1), SreHotkey::VolumeUp);
    assert_eq!(probe_sre_hotkey(true, 0xff, 0), SreHotkey::VolumeUp);
    assert_eq!(probe_sre_hotkey(true, 0, 2), SreHotkey::VolumeDown);
    assert_eq!(probe_sre_hotkey(true, 0, 0), SreHotkey::NotLatched);
    assert_eq!(probe_sre_hotkey(false, 1, 1), SreHotkey::NotLatched);
}

#[test]
fn the_latched_state_is_cleared_after_both_checks() {
    assert_eq!(
        button_calls(true),
        vec![
            ButtonCall::CheckVolumeUp,
            ButtonCall::CheckVolumeDown,
            ButtonCall::ClearVolumeState,
        ]
    );
    assert!(button_calls(false).is_empty());
}

#[test]
fn the_logo_is_drawn_only_on_a_flash_update() {
    let signal = CapsuleAction::SignalEventGroup(EventGroup::ReadyToProcessCapsules);
    assert_eq!(process(false), vec![signal]);
    assert_eq!(process(true), vec![CapsuleAction::DisplayBootLogo, signal]);
}

#[test]
fn a_created_event_is_signaled_and_closed() {
    let other = EfiError { status: 5 };
    let signaling = signal_event_group(SignalStage::Creating, Ok(()));
    assert_eq!(signaling, SignalStage::Signaling);
    let failed = signal_event_group(signaling, Err(REFUSED));
    assert_eq!(failed, SignalStage::Closing(Err(REFUSED)));
    assert_eq!(
        signal_event_group(failed, Err(other)),
        SignalStage::Finished(Err(REFUSED))
    );
    let closing = signal_event_group(signaling, Ok(()));
    assert_eq!(
        signal_event_group(closing, Err(other)),
        SignalStage::Finished(Err(other))
    );
    assert_eq!(signal_event_group(closing, Ok(())), SignalStage::Finished(Ok(())));
    assert_eq!(
        signal_event_group(SignalStage::Creating, Err(other)),
        SignalStage::Finished(Err(other))
    );
}

#[test]
fn event_groups_have_their_identifiers() {
    let text = |group: EventGroup| {
        let g = group.guid();
        format!(
            "{:08x}-{:04x}-{:04x}-{:02x}{:02x}-{}",
            g.time_low,
            g.time_mid,
            g.time_hi_and_version,
            g.clk_seq_hi_res,
            g.clk_seq_low,
            g.node.iter().map(|b| format!("{b:02x}")).collect::<String>()
        )
    };
    assert_eq!(text(EventGroup::MsStartOfBds), "056e730a-2ac9-4f9c-a792-1f3f1a48a24d");
    assert_eq!(text(EventGroup::DfciStartOfBds), "c9341466-1a6c-4ded-89c2-7812b0299c45");
    assert_eq!(
        text(EventGroup::ReadyToProcessCapsules),
        "2ab1c860-e697-4ede-8c0f-65cd6e444435"
    );
}
