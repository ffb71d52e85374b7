use std::cell::Cell;

use odp_platform_common::device_path::DevicePathBuf;
use odp_platform_common::efi::{EfiError, ERROR_BIT, NOT_FOUND, OUT_OF_RESOURCES};
use odp_platform_common::simple_boot_manager::{
    interleave_connect_and_dispatch, BootAction, BootConfig, BootEvent, BootStage,
    ConnectAllStrategy, InterleaveReply, InterleaveStage, SimpleBootManager,
};

const DEVICE_ERROR: EfiError = EfiError { status: ERROR_BIT + 7 };
const SECURITY_VIOLATION: EfiError = EfiError { status: ERROR_BIT + 26 };

fn test_device_path() -> DevicePathBuf {
    DevicePathBuf::from_bytes(vec![0x7f, 0xff, 0x04, 0x00])
}

fn numbered_path(n: u8) -> DevicePathBuf {
    DevicePathBuf::from_bytes(vec![0x01, 0x01, 0x05, 0x00, n, 0x7f, 0xff, 0x04, 0x00])
}

/// Run the interleaving: handle counts and dispatch results come from lists, of which the
/// last count repeats; a dispatch beyond the list is a mistake.
fn interleave(
    connect: impl Fn() -> Result<(), EfiError>,
    counts: &[Result<usize, EfiError>],
    dispatches: &[Result<bool, EfiError>],
) -> Result<(), EfiError> {
    let mut counted = 0;
    let mut dispatched = 0;
    let mut stage = InterleaveStage::CountingFirst;
    loop {
        let reply = match stage {
            InterleaveStage::CountingFirst | InterleaveStage::Counting { .. } => {
                let i = counted.min(counts.len() - 1);
                counted += 1;
                InterleaveReply::Counted(counts[i])
            }
            InterleaveStage::Connecting { .. } => InterleaveReply::Connected(connect()),
            InterleaveStage::Dispatching { .. } => {
                let result = dispatches[dispatched];
                dispatched += 1;
                InterleaveReply::Dispatched(result)
            }
            InterleaveStage::Finished(result) => {
                assert_eq!(dispatched, dispatches.len());
                return result;
            }
        };
        stage = interleave_connect_and_dispatch(stage, reply);
    }
}

#[test]
fn test_simple_boot_manager_interleave_converges_when_handle_count_stable() {
    let result = interleave(|| Ok(()), &[Ok(1), Ok(1)], &[Ok(false)]);
    assert!(result.is_ok());
}

#[test]
fn test_simple_boot_manager_interleave_loops_while_handle_count_grows() {
    // initial probe: 1, after round 1: 2 (grew, continue), after round 2: 2 (stable, exit)
    let result = interleave(|| Ok(()), &[Ok(1), Ok(2), Ok(2)], &[Ok(true), Ok(false)]);
    assert!(result.is_ok());
}

#[test]
fn test_simple_boot_manager_interleave_initial_probe_failure_propagates() {
    let not_found = EfiError { status: NOT_FOUND };
    let result = interleave(|| Ok(()), &[Err(not_found)], &[]);
    assert!(result.is_err());
    assert_eq!(result, Err(not_found));
}

#[test]
fn test_simple_boot_manager_interleave_dispatch_failure_propagates() {
    let result = interleave(|| Ok(()), &[Ok(1)], &[Err(DEVICE_ERROR)]);
    assert!(result.is_err());
    assert_eq!(result, Err(DEVICE_ERROR));
}

#[test]
fn test_simple_boot_manager_interleave_custom_connect_fn_failure() {
    let result = interleave(|| Err(DEVICE_ERROR), &[Ok(1)], &[]);
    assert!(result.is_err());
    assert_eq!(result, Err(DEVICE_ERROR));
}

#[test]
fn test_simple_boot_manager_interleave_custom_connect_fn_success() {
    let connects = Cell::new(0);
    let result = interleave(
        || {
            connects.set(connects.get() + 1);
            Ok(())
        },
        &[Ok(1), Ok(1)],
        &[Ok(false)],
    );
    assert!(result.is_ok());
    assert_eq!(connects.get(), 1);
}

#[test]
fn interleave_stops_when_the_handle_count_shrinks() {
    let connects = Cell::new(0);
    let result = interleave(
        || {
            connects.set(connects.get() + 1);
            Ok(())
        },
        &[Ok(2), Ok(1), Ok(1)],
        &[Ok(false)],
    );
    assert_eq!(result, Ok(()));
    assert_eq!(connects.get(), 1);
    assert_eq!(
        interleave_connect_and_dispatch(
            InterleaveStage::Counting { prev: 2 },
            InterleaveReply::Counted(Ok(3)),
        ),
        InterleaveStage::Connecting { prev: 3 }
    );
}

#[test]
fn interleave_ignores_a_reply_to_no_request() {
    let stage = interleave_connect_and_dispatch(
        InterleaveStage::CountingFirst,
        InterleaveReply::Connected(Err(DEVICE_ERROR)),
    );
    assert_eq!(stage, InterleaveStage::CountingFirst);
    let over = InterleaveStage::Finished(Ok(()));
    assert_eq!(
        interleave_connect_and_dispatch(over, InterleaveReply::Counted(Err(DEVICE_ERROR))),
        over
    );
}

/// Run the boot: the replies to the lock and to the hotkey are given, and so is what happens
/// on a failure. Returns the names of the actions and the error.
fn boot<C>(
    manager: &SimpleBootManager<C>,
    locked: Result<(), EfiError>,
    pressed: bool,
    on_failure: impl Fn(),
) -> (Vec<String>, EfiError) {
    let mut trace = Vec::new();
    let mut stage = BootStage::Start;
    let mut event = BootEvent::Begin;
    loop {
        let (next, actions) = manager.next(stage, event);
        assert!(!actions.is_empty());
        for action in actions {
            match action {
                BootAction::ConnectAndDispatch => trace.push("connect".to_string()),
                BootAction::EnterLockedBoot => {
                    trace.push("lock".to_string());
                    event = BootEvent::Locked(locked);
                }
                BootAction::DiscoverConsoles => trace.push("consoles".to_string()),
                BootAction::DetectHotkey(key) => {
                    trace.push(format!("hotkey {key:#x}"));
                    event = BootEvent::HotkeyDetected(pressed);
                }
                BootAction::SignalReadyToBoot => trace.push("ready".to_string()),
                BootAction::Boot(path) => {
                    let bytes = path.as_bytes();
                    trace.push(format!("boot {}", if bytes.len() > 4 { bytes[4] } else { 0 }));
                }
                BootAction::HandleFailure => on_failure(),
                BootAction::Fail(error) => {
                    assert_eq!(next, BootStage::Done);
                    return (trace, error);
                }
            }
        }
        stage = next;
    }
}

fn assert_transition_failure_prevents_image_load(error: EfiError) {
    let manager = SimpleBootManager::with_connect_strategy(
        BootConfig::new(test_device_path()),
        ConnectAllStrategy,
    );
    let (trace, actual) = boot(&manager, Err(error), false, || panic!("no handler runs"));
    assert_eq!(trace, vec!["connect", "lock"]);
    assert_eq!(actual, error);
}

#[test]
fn test_simple_boot_manager_does_not_load_image_after_end_of_dxe_failure() {
    assert_transition_failure_prevents_image_load(EfiError { status: OUT_OF_RESOURCES });
}

#[test]
fn test_simple_boot_manager_does_not_load_image_after_ready_to_lock_failure() {
    assert_transition_failure_prevents_image_load(SECURITY_VIOLATION);
}

#[test]
fn test_simple_boot_manager_with_connect_strategy() {
    let config = BootConfig::new(test_device_path());
    let manager = SimpleBootManager::with_connect_strategy(config, ConnectAllStrategy);
    assert_eq!(manager.config().devices().len(), 1);
}

#[test]
fn test_simple_boot_manager_with_closure_connect_strategy() {
    let config = BootConfig::new(test_device_path()).with_hotkey(0x16);
    let strategy = |_handles: &usize| -> Result<(), EfiError> { Ok(()) };
    let manager = SimpleBootManager::with_connect_strategy(config, strategy);
    assert_eq!(manager.config().hotkey(), Some(0x16));
    assert!((manager.connect_strategy())(&1).is_ok());
}

#[test]
fn test_simple_boot_manager_new() {
    let config = BootConfig::new(test_device_path())
        .with_hotkey(0x16)
        .with_hotkey_device(test_device_path());
    let manager = SimpleBootManager::new(config);
    assert_eq!(manager.config().hotkey(), Some(0x16));
    assert_eq!(manager.config().devices().len(), 1);
    assert_eq!(manager.config().hotkey_devices().len(), 1);
}

#[test]
fn test_simple_boot_manager_with_hotkey() {
    let config = BootConfig::new(test_device_path())
        .with_device(test_device_path())
        .with_hotkey(0x16)
        .with_hotkey_device(test_device_path());
    let manager = SimpleBootManager::new(config);
    assert_eq!(manager.config().hotkey(), Some(0x16));
    assert_eq!(manager.config().devices().len(), 2);
    assert_eq!(manager.config().hotkey_devices().len(), 1);
}

#[test]
fn test_simple_boot_manager_without_hotkey() {
    let config = BootConfig::new(test_device_path()).with_device(test_device_path());
    let manager = SimpleBootManager::new(config);
    assert!(manager.config().hotkey().is_none());
    assert_eq!(manager.config().devices().len(), 2);
    assert_eq!(manager.config().hotkey_devices().len(), 0);
}

#[test]
fn test_simple_boot_manager_with_failure_handler() {
    let called = Cell::new(false);
    let manager = SimpleBootManager::new(BootConfig::new(test_device_path()));

    assert!(!called.get());
    let (_, error) = boot(&manager, Ok(()), false, || called.set(true));
    assert!(called.get());
    assert_eq!(error, EfiError { status: NOT_FOUND });
}

fn two_by_one() -> SimpleBootManager {
    SimpleBootManager::new(
        BootConfig::new(numbered_path(1))
            .with_device(numbered_path(2))
            .with_hotkey(0x16)
            .with_hotkey_device(numbered_path(3)),
    )
}

#[test]
fn without_the_hotkey_pressed_the_devices_boot_in_order() {
    let (trace, error) = boot(&two_by_one(), Ok(()), false, || {});
    assert_eq!(
        trace,
        vec!["connect", "lock", "consoles", "hotkey 0x16", "ready", "boot 1", "ready", "boot 2"]
    );
    assert_eq!(error, EfiError { status: NOT_FOUND });
}

#[test]
fn with_the_hotkey_pressed_the_hotkey_devices_boot() {
    let (trace, _) = boot(&two_by_one(), Ok(()), true, || {});
    assert_eq!(
        trace,
        vec!["connect", "lock", "consoles", "hotkey 0x16", "ready", "boot 3"]
    );
}

#[test]
fn without_a_hotkey_none_is_detected() {
    let manager = SimpleBootManager::new(BootConfig::new(numbered_path(7)));
    let (trace, _) = boot(&manager, Ok(()), true, || {});
    assert_eq!(trace, vec!["connect", "lock", "consoles", "ready", "boot 7"]);
}

#[test]
fn events_out_of_turn_cause_nothing() {
    let manager = two_by_one();
    let (stage, actions) = manager.next(BootStage::Start, BootEvent::HotkeyDetected(true));
    assert_eq!(stage, BootStage::Start);
    assert!(actions.is_empty());
    let (stage, actions) = manager.next(BootStage::Done, BootEvent::Begin);
    assert_eq!(stage, BootStage::Done);
    assert!(actions.is_empty());
}
