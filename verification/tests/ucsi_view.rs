use odp_platform_common::ucsi::{
    ConnectedStatus, PowerRole, UcsiCapability, UcsiConnectorCapability, UcsiConnectorStatus,
    UcsiSnapshot,
};
use odp_platform_common::ucsi_view::{
    capability_summary, connector_summary, rows, status_summary, version_bcd, Ucsi, UcsiState,
};

fn capability(num_connectors: u8) -> UcsiCapability {
    UcsiCapability {
        attributes: 4,
        num_connectors,
        features: [0; 7],
        bcd_usb_pd_spec: 0x0300,
        bcd_usb_type_c_spec: 0,
    }
}

fn connected(power_direction: PowerRole) -> UcsiConnectorStatus {
    UcsiConnectorStatus {
        connect_status: true,
        status: Some(ConnectedStatus { power_direction, partner_usb: true }),
    }
}

fn texts(state: &UcsiState) -> Vec<(String, String)> {
    rows(state, "·").into_iter().map(|row| (row.label, row.value)).collect()
}

fn pair(label: &str, value: &str) -> (String, String) {
    (label.to_string(), value.to_string())
}

#[test]
fn a_pending_state_has_one_row() {
    let state = UcsiState { snapshot: None };
    assert_eq!(texts(&state), vec![pair("UCSI", "Pending...")]);
    assert!(!Ucsi::new().is_healthy(&state));
}

#[test]
fn a_failed_state_shows_its_error() {
    let state = UcsiState { snapshot: Some(Err("Device not found".to_string())) };
    assert_eq!(texts(&state), vec![pair("UCSI", "Error: Device not found")]);
    assert!(!Ucsi::new().is_healthy(&state));
}

#[test]
fn a_snapshot_has_four_rows() {
    let state = UcsiState {
        snapshot: Some(Ok(UcsiSnapshot {
            version: 0x0120,
            capability: capability(1),
            connector_capability: UcsiConnectorCapability(0x0300),
            connector_status: connected(PowerRole::Sink),
        })),
    };
    assert_eq!(
        texts(&state),
        vec![
            pair("Version", "1.2"),
            pair("Capability", "1 connector"),
            pair("Conn 1", "provider/consumer"),
            pair("Status", "Connected · Sink"),
        ]
    );
    assert!(Ucsi::new().is_healthy(&state));
}

#[test]
fn versions_are_bcd() {
    assert_eq!(version_bcd(0x0120), "1.2");
    assert_eq!(version_bcd(0x0200), "2.0");
    assert_eq!(version_bcd(0xfff0), "255.15");
    assert_eq!(version_bcd(0x000f), "0.0");
}

#[test]
fn connectors_are_counted() {
    assert_eq!(capability_summary(&capability(0)), "0 connectors");
    assert_eq!(capability_summary(&capability(1)), "1 connector");
    assert_eq!(capability_summary(&capability(255)), "255 connectors");
}

#[test]
fn connector_roles_are_named() {
    assert_eq!(connector_summary(&UcsiConnectorCapability(0x0300)), "provider/consumer");
    assert_eq!(connector_summary(&UcsiConnectorCapability(0x0100)), "provider");
    assert_eq!(connector_summary(&UcsiConnectorCapability(0x0200)), "consumer");
    assert_eq!(connector_summary(&UcsiConnectorCapability(0xfcff)), "-");
}

#[test]
fn connection_states_are_named() {
    assert_eq!(status_summary(&connected(PowerRole::Source), "-"), "Connected - Source");
    let unknown = UcsiConnectorStatus { connect_status: true, status: None };
    assert_eq!(status_summary(&unknown, "-"), "Connected");
    let mut unplugged = connected(PowerRole::Sink);
    unplugged.connect_status = false;
    assert_eq!(status_summary(&unplugged, "-"), "Disconnected");
}
