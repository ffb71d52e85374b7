use odp_platform_common::ucsi::{
    connector_status_payload, control, decode_capability, decode_connector_capability,
    decode_connector_status, decode_version, message_in, normalize_acpi_response, validate,
    CommandType, ConnectedStatus, MailboxError, PowerRole, UcsiCapability,
    UcsiConnectorCapability, UcsiConnectorStatus, UcsiVersion, MAILBOX_LEN, MESSAGE_IN_OFFSET,
    UCSI_VERSION_1_2,
};

/// CCI for a completed command carrying `data_len` bytes.
fn cci_complete(data_len: u8) -> u32 {
    (1 << 31) | ((data_len as u32) << 8)
}

/// Assemble a 48-byte mailbox from a CCI word and MESSAGE IN bytes.
fn mailbox(cci: u32, message_in: &[u8]) -> [u8; MAILBOX_LEN] {
    let mut buf = [0u8; MAILBOX_LEN];
    buf[0..2].copy_from_slice(&UCSI_VERSION_1_2.to_le_bytes());
    buf[4..8].copy_from_slice(&cci.to_le_bytes());
    buf[MESSAGE_IN_OFFSET..MESSAGE_IN_OFFSET + message_in.len()].copy_from_slice(message_in);
    buf
}

#[test]
fn control_places_opcode_and_connector() {
    let c = control(CommandType::GetConnectorStatus, 1);
    assert_eq!(c[0], 0x12);
    assert_eq!(c[1], 0x00);
    assert_eq!(c[2], 0x01);
    assert_eq!(&c[3..], &[0u8; 5]);
}

#[test]
fn control_takes_any_command() {
    assert_eq!(control(CommandType::GetCapability, 0), [0x06, 0, 0, 0, 0, 0, 0, 0]);
    assert_eq!(control(CommandType::GetConnectorCapability, 2), [0x07, 0, 2, 0, 0, 0, 0, 0]);
    assert_eq!(control(CommandType::Other(0x01), 255), [0x01, 0, 255, 0, 0, 0, 0, 0]);
}

#[test]
fn rejects_wrong_length() {
    assert_eq!(decode_version(&[0u8; 47]).unwrap_err(), MailboxError::WrongLength(47));
}

#[test]
fn normalizes_full_ffa_envelope() {
    const FFA_ENVELOPE_LEN: usize = 144;
    const FFA_PAYLOAD_OFFSET: usize = 32;
    let mailbox = mailbox(cci_complete(16), &[]);
    let mut envelope = [0u8; FFA_ENVELOPE_LEN];
    envelope[FFA_PAYLOAD_OFFSET..FFA_PAYLOAD_OFFSET + MAILBOX_LEN].copy_from_slice(&mailbox);

    assert_eq!(normalize_acpi_response(&envelope).unwrap(), mailbox);
}

#[test]
fn normalize_keeps_a_mailbox_and_rejects_other_lengths() {
    let mailbox = mailbox(cci_complete(16), &[7; 16]);
    assert_eq!(normalize_acpi_response(&mailbox).unwrap(), mailbox);
    assert_eq!(normalize_acpi_response(&[0u8; 0]).unwrap_err(), MailboxError::WrongLength(0));
    assert_eq!(normalize_acpi_response(&[0u8; 143]).unwrap_err(), MailboxError::WrongLength(143));
}

#[test]
fn command_decode_rejects_unsupported_version() {
    let mut buf = mailbox(cci_complete(16), &[]);
    buf[0..2].copy_from_slice(&0x0100u16.to_le_bytes());
    assert_eq!(
        decode_capability(&buf).unwrap_err(),
        MailboxError::UnsupportedVersion(0x0100)
    );
}

#[test]
fn rejects_incomplete_cci() {
    assert_eq!(decode_version(&mailbox(0, &[])).unwrap_err(), MailboxError::NotComplete);
}

#[test]
fn rejects_error_cci() {
    let buf = mailbox((1 << 31) | (1 << 30), &[]);
    assert_eq!(decode_version(&buf).unwrap_err(), MailboxError::CommandError);
}

#[test]
fn rejects_not_supported_cci() {
    let buf = mailbox((1 << 31) | (1 << 25), &[]);
    assert_eq!(decode_version(&buf).unwrap_err(), MailboxError::NotSupported);
}

#[test]
fn rejects_wrong_data_len() {
    let buf = mailbox(cci_complete(2), &[0u8; 16]);
    assert_eq!(
        decode_capability(&buf).unwrap_err(),
        MailboxError::UnexpectedDataLen { expected: 16, actual: 2 }
    );
}

#[test]
fn version_decodes_forward_compatibly_and_displays() {
    let mut buf = mailbox(cci_complete(16), &[]);
    buf[0..2].copy_from_slice(&0x0200u16.to_le_bytes());
    assert_eq!(decode_version(&buf).unwrap(), UcsiVersion(0x0200));
    assert_eq!(UcsiVersion(0x0120).to_string(), "1.2");
}

#[test]
fn version_texts_match_the_formatted_bytes() {
    for v in 0..=0xffffu16 {
        assert_eq!(UcsiVersion(v).to_string(), format!("{}.{}", v >> 8, (v >> 4) & 0xf));
    }
}

#[test]
fn connector_status_payload_error_maps_to_decode() {
    // connect_status set but power-operation-mode = 0 is an invalid variant.
    let mut msg = [0u8; 11];
    msg[2] = 1 << 3; // connect_status (bit 19), power_op_mode left 0
    let mailbox = mailbox(cci_complete(11), &msg);
    assert_eq!(connector_status_payload(&mailbox).unwrap(), msg);
    assert_eq!(
        decode_connector_status(&mailbox, None).unwrap_err(),
        MailboxError::PayloadDecode
    );
}

#[test]
fn connector_status_envelope_errors_come_first() {
    let status = UcsiConnectorStatus { connect_status: false, status: None };
    assert_eq!(
        decode_connector_status(&mailbox(cci_complete(10), &[]), Some(status)).unwrap_err(),
        MailboxError::UnexpectedDataLen { expected: 11, actual: 10 }
    );
    assert_eq!(
        decode_connector_status(&mailbox(0, &[]), None).unwrap_err(),
        MailboxError::NotComplete
    );
}

#[test]
fn capability_decodes_into_upstream_type() {
    // attributes bit2 (USB PD), num_connectors=1, bcdPD=0x0300.
    let mut msg = [0u8; 16];
    msg[0] = 0b0000_0100;
    msg[4] = 1;
    msg[12..14].copy_from_slice(&0x0300u16.to_le_bytes());
    let cap = decode_capability(&mailbox(cci_complete(16), &msg)).unwrap();
    assert_eq!(cap.num_connectors, 1);
    assert!(cap.usb_power_delivery());
    assert_eq!(cap.bcd_usb_pd_spec, 0x0300);
}

#[test]
fn capability_reads_every_byte_little_endian() {
    let msg: Vec<u8> = (1..=16).collect();
    let cap = decode_capability(&mailbox(cci_complete(16), &msg)).unwrap();
    assert_eq!(
        cap,
        UcsiCapability {
            attributes: 0x0403_0201,
            num_connectors: 5,
            features: [6, 7, 8, 9, 10, 11, 12],
            bcd_usb_pd_spec: 0x0e0d,
            bcd_usb_type_c_spec: 0x100f,
        }
    );
    assert!(!cap.usb_power_delivery());
}

#[test]
fn connector_capability_decodes_into_upstream_type() {
    // operation_mode = drp|usb2|usb3, provider + consumer.
    let op = (1 << 2) | (1 << 5) | (1 << 6);
    let raw: u16 = op | (1 << 8) | (1 << 9);
    let cap =
        decode_connector_capability(&mailbox(cci_complete(2), &raw.to_le_bytes())).unwrap();
    assert!(cap.drp());
    assert!(cap.usb2());
    assert!(cap.usb3());
    assert!(cap.provider());
    assert!(cap.consumer());
}

#[test]
fn connector_capability_bits_are_independent() {
    for bit in 0..16u16 {
        let cap = UcsiConnectorCapability(1 << bit);
        assert_eq!(cap.drp(), bit == 2);
        assert_eq!(cap.usb2(), bit == 5);
        assert_eq!(cap.usb3(), bit == 6);
        assert_eq!(cap.provider(), bit == 8);
        assert_eq!(cap.consumer(), bit == 9);
    }
}

#[test]
fn connector_status_decodes_connected_sink() {
    // bit19 connect, bit20=0 sink, partner usb (bit21); power_op_mode=1,
    // partner_type=1: the payload goes to the USB-PD stack as it is, and what that makes of
    // it comes back as it is.
    let mut msg = [0u8; 11];
    msg[2] = 0x01 | (1 << 3) | (1 << 5); // power_op_mode=1 + connect + partner usb
    msg[3] = 1 << 5; // partner_type = 1 (bits 29..31)
    let mailbox = mailbox(cci_complete(11), &msg);
    assert_eq!(connector_status_payload(&mailbox).unwrap(), msg);
    let decoded = UcsiConnectorStatus {
        connect_status: true,
        status: Some(ConnectedStatus { power_direction: PowerRole::Sink, partner_usb: true }),
    };
    assert_eq!(decode_connector_status(&mailbox, Some(decoded)), Ok(decoded));
}

#[test]
fn connector_status_decodes_source_direction() {
    let mut msg = [0u8; 11];
    msg[2] = 0x01 | (1 << 3) | (1 << 4); // power_op_mode=1 + connect + source (bit20)
    msg[3] = 1 << 5; // partner_type = 1
    let mailbox = mailbox(cci_complete(11), &msg);
    assert_eq!(connector_status_payload(&mailbox).unwrap(), msg);
    let decoded = UcsiConnectorStatus {
        connect_status: true,
        status: Some(ConnectedStatus { power_direction: PowerRole::Source, partner_usb: false }),
    };
    assert_eq!(decode_connector_status(&mailbox, Some(decoded)), Ok(decoded));
}

#[test]
fn message_in_returns_the_payload_bytes() {
    let msg: Vec<u8> = (100..132).collect();
    let buf = mailbox(cci_complete(32), &msg);
    assert_eq!(message_in(&buf, 32).unwrap(), msg.as_slice());
    assert_eq!(validate(&buf).unwrap(), (0x0120, 32));
    assert_eq!(
        message_in(&buf, 200).unwrap_err(),
        MailboxError::UnexpectedDataLen { expected: 200, actual: 32 }
    );
}

#[test]
fn mailbox_errors_have_texts() {
    assert_eq!(
        MailboxError::WrongLength(47).to_string(),
        "mailbox length 47 bytes, expected 48"
    );
    assert_eq!(
        MailboxError::UnsupportedVersion(0x0100).to_string(),
        "unsupported UCSI version 0x0100"
    );
    assert_eq!(
        MailboxError::UnsupportedVersion(0xabcd).to_string(),
        format!("unsupported UCSI version {:#06x}", 0xabcdu16)
    );
    assert_eq!(
        MailboxError::NotComplete.to_string(),
        "CCI did not report command complete"
    );
    assert_eq!(MailboxError::CommandError.to_string(), "CCI reported command error");
    assert_eq!(
        MailboxError::NotSupported.to_string(),
        "CCI reported command not supported"
    );
    assert_eq!(
        MailboxError::UnexpectedDataLen { expected: 16, actual: 2 }.to_string(),
        "CCI data length 2, expected 16"
    );
    assert_eq!(MailboxError::PayloadDecode.to_string(), "malformed UCSI response payload");
}
