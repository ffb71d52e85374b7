//! Host-side UCSI mailbox envelope decoding.
//!
//! The 48-byte mailbox envelope (length, VERSION, CCI and data length) is validated here
//! and the fixed-layout payloads are decoded. The payload of a connector status is decoded
//! by the USB-PD stack; what it made of the bytes is passed to [`decode_connector_status`].

use vstd::prelude::*;
use vstd::string::StringExecFns;

use crate::le;
use crate::text;

verus! {

/// Length of the CONTROL field that the OS writes to issue a command.
pub const CONTROL_LEN: usize = 8;

pub const MAILBOX_LEN: usize = 48;

/// Length of the envelope that the Windows fixed-hardware operation region returns.
pub const FFA_ENVELOPE_LEN: usize = 144;

/// Where that envelope holds the mailbox.
pub const FFA_PAYLOAD_OFFSET: usize = 32;

pub const UCSI_VERSION_1_2: u16 = 0x0120;

pub const MESSAGE_IN_OFFSET: usize = 16;

/// Length of a GET_CAPABILITY response.
pub const CAPABILITY_LEN: usize = 16;

/// Length of a GET_CONNECTOR_CAPABILITY response.
pub const CONNECTOR_CAPABILITY_LEN: usize = 2;

/// Length of a GET_CONNECTOR_STATUS response.
pub const CONNECTOR_STATUS_LEN: usize = 11;

/// UCSI command selector.
#[derive(Debug, Clone, Copy, PartialEq, Eq, Structural)]
pub enum CommandType {
    GetCapability,
    GetConnectorCapability,
    GetConnectorStatus,
    /// Any other command, by its opcode.
    Other(u8),
}

impl CommandType {
    /// The command's opcode.
    pub open spec fn spec_opcode(self) -> u8 {
        match self {
            CommandType::GetCapability => 0x06,
            CommandType::GetConnectorCapability => 0x07,
            CommandType::GetConnectorStatus => 0x12,
            CommandType::Other(opcode) => opcode,
        }
    }

    /// The command's opcode.
    pub fn opcode(&self) -> (opcode: u8)
        ensures
            opcode == self.spec_opcode(),
    {
        match *self {
            CommandType::GetCapability => 0x06,
            CommandType::GetConnectorCapability => 0x07,
            CommandType::GetConnectorStatus => 0x12,
            CommandType::Other(opcode) => opcode,
        }
    }
}

/// Build an 8-byte CONTROL buffer: byte 0 is the opcode, byte 2 the connector number, and
/// the data length in byte 1 is zero as are the rest.
pub fn control(command: CommandType, connector: u8) -> (buf: [u8; 8])
    ensures
        buf@ == seq![command.spec_opcode(), 0, connector, 0, 0, 0, 0, 0],
{
    [command.opcode(), 0, connector, 0, 0, 0, 0, 0]
}

/// UCSI interface version (BCD; `0x0120` is UCSI 1.2).
#[derive(Debug, Clone, Copy, PartialEq, Eq, Structural)]
pub struct UcsiVersion(pub u16);

/// A BCD version word as text: major, dot, minor.
pub open spec fn version_text(version: u16) -> Seq<char> {
    text::decimal((version / 0x100) as nat) + seq!['.'] + text::decimal(
        (version / 0x10 % 0x10) as nat,
    )
}

/// Append a BCD version word as text.
pub(crate) fn push_version(out: &mut String, version: u16)
    ensures
        final(out)@ == old(out)@ + version_text(version),
{
    text::push_decimal(out, (version / 0x100) as u64);
    out.append(".");
    text::push_decimal(out, (version / 0x10 % 0x10) as u64);
    proof {
        reveal_strlit(".");
    }
}

impl UcsiVersion {
    /// The version as text: `1.2` for UCSI 1.2.
    pub fn to_string(&self) -> (text: String)
        ensures
            text@ == version_text(self.0),
    {
        let mut text = String::new();
        push_version(&mut text, self.0);
        text
    }
}

/// Error decoding a UCSI mailbox response.
#[derive(Debug, Clone, Copy, PartialEq, Eq, Structural)]
pub enum MailboxError {
    /// The mailbox buffer was not exactly 48 bytes.
    WrongLength(usize),
    /// The VERSION field did not match a supported UCSI version.
    UnsupportedVersion(u16),
    /// CCI did not report command-complete.
    NotComplete,
    /// CCI reported a command error.
    CommandError,
    /// CCI reported the command was not supported.
    NotSupported,
    /// CCI data length did not match the expected response size.
    UnexpectedDataLen { expected: usize, actual: usize },
    /// The command-specific response payload failed to decode.
    PayloadDecode,
}

impl MailboxError {
    /// The error as text.
    pub open spec fn spec_text(self) -> Seq<char> {
        match self {
            MailboxError::WrongLength(n) => "mailbox length "@ + text::decimal(n as nat)
                + " bytes, expected 48"@,
            MailboxError::UnsupportedVersion(v) => "unsupported UCSI version 0x"@
                + text::hexadecimal4(v),
            MailboxError::NotComplete => "CCI did not report command complete"@,
            MailboxError::CommandError => "CCI reported command error"@,
            MailboxError::NotSupported => "CCI reported command not supported"@,
            MailboxError::UnexpectedDataLen { expected, actual } => "CCI data length "@
                + text::decimal(actual as nat) + ", expected "@ + text::decimal(expected as nat),
            MailboxError::PayloadDecode => "malformed UCSI response payload"@,
        }
    }

    /// The error as text.
    pub fn to_string(&self) -> (text: String)
        ensures
            text@ == self.spec_text(),
    {
        match *self {
            MailboxError::WrongLength(n) => {
                let mut text = "mailbox length ".to_owned();
                text::push_decimal(&mut text, n as u64);
                text.append(" bytes, expected 48");
                text
            },
            MailboxError::UnsupportedVersion(v) => {
                let mut text = "unsupported UCSI version 0x".to_owned();
                text::push_hexadecimal4(&mut text, v);
                text
            },
            MailboxError::NotComplete => "CCI did not report command complete".to_owned(),
            MailboxError::CommandError => "CCI reported command error".to_owned(),
            MailboxError::NotSupported => "CCI reported command not supported".to_owned(),
            MailboxError::UnexpectedDataLen { expected, actual } => {
                let mut text = "CCI data length ".to_owned();
                text::push_decimal(&mut text, actual as u64);
                text.append(", expected ");
                text::push_decimal(&mut text, expected as u64);
                text
            },
            MailboxError::PayloadDecode => "malformed UCSI response payload".to_owned(),
        }
    }
}

// ---------------------------------------------------------------------------
// Envelope
// ---------------------------------------------------------------------------

/// What [`normalize_acpi_response`] returns.
pub open spec fn normalized(bytes: Seq<u8>) -> Result<Seq<u8>, MailboxError> {
    if bytes.len() == MAILBOX_LEN {
        Ok(bytes)
    } else if bytes.len() == FFA_ENVELOPE_LEN {
        Ok(bytes.subrange(FFA_PAYLOAD_OFFSET as int, FFA_PAYLOAD_OFFSET + MAILBOX_LEN))
    } else {
        Err(MailboxError::WrongLength(bytes.len() as usize))
    }
}

/// Normalize either a direct mailbox or the full FF-A envelope returned by the Windows
/// fixed-hardware operation region.
pub fn normalize_acpi_response(bytes: &[u8]) -> (mailbox: Result<&[u8], MailboxError>)
    ensures
        match mailbox {
            Ok(m) => normalized(bytes@) == Ok::<Seq<u8>, MailboxError>(m@),
            Err(e) => normalized(bytes@) == Err::<Seq<u8>, MailboxError>(e),
        },
{
    let length: usize = bytes.len();
    if length == MAILBOX_LEN {
        Ok(bytes)
    } else if length == FFA_ENVELOPE_LEN {
        Ok(&bytes[FFA_PAYLOAD_OFFSET..FFA_PAYLOAD_OFFSET + MAILBOX_LEN])
    } else {
        Err(MailboxError::WrongLength(length))
    }
}

/// The VERSION field of a mailbox.
pub open spec fn version_field(bytes: Seq<u8>) -> int {
    le::at16(bytes, 0)
}

/// The CCI field of a mailbox.
pub open spec fn cci_field(bytes: Seq<u8>) -> int {
    le::at32(bytes, 4)
}

/// CCI reports that the command is complete (bit 31).
pub open spec fn cci_complete(cci: int) -> bool {
    cci / 0x8000_0000 % 2 == 1
}

/// CCI reports a command error (bit 30).
pub open spec fn cci_error(cci: int) -> bool {
    cci / 0x4000_0000 % 2 == 1
}

/// CCI reports that the command is not supported (bit 25).
pub open spec fn cci_not_supported(cci: int) -> bool {
    cci / 0x200_0000 % 2 == 1
}

/// The data length in CCI (bits 8 to 15).
pub open spec fn cci_data_len(cci: int) -> int {
    cci / 0x100 % 0x100
}

/// What [`validate`] returns.
pub open spec fn validated(bytes: Seq<u8>) -> Result<(u16, usize), MailboxError> {
    let cci = cci_field(bytes);
    if bytes.len() != MAILBOX_LEN {
        Err(MailboxError::WrongLength(bytes.len() as usize))
    } else if !cci_complete(cci) {
        Err(MailboxError::NotComplete)
    } else if cci_error(cci) {
        Err(MailboxError::CommandError)
    } else if cci_not_supported(cci) {
        Err(MailboxError::NotSupported)
    } else {
        Ok((version_field(bytes) as u16, cci_data_len(cci) as usize))
    }
}

/// Validate the 48-byte mailbox length and CCI status, returning VERSION and the CCI
/// data-length field.
pub fn validate(bytes: &[u8]) -> (fields: Result<(u16, usize), MailboxError>)
    ensures
        fields == validated(bytes@),
{
    if bytes.len() != MAILBOX_LEN {
        return Err(MailboxError::WrongLength(bytes.len()));
    }
    let version: u16 = le::u16_from(bytes[0], bytes[1]);
    let cci: u32 = le::u32_from(bytes[4], bytes[5], bytes[6], bytes[7]);
    if cci / 0x8000_0000 % 2 != 1 {
        return Err(MailboxError::NotComplete);
    }
    if cci / 0x4000_0000 % 2 == 1 {
        return Err(MailboxError::CommandError);
    }
    if cci / 0x200_0000 % 2 == 1 {
        return Err(MailboxError::NotSupported);
    }
    Ok((version, (cci / 0x100 % 0x100) as usize))
}

/// What [`message_in`] returns.
pub open spec fn message(bytes: Seq<u8>, expected: usize) -> Result<Seq<u8>, MailboxError> {
    match validated(bytes) {
        Err(e) => Err(e),
        Ok((version, actual)) => if version != UCSI_VERSION_1_2 {
            Err(MailboxError::UnsupportedVersion(version))
        } else if actual != expected {
            Err(MailboxError::UnexpectedDataLen { expected, actual })
        } else {
            Ok(bytes.subrange(MESSAGE_IN_OFFSET as int, MESSAGE_IN_OFFSET + expected))
        },
    }
}

/// Validate the header (enforcing UCSI 1.2 for command payloads) and return the first
/// `expected` MESSAGE IN bytes. A valid mailbox must not report more bytes than it holds.
pub fn message_in(bytes: &[u8], expected: usize) -> (payload: Result<&[u8], MailboxError>)
    requires
        message(bytes@, expected) is Ok ==> expected <= MAILBOX_LEN - MESSAGE_IN_OFFSET,
    ensures
        match payload {
            Ok(p) => message(bytes@, expected) == Ok::<Seq<u8>, MailboxError>(p@) && p@.len()
                == expected,
            Err(e) => message(bytes@, expected) == Err::<Seq<u8>, MailboxError>(e),
        },
{
    match validate(bytes) {
        Err(e) => Err(e),
        Ok((version, actual)) => {
            if version != UCSI_VERSION_1_2 {
                return Err(MailboxError::UnsupportedVersion(version));
            }
            if actual != expected {
                return Err(MailboxError::UnexpectedDataLen { expected, actual });
            }
            Ok(&bytes[MESSAGE_IN_OFFSET..MESSAGE_IN_OFFSET + expected])
        },
    }
}

/// Validate a mailbox and return the reported UCSI version.
///
/// Version reporting is forward-compatible: any completed mailbox yields its VERSION word,
/// while the command-specific decoders below still gate on 1.2.
pub fn decode_version(bytes: &[u8]) -> (version: Result<UcsiVersion, MailboxError>)
    ensures
        version == match validated(bytes@) {
            Ok(fields) => Ok(UcsiVersion(fields.0)),
            Err(e) => Err(e),
        },
{
    match validate(bytes) {
        Ok((version, _)) => Ok(UcsiVersion(version)),
        Err(e) => Err(e),
    }
}

// ---------------------------------------------------------------------------
// Payloads
// ---------------------------------------------------------------------------

/// PPM capabilities (GET_CAPABILITY response).
#[derive(Debug, Clone, Copy, PartialEq, Eq)]
pub struct UcsiCapability {
    /// The attribute bits.
    pub attributes: u32,
    /// How many connectors the platform has.
    pub num_connectors: u8,
    /// What stands between the connector count and the USB-PD version, as received: the
    /// optional features, the alternate modes and the battery-charging version.
    pub features: [u8; 7],
    /// The BCD version of the USB-PD specification.
    pub bcd_usb_pd_spec: u16,
    /// The BCD version of the USB Type-C specification.
    pub bcd_usb_type_c_spec: u16,
}

impl UcsiCapability {
    /// The platform supports USB Power Delivery (attribute bit 2).
    pub fn usb_power_delivery(&self) -> (result: bool)
        ensures
            result == (self.attributes / 4 % 2 == 1),
    {
        self.attributes / 4 % 2 == 1
    }
}

/// The capabilities are those in a GET_CAPABILITY payload: every byte of it is in a field.
pub open spec fn is_capability_of(capability: UcsiCapability, payload: Seq<u8>) -> bool {
    &&& capability.attributes == le::at32(payload, 0)
    &&& capability.num_connectors == payload[4]
    &&& capability.features@ == payload.subrange(5, 12)
    &&& capability.bcd_usb_pd_spec == le::at16(payload, 12)
    &&& capability.bcd_usb_type_c_spec == le::at16(payload, 14)
}

/// Calls `bincode::decode_from_slice` with the standard configuration and fixed-size
/// integers, for a tuple of the GET_CAPABILITY fields in order: little-endian integers, each
/// right behind the one before, and `None` where the payload is shorter than all of them.
#[verifier::external_body]
fn decode_capability_fields(payload: &[u8]) -> (fields: Option<(u32, u8, [u8; 7], u16, u16)>)
    ensures
        match fields {
            Some(f) => {
                &&& payload@.len() >= 16
                &&& f.0 == le::at32(payload@, 0)
                &&& f.1 == payload@[4]
                &&& f.2@ == payload@.subrange(5, 12)
                &&& f.3 == le::at16(payload@, 12)
                &&& f.4 == le::at16(payload@, 14)
            },
            None => payload@.len() < 16,
        },
{
    bincode::decode_from_slice(payload, bincode::config::standard().with_fixed_int_encoding())
        .map(|decoded| decoded.0)
        .ok()
}

/// Decode a GET_CAPABILITY response.
pub fn decode_capability(bytes: &[u8]) -> (capability: Result<UcsiCapability, MailboxError>)
    ensures
        match capability {
            Ok(c) => message(bytes@, CAPABILITY_LEN) matches Ok(payload) && is_capability_of(
                c,
                payload,
            ),
            Err(e) => message(bytes@, CAPABILITY_LEN) == Err::<Seq<u8>, MailboxError>(e),
        },
{
    match message_in(bytes, CAPABILITY_LEN) {
        Ok(payload) => match decode_capability_fields(payload) {
            Some(fields) => Ok(
                UcsiCapability {
                    attributes: fields.0,
                    num_connectors: fields.1,
                    features: fields.2,
                    bcd_usb_pd_spec: fields.3,
                    bcd_usb_type_c_spec: fields.4,
                },
            ),
            None => Err(MailboxError::PayloadDecode),
        },
        Err(e) => Err(e),
    }
}

/// Per-connector capabilities (GET_CONNECTOR_CAPABILITY response), by the raw word.
#[derive(Debug, Clone, Copy, PartialEq, Eq, Structural)]
pub struct UcsiConnectorCapability(pub u16);

impl UcsiConnectorCapability {
    /// The connector can change its power role (operation-mode bit 2).
    pub fn drp(&self) -> (result: bool)
        ensures
            result == (self.0 / 4 % 2 == 1),
    {
        self.0 / 4 % 2 == 1
    }

    /// The connector supports USB 2 (operation-mode bit 5).
    pub fn usb2(&self) -> (result: bool)
        ensures
            result == (self.0 / 0x20 % 2 == 1),
    {
        self.0 / 0x20 % 2 == 1
    }

    /// The connector supports USB 3 (operation-mode bit 6).
    pub fn usb3(&self) -> (result: bool)
        ensures
            result == (self.0 / 0x40 % 2 == 1),
    {
        self.0 / 0x40 % 2 == 1
    }

    /// The connector can provide power (bit 8).
    pub open spec fn spec_provider(self) -> bool {
        self.0 / 0x100 % 2 == 1
    }

    /// The connector can provide power (bit 8).
    pub fn provider(&self) -> (result: bool)
        ensures
            result == self.spec_provider(),
    {
        self.0 / 0x100 % 2 == 1
    }

    /// The connector can consume power (bit 9).
    pub open spec fn spec_consumer(self) -> bool {
        self.0 / 0x200 % 2 == 1
    }

    /// The connector can consume power (bit 9).
    pub fn consumer(&self) -> (result: bool)
        ensures
            result == self.spec_consumer(),
    {
        self.0 / 0x200 % 2 == 1
    }
}

/// Decode a GET_CONNECTOR_CAPABILITY response.
pub fn decode_connector_capability(bytes: &[u8]) -> (capability: Result<
    UcsiConnectorCapability,
    MailboxError,
>)
    ensures
        capability == match message(bytes@, CONNECTOR_CAPABILITY_LEN) {
            Ok(payload) => Ok(UcsiConnectorCapability(le::at16(payload, 0) as u16)),
            Err(e) => Err(e),
        },
{
    match message_in(bytes, CONNECTOR_CAPABILITY_LEN) {
        Ok(payload) => Ok(UcsiConnectorCapability(le::u16_from(payload[0], payload[1]))),
        Err(e) => Err(e),
    }
}

/// Power direction of a connected connector.
#[derive(Debug, Clone, Copy, PartialEq, Eq, Structural)]
pub enum PowerRole {
    Sink,
    Source,
}

/// What a connector's status says while a partner is connected.
#[derive(Debug, Clone, Copy, PartialEq, Eq, Structural)]
pub struct ConnectedStatus {
    /// The direction in which power flows.
    pub power_direction: PowerRole,
    /// The partner supports USB.
    pub partner_usb: bool,
}

/// Connector status (GET_CONNECTOR_STATUS response).
#[derive(Debug, Clone, Copy, PartialEq, Eq)]
pub struct UcsiConnectorStatus {
    /// A partner is connected.
    pub connect_status: bool,
    /// The details of the connection, if there is one.
    pub status: Option<ConnectedStatus>,
}

/// The payload of a GET_CONNECTOR_STATUS response, for the USB-PD stack to decode.
pub fn connector_status_payload(bytes: &[u8]) -> (payload: Result<&[u8], MailboxError>)
    ensures
        match payload {
            Ok(p) => message(bytes@, CONNECTOR_STATUS_LEN) == Ok::<Seq<u8>, MailboxError>(p@)
                && p@.len() == CONNECTOR_STATUS_LEN,
            Err(e) => message(bytes@, CONNECTOR_STATUS_LEN) == Err::<Seq<u8>, MailboxError>(e),
        },
{
    message_in(bytes, CONNECTOR_STATUS_LEN)
}

/// Decode a GET_CONNECTOR_STATUS response: `decoded` is what the USB-PD stack made of the
/// payload, `None` where it refused it or there was none.
pub fn decode_connector_status(bytes: &[u8], decoded: Option<UcsiConnectorStatus>) -> (status:
    Result<UcsiConnectorStatus, MailboxError>)
    ensures
        status == match message(bytes@, CONNECTOR_STATUS_LEN) {
            Ok(_) => match decoded {
                Some(s) => Ok(s),
                None => Err(MailboxError::PayloadDecode),
            },
            Err(e) => Err(e),
        },
{
    match connector_status_payload(bytes) {
        Ok(_) => match decoded {
            Some(status) => Ok(status),
            None => Err(MailboxError::PayloadDecode),
        },
        Err(e) => Err(e),
    }
}

/// One consistent reading of the UCSI mailbox.
#[derive(Debug, Clone, Copy, PartialEq, Eq)]
pub struct UcsiSnapshot {
    /// The BCD VERSION word.
    pub version: u16,
    pub capability: UcsiCapability,
    pub connector_capability: UcsiConnectorCapability,
    pub connector_status: UcsiConnectorStatus,
}

// ---------------------------------------------------------------------------
// Laws
// ---------------------------------------------------------------------------

/// The FF-A envelope around a mailbox normalizes to that mailbox, whatever stands around
/// it, and a mailbox to itself.
pub proof fn law_normalizes_envelope(head: Seq<u8>, mailbox: Seq<u8>, tail: Seq<u8>)
    requires
        head.len() == FFA_PAYLOAD_OFFSET,
        mailbox.len() == MAILBOX_LEN,
        head.len() + mailbox.len() + tail.len() == FFA_ENVELOPE_LEN,
    ensures
        normalized(head + mailbox + tail) == Ok::<Seq<u8>, MailboxError>(mailbox),
        normalized(mailbox) == Ok::<Seq<u8>, MailboxError>(mailbox),
{
    assert((head + mailbox + tail).subrange(32, 80) =~= mailbox);
}

/// Version reporting is forward-compatible and command payloads are not: a mailbox that
/// validates yields its version whatever it is, and a payload only for UCSI 1.2, with
/// exactly the expected data length.
pub proof fn law_payloads_gate_on_version(bytes: Seq<u8>, expected: usize)
    ensures
        message(bytes, expected) is Ok <==> validated(bytes) is Ok && version_field(bytes)
            == UCSI_VERSION_1_2 && cci_data_len(cci_field(bytes)) == expected,
        validated(bytes) is Err ==> message(bytes, expected) is Err && message(
            bytes,
            expected,
        )->Err_0 == validated(bytes)->Err_0,
        validated(bytes) is Ok && version_field(bytes) != UCSI_VERSION_1_2 ==> message(
            bytes,
            expected,
        ) == Err::<Seq<u8>, MailboxError>(
            MailboxError::UnsupportedVersion(version_field(bytes) as u16),
        ),
{
}

/// A mailbox validates if and only if it has the right length and CCI reports a command that
/// completed without error and is supported.
pub proof fn law_validates_exactly(bytes: Seq<u8>)
    ensures
        validated(bytes) is Ok <==> bytes.len() == MAILBOX_LEN && cci_complete(cci_field(bytes))
            && !cci_error(cci_field(bytes)) && !cci_not_supported(cci_field(bytes)),
{
}

/// Validation goes by the mailbox's length and the named CCI bits alone: command complete is
/// bit 7 of byte 7, command error its bit 6 and not supported its bit 1, looked at in this
/// order. A mailbox that passes yields VERSION from bytes 0 and 1 and the data length from
/// byte 5, whatever else it holds.
pub proof fn law_validates_by_named_bits(bytes: Seq<u8>)
    requires
        bytes.len() <= usize::MAX,
    ensures
        bytes.len() != 48 ==> validated(bytes) == Err::<(u16, usize), MailboxError>(
            MailboxError::WrongLength(bytes.len() as usize),
        ),
        bytes.len() == 48 && bytes[7] < 0x80 ==> validated(bytes) == Err::<
            (u16, usize),
            MailboxError,
        >(MailboxError::NotComplete),
        bytes.len() == 48 && 0xc0 <= bytes[7] ==> validated(bytes) == Err::<
            (u16, usize),
            MailboxError,
        >(MailboxError::CommandError),
        bytes.len() == 48 && 0x80 <= bytes[7] < 0xc0 && (bytes[7] % 4 == 2 || bytes[7] % 4 == 3)
            ==> validated(bytes) == Err::<(u16, usize), MailboxError>(MailboxError::NotSupported),
        bytes.len() == 48 && 0x80 <= bytes[7] < 0xc0 && (bytes[7] % 4 == 0 || bytes[7] % 4 == 1)
            ==> validated(bytes) == Ok::<(u16, usize), MailboxError>(
            ((bytes[0] + 256 * bytes[1]) as u16, bytes[5] as usize),
        ),
{
    if bytes.len() == 48 {
        let cci = cci_field(bytes);
        let low = bytes[4] + 256 * bytes[5] + 65536 * bytes[6];
        assert(cci == low + 0x100_0000 * bytes[7]);
        assert(cci / 0x8000_0000 == bytes[7] as int / 0x80);
        assert(cci / 0x4000_0000 == bytes[7] as int / 0x40);
        assert(cci / 0x200_0000 == bytes[7] as int / 2);
        assert(cci / 0x100 % 0x100 == bytes[5]);
    }
}

/// Two mailboxes that agree in VERSION, the data length and the byte of the named CCI bits
/// validate alike, whatever connector change, reserved bits or messages they hold.
pub proof fn law_validation_ignores_the_rest(one: Seq<u8>, other: Seq<u8>)
    requires
        one.len() == 48,
        other.len() == 48,
        one[0] == other[0],
        one[1] == other[1],
        one[5] == other[5],
        one[7] / 0x40 == other[7] / 0x40,
        one[7] / 2 % 2 == other[7] / 2 % 2,
    ensures
        validated(one) == validated(other),
{
    law_validates_by_named_bits(one);
    law_validates_by_named_bits(other);
}

/// The payload is what stands from byte 16 on, as many bytes as expected, up to the end of
/// the mailbox; else the first
/// reason against it is reported: that of the validation, another version than 1.2, or
/// another data length.
pub proof fn law_payload_is_message_in(bytes: Seq<u8>, expected: usize)
    ensures
        validated(bytes) matches Err(e) ==> message(bytes, expected) == Err::<
            Seq<u8>,
            MailboxError,
        >(e),
        validated(bytes) matches Ok((version, len)) ==> {
            &&& version != 0x0120 ==> message(bytes, expected) == Err::<Seq<u8>, MailboxError>(
                MailboxError::UnsupportedVersion(version),
            )
            &&& version == 0x0120 && len != expected ==> message(bytes, expected) == Err::<
                Seq<u8>,
                MailboxError,
            >(MailboxError::UnexpectedDataLen { expected, actual: len })
            &&& version == 0x0120 && len == expected && expected <= 32 ==> {
                &&& message(bytes, expected) matches Ok(payload)
                &&& payload.len() == expected
                &&& forall|i: int| 0 <= i < expected ==> #[trigger] payload[i] == bytes[16 + i]
            }
        },
{
}

/// A response of the mailbox's length is the mailbox, and one of the envelope's length holds
/// it from byte 32 on; a response of any other length is refused with that length.
pub proof fn law_normalizes_by_length(bytes: Seq<u8>)
    requires
        bytes.len() <= usize::MAX,
    ensures
        bytes.len() == 48 ==> normalized(bytes) == Ok::<Seq<u8>, MailboxError>(bytes),
        bytes.len() == 144 ==> {
            &&& normalized(bytes) matches Ok(mailbox)
            &&& mailbox.len() == 48
            &&& forall|i: int| 0 <= i < 48 ==> #[trigger] mailbox[i] == bytes[32 + i]
        },
        bytes.len() != 48 && bytes.len() != 144 ==> normalized(bytes) == Err::<
            Seq<u8>,
            MailboxError,
        >(MailboxError::WrongLength(bytes.len() as usize)),
{
}

/// Every byte of a capability payload stands in one field, at one place.
pub proof fn law_capability_fields(capability: UcsiCapability, payload: Seq<u8>)
    requires
        payload.len() == 16,
    ensures
        is_capability_of(capability, payload) <==> {
            &&& capability.attributes == payload[0] + 256 * (payload[1] + 256 * (payload[2] + 256
                * payload[3]))
            &&& capability.num_connectors == payload[4]
            &&& forall|i: int| 0 <= i < 7 ==> #[trigger] capability.features@[i] == payload[5 + i]
            &&& capability.bcd_usb_pd_spec == payload[12] + 256 * payload[13]
            &&& capability.bcd_usb_type_c_spec == payload[14] + 256 * payload[15]
        },
{
    assert(payload.subrange(5, 12).len() == 7);
    if forall|i: int| 0 <= i < 7 ==> #[trigger] capability.features@[i] == payload[5 + i] {
        assert(capability.features@ =~= payload.subrange(5, 12));
    }
}

/// Provider and consumer are the two low bits of a connector capability's second byte,
/// whatever the other bits.
pub proof fn law_power_roles_are_two_bits(low: u8, high: u8)
    ensures
        ({
            let capability = UcsiConnectorCapability((low + 256 * high) as u16);
            &&& capability.spec_provider() <==> high % 2 == 1
            &&& capability.spec_consumer() <==> high / 2 % 2 == 1
        }),
{
    let word: int = low + 256 * high;
    assert(word / 0x100 == high as int);
    assert(word / 0x200 == high as int / 2);
}

/// A version word has its major number in the high byte and its minor number in the high
/// digit of the low byte; the text shows both with a dot between them, whatever the last
/// digit is.
pub proof fn law_version_shows_major_and_minor(major: u8, minor: u8, last: u8)
    requires
        minor < 16,
        last < 16,
    ensures
        version_text((256 * major + 16 * minor + last) as u16) == text::decimal(major as nat) + seq![
            '.',
        ] + text::decimal(minor as nat),
{
    let word: int = 256 * major + 16 * minor + last;
    assert(word / 0x100 == major as int);
    assert(word / 0x10 == 16 * major + minor);
}

/// Every command has its UCSI opcode.
pub proof fn law_opcodes(opcode: u8)
    ensures
        CommandType::GetCapability.spec_opcode() == 6,
        CommandType::GetConnectorCapability.spec_opcode() == 7,
        CommandType::GetConnectorStatus.spec_opcode() == 18,
        CommandType::Other(opcode).spec_opcode() == opcode,
{
}

/// The text of an error names what was found, and what was expected in its place.
pub proof fn law_errors_name_what_was_found(found: usize, expected: usize, version: u16)
    ensures
        MailboxError::WrongLength(found).spec_text() == "mailbox length "@ + text::decimal(
            found as nat,
        ) + " bytes, expected 48"@,
        MailboxError::UnsupportedVersion(version).spec_text() == "unsupported UCSI version 0x"@
            + text::hexadecimal4(version),
        (MailboxError::UnexpectedDataLen { expected, actual: found }).spec_text()
            == "CCI data length "@ + text::decimal(found as nat) + ", expected "@ + text::decimal(
            expected as nat,
        ),
        MailboxError::NotComplete.spec_text() == "CCI did not report command complete"@,
        MailboxError::CommandError.spec_text() == "CCI reported command error"@,
        MailboxError::NotSupported.spec_text() == "CCI reported command not supported"@,
        MailboxError::PayloadDecode.spec_text() == "malformed UCSI response payload"@,
{
}

} // verus!
