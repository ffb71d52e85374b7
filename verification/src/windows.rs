//! Windows data source: what is decided around the Win32 calls of the time-and-alarm
//! device.
//!
//! The device lookup and the device requests are state machines over the replies of those
//! calls; the wire formats of the requests are built and read here.

use vstd::prelude::*;
use vstd::string::StringExecFns;

use crate::device_path;
use crate::device_path::encode_utf16;
use crate::le;
use crate::text;
use crate::ucsi::UcsiSnapshot;

verus! {

/// Errors produced by Windows data source operations.
#[derive(Debug, Clone, Copy, PartialEq, Eq, Structural)]
pub enum Error {
    /// The device interface could not be found.
    DeviceNotFound,
    /// A Windows API call failed with the returned HRESULT.
    Io(i32),
    /// The device returned a malformed or unexpected buffer.
    InvalidData,
    /// The Windows class-driver source does not expose UCSI.
    Unsupported,
}

/// What kind of error a source reports.
#[derive(Debug, Clone, Copy, PartialEq, Eq, Structural)]
pub enum ErrorKind {
    Io,
    InvalidData,
    Other,
}

/// The 32 bits of an HRESULT as a number.
pub open spec fn hresult_bits(code: i32) -> nat {
    (if code < 0 {
        code + 0x1_0000_0000
    } else {
        code as int
    }) as nat
}

impl Error {
    /// The error as text.
    pub open spec fn spec_text(self) -> Seq<char> {
        match self {
            Error::DeviceNotFound => "Device not found"@,
            Error::Io(code) => "HRESULT 0x"@ + text::hexadecimal(hresult_bits(code)),
            Error::InvalidData => "Invalid data"@,
            Error::Unsupported => "UCSI is unsupported by the Windows source"@,
        }
    }

    /// The error as text.
    pub fn to_string(&self) -> (text: String)
        ensures
            text@ == self.spec_text(),
    {
        match *self {
            Error::DeviceNotFound => "Device not found".to_owned(),
            Error::Io(code) => {
                let mut text = "HRESULT 0x".to_owned();
                let bits: i64 = if code < 0 {
                    code as i64 + 0x1_0000_0000
                } else {
                    code as i64
                };
                text::push_hexadecimal(&mut text, bits as u64);
                text
            },
            Error::InvalidData => "Invalid data".to_owned(),
            Error::Unsupported => "UCSI is unsupported by the Windows source".to_owned(),
        }
    }

    /// The kind of the error.
    pub fn kind(&self) -> (kind: ErrorKind)
        ensures
            kind == match *self {
                Error::DeviceNotFound => ErrorKind::Io,
                Error::Io(_) => ErrorKind::Io,
                Error::InvalidData => ErrorKind::InvalidData,
                Error::Unsupported => ErrorKind::Other,
            },
    {
        match *self {
            Error::DeviceNotFound => ErrorKind::Io,
            Error::Io(_) => ErrorKind::Io,
            Error::InvalidData => ErrorKind::InvalidData,
            Error::Unsupported => ErrorKind::Other,
        }
    }
}

// ---------------------------------------------------------------------------
// Device lookup
// ---------------------------------------------------------------------------

/// Where a device lookup stands: the call whose reply is awaited.
#[derive(Debug)]
pub enum LookupStage {
    /// The device information set of the interface class is being opened.
    OpeningSet,
    /// The first device interface of the set is being found.
    FindingInterface,
    /// The size of the interface's detail is being asked for.
    SizingDetail,
    /// The detail of that many bytes is being read, into as many aligned 64-bit words as
    /// hold them.
    ReadingDetail { required: u32, words: usize },
    /// The device path in the detail is being decoded.
    DecodingPath,
    /// The lookup is over. The set is destroyed if it was opened.
    Finished { result: Result<String, Error>, destroy_set: bool },
}

/// The reply to a call of a device lookup.
#[derive(Debug)]
pub enum LookupReply {
    /// How the call ended: nothing, or the HRESULT of its failure.
    Status(Result<(), i32>),
    /// The size that the detail requires.
    Required(u32),
    /// The device path, `None` where it is no valid text.
    Path(Option<String>),
}

/// The stage after a reply; one that answers no call of the stage changes nothing.
pub open spec fn next_lookup_stage(stage: LookupStage, reply: LookupReply) -> LookupStage {
    match (stage, reply) {
        (LookupStage::OpeningSet, LookupReply::Status(opened)) => match opened {
            Ok(_) => LookupStage::FindingInterface,
            Err(code) => LookupStage::Finished {
                result: Err(Error::Io(code)),
                destroy_set: false,
            },
        },
        (LookupStage::FindingInterface, LookupReply::Status(found)) => match found {
            Ok(_) => LookupStage::SizingDetail,
            Err(_) => LookupStage::Finished {
                result: Err(Error::DeviceNotFound),
                destroy_set: true,
            },
        },
        (LookupStage::SizingDetail, LookupReply::Required(required)) => if required == 0 {
            LookupStage::Finished { result: Err(Error::DeviceNotFound), destroy_set: true }
        } else {
            LookupStage::ReadingDetail { required, words: ((required + 7) / 8) as usize }
        },
        (LookupStage::ReadingDetail { .. }, LookupReply::Status(read)) => match read {
            Ok(_) => LookupStage::DecodingPath,
            Err(code) => LookupStage::Finished { result: Err(Error::Io(code)), destroy_set: true },
        },
        (LookupStage::DecodingPath, LookupReply::Path(path)) => LookupStage::Finished {
            result: match path {
                Some(path) => Ok(path),
                None => Err(Error::InvalidData),
            },
            destroy_set: true,
        },
        _ => stage,
    }
}

/// Look up the device path of the first device with an interface.
///
/// Starts at [`LookupStage::OpeningSet`]. The detail is sized first, by a call that is
/// expected to fail for want of a buffer, and then read.
pub fn get_device_path(stage: LookupStage, reply: LookupReply) -> (next: LookupStage)
    ensures
        next == next_lookup_stage(stage, reply),
{
    match (stage, reply) {
        (LookupStage::OpeningSet, LookupReply::Status(opened)) => match opened {
            Ok(()) => LookupStage::FindingInterface,
            Err(code) => LookupStage::Finished {
                result: Err(Error::Io(code)),
                destroy_set: false,
            },
        },
        (LookupStage::FindingInterface, LookupReply::Status(found)) => match found {
            Ok(()) => LookupStage::SizingDetail,
            Err(_) => LookupStage::Finished {
                result: Err(Error::DeviceNotFound),
                destroy_set: true,
            },
        },
        (LookupStage::SizingDetail, LookupReply::Required(required)) => {
            if required == 0 {
                LookupStage::Finished { result: Err(Error::DeviceNotFound), destroy_set: true }
            } else {
                let words: u64 = (required as u64 + 7) / 8;
                LookupStage::ReadingDetail { required, words: words as usize }
            }
        },
        (LookupStage::ReadingDetail { .. }, LookupReply::Status(read)) => match read {
            Ok(()) => LookupStage::DecodingPath,
            Err(code) => LookupStage::Finished { result: Err(Error::Io(code)), destroy_set: true },
        },
        (LookupStage::DecodingPath, LookupReply::Path(path)) => match path {
            Some(path) => LookupStage::Finished { result: Ok(path), destroy_set: true },
            None => LookupStage::Finished { result: Err(Error::InvalidData), destroy_set: true },
        },
        (stage, _) => stage,
    }
}

/// The words of a detail hold it, and no word is spare.
pub proof fn law_detail_words_hold_detail(required: u32)
    requires
        required > 0,
    ensures
        next_lookup_stage(LookupStage::SizingDetail, LookupReply::Required(required)) matches
            LookupStage::ReadingDetail { required: r, words } && r == required && words * 8
            >= required && (words - 1) * 8 < required,
{
}

/// Once opened, the device information set is destroyed at the end of the lookup, and only
/// then: a lookup that could not open it destroys nothing.
pub proof fn law_opened_set_is_destroyed(stage: LookupStage, reply: LookupReply)
    requires
        !(stage is Finished),
    ensures
        next_lookup_stage(stage, reply) matches LookupStage::Finished { result, destroy_set }
            ==> destroy_set == !(stage is OpeningSet) && (result is Ok ==> stage is DecodingPath),
{
}

// ---------------------------------------------------------------------------
// Device requests
// ---------------------------------------------------------------------------

/// The control codes of the time-and-alarm device.
#[derive(Debug, Clone, Copy, PartialEq, Eq, Structural)]
pub enum IoctlCode {
    GetRealTime,
    SetRealTime,
    GetWakeAlarmValue,
    SetWakeAlarmValue,
    GetWakeAlarmPolicy,
    SetWakeAlarmPolicy,
    GetCapabilities,
}

/// A buffered device request.
#[derive(Debug)]
pub struct IoctlRequest {
    pub code: IoctlCode,
    pub input: Vec<u8>,
    pub output_len: usize,
}

/// Where a device request stands: the call whose reply is awaited.
#[derive(Debug, Clone, Copy, PartialEq, Eq)]
pub enum IoctlStage {
    /// The device is being opened.
    Opening,
    /// The request is being issued.
    Issuing,
    /// The request is over. The handle is closed if it was opened.
    Finished { result: Result<(), Error>, close_handle: bool },
}

/// The reply to a call of a device request: on success the number of bytes returned (none
/// for opening), else the HRESULT.
pub open spec fn next_ioctl_stage(
    stage: IoctlStage,
    output_len: usize,
    reply: Result<u32, i32>,
) -> IoctlStage {
    match stage {
        IoctlStage::Opening => match reply {
            Ok(_) => IoctlStage::Issuing,
            Err(code) => IoctlStage::Finished { result: Err(Error::Io(code)), close_handle: false },
        },
        IoctlStage::Issuing => IoctlStage::Finished {
            result: match reply {
                Ok(returned) => if returned == output_len {
                    Ok(())
                } else {
                    Err(Error::InvalidData)
                },
                Err(code) => Err(Error::Io(code)),
            },
            close_handle: true,
        },
        IoctlStage::Finished { .. } => stage,
    }
}

/// A device was opened if and only if its handle is closed at the end, and a request succeeds
/// if and only if the driver filled the output completely.
pub proof fn law_ioctl_fills_output(
    opened: Result<u32, i32>,
    issued: Result<u32, i32>,
    output_len: usize,
)
    ensures
        ({
            let first = next_ioctl_stage(IoctlStage::Opening, output_len, opened);
            let last = next_ioctl_stage(first, output_len, issued);
            last matches IoctlStage::Finished { result, close_handle } && close_handle == (opened
                is Ok) && (result is Ok <==> opened is Ok && issued is Ok && issued->Ok_0
                == output_len)
        }),
{
}

/// A resolved handle to one Windows class-driver device interface.
#[derive(Debug)]
pub struct WindowsDevice {
    device_path: String,
}

impl View for WindowsDevice {
    type V = Seq<char>;

    closed spec fn view(&self) -> Seq<char> {
        self.device_path@
    }
}

impl WindowsDevice {
    /// Create a device from what the lookup of its interface gave.
    pub fn new(lookup: Result<String, Error>) -> (device: Result<Self, Error>)
        ensures
            match device {
                Ok(d) => lookup is Ok && d@ == lookup->Ok_0@,
                Err(e) => lookup == Err::<String, Error>(e),
            },
    {
        match lookup {
            Ok(device_path) => Ok(WindowsDevice { device_path }),
            Err(e) => Err(e),
        }
    }

    /// The device path as the zero-terminated UTF-16 string by which the device is opened.
    pub fn wide_path(&self) -> (wide: Vec<u16>)
        ensures
            wide@ == device_path::utf16(self@).push(0),
    {
        let mut wide = encode_utf16(self.device_path.as_str());
        wide.push(0);
        wide
    }

    /// Issue a single buffered request, requiring the driver to fill the output completely.
    ///
    /// Starts at [`IoctlStage::Opening`]; a reply is the number of bytes returned or the
    /// HRESULT. Fewer bytes than the output holds mean a malformed response.
    pub fn ioctl(&self, stage: IoctlStage, output_len: usize, reply: Result<u32, i32>) -> (next:
        IoctlStage)
        ensures
            next == next_ioctl_stage(stage, output_len, reply),
    {
        match stage {
            IoctlStage::Opening => match reply {
                Ok(_) => IoctlStage::Issuing,
                Err(code) => IoctlStage::Finished {
                    result: Err(Error::Io(code)),
                    close_handle: false,
                },
            },
            IoctlStage::Issuing => match reply {
                Ok(returned) => {
                    if returned as usize == output_len {
                        IoctlStage::Finished { result: Ok(()), close_handle: true }
                    } else {
                        IoctlStage::Finished { result: Err(Error::InvalidData), close_handle: true }
                    }
                },
                Err(code) => IoctlStage::Finished {
                    result: Err(Error::Io(code)),
                    close_handle: true,
                },
            },
            IoctlStage::Finished { .. } => stage,
        }
    }
}

// ---------------------------------------------------------------------------
// Time and alarm
// ---------------------------------------------------------------------------

/// A timer of the time-and-alarm device, by its ACPI identifier.
#[derive(Debug, Clone, Copy, PartialEq, Eq, Structural)]
pub struct AcpiTimerId(pub u32);

/// A timer's value in seconds.
#[derive(Debug, Clone, Copy, PartialEq, Eq, Structural)]
pub struct AlarmTimerSeconds(pub u32);

/// A timer's policy once it expired, in seconds.
#[derive(Debug, Clone, Copy, PartialEq, Eq, Structural)]
pub struct AlarmExpiredWakePolicy(pub u32);

/// The wake status of a timer.
#[derive(Debug, Clone, Copy, PartialEq, Eq, Structural)]
pub struct TimerStatus(pub u32);

/// Length of a real time on the wire.
pub const REAL_TIME_LEN: usize = 16;

/// Length of the wake alarm information: timer identifier and timeout.
pub const WAKE_ALARM_LEN: usize = 8;

/// The wake alarm information on the wire: timer identifier, then timeout.
pub open spec fn wake_alarm(timer_id: AcpiTimerId, timeout: u32) -> Seq<u8> {
    le::bytes32(timer_id.0) + le::bytes32(timeout)
}

/// The wake alarm information on the wire.
fn encode_wake_alarm(timer_id: AcpiTimerId, timeout: u32) -> (bytes: Vec<u8>)
    ensures
        bytes@ == wake_alarm(timer_id, timeout),
{
    let id = le::u32_to(timer_id.0);
    let timeout_bytes = le::u32_to(timeout);
    let mut bytes: Vec<u8> = Vec::new();
    bytes.extend_from_slice(id.as_slice());
    bytes.extend_from_slice(timeout_bytes.as_slice());
    bytes
}

/// The timeout in wake alarm information.
fn decode_timeout(out: &[u8]) -> (timeout: u32)
    requires
        out@.len() == WAKE_ALARM_LEN,
    ensures
        timeout == le::at32(out@, 4),
{
    le::u32_from(out[4], out[5], out[6], out[7])
}

/// What the driver says that the device supports.
#[derive(Debug, Clone, Copy, PartialEq, Eq, Structural)]
pub struct RawCapabilities {
    pub ac_wake_supported: u8,
    pub dc_wake_supported: u8,
    pub s4_ac_wake_supported: u8,
    pub s4_dc_wake_supported: u8,
    pub s5_ac_wake_supported: u8,
    pub s5_dc_wake_supported: u8,
    pub s4_s5_wake_status_supported: u8,
    pub real_time_features_supported: u8,
    /// The real time is accurate to milliseconds.
    pub millisecond_resolution: bool,
}

/// The capabilities of the time-and-alarm device.
#[derive(Debug, Clone, Copy, PartialEq, Eq, Structural)]
pub struct TimeAlarmDeviceCapabilities {
    pub ac_wake_implemented: bool,
    pub dc_wake_implemented: bool,
    pub realtime_implemented: bool,
    pub realtime_accuracy_in_milliseconds: bool,
    pub get_wake_status_supported: bool,
    pub ac_s4_wake_supported: bool,
    pub ac_s5_wake_supported: bool,
    pub dc_s4_wake_supported: bool,
    pub dc_s5_wake_supported: bool,
}

/// Windows data source.
#[derive(Debug)]
pub struct Windows {
    time_alarm: WindowsDevice,
}

impl View for Windows {
    type V = Seq<char>;

    closed spec fn view(&self) -> Seq<char> {
        self.time_alarm@
    }
}

impl Windows {
    /// Create the source from what the lookup of the time-and-alarm device gave.
    pub fn new(lookup: Result<String, Error>) -> (source: Result<Self, Error>)
        ensures
            match source {
                Ok(s) => lookup is Ok && s@ == lookup->Ok_0@,
                Err(e) => lookup == Err::<String, Error>(e),
            },
    {
        match WindowsDevice::new(lookup) {
            Ok(time_alarm) => Ok(Windows { time_alarm }),
            Err(e) => Err(e),
        }
    }

    /// The time-and-alarm device.
    pub fn time_alarm(&self) -> (device: &WindowsDevice)
        ensures
            device@ == self@,
    {
        &self.time_alarm
    }

    /// The request for the real time.
    pub fn get_real_time(&self) -> (request: IoctlRequest)
        ensures
            request.code == IoctlCode::GetRealTime,
            request.input@ == Seq::<u8>::empty(),
            request.output_len == REAL_TIME_LEN,
    {
        IoctlRequest {
            code: IoctlCode::GetRealTime,
            input: Vec::new(),
            output_len: REAL_TIME_LEN,
        }
    }

    /// The real time that was read: `decoded` is what the time service made of the reply,
    /// `None` where it refused it.
    pub fn real_time<T>(&self, decoded: Option<T>) -> (time: Result<T, Error>)
        ensures
            time == match decoded {
                Some(t) => Ok::<T, Error>(t),
                None => Err(Error::InvalidData),
            },
    {
        match decoded {
            Some(time) => Ok(time),
            None => Err(Error::InvalidData),
        }
    }

    /// The request that sets the real time to the one with these bytes.
    pub fn set_real_time(&self, timestamp: [u8; 16]) -> (request: IoctlRequest)
        ensures
            request.code == IoctlCode::SetRealTime,
            request.input@ == timestamp@,
            request.output_len == 0,
    {
        IoctlRequest {
            code: IoctlCode::SetRealTime,
            input: device_path::to_vec(timestamp.as_slice()),
            output_len: 0,
        }
    }

    /// The request for a timer's value.
    pub fn get_timer_value(&self, timer_id: AcpiTimerId) -> (request: IoctlRequest)
        ensures
            request.code == IoctlCode::GetWakeAlarmValue,
            request.input@ == wake_alarm(timer_id, 0),
            request.output_len == WAKE_ALARM_LEN,
    {
        IoctlRequest {
            code: IoctlCode::GetWakeAlarmValue,
            input: encode_wake_alarm(timer_id, 0),
            output_len: WAKE_ALARM_LEN,
        }
    }

    /// The value in the reply to [`Self::get_timer_value`].
    pub fn timer_value(&self, out: &[u8]) -> (value: AlarmTimerSeconds)
        requires
            out@.len() == WAKE_ALARM_LEN,
        ensures
            value.0 == le::at32(out@, 4),
    {
        AlarmTimerSeconds(decode_timeout(out))
    }

    /// The request that sets a timer's value.
    pub fn set_timer_value(&self, timer_id: AcpiTimerId, value: AlarmTimerSeconds) -> (request:
        IoctlRequest)
        ensures
            request.code == IoctlCode::SetWakeAlarmValue,
            request.input@ == wake_alarm(timer_id, value.0),
            request.output_len == 0,
    {
        IoctlRequest {
            code: IoctlCode::SetWakeAlarmValue,
            input: encode_wake_alarm(timer_id, value.0),
            output_len: 0,
        }
    }

    /// The request for a timer's policy once it expired.
    pub fn get_expired_timer_wake_policy(&self, timer_id: AcpiTimerId) -> (request: IoctlRequest)
        ensures
            request.code == IoctlCode::GetWakeAlarmPolicy,
            request.input@ == wake_alarm(timer_id, 0),
            request.output_len == WAKE_ALARM_LEN,
    {
        IoctlRequest {
            code: IoctlCode::GetWakeAlarmPolicy,
            input: encode_wake_alarm(timer_id, 0),
            output_len: WAKE_ALARM_LEN,
        }
    }

    /// The policy in the reply to [`Self::get_expired_timer_wake_policy`], which carries it in
    /// place of the timeout.
    pub fn expired_timer_wake_policy(&self, out: &[u8]) -> (policy: AlarmExpiredWakePolicy)
        requires
            out@.len() == WAKE_ALARM_LEN,
        ensures
            policy.0 == le::at32(out@, 4),
    {
        AlarmExpiredWakePolicy(decode_timeout(out))
    }

    /// The request that sets a timer's policy once it expired.
    pub fn set_expired_timer_wake_policy(
        &self,
        timer_id: AcpiTimerId,
        policy: AlarmExpiredWakePolicy,
    ) -> (request: IoctlRequest)
        ensures
            request.code == IoctlCode::SetWakeAlarmPolicy,
            request.input@ == wake_alarm(timer_id, policy.0),
            request.output_len == 0,
    {
        IoctlRequest {
            code: IoctlCode::SetWakeAlarmPolicy,
            input: encode_wake_alarm(timer_id, policy.0),
            output_len: 0,
        }
    }

    /// The request for the capabilities, whose reply has `output_len` bytes.
    pub fn get_capabilities_request(&self, output_len: usize) -> (request: IoctlRequest)
        ensures
            request.code == IoctlCode::GetCapabilities,
            request.input@ == Seq::<u8>::empty(),
            request.output_len == output_len,
    {
        IoctlRequest { code: IoctlCode::GetCapabilities, input: Vec::new(), output_len }
    }

    /// The capabilities that the driver's reply reports: each flag is set where the driver's
    /// is not zero.
    pub fn get_capabilities(&self, raw: RawCapabilities) -> (caps: TimeAlarmDeviceCapabilities)
        ensures
            caps == (TimeAlarmDeviceCapabilities {
                ac_wake_implemented: raw.ac_wake_supported != 0,
                dc_wake_implemented: raw.dc_wake_supported != 0,
                realtime_implemented: raw.real_time_features_supported != 0,
                realtime_accuracy_in_milliseconds: raw.millisecond_resolution,
                get_wake_status_supported: raw.s4_s5_wake_status_supported != 0,
                ac_s4_wake_supported: raw.s4_ac_wake_supported != 0,
                ac_s5_wake_supported: raw.s5_ac_wake_supported != 0,
                dc_s4_wake_supported: raw.s4_dc_wake_supported != 0,
                dc_s5_wake_supported: raw.s5_dc_wake_supported != 0,
            }),
    {
        TimeAlarmDeviceCapabilities {
            ac_wake_implemented: raw.ac_wake_supported != 0,
            dc_wake_implemented: raw.dc_wake_supported != 0,
            realtime_implemented: raw.real_time_features_supported != 0,
            realtime_accuracy_in_milliseconds: raw.millisecond_resolution,
            get_wake_status_supported: raw.s4_s5_wake_status_supported != 0,
            ac_s4_wake_supported: raw.s4_ac_wake_supported != 0,
            ac_s5_wake_supported: raw.s5_ac_wake_supported != 0,
            dc_s4_wake_supported: raw.s4_dc_wake_supported != 0,
            dc_s5_wake_supported: raw.s5_dc_wake_supported != 0,
        }
    }

    /// The wake status of a timer. The driver exposes no request for it, so no status is
    /// reported.
    pub fn get_wake_status(&self, _timer_id: AcpiTimerId) -> (status: Result<TimerStatus, Error>)
        ensures
            status == Ok::<TimerStatus, Error>(TimerStatus(0)),
    {
        Ok(TimerStatus(0))
    }

    /// Clear the wake status of a timer, of which there is none.
    pub fn clear_wake_status(&self, _timer_id: AcpiTimerId) -> (result: Result<(), Error>)
        ensures
            result == Ok::<(), Error>(()),
    {
        Ok(())
    }

    /// The class drivers expose no UCSI.
    pub fn get_snapshot(&self, _connector: u8) -> (snapshot: Result<UcsiSnapshot, Error>)
        ensures
            snapshot == Err::<UcsiSnapshot, Error>(Error::Unsupported),
    {
        Err(Error::Unsupported)
    }
}

/// What sets a timer's value or policy is read back from a reply with the same layout.
pub proof fn law_wake_alarm_round_trip(timer_id: AcpiTimerId, timeout: u32)
    ensures
        wake_alarm(timer_id, timeout).len() == WAKE_ALARM_LEN,
        le::at32(wake_alarm(timer_id, timeout), 0) == timer_id.0,
        le::at32(wake_alarm(timer_id, timeout), 4) == timeout,
{
    le::lemma_32_round_trip(timer_id.0);
    le::lemma_32_round_trip(timeout);
}

/// The whole course of a lookup: the set is opened, the first interface found, its detail
/// sized and read, and the path in it is the result. Each failure ends the lookup with its own
/// error: that of the call, that no device was found, or that the path is no text.
pub proof fn law_lookup_takes_its_course(
    opened: Result<(), i32>,
    found: Result<(), i32>,
    required: u32,
    read: Result<(), i32>,
    path: Option<String>,
)
    ensures
        ({
            let s1 = next_lookup_stage(LookupStage::OpeningSet, LookupReply::Status(opened));
            let s2 = next_lookup_stage(s1, LookupReply::Status(found));
            let s3 = next_lookup_stage(s2, LookupReply::Required(required));
            let s4 = next_lookup_stage(s3, LookupReply::Status(read));
            let s5 = next_lookup_stage(s4, LookupReply::Path(path));
            let sized = opened is Ok && found is Ok && required > 0;
            &&& opened matches Err(code) ==> s5 == (LookupStage::Finished {
                result: Err(Error::Io(code)),
                destroy_set: false,
            })
            &&& opened is Ok ==> s1 == LookupStage::FindingInterface
            &&& opened is Ok && (found is Err || required == 0) ==> s5 == (LookupStage::Finished {
                result: Err(Error::DeviceNotFound),
                destroy_set: true,
            })
            &&& opened is Ok && found is Ok ==> s2 == LookupStage::SizingDetail
            &&& sized ==> s3 is ReadingDetail
            &&& sized ==> (read matches Err(code) ==> s5 == (LookupStage::Finished {
                result: Err(Error::Io(code)),
                destroy_set: true,
            }))
            &&& sized && read is Ok ==> s4 == LookupStage::DecodingPath
            &&& sized && read is Ok ==> s5 == (LookupStage::Finished {
                result: if path is Some {
                    Ok(path->0)
                } else {
                    Err(Error::InvalidData)
                },
                destroy_set: true,
            })
        }),
{
}

/// A reply to no call of the stage changes nothing, and a finished lookup stays so.
pub proof fn law_lookup_ignores_other_replies(stage: LookupStage, reply: LookupReply)
    requires
        stage is Finished || (stage is SizingDetail) != (reply is Required) || (stage
            is DecodingPath) != (reply is Path),
    ensures
        next_lookup_stage(stage, reply) == stage,
{
}

/// A request fails with the error of the call that failed, and with malformed data where the
/// driver returned fewer or more bytes than the output holds; once over it stays so.
pub proof fn law_ioctl_reports_its_failure(
    opened: Result<u32, i32>,
    issued: Result<u32, i32>,
    output_len: usize,
    late: Result<u32, i32>,
)
    ensures
        ({
            let first = next_ioctl_stage(IoctlStage::Opening, output_len, opened);
            let last = next_ioctl_stage(first, output_len, issued);
            &&& opened is Ok ==> first == IoctlStage::Issuing
            &&& opened matches Err(code) ==> last == (IoctlStage::Finished {
                result: Err(Error::Io(code)),
                close_handle: false,
            })
            &&& opened is Ok ==> (issued matches Err(code) ==> last == (IoctlStage::Finished {
                result: Err(Error::Io(code)),
                close_handle: true,
            }))
            &&& opened is Ok ==> (issued matches Ok(returned) ==> last == (IoctlStage::Finished {
                result: if returned == output_len {
                    Ok(())
                } else {
                    Err(Error::InvalidData)
                },
                close_handle: true,
            }))
            &&& next_ioctl_stage(last, output_len, late) == last
        }),
{
}

/// The wake alarm information is eight bytes: timer and timeout, each with the low byte first.
pub proof fn law_wake_alarm_bytes(timer_id: AcpiTimerId, timeout: u32)
    ensures
        ({
            let bytes = wake_alarm(timer_id, timeout);
            &&& bytes.len() == 8
            &&& bytes[0] + 256 * (bytes[1] + 256 * (bytes[2] + 256 * bytes[3])) == timer_id.0
            &&& bytes[4] + 256 * (bytes[5] + 256 * (bytes[6] + 256 * bytes[7])) == timeout
        }),
        WAKE_ALARM_LEN == 8,
        REAL_TIME_LEN == 16,
{
    le::law_low_byte_first(le::bytes32(timer_id.0), 0, 0, timer_id.0);
    le::law_low_byte_first(le::bytes32(timeout), 0, 0, timeout);
}

/// An HRESULT is shown by its 32 bits, in hexadecimal: the number itself, or for a negative
/// one its complement to 2^32.
pub proof fn law_errors_have_their_texts(code: i32)
    ensures
        code >= 0 ==> Error::Io(code).spec_text() == "HRESULT 0x"@ + text::hexadecimal(code as nat),
        code < 0 ==> Error::Io(code).spec_text() == "HRESULT 0x"@ + text::hexadecimal(
            (0x1_0000_0000 + code) as nat,
        ),
        Error::DeviceNotFound.spec_text() == "Device not found"@,
        Error::InvalidData.spec_text() == "Invalid data"@,
        Error::Unsupported.spec_text() == "UCSI is unsupported by the Windows source"@,
{
}

} // verus!
