//! Event-group signaling shared across the recovery boot path.

use vstd::prelude::*;

use crate::efi::{EfiError, Guid};

verus! {

/// The event groups that the recovery boot path signals.
#[derive(Debug, Clone, Copy, PartialEq, Eq, Structural)]
pub enum EventGroup {
    /// `gMsStartOfBdsNotifyGuid`: the boot-device-selection phase starts.
    MsStartOfBds,
    /// `gDfciStartOfBdsNotifyGuid`: device-setting requests may be processed, while the
    /// platform is still in its pre-lock phase.
    DfciStartOfBds,
    /// `gMuReadyToProcessCapsulesNotifyGuid`: queued capsules may be applied.
    ReadyToProcessCapsules,
}

impl EventGroup {
    /// The identifier of the group.
    pub open spec fn spec_guid(self) -> Guid {
        match self {
            EventGroup::MsStartOfBds => Guid {
                time_low: 0x056e730a,
                time_mid: 0x2ac9,
                time_hi_and_version: 0x4f9c,
                clk_seq_hi_res: 0xa7,
                clk_seq_low: 0x92,
                node: [0x1f, 0x3f, 0x1a, 0x48, 0xa2, 0x4d],
            },
            EventGroup::DfciStartOfBds => Guid {
                time_low: 0xc9341466,
                time_mid: 0x1a6c,
                time_hi_and_version: 0x4ded,
                clk_seq_hi_res: 0x89,
                clk_seq_low: 0xc2,
                node: [0x78, 0x12, 0xb0, 0x29, 0x9c, 0x45],
            },
            EventGroup::ReadyToProcessCapsules => Guid {
                time_low: 0x2ab1c860,
                time_mid: 0xe697,
                time_hi_and_version: 0x4ede,
                clk_seq_hi_res: 0x8c,
                clk_seq_low: 0x0f,
                node: [0x65, 0xcd, 0x6e, 0x44, 0x44, 0x35],
            },
        }
    }

    /// The identifier of the group.
    pub fn guid(&self) -> (guid: Guid)
        ensures
            guid == self.spec_guid(),
    {
        match self {
            EventGroup::MsStartOfBds => Guid {
                time_low: 0x056e730a,
                time_mid: 0x2ac9,
                time_hi_and_version: 0x4f9c,
                clk_seq_hi_res: 0xa7,
                clk_seq_low: 0x92,
                node: [0x1f, 0x3f, 0x1a, 0x48, 0xa2, 0x4d],
            },
            EventGroup::DfciStartOfBds => Guid {
                time_low: 0xc9341466,
                time_mid: 0x1a6c,
                time_hi_and_version: 0x4ded,
                clk_seq_hi_res: 0x89,
                clk_seq_low: 0xc2,
                node: [0x78, 0x12, 0xb0, 0x29, 0x9c, 0x45],
            },
            EventGroup::ReadyToProcessCapsules => Guid {
                time_low: 0x2ab1c860,
                time_mid: 0xe697,
                time_hi_and_version: 0x4ede,
                clk_seq_hi_res: 0x8c,
                clk_seq_low: 0x0f,
                node: [0x65, 0xcd, 0x6e, 0x44, 0x44, 0x35],
            },
        }
    }
}

/// Where a signal of an event group stands: the request whose reply is awaited.
#[derive(Debug, Clone, Copy, PartialEq, Eq)]
pub enum SignalStage {
    /// A one-shot event tied to the group is being created.
    Creating,
    /// The event is being signaled.
    Signaling,
    /// The event is being closed, after it was signaled with this result.
    Closing(Result<(), EfiError>),
    /// The signal is over with this result.
    Finished(Result<(), EfiError>),
}

/// The stage after the reply to the request of `stage`.
pub open spec fn next_signal_stage(
    stage: SignalStage,
    reply: Result<(), EfiError>,
) -> SignalStage {
    match stage {
        SignalStage::Creating => match reply {
            Ok(()) => SignalStage::Signaling,
            Err(e) => SignalStage::Finished(Err(e)),
        },
        SignalStage::Signaling => SignalStage::Closing(reply),
        SignalStage::Closing(signaled) => SignalStage::Finished(
            if signaled is Err {
                signaled
            } else {
                reply
            },
        ),
        SignalStage::Finished(result) => SignalStage::Finished(result),
    }
}

/// Signal an event group: create a one-shot event tied to it, fire it, then close it,
/// which broadcasts to every driver with a callback on the group.
///
/// The caller starts at [`SignalStage::Creating`], performs the request of the stage and
/// passes the reply, until the stage is [`SignalStage::Finished`]. An event that was
/// created is closed whatever the signal returned, and the error of the signal takes
/// precedence over that of the close.
pub fn signal_event_group(
    stage: SignalStage,
    reply: Result<(), EfiError>,
) -> (next: SignalStage)
    ensures
        next == next_signal_stage(stage, reply),
{
    match stage {
        SignalStage::Creating => match reply {
            Ok(()) => SignalStage::Signaling,
            Err(e) => SignalStage::Finished(Err(e)),
        },
        SignalStage::Signaling => SignalStage::Closing(reply),
        SignalStage::Closing(signaled) => match signaled {
            Ok(()) => SignalStage::Finished(reply),
            Err(e) => SignalStage::Finished(Err(e)),
        },
        SignalStage::Finished(result) => SignalStage::Finished(result),
    }
}

/// Once its event exists, a signal always goes on to close it, and it succeeds if and
/// only if creating, signaling and closing all did.
pub proof fn law_created_event_is_closed(
    created: Result<(), EfiError>,
    signaled: Result<(), EfiError>,
    closed: Result<(), EfiError>,
)
    ensures
        ({
            let first = next_signal_stage(SignalStage::Creating, created);
            let second = next_signal_stage(first, signaled);
            let third = next_signal_stage(second, closed);
            &&& created is Ok ==> first == SignalStage::Signaling && second is Closing
            &&& third matches SignalStage::Finished(result) && (result is Ok <==> created is Ok
                && signaled is Ok && closed is Ok)
            &&& created is Ok && signaled is Err ==> third == SignalStage::Finished(signaled)
        }),
{
}

/// The whole course of a signal: an event that cannot be created ends it with that error and
/// nothing is signaled; else the event is signaled and then closed whatever came of it, and
/// the first error is the result.
pub proof fn law_signal_reports_the_first_error(
    created: Result<(), EfiError>,
    signaled: Result<(), EfiError>,
    closed: Result<(), EfiError>,
    late: Result<(), EfiError>,
)
    ensures
        ({
            let first = next_signal_stage(SignalStage::Creating, created);
            let second = next_signal_stage(first, signaled);
            let third = next_signal_stage(second, closed);
            &&& created is Err ==> first == SignalStage::Finished(created) && third == first
            &&& created is Ok ==> first == SignalStage::Signaling && second
                == SignalStage::Closing(signaled)
            &&& created is Ok && signaled is Err ==> third == SignalStage::Finished(signaled)
            &&& created is Ok && signaled is Ok ==> third == SignalStage::Finished(closed)
            &&& next_signal_stage(third, late) == third
        }),
{
}

} // verus!
