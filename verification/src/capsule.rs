//! Capsule-queue processing hook.
//!
//! The capsule processor is signaled on every call. It arms its drain callback only when
//! the capsule queue is non-empty and the boot mode is a flash update, so the signal is a
//! no-op otherwise. The boot logo, the backdrop of the progress bar, is drawn only on a
//! flash-update boot.

use vstd::prelude::*;

use crate::events::EventGroup;

verus! {

/// What capsule processing asks of the platform. Both are best-effort: neither failing
/// stops the other.
#[derive(Debug, Clone, Copy, PartialEq, Eq, Structural)]
pub enum CapsuleAction {
    /// Draw the boot logo.
    DisplayBootLogo,
    /// Signal an event group.
    SignalEventGroup(EventGroup),
}

/// The actions of capsule processing.
pub open spec fn capsule_actions(flash_update_boot: bool) -> Seq<CapsuleAction> {
    let signal = seq![CapsuleAction::SignalEventGroup(EventGroup::ReadyToProcessCapsules)];
    if flash_update_boot {
        seq![CapsuleAction::DisplayBootLogo] + signal
    } else {
        signal
    }
}

/// Signal the capsule processor; draw the progress-bar logo first on a flash-update boot.
///
/// Returns the actions in the order in which they are to be performed. On a flash-update
/// boot with a queued capsule the signal does not return.
pub fn process(flash_update_boot: bool) -> (actions: Vec<CapsuleAction>)
    ensures
        actions@ == capsule_actions(flash_update_boot),
{
    let mut actions: Vec<CapsuleAction> = Vec::new();
    if flash_update_boot {
        actions.push(CapsuleAction::DisplayBootLogo);
    }
    actions.push(CapsuleAction::SignalEventGroup(EventGroup::ReadyToProcessCapsules));
    actions
}

/// The capsule processor is signaled exactly once, last, whatever the boot mode; the logo
/// is drawn if and only if the boot is a flash update.
pub proof fn law_capsules_always_signaled(flash_update_boot: bool)
    ensures
        ({
            let actions = capsule_actions(flash_update_boot);
            &&& actions.last() == CapsuleAction::SignalEventGroup(
                EventGroup::ReadyToProcessCapsules,
            )
            &&& forall|i: int|
                0 <= i < actions.len() - 1 ==> #[trigger] actions[i]
                    == CapsuleAction::DisplayBootLogo
            &&& actions.contains(CapsuleAction::DisplayBootLogo) == flash_update_boot
            &&& actions.len() == if flash_update_boot { 2int } else { 1 }
        }),
{
    let actions = capsule_actions(flash_update_boot);
    if flash_update_boot {
        assert(actions[0] == CapsuleAction::DisplayBootLogo);
    }
}

} // verus!
