//! The single record of which layout is active, and the decisions around a
//! switch request: whether to call the layout service at all, what its reply
//! means, and when to stop waiting for confirmation. The caller makes the
//! service calls and serialises requests.
use vstd::prelude::*;

verus! {

/// How long to wait for the service to report the new layout.
pub const CONFIRM_TIMEOUT_MICROS: u64 = 50_000;

/// Pause between two confirmation polls.
pub const CONFIRM_POLL_MICROS: u64 = 100;

/// What a switch request needs.
#[derive(Clone, Copy, PartialEq, Eq, Structural, Debug)]
pub enum SwitchAction {
    /// The target is already active: no service call.
    AlreadyActive,
    /// Ask the service to apply this layout.
    SetLayout(u32),
}

/// The layout service's answer to a set-layout call.
#[derive(Clone, Copy, PartialEq, Eq, Structural, Debug)]
pub enum SetReply {
    Accepted,
    Refused,
    Unreachable,
}

/// Why a switch failed.
#[derive(Clone, Copy, PartialEq, Eq, Structural, Debug)]
pub enum SwitchError {
    /// The service answered that it did not apply the layout.
    Refused,
    /// The service could not be asked.
    Unreachable,
}

/// How an accepted switch goes on.
#[derive(Clone, Copy, PartialEq, Eq, Structural, Debug)]
pub enum SetOutcome {
    /// Done: the target is recorded as active.
    Applied,
    /// Poll the service until it reports the target or time runs out.
    AwaitConfirmation,
}

/// The result of one confirmation poll.
#[derive(Clone, Copy, PartialEq, Eq, Structural, Debug)]
pub enum ConfirmStep {
    /// The service reports the target: recorded as active.
    Confirmed,
    /// Not yet: pause and poll again.
    PollAgain,
    /// Time is up: the target is recorded as active anyway.
    TimedOut,
}

/// A request for `target` while `current` is active calls the service.
pub open spec fn needs_call(current: u32, target: u32) -> bool {
    current != target
}

/// The set-layout calls that one switch request makes.
pub open spec fn service_calls(current: u32, target: u32) -> nat {
    if needs_call(current, target) { 1 } else { 0 }
}

/// The active layout once a switch request has finished, given the
/// service's reply to the set-layout call (if one was made). Confirmation,
/// whether it arrives or times out, records the target.
pub open spec fn layout_after_switch(current: u32, target: u32, reply: SetReply) -> u32 {
    if needs_call(current, target) && reply == SetReply::Accepted {
        target
    } else {
        current
    }
}

/// The shared record of the active layout.
pub struct LayoutCoordinator {
    current: u32,
}

impl LayoutCoordinator {
    /// The layout believed active.
    pub closed spec fn spec_current(&self) -> u32 {
        self.current
    }

    /// Starts from the layout the service reported, or 0 when it could not
    /// be asked.
    pub fn new(queried: Option<u32>) -> (r: LayoutCoordinator)
        ensures
            r.spec_current() == (match queried {
                Some(v) => v,
                None => 0u32,
            }),
    {
        match queried {
            Some(v) => LayoutCoordinator { current: v },
            None => LayoutCoordinator { current: 0 },
        }
    }

    /// The layout believed active.
    pub fn current(&self) -> (r: u32)
        ensures
            r == self.spec_current(),
    {
        self.current
    }

    /// Whether a request for `target` needs a service call.
    pub fn begin_switch(&self, target: u32) -> (r: SwitchAction)
        ensures
            r == (if needs_call(self.spec_current(), target) {
                SwitchAction::SetLayout(target)
            } else {
                SwitchAction::AlreadyActive
            }),
    {
        if self.current == target {
            SwitchAction::AlreadyActive
        } else {
            SwitchAction::SetLayout(target)
        }
    }

    /// Takes in the service's reply to `set_layout(target)`. A refusal or an
    /// unreachable service is an error and leaves the record alone. An
    /// acceptance records the target at once, or, when `confirm` is asked
    /// for, after confirmation polling.
    pub fn finish_set(&mut self, target: u32, reply: SetReply, confirm: bool) -> (r: Result<SetOutcome, SwitchError>)
        ensures
            reply == SetReply::Refused ==> r == Err::<SetOutcome, SwitchError>(SwitchError::Refused)
                && final(self).spec_current() == old(self).spec_current(),
            reply == SetReply::Unreachable ==> r == Err::<SetOutcome, SwitchError>(SwitchError::Unreachable)
                && final(self).spec_current() == old(self).spec_current(),
            reply == SetReply::Accepted && !confirm ==> r == Ok::<SetOutcome, SwitchError>(SetOutcome::Applied)
                && final(self).spec_current() == target,
            reply == SetReply::Accepted && confirm ==> r == Ok::<SetOutcome, SwitchError>(SetOutcome::AwaitConfirmation)
                && final(self).spec_current() == old(self).spec_current(),
            !confirm ==> final(self).spec_current() == layout_after_switch(old(self).spec_current(), target, reply),
    {
        match reply {
            SetReply::Refused => Err(SwitchError::Refused),
            SetReply::Unreachable => Err(SwitchError::Unreachable),
            SetReply::Accepted => {
                if confirm {
                    Ok(SetOutcome::AwaitConfirmation)
                } else {
                    self.current = target;
                    Ok(SetOutcome::Applied)
                }
            },
        }
    }

    /// Takes in one confirmation poll, `elapsed_micros` after the set-layout
    /// call: the layout the service reported, if it answered. The target is
    /// recorded once it is reported or once the timeout has passed.
    pub fn confirm_poll(&mut self, target: u32, reported: Option<u32>, elapsed_micros: u64) -> (r: ConfirmStep)
        ensures
            reported == Some(target) ==> r == ConfirmStep::Confirmed,
            reported != Some(target) && elapsed_micros >= CONFIRM_TIMEOUT_MICROS ==> r == ConfirmStep::TimedOut,
            reported != Some(target) && elapsed_micros < CONFIRM_TIMEOUT_MICROS ==> r == ConfirmStep::PollAgain,
            r == ConfirmStep::PollAgain ==> final(self).spec_current() == old(self).spec_current(),
            r != ConfirmStep::PollAgain ==> final(self).spec_current() == target,
            r != ConfirmStep::PollAgain ==> final(self).spec_current() == layout_after_switch(
                old(self).spec_current(),
                target,
                SetReply::Accepted,
            ),
    {
        let confirmed = match reported {
            Some(v) => v == target,
            None => false,
        };
        if confirmed {
            self.current = target;
            ConfirmStep::Confirmed
        } else if elapsed_micros >= CONFIRM_TIMEOUT_MICROS {
            self.current = target;
            ConfirmStep::TimedOut
        } else {
            ConfirmStep::PollAgain
        }
    }
}

/// Requesting the same layout twice in a row makes at most one set-layout
/// call when the service accepts the first: the first request records the
/// target, so the second needs no call.
pub proof fn lemma_repeat_switch_calls_once(current: u32, target: u32)
    ensures
        service_calls(current, target) + service_calls(
            layout_after_switch(current, target, SetReply::Accepted),
            target,
        ) <= 1,
        !needs_call(layout_after_switch(current, target, SetReply::Accepted), target),
{
}

/// A refused or unreachable set-layout call leaves the active layout as it
/// was.
pub proof fn lemma_failed_switch_keeps_layout(current: u32, target: u32, reply: SetReply)
    requires
        reply != SetReply::Accepted,
    ensures
        layout_after_switch(current, target, reply) == current,
{
}

} // verus!
