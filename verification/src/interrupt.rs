//! The channel on which the process of a command is interrupted.

use tokio::sync::mpsc::{UnboundedReceiver, UnboundedSender};
use vstd::prelude::*;

verus! {

/// The sending half of a tokio channel. A value of it says which half it is, not what
/// was sent through it.
#[verifier::external_type_specification]
#[verifier::external_body]
#[verifier::reject_recursive_types(T)]
pub struct ExUnboundedSender<T>(UnboundedSender<T>);

/// The receiving half of a tokio channel. A value of it says which half it is, not what
/// it holds.
#[verifier::external_type_specification]
#[verifier::external_body]
#[verifier::reject_recursive_types(T)]
pub struct ExUnboundedReceiver<T>(UnboundedReceiver<T>);

/// The two halves belong to one channel: what is sent through the one comes out of the
/// other.
pub uninterp spec fn linked(sender: UnboundedSender<()>, receiver: UnboundedReceiver<()>) -> bool;

/// Calls `tokio::sync::mpsc::unbounded_channel`: the two halves that come back belong
/// to one channel.
#[verifier::external_body]
pub(crate) fn interrupt_channel() -> (halves: (UnboundedSender<()>, UnboundedReceiver<()>))
    ensures
        linked(halves.0, halves.1),
{
    tokio::sync::mpsc::unbounded_channel()
}

/// The sending half of a command's channel, with a count of the interrupts that were
/// sent through it.
pub struct InterruptSender {
    half: UnboundedSender<()>,
    sent: Ghost<nat>,
}

impl InterruptSender {
    /// The half through which the interrupts go.
    pub closed spec fn half(&self) -> UnboundedSender<()> {
        self.half
    }

    /// How many interrupts were sent.
    pub closed spec fn sent(&self) -> nat {
        self.sent@
    }

    /// A sender through which no interrupt was sent yet.
    pub fn new(half: UnboundedSender<()>) -> (sender: Self)
        ensures
            sender.half() == half,
            sender.sent() == 0,
    {
        InterruptSender { half: half, sent: Ghost(0) }
    }

    /// Calls `UnboundedSender::send` once, with the unit message, and tells whether the
    /// channel took it. The message goes through this half and is counted whatever the
    /// answer. The channel takes it as long as the receiving half stands open, which no
    /// value here shows: nothing is promised of the answer.
    #[verifier::external_body]
    pub(crate) fn send_unit(&mut self) -> (taken: bool)
        ensures
            final(self).half() == old(self).half(),
            final(self).sent() == old(self).sent() + 1,
    {
        self.half.send(()).is_ok()
    }
}

} // verus!
