//! The single-slot key handoff: at most one pending keypress, latest wins.
//!
//! The key listener never queues keys: before forwarding a fresh keypress it
//! drains whatever older key is still unread, so the slot only ever holds the
//! most recent unconsumed key. [`KeyChannel`] owns both endpoints of a
//! capacity-1 channel; [`KeyChannel::offer`] is the listener's forwarding
//! step and [`KeyChannel::take`] the consumer's non-blocking poll.

use crossbeam_channel::{bounded, Receiver, Sender};
use vstd::prelude::*;

use crate::driver::KeyInput;

verus! {

/// The sending endpoint of a crossbeam channel, declared so that it can sit
/// in a field.
#[verifier::external_type_specification]
#[verifier::external_body]
#[verifier::reject_recursive_types(T)]
pub struct ExSender<T>(Sender<T>);

/// The receiving endpoint of a crossbeam channel, declared so that it can
/// sit in a field.
#[verifier::external_type_specification]
#[verifier::external_body]
#[verifier::reject_recursive_types(T)]
pub struct ExReceiver<T>(Receiver<T>);

/// Both endpoints of a capacity-1 key channel, owned together so that the
/// channel can never be disconnected while in use.
pub struct KeyChannel {
    sender: Sender<KeyInput>,
    receiver: Receiver<KeyInput>,
}

/// What the channel's one slot holds: the empty sequence, or the single
/// pending key.
pub uninterp spec fn pending(ch: KeyChannel) -> Seq<KeyInput>;

impl KeyChannel {
    /// Relies on `crossbeam_channel::bounded(1)`: a fresh bounded channel is
    /// empty.
    #[verifier::external_body]
    pub fn new() -> (r: KeyChannel)
        ensures
            pending(r).len() == 0,
    {
        let (sender, receiver) = bounded(1);
        KeyChannel { sender, receiver }
    }

    /// Relies on `crossbeam_channel::Receiver::try_recv`: it returns the
    /// pending message if there is one and an `Empty` error otherwise,
    /// leaving the capacity-1 channel empty either way. `Disconnected`
    /// cannot occur: this value owns the only sender.
    #[verifier::external_body]
    fn try_take(&mut self) -> (r: Option<KeyInput>)
        ensures
            pending(*final(self)).len() == 0,
            pending(*old(self)).len() == 1 ==> r == Some(pending(*old(self))[0]),
            pending(*old(self)).len() == 0 ==> r is None,
    {
        match self.receiver.try_recv() {
            Ok(key) => Some(key),
            Err(_) => None,
        }
    }

    /// Relies on `crossbeam_channel::Sender::try_send`: on a channel with a
    /// free slot it delivers the message. `Full` is ruled out by the
    /// precondition and `Disconnected` cannot occur: this value owns the
    /// only receiver.
    #[verifier::external_body]
    fn try_put(&mut self, key: KeyInput)
        requires
            pending(*old(self)).len() == 0,
        ensures
            pending(*final(self)) == seq![key],
    {
        let _ = self.sender.try_send(key);
    }

    /// The listener's forwarding step: drops whatever older key is still
    /// unread and leaves exactly `key` pending — the latest key wins,
    /// whatever was pending before.
    pub fn offer(&mut self, key: KeyInput)
        ensures
            pending(*final(self)) == seq![key],
    {
        let _ = self.try_take();
        self.try_put(key);
    }

    /// The consumer's non-blocking poll: removes and returns the pending
    /// key, if any.
    pub fn take(&mut self) -> (r: Option<KeyInput>)
        ensures
            pending(*final(self)).len() == 0,
            pending(*old(self)).len() == 1 ==> r == Some(pending(*old(self))[0]),
            pending(*old(self)).len() == 0 ==> r is None,
    {
        self.try_take()
    }
}

} // verus!
