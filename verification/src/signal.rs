//! The two signals that travel on the control channel.

use vstd::prelude::*;

verus! {

/// Identifier under which [`Signal::Notify`] is fired.
pub const NOTIFY_EVENT: usize = 11;

/// Identifier under which [`Signal::Replace`] is fired.
pub const REPLACE_EVENT: usize = 13;

/// A wake-up sent to the subscriber. It carries no payload.
#[derive(Debug, Clone, Copy, PartialEq, Eq, Hash, Structural)]
pub enum Signal {
    /// New data is available on the data channel.
    Notify,
    /// The current subscriber must vacate the slot.
    Replace,
}

impl Signal {
    /// The identifier reserved for this signal.
    pub open spec fn spec_event_id(self) -> usize {
        match self {
            Signal::Notify => NOTIFY_EVENT,
            Signal::Replace => REPLACE_EVENT,
        }
    }

    /// The signal that an identifier stands for, if it is one of the two
    /// reserved ones.
    pub open spec fn spec_from_event_id(id: usize) -> Option<Signal> {
        if id == NOTIFY_EVENT {
            Some(Signal::Notify)
        } else if id == REPLACE_EVENT {
            Some(Signal::Replace)
        } else {
            None
        }
    }

    /// The identifier reserved for this signal.
    #[verifier::when_used_as_spec(spec_event_id)]
    pub fn event_id(self) -> (id: usize)
        ensures
            id == self.spec_event_id(),
    {
        match self {
            Signal::Notify => NOTIFY_EVENT,
            Signal::Replace => REPLACE_EVENT,
        }
    }

    /// Reads an identifier that fired on the control channel. Identifiers
    /// other than the two reserved ones belong to the application and mean
    /// nothing here.
    #[verifier::when_used_as_spec(spec_from_event_id)]
    pub fn from_event_id(id: usize) -> (signal: Option<Signal>)
        ensures
            signal == Signal::spec_from_event_id(id),
    {
        if id == NOTIFY_EVENT {
            Some(Signal::Notify)
        } else if id == REPLACE_EVENT {
            Some(Signal::Replace)
        } else {
            None
        }
    }
}

/// The two signals never share an identifier, and an identifier read back
/// gives the signal it was reserved for.
pub proof fn lemma_signals_distinct(a: Signal, b: Signal)
    ensures
        a.event_id() == b.event_id() <==> a == b,
        Signal::from_event_id(a.event_id()) == Some(a),
{
}

} // verus!
