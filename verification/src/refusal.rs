//! How the refusals of the transport are read: which of them mean that the
//! subscriber slot is taken, and which that the channel exists with another
//! shape than the one asked for.

use crate::coordinator::Reply;
use vstd::prelude::*;

verus! {

/// Why the transport could not open a data channel that exists.
#[derive(Debug, Clone, Copy, PartialEq, Eq, Structural)]
pub enum OpenRefusal {
    /// An interrupt signal was received.
    Interrupt,
    /// The channel does not exist.
    DoesNotExist,
    /// An implementation issue or a wrongly configured system.
    InternalFailure,
    /// The channel has another payload type.
    IncompatibleTypes,
    /// The channel has another messaging pattern.
    IncompatibleMessagingPattern,
    /// The channel does not have the attributes asked for.
    IncompatibleAttributes,
    /// The channel has a smaller buffer than asked for.
    DoesNotSupportRequestedMinBufferSize,
    /// The channel has a shorter history than asked for.
    DoesNotSupportRequestedMinHistorySize,
    /// The channel lets subscribers borrow fewer samples than asked for.
    DoesNotSupportRequestedMinSubscriberBorrowedSamples,
    /// The channel supports fewer publishers than asked for.
    DoesNotSupportRequestedAmountOfPublishers,
    /// The channel supports fewer subscribers than asked for.
    DoesNotSupportRequestedAmountOfSubscribers,
    /// The channel supports fewer nodes than asked for.
    DoesNotSupportRequestedAmountOfNodes,
    /// The channel treats overflow in another way.
    IncompatibleOverflowBehavior,
    /// The process may not open the channel.
    InsufficientPermissions,
    /// Resources of the channel are missing, corrupted or inaccessible.
    ServiceInCorruptedState,
    /// The channel was never finished by the process that began to create it.
    HangsInCreation,
    /// As many nodes as the channel supports have opened it already.
    ExceedsMaxNumberOfNodes,
    /// The channel is being torn down.
    IsMarkedForDestruction,
    /// The tag that tracks the channel for its node could not be created.
    UnableToCreateServiceTag,
    /// The channel was made by another version of the transport.
    VersionMismatch,
    /// The type definition of the payload could not be found.
    UnableToAcquireTypeDefinition,
    /// The type definition of the payload has the wrong format.
    InvalidTypeDefinition,
}

/// Why the transport could not open or create a data channel.
#[derive(Debug, Clone, Copy, PartialEq, Eq, Structural)]
pub enum DataChannelRefusal {
    /// The channel exists and could not be opened.
    Open(OpenRefusal),
    /// The channel does not exist and could not be created.
    Create,
    /// Another process creates and removes the channel over and over.
    SystemInFlux,
}

/// Why the transport could not create a subscriber.
#[derive(Debug, Clone, Copy, PartialEq, Eq, Structural)]
pub enum SubscriberRefusal {
    /// The channel has as many subscribers as it supports.
    ExceedsMaxSupportedSubscribers,
    /// The subscriber asks for a larger buffer than the channel offers.
    BufferSizeExceedsMaxSupportedBufferSizeOfService,
    /// The thread-safety policy of the channel could not be set up.
    FailedToDeployThreadsafetyPolicy,
    /// The tag that tracks the port could not be created.
    UnableToCreatePortTag,
    /// The subscriber asks for a longer history than the channel offers.
    HistoryRequestExceedsHistorySizeOfService,
    /// The subscriber asks for a longer history than its buffer holds.
    HistoryRequestExceedsBufferSizeOfSubscriber,
    /// No identity could be made for the subscriber.
    UnableToGenerateUniqueSubscriberId,
}

/// Whether a refusal says that the channel exists, but not in the shape that
/// was asked for: with another payload, pattern, set of attributes or
/// overflow behaviour, or with smaller limits.
pub open spec fn is_shape_mismatch(refusal: OpenRefusal) -> bool {
    match refusal {
        OpenRefusal::IncompatibleTypes => true,
        OpenRefusal::IncompatibleMessagingPattern => true,
        OpenRefusal::IncompatibleAttributes => true,
        OpenRefusal::IncompatibleOverflowBehavior => true,
        OpenRefusal::DoesNotSupportRequestedMinBufferSize => true,
        OpenRefusal::DoesNotSupportRequestedMinHistorySize => true,
        OpenRefusal::DoesNotSupportRequestedMinSubscriberBorrowedSamples => true,
        OpenRefusal::DoesNotSupportRequestedAmountOfPublishers => true,
        OpenRefusal::DoesNotSupportRequestedAmountOfSubscribers => true,
        OpenRefusal::DoesNotSupportRequestedAmountOfNodes => true,
        _ => false,
    }
}

/// The answer that a refused data channel stands for.
pub open spec fn data_channel_reply(refusal: DataChannelRefusal) -> Reply {
    match refusal {
        DataChannelRefusal::Open(open) => if is_shape_mismatch(open) {
            Reply::ShapeMismatch
        } else {
            Reply::Failed
        },
        _ => Reply::Failed,
    }
}

/// The answer that a refused subscriber stands for.
pub open spec fn subscriber_reply(refusal: SubscriberRefusal) -> Reply {
    if refusal == SubscriberRefusal::ExceedsMaxSupportedSubscribers {
        Reply::SlotOccupied
    } else {
        Reply::Failed
    }
}

/// Reads the refusal of a data channel: a channel of another shape is told
/// apart from every other failure, since no sweep for stale resources mends
/// it.
pub fn reply_to_data_channel(refusal: DataChannelRefusal) -> (reply: Reply)
    ensures
        reply == data_channel_reply(refusal),
{
    match refusal {
        DataChannelRefusal::Open(
            OpenRefusal::IncompatibleTypes
            | OpenRefusal::IncompatibleMessagingPattern
            | OpenRefusal::IncompatibleAttributes
            | OpenRefusal::IncompatibleOverflowBehavior
            | OpenRefusal::DoesNotSupportRequestedMinBufferSize
            | OpenRefusal::DoesNotSupportRequestedMinHistorySize
            | OpenRefusal::DoesNotSupportRequestedMinSubscriberBorrowedSamples
            | OpenRefusal::DoesNotSupportRequestedAmountOfPublishers
            | OpenRefusal::DoesNotSupportRequestedAmountOfSubscribers
            | OpenRefusal::DoesNotSupportRequestedAmountOfNodes,
        ) => Reply::ShapeMismatch,
        _ => Reply::Failed,
    }
}

/// Reads the refusal of a subscriber: a full channel means that the one slot
/// is taken, anything else is a failure.
pub fn reply_to_subscriber(refusal: SubscriberRefusal) -> (reply: Reply)
    ensures
        reply == subscriber_reply(refusal),
{
    match refusal {
        SubscriberRefusal::ExceedsMaxSupportedSubscribers => Reply::SlotOccupied,
        _ => Reply::Failed,
    }
}

} // verus!
