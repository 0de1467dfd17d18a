//! Which names the transport takes for a node and for a channel.

use iceoryx2::node::node_name::NodeName;
use iceoryx2::service::service_name::ServiceName;
use vstd::prelude::*;
use vstd::string::StringSliceAdditionalSpecFns;

verus! {

/// Longest node name, in bytes.
pub const MAX_NODE_NAME_LENGTH: usize = 128;

/// Longest channel name, in bytes.
pub const MAX_SERVICE_NAME_LENGTH: usize = 255;

/// Text that the transport can store: every byte is ASCII and none is zero.
pub open spec fn transport_text(bytes: Seq<u8>) -> bool {
    forall|i: int| 0 <= i < bytes.len() ==> 1 <= #[trigger] bytes[i] <= 127
}

/// The bytes of `iox2://`, the prefix that the transport keeps for its own
/// channels.
pub open spec fn reserved_prefix() -> Seq<u8> {
    seq![0x69u8, 0x6fu8, 0x78u8, 0x32u8, 0x3au8, 0x2fu8, 0x2fu8]
}

/// Whether the bytes begin with the reserved prefix.
pub open spec fn has_reserved_prefix(bytes: Seq<u8>) -> bool {
    bytes.len() >= 7 && bytes.subrange(0, 7) == reserved_prefix()
}

/// A node name is any transport text of at most 128 bytes, the empty one
/// included.
pub open spec fn valid_node_name(bytes: Seq<u8>) -> bool {
    bytes.len() <= MAX_NODE_NAME_LENGTH && transport_text(bytes)
}

/// A channel name is a transport text of 1 to 255 bytes that does not begin
/// with the reserved prefix.
pub open spec fn valid_service_name(bytes: Seq<u8>) -> bool {
    &&& 0 < bytes.len() <= MAX_SERVICE_NAME_LENGTH
    &&& !has_reserved_prefix(bytes)
    &&& transport_text(bytes)
}

/// `NodeName::new` of the transport: it takes a name exactly when the name
/// has at most 128 bytes, all of them ASCII and none zero.
#[verifier::external_body]
fn node_name_accepted(name: &str) -> (accepted: bool)
    ensures
        accepted == valid_node_name(name.spec_bytes()),
{
    NodeName::new(name).is_ok()
}

/// `ServiceName::new` of the transport: it takes a name exactly when the name
/// is not empty, does not begin with `iox2://`, and has at most 255 bytes,
/// all of them ASCII and none zero.
#[verifier::external_body]
fn service_name_accepted(name: &str) -> (accepted: bool)
    ensures
        accepted == valid_service_name(name.spec_bytes()),
{
    ServiceName::new(name).is_ok()
}

/// Which of the two names is at fault, if any; the node name is looked at
/// first.
#[derive(Debug, Clone, Copy, PartialEq, Eq, Structural)]
pub enum NameError {
    /// The transport does not take the node name.
    InvalidNodeName,
    /// The transport does not take the channel name.
    InvalidServiceName,
}

/// What the check of the two names gives.
pub open spec fn names_checked(node_name: Seq<u8>, service_name: Seq<u8>) -> Result<
    (),
    NameError,
> {
    if !valid_node_name(node_name) {
        Err(NameError::InvalidNodeName)
    } else if !valid_service_name(service_name) {
        Err(NameError::InvalidServiceName)
    } else {
        Ok(())
    }
}

/// Checks the names of the node and of the channel before anything is
/// created under them.
pub fn check_names(node_name: &str, service_name: &str) -> (r: Result<(), NameError>)
    ensures
        r == names_checked(node_name.spec_bytes(), service_name.spec_bytes()),
{
    if !node_name_accepted(node_name) {
        Err(NameError::InvalidNodeName)
    } else if !service_name_accepted(service_name) {
        Err(NameError::InvalidServiceName)
    } else {
        Ok(())
    }
}

} // verus!
