//! Identifiers shared by every bounded context. Each one is a 128-bit
//! UUID value (monitor ids are 32-bit OS handles).

use vstd::prelude::*;

verus! {

/// A device (this PC or a remote one).
#[derive(Clone, Copy, Debug, PartialEq, Eq, Hash, Structural)]
pub struct DeviceId(pub u128);

/// A remote peer; it carries the same UUID as the peer's device.
#[derive(Clone, Copy, Debug, PartialEq, Eq, Hash, Structural)]
pub struct PeerId(pub u128);

/// A pairing session or a transport connection.
#[derive(Clone, Copy, Debug, PartialEq, Eq, Hash, Structural)]
pub struct SessionId(pub u128);

/// A workspace.
#[derive(Clone, Copy, Debug, PartialEq, Eq, Hash, Structural)]
pub struct WorkspaceId(pub u128);

/// A workspace invite.
#[derive(Clone, Copy, Debug, PartialEq, Eq, Hash, Structural)]
pub struct InviteId(pub u128);

/// A monitor as enumerated by the operating system.
#[derive(Clone, Copy, Debug, PartialEq, Eq, Hash, Structural)]
pub struct MonitorId(pub u32);

impl DeviceId {
    /// The peer that stands for this device.
    pub fn as_peer(self) -> (p: PeerId)
        ensures
            p.0 == self.0,
    {
        PeerId(self.0)
    }
}

impl PeerId {
    /// The device behind this peer.
    pub fn as_device(self) -> (d: DeviceId)
        ensures
            d.0 == self.0,
    {
        DeviceId(self.0)
    }
}

} // verus!
