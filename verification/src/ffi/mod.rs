//! Plain-value counterparts of what crosses the boundary to the embedded
//! controller and to the companion-device transport.
use vstd::prelude::*;

pub mod smc;
pub mod wrapper;

verus! {

/// Stands for a companion device on the far side of the transport. It has no
/// contents of its own.
#[derive(Copy, Clone, Debug, Default)]
pub struct AMDevice {
    _data: [u8; 0],
}

/// Stands for a running subscription to device notifications. It has no
/// contents of its own.
#[derive(Copy, Clone, Debug, Default)]
pub struct AMDeviceNotification {
    _data: [u8; 0],
}

/// What a device notification announces.
#[derive(Clone, Copy, Debug, PartialEq, Eq, Structural)]
#[non_exhaustive]
pub enum Action {
    /// A device has attached.
    Attached,
    /// A device has detached. It is the device of the matching `Attached`.
    Detached,
    /// The subscription has ended, by request or because the transport
    /// stopped responding.
    NotificationStopped,
    /// A device has been paired.
    Paired,
}

impl Action {
    /// The number that the transport sends for this action.
    pub open spec fn wire_code(self) -> int {
        match self {
            Action::Attached => 1,
            Action::Detached => 2,
            Action::NotificationStopped => 3,
            Action::Paired => 4,
        }
    }

    /// The number that the transport sends for this action.
    pub fn code(self) -> (r: i32)
        ensures
            r == self.wire_code(),
    {
        match self {
            Action::Attached => 1,
            Action::Detached => 2,
            Action::NotificationStopped => 3,
            Action::Paired => 4,
        }
    }

    /// The action that the transport means by `code`, if it is one.
    pub fn from_code(code: i32) -> (r: Option<Action>)
        ensures
            r is Some <==> 1 <= code <= 4,
            r matches Some(a) ==> a.wire_code() == code,
    {
        if code == 1 {
            Some(Action::Attached)
        } else if code == 2 {
            Some(Action::Detached)
        } else if code == 3 {
            Some(Action::NotificationStopped)
        } else if code == 4 {
            Some(Action::Paired)
        } else {
            None
        }
    }
}

/// How a companion device is reached.
#[derive(Copy, Clone, Debug, PartialEq, Eq, Structural, PartialOrd, Ord, Hash)]
pub enum InterfaceType {
    Unknown,
    USB,
    WiFi,
}

impl InterfaceType {
    /// The number that the transport sends for this interface.
    pub open spec fn wire_code(self) -> int {
        match self {
            InterfaceType::Unknown => 0,
            InterfaceType::USB => 1,
            InterfaceType::WiFi => 2,
        }
    }

    /// The number that the transport sends for this interface.
    pub fn code(self) -> (r: i32)
        ensures
            r == self.wire_code(),
    {
        match self {
            InterfaceType::Unknown => 0,
            InterfaceType::USB => 1,
            InterfaceType::WiFi => 2,
        }
    }

    /// The interface that the transport means by `code`; any number it does
    /// not define counts as unknown.
    pub fn from_code(code: i32) -> (r: InterfaceType)
        ensures
            r == (if code == 1 {
                InterfaceType::USB
            } else if code == 2 {
                InterfaceType::WiFi
            } else {
                InterfaceType::Unknown
            }),
    {
        if code == 1 {
            InterfaceType::USB
        } else if code == 2 {
            InterfaceType::WiFi
        } else {
            InterfaceType::Unknown
        }
    }
}

/// Every action and every interface comes back from its own wire code.
pub proof fn lemma_wire_codes_round_trip(a: Action, i: InterfaceType)
    ensures
        1 <= a.wire_code() <= 4,
        0 <= i.wire_code() <= 2,
        forall|b: Action| b.wire_code() == a.wire_code() ==> b == a,
        forall|j: InterfaceType| j.wire_code() == i.wire_code() ==> j == i,
{
}

} // verus!
