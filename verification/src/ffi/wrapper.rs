//! The companion device, its staged preparation and its release.
//!
//! The transport itself is reached from outside the library. What stands here
//! is every decision: which stage comes next, when the preparation has
//! failed and how, and in which order a device is let go.
use crate::ffi::InterfaceType;
use vstd::prelude::*;

verus! {

/// The name of the service over which a device answers diagnostics requests.
pub const DIAGNOSTICS_SERVICE: &'static str = "com.apple.mobile.diagnostics_relay";

/// An open service channel of a device, by its handle.
#[derive(Debug, Clone, Copy, PartialEq, Eq, Structural)]
pub struct ServiceConnection(pub usize);

/// A companion device: the handle by which the transport knows it, its
/// unique identifier, and how it is reached.
#[derive(Debug, PartialEq, Eq, PartialOrd, Ord, Hash)]
pub struct Device {
    pub device: usize,
    pub udid: String,
    pub interface_type: InterfaceType,
}

impl Device {
    /// Whether two values stand for the same device: the same handle, the
    /// same identifier, the same interface.
    pub open spec fn same(self, other: Device) -> bool {
        &&& self.device == other.device
        &&& self.udid@ == other.udid@
        &&& self.interface_type == other.interface_type
    }

    /// A device as a notification announces it.
    pub fn new(device: usize, udid: String, interface_type: InterfaceType) -> (r: Device)
        ensures
            r.device == device,
            r.udid == udid,
            r.interface_type == interface_type,
    {
        Device { device, udid, interface_type }
    }

    /// Whether two values stand for the same device.
    pub fn is_same(&self, other: &Device) -> (r: bool)
        ensures
            r == self.same(*other),
    {
        self.device == other.device && self.udid == other.udid && self.interface_type
            == other.interface_type
    }

    /// Records how the device is reached, as the transport has just
    /// reported it, and hands the interface back.
    pub fn interface_type(&mut self, reported: InterfaceType) -> (r: InterfaceType)
        ensures
            r == reported,
            final(self).interface_type == reported,
            final(self).device == old(self).device,
            final(self).udid == old(self).udid,
    {
        self.interface_type = reported;
        reported
    }
}

impl Clone for Device {
    fn clone(&self) -> (r: Self)
        ensures
            r == *self,
    {
        Device {
            device: self.device,
            udid: self.udid.clone(),
            interface_type: self.interface_type,
        }
    }
}

/// Why the preparation of a device failed: the stage, and the status that
/// the transport gave.
#[derive(Debug, Clone, Copy, PartialEq, Eq, Structural)]
pub enum DeviceError {
    Connect(i32),
    Pair(i32),
    Validate(i32),
    Session(i32),
}

/// Why the diagnostics service of a prepared device could not be opened: the
/// status that the transport gave.
#[derive(Debug, Clone, Copy, PartialEq, Eq, Structural)]
pub struct ServiceError(pub i32);

/// One call to the transport during the preparation of a device.
#[derive(Debug, Clone, Copy, PartialEq, Eq, Structural)]
pub enum PrepareStage {
    Connect,
    IsPaired,
    Pair,
    ValidatePairing,
    StartSession,
}

/// What to do next in the preparation of a device.
#[derive(Debug, Clone, Copy, PartialEq, Eq, Structural)]
pub enum PrepareStep {
    /// Make this call and come back with its status.
    Call(PrepareStage),
    /// The device is connected, paired and in session.
    Ready,
    /// The preparation is over. No later stage is tried.
    Failed(DeviceError),
}

/// The status with which the transport says that a device is paired.
pub const PAIRED: i32 = 1;

impl PrepareStage {
    /// The step that follows this call once its status is known. A status
    /// other than zero fails the stage, except that the pairing query only
    /// decides whether pairing is still to be done.
    pub open spec fn followed_by(self, status: i32) -> PrepareStep {
        match self {
            PrepareStage::Connect => if status == 0 {
                PrepareStep::Call(PrepareStage::IsPaired)
            } else {
                PrepareStep::Failed(DeviceError::Connect(status))
            },
            PrepareStage::IsPaired => if status == PAIRED {
                PrepareStep::Call(PrepareStage::ValidatePairing)
            } else {
                PrepareStep::Call(PrepareStage::Pair)
            },
            PrepareStage::Pair => if status == 0 {
                PrepareStep::Call(PrepareStage::ValidatePairing)
            } else {
                PrepareStep::Failed(DeviceError::Pair(status))
            },
            PrepareStage::ValidatePairing => if status == 0 {
                PrepareStep::Call(PrepareStage::StartSession)
            } else {
                PrepareStep::Failed(DeviceError::Validate(status))
            },
            PrepareStage::StartSession => if status == 0 {
                PrepareStep::Ready
            } else {
                PrepareStep::Failed(DeviceError::Session(status))
            },
        }
    }

    /// The step that follows this call once its status is known.
    pub fn next(self, status: i32) -> (r: PrepareStep)
        ensures
            r == self.followed_by(status),
    {
        match self {
            PrepareStage::Connect => if status == 0 {
                PrepareStep::Call(PrepareStage::IsPaired)
            } else {
                PrepareStep::Failed(DeviceError::Connect(status))
            },
            PrepareStage::IsPaired => if status == PAIRED {
                PrepareStep::Call(PrepareStage::ValidatePairing)
            } else {
                PrepareStep::Call(PrepareStage::Pair)
            },
            PrepareStage::Pair => if status == 0 {
                PrepareStep::Call(PrepareStage::ValidatePairing)
            } else {
                PrepareStep::Failed(DeviceError::Pair(status))
            },
            PrepareStage::ValidatePairing => if status == 0 {
                PrepareStep::Call(PrepareStage::StartSession)
            } else {
                PrepareStep::Failed(DeviceError::Validate(status))
            },
            PrepareStage::StartSession => if status == 0 {
                PrepareStep::Ready
            } else {
                PrepareStep::Failed(DeviceError::Session(status))
            },
        }
    }
}

/// The first step of the preparation of a device: to connect.
pub fn prepare_device() -> (r: PrepareStep)
    ensures
        r == PrepareStep::Call(PrepareStage::Connect),
{
    PrepareStep::Call(PrepareStage::Connect)
}

/// What the opening of the diagnostics service came to: the channel, or a
/// typed error that the caller can report for this device alone.
pub fn start_service(status: i32, channel: usize) -> (r: Result<ServiceConnection, ServiceError>)
    ensures
        r == (if status == 0 {
            Ok::<ServiceConnection, ServiceError>(ServiceConnection(channel))
        } else {
            Err::<ServiceConnection, ServiceError>(ServiceError(status))
        }),
{
    if status == 0 {
        Ok(ServiceConnection(channel))
    } else {
        Err(ServiceError(status))
    }
}

/// A whole preparation against a device that answers each call in a fixed
/// way: the calls that were made, in order, and how it ended.
pub struct Preparation {
    pub calls: Seq<PrepareStage>,
    pub end: PrepareStep,
}

/// The preparation run from `step` to its end, `budget` calls at most.
pub open spec fn prepare_from(step: PrepareStep, answers: spec_fn(PrepareStage) -> i32, budget: nat) -> Preparation
    decreases budget,
{
    match step {
        PrepareStep::Call(stage) => if budget == 0 {
            Preparation { calls: Seq::empty(), end: step }
        } else {
            let rest = prepare_from(stage.followed_by(answers(stage)), answers, (budget - 1) as nat);
            Preparation { calls: seq![stage] + rest.calls, end: rest.end }
        },
        _ => Preparation { calls: Seq::empty(), end: step },
    }
}

/// The preparation run from its first step to its end. It makes five calls
/// at most.
pub open spec fn prepare_run(answers: spec_fn(PrepareStage) -> i32) -> Preparation {
    prepare_from(PrepareStep::Call(PrepareStage::Connect), answers, 5)
}

/// How the preparation of a device ends, said outright: it connects; where
/// the device is not paired yet, it pairs; it validates the pairing; it
/// starts a session. The first stage that fails gives the error.
pub open spec fn prepare_outcome(answers: spec_fn(PrepareStage) -> i32) -> Result<(), DeviceError> {
    if answers(PrepareStage::Connect) != 0 {
        Err(DeviceError::Connect(answers(PrepareStage::Connect)))
    } else if answers(PrepareStage::IsPaired) != PAIRED && answers(PrepareStage::Pair) != 0 {
        Err(DeviceError::Pair(answers(PrepareStage::Pair)))
    } else if answers(PrepareStage::ValidatePairing) != 0 {
        Err(DeviceError::Validate(answers(PrepareStage::ValidatePairing)))
    } else if answers(PrepareStage::StartSession) != 0 {
        Err(DeviceError::Session(answers(PrepareStage::StartSession)))
    } else {
        Ok(())
    }
}

/// The calls that the preparation makes, said outright: each stage in order
/// up to the first that fails, the pairing only where the device is not
/// paired.
pub open spec fn prepare_calls(answers: spec_fn(PrepareStage) -> i32) -> Seq<PrepareStage> {
    let pairing = if answers(PrepareStage::IsPaired) == PAIRED {
        seq![PrepareStage::IsPaired]
    } else {
        seq![PrepareStage::IsPaired, PrepareStage::Pair]
    };
    if answers(PrepareStage::Connect) != 0 {
        seq![PrepareStage::Connect]
    } else if answers(PrepareStage::IsPaired) != PAIRED && answers(PrepareStage::Pair) != 0 {
        seq![PrepareStage::Connect] + pairing
    } else if answers(PrepareStage::ValidatePairing) != 0 {
        seq![PrepareStage::Connect] + pairing + seq![PrepareStage::ValidatePairing]
    } else {
        seq![PrepareStage::Connect] + pairing + seq![
            PrepareStage::ValidatePairing,
            PrepareStage::StartSession,
        ]
    }
}

/// Stepping through the preparation comes to the outcome and makes the
/// calls that are said outright: it ends within five calls, ready exactly
/// when no stage failed, and with the error of the first stage that did,
/// after which no call is made.
pub proof fn lemma_prepare_run(answers: spec_fn(PrepareStage) -> i32)
    ensures
        prepare_run(answers).calls == prepare_calls(answers),
        prepare_run(answers).end == (match prepare_outcome(answers) {
            Ok(_) => PrepareStep::Ready,
            Err(e) => PrepareStep::Failed(e),
        }),
        !(prepare_run(answers).end is Call),
{
    reveal_with_fuel(prepare_from, 6);
    assert(prepare_run(answers).calls =~= prepare_calls(answers));
}

/// One call to the transport while a device is let go.
#[derive(Debug, Clone, Copy, PartialEq, Eq, Structural)]
pub enum ReleaseStep {
    /// Close the service channel with this handle.
    CloseService(usize),
    /// End the session of the device with this handle.
    StopSession(usize),
    /// Disconnect the device with this handle.
    Disconnect(usize),
}

/// The calls that let a device go, in order: its channel is closed first,
/// where it has one; then its session ends; then it is disconnected.
pub open spec fn release_steps(device: usize, channel: Option<ServiceConnection>) -> Seq<ReleaseStep> {
    let tail = seq![ReleaseStep::StopSession(device), ReleaseStep::Disconnect(device)];
    match channel {
        Some(c) => seq![ReleaseStep::CloseService(c.0)] + tail,
        None => tail,
    }
}

/// The calls that let a device go, in order. Each is to be made whatever
/// the one before it returned.
pub fn release(device: &Device, channel: Option<ServiceConnection>) -> (r: Vec<ReleaseStep>)
    ensures
        r@ == release_steps(device.device, channel),
{
    let mut steps: Vec<ReleaseStep> = Vec::new();
    match channel {
        Some(c) => {
            steps.push(ReleaseStep::CloseService(c.0));
        },
        None => {},
    }
    steps.push(ReleaseStep::StopSession(device.device));
    steps.push(ReleaseStep::Disconnect(device.device));
    assert(steps@ =~= release_steps(device.device, channel));
    steps
}

} // verus!
