//! The companion devices that are in session, and what each notification,
//! each finished preparation and each tick asks for.
//!
//! One owner holds the table. A notification never touches it directly: it
//! becomes a message, and the owner answers each message with the calls to
//! make.
use crate::de::IORegistry;
use crate::event::DeviceEvent;
use crate::ffi::wrapper::{
    release_steps, Device, DeviceError, ReleaseStep, ServiceConnection, ServiceError,
};
use crate::ffi::{Action, InterfaceType};
use crate::provider::remote::DeviceDataError;
use crate::provider::NormalizedResource;
use vstd::prelude::*;

verus! {

/// A notification of the transport: the device and what happened to it.
#[derive(Debug, PartialEq, Eq)]
pub struct DeviceMessage {
    pub device: Device,
    pub action: Action,
}

/// The metrics of a companion device at one moment.
#[derive(Debug, PartialEq, Eq)]
pub struct DevicePowerTickEvent {
    pub udid: String,
    pub data: NormalizedResource,
}

/// A device in session and its open diagnostics channel.
#[derive(Debug, PartialEq, Eq)]
pub struct ActiveDevice {
    pub device: Device,
    pub channel: ServiceConnection,
}

impl Clone for ActiveDevice {
    fn clone(&self) -> (r: Self)
        ensures
            r == *self,
    {
        ActiveDevice { device: self.device.clone(), channel: self.channel }
    }
}

/// Why a device that attached was not taken into the table.
#[derive(Debug, Clone, Copy, PartialEq, Eq, Structural)]
pub enum AttachError {
    /// A stage of the preparation failed.
    Prepare(DeviceError),
    /// The diagnostics service could not be opened.
    Service(ServiceError),
}

/// A call that the owner of the table asks for.
#[derive(Debug, PartialEq, Eq)]
pub enum DeviceCommand {
    /// Prepare this device and open its diagnostics service, then report
    /// how that went.
    Prepare(Device),
    /// Tell the consumers.
    Emit(DeviceEvent),
    /// Tell the log that this device could not be taken in.
    Report(String, AttachError),
    /// Make this call to the transport, whatever the one before returned.
    Release(ReleaseStep),
}

/// A diagnostics request that is due: the device's identifier and the
/// channel to send it on.
#[derive(Debug, PartialEq, Eq)]
pub struct PollRequest {
    pub udid: String,
    pub channel: ServiceConnection,
}

/// The devices of a sequence that are not `device`, in their order.
pub open spec fn devices_without(devices: Seq<Device>, device: Device) -> Seq<Device>
    decreases devices.len(),
{
    if devices.len() == 0 {
        devices
    } else if devices.last().same(device) {
        devices_without(devices.drop_last(), device)
    } else {
        devices_without(devices.drop_last(), device).push(devices.last())
    }
}

/// The entries of a table that are not for `device`, in their order.
pub open spec fn entries_without(entries: Seq<ActiveDevice>, device: Device) -> Seq<ActiveDevice>
    decreases entries.len(),
{
    if entries.len() == 0 {
        entries
    } else if entries.last().device.same(device) {
        entries_without(entries.drop_last(), device)
    } else {
        entries_without(entries.drop_last(), device).push(entries.last())
    }
}

/// Whether a sequence of devices holds `device`.
pub open spec fn holds_device(devices: Seq<Device>, device: Device) -> bool {
    exists|i: int| 0 <= i < devices.len() && (#[trigger] devices[i]).same(device)
}

/// Whether a table holds an entry for `device`.
pub open spec fn holds_entry(entries: Seq<ActiveDevice>, device: Device) -> bool {
    exists|i: int| 0 <= i < entries.len() && (#[trigger] entries[i]).device.same(device)
}

/// Whether a table holds no device twice.
pub open spec fn each_once(entries: Seq<ActiveDevice>) -> bool {
    forall|i: int, j: int|
        0 <= i < j < entries.len() ==> !(#[trigger] entries[i]).device.same(
            (#[trigger] entries[j]).device,
        )
}

/// The calls that close the channel of every entry for `device` and let the
/// device go, entry by entry.
pub open spec fn release_of(entries: Seq<ActiveDevice>, device: Device) -> Seq<ReleaseStep>
    decreases entries.len(),
{
    if entries.len() == 0 {
        Seq::empty()
    } else if entries.last().device.same(device) {
        release_of(entries.drop_last(), device) + release_steps(
            entries.last().device.device,
            Some(entries.last().channel),
        )
    } else {
        release_of(entries.drop_last(), device)
    }
}

/// The calls that let every entry go, entry by entry: its channel, its
/// session, its connection.
pub open spec fn release_all(entries: Seq<ActiveDevice>) -> Seq<ReleaseStep>
    decreases entries.len(),
{
    if entries.len() == 0 {
        Seq::empty()
    } else {
        release_all(entries.drop_last()) + release_steps(
            entries.last().device.device,
            Some(entries.last().channel),
        )
    }
}

/// The event that tells the consumers of a device.
pub open spec fn event_of(device: Device, name: String, action: Action) -> DeviceEvent {
    DeviceEvent { udid: device.udid, name, interface: device.interface_type, action }
}

/// The table of the devices in session, and the devices whose preparation
/// is under way.
pub struct DeviceSessions {
    active: Vec<ActiveDevice>,
    pending: Vec<Device>,
}

impl DeviceSessions {
    /// The devices in session with their channels, in the order in which
    /// they came.
    pub closed spec fn active(&self) -> Seq<ActiveDevice> {
        self.active@
    }

    /// The devices whose preparation is under way.
    pub closed spec fn pending(&self) -> Seq<Device> {
        self.pending@
    }

    /// The table is keyed by the device: it holds no device twice.
    pub open spec fn wf(&self) -> bool {
        each_once(self.active())
    }

    /// The empty table.
    pub fn new() -> (r: DeviceSessions)
        ensures
            r.wf(),
            r.active() == Seq::<ActiveDevice>::empty(),
            r.pending() == Seq::<Device>::empty(),
    {
        DeviceSessions { active: Vec::new(), pending: Vec::new() }
    }

    /// Takes a notification. An attached device is noted as pending and is
    /// to be prepared. A detached device leaves the table and the pending
    /// devices at once; the consumers are told, and whatever was open for
    /// it is released. Any other notification changes nothing.
    pub fn on_message(&mut self, message: DeviceMessage) -> (r: Vec<DeviceCommand>)
        ensures
            old(self).wf() ==> final(self).wf(),
            message.action is Attached ==> {
                &&& final(self).active() == old(self).active()
                &&& final(self).pending() == devices_without(old(self).pending(), message.device).push(
                    message.device,
                )
                &&& r@.len() == 1
                &&& r@[0] == DeviceCommand::Prepare(message.device)
            },
            message.action is Detached ==> {
                &&& final(self).active() == entries_without(old(self).active(), message.device)
                &&& final(self).pending() == devices_without(old(self).pending(), message.device)
                &&& r@.len() == 1 + release_of(old(self).active(), message.device).len()
                &&& r@[0] matches DeviceCommand::Emit(e) && e.udid == message.device.udid && e.name@
                    == Seq::<char>::empty() && e.interface == message.device.interface_type
                    && e.action == message.action
                &&& forall|i: int|
                    0 <= i < release_of(old(self).active(), message.device).len() ==> r@[i + 1]
                        == DeviceCommand::Release(
                        release_of(old(self).active(), message.device)[i],
                    )
            },
            !(message.action is Attached) && !(message.action is Detached) ==> {
                &&& final(self).active() == old(self).active()
                &&& final(self).pending() == old(self).pending()
                &&& r@.len() == 0
            },
    {
        let mut commands: Vec<DeviceCommand> = Vec::new();
        match message.action {
            Action::Attached => {
                self.pending = pending_without(&self.pending, &message.device);
                self.pending.push(message.device.clone());
                commands.push(DeviceCommand::Prepare(message.device));
            },
            Action::Detached => {
                let event = DeviceEvent {
                    udid: message.device.udid.clone(),
                    name: String::new(),
                    interface: message.device.interface_type,
                    action: message.action,
                };
                commands.push(DeviceCommand::Emit(event));
                let ghost before = self.active@;
                let mut kept: Vec<ActiveDevice> = Vec::new();
                let mut i: usize = 0;
                while i < self.active.len()
                    invariant
                        i <= self.active.len(),
                        self.active@ == before,
                        kept@ == entries_without(before.take(i as int), message.device),
                        commands@.len() == 1 + release_of(
                            before.take(i as int),
                            message.device,
                        ).len(),
                        commands@[0] matches DeviceCommand::Emit(e) && e.udid
                            == message.device.udid && e.name@ == Seq::<char>::empty()
                            && e.interface == message.device.interface_type && e.action
                            == message.action,
                        forall|j: int|
                            0 <= j < release_of(before.take(i as int), message.device).len()
                                ==> commands@[j + 1] == DeviceCommand::Release(
                                release_of(before.take(i as int), message.device)[j],
                            ),
                    decreases self.active.len() - i,
                {
                    proof {
                        assert(before.take(i + 1).drop_last() =~= before.take(i as int));
                    }
                    let entry = &self.active[i];
                    if entry.device.is_same(&message.device) {
                        commands.push(
                            DeviceCommand::Release(ReleaseStep::CloseService(entry.channel.0)),
                        );
                        commands.push(
                            DeviceCommand::Release(ReleaseStep::StopSession(entry.device.device)),
                        );
                        commands.push(
                            DeviceCommand::Release(ReleaseStep::Disconnect(entry.device.device)),
                        );
                    } else {
                        kept.push(entry.clone());
                    }
                    i = i + 1;
                }
                proof {
                    assert(before.take(before.len() as int) =~= before);
                    lemma_without_keeps_once(before, message.device);
                }
                self.active = kept;
                self.pending = pending_without(&self.pending, &message.device);
            },
            _ => {},
        }
        commands
    }

    /// Takes the end of a preparation. A device that is still pending and
    /// came through enters the table, in place of any earlier entry for it,
    /// and the consumers are told. A device that did not come through is
    /// reported and let go. A device that is pending no more has detached in
    /// the meantime: it does not enter the table, and what was opened for it
    /// is released.
    pub fn on_prepared(
        &mut self,
        device: Device,
        name: String,
        outcome: Result<ServiceConnection, AttachError>,
    ) -> (r: Vec<DeviceCommand>)
        ensures
            old(self).wf() ==> final(self).wf(),
            final(self).pending() == devices_without(old(self).pending(), device),
            holds_device(old(self).pending(), device) && outcome is Ok ==> {
                &&& final(self).active() == entries_without(old(self).active(), device).push(
                    ActiveDevice { device, channel: outcome->Ok_0 },
                )
                &&& r@.len() == 1 + release_of(old(self).active(), device).len()
                &&& r@[r@.len() - 1] == DeviceCommand::Emit(event_of(device, name, Action::Attached))
                &&& forall|i: int|
                    0 <= i < release_of(old(self).active(), device).len() ==> r@[i]
                        == DeviceCommand::Release(release_of(old(self).active(), device)[i])
            },
            holds_device(old(self).pending(), device) && outcome is Err ==> {
                &&& final(self).active() == old(self).active()
                &&& r@ == seq![
                    DeviceCommand::Report(device.udid, outcome->Err_0),
                    DeviceCommand::Release(ReleaseStep::StopSession(device.device)),
                    DeviceCommand::Release(ReleaseStep::Disconnect(device.device)),
                ]
            },
            !holds_device(old(self).pending(), device) ==> {
                &&& final(self).active() == old(self).active()
                &&& r@.len() == release_steps(device.device, outcome.ok()).len()
                &&& forall|i: int|
                    0 <= i < r@.len() ==> r@[i] == DeviceCommand::Release(
                        release_steps(device.device, outcome.ok())[i],
                    )
            },
    {
        let was_pending = is_pending(&self.pending, &device);
        self.pending = pending_without(&self.pending, &device);
        let mut commands: Vec<DeviceCommand> = Vec::new();
        if !was_pending {
            match outcome {
                Ok(channel) => {
                    commands.push(DeviceCommand::Release(ReleaseStep::CloseService(channel.0)));
                },
                Err(_) => {},
            }
            commands.push(DeviceCommand::Release(ReleaseStep::StopSession(device.device)));
            commands.push(DeviceCommand::Release(ReleaseStep::Disconnect(device.device)));
            return commands;
        }
        match outcome {
            Err(error) => {
                commands.push(DeviceCommand::Report(device.udid.clone(), error));
                commands.push(DeviceCommand::Release(ReleaseStep::StopSession(device.device)));
                commands.push(DeviceCommand::Release(ReleaseStep::Disconnect(device.device)));
                assert(commands@ =~= seq![
                    DeviceCommand::Report(device.udid, error),
                    DeviceCommand::Release(ReleaseStep::StopSession(device.device)),
                    DeviceCommand::Release(ReleaseStep::Disconnect(device.device)),
                ]);
            },
            Ok(channel) => {
                let ghost before = self.active@;
                let mut kept: Vec<ActiveDevice> = Vec::new();
                let mut i: usize = 0;
                while i < self.active.len()
                    invariant
                        i <= self.active.len(),
                        self.active@ == before,
                        kept@ == entries_without(before.take(i as int), device),
                        commands@.len() == release_of(before.take(i as int), device).len(),
                        forall|j: int|
                            0 <= j < release_of(before.take(i as int), device).len()
                                ==> commands@[j] == DeviceCommand::Release(
                                release_of(before.take(i as int), device)[j],
                            ),
                    decreases self.active.len() - i,
                {
                    proof {
                        assert(before.take(i + 1).drop_last() =~= before.take(i as int));
                    }
                    let entry = &self.active[i];
                    if entry.device.is_same(&device) {
                        commands.push(
                            DeviceCommand::Release(ReleaseStep::CloseService(entry.channel.0)),
                        );
                        commands.push(
                            DeviceCommand::Release(ReleaseStep::StopSession(entry.device.device)),
                        );
                        commands.push(
                            DeviceCommand::Release(ReleaseStep::Disconnect(entry.device.device)),
                        );
                    } else {
                        kept.push(entry.clone());
                    }
                    i = i + 1;
                }
                proof {
                    assert(before.take(before.len() as int) =~= before);
                }
                let event = DeviceEvent {
                    udid: device.udid.clone(),
                    name,
                    interface: device.interface_type,
                    action: Action::Attached,
                };
                commands.push(DeviceCommand::Emit(event));
                proof {
                    lemma_without_keeps_once(before, device);
                    lemma_without_holds_nothing(Seq::empty(), before, device);
                    let rest = entries_without(before, device);
                    assert forall|i: int| 0 <= i < rest.len() implies !(#[trigger] rest[i]).device.same(
                        device,
                    ) by {}
                }
                kept.push(ActiveDevice { device, channel });
                self.active = kept;
            },
        }
        commands
    }

    /// The requests that a tick of the timer is due: one for each device in
    /// session, in the order of the table. Each is made by itself, so that a
    /// device that answers late or not at all holds up no other.
    pub fn on_tick(&self) -> (r: Vec<PollRequest>)
        ensures
            r@.len() == self.active().len(),
            forall|i: int|
                0 <= i < r@.len() ==> (#[trigger] r@[i]).udid == self.active()[i].device.udid
                    && r@[i].channel == self.active()[i].channel,
    {
        let mut requests: Vec<PollRequest> = Vec::new();
        let mut i: usize = 0;
        while i < self.active.len()
            invariant
                i <= self.active.len(),
                requests@.len() == i,
                forall|j: int|
                    0 <= j < i ==> (#[trigger] requests@[j]).udid == self.active@[j].device.udid
                        && requests@[j].channel == self.active@[j].channel,
            decreases self.active.len() - i,
        {
            let entry = &self.active[i];
            requests.push(PollRequest { udid: entry.device.udid.clone(), channel: entry.channel });
            i = i + 1;
        }
        requests
    }

    /// Lets every device go: entry by entry, the channel is closed, the
    /// session ended and the device disconnected, each call whatever the
    /// one before returned. The table is empty afterwards.
    pub fn shutdown(&mut self) -> (r: Vec<ReleaseStep>)
        ensures
            final(self).wf(),
            r@ == release_all(old(self).active()),
            final(self).active() == Seq::<ActiveDevice>::empty(),
            final(self).pending() == Seq::<Device>::empty(),
    {
        let mut steps: Vec<ReleaseStep> = Vec::new();
        let ghost before = self.active@;
        let mut i: usize = 0;
        while i < self.active.len()
            invariant
                i <= self.active.len(),
                self.active@ == before,
                steps@ == release_all(before.take(i as int)),
            decreases self.active.len() - i,
        {
            proof {
                assert(before.take(i + 1).drop_last() =~= before.take(i as int));
            }
            let entry = &self.active[i];
            let ghost so_far = steps@;
            steps.push(ReleaseStep::CloseService(entry.channel.0));
            steps.push(ReleaseStep::StopSession(entry.device.device));
            steps.push(ReleaseStep::Disconnect(entry.device.device));
            proof {
                assert(steps@ =~= so_far + release_steps(
                    entry.device.device,
                    Some(entry.channel),
                ));
            }
            i = i + 1;
        }
        proof {
            assert(before.take(before.len() as int) =~= before);
        }
        self.active = Vec::new();
        self.pending = Vec::new();
        steps
    }
}

/// What the reply of one device to a diagnostics request comes to: its
/// metrics for the consumers, or nothing where the request failed. A failed
/// request concerns this device and this tick alone.
pub fn on_snapshot(udid: String, reply: Result<IORegistry, DeviceDataError>) -> (r: Option<
    DevicePowerTickEvent,
>)
    ensures
        r is Some <==> reply is Ok,
        r matches Some(e) ==> e.udid == udid && e.data == NormalizedResource::of_registry(
            reply->Ok_0,
        ),
{
    match reply {
        Ok(io) => Some(DevicePowerTickEvent { udid, data: NormalizedResource::from_registry(&io) }),
        Err(_) => None,
    }
}

/// Whether a device is among the pending ones.
fn is_pending(pending: &Vec<Device>, device: &Device) -> (r: bool)
    ensures
        r == holds_device(pending@, *device),
{
    let mut i: usize = 0;
    while i < pending.len()
        invariant
            i <= pending.len(),
            forall|j: int| 0 <= j < i ==> !(#[trigger] pending@[j]).same(*device),
        decreases pending.len() - i,
    {
        if pending[i].is_same(device) {
            return true;
        }
        i = i + 1;
    }
    false
}

/// The pending devices that are not `device`.
fn pending_without(pending: &Vec<Device>, device: &Device) -> (r: Vec<Device>)
    ensures
        r@ == devices_without(pending@, *device),
{
    let mut kept: Vec<Device> = Vec::new();
    let mut i: usize = 0;
    while i < pending.len()
        invariant
            i <= pending.len(),
            kept@ == devices_without(pending@.take(i as int), *device),
        decreases pending.len() - i,
    {
        proof {
            assert(pending@.take(i + 1).drop_last() =~= pending@.take(i as int));
        }
        if !pending[i].is_same(device) {
            kept.push(pending[i].clone());
        }
        i = i + 1;
    }
    proof {
        assert(pending@.take(pending@.len() as int) =~= pending@);
    }
    kept
}

/// What is left of a sequence without `device` holds `device` nowhere.
pub proof fn lemma_without_holds_nothing(devices: Seq<Device>, entries: Seq<ActiveDevice>, device: Device)
    ensures
        !holds_device(devices_without(devices, device), device),
        !holds_entry(entries_without(entries, device), device),
    decreases devices.len() + entries.len(),
{
    if devices.len() > 0 {
        lemma_without_holds_nothing(devices.drop_last(), Seq::empty(), device);
        let rest = devices_without(devices.drop_last(), device);
        assert forall|i: int| 0 <= i < devices_without(devices, device).len() implies !(
        #[trigger] devices_without(devices, device)[i]).same(device) by {
            if i < rest.len() {
                assert(!rest[i].same(device));
            }
        }
    }
    if entries.len() > 0 {
        lemma_without_holds_nothing(Seq::empty(), entries.drop_last(), device);
        let rest = entries_without(entries.drop_last(), device);
        assert forall|i: int| 0 <= i < entries_without(entries, device).len() implies !(
        #[trigger] entries_without(entries, device)[i]).device.same(device) by {
            if i < rest.len() {
                assert(!rest[i].device.same(device));
            }
        }
    }
}

/// Every entry of what is left of a table without `device` is an entry of
/// the table, and what is left holds no device twice if the table held
/// none twice.
pub proof fn lemma_without_keeps_once(entries: Seq<ActiveDevice>, device: Device)
    ensures
        forall|k: int|
            0 <= k < entries_without(entries, device).len() ==> exists|i: int|
                0 <= i < entries.len() && entries[i] == #[trigger] entries_without(
                    entries,
                    device,
                )[k],
        each_once(entries) ==> each_once(entries_without(entries, device)),
    decreases entries.len(),
{
    if entries.len() > 0 {
        let head = entries.drop_last();
        lemma_without_keeps_once(head, device);
        let rest = entries_without(head, device);
        let all = entries_without(entries, device);
        assert forall|k: int| 0 <= k < all.len() implies exists|i: int|
            0 <= i < entries.len() && entries[i] == #[trigger] all[k] by {
            if k < rest.len() {
                let i = choose|i: int| 0 <= i < head.len() && head[i] == rest[k];
                assert(entries[i] == all[k]);
            } else {
                assert(entries[entries.len() - 1] == all[k]);
            }
        }
        if each_once(entries) {
            assert(each_once(head)) by {
                assert forall|i: int, j: int| 0 <= i < j < head.len() implies !(
                #[trigger] head[i]).device.same((#[trigger] head[j]).device) by {
                    assert(head[i] == entries[i]);
                    assert(head[j] == entries[j]);
                }
            }
            assert forall|i: int, j: int| 0 <= i < j < all.len() implies !(#[trigger] all[i]).device.same(
                (#[trigger] all[j]).device,
            ) by {
                if j < rest.len() {
                    assert(!rest[i].device.same(rest[j].device));
                } else {
                    let k = choose|k: int| 0 <= k < head.len() && head[k] == rest[i];
                    assert(entries[k] == all[i]);
                    assert(entries[entries.len() - 1] == all[j]);
                }
            }
        }
    }
}

/// A device that attaches and detaches before its preparation is through
/// leaves nothing behind: after the detachment neither the table nor the
/// pending devices hold it, and the end of its preparation, however it went,
/// puts nothing back.
pub proof fn lemma_detach_before_prepared_leaves_no_entry(
    active: Seq<ActiveDevice>,
    pending: Seq<Device>,
    device: Device,
)
    ensures
        ({
            let attached = devices_without(pending, device).push(device);
            let detached_pending = devices_without(attached, device);
            let detached_active = entries_without(active, device);
            let settled_pending = devices_without(detached_pending, device);
            &&& holds_device(attached, device)
            &&& !holds_device(detached_pending, device)
            &&& !holds_entry(detached_active, device)
            &&& !holds_device(settled_pending, device)
        }),
{
    let attached = devices_without(pending, device).push(device);
    assert(attached[attached.len() - 1].same(device));
    lemma_without_holds_nothing(attached, active, device);
    lemma_without_holds_nothing(devices_without(attached, device), active, device);
}

/// The interfaces over which a device has been seen, one flag each.
#[derive(Debug, Clone, Copy, PartialEq, Eq, Structural)]
pub struct Interfaces {
    pub unknown: bool,
    pub usb: bool,
    pub wifi: bool,
}

impl Interfaces {
    /// The flags with `interface` set or cleared.
    pub open spec fn with(self, interface: InterfaceType, present: bool) -> Interfaces {
        match interface {
            InterfaceType::Unknown => Interfaces { unknown: present, ..self },
            InterfaceType::USB => Interfaces { usb: present, ..self },
            InterfaceType::WiFi => Interfaces { wifi: present, ..self },
        }
    }

    /// The flags after a device event: an attachment sets the flag of its
    /// interface, a detachment clears it, any other event changes nothing.
    pub open spec fn after(self, interface: InterfaceType, action: Action) -> Interfaces {
        match action {
            Action::Attached => self.with(interface, true),
            Action::Detached => self.with(interface, false),
            _ => self,
        }
    }

    /// Whether the flag of `interface` is set.
    pub fn contains(self, interface: InterfaceType) -> (r: bool)
        ensures
            r == (match interface {
                InterfaceType::Unknown => self.unknown,
                InterfaceType::USB => self.usb,
                InterfaceType::WiFi => self.wifi,
            }),
    {
        match interface {
            InterfaceType::Unknown => self.unknown,
            InterfaceType::USB => self.usb,
            InterfaceType::WiFi => self.wifi,
        }
    }

    /// The flags after a device event.
    pub fn apply(self, interface: InterfaceType, action: Action) -> (r: Interfaces)
        ensures
            r == self.after(interface, action),
    {
        let present = match action {
            Action::Attached => true,
            Action::Detached => false,
            _ => {
                return self;
            },
        };
        match interface {
            InterfaceType::Unknown => Interfaces { unknown: present, ..self },
            InterfaceType::USB => Interfaces { usb: present, ..self },
            InterfaceType::WiFi => Interfaces { wifi: present, ..self },
        }
    }
}

/// A device that the consumers have been told of: its identifier, the name
/// it was first seen with, and the interfaces over which it is attached.
#[derive(Debug, PartialEq, Eq)]
pub struct KnownDevice {
    pub udid: String,
    pub name: String,
    pub interfaces: Interfaces,
}

impl Clone for KnownDevice {
    fn clone(&self) -> (r: Self)
        ensures
            r == *self,
    {
        KnownDevice {
            udid: self.udid.clone(),
            name: self.name.clone(),
            interfaces: self.interfaces,
        }
    }
}

/// The index of the device with an identifier, if it is known.
pub open spec fn index_of(devices: Seq<KnownDevice>, udid: Seq<char>) -> Option<int> {
    if exists|i: int| 0 <= i < devices.len() && (#[trigger] devices[i]).udid@ == udid {
        Some(choose|i: int| 0 <= i < devices.len() && (#[trigger] devices[i]).udid@ == udid)
    } else {
        None
    }
}

/// Every device that the consumers have been told of, by identifier.
pub struct DeviceState {
    devices: Vec<KnownDevice>,
}

impl DeviceState {
    /// The known devices, in the order in which they were first seen.
    pub closed spec fn devices(&self) -> Seq<KnownDevice> {
        self.devices@
    }

    /// No identifier is known twice.
    pub open spec fn wf(&self) -> bool {
        forall|i: int, j: int|
            0 <= i < j < self.devices().len() ==> (#[trigger] self.devices()[i]).udid@ != (
            #[trigger] self.devices()[j]).udid@
    }

    /// Nothing is known.
    pub fn new() -> (r: DeviceState)
        ensures
            r.wf(),
            r.devices() == Seq::<KnownDevice>::empty(),
    {
        DeviceState { devices: Vec::new() }
    }

    /// Takes a device event. A device that is not known yet becomes known
    /// under the name that the event carries; a known device keeps its name.
    /// Then the interface of the event is set on attachment and cleared on
    /// detachment.
    pub fn apply(&mut self, event: &DeviceEvent)
        requires
            old(self).wf(),
        ensures
            final(self).wf(),
            match index_of(old(self).devices(), event.udid@) {
                Some(i) => final(self).devices() == old(self).devices().update(
                    i,
                    KnownDevice {
                        udid: old(self).devices()[i].udid,
                        name: old(self).devices()[i].name,
                        interfaces: old(self).devices()[i].interfaces.after(
                            event.interface,
                            event.action,
                        ),
                    },
                ),
                None => final(self).devices() == old(self).devices().push(
                    KnownDevice {
                        udid: event.udid,
                        name: event.name,
                        interfaces: (Interfaces { unknown: false, usb: false, wifi: false }).after(
                            event.interface,
                            event.action,
                        ),
                    },
                ),
            },
    {
        let mut i: usize = 0;
        while i < self.devices.len()
            invariant
                i <= self.devices.len(),
                self.devices@ == old(self).devices@,
                old(self).wf(),
                forall|j: int| 0 <= j < i ==> (#[trigger] self.devices@[j]).udid@ != event.udid@,
            decreases self.devices.len() - i,
        {
            if self.devices[i].udid == event.udid {
                let known = &self.devices[i];
                let updated = KnownDevice {
                    udid: known.udid.clone(),
                    name: known.name.clone(),
                    interfaces: known.interfaces.apply(event.interface, event.action),
                };
                proof {
                    let found = index_of(old(self).devices(), event.udid@);
                    assert(old(self).devices()[i as int].udid@ == event.udid@);
                    assert(found is Some);
                    assert(found->Some_0 == i);
                }
                self.devices.set(i, updated);
                return ;
            }
            i = i + 1;
        }
        let fresh = KnownDevice {
            udid: event.udid.clone(),
            name: event.name.clone(),
            interfaces: (Interfaces { unknown: false, usb: false, wifi: false }).apply(
                event.interface,
                event.action,
            ),
        };
        self.devices.push(fresh);
    }

    /// The name and the interfaces of the device with an identifier, if it
    /// is known.
    pub fn get_device_name(&self, id: &String) -> (r: Option<(String, Interfaces)>)
        requires
            self.wf(),
        ensures
            r is Some <==> index_of(self.devices(), id@) is Some,
            r matches Some(found) ==> found.0 == self.devices()[index_of(
                self.devices(),
                id@,
            )->Some_0].name && found.1 == self.devices()[index_of(
                self.devices(),
                id@,
            )->Some_0].interfaces,
    {
        let mut i: usize = 0;
        while i < self.devices.len()
            invariant
                i <= self.devices.len(),
                self.wf(),
                forall|j: int| 0 <= j < i ==> (#[trigger] self.devices@[j]).udid@ != id@,
            decreases self.devices.len() - i,
        {
            if self.devices[i].udid == *id {
                proof {
                    let found = index_of(self.devices(), id@);
                    assert(self.devices()[i as int].udid@ == id@);
                    assert(found is Some);
                    assert(found->Some_0 == i);
                }
                return Some((self.devices[i].name.clone(), self.devices[i].interfaces));
            }
            i = i + 1;
        }
        None
    }
}

} // verus!
