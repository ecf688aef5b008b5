//! The registry snapshot of a companion device, asked for over its
//! diagnostics channel.
use crate::codec::{decode_diagnostic, decoded_diagnostic, Naming};
use crate::de::IORegistry;
use crate::ffi::smc::SMCPowerData;
use crate::ffi::InterfaceType;
use crate::milli::{clamp, Milli};
use crate::provider::{
    absolute_level, larger, magnitude, pushed, registry_time_remain, MergedPowerData,
    PowerStatistic, Readout, Resource, LONG_HISTORY, SHORT_HISTORY,
};
use crate::property_list::plist_tree;
use crate::util::{dict_into, refusal, DictParseError};
use vstd::prelude::*;
use vstd::string::*;

verus! {

/// Why a diagnostics request gave no snapshot.
#[derive(Debug)]
pub enum DeviceDataError {
    /// The request could not be sent; the transport's status.
    Send(i32),
    /// No reply could be received; the transport's status.
    Receive(i32),
    /// The reply could not be read.
    Parse(DictParseError),
}

/// The request that asks a device for its power-source registry entry: two
/// entries, the class of the entry and the kind of the request.
pub fn diagnostics_request() -> (r: Vec<(String, String)>)
    ensures
        r@.len() == 2,
        r@[0].0@ == "EntryClass"@,
        r@[0].1@ == "IOPMPowerSource"@,
        r@[1].0@ == "Request"@,
        r@[1].1@ == "IORegistry"@,
{
    let mut request: Vec<(String, String)> = Vec::new();
    request.push((String::from_str("EntryClass"), String::from_str("IOPMPowerSource")));
    request.push((String::from_str("Request"), String::from_str("IORegistry")));
    request
}

/// What one exchange over the diagnostics channel came to. The request is
/// sent first: a status other than zero is a send failure, and nothing else
/// counts. Then one reply is awaited: a status other than zero is a receive
/// failure. Then the reply is read as a property list: that it could not be
/// written out, that the parser cannot take it, that it is no property list,
/// or that it holds no snapshot under the diagnostics and registry keys, is
/// a parse failure.
pub fn get_device_ioreg(send_status: i32, receive_status: i32, reply: Option<&[u8]>) -> (r: Result<
    IORegistry,
    DeviceDataError,
>)
    ensures
        send_status != 0 ==> (r matches Err(DeviceDataError::Send(s)) && s == send_status),
        send_status == 0 && receive_status != 0 ==> (r matches Err(DeviceDataError::Receive(s))
            && s == receive_status),
        send_status == 0 && receive_status == 0 ==> match reply {
            None => r matches Err(DeviceDataError::Parse(DictParseError::XmlData)),
            Some(bytes) => match refusal(bytes@) {
                Some(DictParseError::Unsupported) => r matches Err(
                    DeviceDataError::Parse(DictParseError::Unsupported),
                ),
                Some(_) => r matches Err(DeviceDataError::Parse(DictParseError::TooDeep)),
                None => match plist_tree(bytes@) {
                    None => r matches Err(DeviceDataError::Parse(DictParseError::Deserialize(_))),
                    Some(node) => match decoded_diagnostic(node, Naming::Pascal) {
                        Ok(io) => r matches Ok(got) && got == io,
                        Err(e) => r matches Err(
                            DeviceDataError::Parse(DictParseError::Schema(s)),
                        ) && s == e,
                    },
                },
            },
        },
{
    if send_status != 0 {
        return Err(DeviceDataError::Send(send_status));
    }
    if receive_status != 0 {
        return Err(DeviceDataError::Receive(receive_status));
    }
    let node = match dict_into(reply) {
        Ok(node) => node,
        Err(e) => {
            return Err(DeviceDataError::Parse(e));
        },
    };
    match decode_diagnostic(&node, Naming::Pascal) {
        Ok(data) => Ok(data.diagnostics.ioregistry),
        Err(e) => Err(DeviceDataError::Parse(DictParseError::Schema(e))),
    }
}

/// One call to the transport during an exchange over the diagnostics
/// channel.
#[derive(Debug, Clone, Copy, PartialEq, Eq, Structural)]
pub enum ExchangeStage {
    /// Send the request of [`diagnostics_request`].
    Send,
    /// Wait for one reply.
    Receive,
}

/// What to do next in an exchange over the diagnostics channel.
#[derive(Debug, Clone, Copy, PartialEq, Eq, Structural)]
pub enum ExchangeStep {
    /// Make this call and come back with its status.
    Call(ExchangeStage),
    /// Write the reply out as a property list and hand it to
    /// [`get_device_ioreg`] with both statuses zero.
    Decode,
    /// The request could not be sent. Nothing is received.
    SendFailed(i32),
    /// No reply could be received.
    ReceiveFailed(i32),
}

impl ExchangeStage {
    /// The step that follows this call once its status is known: after a
    /// request that was sent, the one receive; after a reply that was
    /// received, its decoding; after a status other than zero, nothing.
    pub open spec fn followed_by(self, status: i32) -> ExchangeStep {
        match self {
            ExchangeStage::Send => if status == 0 {
                ExchangeStep::Call(ExchangeStage::Receive)
            } else {
                ExchangeStep::SendFailed(status)
            },
            ExchangeStage::Receive => if status == 0 {
                ExchangeStep::Decode
            } else {
                ExchangeStep::ReceiveFailed(status)
            },
        }
    }

    /// The step that follows this call once its status is known.
    pub fn next(self, status: i32) -> (r: ExchangeStep)
        ensures
            r == self.followed_by(status),
    {
        match self {
            ExchangeStage::Send => if status == 0 {
                ExchangeStep::Call(ExchangeStage::Receive)
            } else {
                ExchangeStep::SendFailed(status)
            },
            ExchangeStage::Receive => if status == 0 {
                ExchangeStep::Decode
            } else {
                ExchangeStep::ReceiveFailed(status)
            },
        }
    }
}

/// The first step of an exchange: to send the request.
pub fn begin_exchange() -> (r: ExchangeStep)
    ensures
        r == ExchangeStep::Call(ExchangeStage::Send),
{
    ExchangeStep::Call(ExchangeStage::Send)
}

/// The error of an exchange that ended before its reply was decoded.
pub fn exchange_error(step: ExchangeStep) -> (r: Option<DeviceDataError>)
    ensures
        step matches ExchangeStep::SendFailed(s) ==> r == Some(DeviceDataError::Send(s)),
        step matches ExchangeStep::ReceiveFailed(s) ==> r == Some(DeviceDataError::Receive(s)),
        step is Call || step is Decode ==> r is None,
{
    match step {
        ExchangeStep::SendFailed(s) => Some(DeviceDataError::Send(s)),
        ExchangeStep::ReceiveFailed(s) => Some(DeviceDataError::Receive(s)),
        _ => None,
    }
}

/// A whole exchange against a channel that answers each call in a fixed
/// way: the calls that were made, in order, and how it ended.
pub struct ExchangeRun {
    pub calls: Seq<ExchangeStage>,
    pub end: ExchangeStep,
}

/// The exchange run from `step` to its end, `budget` calls at most.
pub open spec fn exchange_from(step: ExchangeStep, answers: spec_fn(ExchangeStage) -> i32, budget: nat) -> ExchangeRun
    decreases budget,
{
    match step {
        ExchangeStep::Call(stage) => if budget == 0 {
            ExchangeRun { calls: Seq::empty(), end: step }
        } else {
            let rest = exchange_from(stage.followed_by(answers(stage)), answers, (budget - 1) as nat);
            ExchangeRun { calls: seq![stage] + rest.calls, end: rest.end }
        },
        _ => ExchangeRun { calls: Seq::empty(), end: step },
    }
}

/// The exchange run from its first step to its end.
pub open spec fn exchange_run(answers: spec_fn(ExchangeStage) -> i32) -> ExchangeRun {
    exchange_from(ExchangeStep::Call(ExchangeStage::Send), answers, 2)
}

/// An exchange sends exactly one request, and sends it first. It makes one
/// receive where the request was sent, and none where it was not. It ends
/// with the decoding where both calls gave zero, else with the failure of
/// the first call that did not.
pub proof fn lemma_exchange_run(answers: spec_fn(ExchangeStage) -> i32)
    ensures
        exchange_run(answers).calls == (if answers(ExchangeStage::Send) == 0 {
            seq![ExchangeStage::Send, ExchangeStage::Receive]
        } else {
            seq![ExchangeStage::Send]
        }),
        exchange_run(answers).end == (if answers(ExchangeStage::Send) != 0 {
            ExchangeStep::SendFailed(answers(ExchangeStage::Send))
        } else if answers(ExchangeStage::Receive) != 0 {
            ExchangeStep::ReceiveFailed(answers(ExchangeStage::Receive))
        } else {
            ExchangeStep::Decode
        }),
{
    reveal_with_fuel(exchange_from, 3);
    assert(exchange_run(answers).calls =~= (if answers(ExchangeStage::Send) == 0 {
        seq![ExchangeStage::Send, ExchangeStage::Receive]
    } else {
        seq![ExchangeStage::Send]
    }));
}

/// A companion device as a source: the last snapshot of its registry and the
/// statistics over it.
#[derive(Debug)]
pub struct RemoteResource {
    pub udid: String,
    pub name: String,
    pub interface_type: InterfaceType,
    pub ioreg: IORegistry,
    pub statistic: PowerStatistic,
}

/// A number of the registry in the unit it stands in, as a quantity.
pub open spec fn whole(v: int) -> Milli {
    Milli { raw: clamp(v * 1000) as i64 }
}

impl RemoteResource {
    /// A device before any snapshot came.
    pub fn new(udid: String, name: String, interface_type: InterfaceType) -> (r: RemoteResource)
        ensures
            r.udid == udid,
            r.name == name,
            r.interface_type == interface_type,
            r.ioreg == IORegistry::empty(),
            r.statistic.wf(),
            r.statistic.max_battery_power.raw == 0,
            r.statistic.max_input_power.raw == 0,
            r.statistic.max_system_power.raw == 0,
            r.statistic.battery_history@.len() == 0,
            r.statistic.input_history@.len() == 0,
            r.statistic.system_history@.len() == 0,
    {
        RemoteResource {
            udid,
            name,
            interface_type,
            ioreg: IORegistry::default(),
            statistic: PowerStatistic::new(),
        }
    }
}

impl Resource for RemoteResource {
    open spec fn readout(&self) -> Readout {
        let (system_in, system_load, battery_power, adapter_power) = match self.ioreg.power_telemetry_data {
            Some(d) => (
                whole(d.system_power_in as int),
                whole(d.system_load as int),
                whole(d.battery_power as int),
                whole(d.system_power_in + d.adapter_efficiency_loss),
            ),
            None => (whole(0), whole(0), whole(0), whole(0)),
        };
        Readout {
            system_in,
            system_load,
            battery_power,
            adapter_power,
            brightness_power: whole(0),
            absolute_battery_level: Milli { raw: absolute_level(self.ioreg) as i64 },
            is_charging: self.ioreg.is_charging,
            time_remain: registry_time_remain(self.ioreg) as u64,
            last_update: if self.ioreg.update_time < 0 {
                0
            } else {
                self.ioreg.update_time as u64
            },
            is_local: false,
            temperature: Milli { raw: (self.ioreg.temperature * 10) as i64 },
        }
    }

    open spec fn registry(&self) -> IORegistry {
        self.ioreg
    }

    open spec fn sensors(&self) -> Option<SMCPowerData> {
        None
    }

    open spec fn accepts(&self, data: MergedPowerData) -> bool {
        true
    }

    open spec fn title(&self) -> String {
        self.name
    }

    /// How the device stands after it took in what was gathered: the
    /// snapshot is taken over, and the three powers go into the statistics.
    open spec fn follows(&self, before: &Self, data: MergedPowerData) -> bool {
        let fresh = RemoteResource { ioreg: data.ioreg, ..*before };
        &&& self.udid == before.udid
        &&& self.name == before.name
        &&& self.interface_type == before.interface_type
        &&& self.ioreg == data.ioreg
        &&& self.statistic.max_battery_power == larger(
            before.statistic.max_battery_power,
            fresh.readout().battery_power,
        )
        &&& self.statistic.max_input_power == larger(
            before.statistic.max_input_power,
            fresh.readout().system_in,
        )
        &&& self.statistic.max_system_power == larger(
            before.statistic.max_system_power,
            fresh.readout().system_load,
        )
        &&& self.statistic.battery_history@ == pushed(
            before.statistic.battery_history@,
            magnitude(fresh.readout().battery_power),
            SHORT_HISTORY as nat,
        )
        &&& self.statistic.input_history@ == pushed(
            before.statistic.input_history@,
            magnitude(fresh.readout().system_in),
            SHORT_HISTORY as nat,
        )
        &&& self.statistic.system_history@ == pushed(
            before.statistic.system_history@,
            magnitude(fresh.readout().system_load),
            LONG_HISTORY as nat,
        )
    }

    fn name(&self) -> (r: String) {
        self.name.clone()
    }

    fn system_in(&self) -> (r: Milli) {
        match self.ioreg.ptd() {
            Some(d) => Milli::from_units(d.system_power_in as i64),
            None => Milli::from_units(0),
        }
    }

    fn system_load(&self) -> (r: Milli) {
        match self.ioreg.ptd() {
            Some(d) => Milli::from_units(d.system_load),
            None => Milli::from_units(0),
        }
    }

    fn battery_power(&self) -> (r: Milli) {
        match self.ioreg.ptd() {
            Some(d) => Milli::from_units(d.battery_power),
            None => Milli::from_units(0),
        }
    }

    fn adapter_power(&self) -> (r: Milli) {
        match self.ioreg.ptd() {
            Some(d) => Milli::from_units(d.system_power_in as i64 + d.adapter_efficiency_loss as i64),
            None => Milli::from_units(0),
        }
    }

    fn brightness_power(&self) -> (r: Milli) {
        Milli::from_units(0)
    }

    fn absolute_battery_level(&self) -> (r: Milli) {
        Milli::from_ratio(
            self.ioreg.apple_raw_current_capacity as i64 * 100,
            self.ioreg.apple_raw_max_capacity as i64,
        )
    }

    fn is_charging(&self) -> (r: bool) {
        self.ioreg.is_charging
    }

    fn time_remain(&self) -> (r: u64) {
        if self.ioreg.time_remaining > 0 {
            self.ioreg.time_remaining as u64 * 60_000
        } else {
            0
        }
    }

    fn last_update(&self) -> (r: u64) {
        if self.ioreg.update_time < 0 {
            0
        } else {
            self.ioreg.update_time as u64
        }
    }

    fn is_local(&self) -> (r: bool)
        ensures
            !r,
    {
        false
    }

    fn temperature(&self) -> (r: Milli) {
        Milli::from_raw(self.ioreg.temperature as i64 * 10)
    }

    fn raw_data(&self) -> (r: &IORegistry) {
        &self.ioreg
    }

    fn smc(&self) -> (r: Option<&SMCPowerData>) {
        None
    }

    fn update(&mut self, data: MergedPowerData) {
        self.ioreg = data.ioreg;
        let battery = self.battery_power();
        let input = self.system_in();
        let load = self.system_load();
        self.statistic.update(battery, input, load);
    }
}

} // verus!
