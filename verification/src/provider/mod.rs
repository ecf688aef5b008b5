//! The unified record that every source is brought to, and the running
//! statistics over it.
use crate::codec::{decode, decoded, Naming};
use crate::de::IORegistry;
use crate::ffi::smc::SMCPowerData;
use crate::ffi::InterfaceType;
use crate::milli::{clamp, div_toward_zero, ratio_thousandths, Milli};
use crate::property_list::plist_tree;
use crate::provider::local::LocalResource;
use crate::provider::remote::RemoteResource;
use crate::util::{dict_into, latest, refusal, skip_until, DictParseError};
use ratatui::widgets::SparklineBar;
use std::collections::VecDeque;
use vstd::prelude::*;

pub mod local;
pub mod remote;

verus! {

/// The metrics of one source at one moment, each in thousandths of its unit:
/// powers in watts, levels in percent, the temperature in degrees, the
/// adapter's rating in watts, volts and amperes.
#[derive(Debug, Clone, Copy, PartialEq, Eq, Structural)]
pub struct NormalizedData {
    pub system_in: Milli,
    pub system_load: Milli,
    pub battery_power: Milli,
    pub adapter_power: Milli,
    /// Zero where the source does not report it.
    pub brightness_power: Milli,
    /// Zero where the source does not report it.
    pub heatpipe_power: Milli,
    /// Whole percent.
    pub battery_level: i32,
    pub absolute_battery_level: Milli,
    pub temperature: Milli,
    pub adapter_watts: Milli,
    pub adapter_voltage: Milli,
    pub adapter_amperage: Milli,
}

/// One source at one moment, in the form that every consumer reads.
#[derive(Debug, PartialEq, Eq)]
pub struct NormalizedResource {
    pub is_local: bool,
    pub is_charging: bool,
    /// Milliseconds.
    pub time_remain: u64,
    pub last_update: i64,
    pub adapter_name: Option<String>,
    pub data: NormalizedData,
}

/// The larger of two quantities.
pub open spec fn larger(a: Milli, b: Milli) -> Milli {
    if a.raw >= b.raw {
        a
    } else {
        b
    }
}

/// The sum of two quantities, cut off at the representable range.
pub open spec fn summed(a: Milli, b: Milli) -> Milli {
    Milli { raw: clamp(a.raw + b.raw) as i64 }
}

/// A quantity divided by a positive whole number, rounded toward zero.
pub open spec fn shared(a: Milli, n: u32) -> Milli {
    Milli { raw: div_toward_zero(a.raw as int, n as int) as i64 }
}

/// The value of an optional integer, zero where it is absent.
pub open spec fn or_zero(v: Option<i32>) -> int {
    match v {
        Some(x) => x as int,
        None => 0,
    }
}

impl NormalizedData {
    /// The metrics with every field zero.
    pub open spec fn zeroed() -> NormalizedData {
        let z = Milli { raw: 0 };
        NormalizedData {
            system_in: z,
            system_load: z,
            battery_power: z,
            adapter_power: z,
            brightness_power: z,
            heatpipe_power: z,
            battery_level: 0,
            absolute_battery_level: z,
            temperature: z,
            adapter_watts: z,
            adapter_voltage: z,
            adapter_amperage: z,
        }
    }

    /// Field by field, the larger of the two.
    pub open spec fn spec_max_with(self, other: NormalizedData) -> NormalizedData {
        NormalizedData {
            system_in: larger(self.system_in, other.system_in),
            system_load: larger(self.system_load, other.system_load),
            battery_power: larger(self.battery_power, other.battery_power),
            adapter_power: larger(self.adapter_power, other.adapter_power),
            brightness_power: larger(self.brightness_power, other.brightness_power),
            heatpipe_power: larger(self.heatpipe_power, other.heatpipe_power),
            battery_level: if self.battery_level >= other.battery_level {
                self.battery_level
            } else {
                other.battery_level
            },
            absolute_battery_level: larger(
                self.absolute_battery_level,
                other.absolute_battery_level,
            ),
            temperature: larger(self.temperature, other.temperature),
            adapter_watts: larger(self.adapter_watts, other.adapter_watts),
            adapter_voltage: larger(self.adapter_voltage, other.adapter_voltage),
            adapter_amperage: larger(self.adapter_amperage, other.adapter_amperage),
        }
    }

    /// Field by field, the sum, each cut off at the range of its type.
    pub open spec fn spec_plus(self, other: NormalizedData) -> NormalizedData {
        NormalizedData {
            system_in: summed(self.system_in, other.system_in),
            system_load: summed(self.system_load, other.system_load),
            battery_power: summed(self.battery_power, other.battery_power),
            adapter_power: summed(self.adapter_power, other.adapter_power),
            brightness_power: summed(self.brightness_power, other.brightness_power),
            heatpipe_power: summed(self.heatpipe_power, other.heatpipe_power),
            battery_level: if self.battery_level + other.battery_level > i32::MAX {
                i32::MAX
            } else if self.battery_level + other.battery_level < i32::MIN {
                i32::MIN
            } else {
                (self.battery_level + other.battery_level) as i32
            },
            absolute_battery_level: summed(
                self.absolute_battery_level,
                other.absolute_battery_level,
            ),
            temperature: summed(self.temperature, other.temperature),
            adapter_watts: summed(self.adapter_watts, other.adapter_watts),
            adapter_voltage: summed(self.adapter_voltage, other.adapter_voltage),
            adapter_amperage: summed(self.adapter_amperage, other.adapter_amperage),
        }
    }

    /// Field by field, the quotient by `n`, rounded toward zero.
    pub open spec fn spec_div(self, n: u32) -> NormalizedData {
        NormalizedData {
            system_in: shared(self.system_in, n),
            system_load: shared(self.system_load, n),
            battery_power: shared(self.battery_power, n),
            adapter_power: shared(self.adapter_power, n),
            brightness_power: shared(self.brightness_power, n),
            heatpipe_power: shared(self.heatpipe_power, n),
            battery_level: div_toward_zero(self.battery_level as int, n as int) as i32,
            absolute_battery_level: shared(self.absolute_battery_level, n),
            temperature: shared(self.temperature, n),
            adapter_watts: shared(self.adapter_watts, n),
            adapter_voltage: shared(self.adapter_voltage, n),
            adapter_amperage: shared(self.adapter_amperage, n),
        }
    }

    /// Field by field, the sum, each cut off at the range of its type.
    pub fn plus(self, other: &Self) -> (r: Self)
        ensures
            r == self.spec_plus(*other),
    {
        let level: i64 = self.battery_level as i64 + other.battery_level as i64;
        NormalizedData {
            system_in: self.system_in.plus(other.system_in),
            system_load: self.system_load.plus(other.system_load),
            battery_power: self.battery_power.plus(other.battery_power),
            adapter_power: self.adapter_power.plus(other.adapter_power),
            brightness_power: self.brightness_power.plus(other.brightness_power),
            heatpipe_power: self.heatpipe_power.plus(other.heatpipe_power),
            battery_level: if level > i32::MAX as i64 {
                i32::MAX
            } else if level < i32::MIN as i64 {
                i32::MIN
            } else {
                level as i32
            },
            absolute_battery_level: self.absolute_battery_level.plus(other.absolute_battery_level),
            temperature: self.temperature.plus(other.temperature),
            adapter_watts: self.adapter_watts.plus(other.adapter_watts),
            adapter_voltage: self.adapter_voltage.plus(other.adapter_voltage),
            adapter_amperage: self.adapter_amperage.plus(other.adapter_amperage),
        }
    }

    /// Field by field, the larger of the two.
    pub fn max_with(self, other: &Self) -> (r: Self)
        ensures
            r == self.spec_max_with(*other),
    {
        NormalizedData {
            system_in: self.system_in.max(other.system_in),
            system_load: self.system_load.max(other.system_load),
            battery_power: self.battery_power.max(other.battery_power),
            adapter_power: self.adapter_power.max(other.adapter_power),
            brightness_power: self.brightness_power.max(other.brightness_power),
            heatpipe_power: self.heatpipe_power.max(other.heatpipe_power),
            battery_level: if self.battery_level >= other.battery_level {
                self.battery_level
            } else {
                other.battery_level
            },
            absolute_battery_level: self.absolute_battery_level.max(other.absolute_battery_level),
            temperature: self.temperature.max(other.temperature),
            adapter_watts: self.adapter_watts.max(other.adapter_watts),
            adapter_voltage: self.adapter_voltage.max(other.adapter_voltage),
            adapter_amperage: self.adapter_amperage.max(other.adapter_amperage),
        }
    }

    /// Field by field, the quotient by a positive whole number, rounded
    /// toward zero.
    pub fn div(self, rhs: u32) -> (r: Self)
        requires
            rhs != 0,
        ensures
            r == self.spec_div(rhs),
    {
        let level: i64 = self.battery_level as i64;
        let part: i64 = if level >= 0 {
            level / rhs as i64
        } else {
            -((-level) / rhs as i64)
        };
        proof {
            vstd::arithmetic::div_mod::lemma_div_nonincreasing(
                if level >= 0 {
                    level as int
                } else {
                    -level as int
                },
                rhs as int,
            );
            vstd::arithmetic::div_mod::lemma_div_pos_is_pos(
                if level >= 0 {
                    level as int
                } else {
                    -level as int
                },
                rhs as int,
            );
        }
        NormalizedData {
            system_in: self.system_in.div(rhs),
            system_load: self.system_load.div(rhs),
            battery_power: self.battery_power.div(rhs),
            adapter_power: self.adapter_power.div(rhs),
            brightness_power: self.brightness_power.div(rhs),
            heatpipe_power: self.heatpipe_power.div(rhs),
            battery_level: part as i32,
            absolute_battery_level: self.absolute_battery_level.div(rhs),
            temperature: self.temperature.div(rhs),
            adapter_watts: self.adapter_watts.div(rhs),
            adapter_voltage: self.adapter_voltage.div(rhs),
            adapter_amperage: self.adapter_amperage.div(rhs),
        }
    }
}

impl Default for NormalizedData {
    fn default() -> (r: Self)
        ensures
            r == NormalizedData::zeroed(),
    {
        let z = Milli { raw: 0 };
        NormalizedData {
            system_in: z,
            system_load: z,
            battery_power: z,
            adapter_power: z,
            brightness_power: z,
            heatpipe_power: z,
            battery_level: 0,
            absolute_battery_level: z,
            temperature: z,
            adapter_watts: z,
            adapter_voltage: z,
            adapter_amperage: z,
        }
    }
}

/// The battery's charge in percent of what it can hold now, in thousandths:
/// the raw current capacity over the raw maximum capacity, times one
/// hundred. Zero where the maximum is zero.
pub open spec fn absolute_level(io: IORegistry) -> int {
    ratio_thousandths(io.apple_raw_current_capacity * 100, io.apple_raw_max_capacity as int)
}

/// The metrics that the registry alone determines: the level, the
/// temperature from hundredths of a degree, and the adapter's rating, its
/// voltage and current from milli-units.
pub open spec fn registry_base(io: IORegistry) -> NormalizedData {
    NormalizedData {
        battery_level: io.current_capacity,
        absolute_battery_level: Milli { raw: absolute_level(io) as i64 },
        temperature: Milli { raw: (io.temperature * 10) as i64 },
        adapter_watts: Milli { raw: (or_zero(io.adapter_details.watts) * 1000) as i64 },
        adapter_voltage: Milli { raw: or_zero(io.adapter_details.adapter_voltage) as i64 },
        adapter_amperage: Milli { raw: or_zero(io.adapter_details.current) as i64 },
        ..NormalizedData::zeroed()
    }
}

/// The metrics of a snapshot of the registry. The four powers come from the
/// telemetry record, milliwatts read as thousandths of a watt, the adapter's
/// power being what comes in plus what the adapter loses; without the record
/// the four are zero.
pub open spec fn registry_metrics(io: IORegistry) -> NormalizedData {
    match io.power_telemetry_data {
        Some(d) => NormalizedData {
            system_in: Milli { raw: d.system_power_in as i64 },
            system_load: Milli { raw: d.system_load },
            battery_power: Milli { raw: d.battery_power },
            adapter_power: Milli { raw: (d.system_power_in + d.adapter_efficiency_loss) as i64 },
            ..registry_base(io)
        },
        None => registry_base(io),
    }
}

/// What the adapter loses, in thousandths of a watt; zero without the
/// telemetry record.
pub open spec fn efficiency_loss(io: IORegistry) -> int {
    match io.power_telemetry_data {
        Some(d) => d.adapter_efficiency_loss as int,
        None => 0,
    }
}

/// The metrics of a sensor reading beside a snapshot of the registry. What
/// comes in is the delivery rate, the load is the system total, and the
/// battery's power is its rate or what is left of the delivery after the
/// load, whichever is larger. Each channel is rounded to the nearest
/// thousandth before it is reckoned with. The adapter's power is the delivery plus what
/// the registry says the adapter loses.
pub open spec fn sensor_metrics(io: IORegistry, smc: SMCPowerData) -> NormalizedData {
    NormalizedData {
        system_in: smc.delivery_rate.milli(),
        system_load: smc.system_total.milli(),
        battery_power: larger(
            smc.battery_rate.milli(),
            Milli {
                raw: clamp(smc.delivery_rate.milli().raw - smc.system_total.milli().raw) as i64,
            },
        ),
        adapter_power: Milli {
            raw: clamp(smc.delivery_rate.milli().raw + efficiency_loss(io)) as i64,
        },
        brightness_power: smc.brightness.milli(),
        heatpipe_power: smc.heatpipe.milli(),
        temperature: smc.temperature.milli(),
        ..registry_base(io)
    }
}

/// The time that the registry says is left, in milliseconds; zero where it
/// reports none.
pub open spec fn registry_time_remain(io: IORegistry) -> int {
    if io.time_remaining > 0 {
        io.time_remaining * 60_000
    } else {
        0
    }
}

/// The time that the sensors say is left, in milliseconds: sixty times the
/// minutes to full while charging, to empty otherwise; zero where that is
/// not positive.
pub open spec fn sensor_time_remain(smc: SMCPowerData) -> int {
    let minutes = if smc.charging() {
        smc.time_to_full.milli().raw
    } else {
        smc.time_to_empty.milli().raw
    };
    if minutes <= 0 {
        0
    } else if minutes * 60 > u64::MAX {
        u64::MAX as int
    } else {
        minutes * 60
    }
}

impl NormalizedResource {
    /// The record of a snapshot of the registry alone.
    pub open spec fn of_registry(io: IORegistry) -> NormalizedResource {
        NormalizedResource {
            is_local: false,
            is_charging: io.is_charging,
            time_remain: registry_time_remain(io) as u64,
            last_update: io.update_time,
            adapter_name: io.adapter_details.display_name(),
            data: registry_metrics(io),
        }
    }

    /// The record of a sensor reading beside a snapshot of the registry.
    pub open spec fn of_sensor(io: IORegistry, smc: SMCPowerData) -> NormalizedResource {
        NormalizedResource {
            is_local: true,
            is_charging: smc.charging(),
            time_remain: sensor_time_remain(smc) as u64,
            last_update: io.update_time,
            adapter_name: io.adapter_details.display_name(),
            data: sensor_metrics(io, smc),
        }
    }

    /// The record of a snapshot of the registry alone, as a companion device
    /// sends it.
    pub fn from_registry(io: &IORegistry) -> (r: NormalizedResource)
        ensures
            r == NormalizedResource::of_registry(*io),
    {
        let base = registry_base_of(io);
        let data = match io.ptd() {
            Some(d) => NormalizedData {
                system_in: Milli::from_raw(d.system_power_in as i64),
                system_load: Milli::from_raw(d.system_load),
                battery_power: Milli::from_raw(d.battery_power),
                adapter_power: Milli::from_raw(
                    d.system_power_in as i64 + d.adapter_efficiency_loss as i64,
                ),
                ..base
            },
            None => base,
        };
        let time_remain: u64 = if io.time_remaining > 0 {
            io.time_remaining as u64 * 60_000
        } else {
            0
        };
        NormalizedResource {
            is_local: false,
            is_charging: io.is_charging,
            time_remain,
            last_update: io.update_time,
            adapter_name: io.adapter_details.label(),
            data,
        }
    }

    /// The record of a sensor reading beside a snapshot of the registry, as
    /// the host itself gives them.
    pub fn from_sensor(io: &IORegistry, smc: &SMCPowerData) -> (r: NormalizedResource)
        ensures
            r == NormalizedResource::of_sensor(*io, *smc),
    {
        let base = registry_base_of(io);
        let loss: i64 = match io.ptd() {
            Some(d) => d.adapter_efficiency_loss as i64,
            None => 0,
        };
        let delivery = smc.delivery_rate.to_milli();
        let load = smc.system_total.to_milli();
        let data = NormalizedData {
            system_in: delivery,
            system_load: load,
            battery_power: smc.battery_rate.to_milli().max(delivery.minus(load)),
            adapter_power: delivery.plus(Milli::from_raw(loss)),
            brightness_power: smc.brightness.to_milli(),
            heatpipe_power: smc.heatpipe.to_milli(),
            temperature: smc.temperature.to_milli(),
            ..base
        };
        let minutes: i64 = if smc.is_charging() {
            smc.time_to_full.to_milli().raw
        } else {
            smc.time_to_empty.to_milli().raw
        };
        let time_remain: u64 = if minutes <= 0 {
            0
        } else if minutes as u128 * 60 > u64::MAX as u128 {
            u64::MAX
        } else {
            minutes as u64 * 60
        };
        NormalizedResource {
            is_local: true,
            is_charging: smc.is_charging(),
            time_remain,
            last_update: io.update_time,
            adapter_name: io.adapter_details.label(),
            data,
        }
    }
}

impl<'a> From<&'a IORegistry> for NormalizedResource {
    fn from(io: &'a IORegistry) -> (r: Self) {
        NormalizedResource::from_registry(io)
    }
}

impl<'a> vstd::std_specs::convert::FromSpecImpl<&'a IORegistry> for NormalizedResource {
    open spec fn obeys_from_spec() -> bool {
        true
    }

    open spec fn from_spec(io: &'a IORegistry) -> Self {
        NormalizedResource::of_registry(*io)
    }
}

impl<'a> From<(&'a IORegistry, &'a SMCPowerData)> for NormalizedResource {
    fn from(pair: (&'a IORegistry, &'a SMCPowerData)) -> (r: Self) {
        NormalizedResource::from_sensor(pair.0, pair.1)
    }
}

impl<'a> vstd::std_specs::convert::FromSpecImpl<(&'a IORegistry, &'a SMCPowerData)> for NormalizedResource {
    open spec fn obeys_from_spec() -> bool {
        true
    }

    open spec fn from_spec(pair: (&'a IORegistry, &'a SMCPowerData)) -> Self {
        NormalizedResource::of_sensor(*pair.0, *pair.1)
    }
}

/// The metrics that the registry alone determines.
fn registry_base_of(io: &IORegistry) -> (r: NormalizedData)
    ensures
        r == registry_base(*io),
{
    let watts: i64 = match io.adapter_details.watts {
        Some(w) => w as i64,
        None => 0,
    };
    let voltage: i64 = match io.adapter_details.adapter_voltage {
        Some(v) => v as i64,
        None => 0,
    };
    let current: i64 = match io.adapter_details.current {
        Some(c) => c as i64,
        None => 0,
    };
    let z = Milli::zero();
    NormalizedData {
        system_in: z,
        system_load: z,
        battery_power: z,
        adapter_power: z,
        brightness_power: z,
        heatpipe_power: z,
        battery_level: io.current_capacity,
        absolute_battery_level: Milli::from_ratio(
            io.apple_raw_current_capacity as i64 * 100,
            io.apple_raw_max_capacity as i64,
        ),
        temperature: Milli::from_raw(io.temperature as i64 * 10),
        adapter_watts: Milli::from_raw(watts * 1000),
        adapter_voltage: Milli::from_raw(voltage),
        adapter_amperage: Milli::from_raw(current),
    }
}

impl Clone for NormalizedResource {
    fn clone(&self) -> (r: Self)
        ensures
            r == *self,
    {
        NormalizedResource {
            is_local: self.is_local,
            is_charging: self.is_charging,
            time_remain: self.time_remain,
            last_update: self.last_update,
            adapter_name: crate::de::clone_text(&self.adapter_name),
            data: self.data,
        }
    }
}

impl Default for NormalizedResource {
    fn default() -> (r: Self)
        ensures
            r == (NormalizedResource {
                is_local: false,
                is_charging: false,
                time_remain: 0,
                last_update: 0,
                adapter_name: None,
                data: NormalizedData::zeroed(),
            }),
    {
        NormalizedResource {
            is_local: false,
            is_charging: false,
            time_remain: 0,
            last_update: 0,
            adapter_name: None,
            data: NormalizedData::default(),
        }
    }
}

/// Where a reading comes from.
#[derive(Debug, PartialEq, Eq)]
pub enum PowerDataFrom {
    /// The host itself.
    Local,
    /// A companion device: its identifier, its name, and how it is reached.
    Remote((String, String, InterfaceType)),
}

impl Default for PowerDataFrom {
    fn default() -> (r: Self)
        ensures
            r is Local,
    {
        PowerDataFrom::Local
    }
}

/// What one acquisition cycle has gathered of one source.
#[derive(Debug, PartialEq, Eq)]
pub struct MergedPowerData {
    pub from: PowerDataFrom,
    pub smc: Option<SMCPowerData>,
    pub ioreg: IORegistry,
}

impl MergedPowerData {
    /// The record that the gathered data normalises to. A reading of the
    /// host with its sensors goes by the sensors; one without them, and
    /// every reading of a companion device, goes by the registry.
    pub open spec fn normalized(self) -> NormalizedResource {
        match self.from {
            PowerDataFrom::Local => match self.smc {
                Some(smc) => NormalizedResource::of_sensor(self.ioreg, smc),
                None => NormalizedResource {
                    is_local: true,
                    ..NormalizedResource::of_registry(self.ioreg)
                },
            },
            PowerDataFrom::Remote(_) => NormalizedResource::of_registry(self.ioreg),
        }
    }

    /// Normalises what was gathered into the one record that consumers
    /// read. The result depends on nothing but the input.
    pub fn normalize(&self) -> (r: NormalizedResource)
        ensures
            r == self.normalized(),
            r.is_local == (self.from is Local),
    {
        match &self.from {
            PowerDataFrom::Local => match &self.smc {
                Some(smc) => NormalizedResource::from_sensor(&self.ioreg, smc),
                None => {
                    let mut r = NormalizedResource::from_registry(&self.ioreg);
                    r.is_local = true;
                    r
                },
            },
            PowerDataFrom::Remote(_) => NormalizedResource::from_registry(&self.ioreg),
        }
    }
}

/// The snapshot of the host's own registry entry, from the property list
/// that the entry's dictionary was written out as. Without the bytes,
/// writing it out has failed. Bytes that the parser cannot take are refused
/// unparsed.
pub fn get_mac_ioreg(xml: Option<&[u8]>) -> (r: Result<IORegistry, DictParseError>)
    ensures
        xml is None ==> r matches Err(DictParseError::XmlData),
        xml matches Some(bytes) ==> match refusal(bytes@) {
            Some(DictParseError::Unsupported) => r matches Err(DictParseError::Unsupported),
            Some(_) => r matches Err(DictParseError::TooDeep),
            None => match plist_tree(bytes@) {
                None => r matches Err(DictParseError::Deserialize(_)),
                Some(node) => match decoded(node, Naming::Pascal) {
                    Ok(io) => r matches Ok(got) && got == io,
                    Err(e) => r matches Err(DictParseError::Schema(s)) && s == e,
                },
            },
        },
{
    let node = match dict_into(xml) {
        Ok(node) => node,
        Err(e) => {
            return Err(e);
        },
    };
    match decode(&node, Naming::Pascal) {
        Ok(io) => Ok(io),
        Err(e) => Err(DictParseError::Schema(e)),
    }
}

/// Normalising is a function of its input: the same input gives the same
/// record, whatever was normalised before.
pub proof fn lemma_normalize_is_a_function(a: MergedPowerData, b: MergedPowerData)
    requires
        a == b,
    ensures
        a.normalized() == b.normalized(),
{
}

/// What a source shows of itself at one moment. Powers are in milliwatts,
/// the levels in percent, the temperature in degrees, the times in
/// milliseconds and seconds.
pub struct Readout {
    pub system_in: Milli,
    pub system_load: Milli,
    pub battery_power: Milli,
    pub adapter_power: Milli,
    pub brightness_power: Milli,
    pub absolute_battery_level: Milli,
    pub is_charging: bool,
    pub time_remain: u64,
    pub last_update: u64,
    pub is_local: bool,
    pub temperature: Milli,
}

/// A source of power data that is kept up to date: the host or a companion
/// device.
pub trait Resource {
    /// What the source shows of itself.
    spec fn readout(&self) -> Readout;

    /// The snapshot of the registry that the source holds.
    spec fn registry(&self) -> IORegistry;

    /// The sensor reading that the source holds, if it has sensors.
    spec fn sensors(&self) -> Option<SMCPowerData>;

    /// Whether the source can take in what was gathered.
    spec fn accepts(&self, data: MergedPowerData) -> bool;

    /// The name that the source goes by.
    spec fn title(&self) -> String;

    /// Whether the source stands as it does after `before` took in what was
    /// gathered.
    spec fn follows(&self, before: &Self, data: MergedPowerData) -> bool;

    /// The name of the source.
    fn name(&self) -> (r: String)
        ensures
            r == self.title(),
    ;

    /// The power that comes in.
    fn system_in(&self) -> (r: Milli)
        ensures
            r == self.readout().system_in,
    ;

    /// The power that the system uses.
    fn system_load(&self) -> (r: Milli)
        ensures
            r == self.readout().system_load,
    ;

    /// The power that goes to or comes from the battery.
    fn battery_power(&self) -> (r: Milli)
        ensures
            r == self.readout().battery_power,
    ;

    /// The power that the adapter draws: what comes in and what it loses.
    fn adapter_power(&self) -> (r: Milli)
        ensures
            r == self.readout().adapter_power,
    ;

    /// The power that the display uses; zero where it is not known.
    fn brightness_power(&self) -> (r: Milli)
        ensures
            r == self.readout().brightness_power,
    ;

    /// The battery's charge in percent of what it can hold now.
    fn absolute_battery_level(&self) -> (r: Milli)
        ensures
            r == self.readout().absolute_battery_level,
    ;

    /// Whether the battery is being charged.
    fn is_charging(&self) -> (r: bool)
        ensures
            r == self.readout().is_charging,
    ;

    /// The time left until the battery is full or empty, in milliseconds.
    fn time_remain(&self) -> (r: u64)
        ensures
            r == self.readout().time_remain,
    ;

    /// The time of the last update, in seconds.
    fn last_update(&self) -> (r: u64)
        ensures
            r == self.readout().last_update,
    ;

    /// Whether the source is the host itself.
    fn is_local(&self) -> (r: bool)
        ensures
            r == self.readout().is_local,
    ;

    /// The temperature of the battery.
    fn temperature(&self) -> (r: Milli)
        ensures
            r == self.readout().temperature,
    ;

    /// The snapshot of the registry that the source holds.
    fn raw_data(&self) -> (r: &IORegistry)
        ensures
            *r == self.registry(),
    ;

    /// The sensor reading that the source holds, if it has sensors.
    fn smc(&self) -> (r: Option<&SMCPowerData>)
        ensures
            r is Some <==> self.sensors() is Some,
            r matches Some(s) ==> Some(*s) == self.sensors(),
    ;

    /// Takes in what one acquisition cycle has gathered.
    fn update(&mut self, data: MergedPowerData)
        requires
            old(self).accepts(data),
        ensures
            final(self).follows(old(self), data),
    ;
}

/// A source of either kind.
#[derive(Debug)]
pub enum PowerResource {
    Local(LocalResource),
    Remote(RemoteResource),
}

impl Resource for PowerResource {
    open spec fn readout(&self) -> Readout {
        match self {
            PowerResource::Local(r) => r.readout(),
            PowerResource::Remote(r) => r.readout(),
        }
    }

    open spec fn registry(&self) -> IORegistry {
        match self {
            PowerResource::Local(r) => r.registry(),
            PowerResource::Remote(r) => r.registry(),
        }
    }

    open spec fn sensors(&self) -> Option<SMCPowerData> {
        match self {
            PowerResource::Local(r) => r.sensors(),
            PowerResource::Remote(r) => r.sensors(),
        }
    }

    open spec fn accepts(&self, data: MergedPowerData) -> bool {
        match self {
            PowerResource::Local(r) => r.accepts(data),
            PowerResource::Remote(r) => r.accepts(data),
        }
    }

    open spec fn title(&self) -> String {
        match self {
            PowerResource::Local(r) => r.title(),
            PowerResource::Remote(r) => r.title(),
        }
    }

    open spec fn follows(&self, before: &Self, data: MergedPowerData) -> bool {
        match (self, before) {
            (PowerResource::Local(after), PowerResource::Local(b)) => after.follows(b, data),
            (PowerResource::Remote(after), PowerResource::Remote(b)) => after.follows(b, data),
            _ => false,
        }
    }

    fn name(&self) -> (r: String) {
        match self {
            PowerResource::Local(r) => r.name(),
            PowerResource::Remote(r) => r.name(),
        }
    }

    fn system_in(&self) -> (r: Milli) {
        match self {
            PowerResource::Local(r) => r.system_in(),
            PowerResource::Remote(r) => r.system_in(),
        }
    }

    fn system_load(&self) -> (r: Milli) {
        match self {
            PowerResource::Local(r) => r.system_load(),
            PowerResource::Remote(r) => r.system_load(),
        }
    }

    fn battery_power(&self) -> (r: Milli) {
        match self {
            PowerResource::Local(r) => r.battery_power(),
            PowerResource::Remote(r) => r.battery_power(),
        }
    }

    fn adapter_power(&self) -> (r: Milli) {
        match self {
            PowerResource::Local(r) => r.adapter_power(),
            PowerResource::Remote(r) => r.adapter_power(),
        }
    }

    fn brightness_power(&self) -> (r: Milli) {
        match self {
            PowerResource::Local(r) => r.brightness_power(),
            PowerResource::Remote(r) => r.brightness_power(),
        }
    }

    fn absolute_battery_level(&self) -> (r: Milli) {
        match self {
            PowerResource::Local(r) => r.absolute_battery_level(),
            PowerResource::Remote(r) => r.absolute_battery_level(),
        }
    }

    fn is_charging(&self) -> (r: bool) {
        match self {
            PowerResource::Local(r) => r.is_charging(),
            PowerResource::Remote(r) => r.is_charging(),
        }
    }

    fn time_remain(&self) -> (r: u64) {
        match self {
            PowerResource::Local(r) => r.time_remain(),
            PowerResource::Remote(r) => r.time_remain(),
        }
    }

    fn last_update(&self) -> (r: u64) {
        match self {
            PowerResource::Local(r) => r.last_update(),
            PowerResource::Remote(r) => r.last_update(),
        }
    }

    fn is_local(&self) -> (r: bool)
        ensures
            r == (self is Local),
    {
        match self {
            PowerResource::Local(r) => r.is_local(),
            PowerResource::Remote(r) => r.is_local(),
        }
    }

    fn temperature(&self) -> (r: Milli) {
        match self {
            PowerResource::Local(r) => r.temperature(),
            PowerResource::Remote(r) => r.temperature(),
        }
    }

    fn raw_data(&self) -> (r: &IORegistry) {
        match self {
            PowerResource::Local(r) => r.raw_data(),
            PowerResource::Remote(r) => r.raw_data(),
        }
    }

    fn smc(&self) -> (r: Option<&SMCPowerData>) {
        match self {
            PowerResource::Local(r) => r.smc(),
            PowerResource::Remote(r) => r.smc(),
        }
    }

    fn update(&mut self, data: MergedPowerData) {
        match self {
            PowerResource::Local(r) => r.update(data),
            PowerResource::Remote(r) => r.update(data),
        }
    }
}

/// The sequence after `value` has been appended and, where that made it
/// longer than `cap`, its oldest item dropped.
pub open spec fn pushed(history: Seq<u64>, value: u64, cap: nat) -> Seq<u64> {
    let grown = history.push(value);
    if grown.len() > cap {
        grown.subrange(1, grown.len() as int)
    } else {
        grown
    }
}

/// The history after every value of `values` has been pushed in turn.
pub open spec fn pushed_all(history: Seq<u64>, values: Seq<u64>, cap: nat) -> Seq<u64>
    decreases values.len(),
{
    if values.len() == 0 {
        history
    } else {
        pushed(pushed_all(history, values.drop_last(), cap), values.last(), cap)
    }
}

/// The magnitude of a quantity in whole units.
pub open spec fn magnitude(v: Milli) -> u64 {
    ((if v.raw >= 0 {
        v.raw as int
    } else {
        -(v.raw as int)
    }) / 1000) as u64
}

/// The bar type of the sparkline widget. Nothing in it is visible here.
#[verifier::external_type_specification]
#[verifier::external_body]
pub struct ExSparklineBar(SparklineBar);

/// The bar that the widget makes of a magnitude.
pub uninterp spec fn bar_of(value: u64) -> SparklineBar;

/// The bar of a magnitude, made by the widget's own conversion,
/// `SparklineBar::from`. The contract says only that the bar is a function
/// of the magnitude.
#[verifier::external_body]
fn sparkline_bar(value: u64) -> (r: SparklineBar)
    ensures
        r == bar_of(value),
{
    SparklineBar::from(value)
}

/// The bars of a sequence of magnitudes, one for each, in their order.
pub open spec fn bars_of(values: Seq<u64>) -> Seq<SparklineBar> {
    Seq::new(values.len(), |i: int| bar_of(values[i]))
}

/// The bars of a sequence of magnitudes, one for each, in their order.
pub fn bars(values: &Vec<u64>) -> (r: Vec<SparklineBar>)
    ensures
        r@ == bars_of(values@),
{
    let mut out: Vec<SparklineBar> = Vec::new();
    let mut i: usize = 0;
    while i < values.len()
        invariant
            i <= values.len(),
            out@.len() == i,
            forall|j: int| 0 <= j < i ==> out@[j] == bar_of(values@[j]),
        decreases values.len() - i,
    {
        out.push(sparkline_bar(values[i]));
        i = i + 1;
    }
    assert(out@ =~= bars_of(values@));
    out
}

/// The entries that the battery and the input history keep.
pub const SHORT_HISTORY: usize = 50;

/// The entries that the system history keeps.
pub const LONG_HISTORY: usize = 200;

/// The running maxima of three powers and the recent history of each.
#[derive(Debug)]
pub struct PowerStatistic {
    pub max_battery_power: Milli,
    pub max_input_power: Milli,
    pub max_system_power: Milli,
    pub battery_history: VecDeque<u64>,
    pub input_history: VecDeque<u64>,
    pub system_history: VecDeque<u64>,
}

impl PowerStatistic {
    /// No history is longer than its cap.
    pub open spec fn wf(&self) -> bool {
        &&& self.battery_history@.len() <= SHORT_HISTORY
        &&& self.input_history@.len() <= SHORT_HISTORY
        &&& self.system_history@.len() <= LONG_HISTORY
    }

    /// The statistics before anything was recorded: the maxima zero, the
    /// histories empty.
    pub fn new() -> (r: PowerStatistic)
        ensures
            r.wf(),
            r.max_battery_power.raw == 0,
            r.max_input_power.raw == 0,
            r.max_system_power.raw == 0,
            r.battery_history@ == Seq::<u64>::empty(),
            r.input_history@ == Seq::<u64>::empty(),
            r.system_history@ == Seq::<u64>::empty(),
    {
        PowerStatistic {
            max_battery_power: Milli::zero(),
            max_input_power: Milli::zero(),
            max_system_power: Milli::zero(),
            battery_history: VecDeque::new(),
            input_history: VecDeque::new(),
            system_history: VecDeque::new(),
        }
    }

    /// Records one moment: each maximum becomes the larger of itself and the
    /// new power, and the magnitude of each power in whole units goes to
    /// the end of its history, whose oldest entry leaves where the history
    /// has outgrown its cap.
    pub fn update(&mut self, battery_power: Milli, input_power: Milli, system_power: Milli)
        ensures
            final(self).max_battery_power == larger(old(self).max_battery_power, battery_power),
            final(self).max_input_power == larger(old(self).max_input_power, input_power),
            final(self).max_system_power == larger(old(self).max_system_power, system_power),
            final(self).max_battery_power.raw >= old(self).max_battery_power.raw,
            final(self).max_input_power.raw >= old(self).max_input_power.raw,
            final(self).max_system_power.raw >= old(self).max_system_power.raw,
            final(self).battery_history@ == pushed(
                old(self).battery_history@,
                magnitude(battery_power),
                SHORT_HISTORY as nat,
            ),
            final(self).input_history@ == pushed(
                old(self).input_history@,
                magnitude(input_power),
                SHORT_HISTORY as nat,
            ),
            final(self).system_history@ == pushed(
                old(self).system_history@,
                magnitude(system_power),
                LONG_HISTORY as nat,
            ),
            old(self).wf() ==> final(self).wf(),
    {
        if battery_power.raw > self.max_battery_power.raw {
            self.max_battery_power = battery_power;
        }
        if input_power.raw > self.max_input_power.raw {
            self.max_input_power = input_power;
        }
        if system_power.raw > self.max_system_power.raw {
            self.max_system_power = system_power;
        }
        self.battery_history.push_back(battery_power.abs_floor());
        if self.battery_history.len() > SHORT_HISTORY {
            self.battery_history.pop_front();
        }
        self.input_history.push_back(input_power.abs_floor());
        if self.input_history.len() > SHORT_HISTORY {
            self.input_history.pop_front();
        }
        self.system_history.push_back(system_power.abs_floor());
        if self.system_history.len() > LONG_HISTORY {
            self.system_history.pop_front();
        }
    }

    /// The most recent `width` magnitudes of the battery's power as bars of
    /// a sparkline, oldest first; all of them where fewer are kept.
    pub fn battery_history(&self, width: usize) -> (r: Vec<SparklineBar>)
        ensures
            r@ == bars_of(latest(self.battery_history@, width as nat)),
    {
        bars(&skip_until(&self.battery_history, width))
    }

    /// The most recent `width` magnitudes of the input power as bars of a
    /// sparkline, oldest first; all of them where fewer are kept.
    pub fn input_history(&self, width: usize) -> (r: Vec<SparklineBar>)
        ensures
            r@ == bars_of(latest(self.input_history@, width as nat)),
    {
        bars(&skip_until(&self.input_history, width))
    }

    /// The most recent `width` magnitudes of the system's power as bars of a
    /// sparkline, oldest first; all of them where fewer are kept.
    pub fn system_history(&self, width: usize) -> (r: Vec<SparklineBar>)
        ensures
            r@ == bars_of(latest(self.system_history@, width as nat)),
    {
        bars(&skip_until(&self.system_history, width))
    }

    /// The most recent `width` magnitudes of the battery's power, oldest
    /// first; all of them where fewer are kept.
    pub fn battery_window(&self, width: usize) -> (r: Vec<u64>)
        ensures
            r@ == latest(self.battery_history@, width as nat),
    {
        skip_until(&self.battery_history, width)
    }

    /// The most recent `width` magnitudes of the input power, oldest first;
    /// all of them where fewer are kept.
    pub fn input_window(&self, width: usize) -> (r: Vec<u64>)
        ensures
            r@ == latest(self.input_history@, width as nat),
    {
        skip_until(&self.input_history, width)
    }

    /// The most recent `width` magnitudes of the system's power, oldest
    /// first; all of them where fewer are kept.
    pub fn system_window(&self, width: usize) -> (r: Vec<u64>)
        ensures
            r@ == latest(self.system_history@, width as nat),
    {
        skip_until(&self.system_history, width)
    }
}

impl Default for PowerStatistic {
    fn default() -> (r: Self)
        ensures
            r.wf(),
            r.max_battery_power.raw == 0,
            r.max_input_power.raw == 0,
            r.max_system_power.raw == 0,
            r.battery_history@ == Seq::<u64>::empty(),
            r.input_history@ == Seq::<u64>::empty(),
            r.system_history@ == Seq::<u64>::empty(),
    {
        PowerStatistic::new()
    }
}

/// A history that starts within its cap keeps, after any number of pushes,
/// the most recent `cap` of all that it has held and was given, in their
/// order, and never more than `cap`.
pub proof fn lemma_history_keeps_latest(history: Seq<u64>, values: Seq<u64>, cap: nat)
    requires
        history.len() <= cap,
        cap > 0,
    ensures
        pushed_all(history, values, cap) == latest(history + values, cap),
        pushed_all(history, values, cap).len() <= cap,
    decreases values.len(),
{
    if values.len() == 0 {
        assert(history + values =~= history);
        assert(history.subrange(0, history.len() as int) =~= history);
    } else {
        let head = values.drop_last();
        lemma_history_keeps_latest(history, head, cap);
        let before = pushed_all(history, head, cap);
        let all = history + values;
        assert(all =~= (history + head).push(values.last()));
        assert(pushed(before, values.last(), cap) =~= latest(all, cap));
    }
}

/// A history that starts empty holds, after any number of pushes, exactly the
/// last `cap` of the values pushed, in their order: all of them while they
/// are no more than `cap`.
pub proof fn lemma_fresh_history_keeps_latest(values: Seq<u64>, cap: nat)
    requires
        cap > 0,
    ensures
        pushed_all(Seq::<u64>::empty(), values, cap) == latest(values, cap),
        values.len() >= cap ==> pushed_all(Seq::<u64>::empty(), values, cap) == values.subrange(
            values.len() - cap,
            values.len() as int,
        ),
        values.len() <= cap ==> pushed_all(Seq::<u64>::empty(), values, cap) == values,
{
    lemma_history_keeps_latest(Seq::<u64>::empty(), values, cap);
    assert(Seq::<u64>::empty() + values =~= values);
    assert(values.subrange(0, values.len() as int) =~= values);
}

} // verus!
