//! The host as a source: its sensors beside its registry entry.
use crate::de::IORegistry;
use crate::ffi::smc::SMCPowerData;
use crate::milli::{clamp, ratio_thousandths, Milli};
use crate::provider::{
    larger, magnitude, pushed, sensor_time_remain, MergedPowerData, PowerStatistic, Readout,
    Resource, LONG_HISTORY, SHORT_HISTORY,
};
use vstd::prelude::*;

verus! {

/// The host: the last sensor reading, the last snapshot of the registry that
/// was taken over, and the statistics over both.
#[derive(Debug)]
pub struct LocalResource {
    /// The name of the host, as the application found it.
    pub name: String,
    pub data: SMCPowerData,
    pub ioreg: IORegistry,
    /// What the adapter loses, in milliwatts.
    pub efficiency_loss: Milli,
    pub last_update: i64,
    pub statistic: PowerStatistic,
}

/// A sensor channel in watts, read in milliwatts.
pub open spec fn milliwatts(watts: Milli) -> Milli {
    Milli { raw: clamp(watts.raw * 1000) as i64 }
}

impl LocalResource {
    /// The host before anything was read.
    pub fn new(name: String) -> (r: LocalResource)
        ensures
            r.name == name,
            r.data == SMCPowerData::zeroed(),
            r.ioreg == IORegistry::empty(),
            r.efficiency_loss.raw == 0,
            r.last_update == 0,
            r.statistic.wf(),
            r.statistic.max_battery_power.raw == 0,
            r.statistic.max_input_power.raw == 0,
            r.statistic.max_system_power.raw == 0,
            r.statistic.battery_history@.len() == 0,
            r.statistic.input_history@.len() == 0,
            r.statistic.system_history@.len() == 0,
    {
        LocalResource {
            name,
            data: SMCPowerData::default(),
            ioreg: IORegistry::default(),
            efficiency_loss: Milli::zero(),
            last_update: 0,
            statistic: PowerStatistic::new(),
        }
    }
}

impl Resource for LocalResource {
    open spec fn readout(&self) -> Readout {
        Readout {
            system_in: milliwatts(self.data.delivery_rate.milli()),
            system_load: milliwatts(self.data.system_total.milli()),
            battery_power: milliwatts(self.data.battery_rate.milli()),
            adapter_power: Milli {
                raw: clamp(
                    milliwatts(self.data.delivery_rate.milli()).raw + self.efficiency_loss.raw,
                ) as i64,
            },
            brightness_power: self.data.brightness.milli(),
            absolute_battery_level: Milli {
                raw: ratio_thousandths(
                    self.data.current_capacity.milli().raw * 100,
                    self.data.full_charge_capacity.milli().raw as int,
                ) as i64,
            },
            is_charging: self.data.charging(),
            time_remain: sensor_time_remain(self.data) as u64,
            last_update: if self.last_update < 0 {
                0
            } else {
                self.last_update as u64
            },
            is_local: true,
            temperature: self.data.temperature.milli(),
        }
    }

    open spec fn registry(&self) -> IORegistry {
        self.ioreg
    }

    open spec fn sensors(&self) -> Option<SMCPowerData> {
        Some(self.data)
    }

    open spec fn accepts(&self, data: MergedPowerData) -> bool {
        data.smc is Some
    }

    open spec fn title(&self) -> String {
        self.name
    }

    /// How the host stands after it took in what was gathered. The sensor
    /// reading is taken over in any case. A snapshot of the registry that is
    /// newer than the last one only moves the time of the last update on;
    /// any other is taken over, and the three powers go into the
    /// statistics.
    open spec fn follows(&self, before: &Self, data: MergedPowerData) -> bool {
        let fresh = LocalResource { data: data.smc.unwrap(), ..*before };
        &&& self.name == before.name
        &&& self.data == data.smc.unwrap()
        &&& self.efficiency_loss == before.efficiency_loss
        &&& if data.ioreg.update_time > before.last_update {
            &&& self.last_update == data.ioreg.update_time
            &&& self.ioreg == before.ioreg
            &&& self.statistic == before.statistic
        } else {
            &&& self.last_update == before.last_update
            &&& self.ioreg == data.ioreg
            &&& self.statistic.max_battery_power == larger(
                before.statistic.max_battery_power,
                fresh.readout().battery_power,
            )
            &&& self.statistic.max_input_power == larger(
                before.statistic.max_input_power,
                fresh.readout().system_in,
            )
            &&& self.statistic.max_system_power == larger(
                before.statistic.max_system_power,
                fresh.readout().system_load,
            )
            &&& self.statistic.battery_history@ == pushed(
                before.statistic.battery_history@,
                magnitude(fresh.readout().battery_power),
                SHORT_HISTORY as nat,
            )
            &&& self.statistic.input_history@ == pushed(
                before.statistic.input_history@,
                magnitude(fresh.readout().system_in),
                SHORT_HISTORY as nat,
            )
            &&& self.statistic.system_history@ == pushed(
                before.statistic.system_history@,
                magnitude(fresh.readout().system_load),
                LONG_HISTORY as nat,
            )
        }
    }

    fn name(&self) -> (r: String) {
        self.name.clone()
    }

    fn system_in(&self) -> (r: Milli) {
        self.data.delivery_rate.to_milli().times(1000)
    }

    fn system_load(&self) -> (r: Milli) {
        self.data.system_total.to_milli().times(1000)
    }

    fn battery_power(&self) -> (r: Milli) {
        self.data.battery_rate.to_milli().times(1000)
    }

    fn adapter_power(&self) -> (r: Milli) {
        self.system_in().plus(self.efficiency_loss)
    }

    fn brightness_power(&self) -> (r: Milli) {
        self.data.brightness.to_milli()
    }

    fn absolute_battery_level(&self) -> (r: Milli) {
        self.data.current_capacity.to_milli().percent_of(self.data.full_charge_capacity.to_milli())
    }

    fn is_charging(&self) -> (r: bool) {
        self.data.is_charging()
    }

    fn time_remain(&self) -> (r: u64) {
        let minutes: i64 = if self.data.is_charging() {
            self.data.time_to_full.to_milli().raw
        } else {
            self.data.time_to_empty.to_milli().raw
        };
        if minutes <= 0 {
            0
        } else if minutes as u128 * 60 > u64::MAX as u128 {
            u64::MAX
        } else {
            minutes as u64 * 60
        }
    }

    fn last_update(&self) -> (r: u64) {
        if self.last_update < 0 {
            0
        } else {
            self.last_update as u64
        }
    }

    fn is_local(&self) -> (r: bool)
        ensures
            r,
    {
        true
    }

    fn temperature(&self) -> (r: Milli) {
        self.data.temperature.to_milli()
    }

    fn raw_data(&self) -> (r: &IORegistry) {
        &self.ioreg
    }

    fn smc(&self) -> (r: Option<&SMCPowerData>) {
        Some(&self.data)
    }

    fn update(&mut self, data: MergedPowerData) {
        match data.smc {
            Some(smc) => {
                self.data = smc;
            },
            None => {},
        }
        if data.ioreg.update_time > self.last_update {
            self.last_update = data.ioreg.update_time;
            return ;
        }
        self.ioreg = data.ioreg;
        let battery = self.battery_power();
        let input = self.system_in();
        let load = self.system_load();
        self.statistic.update(battery, input, load);
    }
}

} // verus!
