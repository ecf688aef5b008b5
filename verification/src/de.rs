//! The power-source registry snapshot.
//!
//! One schema serves both spellings of the field names: the capitalised one
//! that the registry writes and the lower-camel one that consumers read. The
//! spelling is a parameter of the codec in [`crate::codec`], never a second
//! set of types.
use vstd::prelude::*;

verus! {

/// What the registry reports of the attached power adapter. Every field is
/// absent when no adapter is attached.
#[derive(Debug, PartialEq, Eq)]
pub struct AdapterDetails {
    pub adapter_voltage: Option<i32>,
    pub is_wireless: Option<bool>,
    pub watts: Option<i32>,
    pub name: Option<String>,
    pub current: Option<i32>,
    pub description: Option<String>,
}

/// The telemetry record that the registry carries while power comes from
/// outside. Powers are in milliwatts.
#[derive(Debug, Clone, Copy, PartialEq, Eq, Structural)]
pub struct PowerTelemetryData {
    pub adapter_efficiency_loss: i32,
    pub battery_power: i64,
    pub system_current_in: i32,
    pub system_energy_consumed: i64,
    pub system_load: i64,
    pub system_power_in: i32,
    pub system_voltage_in: i32,
}

/// One snapshot of the power-source registry entry.
#[derive(Debug, PartialEq, Eq)]
pub struct IORegistry {
    pub adapter_details: AdapterDetails,
    pub power_telemetry_data: Option<PowerTelemetryData>,
    pub absolute_capacity: i32,
    pub amperage: i32,
    pub voltage: i32,
    pub apple_raw_battery_voltage: Option<i32>,
    pub apple_raw_current_capacity: i32,
    pub apple_raw_max_capacity: i32,
    pub current_capacity: i32,
    pub cycle_count: i32,
    pub design_capacity: i32,
    pub fully_charged: bool,
    pub instant_amperage: i32,
    pub is_charging: bool,
    pub max_capacity: i32,
    /// Hundredths of a degree.
    pub temperature: i32,
    /// Minutes.
    pub time_remaining: i32,
    pub update_time: i64,
}

/// The inner layer of a diagnostics reply.
#[derive(Debug, PartialEq, Eq)]
pub struct Diagnostics {
    pub ioregistry: IORegistry,
}

/// A diagnostics reply of a companion device.
#[derive(Debug, PartialEq, Eq)]
pub struct IORegistryDiagnostic {
    pub diagnostics: Diagnostics,
}

/// A copy of an optional string.
pub fn clone_text(text: &Option<String>) -> (r: Option<String>)
    ensures
        r == *text,
{
    match text {
        Some(s) => Some(s.clone()),
        None => None,
    }
}

impl Clone for AdapterDetails {
    fn clone(&self) -> (r: Self)
        ensures
            r == *self,
    {
        AdapterDetails {
            adapter_voltage: self.adapter_voltage,
            is_wireless: self.is_wireless,
            watts: self.watts,
            name: clone_text(&self.name),
            current: self.current,
            description: clone_text(&self.description),
        }
    }
}

impl Default for AdapterDetails {
    fn default() -> (r: Self)
        ensures
            r == (AdapterDetails {
                adapter_voltage: None,
                is_wireless: None,
                watts: None,
                name: None,
                current: None,
                description: None,
            }),
    {
        AdapterDetails {
            adapter_voltage: None,
            is_wireless: None,
            watts: None,
            name: None,
            current: None,
            description: None,
        }
    }
}

impl AdapterDetails {
    /// The name to show for the adapter: its name, else its description.
    pub open spec fn display_name(self) -> Option<String> {
        if self.name is Some {
            self.name
        } else {
            self.description
        }
    }

    /// The name to show for the adapter: its name, else its description,
    /// else nothing.
    pub fn label(&self) -> (r: Option<String>)
        ensures
            r == self.display_name(),
    {
        match &self.name {
            Some(n) => Some(n.clone()),
            None => clone_text(&self.description),
        }
    }
}

impl Default for PowerTelemetryData {
    fn default() -> (r: Self)
        ensures
            r == (PowerTelemetryData {
                adapter_efficiency_loss: 0,
                battery_power: 0,
                system_current_in: 0,
                system_energy_consumed: 0,
                system_load: 0,
                system_power_in: 0,
                system_voltage_in: 0,
            }),
    {
        PowerTelemetryData {
            adapter_efficiency_loss: 0,
            battery_power: 0,
            system_current_in: 0,
            system_energy_consumed: 0,
            system_load: 0,
            system_power_in: 0,
            system_voltage_in: 0,
        }
    }
}

impl Clone for IORegistry {
    fn clone(&self) -> (r: Self)
        ensures
            r == *self,
    {
        IORegistry {
            adapter_details: self.adapter_details.clone(),
            power_telemetry_data: self.power_telemetry_data,
            absolute_capacity: self.absolute_capacity,
            amperage: self.amperage,
            voltage: self.voltage,
            apple_raw_battery_voltage: self.apple_raw_battery_voltage,
            apple_raw_current_capacity: self.apple_raw_current_capacity,
            apple_raw_max_capacity: self.apple_raw_max_capacity,
            current_capacity: self.current_capacity,
            cycle_count: self.cycle_count,
            design_capacity: self.design_capacity,
            fully_charged: self.fully_charged,
            instant_amperage: self.instant_amperage,
            is_charging: self.is_charging,
            max_capacity: self.max_capacity,
            temperature: self.temperature,
            time_remaining: self.time_remaining,
            update_time: self.update_time,
        }
    }
}

impl IORegistry {
    /// The snapshot with every number zero, every flag off and every
    /// optional part absent.
    pub open spec fn empty() -> IORegistry {
        IORegistry {
            adapter_details: AdapterDetails {
                adapter_voltage: None,
                is_wireless: None,
                watts: None,
                name: None,
                current: None,
                description: None,
            },
            power_telemetry_data: None,
            absolute_capacity: 0,
            amperage: 0,
            voltage: 0,
            apple_raw_battery_voltage: None,
            apple_raw_current_capacity: 0,
            apple_raw_max_capacity: 0,
            current_capacity: 0,
            cycle_count: 0,
            design_capacity: 0,
            fully_charged: false,
            instant_amperage: 0,
            is_charging: false,
            max_capacity: 0,
            temperature: 0,
            time_remaining: 0,
            update_time: 0,
        }
    }

    /// The telemetry record, present only while power comes from outside.
    pub fn ptd(&self) -> (r: Option<&PowerTelemetryData>)
        ensures
            r is Some <==> self.power_telemetry_data is Some,
            r matches Some(d) ==> Some(*d) == self.power_telemetry_data,
    {
        self.power_telemetry_data.as_ref()
    }
}

impl Default for IORegistry {
    fn default() -> (r: Self)
        ensures
            r == IORegistry::empty(),
    {
        IORegistry {
            adapter_details: AdapterDetails::default(),
            power_telemetry_data: None,
            absolute_capacity: 0,
            amperage: 0,
            voltage: 0,
            apple_raw_battery_voltage: None,
            apple_raw_current_capacity: 0,
            apple_raw_max_capacity: 0,
            current_capacity: 0,
            cycle_count: 0,
            design_capacity: 0,
            fully_charged: false,
            instant_amperage: 0,
            is_charging: false,
            max_capacity: 0,
            temperature: 0,
            time_remaining: 0,
            update_time: 0,
        }
    }
}

impl Clone for Diagnostics {
    fn clone(&self) -> (r: Self)
        ensures
            r == *self,
    {
        Diagnostics { ioregistry: self.ioregistry.clone() }
    }
}

impl Clone for IORegistryDiagnostic {
    fn clone(&self) -> (r: Self)
        ensures
            r == *self,
    {
        IORegistryDiagnostic { diagnostics: self.diagnostics.clone() }
    }
}

} // verus!
