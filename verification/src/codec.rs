//! The schema of the registry snapshot and its decoding from a property
//! list.
//!
//! The registry spells a field's name with a capital first letter; consumers
//! spell it in lower camel case. The schema is one: a field is looked up
//! under the key that the chosen spelling gives it, and nothing else of the
//! decoding depends on the spelling.
use crate::de::{AdapterDetails, Diagnostics, IORegistry, IORegistryDiagnostic, PowerTelemetryData};
use crate::property_list::PlistNode;
use vstd::prelude::*;
use vstd::string::*;

verus! {

/// How the names of the fields are spelt.
#[derive(Debug, Clone, Copy, PartialEq, Eq, Structural)]
pub enum Naming {
    /// With a capital first letter, as the registry writes them.
    Pascal,
    /// In lower camel case, as consumers read them.
    Camel,
}

/// A field of the schema.
#[derive(Debug, Clone, Copy, PartialEq, Eq, Structural)]
pub enum Field {
    AdapterVoltage,
    IsWireless,
    Watts,
    Name,
    Current,
    Description,
    AdapterEfficiencyLoss,
    BatteryPower,
    SystemCurrentIn,
    SystemEnergyConsumed,
    SystemLoad,
    SystemPowerIn,
    SystemVoltageIn,
    AdapterDetails,
    PowerTelemetryData,
    AbsoluteCapacity,
    Amperage,
    Voltage,
    AppleRawBatteryVoltage,
    AppleRawCurrentCapacity,
    AppleRawMaxCapacity,
    CurrentCapacity,
    CycleCount,
    DesignCapacity,
    FullyCharged,
    InstantAmperage,
    IsCharging,
    MaxCapacity,
    Temperature,
    TimeRemaining,
    UpdateTime,
    Diagnostics,
    IORegistry,
}

/// Why a property list does not hold a value of the schema.
#[derive(Debug, Clone, Copy, PartialEq, Eq, Structural)]
pub enum SchemaError {
    /// The value that should be a record is no dictionary.
    NotADictionary,
    /// A field that the schema requires is absent.
    Missing(Field),
    /// A field holds a value of another type, or a number that its type
    /// cannot hold.
    Invalid(Field),
}

impl Field {
    /// The key under which the field stands in a dictionary.
    pub open spec fn key(self, naming: Naming) -> Seq<char> {
        match naming {
            Naming::Pascal => match self {
                Field::AdapterVoltage => "AdapterVoltage"@,
                Field::IsWireless => "IsWireless"@,
                Field::Watts => "Watts"@,
                Field::Name => "Name"@,
                Field::Current => "Current"@,
                Field::Description => "Description"@,
                Field::AdapterEfficiencyLoss => "AdapterEfficiencyLoss"@,
                Field::BatteryPower => "BatteryPower"@,
                Field::SystemCurrentIn => "SystemCurrentIn"@,
                Field::SystemEnergyConsumed => "SystemEnergyConsumed"@,
                Field::SystemLoad => "SystemLoad"@,
                Field::SystemPowerIn => "SystemPowerIn"@,
                Field::SystemVoltageIn => "SystemVoltageIn"@,
                Field::AdapterDetails => "AdapterDetails"@,
                Field::PowerTelemetryData => "PowerTelemetryData"@,
                Field::AbsoluteCapacity => "AbsoluteCapacity"@,
                Field::Amperage => "Amperage"@,
                Field::Voltage => "Voltage"@,
                Field::AppleRawBatteryVoltage => "AppleRawBatteryVoltage"@,
                Field::AppleRawCurrentCapacity => "AppleRawCurrentCapacity"@,
                Field::AppleRawMaxCapacity => "AppleRawMaxCapacity"@,
                Field::CurrentCapacity => "CurrentCapacity"@,
                Field::CycleCount => "CycleCount"@,
                Field::DesignCapacity => "DesignCapacity"@,
                Field::FullyCharged => "FullyCharged"@,
                Field::InstantAmperage => "InstantAmperage"@,
                Field::IsCharging => "IsCharging"@,
                Field::MaxCapacity => "MaxCapacity"@,
                Field::Temperature => "Temperature"@,
                Field::TimeRemaining => "TimeRemaining"@,
                Field::UpdateTime => "UpdateTime"@,
                Field::Diagnostics => "Diagnostics"@,
                Field::IORegistry => "IORegistry"@,
            },
            Naming::Camel => match self {
                Field::AdapterVoltage => "adapterVoltage"@,
                Field::IsWireless => "isWireless"@,
                Field::Watts => "watts"@,
                Field::Name => "name"@,
                Field::Current => "current"@,
                Field::Description => "description"@,
                Field::AdapterEfficiencyLoss => "adapterEfficiencyLoss"@,
                Field::BatteryPower => "batteryPower"@,
                Field::SystemCurrentIn => "systemCurrentIn"@,
                Field::SystemEnergyConsumed => "systemEnergyConsumed"@,
                Field::SystemLoad => "systemLoad"@,
                Field::SystemPowerIn => "systemPowerIn"@,
                Field::SystemVoltageIn => "systemVoltageIn"@,
                Field::AdapterDetails => "adapterDetails"@,
                Field::PowerTelemetryData => "powerTelemetryData"@,
                Field::AbsoluteCapacity => "absoluteCapacity"@,
                Field::Amperage => "amperage"@,
                Field::Voltage => "voltage"@,
                Field::AppleRawBatteryVoltage => "appleRawBatteryVoltage"@,
                Field::AppleRawCurrentCapacity => "appleRawCurrentCapacity"@,
                Field::AppleRawMaxCapacity => "appleRawMaxCapacity"@,
                Field::CurrentCapacity => "currentCapacity"@,
                Field::CycleCount => "cycleCount"@,
                Field::DesignCapacity => "designCapacity"@,
                Field::FullyCharged => "fullyCharged"@,
                Field::InstantAmperage => "instantAmperage"@,
                Field::IsCharging => "isCharging"@,
                Field::MaxCapacity => "maxCapacity"@,
                Field::Temperature => "temperature"@,
                Field::TimeRemaining => "timeRemaining"@,
                Field::UpdateTime => "updateTime"@,
                Field::Diagnostics => "diagnostics"@,
                Field::IORegistry => "IORegistry"@,
            },
        }
    }

    /// The key under which the field stands in a dictionary.
    pub fn key_str(self, naming: Naming) -> (r: &'static str)
        ensures
            r@ == self.key(naming),
    {
        match naming {
            Naming::Pascal => match self {
                Field::AdapterVoltage => "AdapterVoltage",
                Field::IsWireless => "IsWireless",
                Field::Watts => "Watts",
                Field::Name => "Name",
                Field::Current => "Current",
                Field::Description => "Description",
                Field::AdapterEfficiencyLoss => "AdapterEfficiencyLoss",
                Field::BatteryPower => "BatteryPower",
                Field::SystemCurrentIn => "SystemCurrentIn",
                Field::SystemEnergyConsumed => "SystemEnergyConsumed",
                Field::SystemLoad => "SystemLoad",
                Field::SystemPowerIn => "SystemPowerIn",
                Field::SystemVoltageIn => "SystemVoltageIn",
                Field::AdapterDetails => "AdapterDetails",
                Field::PowerTelemetryData => "PowerTelemetryData",
                Field::AbsoluteCapacity => "AbsoluteCapacity",
                Field::Amperage => "Amperage",
                Field::Voltage => "Voltage",
                Field::AppleRawBatteryVoltage => "AppleRawBatteryVoltage",
                Field::AppleRawCurrentCapacity => "AppleRawCurrentCapacity",
                Field::AppleRawMaxCapacity => "AppleRawMaxCapacity",
                Field::CurrentCapacity => "CurrentCapacity",
                Field::CycleCount => "CycleCount",
                Field::DesignCapacity => "DesignCapacity",
                Field::FullyCharged => "FullyCharged",
                Field::InstantAmperage => "InstantAmperage",
                Field::IsCharging => "IsCharging",
                Field::MaxCapacity => "MaxCapacity",
                Field::Temperature => "Temperature",
                Field::TimeRemaining => "TimeRemaining",
                Field::UpdateTime => "UpdateTime",
                Field::Diagnostics => "Diagnostics",
                Field::IORegistry => "IORegistry",
            },
            Naming::Camel => match self {
                Field::AdapterVoltage => "adapterVoltage",
                Field::IsWireless => "isWireless",
                Field::Watts => "watts",
                Field::Name => "name",
                Field::Current => "current",
                Field::Description => "description",
                Field::AdapterEfficiencyLoss => "adapterEfficiencyLoss",
                Field::BatteryPower => "batteryPower",
                Field::SystemCurrentIn => "systemCurrentIn",
                Field::SystemEnergyConsumed => "systemEnergyConsumed",
                Field::SystemLoad => "systemLoad",
                Field::SystemPowerIn => "systemPowerIn",
                Field::SystemVoltageIn => "systemVoltageIn",
                Field::AdapterDetails => "adapterDetails",
                Field::PowerTelemetryData => "powerTelemetryData",
                Field::AbsoluteCapacity => "absoluteCapacity",
                Field::Amperage => "amperage",
                Field::Voltage => "voltage",
                Field::AppleRawBatteryVoltage => "appleRawBatteryVoltage",
                Field::AppleRawCurrentCapacity => "appleRawCurrentCapacity",
                Field::AppleRawMaxCapacity => "appleRawMaxCapacity",
                Field::CurrentCapacity => "currentCapacity",
                Field::CycleCount => "cycleCount",
                Field::DesignCapacity => "designCapacity",
                Field::FullyCharged => "fullyCharged",
                Field::InstantAmperage => "instantAmperage",
                Field::IsCharging => "isCharging",
                Field::MaxCapacity => "maxCapacity",
                Field::Temperature => "temperature",
                Field::TimeRemaining => "timeRemaining",
                Field::UpdateTime => "updateTime",
                Field::Diagnostics => "diagnostics",
                Field::IORegistry => "IORegistry",
            },
        }
    }
}

/// The value that a dictionary holds under a key: that of the first entry
/// with the key.
pub open spec fn find(entries: Seq<(String, PlistNode)>, key: Seq<char>) -> Option<PlistNode>
    decreases entries.len(),
{
    if entries.len() == 0 {
        None
    } else if entries[0].0@ == key {
        Some(entries[0].1)
    } else {
        find(entries.drop_first(), key)
    }
}

/// The value that a dictionary holds under a key.
pub fn lookup<'a>(entries: &'a Vec<(String, PlistNode)>, key: &str) -> (r: Option<&'a PlistNode>)
    ensures
        r is Some <==> find(entries@, key@) is Some,
        r matches Some(n) ==> Some(*n) == find(entries@, key@),
{
    let wanted = String::from_str(key);
    let mut i: usize = 0;
    proof {
        assert(entries@.skip(0) =~= entries@);
    }
    while i < entries.len()
        invariant
            i <= entries.len(),
            wanted@ == key@,
            find(entries@, key@) == find(entries@.skip(i as int), key@),
        decreases entries.len() - i,
    {
        proof {
            assert(entries@.skip(i as int).drop_first() =~= entries@.skip(i + 1));
        }
        if entries[i].0 == wanted {
            return Some(&entries[i].1);
        }
        i = i + 1;
    }
    None
}

/// What a required field comes to: its value as `read` takes it from the
/// entry, or the reason why there is none.
pub open spec fn required<T>(
    entries: Seq<(String, PlistNode)>,
    naming: Naming,
    field: Field,
    read: spec_fn(PlistNode) -> Option<T>,
) -> Result<T, SchemaError> {
    match find(entries, field.key(naming)) {
        None => Err(SchemaError::Missing(field)),
        Some(node) => match read(node) {
            Some(v) => Ok(v),
            None => Err(SchemaError::Invalid(field)),
        },
    }
}

/// What an optional field comes to: nothing where it is absent, else as a
/// required field.
pub open spec fn optional<T>(
    entries: Seq<(String, PlistNode)>,
    naming: Naming,
    field: Field,
    read: spec_fn(PlistNode) -> Option<T>,
) -> Result<Option<T>, SchemaError> {
    match find(entries, field.key(naming)) {
        None => Ok(None),
        Some(node) => match read(node) {
            Some(v) => Ok(Some(v)),
            None => Err(SchemaError::Invalid(field)),
        },
    }
}

/// The 32-bit number that a node holds.
pub open spec fn as_i32(node: PlistNode) -> Option<i32> {
    match node {
        PlistNode::Integer(Some(v)) => if i32::MIN <= v <= i32::MAX {
            Some(v as i32)
        } else {
            None
        },
        _ => None,
    }
}

/// The 64-bit number that a node holds.
pub open spec fn as_i64(node: PlistNode) -> Option<i64> {
    match node {
        PlistNode::Integer(Some(v)) => Some(v),
        _ => None,
    }
}

/// The flag that a node holds.
pub open spec fn as_bool(node: PlistNode) -> Option<bool> {
    match node {
        PlistNode::Boolean(b) => Some(b),
        _ => None,
    }
}

/// The text that a node holds.
pub open spec fn as_text(node: PlistNode) -> Option<String> {
    match node {
        PlistNode::String(s) => Some(s),
        _ => None,
    }
}

/// The entries of the dictionary that a node is.
pub open spec fn as_entries(node: PlistNode) -> Option<Seq<(String, PlistNode)>> {
    match node {
        PlistNode::Dictionary(entries) => Some(entries@),
        _ => None,
    }
}


/// A required 32-bit number.
pub fn read_i32(
    entries: &Vec<(String, PlistNode)>,
    naming: Naming,
    field: Field,
) -> (r: Result<i32, SchemaError>)
    ensures
        r == required(entries@, naming, field, |n: PlistNode| as_i32(n)),
{
    match lookup(entries, field.key_str(naming)) {
        None => Err(SchemaError::Missing(field)),
        Some(node) => match node {
            PlistNode::Integer(Some(v)) => if -0x8000_0000 <= *v && *v <= 0x7fff_ffff {
                Ok(*v as i32)
            } else {
                Err(SchemaError::Invalid(field))
            },
            _ => Err(SchemaError::Invalid(field)),
        },
    }
}

/// A required 64-bit number.
pub fn read_i64(
    entries: &Vec<(String, PlistNode)>,
    naming: Naming,
    field: Field,
) -> (r: Result<i64, SchemaError>)
    ensures
        r == required(entries@, naming, field, |n: PlistNode| as_i64(n)),
{
    match lookup(entries, field.key_str(naming)) {
        None => Err(SchemaError::Missing(field)),
        Some(node) => match node {
            PlistNode::Integer(Some(v)) => Ok(*v),
            _ => Err(SchemaError::Invalid(field)),
        },
    }
}

/// A required flag.
pub fn read_bool(
    entries: &Vec<(String, PlistNode)>,
    naming: Naming,
    field: Field,
) -> (r: Result<bool, SchemaError>)
    ensures
        r == required(entries@, naming, field, |n: PlistNode| as_bool(n)),
{
    match lookup(entries, field.key_str(naming)) {
        None => Err(SchemaError::Missing(field)),
        Some(node) => match node {
            PlistNode::Boolean(b) => Ok(*b),
            _ => Err(SchemaError::Invalid(field)),
        },
    }
}

/// An optional 32-bit number.
pub fn read_optional_i32(
    entries: &Vec<(String, PlistNode)>,
    naming: Naming,
    field: Field,
) -> (r: Result<Option<i32>, SchemaError>)
    ensures
        r == optional(entries@, naming, field, |n: PlistNode| as_i32(n)),
{
    match lookup(entries, field.key_str(naming)) {
        None => Ok(None),
        Some(node) => match node {
            PlistNode::Integer(Some(v)) => if -0x8000_0000 <= *v && *v <= 0x7fff_ffff {
                Ok(Some(*v as i32))
            } else {
                Err(SchemaError::Invalid(field))
            },
            _ => Err(SchemaError::Invalid(field)),
        },
    }
}

/// An optional flag.
pub fn read_optional_bool(
    entries: &Vec<(String, PlistNode)>,
    naming: Naming,
    field: Field,
) -> (r: Result<Option<bool>, SchemaError>)
    ensures
        r == optional(entries@, naming, field, |n: PlistNode| as_bool(n)),
{
    match lookup(entries, field.key_str(naming)) {
        None => Ok(None),
        Some(node) => match node {
            PlistNode::Boolean(b) => Ok(Some(*b)),
            _ => Err(SchemaError::Invalid(field)),
        },
    }
}

/// An optional text.
pub fn read_optional_text(
    entries: &Vec<(String, PlistNode)>,
    naming: Naming,
    field: Field,
) -> (r: Result<Option<String>, SchemaError>)
    ensures
        r == optional(entries@, naming, field, |n: PlistNode| as_text(n)),
{
    match lookup(entries, field.key_str(naming)) {
        None => Ok(None),
        Some(node) => match node {
            PlistNode::String(s) => Ok(Some(s.clone())),
            _ => Err(SchemaError::Invalid(field)),
        },
    }
}

/// The adapter's details as the entries of a dictionary give it, or the error of the
/// first field, in the order of the schema, that has one.
pub open spec fn adapter_of(
    entries: Seq<(String, PlistNode)>,
    naming: Naming,
) -> Result<AdapterDetails, SchemaError> {
    let adapter_voltage = optional(
        entries,
        naming,
        Field::AdapterVoltage,
        |n: PlistNode| as_i32(n),
    );
    let is_wireless = optional(entries, naming, Field::IsWireless, |n: PlistNode| as_bool(n));
    let watts = optional(entries, naming, Field::Watts, |n: PlistNode| as_i32(n));
    let name = optional(entries, naming, Field::Name, |n: PlistNode| as_text(n));
    let current = optional(entries, naming, Field::Current, |n: PlistNode| as_i32(n));
    let description = optional(entries, naming, Field::Description, |n: PlistNode| as_text(n));
    if adapter_voltage is Err {
        Err(adapter_voltage->Err_0)
    } else if is_wireless is Err {
        Err(is_wireless->Err_0)
    } else if watts is Err {
        Err(watts->Err_0)
    } else if name is Err {
        Err(name->Err_0)
    } else if current is Err {
        Err(current->Err_0)
    } else if description is Err {
        Err(description->Err_0)
    } else {
        Ok(AdapterDetails {
            adapter_voltage: adapter_voltage->Ok_0,
            is_wireless: is_wireless->Ok_0,
            watts: watts->Ok_0,
            name: name->Ok_0,
            current: current->Ok_0,
            description: description->Ok_0,
        })
    }
}

/// Reads the adapter's details from the entries of a dictionary. Every field may be absent.
pub fn decode_adapter(
    entries: &Vec<(String, PlistNode)>,
    naming: Naming,
) -> (r: Result<AdapterDetails, SchemaError>)
    ensures
        r == adapter_of(entries@, naming),
{
    let adapter_voltage = match read_optional_i32(entries, naming, Field::AdapterVoltage) {
        Ok(v) => v,
        Err(e) => {
            return Err(e);
        },
    };
    let is_wireless = match read_optional_bool(entries, naming, Field::IsWireless) {
        Ok(v) => v,
        Err(e) => {
            return Err(e);
        },
    };
    let watts = match read_optional_i32(entries, naming, Field::Watts) {
        Ok(v) => v,
        Err(e) => {
            return Err(e);
        },
    };
    let name = match read_optional_text(entries, naming, Field::Name) {
        Ok(v) => v,
        Err(e) => {
            return Err(e);
        },
    };
    let current = match read_optional_i32(entries, naming, Field::Current) {
        Ok(v) => v,
        Err(e) => {
            return Err(e);
        },
    };
    let description = match read_optional_text(entries, naming, Field::Description) {
        Ok(v) => v,
        Err(e) => {
            return Err(e);
        },
    };
    Ok(AdapterDetails {
        adapter_voltage,
        is_wireless,
        watts,
        name,
        current,
        description,
    })
}

/// The telemetry record as the entries of a dictionary give it, or the error of the
/// first field, in the order of the schema, that has one.
pub open spec fn telemetry_of(
    entries: Seq<(String, PlistNode)>,
    naming: Naming,
) -> Result<PowerTelemetryData, SchemaError> {
    let adapter_efficiency_loss = required(
        entries,
        naming,
        Field::AdapterEfficiencyLoss,
        |n: PlistNode| as_i32(n),
    );
    let battery_power = required(entries, naming, Field::BatteryPower, |n: PlistNode| as_i64(n));
    let system_current_in = required(
        entries,
        naming,
        Field::SystemCurrentIn,
        |n: PlistNode| as_i32(n),
    );
    let system_energy_consumed = required(
        entries,
        naming,
        Field::SystemEnergyConsumed,
        |n: PlistNode| as_i64(n),
    );
    let system_load = required(entries, naming, Field::SystemLoad, |n: PlistNode| as_i64(n));
    let system_power_in = required(entries, naming, Field::SystemPowerIn, |n: PlistNode| as_i32(n));
    let system_voltage_in = required(
        entries,
        naming,
        Field::SystemVoltageIn,
        |n: PlistNode| as_i32(n),
    );
    if adapter_efficiency_loss is Err {
        Err(adapter_efficiency_loss->Err_0)
    } else if battery_power is Err {
        Err(battery_power->Err_0)
    } else if system_current_in is Err {
        Err(system_current_in->Err_0)
    } else if system_energy_consumed is Err {
        Err(system_energy_consumed->Err_0)
    } else if system_load is Err {
        Err(system_load->Err_0)
    } else if system_power_in is Err {
        Err(system_power_in->Err_0)
    } else if system_voltage_in is Err {
        Err(system_voltage_in->Err_0)
    } else {
        Ok(PowerTelemetryData {
            adapter_efficiency_loss: adapter_efficiency_loss->Ok_0,
            battery_power: battery_power->Ok_0,
            system_current_in: system_current_in->Ok_0,
            system_energy_consumed: system_energy_consumed->Ok_0,
            system_load: system_load->Ok_0,
            system_power_in: system_power_in->Ok_0,
            system_voltage_in: system_voltage_in->Ok_0,
        })
    }
}

/// Reads the telemetry record from the entries of a dictionary. Every field is required.
pub fn decode_telemetry(
    entries: &Vec<(String, PlistNode)>,
    naming: Naming,
) -> (r: Result<PowerTelemetryData, SchemaError>)
    ensures
        r == telemetry_of(entries@, naming),
{
    let adapter_efficiency_loss = match read_i32(entries, naming, Field::AdapterEfficiencyLoss) {
        Ok(v) => v,
        Err(e) => {
            return Err(e);
        },
    };
    let battery_power = match read_i64(entries, naming, Field::BatteryPower) {
        Ok(v) => v,
        Err(e) => {
            return Err(e);
        },
    };
    let system_current_in = match read_i32(entries, naming, Field::SystemCurrentIn) {
        Ok(v) => v,
        Err(e) => {
            return Err(e);
        },
    };
    let system_energy_consumed = match read_i64(entries, naming, Field::SystemEnergyConsumed) {
        Ok(v) => v,
        Err(e) => {
            return Err(e);
        },
    };
    let system_load = match read_i64(entries, naming, Field::SystemLoad) {
        Ok(v) => v,
        Err(e) => {
            return Err(e);
        },
    };
    let system_power_in = match read_i32(entries, naming, Field::SystemPowerIn) {
        Ok(v) => v,
        Err(e) => {
            return Err(e);
        },
    };
    let system_voltage_in = match read_i32(entries, naming, Field::SystemVoltageIn) {
        Ok(v) => v,
        Err(e) => {
            return Err(e);
        },
    };
    Ok(PowerTelemetryData {
        adapter_efficiency_loss,
        battery_power,
        system_current_in,
        system_energy_consumed,
        system_load,
        system_power_in,
        system_voltage_in,
    })
}

/// The adapter's details of a snapshot: a dictionary that is required.
pub open spec fn adapter_field(
    entries: Seq<(String, PlistNode)>,
    naming: Naming,
) -> Result<AdapterDetails, SchemaError> {
    match find(entries, Field::AdapterDetails.key(naming)) {
        None => Err(SchemaError::Missing(Field::AdapterDetails)),
        Some(node) => match as_entries(node) {
            Some(inner) => adapter_of(inner, naming),
            None => Err(SchemaError::Invalid(Field::AdapterDetails)),
        },
    }
}

/// The telemetry record of a snapshot: a dictionary that is absent while the
/// source is on battery, which is no error.
pub open spec fn telemetry_field(
    entries: Seq<(String, PlistNode)>,
    naming: Naming,
) -> Result<Option<PowerTelemetryData>, SchemaError> {
    match find(entries, Field::PowerTelemetryData.key(naming)) {
        None => Ok(None),
        Some(node) => match as_entries(node) {
            Some(inner) => match telemetry_of(inner, naming) {
                Ok(d) => Ok(Some(d)),
                Err(e) => Err(e),
            },
            None => Err(SchemaError::Invalid(Field::PowerTelemetryData)),
        },
    }
}

/// Reads the adapter's details of a snapshot.
pub fn read_adapter(
    entries: &Vec<(String, PlistNode)>,
    naming: Naming,
) -> (r: Result<AdapterDetails, SchemaError>)
    ensures
        r == adapter_field(entries@, naming),
{
    match lookup(entries, Field::AdapterDetails.key_str(naming)) {
        None => Err(SchemaError::Missing(Field::AdapterDetails)),
        Some(node) => match node {
            PlistNode::Dictionary(inner) => decode_adapter(inner, naming),
            _ => Err(SchemaError::Invalid(Field::AdapterDetails)),
        },
    }
}

/// Reads the telemetry record of a snapshot, if it has one.
pub fn read_telemetry(
    entries: &Vec<(String, PlistNode)>,
    naming: Naming,
) -> (r: Result<Option<PowerTelemetryData>, SchemaError>)
    ensures
        r == telemetry_field(entries@, naming),
{
    match lookup(entries, Field::PowerTelemetryData.key_str(naming)) {
        None => Ok(None),
        Some(node) => match node {
            PlistNode::Dictionary(inner) => match decode_telemetry(inner, naming) {
                Ok(d) => Ok(Some(d)),
                Err(e) => Err(e),
            },
            _ => Err(SchemaError::Invalid(Field::PowerTelemetryData)),
        },
    }
}

/// The snapshot as the entries of a dictionary give it, or the error of the
/// first field, in the order of the schema, that has one.
pub open spec fn registry_of(
    entries: Seq<(String, PlistNode)>,
    naming: Naming,
) -> Result<IORegistry, SchemaError> {
    let adapter_details = adapter_field(entries, naming);
    let power_telemetry_data = telemetry_field(entries, naming);
    let absolute_capacity = required(
        entries,
        naming,
        Field::AbsoluteCapacity,
        |n: PlistNode| as_i32(n),
    );
    let amperage = required(entries, naming, Field::Amperage, |n: PlistNode| as_i32(n));
    let voltage = required(entries, naming, Field::Voltage, |n: PlistNode| as_i32(n));
    let apple_raw_battery_voltage = optional(
        entries,
        naming,
        Field::AppleRawBatteryVoltage,
        |n: PlistNode| as_i32(n),
    );
    let apple_raw_current_capacity = required(
        entries,
        naming,
        Field::AppleRawCurrentCapacity,
        |n: PlistNode| as_i32(n),
    );
    let apple_raw_max_capacity = required(
        entries,
        naming,
        Field::AppleRawMaxCapacity,
        |n: PlistNode| as_i32(n),
    );
    let current_capacity = required(
        entries,
        naming,
        Field::CurrentCapacity,
        |n: PlistNode| as_i32(n),
    );
    let cycle_count = required(entries, naming, Field::CycleCount, |n: PlistNode| as_i32(n));
    let design_capacity = required(
        entries,
        naming,
        Field::DesignCapacity,
        |n: PlistNode| as_i32(n),
    );
    let fully_charged = required(entries, naming, Field::FullyCharged, |n: PlistNode| as_bool(n));
    let instant_amperage = required(
        entries,
        naming,
        Field::InstantAmperage,
        |n: PlistNode| as_i32(n),
    );
    let is_charging = required(entries, naming, Field::IsCharging, |n: PlistNode| as_bool(n));
    let max_capacity = required(entries, naming, Field::MaxCapacity, |n: PlistNode| as_i32(n));
    let temperature = required(entries, naming, Field::Temperature, |n: PlistNode| as_i32(n));
    let time_remaining = required(entries, naming, Field::TimeRemaining, |n: PlistNode| as_i32(n));
    let update_time = required(entries, naming, Field::UpdateTime, |n: PlistNode| as_i64(n));
    if adapter_details is Err {
        Err(adapter_details->Err_0)
    } else if power_telemetry_data is Err {
        Err(power_telemetry_data->Err_0)
    } else if absolute_capacity is Err {
        Err(absolute_capacity->Err_0)
    } else if amperage is Err {
        Err(amperage->Err_0)
    } else if voltage is Err {
        Err(voltage->Err_0)
    } else if apple_raw_battery_voltage is Err {
        Err(apple_raw_battery_voltage->Err_0)
    } else if apple_raw_current_capacity is Err {
        Err(apple_raw_current_capacity->Err_0)
    } else if apple_raw_max_capacity is Err {
        Err(apple_raw_max_capacity->Err_0)
    } else if current_capacity is Err {
        Err(current_capacity->Err_0)
    } else if cycle_count is Err {
        Err(cycle_count->Err_0)
    } else if design_capacity is Err {
        Err(design_capacity->Err_0)
    } else if fully_charged is Err {
        Err(fully_charged->Err_0)
    } else if instant_amperage is Err {
        Err(instant_amperage->Err_0)
    } else if is_charging is Err {
        Err(is_charging->Err_0)
    } else if max_capacity is Err {
        Err(max_capacity->Err_0)
    } else if temperature is Err {
        Err(temperature->Err_0)
    } else if time_remaining is Err {
        Err(time_remaining->Err_0)
    } else if update_time is Err {
        Err(update_time->Err_0)
    } else {
        Ok(IORegistry {
            adapter_details: adapter_details->Ok_0,
            power_telemetry_data: power_telemetry_data->Ok_0,
            absolute_capacity: absolute_capacity->Ok_0,
            amperage: amperage->Ok_0,
            voltage: voltage->Ok_0,
            apple_raw_battery_voltage: apple_raw_battery_voltage->Ok_0,
            apple_raw_current_capacity: apple_raw_current_capacity->Ok_0,
            apple_raw_max_capacity: apple_raw_max_capacity->Ok_0,
            current_capacity: current_capacity->Ok_0,
            cycle_count: cycle_count->Ok_0,
            design_capacity: design_capacity->Ok_0,
            fully_charged: fully_charged->Ok_0,
            instant_amperage: instant_amperage->Ok_0,
            is_charging: is_charging->Ok_0,
            max_capacity: max_capacity->Ok_0,
            temperature: temperature->Ok_0,
            time_remaining: time_remaining->Ok_0,
            update_time: update_time->Ok_0,
        })
    }
}

/// Reads a snapshot from the entries of a dictionary. The telemetry record and
/// the raw battery voltage may be absent; every other field is required.
pub fn decode_entries(
    entries: &Vec<(String, PlistNode)>,
    naming: Naming,
) -> (r: Result<IORegistry, SchemaError>)
    ensures
        r == registry_of(entries@, naming),
{
    let adapter_details = match read_adapter(entries, naming) {
        Ok(v) => v,
        Err(e) => {
            return Err(e);
        },
    };
    let power_telemetry_data = match read_telemetry(entries, naming) {
        Ok(v) => v,
        Err(e) => {
            return Err(e);
        },
    };
    let absolute_capacity = match read_i32(entries, naming, Field::AbsoluteCapacity) {
        Ok(v) => v,
        Err(e) => {
            return Err(e);
        },
    };
    let amperage = match read_i32(entries, naming, Field::Amperage) {
        Ok(v) => v,
        Err(e) => {
            return Err(e);
        },
    };
    let voltage = match read_i32(entries, naming, Field::Voltage) {
        Ok(v) => v,
        Err(e) => {
            return Err(e);
        },
    };
    let apple_raw_battery_voltage = match read_optional_i32(
        entries,
        naming,
        Field::AppleRawBatteryVoltage,
    ) {
        Ok(v) => v,
        Err(e) => {
            return Err(e);
        },
    };
    let apple_raw_current_capacity = match read_i32(
        entries,
        naming,
        Field::AppleRawCurrentCapacity,
    ) {
        Ok(v) => v,
        Err(e) => {
            return Err(e);
        },
    };
    let apple_raw_max_capacity = match read_i32(entries, naming, Field::AppleRawMaxCapacity) {
        Ok(v) => v,
        Err(e) => {
            return Err(e);
        },
    };
    let current_capacity = match read_i32(entries, naming, Field::CurrentCapacity) {
        Ok(v) => v,
        Err(e) => {
            return Err(e);
        },
    };
    let cycle_count = match read_i32(entries, naming, Field::CycleCount) {
        Ok(v) => v,
        Err(e) => {
            return Err(e);
        },
    };
    let design_capacity = match read_i32(entries, naming, Field::DesignCapacity) {
        Ok(v) => v,
        Err(e) => {
            return Err(e);
        },
    };
    let fully_charged = match read_bool(entries, naming, Field::FullyCharged) {
        Ok(v) => v,
        Err(e) => {
            return Err(e);
        },
    };
    let instant_amperage = match read_i32(entries, naming, Field::InstantAmperage) {
        Ok(v) => v,
        Err(e) => {
            return Err(e);
        },
    };
    let is_charging = match read_bool(entries, naming, Field::IsCharging) {
        Ok(v) => v,
        Err(e) => {
            return Err(e);
        },
    };
    let max_capacity = match read_i32(entries, naming, Field::MaxCapacity) {
        Ok(v) => v,
        Err(e) => {
            return Err(e);
        },
    };
    let temperature = match read_i32(entries, naming, Field::Temperature) {
        Ok(v) => v,
        Err(e) => {
            return Err(e);
        },
    };
    let time_remaining = match read_i32(entries, naming, Field::TimeRemaining) {
        Ok(v) => v,
        Err(e) => {
            return Err(e);
        },
    };
    let update_time = match read_i64(entries, naming, Field::UpdateTime) {
        Ok(v) => v,
        Err(e) => {
            return Err(e);
        },
    };
    Ok(IORegistry {
        adapter_details,
        power_telemetry_data,
        absolute_capacity,
        amperage,
        voltage,
        apple_raw_battery_voltage,
        apple_raw_current_capacity,
        apple_raw_max_capacity,
        current_capacity,
        cycle_count,
        design_capacity,
        fully_charged,
        instant_amperage,
        is_charging,
        max_capacity,
        temperature,
        time_remaining,
        update_time,
    })
}

/// The snapshot that a property list holds under a spelling, or why it holds
/// none.
pub open spec fn decoded(node: PlistNode, naming: Naming) -> Result<IORegistry, SchemaError> {
    match as_entries(node) {
        Some(entries) => registry_of(entries, naming),
        None => Err(SchemaError::NotADictionary),
    }
}

/// The snapshot that a diagnostics reply holds: the one under the registry
/// key of the dictionary under the diagnostics key.
pub open spec fn decoded_diagnostic(
    node: PlistNode,
    naming: Naming,
) -> Result<IORegistry, SchemaError> {
    match as_entries(node) {
        None => Err(SchemaError::NotADictionary),
        Some(outer) => match find(outer, Field::Diagnostics.key(naming)) {
            None => Err(SchemaError::Missing(Field::Diagnostics)),
            Some(middle) => match as_entries(middle) {
                None => Err(SchemaError::Invalid(Field::Diagnostics)),
                Some(inner) => match find(inner, Field::IORegistry.key(naming)) {
                    None => Err(SchemaError::Missing(Field::IORegistry)),
                    Some(registry) => match as_entries(registry) {
                        None => Err(SchemaError::Invalid(Field::IORegistry)),
                        Some(entries) => registry_of(entries, naming),
                    },
                },
            },
        },
    }
}

/// Reads a snapshot from a property list whose fields are spelt as `naming`
/// says.
pub fn decode(node: &PlistNode, naming: Naming) -> (r: Result<IORegistry, SchemaError>)
    ensures
        r == decoded(*node, naming),
{
    match node {
        PlistNode::Dictionary(entries) => decode_entries(entries, naming),
        _ => Err(SchemaError::NotADictionary),
    }
}

/// Reads the snapshot out of a diagnostics reply.
pub fn decode_diagnostic(
    node: &PlistNode,
    naming: Naming,
) -> (r: Result<IORegistryDiagnostic, SchemaError>)
    ensures
        r is Ok <==> decoded_diagnostic(*node, naming) is Ok,
        r matches Ok(
            d,
        ) ==> Ok::<IORegistry, SchemaError>(d.diagnostics.ioregistry) == decoded_diagnostic(
            *node,
            naming,
        ),
        r matches Err(e) ==> Err::<IORegistry, SchemaError>(e) == decoded_diagnostic(*node, naming),
{
    let outer = match node {
        PlistNode::Dictionary(entries) => entries,
        _ => {
            return Err(SchemaError::NotADictionary);
        },
    };
    let middle = match lookup(outer, Field::Diagnostics.key_str(naming)) {
        None => {
            return Err(SchemaError::Missing(Field::Diagnostics));
        },
        Some(n) => match n {
            PlistNode::Dictionary(entries) => entries,
            _ => {
                return Err(SchemaError::Invalid(Field::Diagnostics));
            },
        },
    };
    let inner = match lookup(middle, Field::IORegistry.key_str(naming)) {
        None => {
            return Err(SchemaError::Missing(Field::IORegistry));
        },
        Some(n) => match n {
            PlistNode::Dictionary(entries) => entries,
            _ => {
                return Err(SchemaError::Invalid(Field::IORegistry));
            },
        },
    };
    match decode_entries(inner, naming) {
        Ok(ioregistry) => Ok(IORegistryDiagnostic { diagnostics: Diagnostics { ioregistry } }),
        Err(e) => Err(e),
    }
}

/// What tells the keys apart: the length of a key, its first character, and
/// its tenth where it has one.
pub open spec fn key_mark(key: Seq<char>) -> (nat, char, char) {
    (
        key.len(),
        key[0],
        if key.len() > 9 {
            key[9]
        } else {
            ' '
        },
    )
}

/// The marks of the adapter keys spelt the pascal way.
proof fn lemma_marks_pascal_adapter()
    ensures
        key_mark(Field::AdapterVoltage.key(Naming::Pascal)) == (14nat, 'A', 'l'),
        key_mark(Field::IsWireless.key(Naming::Pascal)) == (10nat, 'I', 's'),
        key_mark(Field::Watts.key(Naming::Pascal)) == (5nat, 'W', ' '),
        key_mark(Field::Name.key(Naming::Pascal)) == (4nat, 'N', ' '),
        key_mark(Field::Current.key(Naming::Pascal)) == (7nat, 'C', ' '),
        key_mark(Field::Description.key(Naming::Pascal)) == (11nat, 'D', 'o'),
{
    reveal_strlit("AdapterVoltage");
    reveal_strlit("IsWireless");
    reveal_strlit("Watts");
    reveal_strlit("Name");
    reveal_strlit("Current");
    reveal_strlit("Description");
}

/// The marks of the telemetry keys spelt the pascal way.
proof fn lemma_marks_pascal_telemetry()
    ensures
        key_mark(Field::AdapterEfficiencyLoss.key(Naming::Pascal)) == (21nat, 'A', 'f'),
        key_mark(Field::BatteryPower.key(Naming::Pascal)) == (12nat, 'B', 'w'),
        key_mark(Field::SystemCurrentIn.key(Naming::Pascal)) == (15nat, 'S', 'r'),
        key_mark(Field::SystemEnergyConsumed.key(Naming::Pascal)) == (20nat, 'S', 'r'),
        key_mark(Field::SystemLoad.key(Naming::Pascal)) == (10nat, 'S', 'd'),
        key_mark(Field::SystemPowerIn.key(Naming::Pascal)) == (13nat, 'S', 'e'),
        key_mark(Field::SystemVoltageIn.key(Naming::Pascal)) == (15nat, 'S', 't'),
{
    reveal_strlit("AdapterEfficiencyLoss");
    reveal_strlit("BatteryPower");
    reveal_strlit("SystemCurrentIn");
    reveal_strlit("SystemEnergyConsumed");
    reveal_strlit("SystemLoad");
    reveal_strlit("SystemPowerIn");
    reveal_strlit("SystemVoltageIn");
}

/// The marks of the registry head keys spelt the pascal way.
proof fn lemma_marks_pascal_registry_head()
    ensures
        key_mark(Field::AdapterDetails.key(Naming::Pascal)) == (14nat, 'A', 't'),
        key_mark(Field::PowerTelemetryData.key(Naming::Pascal)) == (18nat, 'P', 'm'),
        key_mark(Field::AbsoluteCapacity.key(Naming::Pascal)) == (16nat, 'A', 'a'),
        key_mark(Field::Amperage.key(Naming::Pascal)) == (8nat, 'A', ' '),
        key_mark(Field::Voltage.key(Naming::Pascal)) == (7nat, 'V', ' '),
        key_mark(Field::AppleRawBatteryVoltage.key(Naming::Pascal)) == (22nat, 'A', 'a'),
        key_mark(Field::AppleRawCurrentCapacity.key(Naming::Pascal)) == (23nat, 'A', 'u'),
        key_mark(Field::AppleRawMaxCapacity.key(Naming::Pascal)) == (19nat, 'A', 'a'),
        key_mark(Field::CurrentCapacity.key(Naming::Pascal)) == (15nat, 'C', 'p'),
{
    reveal_strlit("AdapterDetails");
    reveal_strlit("PowerTelemetryData");
    reveal_strlit("AbsoluteCapacity");
    reveal_strlit("Amperage");
    reveal_strlit("Voltage");
    reveal_strlit("AppleRawBatteryVoltage");
    reveal_strlit("AppleRawCurrentCapacity");
    reveal_strlit("AppleRawMaxCapacity");
    reveal_strlit("CurrentCapacity");
}

/// The marks of the registry tail keys spelt the pascal way.
proof fn lemma_marks_pascal_registry_tail()
    ensures
        key_mark(Field::CycleCount.key(Naming::Pascal)) == (10nat, 'C', 't'),
        key_mark(Field::DesignCapacity.key(Naming::Pascal)) == (14nat, 'D', 'a'),
        key_mark(Field::FullyCharged.key(Naming::Pascal)) == (12nat, 'F', 'g'),
        key_mark(Field::InstantAmperage.key(Naming::Pascal)) == (15nat, 'I', 'p'),
        key_mark(Field::IsCharging.key(Naming::Pascal)) == (10nat, 'I', 'g'),
        key_mark(Field::MaxCapacity.key(Naming::Pascal)) == (11nat, 'M', 't'),
        key_mark(Field::Temperature.key(Naming::Pascal)) == (11nat, 'T', 'r'),
        key_mark(Field::TimeRemaining.key(Naming::Pascal)) == (13nat, 'T', 'n'),
        key_mark(Field::UpdateTime.key(Naming::Pascal)) == (10nat, 'U', 'e'),
{
    reveal_strlit("CycleCount");
    reveal_strlit("DesignCapacity");
    reveal_strlit("FullyCharged");
    reveal_strlit("InstantAmperage");
    reveal_strlit("IsCharging");
    reveal_strlit("MaxCapacity");
    reveal_strlit("Temperature");
    reveal_strlit("TimeRemaining");
    reveal_strlit("UpdateTime");
}

/// The marks of the envelope keys spelt the pascal way.
proof fn lemma_marks_pascal_envelope()
    ensures
        key_mark(Field::Diagnostics.key(Naming::Pascal)) == (11nat, 'D', 'c'),
        key_mark(Field::IORegistry.key(Naming::Pascal)) == (10nat, 'I', 'y'),
{
    reveal_strlit("Diagnostics");
    reveal_strlit("IORegistry");
}

/// The marks of the adapter keys spelt the camel way.
proof fn lemma_marks_camel_adapter()
    ensures
        key_mark(Field::AdapterVoltage.key(Naming::Camel)) == (14nat, 'a', 'l'),
        key_mark(Field::IsWireless.key(Naming::Camel)) == (10nat, 'i', 's'),
        key_mark(Field::Watts.key(Naming::Camel)) == (5nat, 'w', ' '),
        key_mark(Field::Name.key(Naming::Camel)) == (4nat, 'n', ' '),
        key_mark(Field::Current.key(Naming::Camel)) == (7nat, 'c', ' '),
        key_mark(Field::Description.key(Naming::Camel)) == (11nat, 'd', 'o'),
{
    reveal_strlit("adapterVoltage");
    reveal_strlit("isWireless");
    reveal_strlit("watts");
    reveal_strlit("name");
    reveal_strlit("current");
    reveal_strlit("description");
}

/// The marks of the telemetry keys spelt the camel way.
proof fn lemma_marks_camel_telemetry()
    ensures
        key_mark(Field::AdapterEfficiencyLoss.key(Naming::Camel)) == (21nat, 'a', 'f'),
        key_mark(Field::BatteryPower.key(Naming::Camel)) == (12nat, 'b', 'w'),
        key_mark(Field::SystemCurrentIn.key(Naming::Camel)) == (15nat, 's', 'r'),
        key_mark(Field::SystemEnergyConsumed.key(Naming::Camel)) == (20nat, 's', 'r'),
        key_mark(Field::SystemLoad.key(Naming::Camel)) == (10nat, 's', 'd'),
        key_mark(Field::SystemPowerIn.key(Naming::Camel)) == (13nat, 's', 'e'),
        key_mark(Field::SystemVoltageIn.key(Naming::Camel)) == (15nat, 's', 't'),
{
    reveal_strlit("adapterEfficiencyLoss");
    reveal_strlit("batteryPower");
    reveal_strlit("systemCurrentIn");
    reveal_strlit("systemEnergyConsumed");
    reveal_strlit("systemLoad");
    reveal_strlit("systemPowerIn");
    reveal_strlit("systemVoltageIn");
}

/// The marks of the registry head keys spelt the camel way.
proof fn lemma_marks_camel_registry_head()
    ensures
        key_mark(Field::AdapterDetails.key(Naming::Camel)) == (14nat, 'a', 't'),
        key_mark(Field::PowerTelemetryData.key(Naming::Camel)) == (18nat, 'p', 'm'),
        key_mark(Field::AbsoluteCapacity.key(Naming::Camel)) == (16nat, 'a', 'a'),
        key_mark(Field::Amperage.key(Naming::Camel)) == (8nat, 'a', ' '),
        key_mark(Field::Voltage.key(Naming::Camel)) == (7nat, 'v', ' '),
        key_mark(Field::AppleRawBatteryVoltage.key(Naming::Camel)) == (22nat, 'a', 'a'),
        key_mark(Field::AppleRawCurrentCapacity.key(Naming::Camel)) == (23nat, 'a', 'u'),
        key_mark(Field::AppleRawMaxCapacity.key(Naming::Camel)) == (19nat, 'a', 'a'),
        key_mark(Field::CurrentCapacity.key(Naming::Camel)) == (15nat, 'c', 'p'),
{
    reveal_strlit("adapterDetails");
    reveal_strlit("powerTelemetryData");
    reveal_strlit("absoluteCapacity");
    reveal_strlit("amperage");
    reveal_strlit("voltage");
    reveal_strlit("appleRawBatteryVoltage");
    reveal_strlit("appleRawCurrentCapacity");
    reveal_strlit("appleRawMaxCapacity");
    reveal_strlit("currentCapacity");
}

/// The marks of the registry tail keys spelt the camel way.
proof fn lemma_marks_camel_registry_tail()
    ensures
        key_mark(Field::CycleCount.key(Naming::Camel)) == (10nat, 'c', 't'),
        key_mark(Field::DesignCapacity.key(Naming::Camel)) == (14nat, 'd', 'a'),
        key_mark(Field::FullyCharged.key(Naming::Camel)) == (12nat, 'f', 'g'),
        key_mark(Field::InstantAmperage.key(Naming::Camel)) == (15nat, 'i', 'p'),
        key_mark(Field::IsCharging.key(Naming::Camel)) == (10nat, 'i', 'g'),
        key_mark(Field::MaxCapacity.key(Naming::Camel)) == (11nat, 'm', 't'),
        key_mark(Field::Temperature.key(Naming::Camel)) == (11nat, 't', 'r'),
        key_mark(Field::TimeRemaining.key(Naming::Camel)) == (13nat, 't', 'n'),
        key_mark(Field::UpdateTime.key(Naming::Camel)) == (10nat, 'u', 'e'),
{
    reveal_strlit("cycleCount");
    reveal_strlit("designCapacity");
    reveal_strlit("fullyCharged");
    reveal_strlit("instantAmperage");
    reveal_strlit("isCharging");
    reveal_strlit("maxCapacity");
    reveal_strlit("temperature");
    reveal_strlit("timeRemaining");
    reveal_strlit("updateTime");
}

/// The marks of the envelope keys spelt the camel way.
proof fn lemma_marks_camel_envelope()
    ensures
        key_mark(Field::Diagnostics.key(Naming::Camel)) == (11nat, 'd', 'c'),
        key_mark(Field::IORegistry.key(Naming::Camel)) == (10nat, 'I', 'y'),
{
    reveal_strlit("diagnostics");
    reveal_strlit("IORegistry");
}

/// No two fields have the same key under one spelling.
pub proof fn lemma_keys_are_distinct(naming: Naming)
    ensures
        forall|f: Field, g: Field| f != g ==> #[trigger] f.key(naming) != #[trigger] g.key(naming),
{
    lemma_marks_pascal_adapter();
    lemma_marks_pascal_telemetry();
    lemma_marks_pascal_registry_head();
    lemma_marks_pascal_registry_tail();
    lemma_marks_pascal_envelope();
    lemma_marks_camel_adapter();
    lemma_marks_camel_telemetry();
    lemma_marks_camel_registry_head();
    lemma_marks_camel_registry_tail();
    lemma_marks_camel_envelope();
    assert forall|f: Field, g: Field| f != g implies #[trigger] f.key(naming) != #[trigger] g.key(
        naming,
    ) by {
        assert(key_mark(f.key(naming)) != key_mark(g.key(naming)));
    }
}

/// What a dictionary holds under a key once an entry has been appended:
/// what it held before, else the new entry where its key is the one.
pub proof fn lemma_find_push(
    entries: Seq<(String, PlistNode)>,
    entry: (String, PlistNode),
    key: Seq<char>,
)
    ensures
        find(entries.push(entry), key) == (if find(entries, key) is Some {
            find(entries, key)
        } else if entry.0@ == key {
            Some(entry.1)
        } else {
            None
        }),
    decreases entries.len(),
{
    let all = entries.push(entry);
    if entries.len() == 0 {
        assert(all.drop_first() =~= entries);
    } else {
        assert(all.drop_first() =~= entries.drop_first().push(entry));
        lemma_find_push(entries.drop_first(), entry, key);
    }
}

/// Appends the entry of a field to a dictionary that does not hold the
/// field yet.
fn put(entries: &mut Vec<(String, PlistNode)>, naming: Naming, field: Field, node: PlistNode)
    requires
        find(old(entries)@, field.key(naming)) is None,
    ensures
        final(entries)@.len() == old(entries)@.len() + 1,
        find(final(entries)@, field.key(naming)) == Some(node),
        forall|key: Seq<char>|
            key != field.key(naming) ==> #[trigger] find(final(entries)@, key) == find(
                old(entries)@,
                key,
            ),
{
    let key = String::from_str(field.key_str(naming));
    proof {
        assert forall|k: Seq<char>| #[trigger]
            find(entries@.push((key, node)), k) == (if find(entries@, k) is Some {
                find(entries@, k)
            } else if key@ == k {
                Some(node)
            } else {
                None
            }) by {
            lemma_find_push(entries@, (key, node), k);
        }
    }
    entries.push((key, node));
}

/// The node of a whole number.
pub open spec fn number(v: int) -> PlistNode {
    PlistNode::Integer(Some(v as i64))
}

/// Whether the entries of a dictionary are the adapter's details written out under a
/// spelling: under the key of each field stands its value, a field that
/// is absent has no entry, and there is no other entry.
pub open spec fn writes_adapter(
    entries: Seq<(String, PlistNode)>,
    a: AdapterDetails,
    naming: Naming,
) -> bool {
    &&& find(entries, Field::AdapterVoltage.key(naming)) == (match a.adapter_voltage {
        Some(v) => Some(number(v as int)),
        None => None,
    })
    &&& find(entries, Field::IsWireless.key(naming)) == (match a.is_wireless {
        Some(v) => Some(PlistNode::Boolean(v)),
        None => None,
    })
    &&& find(entries, Field::Watts.key(naming)) == (match a.watts {
        Some(v) => Some(number(v as int)),
        None => None,
    })
    &&& find(entries, Field::Name.key(naming)) == (match a.name {
        Some(v) => Some(PlistNode::String(v)),
        None => None,
    })
    &&& find(entries, Field::Current.key(naming)) == (match a.current {
        Some(v) => Some(number(v as int)),
        None => None,
    })
    &&& find(entries, Field::Description.key(naming)) == (match a.description {
        Some(v) => Some(PlistNode::String(v)),
        None => None,
    })
    &&& entries.len() == (if a.adapter_voltage is Some {
        1nat
    } else {
        0nat
    }) + (if a.is_wireless is Some {
        1nat
    } else {
        0nat
    }) + (if a.watts is Some {
        1nat
    } else {
        0nat
    }) + (if a.name is Some {
        1nat
    } else {
        0nat
    }) + (if a.current is Some {
        1nat
    } else {
        0nat
    }) + (if a.description is Some {
        1nat
    } else {
        0nat
    })
}

/// Whether the entries of a dictionary are the telemetry record written out under a
/// spelling: under the key of each field stands its value, a field that
/// is absent has no entry, and there is no other entry.
pub open spec fn writes_telemetry(
    entries: Seq<(String, PlistNode)>,
    d: PowerTelemetryData,
    naming: Naming,
) -> bool {
    &&& find(
        entries,
        Field::AdapterEfficiencyLoss.key(naming),
    ) == Some(number(d.adapter_efficiency_loss as int))
    &&& find(entries, Field::BatteryPower.key(naming)) == Some(number(d.battery_power as int))
    &&& find(
        entries,
        Field::SystemCurrentIn.key(naming),
    ) == Some(number(d.system_current_in as int))
    &&& find(
        entries,
        Field::SystemEnergyConsumed.key(naming),
    ) == Some(number(d.system_energy_consumed as int))
    &&& find(entries, Field::SystemLoad.key(naming)) == Some(number(d.system_load as int))
    &&& find(entries, Field::SystemPowerIn.key(naming)) == Some(number(d.system_power_in as int))
    &&& find(
        entries,
        Field::SystemVoltageIn.key(naming),
    ) == Some(number(d.system_voltage_in as int))
    &&& entries.len() == 1nat + 1nat + 1nat + 1nat + 1nat + 1nat + 1nat
}

/// Whether the entries of a dictionary are a snapshot written out under a
/// spelling: under the key of each field stands its value, a field that
/// is absent has no entry, and there is no other entry.
pub open spec fn writes_registry(
    entries: Seq<(String, PlistNode)>,
    io: IORegistry,
    naming: Naming,
) -> bool {
    &&& find(
        entries,
        Field::AbsoluteCapacity.key(naming),
    ) == Some(number(io.absolute_capacity as int))
    &&& find(entries, Field::Amperage.key(naming)) == Some(number(io.amperage as int))
    &&& find(entries, Field::Voltage.key(naming)) == Some(number(io.voltage as int))
    &&& find(
        entries,
        Field::AppleRawBatteryVoltage.key(naming),
    ) == (match io.apple_raw_battery_voltage {
        Some(v) => Some(number(v as int)),
        None => None,
    })
    &&& find(
        entries,
        Field::AppleRawCurrentCapacity.key(naming),
    ) == Some(number(io.apple_raw_current_capacity as int))
    &&& find(
        entries,
        Field::AppleRawMaxCapacity.key(naming),
    ) == Some(number(io.apple_raw_max_capacity as int))
    &&& find(
        entries,
        Field::CurrentCapacity.key(naming),
    ) == Some(number(io.current_capacity as int))
    &&& find(entries, Field::CycleCount.key(naming)) == Some(number(io.cycle_count as int))
    &&& find(entries, Field::DesignCapacity.key(naming)) == Some(number(io.design_capacity as int))
    &&& find(entries, Field::FullyCharged.key(naming)) == Some(PlistNode::Boolean(io.fully_charged))
    &&& find(
        entries,
        Field::InstantAmperage.key(naming),
    ) == Some(number(io.instant_amperage as int))
    &&& find(entries, Field::IsCharging.key(naming)) == Some(PlistNode::Boolean(io.is_charging))
    &&& find(entries, Field::MaxCapacity.key(naming)) == Some(number(io.max_capacity as int))
    &&& find(entries, Field::Temperature.key(naming)) == Some(number(io.temperature as int))
    &&& find(entries, Field::TimeRemaining.key(naming)) == Some(number(io.time_remaining as int))
    &&& find(entries, Field::UpdateTime.key(naming)) == Some(number(io.update_time as int))
    &&& find(entries, Field::AdapterDetails.key(naming)) matches Some(PlistNode::Dictionary(inner))
        && writes_adapter(inner@, io.adapter_details, naming)
    &&& match io.power_telemetry_data {
        Some(d) => find(entries, Field::PowerTelemetryData.key(naming)) matches Some(
            PlistNode::Dictionary(inner),
        ) && writes_telemetry(inner@, d, naming),
        None => find(entries, Field::PowerTelemetryData.key(naming)) is None,
    }
    &&& entries.len() == 1nat + 1nat + 1nat + (if io.apple_raw_battery_voltage is Some {
        1nat
    } else {
        0nat
    }) + 1nat + 1nat + 1nat + 1nat + 1nat + 1nat + 1nat + 1nat + 1nat + 1nat + 1nat + 1nat + 1nat + (if io.power_telemetry_data is Some {
        1nat
    } else {
        0nat
    })
}

/// Writes the adapter's details out as the entries of a dictionary, the keys spelt as
/// `naming` says.
pub fn encode_adapter(a: &AdapterDetails, naming: Naming) -> (r: Vec<(String, PlistNode)>)
    ensures
        writes_adapter(r@, *a, naming),
{
    let mut entries: Vec<(String, PlistNode)> = Vec::new();
    proof {
        lemma_keys_are_distinct(naming);
    }
    match a.adapter_voltage {
        Some(
            v,
        ) => put(&mut entries, naming, Field::AdapterVoltage, PlistNode::Integer(Some(v as i64))),
        None => {},
    }
    match a.is_wireless {
        Some(v) => put(&mut entries, naming, Field::IsWireless, PlistNode::Boolean(v)),
        None => {},
    }
    match a.watts {
        Some(v) => put(&mut entries, naming, Field::Watts, PlistNode::Integer(Some(v as i64))),
        None => {},
    }
    match &a.name {
        Some(v) => put(&mut entries, naming, Field::Name, PlistNode::String(v.clone())),
        None => {},
    }
    match a.current {
        Some(v) => put(&mut entries, naming, Field::Current, PlistNode::Integer(Some(v as i64))),
        None => {},
    }
    match &a.description {
        Some(v) => put(&mut entries, naming, Field::Description, PlistNode::String(v.clone())),
        None => {},
    }
    entries
}

/// Writes the telemetry record out as the entries of a dictionary, the keys spelt as
/// `naming` says.
pub fn encode_telemetry(d: &PowerTelemetryData, naming: Naming) -> (r: Vec<(String, PlistNode)>)
    ensures
        writes_telemetry(r@, *d, naming),
{
    let mut entries: Vec<(String, PlistNode)> = Vec::new();
    proof {
        lemma_keys_are_distinct(naming);
    }
    put(
        &mut entries,
        naming,
        Field::AdapterEfficiencyLoss,
        PlistNode::Integer(Some(d.adapter_efficiency_loss as i64)),
    );
    put(
        &mut entries,
        naming,
        Field::BatteryPower,
        PlistNode::Integer(Some(d.battery_power as i64)),
    );
    put(
        &mut entries,
        naming,
        Field::SystemCurrentIn,
        PlistNode::Integer(Some(d.system_current_in as i64)),
    );
    put(
        &mut entries,
        naming,
        Field::SystemEnergyConsumed,
        PlistNode::Integer(Some(d.system_energy_consumed as i64)),
    );
    put(&mut entries, naming, Field::SystemLoad, PlistNode::Integer(Some(d.system_load as i64)));
    put(
        &mut entries,
        naming,
        Field::SystemPowerIn,
        PlistNode::Integer(Some(d.system_power_in as i64)),
    );
    put(
        &mut entries,
        naming,
        Field::SystemVoltageIn,
        PlistNode::Integer(Some(d.system_voltage_in as i64)),
    );
    entries
}

/// Writes a snapshot out as the entries of a dictionary, the keys spelt as
/// `naming` says.
pub fn encode_entries(io: &IORegistry, naming: Naming) -> (r: Vec<(String, PlistNode)>)
    ensures
        writes_registry(r@, *io, naming),
{
    let mut entries: Vec<(String, PlistNode)> = Vec::new();
    proof {
        lemma_keys_are_distinct(naming);
    }
    let adapter = encode_adapter(&io.adapter_details, naming);
    put(&mut entries, naming, Field::AdapterDetails, PlistNode::Dictionary(adapter));
    match &io.power_telemetry_data {
        Some(d) => {
            let telemetry = encode_telemetry(d, naming);
            put(&mut entries, naming, Field::PowerTelemetryData, PlistNode::Dictionary(telemetry));
        },
        None => {},
    }
    put(
        &mut entries,
        naming,
        Field::AbsoluteCapacity,
        PlistNode::Integer(Some(io.absolute_capacity as i64)),
    );
    put(&mut entries, naming, Field::Amperage, PlistNode::Integer(Some(io.amperage as i64)));
    put(&mut entries, naming, Field::Voltage, PlistNode::Integer(Some(io.voltage as i64)));
    match io.apple_raw_battery_voltage {
        Some(
            v,
        ) => put(&mut entries, naming, Field::AppleRawBatteryVoltage, PlistNode::Integer(Some(v as i64))),
        None => {},
    }
    put(
        &mut entries,
        naming,
        Field::AppleRawCurrentCapacity,
        PlistNode::Integer(Some(io.apple_raw_current_capacity as i64)),
    );
    put(
        &mut entries,
        naming,
        Field::AppleRawMaxCapacity,
        PlistNode::Integer(Some(io.apple_raw_max_capacity as i64)),
    );
    put(
        &mut entries,
        naming,
        Field::CurrentCapacity,
        PlistNode::Integer(Some(io.current_capacity as i64)),
    );
    put(&mut entries, naming, Field::CycleCount, PlistNode::Integer(Some(io.cycle_count as i64)));
    put(
        &mut entries,
        naming,
        Field::DesignCapacity,
        PlistNode::Integer(Some(io.design_capacity as i64)),
    );
    put(&mut entries, naming, Field::FullyCharged, PlistNode::Boolean(io.fully_charged));
    put(
        &mut entries,
        naming,
        Field::InstantAmperage,
        PlistNode::Integer(Some(io.instant_amperage as i64)),
    );
    put(&mut entries, naming, Field::IsCharging, PlistNode::Boolean(io.is_charging));
    put(&mut entries, naming, Field::MaxCapacity, PlistNode::Integer(Some(io.max_capacity as i64)));
    put(&mut entries, naming, Field::Temperature, PlistNode::Integer(Some(io.temperature as i64)));
    put(
        &mut entries,
        naming,
        Field::TimeRemaining,
        PlistNode::Integer(Some(io.time_remaining as i64)),
    );
    put(&mut entries, naming, Field::UpdateTime, PlistNode::Integer(Some(io.update_time as i64)));
    entries
}

/// What is written out under a spelling is read back under it as it was.
pub proof fn lemma_written_is_read_back(
    entries: Seq<(String, PlistNode)>,
    io: IORegistry,
    naming: Naming,
)
    requires
        writes_registry(entries, io, naming),
    ensures
        registry_of(entries, naming) == Ok::<IORegistry, SchemaError>(io),
{
    let inner = find(entries, Field::AdapterDetails.key(naming))->Some_0->Dictionary_0@;
    assert(adapter_of(inner, naming) == Ok::<AdapterDetails, SchemaError>(io.adapter_details));
    assert(adapter_field(entries, naming) == Ok::<AdapterDetails, SchemaError>(io.adapter_details));
    if io.power_telemetry_data is Some {
        let d = io.power_telemetry_data->Some_0;
        let t = find(entries, Field::PowerTelemetryData.key(naming))->Some_0->Dictionary_0@;
        assert(telemetry_of(t, naming) == Ok::<PowerTelemetryData, SchemaError>(d));
    }
    assert(telemetry_field(entries, naming) == Ok::<Option<PowerTelemetryData>, SchemaError>(
        io.power_telemetry_data,
    ));
}

/// Writes a snapshot out as a property list, the keys spelt as `naming`
/// says. Read back under the same spelling, it is the snapshot again.
pub fn encode(io: &IORegistry, naming: Naming) -> (r: PlistNode)
    ensures
        r matches PlistNode::Dictionary(entries) && writes_registry(entries@, *io, naming),
        decoded(r, naming) == Ok::<IORegistry, SchemaError>(*io),
{
    let entries = encode_entries(io, naming);
    proof {
        lemma_written_is_read_back(entries@, *io, naming);
    }
    PlistNode::Dictionary(entries)
}

/// A snapshot that was read under one spelling and is written out under
/// the other is read back under that other as it was: the two spellings
/// carry the same snapshot.
pub proof fn lemma_spellings_carry_the_same(
    read: PlistNode,
    written: PlistNode,
    io: IORegistry,
    from: Naming,
    to: Naming,
)
    requires
        decoded(read, from) == Ok::<IORegistry, SchemaError>(io),
        written matches PlistNode::Dictionary(entries) && writes_registry(entries@, io, to),
    ensures
        decoded(written, to) == decoded(read, from),
{
    lemma_written_is_read_back(written->Dictionary_0@, io, to);
}

/// Whether a field is one of the adapter's details.
pub open spec fn is_adapter_field(f: Field) -> bool {
    f == Field::AdapterVoltage
        || f == Field::IsWireless
        || f == Field::Watts
        || f == Field::Name
        || f == Field::Current
        || f == Field::Description
}

/// Whether a field is one of the telemetry record.
pub open spec fn is_telemetry_field(f: Field) -> bool {
    f == Field::AdapterEfficiencyLoss
        || f == Field::BatteryPower
        || f == Field::SystemCurrentIn
        || f == Field::SystemEnergyConsumed
        || f == Field::SystemLoad
        || f == Field::SystemPowerIn
        || f == Field::SystemVoltageIn
}

/// Whether a field is one of the snapshot itself and holds no record.
pub open spec fn is_plain_registry_field(f: Field) -> bool {
    f == Field::AbsoluteCapacity
        || f == Field::Amperage
        || f == Field::Voltage
        || f == Field::AppleRawBatteryVoltage
        || f == Field::AppleRawCurrentCapacity
        || f == Field::AppleRawMaxCapacity
        || f == Field::CurrentCapacity
        || f == Field::CycleCount
        || f == Field::DesignCapacity
        || f == Field::FullyCharged
        || f == Field::InstantAmperage
        || f == Field::IsCharging
        || f == Field::MaxCapacity
        || f == Field::Temperature
        || f == Field::TimeRemaining
        || f == Field::UpdateTime
}

/// Whether two dictionaries hold the same value under each of the given
/// fields, the first spelt one way and the second the other.
pub open spec fn agree_on(
    one: Seq<(String, PlistNode)>,
    naming_one: Naming,
    other: Seq<(String, PlistNode)>,
    naming_other: Naming,
    fields: spec_fn(Field) -> bool,
) -> bool {
    forall|f: Field| #[trigger] fields(
        f,
    ) ==> find(one, f.key(naming_one)) == find(other, f.key(naming_other))
}

/// Whether two nodes hold records that agree on the given fields, or are
/// both no record, or are both absent.
pub open spec fn records_agree(
    one: Option<PlistNode>,
    naming_one: Naming,
    other: Option<PlistNode>,
    naming_other: Naming,
    fields: spec_fn(Field) -> bool,
) -> bool {
    match (one, other) {
        (None, None) => true,
        (Some(a), Some(b)) => match (as_entries(a), as_entries(b)) {
            (None, None) => true,
            (Some(x), Some(y)) => agree_on(x, naming_one, y, naming_other, fields),
            _ => false,
        },
        _ => false,
    }
}

/// The spelling decides under which keys the fields are looked up and
/// nothing else: two property lists that hold the same values, one under
/// the keys of one spelling and one under those of the other, decode to the
/// same snapshot or fail with the same error.
pub proof fn lemma_spelling_is_immaterial(
    one: Seq<(String, PlistNode)>,
    naming_one: Naming,
    other: Seq<(String, PlistNode)>,
    naming_other: Naming,
)
    requires
        agree_on(one, naming_one, other, naming_other, |f: Field| is_plain_registry_field(f)),
        records_agree(
            find(one, Field::AdapterDetails.key(naming_one)),
            naming_one,
            find(other, Field::AdapterDetails.key(naming_other)),
            naming_other,
            |f: Field| is_adapter_field(f),
        ),
        records_agree(
            find(one, Field::PowerTelemetryData.key(naming_one)),
            naming_one,
            find(other, Field::PowerTelemetryData.key(naming_other)),
            naming_other,
            |f: Field| is_telemetry_field(f),
        ),
    ensures
        registry_of(one, naming_one) == registry_of(other, naming_other),
{
    let plain = |f: Field| is_plain_registry_field(f);
    let adapter = |f: Field| is_adapter_field(f);
    let telemetry = |f: Field| is_telemetry_field(f);
    assert(plain(Field::AbsoluteCapacity));
    assert(plain(Field::Amperage));
    assert(plain(Field::Voltage));
    assert(plain(Field::AppleRawBatteryVoltage));
    assert(plain(Field::AppleRawCurrentCapacity));
    assert(plain(Field::AppleRawMaxCapacity));
    assert(plain(Field::CurrentCapacity));
    assert(plain(Field::CycleCount));
    assert(plain(Field::DesignCapacity));
    assert(plain(Field::FullyCharged));
    assert(plain(Field::InstantAmperage));
    assert(plain(Field::IsCharging));
    assert(plain(Field::MaxCapacity));
    assert(plain(Field::Temperature));
    assert(plain(Field::TimeRemaining));
    assert(plain(Field::UpdateTime));
    let a1 = find(one, Field::AdapterDetails.key(naming_one));
    let a2 = find(other, Field::AdapterDetails.key(naming_other));
    if a1 is Some && as_entries(a1->Some_0) is Some {
        let x = as_entries(a1->Some_0)->Some_0;
        let y = as_entries(a2->Some_0)->Some_0;
        assert(adapter(Field::AdapterVoltage));
        assert(adapter(Field::IsWireless));
        assert(adapter(Field::Watts));
        assert(adapter(Field::Name));
        assert(adapter(Field::Current));
        assert(adapter(Field::Description));
        assert(adapter_of(x, naming_one) == adapter_of(y, naming_other));
    }
    assert(adapter_field(one, naming_one) == adapter_field(other, naming_other));
    let t1 = find(one, Field::PowerTelemetryData.key(naming_one));
    let t2 = find(other, Field::PowerTelemetryData.key(naming_other));
    if t1 is Some && as_entries(t1->Some_0) is Some {
        let x = as_entries(t1->Some_0)->Some_0;
        let y = as_entries(t2->Some_0)->Some_0;
        assert(telemetry(Field::AdapterEfficiencyLoss));
        assert(telemetry(Field::BatteryPower));
        assert(telemetry(Field::SystemCurrentIn));
        assert(telemetry(Field::SystemEnergyConsumed));
        assert(telemetry(Field::SystemLoad));
        assert(telemetry(Field::SystemPowerIn));
        assert(telemetry(Field::SystemVoltageIn));
        assert(telemetry_of(x, naming_one) == telemetry_of(y, naming_other));
    }
    assert(telemetry_field(one, naming_one) == telemetry_field(other, naming_other));
}

} // verus!
