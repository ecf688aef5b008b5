use tpower::codec::{
    decode, decode_diagnostic, encode, encode_adapter, encode_telemetry, lookup, Field, Naming, SchemaError,
};
use tpower::de::{AdapterDetails, IORegistry, PowerTelemetryData};
use tpower::property_list::{has_plain_dates, is_shallow, parse, ParseError, PlistNode, MAX_COLLECTIONS};
use tpower::provider::remote::{diagnostics_request, get_device_ioreg, DeviceDataError};
use tpower::provider::get_mac_ioreg;
use tpower::util::{dict_into, DictParseError};

const PASCAL: [(&str, &str); 18] = [
    ("AdapterDetails", "<dict><key>AdapterVoltage</key><integer>20000</integer><key>IsWireless</key><false/><key>Watts</key><integer>96</integer><key>Name</key><string>96W USB-C Power Adapter</string><key>Current</key><integer>4800</integer><key>Description</key><string>pd charger</string></dict>"),
    ("PowerTelemetryData", "<dict><key>AdapterEfficiencyLoss</key><integer>500</integer><key>BatteryPower</key><integer>3000</integer><key>SystemCurrentIn</key><integer>750</integer><key>SystemEnergyConsumed</key><integer>123456789012</integer><key>SystemLoad</key><integer>9000</integer><key>SystemPowerIn</key><integer>15000</integer><key>SystemVoltageIn</key><integer>20000</integer></dict>"),
    ("AbsoluteCapacity", "<integer>3100</integer>"),
    ("Amperage", "<integer>-1200</integer>"),
    ("Voltage", "<integer>12500</integer>"),
    ("AppleRawBatteryVoltage", "<integer>12498</integer>"),
    ("AppleRawCurrentCapacity", "<integer>3000</integer>"),
    ("AppleRawMaxCapacity", "<integer>4000</integer>"),
    ("CurrentCapacity", "<integer>76</integer>"),
    ("CycleCount", "<integer>211</integer>"),
    ("DesignCapacity", "<integer>4382</integer>"),
    ("FullyCharged", "<false/>"),
    ("InstantAmperage", "<integer>-1187</integer>"),
    ("IsCharging", "<true/>"),
    ("MaxCapacity", "<integer>100</integer>"),
    ("Temperature", "<integer>3055</integer>"),
    ("TimeRemaining", "<integer>42</integer>"),
    ("UpdateTime", "<integer>1700000000</integer>"),
];

fn lower_first(text: &str, keep: &str) -> String {
    if text == keep {
        return text.to_string();
    }
    let mut out = text.to_string();
    let head = out.remove(0).to_ascii_lowercase();
    out.insert(0, head);
    out
}

fn camel_value(value: &str) -> String {
    let mut out = String::new();
    let mut rest = value;
    while let Some(at) = rest.find("<key>") {
        let end = rest.find("</key>").unwrap();
        out.push_str(&rest[..at + 5]);
        out.push_str(&lower_first(&rest[at + 5..end], "IORegistry"));
        out.push_str("</key>");
        rest = &rest[end + 6..];
    }
    out.push_str(rest);
    out
}

fn document(body: &str) -> Vec<u8> {
    format!(
        "<?xml version=\"1.0\" encoding=\"UTF-8\"?>\n<!DOCTYPE plist PUBLIC \"-//Apple//DTD PLIST 1.0//EN\" \"http://www.apple.com/DTDs/PropertyList-1.0.dtd\">\n<plist version=\"1.0\">\n{body}\n</plist>\n"
    )
    .into_bytes()
}

fn dictionary(entries: &[(&str, &str)]) -> String {
    let mut body = String::from("<dict>");
    for (key, value) in entries {
        body.push_str(&format!("<key>{key}</key>{value}"));
    }
    body.push_str("</dict>");
    body
}

fn without(skip: &str) -> Vec<(&'static str, &'static str)> {
    PASCAL.iter().copied().filter(|(k, _)| *k != skip).collect()
}

fn with(key: &'static str, value: &'static str) -> Vec<(&'static str, &'static str)> {
    PASCAL.iter().copied().map(|(k, v)| if k == key { (k, value) } else { (k, v) }).collect()
}

fn expected() -> IORegistry {
    IORegistry {
        adapter_details: AdapterDetails {
            adapter_voltage: Some(20_000),
            is_wireless: Some(false),
            watts: Some(96),
            name: Some("96W USB-C Power Adapter".to_string()),
            current: Some(4_800),
            description: Some("pd charger".to_string()),
        },
        power_telemetry_data: Some(PowerTelemetryData {
            adapter_efficiency_loss: 500,
            battery_power: 3000,
            system_current_in: 750,
            system_energy_consumed: 123_456_789_012,
            system_load: 9000,
            system_power_in: 15_000,
            system_voltage_in: 20_000,
        }),
        absolute_capacity: 3100,
        amperage: -1200,
        voltage: 12_500,
        apple_raw_battery_voltage: Some(12_498),
        apple_raw_current_capacity: 3000,
        apple_raw_max_capacity: 4000,
        current_capacity: 76,
        cycle_count: 211,
        design_capacity: 4382,
        fully_charged: false,
        instant_amperage: -1187,
        is_charging: true,
        max_capacity: 100,
        temperature: 3055,
        time_remaining: 42,
        update_time: 1_700_000_000,
    }
}

fn schema_error(entries: &[(&str, &str)]) -> SchemaError {
    match get_mac_ioreg(Some(&document(&dictionary(entries)))) {
        Err(DictParseError::Schema(e)) => e,
        other => panic!("a schema error was due, not {other:?}"),
    }
}

#[test]
fn a_snapshot_is_read_from_a_property_list() {
    let xml = document(&dictionary(&PASCAL));
    assert_eq!(get_mac_ioreg(Some(&xml)).unwrap(), expected());
    assert_eq!(expected().ptd(), expected().power_telemetry_data.as_ref());
}

#[test]
fn the_two_spellings_give_the_same_snapshot() {
    let pascal = dict_into(Some(&document(&dictionary(&PASCAL)))).unwrap();
    let camel_entries: Vec<(String, String)> =
        PASCAL.iter().map(|(k, v)| (lower_first(k, "IORegistry"), camel_value(v))).collect();
    let borrowed: Vec<(&str, &str)> = camel_entries.iter().map(|(k, v)| (k.as_str(), v.as_str())).collect();
    let camel = dict_into(Some(&document(&dictionary(&borrowed)))).unwrap();
    assert_ne!(pascal, camel);
    let one = decode(&pascal, Naming::Pascal).unwrap();
    let other = decode(&camel, Naming::Camel).unwrap();
    assert_eq!(one, other);
    assert_eq!(one, expected());
    assert_eq!(decode(&pascal, Naming::Camel), Err(SchemaError::Missing(Field::AdapterDetails)));
    assert_eq!(decode(&camel, Naming::Pascal), Err(SchemaError::Missing(Field::AdapterDetails)));
}

#[test]
fn the_keys_of_the_two_spellings_differ_in_the_first_letter() {
    assert_eq!(Field::AppleRawBatteryVoltage.key_str(Naming::Pascal), "AppleRawBatteryVoltage");
    assert_eq!(Field::AppleRawBatteryVoltage.key_str(Naming::Camel), "appleRawBatteryVoltage");
    assert_eq!(Field::IORegistry.key_str(Naming::Pascal), "IORegistry");
    assert_eq!(Field::IORegistry.key_str(Naming::Camel), "IORegistry");
    assert_eq!(Field::Diagnostics.key_str(Naming::Camel), "diagnostics");
    for (key, _) in PASCAL {
        let tree = dict_into(Some(&document(&dictionary(&PASCAL)))).unwrap();
        let PlistNode::Dictionary(entries) = tree else { panic!("a dictionary was due") };
        assert!(lookup(&entries, key).is_some());
        assert!(lookup(&entries, &lower_first(key, "")).is_none());
    }
}

#[test]
fn a_snapshot_on_battery_has_no_telemetry_record() {
    let io = get_mac_ioreg(Some(&document(&dictionary(&without("PowerTelemetryData"))))).unwrap();
    assert_eq!(io, IORegistry { power_telemetry_data: None, ..expected() });
    assert_eq!(io.ptd(), None);
    let io = get_mac_ioreg(Some(&document(&dictionary(&without("AppleRawBatteryVoltage"))))).unwrap();
    assert_eq!(io, IORegistry { apple_raw_battery_voltage: None, ..expected() });
}

#[test]
fn an_adapter_without_details_is_an_empty_record() {
    let io = get_mac_ioreg(Some(&document(&dictionary(&with("AdapterDetails", "<dict></dict>"))))).unwrap();
    assert_eq!(io, IORegistry { adapter_details: AdapterDetails::default(), ..expected() });
}

#[test]
fn a_missing_required_field_is_an_error() {
    assert_eq!(schema_error(&without("AdapterDetails")), SchemaError::Missing(Field::AdapterDetails));
    assert_eq!(schema_error(&without("CycleCount")), SchemaError::Missing(Field::CycleCount));
    assert_eq!(schema_error(&without("UpdateTime")), SchemaError::Missing(Field::UpdateTime));
    assert_eq!(schema_error(&without("IsCharging")), SchemaError::Missing(Field::IsCharging));
    assert_eq!(schema_error(&[]), SchemaError::Missing(Field::AdapterDetails));
    assert_eq!(
        schema_error(&with("PowerTelemetryData", "<dict><key>BatteryPower</key><integer>1</integer></dict>")),
        SchemaError::Missing(Field::AdapterEfficiencyLoss)
    );
}

#[test]
fn a_field_of_another_type_is_an_error() {
    assert_eq!(schema_error(&with("CycleCount", "<string>211</string>")), SchemaError::Invalid(Field::CycleCount));
    assert_eq!(schema_error(&with("CycleCount", "<real>211.0</real>")), SchemaError::Invalid(Field::CycleCount));
    assert_eq!(schema_error(&with("IsCharging", "<integer>1</integer>")), SchemaError::Invalid(Field::IsCharging));
    assert_eq!(schema_error(&with("AdapterDetails", "<array/>")), SchemaError::Invalid(Field::AdapterDetails));
    assert_eq!(
        schema_error(&with("PowerTelemetryData", "<string>none</string>")),
        SchemaError::Invalid(Field::PowerTelemetryData)
    );
    assert_eq!(
        schema_error(&with("AdapterDetails", "<dict><key>Name</key><integer>3</integer></dict>")),
        SchemaError::Invalid(Field::Name)
    );
    assert_eq!(
        schema_error(&with("CycleCount", "<integer>2147483648</integer>")),
        SchemaError::Invalid(Field::CycleCount)
    );
    assert_eq!(
        schema_error(&with("UpdateTime", "<integer>18446744073709551615</integer>")),
        SchemaError::Invalid(Field::UpdateTime)
    );
    let io = get_mac_ioreg(Some(&document(&dictionary(&with("CycleCount", "<integer>-2147483648</integer>")))));
    assert_eq!(io.unwrap().cycle_count, i32::MIN);
}

#[test]
fn the_first_field_in_error_is_reported() {
    let mut entries = with("Voltage", "<true/>");
    entries.retain(|(k, _)| *k != "Temperature");
    assert_eq!(schema_error(&entries), SchemaError::Invalid(Field::Voltage));
}

#[test]
fn what_is_no_dictionary_holds_no_snapshot() {
    assert!(matches!(
        get_mac_ioreg(Some(&document("<string>x</string>"))),
        Err(DictParseError::Schema(SchemaError::NotADictionary))
    ));
    assert_eq!(decode(&PlistNode::Other, Naming::Pascal), Err(SchemaError::NotADictionary));
    assert_eq!(decode(&PlistNode::Integer(Some(3)), Naming::Camel), Err(SchemaError::NotADictionary));
}

#[test]
fn bytes_that_are_no_property_list_are_a_parse_error() {
    assert!(matches!(get_mac_ioreg(Some(b"<plist><dict>")), Err(DictParseError::Deserialize(_))));
    assert!(matches!(get_mac_ioreg(Some(b"")), Err(DictParseError::Deserialize(_))));
    assert!(matches!(dict_into(Some(b"\xff\xfe")), Err(DictParseError::Deserialize(_))));
    assert!(matches!(get_mac_ioreg(None), Err(DictParseError::XmlData)));
    assert!(matches!(dict_into(None), Err(DictParseError::XmlData)));
}

#[test]
fn a_property_list_becomes_a_tree_of_plain_values() {
    let body = "<dict><key>a</key><integer>-5</integer><key>b</key><true/><key>c</key><string>x</string><key>d</key><array><integer>1</integer></array><key>e</key><real>1.5</real><key>f</key><dict><key>g</key><integer>18446744073709551615</integer></dict><key>h</key><data>AQID</data></dict>";
    let tree = dict_into(Some(&document(body))).unwrap();
    let expected = PlistNode::Dictionary(vec![
        ("a".to_string(), PlistNode::Integer(Some(-5))),
        ("b".to_string(), PlistNode::Boolean(true)),
        ("c".to_string(), PlistNode::String("x".to_string())),
        ("d".to_string(), PlistNode::Other),
        ("e".to_string(), PlistNode::Other),
        ("f".to_string(), PlistNode::Dictionary(vec![("g".to_string(), PlistNode::Integer(None))])),
        ("h".to_string(), PlistNode::Other),
    ]);
    assert_eq!(tree, expected);
    let PlistNode::Dictionary(entries) = tree else { panic!("a dictionary was due") };
    assert_eq!(lookup(&entries, "c"), Some(&PlistNode::String("x".to_string())));
    assert_eq!(lookup(&entries, "z"), None);
}

#[test]
fn a_diagnostics_reply_holds_the_snapshot_two_layers_down() {
    let registry = dictionary(&PASCAL);
    let inner = dictionary(&[("IORegistry", registry.as_str())]);
    let reply = document(&dictionary(&[("Diagnostics", inner.as_str()), ("Status", "<string>Success</string>")]));
    assert_eq!(get_device_ioreg(0, 0, Some(&reply)).unwrap(), expected());
    let tree = dict_into(Some(&reply)).unwrap();
    assert_eq!(decode_diagnostic(&tree, Naming::Pascal).unwrap().diagnostics.ioregistry, expected());
}

#[test]
fn each_failure_of_an_exchange_has_its_own_kind() {
    let registry = dictionary(&PASCAL);
    let inner = dictionary(&[("IORegistry", registry.as_str())]);
    let reply = document(&dictionary(&[("Diagnostics", inner.as_str())]));
    assert!(matches!(get_device_ioreg(-3, 0, Some(&reply)), Err(DeviceDataError::Send(-3))));
    assert!(matches!(get_device_ioreg(7, 9, None), Err(DeviceDataError::Send(7))));
    assert!(matches!(get_device_ioreg(0, 9, Some(&reply)), Err(DeviceDataError::Receive(9))));
    assert!(matches!(get_device_ioreg(0, 0, None), Err(DeviceDataError::Parse(DictParseError::XmlData))));
    assert!(matches!(
        get_device_ioreg(0, 0, Some(b"not a list")),
        Err(DeviceDataError::Parse(DictParseError::Deserialize(_)))
    ));
    let bare = document(&registry);
    assert!(matches!(
        get_device_ioreg(0, 0, Some(&bare)),
        Err(DeviceDataError::Parse(DictParseError::Schema(SchemaError::Missing(Field::Diagnostics))))
    ));
    let hollow = document(&dictionary(&[("Diagnostics", "<dict></dict>")]));
    assert!(matches!(
        get_device_ioreg(0, 0, Some(&hollow)),
        Err(DeviceDataError::Parse(DictParseError::Schema(SchemaError::Missing(Field::IORegistry))))
    ));
    let flat = document(&dictionary(&[("Diagnostics", "<true/>")]));
    assert!(matches!(
        get_device_ioreg(0, 0, Some(&flat)),
        Err(DeviceDataError::Parse(DictParseError::Schema(SchemaError::Invalid(Field::Diagnostics))))
    ));
    let wrong = dictionary(&[("IORegistry", "<integer>1</integer>")]);
    let wrong = document(&dictionary(&[("Diagnostics", wrong.as_str())]));
    assert!(matches!(
        get_device_ioreg(0, 0, Some(&wrong)),
        Err(DeviceDataError::Parse(DictParseError::Schema(SchemaError::Invalid(Field::IORegistry))))
    ));
    let short = dictionary(&[("IORegistry", "<dict></dict>")]);
    let short = document(&dictionary(&[("Diagnostics", short.as_str())]));
    assert!(matches!(
        get_device_ioreg(0, 0, Some(&short)),
        Err(DeviceDataError::Parse(DictParseError::Schema(SchemaError::Missing(Field::AdapterDetails))))
    ));
}

#[test]
fn the_diagnostics_request_has_two_entries() {
    let request = diagnostics_request();
    assert_eq!(
        request,
        vec![
            ("EntryClass".to_string(), "IOPMPowerSource".to_string()),
            ("Request".to_string(), "IORegistry".to_string()),
        ]
    );
}

#[test]
fn a_snapshot_read_under_one_spelling_and_written_under_the_other_is_the_same() {
    let read = decode(&dict_into(Some(&document(&dictionary(&PASCAL)))).unwrap(), Naming::Pascal).unwrap();
    let written = encode(&read, Naming::Camel);
    assert_eq!(decode(&written, Naming::Camel), Ok(read.clone()));
    assert_eq!(decode(&written, Naming::Pascal), Err(SchemaError::Missing(Field::AdapterDetails)));
    let back = encode(&decode(&written, Naming::Camel).unwrap(), Naming::Pascal);
    assert_eq!(decode(&back, Naming::Pascal), Ok(read.clone()));
    assert_eq!(back, encode(&read, Naming::Pascal));
    assert_eq!(read, expected());
}

#[test]
fn what_is_written_out_holds_each_field_under_its_key() {
    let PlistNode::Dictionary(entries) = encode(&expected(), Naming::Camel) else { panic!("a dictionary was due") };
    assert_eq!(entries.len(), 18);
    assert_eq!(lookup(&entries, "cycleCount"), Some(&PlistNode::Integer(Some(211))));
    assert_eq!(lookup(&entries, "isCharging"), Some(&PlistNode::Boolean(true)));
    assert_eq!(lookup(&entries, "updateTime"), Some(&PlistNode::Integer(Some(1_700_000_000))));
    assert_eq!(lookup(&entries, "CycleCount"), None);
    let Some(PlistNode::Dictionary(adapter)) = lookup(&entries, "adapterDetails") else { panic!("a dictionary was due") };
    assert_eq!(adapter.len(), 6);
    assert_eq!(lookup(adapter, "name"), Some(&PlistNode::String("96W USB-C Power Adapter".to_string())));
    assert_eq!(lookup(adapter, "isWireless"), Some(&PlistNode::Boolean(false)));
    let Some(PlistNode::Dictionary(telemetry)) = lookup(&entries, "powerTelemetryData") else { panic!("a dictionary was due") };
    assert_eq!(telemetry.len(), 7);
    assert_eq!(lookup(telemetry, "systemEnergyConsumed"), Some(&PlistNode::Integer(Some(123_456_789_012))));
}

#[test]
fn what_is_absent_is_not_written_out() {
    let bare = IORegistry::default();
    for naming in [Naming::Pascal, Naming::Camel] {
        let PlistNode::Dictionary(entries) = encode(&bare, naming) else { panic!("a dictionary was due") };
        assert_eq!(entries.len(), 16);
        assert_eq!(lookup(&entries, Field::PowerTelemetryData.key_str(naming)), None);
        assert_eq!(lookup(&entries, Field::AppleRawBatteryVoltage.key_str(naming)), None);
        assert_eq!(lookup(&entries, Field::AdapterDetails.key_str(naming)), Some(&PlistNode::Dictionary(Vec::new())));
        assert_eq!(decode(&PlistNode::Dictionary(entries), naming), Ok(IORegistry::default()));
    }
    assert!(encode_adapter(&AdapterDetails::default(), Naming::Pascal).is_empty());
    assert_eq!(encode_telemetry(&PowerTelemetryData::default(), Naming::Pascal).len(), 7);
    let extremes = IORegistry { cycle_count: i32::MIN, update_time: i64::MIN, voltage: i32::MAX, ..expected() };
    assert_eq!(decode(&encode(&extremes, Naming::Pascal), Naming::Pascal), Ok(extremes));
}

#[test]
fn a_plain_date_is_no_hindrance() {
    let mut entries = PASCAL.to_vec();
    entries.push(("Made", "<date>2020-01-01T00:00:00Z</date>"));
    entries.push(("First", "<date>0000-01-01T00:00:00Z</date>"));
    entries.push(("Last", "<date>9999-12-31T23:59:59Z</date>"));
    entries.push(("Note", "<string>up:date and </string>"));
    entries.push(("Quote", "<string>a \"b>c\":date </string>"));
    let xml = document(&dictionary(&entries));
    assert!(has_plain_dates(&xml));
    assert_eq!(get_mac_ioreg(Some(&xml)).unwrap(), expected());
    let PlistNode::Dictionary(tree) = parse(&xml).unwrap() else { panic!("a dictionary was due") };
    assert_eq!(lookup(&tree, "Made"), Some(&PlistNode::Other));
    assert_eq!(lookup(&tree, "Note"), Some(&PlistNode::String("up:date and ".to_string())));
    let text = with("AdapterDetails", "<dict><key>Name</key><string>up:date</string></dict>");
    let io = get_mac_ioreg(Some(&document(&dictionary(&text)))).unwrap();
    assert_eq!(io.adapter_details.name.as_deref(), Some("up:date"));
    let wrong = document("<date>2020-13-01T00:00:00Z</date>");
    assert!(matches!(parse(&wrong), Err(ParseError::Syntax(_))));
}

#[test]
fn a_date_that_is_not_written_plainly_is_refused_unparsed() {
    let dates = [
        "<date>9999-12-31T23:59:59-01:00</date>",
        "<date>0000-01-01T00:00:00+01:00</date>",
        "<date>2020-01-01T00:00:00+00:00</date>",
        "<date>2020-01-01T00:00:00.5Z</date>",
        "<date>2020-01-01 00:00:00Z</date>",
        "<date>2020-01-01T00:00:00z</date>",
        "<date>2020-01-01T00:00:00Z<!---->-01:00</date>",
        "<date> 2020-01-01T00:00:00Z</date>",
        "<date/>",
        "<date >2020-01-01T00:00:00Z</date>",
        "<date\t>2020-01-01T00:00:00Z</date>",
        "<x:date>2020-01-01T00:00:00Z</x:date>",
        "<a\"b>c\":date>9999-12-31T23:59:59-01:00</a\"b>c\":date>",
        "<string><![CDATA[<date>]]></string>",
    ];
    for date in dates {
        let mut entries = without("CycleCount");
        entries.push(("Made", date));
        let xml = document(&dictionary(&entries));
        assert!(!has_plain_dates(&xml), "{date}");
        assert!(matches!(parse(&xml), Err(ParseError::Unsupported)), "{date}");
        assert!(matches!(dict_into(Some(&xml)), Err(DictParseError::Unsupported)), "{date}");
        assert!(matches!(get_mac_ioreg(Some(&xml)), Err(DictParseError::Unsupported)), "{date}");
        assert!(
            matches!(get_device_ioreg(0, 0, Some(&xml)), Err(DeviceDataError::Parse(DictParseError::Unsupported))),
            "{date}"
        );
        assert!(matches!(get_device_ioreg(3, 0, Some(&xml)), Err(DeviceDataError::Send(3))));
    }
}

#[test]
fn a_binary_list_is_refused_unparsed() {
    let mut binary = b"bplist00".to_vec();
    assert!(!has_plain_dates(&binary));
    assert!(matches!(parse(&binary), Err(ParseError::Unsupported)));
    binary.extend_from_slice(&[0x33, 0xc1, 0xff, 0, 0, 0, 0, 0, 0, 8, 0, 0, 0, 0, 0, 0, 1, 1, 0, 0, 0, 0, 0, 0, 0, 1]);
    binary.extend_from_slice(&[0, 0, 0, 0, 0, 0, 0, 0, 0, 0, 0, 0, 0, 0, 0, 17]);
    assert!(matches!(parse(&binary), Err(ParseError::Unsupported)));
    assert!(matches!(get_mac_ioreg(Some(&binary)), Err(DictParseError::Unsupported)));
    assert!(matches!(parse(b"bplist0"), Err(ParseError::Syntax(_))));
    assert_eq!(parse(b"bplist01").ok(), Some(PlistNode::String("bplist01".to_string())));
}

#[test]
fn the_scan_for_dates_looks_at_names_in_tags_only() {
    for free in [
        &b""[..],
        b"date",
        b":date",
        b"<dat e>",
        b"<Date>",
        b"<dates>",
        b"</date>",
        b"<key>UpdateTime</key><key>ManufactureDate</key>",
        b"<data>date</data>",
        b"<string>a:date</string>",
        b"<string>see up:date </string>",
        b"<string>up:date </string>",
        b"<string>up:date></string>",
        b"<key a='b'>x:date </key>",
        b" bplist00",
        b"<date>2020-01-01T00:00:00Z</date>",
        b"<date>2020-01-01T00:00:00Z</",
    ] {
        assert!(has_plain_dates(free), "{}", String::from_utf8_lossy(free));
    }
    for held in [
        &b"<date>"[..],
        b"<date",
        b"<date ",
        b"<date/>",
        b"<x:date>",
        b"xx<date>",
        b"<a'b>c':date>",
        b"<a\"<b>\":date/>",
        b"<date>2020-01-01T00:00:00Z<",
        b"bplist00",
        b"bplist00<dict/>",
    ] {
        assert!(!has_plain_dates(held), "{}", String::from_utf8_lossy(held));
    }
    assert!(has_plain_dates(&document(&dictionary(&PASCAL))));
}

fn nested(open: &str, close: &str, depth: usize) -> Vec<u8> {
    let mut body = String::new();
    for _ in 0..depth {
        body.push_str(open);
    }
    body.push_str(if open.starts_with('<') { "<true/>" } else { "x" });
    for _ in 0..depth {
        body.push_str(close);
    }
    body.into_bytes()
}

#[test]
fn a_list_that_opens_too_many_collections_is_refused_unparsed() {
    assert_eq!(MAX_COLLECTIONS, 128);
    for (open, close) in [("<array>", "</array>"), ("<dict><key>k</key>", "</dict>"), ("<array\n>", "</array>")] {
        let most = nested(open, close, MAX_COLLECTIONS);
        assert!(is_shallow(&most));
        assert!(parse(&most).is_ok(), "{open}");
        let more = nested(open, close, MAX_COLLECTIONS + 1);
        assert!(!is_shallow(&more));
        assert!(matches!(parse(&more), Err(ParseError::TooDeep)), "{open}");
        assert!(matches!(dict_into(Some(&more)), Err(DictParseError::TooDeep)));
        assert!(matches!(get_mac_ioreg(Some(&more)), Err(DictParseError::TooDeep)));
        assert!(matches!(
            get_device_ioreg(0, 0, Some(&more)),
            Err(DeviceDataError::Parse(DictParseError::TooDeep))
        ));
        let far_more = nested(open, close, 100_000);
        assert!(matches!(parse(&far_more), Err(ParseError::TooDeep)), "{open}");
    }
    for (open, close) in [("(", ")"), ("{ a = ", "; }")] {
        let most = nested(open, close, MAX_COLLECTIONS);
        assert!(is_shallow(&most));
        let more = nested(open, close, MAX_COLLECTIONS + 1);
        assert!(matches!(parse(&more), Err(ParseError::TooDeep)), "{open}");
        let far_more = nested(open, close, 100_000);
        assert!(matches!(parse(&far_more), Err(ParseError::TooDeep)), "{open}");
    }
    let flat = format!("<array>{}<true/></array>", "<array/><dict/>".repeat(63));
    assert!(is_shallow(flat.as_bytes()));
    assert!(parse(flat.as_bytes()).is_ok());
    let flat = format!("<array>{}</array>", "<array/><dict/>".repeat(64));
    assert!(!is_shallow(flat.as_bytes()));
    assert!(is_shallow(&document(&dictionary(&PASCAL))));
    assert!(is_shallow(b"<key>dict</key><string>array (x) </string>"));
    assert!(is_shallow(&b"(".repeat(128)));
    assert!(!is_shallow(&b"(".repeat(129)));
}

#[test]
fn the_parser_stands_four_times_the_nesting_that_is_allowed() {
    for (open, close) in [("<array>", "</array>"), ("<dict><key>k</key>", "</dict>"), ("(", ")")] {
        let deep = nested(open, close, 4 * MAX_COLLECTIONS);
        assert!(plist::from_bytes::<plist::Value>(&deep).is_ok(), "{open}");
    }
}

#[test]
fn what_the_parser_can_take_is_parsed_as_before() {
    let xml = document(&dictionary(&PASCAL));
    assert!(matches!(parse(&xml), Ok(PlistNode::Dictionary(_))));
    assert_eq!(parse(&xml).ok(), dict_into(Some(&xml)).ok());
    assert!(matches!(parse(b"<plist><dict>"), Err(ParseError::Syntax(_))));
    assert!(matches!(parse(b"{ a = b; }"), Ok(PlistNode::Dictionary(_))));
}
