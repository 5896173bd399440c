use omarank::json::{
    json_get, monitor_names_fit_check, monitors_from_hyprctl, ram_details_from_inxi, JsonNumber,
    JsonValue, ONE_F64_BITS,
};

fn s(x: &str) -> JsonValue {
    JsonValue::Str(x.to_string())
}

fn float(x: f64) -> JsonValue {
    JsonValue::Number(JsonNumber {
        as_u64: None,
        f64_bits: x.to_bits(),
        f64_tenths: (x * 10.0).round() as u32,
    })
}

fn num(n: u64) -> JsonValue {
    JsonValue::Number(JsonNumber {
        as_u64: Some(n),
        f64_bits: (n as f64).to_bits(),
        f64_tenths: (n as f64 * 10.0).round() as u32,
    })
}

fn obj(members: Vec<(&str, JsonValue)>) -> JsonValue {
    JsonValue::Object(members.into_iter().map(|(k, v)| (k.to_string(), v)).collect())
}

#[test]
fn members_are_found_by_key() {
    let o = obj(vec![("a", num(1)), ("b", s("x"))]);
    assert!(matches!(json_get(&o, "b"), Some(JsonValue::Str(t)) if t == "x"));
    assert!(json_get(&o, "c").is_none());
    assert!(json_get(&s("a"), "a").is_none());
}

#[test]
fn monitors_from_hyprctl_output() {
    let v = JsonValue::Array(vec![
        obj(vec![
            ("height", num(1440)),
            ("name", s("DP-2")),
            ("refreshRate", float(164.99899)),
            ("scale", float(1.25)),
            ("width", num(2560)),
        ]),
        obj(vec![("name", s("<HDMI-A-1>"))]),
        s("not a monitor"),
    ]);
    assert!(monitor_names_fit_check(Some(&v)));
    let ms = monitors_from_hyprctl(Some(&v));
    assert_eq!(ms.len(), 3);
    assert_eq!(ms[0].name, "DP-2");
    assert_eq!((ms[0].width, ms[0].height, ms[0].refresh_rate_tenths), (2560, 1440, 1650));
    assert_eq!(ms[0].scale_bits, 1.25f64.to_bits());
    assert_eq!(ms[1].name, "HDMI-A-1");
    assert_eq!((ms[1].width, ms[1].height, ms[1].refresh_rate_tenths), (1920, 1080, 600));
    assert_eq!(ms[1].scale_bits, ONE_F64_BITS);
    assert_eq!(ms[2].name, "DP-1");
}

#[test]
fn monitor_width_is_truncated_to_32_bits() {
    let v = JsonValue::Array(vec![obj(vec![("width", num((1u64 << 32) + 7)), ("height", float(1080.0))])]);
    let ms = monitors_from_hyprctl(Some(&v));
    assert_eq!(ms[0].width, 7);
    // a float height is no integer: the default is kept
    assert_eq!(ms[0].height, 1080);
}

#[test]
fn no_monitors_means_one_fallback() {
    for v in [None, Some(JsonValue::Array(vec![])), Some(obj(vec![]))] {
        let ms = monitors_from_hyprctl(v.as_ref());
        assert_eq!(ms.len(), 1);
        assert_eq!(ms[0].name, "Display-1");
        assert_eq!((ms[0].width, ms[0].height, ms[0].refresh_rate_tenths), (1920, 1080, 600));
        assert_eq!(f64::from_bits(ms[0].scale_bits), 1.0);
    }
}

#[test]
fn monitor_name_that_cannot_be_cut() {
    let name = format!("{}é", "a".repeat(19));
    let v = JsonValue::Array(vec![obj(vec![("name", s(&name))])]);
    assert!(!monitor_names_fit_check(Some(&v)));
}

#[test]
fn ram_details_from_inxi_output() {
    let v = JsonValue::Array(vec![
        obj(vec![("000#1#0#System", JsonValue::Array(vec![]))]),
        obj(vec![(
            "000#1#0#Memory",
            JsonValue::Array(vec![
                obj(vec![("001#1#1#total", s("64 GiB")), ("002#1#1#slots", num(4))]),
                obj(vec![
                    ("003#1#2#Device", s("Channel-A DIMM 0")),
                    ("004#1#3#type", s("DDR5")),
                    ("005#1#3#speed", s("6000 MT/s")),
                ]),
                obj(vec![
                    ("006#1#2#Device", s("Channel-B DIMM 0")),
                    ("007#1#3#type", s("no module installed")),
                    ("008#1#3#speed", s("N/A")),
                ]),
                s("ignored"),
            ]),
        )]),
    ]);
    let r = ram_details_from_inxi(Some(&v));
    assert_eq!((r.ram_type.as_str(), r.speed_mts, r.modules, r.slots), ("DDR5", 6000, 2, 4));
}

#[test]
fn ram_details_defaults() {
    let r = ram_details_from_inxi(None);
    assert_eq!((r.ram_type.as_str(), r.speed_mts, r.modules, r.slots), ("DDR4", 3200, 2, 4));
    let v = JsonValue::Array(vec![obj(vec![(
        "Memory",
        JsonValue::Array(vec![obj(vec![
            ("slots", s("8")),
            ("type", s("LPDDR5X")),
            ("speed", s("7467")),
            ("Device-1", s("x")),
            ("Device-2", s("y")),
            ("Device-3", s("z")),
        ])]),
    )])]);
    let r = ram_details_from_inxi(Some(&v));
    assert_eq!((r.ram_type.as_str(), r.speed_mts, r.modules, r.slots), ("LPDDR5X", 7467, 3, 8));
    let v = JsonValue::Array(vec![obj(vec![(
        "NotMem",
        JsonValue::Array(vec![obj(vec![("type", s("DDR3"))])]),
    )])]);
    let r = ram_details_from_inxi(Some(&v));
    assert_eq!(r.ram_type, "DDR4");
}
