//! The JSON that `hyprctl` and `inxi` print, as plain values, and what the hardware
//! profile takes from it.
use vstd::prelude::*;
use crate::text::{
    chars_of, contains_str, starts_with_str, seq_contains, seq_starts_with, clean_string,
    clean_string_fits, clean_fits, is_clean_result,
};
use crate::hardware::MonitorInfo;
use crate::fields::{words, split_words, views, parse_unsigned, parse_u32, parse_usize};

verus! {

broadcast use vstd::string::group_string_axioms;

/// A JSON number, as far as the hardware profile reads it.
///
/// `as_u64` is the number when it is a non-negative integer that fits in a `u64`;
/// `f64_bits` is the bit pattern of the number as an IEEE-754 double, and `f64_tenths`
/// is that double times ten, rounded half away from zero and saturated to the `u32`
/// range (with NaN as 0).
#[derive(Clone, Copy, Debug, PartialEq, Eq, Structural)]
pub struct JsonNumber {
    pub as_u64: Option<u64>,
    pub f64_bits: u64,
    pub f64_tenths: u32,
}

/// A JSON value. An object keeps its members in the order they were read, each key once.
pub enum JsonValue {
    Null,
    Bool(bool),
    Number(JsonNumber),
    Str(String),
    Array(Vec<JsonValue>),
    Object(Vec<(String, JsonValue)>),
}

/// The value of the first member of `members` named `key`.
pub open spec fn member(members: Seq<(String, JsonValue)>, key: Seq<char>) -> Option<JsonValue>
    decreases members.len(),
{
    if members.len() == 0 {
        None
    } else if members[0].0@ == key {
        Some(members[0].1)
    } else {
        member(members.drop_first(), key)
    }
}

/// `v[key]` when `v` is an object that has the member `key`.
pub open spec fn get(v: JsonValue, key: Seq<char>) -> Option<JsonValue> {
    match v {
        JsonValue::Object(ms) => member(ms@, key),
        _ => None,
    }
}

/// The member `key` of `v`, if `v` is an object that has it.
pub fn json_get<'a>(v: &'a JsonValue, key: &str) -> (r: Option<&'a JsonValue>)
    ensures
        match get(*v, key@) {
            Some(x) => r == Some(&x),
            None => r is None,
        },
{
    match v {
        JsonValue::Object(ms) => {
            let k = chars_of(key);
            let mut i: usize = 0;
            assert(ms@.skip(0) =~= ms@);
            while i < ms.len()
                invariant
                    0 <= i <= ms@.len(),
                    k@ == key@,
                    get(*v, key@) == member(ms@, key@),
                    member(ms@, key@) == member(ms@.skip(i as int), key@),
                decreases ms@.len() - i,
            {
                assert(ms@.skip(i as int)[0] == ms@[i as int]);
                assert(ms@.skip(i as int).drop_first() =~= ms@.skip(i + 1));
                let name = chars_of(ms[i].0.as_str());
                if crate::text::chars_eq(&name, &k) {
                    return Some(&ms[i].1);
                }
                i += 1;
            }
            None
        },
        _ => None,
    }
}

// ---------------------------------------------------------------- Monitors

/// The monitor name `hyprctl` gives for the entry `m`, before cleaning (`DP-1` when
/// there is none).
pub open spec fn monitor_name_raw(m: JsonValue) -> Seq<char> {
    match get(m, "name"@) {
        Some(JsonValue::Str(s)) => s@,
        _ => "DP-1"@,
    }
}

/// A non-negative integer member of `m`, or `default`.
pub open spec fn u64_member(m: JsonValue, key: Seq<char>, default: u64) -> u64 {
    match get(m, key) {
        Some(JsonValue::Number(n)) => match n.as_u64 {
            Some(x) => x,
            None => default,
        },
        _ => default,
    }
}

/// A numeric member of `m` read as a double (its bits and tenths), or `None`.
pub open spec fn number_member(m: JsonValue, key: Seq<char>) -> Option<JsonNumber> {
    match get(m, key) {
        Some(JsonValue::Number(n)) => Some(n),
        _ => None,
    }
}

/// The bit pattern of the double 1.0.
pub const ONE_F64_BITS: u64 = 0x3FF0_0000_0000_0000;

/// Whether `r` is the monitor that the `hyprctl` entry `m` describes: its name cleaned
/// to 20 bytes, its width and height (1920x1080 when missing) truncated to 32 bits, its
/// refresh rate in tenths (60 Hz when missing) and its scale (1.0 when missing).
pub open spec fn monitor_from(m: JsonValue, r: MonitorInfo) -> bool {
    &&& is_clean_result(monitor_name_raw(m), 20, r.name@)
    &&& r.width == u64_member(m, "width"@, 1920) as u32
    &&& r.height == u64_member(m, "height"@, 1080) as u32
    &&& r.refresh_rate_tenths == match number_member(m, "refreshRate"@) {
        Some(n) => n.f64_tenths,
        None => 600,
    }
    &&& r.scale_bits == match number_member(m, "scale"@) {
        Some(n) => n.f64_bits,
        None => ONE_F64_BITS,
    }
}

/// The monitor reported when `hyprctl` reports none: `Display-1`, 1920x1080 at 60 Hz,
/// scale 1.
pub open spec fn is_fallback_monitor(r: MonitorInfo) -> bool {
    &&& r.name@ == "Display-1"@
    &&& r.width == 1920
    &&& r.height == 1080
    &&& r.refresh_rate_tenths == 600
    &&& r.scale_bits == ONE_F64_BITS
}

/// The entries of `hyprctl -j monitors` output (none unless it is an array).
pub open spec fn monitor_entries(v: Option<JsonValue>) -> Seq<JsonValue> {
    match v {
        Some(JsonValue::Array(a)) => a@,
        _ => seq![],
    }
}

/// Whether every monitor name in the output can be cleaned to 20 bytes.
pub open spec fn monitor_names_fit(v: Option<JsonValue>) -> bool {
    forall|i: int|
        0 <= i < monitor_entries(v).len() ==> clean_fits(
            monitor_name_raw(#[trigger] monitor_entries(v)[i]),
            20,
        )
}

fn monitor_name_of(m: &JsonValue) -> (r: String)
    ensures
        r@ == monitor_name_raw(*m),
{
    match json_get(m, "name") {
        Some(JsonValue::Str(s)) => s.clone(),
        _ => "DP-1".to_owned(),
    }
}

fn u64_member_of(m: &JsonValue, key: &str, default: u64) -> (r: u64)
    ensures
        r == u64_member(*m, key@, default),
{
    match json_get(m, key) {
        Some(JsonValue::Number(n)) => match n.as_u64 {
            Some(x) => x,
            None => default,
        },
        _ => default,
    }
}

fn number_member_of(m: &JsonValue, key: &str) -> (r: Option<JsonNumber>)
    ensures
        r == number_member(*m, key@),
{
    match json_get(m, key) {
        Some(JsonValue::Number(n)) => Some(*n),
        _ => None,
    }
}

/// Whether every monitor name in the output of `hyprctl -j monitors` can be cleaned.
pub fn monitor_names_fit_check(v: Option<&JsonValue>) -> (b: bool)
    ensures
        b == monitor_names_fit(
            match v {
                Some(x) => Some(*x),
                None => None,
            },
        ),
{
    let ghost gv = match v {
        Some(x) => Some(*x),
        None => None,
    };
    match v {
        Some(JsonValue::Array(a)) => {
            let mut i: usize = 0;
            while i < a.len()
                invariant
                    0 <= i <= a@.len(),
                    monitor_entries(gv) == a@,
                    gv == (match v {
                        Some(x) => Some(*x),
                        None => None,
                    }),
                    forall|j: int| 0 <= j < i ==> clean_fits(monitor_name_raw(#[trigger] a@[j]), 20),
                decreases a@.len() - i,
            {
                let name = monitor_name_of(&a[i]);
                if !clean_string_fits(name.as_str(), 20) {
                    assert(monitor_entries(gv)[i as int] == a@[i as int]);
                    return false;
                }
                i += 1;
            }
            true
        },
        _ => true,
    }
}

/// The monitors that `hyprctl -j monitors` reports (`None` when it could not be run or
/// its output is not JSON); a single fallback monitor when it reports none.
pub fn monitors_from_hyprctl(v: Option<&JsonValue>) -> (r: Vec<MonitorInfo>)
    requires
        monitor_names_fit(
            match v {
                Some(x) => Some(*x),
                None => None,
            },
        ),
    ensures
        ({
            let es = monitor_entries(
                match v {
                    Some(x) => Some(*x),
                    None => None,
                },
            );
            if es.len() == 0 {
                r@.len() == 1 && is_fallback_monitor(r@[0])
            } else {
                r@.len() == es.len() && forall|i: int|
                    0 <= i < es.len() ==> monitor_from(#[trigger] es[i], r@[i])
            }
        }),
        r@.len() >= 1,
{
    let ghost gv = match v {
        Some(x) => Some(*x),
        None => None,
    };
    let mut list: Vec<MonitorInfo> = Vec::new();
    match v {
        Some(JsonValue::Array(a)) => {
            let mut i: usize = 0;
            while i < a.len()
                invariant
                    0 <= i <= a@.len(),
                    monitor_entries(gv) == a@,
                    monitor_names_fit(gv),
                    list@.len() == i,
                    forall|j: int| 0 <= j < i ==> monitor_from(#[trigger] a@[j], list@[j]),
                decreases a@.len() - i,
            {
                let m = &a[i];
                let name = monitor_name_of(m);
                assert(clean_fits(monitor_name_raw(a@[i as int]), 20));
                let width = u64_member_of(m, "width", 1920) as u32;
                let height = u64_member_of(m, "height", 1080) as u32;
                let refresh_rate_tenths = match number_member_of(m, "refreshRate") {
                    Some(n) => n.f64_tenths,
                    None => 600,
                };
                let scale_bits = match number_member_of(m, "scale") {
                    Some(n) => n.f64_bits,
                    None => ONE_F64_BITS,
                };
                list.push(
                    MonitorInfo {
                        name: clean_string(name.as_str(), 20),
                        width,
                        height,
                        refresh_rate_tenths,
                        scale_bits,
                    },
                );
                i += 1;
            }
        },
        _ => {},
    }
    if list.len() == 0 {
        list.push(
            MonitorInfo {
                name: "Display-1".to_owned(),
                width: 1920,
                height: 1080,
                refresh_rate_tenths: 600,
                scale_bits: ONE_F64_BITS,
            },
        );
    }
    list
}


// ---------------------------------------------------------------- Memory modules

/// What `inxi -m` tells of the memory: its type, its speed in MT/s, the number of
/// populated modules and the number of slots.
pub struct RamDetails {
    pub ram_type: String,
    pub speed_mts: u32,
    pub modules: usize,
    pub slots: usize,
}

/// The abstract value of `RamDetails`.
pub open spec fn ram_view(r: RamDetails) -> (Seq<char>, u32, usize, usize) {
    (r.ram_type@, r.speed_mts, r.modules, r.slots)
}

/// What is assumed before `inxi` is read: DDR4 at 3200 MT/s, no module seen, 4 slots.
pub open spec fn ram_start() -> (Seq<char>, u32, usize, usize) {
    ("DDR4"@, 3200, 0, 4)
}

/// The effect of one member `key: val` of a memory entry. A key containing `type` sets the
/// type to a string value that starts with `DDR` or `LPDDR`; one containing `speed` sets
/// the speed to the first word of a string value when it reads as a `u32`; one containing
/// `Device` counts a module (the count stops at `usize::MAX`); one containing `slots`
/// sets the slot count to a non-negative integer value (taken modulo the `usize` range),
/// or to a string value that reads as a `usize`. Several of these may apply to one key.
pub open spec fn ram_member(st: (Seq<char>, u32, usize, usize), key: Seq<char>, val: JsonValue) -> (
    Seq<char>,
    u32,
    usize,
    usize,
) {
    let ram_type = match val {
        JsonValue::Str(s) => if seq_contains(key, "type"@) && (seq_starts_with(s@, "DDR"@)
            || seq_starts_with(s@, "LPDDR"@)) {
            s@
        } else {
            st.0
        },
        _ => st.0,
    };
    let speed = match val {
        JsonValue::Str(s) => if seq_contains(key, "speed"@) && words(s@).len() > 0 {
            match parse_unsigned(words(s@)[0], u32::MAX as nat) {
                Some(n) => n as u32,
                None => st.1,
            }
        } else {
            st.1
        },
        _ => st.1,
    };
    let modules = if seq_contains(key, "Device"@) && st.2 < usize::MAX {
        (st.2 + 1) as usize
    } else {
        st.2
    };
    let slots = if seq_contains(key, "slots"@) {
        match val {
            JsonValue::Number(n) => match n.as_u64 {
                Some(x) => x as usize,
                None => st.3,
            },
            JsonValue::Str(s) => match parse_unsigned(s@, usize::MAX as nat) {
                Some(n) => n as usize,
                None => st.3,
            },
            _ => st.3,
        }
    } else {
        st.3
    };
    (ram_type, speed, modules, slots)
}

/// The members of one memory entry, taken in order.
pub open spec fn ram_members(st: (Seq<char>, u32, usize, usize), ms: Seq<(String, JsonValue)>) -> (
    Seq<char>,
    u32,
    usize,
    usize,
)
    decreases ms.len(),
{
    if ms.len() == 0 {
        st
    } else {
        ram_members(ram_member(st, ms[0].0@, ms[0].1), ms.drop_first())
    }
}

/// The entries of a memory section, taken in order (entries that are not objects are
/// passed over).
pub open spec fn ram_entries(st: (Seq<char>, u32, usize, usize), es: Seq<JsonValue>) -> (
    Seq<char>,
    u32,
    usize,
    usize,
)
    decreases es.len(),
{
    if es.len() == 0 {
        st
    } else {
        let next = match es[0] {
            JsonValue::Object(ms) => ram_members(st, ms@),
            _ => st,
        };
        ram_entries(next, es.drop_first())
    }
}

/// The members of one top-level section: those whose key contains `Memory` and whose
/// value is an array are memory sections.
pub open spec fn ram_sections(st: (Seq<char>, u32, usize, usize), ms: Seq<(String, JsonValue)>) -> (
    Seq<char>,
    u32,
    usize,
    usize,
)
    decreases ms.len(),
{
    if ms.len() == 0 {
        st
    } else {
        let next = match ms[0].1 {
            JsonValue::Array(es) => if seq_contains(ms[0].0@, "Memory"@) {
                ram_entries(st, es@)
            } else {
                st
            },
            _ => st,
        };
        ram_sections(next, ms.drop_first())
    }
}

/// The top-level array of `inxi` output, taken in order (items that are not objects are
/// passed over).
pub open spec fn ram_top(st: (Seq<char>, u32, usize, usize), items: Seq<JsonValue>) -> (
    Seq<char>,
    u32,
    usize,
    usize,
)
    decreases items.len(),
{
    if items.len() == 0 {
        st
    } else {
        let next = match items[0] {
            JsonValue::Object(ms) => ram_sections(st, ms@),
            _ => st,
        };
        ram_top(next, items.drop_first())
    }
}

/// The memory details that `inxi` output gives (`None` when it could not be run or its
/// output is not JSON): what the output sets, over the assumed values, with 2 modules
/// assumed when none was seen.
pub open spec fn ram_details_of(v: Option<JsonValue>) -> (Seq<char>, u32, usize, usize) {
    let st = match v {
        Some(JsonValue::Array(items)) => ram_top(ram_start(), items@),
        _ => ram_start(),
    };
    if st.2 == 0 {
        (st.0, st.1, 2, st.3)
    } else {
        st
    }
}

fn apply_ram_member(st: &mut RamDetails, key: &String, val: &JsonValue)
    ensures
        ram_view(*final(st)) == ram_member(ram_view(*old(st)), key@, *val),
{
    let k = chars_of(key.as_str());
    if let JsonValue::Str(s) = val {
        if contains_str(&k, "type") {
            let sv = chars_of(s.as_str());
            if starts_with_str(&sv, "DDR") || starts_with_str(&sv, "LPDDR") {
                st.ram_type = s.clone();
            }
        }
        if contains_str(&k, "speed") {
            let sv = chars_of(s.as_str());
            let ws = split_words(&sv);
            if ws.len() > 0 {
                assert(views(ws@)[0] == ws@[0]@);
                if let Some(n) = parse_u32(&ws[0]) {
                    st.speed_mts = n;
                }
            }
        }
    }
    if contains_str(&k, "Device") && st.modules < usize::MAX {
        st.modules = st.modules + 1;
    }
    if contains_str(&k, "slots") {
        match val {
            JsonValue::Number(n) => match n.as_u64 {
                Some(x) => {
                    st.slots = x as usize;
                },
                None => {},
            },
            JsonValue::Str(s) => {
                let sv = chars_of(s.as_str());
                if let Some(n) = parse_usize(&sv) {
                    st.slots = n;
                }
            },
            _ => {},
        }
    }
}

fn apply_ram_members(st: &mut RamDetails, ms: &Vec<(String, JsonValue)>)
    ensures
        ram_view(*final(st)) == ram_members(ram_view(*old(st)), ms@),
{
    let mut i: usize = 0;
    assert(ms@.skip(0) =~= ms@);
    while i < ms.len()
        invariant
            0 <= i <= ms@.len(),
            ram_members(ram_view(*old(st)), ms@) == ram_members(ram_view(*st), ms@.skip(i as int)),
        decreases ms@.len() - i,
    {
        assert(ms@.skip(i as int)[0] == ms@[i as int]);
        assert(ms@.skip(i as int).drop_first() =~= ms@.skip(i + 1));
        apply_ram_member(st, &ms[i].0, &ms[i].1);
        i += 1;
    }
}

fn apply_ram_entries(st: &mut RamDetails, es: &Vec<JsonValue>)
    ensures
        ram_view(*final(st)) == ram_entries(ram_view(*old(st)), es@),
{
    let mut i: usize = 0;
    assert(es@.skip(0) =~= es@);
    while i < es.len()
        invariant
            0 <= i <= es@.len(),
            ram_entries(ram_view(*old(st)), es@) == ram_entries(ram_view(*st), es@.skip(i as int)),
        decreases es@.len() - i,
    {
        assert(es@.skip(i as int)[0] == es@[i as int]);
        assert(es@.skip(i as int).drop_first() =~= es@.skip(i + 1));
        if let JsonValue::Object(ms) = &es[i] {
            apply_ram_members(st, ms);
        }
        i += 1;
    }
}

fn apply_ram_sections(st: &mut RamDetails, ms: &Vec<(String, JsonValue)>)
    ensures
        ram_view(*final(st)) == ram_sections(ram_view(*old(st)), ms@),
{
    let mut i: usize = 0;
    assert(ms@.skip(0) =~= ms@);
    while i < ms.len()
        invariant
            0 <= i <= ms@.len(),
            ram_sections(ram_view(*old(st)), ms@) == ram_sections(ram_view(*st), ms@.skip(i as int)),
        decreases ms@.len() - i,
    {
        assert(ms@.skip(i as int)[0] == ms@[i as int]);
        assert(ms@.skip(i as int).drop_first() =~= ms@.skip(i + 1));
        let k = chars_of(ms[i].0.as_str());
        if contains_str(&k, "Memory") {
            if let JsonValue::Array(es) = &ms[i].1 {
                apply_ram_entries(st, es);
            }
        }
        i += 1;
    }
}

/// The memory details that the output of `inxi --tty -m --output json` gives (`None`
/// when it could not be run or its output is not JSON).
pub fn ram_details_from_inxi(v: Option<&JsonValue>) -> (r: RamDetails)
    ensures
        ram_view(r) == ram_details_of(
            match v {
                Some(x) => Some(*x),
                None => None,
            },
        ),
        r.modules >= 1,
{
    let mut st = RamDetails { ram_type: "DDR4".to_owned(), speed_mts: 3200, modules: 0, slots: 4 };
    if let Some(JsonValue::Array(items)) = v {
        let mut i: usize = 0;
        assert(items@.skip(0) =~= items@);
        while i < items.len()
            invariant
                0 <= i <= items@.len(),
                ram_top(ram_start(), items@) == ram_top(ram_view(st), items@.skip(i as int)),
            decreases items@.len() - i,
        {
            assert(items@.skip(i as int)[0] == items@[i as int]);
            assert(items@.skip(i as int).drop_first() =~= items@.skip(i + 1));
            if let JsonValue::Object(ms) = &items[i] {
                apply_ram_sections(&mut st, ms);
            }
            i += 1;
        }
    }
    if st.modules == 0 {
        st.modules = 2;
    }
    st
}


/// How a `hyprctl` monitor entry is read: the string member `name` (cleaned to 20 bytes,
/// `DP-1` without one), the integer members `width` and `height` (1920 and 1080 without
/// them), the numeric member `refreshRate` in tenths (60 Hz without it) and the numeric
/// member `scale` (1.0 without it).
pub proof fn law_monitor_members(m: JsonValue, r: MonitorInfo)
    requires
        monitor_from(m, r),
    ensures
        get(m, "name"@) matches Some(JsonValue::Str(s)) ==> is_clean_result(s@, 20, r.name@),
        !(get(m, "name"@) matches Some(JsonValue::Str(_))) ==> is_clean_result("DP-1"@, 20, r.name@),
        get(m, "width"@) matches Some(JsonValue::Number(n)) ==> (n.as_u64 matches Some(x) ==> r.width
            == x as u32),
        !(get(m, "width"@) matches Some(JsonValue::Number(n)) && n.as_u64 is Some) ==> r.width == 1920,
        get(m, "height"@) matches Some(JsonValue::Number(n)) ==> (n.as_u64 matches Some(x) ==> r.height
            == x as u32),
        !(get(m, "height"@) matches Some(JsonValue::Number(n)) && n.as_u64 is Some) ==> r.height == 1080,
        get(m, "refreshRate"@) matches Some(JsonValue::Number(n)) ==> r.refresh_rate_tenths
            == n.f64_tenths,
        !(get(m, "refreshRate"@) matches Some(JsonValue::Number(_))) ==> r.refresh_rate_tenths == 600,
        get(m, "scale"@) matches Some(JsonValue::Number(n)) ==> r.scale_bits == n.f64_bits,
        !(get(m, "scale"@) matches Some(JsonValue::Number(_))) ==> r.scale_bits
            == 0x3FF0_0000_0000_0000u64,
{
}

/// How a member of an `inxi` memory entry counts: a key containing `type` with a string
/// value starting `DDR` or `LPDDR` sets the type; a key containing `speed` with a string
/// value whose first word reads as a `u32` sets the speed; a key containing `Device`
/// counts a module; a key containing `slots` with an integer value, or a string value
/// that reads as a `usize`, sets the slot count. Nothing else changes anything.
pub proof fn law_ram_member(st: (Seq<char>, u32, usize, usize), key: Seq<char>, val: JsonValue)
    ensures
        ({
            let r = ram_member(st, key, val);
            &&& (seq_contains(key, "type"@) && (val matches JsonValue::Str(s) && (seq_starts_with(
                s@,
                "DDR"@,
            ) || seq_starts_with(s@, "LPDDR"@)))) ==> r.0 == val->Str_0@
            &&& !(seq_contains(key, "type"@) && (val matches JsonValue::Str(s) && (seq_starts_with(
                s@,
                "DDR"@,
            ) || seq_starts_with(s@, "LPDDR"@)))) ==> r.0 == st.0
            &&& (seq_contains(key, "speed"@) && (val matches JsonValue::Str(s) && words(s@).len()
                > 0 && parse_unsigned(words(s@)[0], u32::MAX as nat) is Some)) ==> r.1 as nat
                == parse_unsigned(words(val->Str_0@)[0], u32::MAX as nat)->0
            &&& !(seq_contains(key, "speed"@) && (val matches JsonValue::Str(s) && words(s@).len()
                > 0 && parse_unsigned(words(s@)[0], u32::MAX as nat) is Some)) ==> r.1 == st.1
            &&& (seq_contains(key, "Device"@) && st.2 < usize::MAX) ==> r.2 == st.2 + 1
            &&& !seq_contains(key, "Device"@) ==> r.2 == st.2
            &&& (seq_contains(key, "slots"@) && (val matches JsonValue::Number(n) && n.as_u64
                matches Some(x))) ==> r.3 == (val->Number_0.as_u64->0) as usize
            &&& !seq_contains(key, "slots"@) ==> r.3 == st.3
        }),
{
}

}
