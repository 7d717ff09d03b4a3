use vstd::prelude::*;
use vstd::string::StrSliceExecFns;
use crate::json::{
    Json, JsonV, obj_lookup, obj_get, fields_view, arr_view, json_of, json_decode, as_obj, as_arr,
    is_null,
};
use crate::num::{Decimal, spec_parse_decimal, spec_parse_int, parse_decimal, parse_int};
use vstd::string::StringExecFns;

verus! {

/// The kind of a device notification.
#[derive(Clone, Copy, Debug, PartialEq, Eq, Structural)]
pub enum MessageMethod {
    NotifyFullStatus,
    NotifyStatus,
    NotifyEvent,
}

/// Why a payload was not handed to the metric mapper.
#[derive(Debug)]
pub enum ParserError {
    /// The payload was not structurally valid JSON for the message model.
    JsonError(String),
    /// The payload decoded, but its notification kind carries no metrics.
    IgnoredMessage(String),
    /// A required field was absent.
    MissingField(String),
}

/// An embedded temperature reading, in celsius and fahrenheit.
#[derive(Clone, Copy, Debug, PartialEq, Eq, Structural)]
pub struct TemperatureData {
    pub tc: Decimal,
    pub tf: Decimal,
}

/// A connectivity report: signal strength in dBm.
#[derive(Clone, Copy, Debug, PartialEq, Eq, Structural)]
pub struct WifiData {
    pub rssi: i32,
}

/// Device uptime; informational only, mapped to no metric.
#[derive(Clone, Copy, Debug, PartialEq, Eq)]
pub struct SysData {
    pub uptime: Option<i64>,
}

/// A relative-humidity reading.
#[derive(Clone, Copy, Debug, PartialEq, Eq, Structural)]
pub struct HumidityData {
    pub rh: Decimal,
}

/// A battery report: voltage and charge percentage.
#[derive(Clone, Copy, Debug, PartialEq, Eq, Structural)]
pub struct BatteryData {
    pub voltage: Decimal,
    pub percent: i64,
}

/// The power-supply section of a sensor-class device.
#[derive(Clone, Copy, Debug, PartialEq, Eq)]
pub struct DevicePowerData {
    pub battery: Option<BatteryData>,
}

/// Cumulative energy: the total is mandatory, the time-bucketed history is
/// optional.
#[derive(Clone, Debug, PartialEq, Eq)]
pub struct EnergyData {
    pub total: Decimal,
    pub by_minute: Option<Vec<Decimal>>,
    pub minute_ts: Option<i64>,
}

/// The per-circuit section of a switch-class device.
#[derive(Clone, Debug, PartialEq, Eq)]
pub struct SwitchData {
    pub id: u8,
    pub output: Option<bool>,
    pub apower: Option<Decimal>,
    pub voltage: Option<Decimal>,
    pub current: Option<Decimal>,
    pub aenergy: EnergyData,
    pub temperature: Option<TemperatureData>,
}

/// The open set of optional sections a notification may carry.
#[derive(Clone, Debug, PartialEq, Eq)]
pub struct MessageParams {
    pub switch: Option<SwitchData>,
    pub wifi: Option<WifiData>,
    pub sys: Option<SysData>,
    pub temperature: Option<TemperatureData>,
    pub humidity: Option<HumidityData>,
    pub devicepower: Option<DevicePowerData>,
}

/// One decoded device notification.
#[derive(Clone, Debug, PartialEq, Eq)]
pub struct ShellyMessage {
    pub src: String,
    pub dst: Option<String>,
    pub method: MessageMethod,
    pub params: MessageParams,
}

/// The mathematical shape of an energy section.
pub struct EnergyV {
    pub total: Decimal,
    pub by_minute: Option<Seq<Decimal>>,
    pub minute_ts: Option<i64>,
}

/// The mathematical shape of a switch section.
pub struct SwitchV {
    pub id: u8,
    pub output: Option<bool>,
    pub apower: Option<Decimal>,
    pub voltage: Option<Decimal>,
    pub current: Option<Decimal>,
    pub aenergy: EnergyV,
    pub temperature: Option<TemperatureData>,
}

/// The mathematical shape of the section set.
pub struct ParamsV {
    pub switch: Option<SwitchV>,
    pub wifi: Option<WifiData>,
    pub sys: Option<SysData>,
    pub temperature: Option<TemperatureData>,
    pub humidity: Option<HumidityData>,
    pub devicepower: Option<DevicePowerData>,
}

/// The mathematical shape of a decoded notification.
pub struct MessageV {
    pub src: Seq<char>,
    pub dst: Option<Seq<char>>,
    pub method: MessageMethod,
    pub params: ParamsV,
}

impl View for EnergyData {
    type V = EnergyV;

    open spec fn view(&self) -> EnergyV {
        EnergyV {
            total: self.total,
            by_minute: match self.by_minute {
                Some(v) => Some(v@),
                None => None,
            },
            minute_ts: self.minute_ts,
        }
    }
}

impl View for SwitchData {
    type V = SwitchV;

    open spec fn view(&self) -> SwitchV {
        SwitchV {
            id: self.id,
            output: self.output,
            apower: self.apower,
            voltage: self.voltage,
            current: self.current,
            aenergy: self.aenergy@,
            temperature: self.temperature,
        }
    }
}

impl View for MessageParams {
    type V = ParamsV;

    open spec fn view(&self) -> ParamsV {
        ParamsV {
            switch: match self.switch {
                Some(s) => Some(s@),
                None => None,
            },
            wifi: self.wifi,
            sys: self.sys,
            temperature: self.temperature,
            humidity: self.humidity,
            devicepower: self.devicepower,
        }
    }
}

impl View for ShellyMessage {
    type V = MessageV;

    open spec fn view(&self) -> MessageV {
        MessageV {
            src: self.src@,
            dst: match self.dst {
                Some(s) => Some(s@),
                None => None,
            },
            method: self.method,
            params: self.params@,
        }
    }
}

/// The device identifier carried by a message source string: everything after
/// the last `-`, or the whole string when no `-` occurs.
pub open spec fn device_id_of(s: Seq<char>) -> Seq<char>
    decreases s.len(),
{
    if s.len() == 0 {
        s
    } else if s.last() == '-' {
        Seq::<char>::empty()
    } else {
        device_id_of(s.drop_last()).push(s.last())
    }
}

proof fn lemma_device_id_no_dash(s: Seq<char>)
    requires
        forall|j: int| 0 <= j < s.len() ==> s[j] != '-',
    ensures
        device_id_of(s) == s,
    decreases s.len(),
{
    if s.len() == 0 {
    } else {
        lemma_device_id_no_dash(s.drop_last());
        assert(device_id_of(s) =~= s);
    }
}

proof fn lemma_device_id_suffix(s: Seq<char>, i: int)
    requires
        0 <= i < s.len(),
        s[i] == '-',
        forall|j: int| i < j < s.len() ==> s[j] != '-',
    ensures
        device_id_of(s) == s.subrange(i + 1, s.len() as int),
    decreases s.len(),
{
    if i == s.len() - 1 {
        assert(device_id_of(s) =~= s.subrange(i + 1, s.len() as int));
    } else {
        lemma_device_id_suffix(s.drop_last(), i);
        assert(device_id_of(s) =~= s.subrange(i + 1, s.len() as int));
    }
}

/// Extract the device identifier from a message source field,
/// e.g. `shellyplugus-d48afc781ad8` yields `d48afc781ad8`.
pub fn extract_device_id(src: &str) -> (r: String)
    ensures
        r@ == device_id_of(src@),
{
    let n = src.unicode_len();
    let mut i = n;
    while i > 0
        invariant
            i <= n,
            n == src@.len(),
            forall|j: int| i <= j < src@.len() ==> src@[j] != '-',
        decreases i,
    {
        if src.get_char(i - 1) == '-' {
            let suffix = src.substring_char(i, n);
            proof {
                lemma_device_id_suffix(src@, i - 1);
            }
            return suffix.to_owned();
        }
        i = i - 1;
    }
    proof {
        lemma_device_id_no_dash(src@);
    }
    src.to_owned()
}

/// The first position at or after `i` holding the separator, or the length
/// when none does.
pub open spec fn first_sep_at(s: Seq<char>, sep: char, i: int) -> int
    decreases s.len() - i,
{
    if 0 <= i < s.len() {
        if s[i] == sep {
            i
        } else {
            first_sep_at(s, sep, i + 1)
        }
    } else {
        i
    }
}

/// Split a string on a separator; a separator at the edge or two in a row
/// yield empty segments, as `str::split` would.
pub open spec fn split_on(s: Seq<char>, sep: char) -> Seq<Seq<char>>
    decreases s.len(),
{
    let i = first_sep_at(s, sep, 0);
    if 0 <= i < s.len() {
        seq![s.take(i)] + split_on(s.skip(i + 1), sep)
    } else {
        seq![s]
    }
}

proof fn lemma_first_sep_at(s: Seq<char>, sep: char, i: int)
    requires
        0 <= i <= s.len(),
    ensures
        i <= first_sep_at(s, sep, i) <= s.len(),
        forall|j: int| i <= j < first_sep_at(s, sep, i) ==> s[j] != sep,
        first_sep_at(s, sep, i) < s.len() ==> s[first_sep_at(s, sep, i)] == sep,
    decreases s.len() - i,
{
    if i < s.len() && s[i] != sep {
        lemma_first_sep_at(s, sep, i + 1);
    }
}

proof fn lemma_first_sep_found(s: Seq<char>, sep: char, i: int, k: int)
    requires
        0 <= i <= k < s.len(),
        s[k] == sep,
        forall|j: int| i <= j < k ==> s[j] != sep,
    ensures
        first_sep_at(s, sep, i) == k,
    decreases k - i,
{
    if i < k {
        lemma_first_sep_found(s, sep, i + 1, k);
    }
}

proof fn lemma_first_sep_none(s: Seq<char>, sep: char, i: int)
    requires
        0 <= i <= s.len(),
        forall|j: int| i <= j < s.len() ==> s[j] != sep,
    ensures
        first_sep_at(s, sep, i) == s.len(),
    decreases s.len() - i,
{
    if i < s.len() {
        lemma_first_sep_none(s, sep, i + 1);
    }
}

/// Split a string on a separator character.
pub fn split_str(s: &str, sep: char) -> (parts: Vec<String>)
    ensures
        parts@.map_values(|p: String| p@) == split_on(s@, sep),
{
    let n = s.unicode_len();
    let mut parts: Vec<String> = Vec::new();
    let mut start: usize = 0;
    let mut i: usize = 0;
    proof {
        assert(s@.skip(0) =~= s@);
        assert(parts@.map_values(|p: String| p@) =~= Seq::<Seq<char>>::empty());
        assert(parts@.map_values(|p: String| p@) + split_on(s@, sep) =~= split_on(s@, sep));
    }
    while i < n
        invariant
            n == s@.len(),
            start <= i <= n,
            forall|j: int| start <= j < i ==> s@[j] != sep,
            split_on(s@, sep) == parts@.map_values(|p: String| p@) + split_on(
                s@.skip(start as int),
                sep,
            ),
        decreases n - i,
    {
        if s.get_char(i) == sep {
            let seg = s.substring_char(start, i).to_owned();
            proof {
                let rest = s@.skip(start as int);
                lemma_first_sep_found(rest, sep, 0, i - start);
                assert(rest.take(i - start) =~= s@.subrange(start as int, i as int));
                assert(rest.skip(i - start + 1) =~= s@.skip(i + 1));
                assert((parts@ + seq![seg])

                    .map_values(|p: String| p@) =~= parts@.map_values(|p: String| p@) + seq![
                    seg@,
                ]);
                assert(parts@.map_values(|p: String| p@) + (seq![s@.subrange(
                    start as int,
                    i as int,
                )] + split_on(s@.skip(i + 1), sep)) =~= (parts@.map_values(|p: String| p@) + seq![
                    seg@,
                ]) + split_on(s@.skip(i + 1), sep));
            }
            parts.push(seg);
            start = i + 1;
        }
        i = i + 1;
    }
    let last = s.substring_char(start, n).to_owned();
    proof {
        let rest = s@.skip(start as int);
        lemma_first_sep_none(rest, sep, 0);
        assert(rest =~= s@.subrange(start as int, n as int));
        assert((parts@ + seq![last]).map_values(|p: String| p@) =~= parts@.map_values(
            |p: String| p@,
        ) + seq![last@]);
    }
    parts.push(last);
    parts
}

/// The device name a subscription topic carries: the third-from-last segment
/// of the exact shape `<root>/<family>/<device>/events/rpc`.
pub open spec fn topic_device_of(t: Seq<char>) -> Option<Seq<char>> {
    let parts = split_on(t, '/');
    if parts.len() == 5 && parts[3] == "events"@ && parts[4] == "rpc"@ {
        Some(parts[2])
    } else {
        None
    }
}

/// Extract the device name from a subscription topic, when the topic has the
/// shape `<root>/<family>/<device>/events/rpc`.
pub fn extract_device_from_topic(topic: &str) -> (r: Option<String>)
    ensures
        match r {
            Some(d) => topic_device_of(topic@) == Some(d@),
            None => topic_device_of(topic@) is None,
        },
{
    let parts = split_str(topic, '/');
    proof {
        assert(parts@.map_values(|p: String| p@).len() == parts@.len());
    }
    if parts.len() == 5 && crate::util::str_eq(parts[3].as_str(), "events")
        && crate::util::str_eq(parts[4].as_str(), "rpc") {
        proof {
            assert(parts@.map_values(|p: String| p@)[2] == parts@[2]@);
            assert(parts@.map_values(|p: String| p@)[3] == parts@[3]@);
            assert(parts@.map_values(|p: String| p@)[4] == parts@[4]@);
        }
        Some(parts[2].clone())
    } else {
        proof {
            if parts@.len() == 5 {
                assert(parts@.map_values(|p: String| p@)[3] == parts@[3]@);
                assert(parts@.map_values(|p: String| p@)[4] == parts@[4]@);
            }
        }
        None
    }
}

/// The device identity used for metric labels: the topic-derived name when
/// the topic is known and well-shaped, else the source-derived identifier.
pub open spec fn resolved_device(topic: Option<Seq<char>>, src: Seq<char>) -> Seq<char> {
    match topic {
        Some(t) => match topic_device_of(t) {
            Some(d) => d,
            None => device_id_of(src),
        },
        None => device_id_of(src),
    }
}

/// Resolve the device identity from an optional topic and the source field.
pub fn resolve_device(topic: Option<&str>, src: &str) -> (r: String)
    ensures
        r@ == resolved_device(
            match topic {
                Some(t) => Some(t@),
                None => None,
            },
            src@,
        ),
{
    match topic {
        Some(t) => match extract_device_from_topic(t) {
            Some(d) => d,
            None => extract_device_id(src),
        },
        None => extract_device_id(src),
    }
}

// ------------------------------------------------------------------
// Structural decode: from a JSON document into the message model.
// A `None` at any level stands for a structural failure of the whole
// payload; unknown fields are ignored throughout.
// ------------------------------------------------------------------

pub open spec fn spec_str_of(v: JsonV) -> Option<Seq<char>> {
    match v {
        JsonV::Str(s) => Some(s),
        _ => None,
    }
}

pub open spec fn spec_num_of(v: JsonV) -> Option<Decimal> {
    match v {
        JsonV::Num(s) => spec_parse_decimal(s),
        _ => None,
    }
}

pub open spec fn spec_bool_of(v: JsonV) -> Option<bool> {
    match v {
        JsonV::Bool(b) => Some(b),
        _ => None,
    }
}

pub open spec fn spec_int_of(v: JsonV, lo: int, hi: int) -> Option<int> {
    match v {
        JsonV::Num(s) => spec_parse_int(s, lo, hi),
        _ => None,
    }
}

/// A mandatory numeric field.
pub open spec fn spec_req_num(fields: Seq<(Seq<char>, JsonV)>, key: Seq<char>) -> Option<Decimal> {
    match obj_lookup(fields, key) {
        Some(v) => spec_num_of(v),
        None => None,
    }
}

/// An optional numeric field: absent or null decodes to `None`.
pub open spec fn spec_opt_num(fields: Seq<(Seq<char>, JsonV)>, key: Seq<char>) -> Option<
    Option<Decimal>,
> {
    match obj_lookup(fields, key) {
        None => Some(None),
        Some(JsonV::Null) => Some(None),
        Some(v) => match spec_num_of(v) {
            Some(d) => Some(Some(d)),
            None => None,
        },
    }
}

/// An optional boolean field: absent or null decodes to `None`.
pub open spec fn spec_opt_bool(fields: Seq<(Seq<char>, JsonV)>, key: Seq<char>) -> Option<
    Option<bool>,
> {
    match obj_lookup(fields, key) {
        None => Some(None),
        Some(JsonV::Null) => Some(None),
        Some(v) => match spec_bool_of(v) {
            Some(b) => Some(Some(b)),
            None => None,
        },
    }
}

/// An optional integer field: absent or null decodes to `None`.
pub open spec fn spec_opt_int(
    fields: Seq<(Seq<char>, JsonV)>,
    key: Seq<char>,
    lo: int,
    hi: int,
) -> Option<Option<int>> {
    match obj_lookup(fields, key) {
        None => Some(None),
        Some(JsonV::Null) => Some(None),
        Some(v) => match spec_int_of(v, lo, hi) {
            Some(x) => Some(Some(x)),
            None => None,
        },
    }
}

/// A sequence of numeric elements; any other element fails the sequence.
pub open spec fn spec_num_seq(items: Seq<JsonV>) -> Option<Seq<Decimal>> {
    if forall|i: int| 0 <= i < items.len() ==> spec_num_of(#[trigger] items[i]) is Some {
        Some(Seq::new(items.len(), |i: int| spec_num_of(items[i]).unwrap()))
    } else {
        None
    }
}

pub open spec fn spec_energy(v: JsonV) -> Option<EnergyV> {
    match v {
        JsonV::Obj(fields) => match spec_req_num(fields, "total"@) {
            Some(total) => {
                let bm = match obj_lookup(fields, "by_minute"@) {
                    None => Some(None),
                    Some(JsonV::Null) => Some(None),
                    Some(JsonV::Arr(items)) => match spec_num_seq(items) {
                        Some(ds) => Some(Some(ds)),
                        None => None,
                    },
                    Some(_) => None,
                };
                match bm {
                    Some(by_minute) => match spec_opt_int(
                        fields,
                        "minute_ts"@,
                        i64::MIN as int,
                        i64::MAX as int,
                    ) {
                        Some(ts) => Some(
                            EnergyV {
                                total,
                                by_minute,
                                minute_ts: match ts {
                                    Some(x) => Some(x as i64),
                                    None => None,
                                },
                            },
                        ),
                        None => None,
                    },
                    None => None,
                }
            },
            None => None,
        },
        _ => None,
    }
}

pub open spec fn spec_temperature(v: JsonV) -> Option<TemperatureData> {
    match v {
        JsonV::Obj(fields) => match (spec_req_num(fields, "tC"@), spec_req_num(fields, "tF"@)) {
            (Some(tc), Some(tf)) => Some(TemperatureData { tc, tf }),
            _ => None,
        },
        _ => None,
    }
}

pub open spec fn spec_wifi(v: JsonV) -> Option<WifiData> {
    match v {
        JsonV::Obj(fields) => match obj_lookup(fields, "rssi"@) {
            Some(rv) => match spec_int_of(rv, i32::MIN as int, i32::MAX as int) {
                Some(x) => Some(WifiData { rssi: x as i32 }),
                None => None,
            },
            None => None,
        },
        _ => None,
    }
}

pub open spec fn spec_sys(v: JsonV) -> Option<SysData> {
    match v {
        JsonV::Obj(fields) => match spec_opt_int(
            fields,
            "uptime"@,
            i64::MIN as int,
            i64::MAX as int,
        ) {
            Some(up) => Some(
                SysData {
                    uptime: match up {
                        Some(x) => Some(x as i64),
                        None => None,
                    },
                },
            ),
            None => None,
        },
        _ => None,
    }
}

pub open spec fn spec_humidity(v: JsonV) -> Option<HumidityData> {
    match v {
        JsonV::Obj(fields) => match spec_req_num(fields, "rh"@) {
            Some(rh) => Some(HumidityData { rh }),
            None => None,
        },
        _ => None,
    }
}

pub open spec fn spec_battery(v: JsonV) -> Option<BatteryData> {
    match v {
        JsonV::Obj(fields) => match (
            spec_req_num(fields, "V"@),
            match obj_lookup(fields, "percent"@) {
                Some(pv) => spec_int_of(pv, i64::MIN as int, i64::MAX as int),
                None => None,
            },
        ) {
            (Some(voltage), Some(p)) => Some(BatteryData { voltage, percent: p as i64 }),
            _ => None,
        },
        _ => None,
    }
}

pub open spec fn spec_devicepower(v: JsonV) -> Option<DevicePowerData> {
    match v {
        JsonV::Obj(fields) => match obj_lookup(fields, "battery"@) {
            None => Some(DevicePowerData { battery: None }),
            Some(JsonV::Null) => Some(DevicePowerData { battery: None }),
            Some(bv) => match spec_battery(bv) {
                Some(b) => Some(DevicePowerData { battery: Some(b) }),
                None => None,
            },
        },
        _ => None,
    }
}

pub open spec fn spec_switch(v: JsonV) -> Option<SwitchV> {
    match v {
        JsonV::Obj(fields) => {
            let id = match obj_lookup(fields, "id"@) {
                Some(iv) => spec_int_of(iv, 0, 255),
                None => None,
            };
            let aenergy = match obj_lookup(fields, "aenergy"@) {
                Some(ev) => spec_energy(ev),
                None => None,
            };
            let temperature = match obj_lookup(fields, "temperature"@) {
                None => Some(None),
                Some(JsonV::Null) => Some(None),
                Some(tv) => match spec_temperature(tv) {
                    Some(t) => Some(Some(t)),
                    None => None,
                },
            };
            match (
                id,
                spec_opt_bool(fields, "output"@),
                spec_opt_num(fields, "apower"@),
                spec_opt_num(fields, "voltage"@),
                spec_opt_num(fields, "current"@),
                aenergy,
                temperature,
            ) {
                (Some(i), Some(output), Some(apower), Some(voltage), Some(current), Some(en), Some(
                    t,
                )) => Some(
                    SwitchV {
                        id: i as u8,
                        output,
                        apower,
                        voltage,
                        current,
                        aenergy: en,
                        temperature: t,
                    },
                ),
                _ => None,
            }
        },
        _ => None,
    }
}

pub open spec fn spec_params(v: JsonV) -> Option<ParamsV> {
    match v {
        JsonV::Obj(fields) => {
            let switch = match obj_lookup(fields, "switch:0"@) {
                None => Some(None),
                Some(JsonV::Null) => Some(None),
                Some(sv) => match spec_switch(sv) {
                    Some(s) => Some(Some(s)),
                    None => None,
                },
            };
            let wifi = match obj_lookup(fields, "wifi"@) {
                None => Some(None),
                Some(JsonV::Null) => Some(None),
                Some(wv) => match spec_wifi(wv) {
                    Some(w) => Some(Some(w)),
                    None => None,
                },
            };
            let sys = match obj_lookup(fields, "sys"@) {
                None => Some(None),
                Some(JsonV::Null) => Some(None),
                Some(sv) => match spec_sys(sv) {
                    Some(s) => Some(Some(s)),
                    None => None,
                },
            };
            let temperature = match obj_lookup(fields, "temperature:0"@) {
                None => Some(None),
                Some(JsonV::Null) => Some(None),
                Some(tv) => match spec_temperature(tv) {
                    Some(t) => Some(Some(t)),
                    None => None,
                },
            };
            let humidity = match obj_lookup(fields, "humidity:0"@) {
                None => Some(None),
                Some(JsonV::Null) => Some(None),
                Some(hv) => match spec_humidity(hv) {
                    Some(h) => Some(Some(h)),
                    None => None,
                },
            };
            let devicepower = match obj_lookup(fields, "devicepower:0"@) {
                None => Some(None),
                Some(JsonV::Null) => Some(None),
                Some(dv) => match spec_devicepower(dv) {
                    Some(d) => Some(Some(d)),
                    None => None,
                },
            };
            match (switch, wifi, sys, temperature, humidity, devicepower) {
                (Some(s), Some(w), Some(y), Some(t), Some(h), Some(d)) => Some(
                    ParamsV {
                        switch: s,
                        wifi: w,
                        sys: y,
                        temperature: t,
                        humidity: h,
                        devicepower: d,
                    },
                ),
                _ => None,
            }
        },
        _ => None,
    }
}

pub open spec fn spec_method(v: JsonV) -> Option<MessageMethod> {
    match v {
        JsonV::Str(s) => if s == "NotifyFullStatus"@ {
            Some(MessageMethod::NotifyFullStatus)
        } else if s == "NotifyStatus"@ {
            Some(MessageMethod::NotifyStatus)
        } else if s == "NotifyEvent"@ {
            Some(MessageMethod::NotifyEvent)
        } else {
            None
        },
        _ => None,
    }
}

/// Structural decode of a whole notification.
pub open spec fn spec_message(j: JsonV) -> Option<MessageV> {
    match j {
        JsonV::Obj(fields) => {
            let src = match obj_lookup(fields, "src"@) {
                Some(sv) => spec_str_of(sv),
                None => None,
            };
            let dst = match obj_lookup(fields, "dst"@) {
                None => Some(None),
                Some(JsonV::Null) => Some(None),
                Some(dv) => match spec_str_of(dv) {
                    Some(d) => Some(Some(d)),
                    None => None,
                },
            };
            let method = match obj_lookup(fields, "method"@) {
                Some(mv) => spec_method(mv),
                None => None,
            };
            let params = match obj_lookup(fields, "params"@) {
                Some(pv) => spec_params(pv),
                None => None,
            };
            match (src, dst, method, params) {
                (Some(s), Some(d), Some(m), Some(p)) => Some(
                    MessageV { src: s, dst: d, method: m, params: p },
                ),
                _ => None,
            }
        },
        _ => None,
    }
}

fn num_of(v: &Json) -> (r: Option<Decimal>)
    ensures
        r == spec_num_of(v@),
{
    match v {
        Json::Num(s) => parse_decimal(s.as_str()),
        _ => None,
    }
}

fn int_of(v: &Json, lo: i64, hi: i64) -> (r: Option<i64>)
    ensures
        match r {
            Some(x) => spec_int_of(v@, lo as int, hi as int) == Some(x as int),
            None => spec_int_of(v@, lo as int, hi as int) is None,
        },
{
    match v {
        Json::Num(s) => parse_int(s.as_str(), lo, hi),
        _ => None,
    }
}

fn req_num(fields: &Vec<(String, Json)>, key: &str) -> (r: Option<Decimal>)
    ensures
        r == spec_req_num(fields_view(fields@), key@),
{
    match obj_get(fields, key) {
        Some(v) => num_of(v),
        None => None,
    }
}

fn opt_num(fields: &Vec<(String, Json)>, key: &str) -> (r: Option<Option<Decimal>>)
    ensures
        r == spec_opt_num(fields_view(fields@), key@),
{
    match obj_get(fields, key) {
        None => Some(None),
        Some(v) => {
            if is_null(v) {
                Some(None)
            } else {
                match num_of(v) {
                    Some(d) => Some(Some(d)),
                    None => None,
                }
            }
        },
    }
}

fn opt_bool(fields: &Vec<(String, Json)>, key: &str) -> (r: Option<Option<bool>>)
    ensures
        r == spec_opt_bool(fields_view(fields@), key@),
{
    match obj_get(fields, key) {
        None => Some(None),
        Some(v) => match v {
            Json::Null => Some(None),
            Json::Bool(b) => Some(Some(*b)),
            _ => None,
        },
    }
}

fn opt_i64(fields: &Vec<(String, Json)>, key: &str) -> (r: Option<Option<i64>>)
    ensures
        match r {
            Some(Some(x)) => spec_opt_int(
                fields_view(fields@),
                key@,
                i64::MIN as int,
                i64::MAX as int,
            ) == Some(Some(x as int)),
            Some(None) => spec_opt_int(
                fields_view(fields@),
                key@,
                i64::MIN as int,
                i64::MAX as int,
            ) == Some(None::<int>),
            None => spec_opt_int(fields_view(fields@), key@, i64::MIN as int, i64::MAX as int)
                is None,
        },
{
    match obj_get(fields, key) {
        None => Some(None),
        Some(v) => {
            if is_null(v) {
                Some(None)
            } else {
                match int_of(v, i64::MIN, i64::MAX) {
                    Some(x) => Some(Some(x)),
                    None => None,
                }
            }
        },
    }
}

fn parse_num_vec(items: &Vec<Json>) -> (r: Option<Vec<Decimal>>)
    ensures
        match r {
            Some(ds) => spec_num_seq(arr_view(items@)) == Some(ds@),
            None => spec_num_seq(arr_view(items@)) is None,
        },
{
    let mut ds: Vec<Decimal> = Vec::new();
    let n = items.len();
    let mut i: usize = 0;
    while i < n
        invariant
            n == items@.len(),
            i <= n,
            ds@.len() == i,
            forall|j: int| 0 <= j < i ==> spec_num_of(#[trigger] arr_view(items@)[j]) is Some,
            forall|j: int| 0 <= j < i ==> ds@[j] == spec_num_of(arr_view(items@)[j]).unwrap(),
        decreases n - i,
    {
        match num_of(&items[i]) {
            Some(d) => {
                ds.push(d);
            },
            None => {
                proof {
                    assert(spec_num_of(arr_view(items@)[i as int]) is None);
                }
                return None;
            },
        }
        i = i + 1;
    }
    proof {
        assert(ds@ =~= Seq::new(
            arr_view(items@).len(),
            |j: int| spec_num_of(arr_view(items@)[j]).unwrap(),
        ));
    }
    Some(ds)
}

/// Decode an energy section.
pub fn parse_energy(v: &Json) -> (r: Option<EnergyData>)
    ensures
        match r {
            Some(e) => spec_energy(v@) == Some(e@),
            None => spec_energy(v@) is None,
        },
{
    let fields = match as_obj(v) {
        Some(f) => f,
        None => {
            return None;
        },
    };
    let total = match req_num(fields, "total") {
        Some(t) => t,
        None => {
            return None;
        },
    };
    let by_minute: Option<Vec<Decimal>> = match obj_get(fields, "by_minute") {
        None => None,
        Some(bv) => {
            if is_null(bv) {
                None
            } else {
                match as_arr(bv) {
                    Some(items) => match parse_num_vec(items) {
                        Some(ds) => Some(ds),
                        None => {
                            return None;
                        },
                    },
                    None => {
                        return None;
                    },
                }
            }
        },
    };
    let minute_ts: Option<i64> = match opt_i64(fields, "minute_ts") {
        Some(x) => x,
        None => {
            return None;
        },
    };
    Some(EnergyData { total, by_minute, minute_ts })
}

/// Decode a temperature section.
pub fn parse_temperature(v: &Json) -> (r: Option<TemperatureData>)
    ensures
        match r {
            Some(t) => spec_temperature(v@) == Some(t),
            None => spec_temperature(v@) is None,
        },
{
    let fields = match as_obj(v) {
        Some(f) => f,
        None => {
            return None;
        },
    };
    let tc = match req_num(fields, "tC") {
        Some(t) => t,
        None => {
            return None;
        },
    };
    let tf = match req_num(fields, "tF") {
        Some(t) => t,
        None => {
            return None;
        },
    };
    Some(TemperatureData { tc, tf })
}

/// Decode a connectivity section.
pub fn parse_wifi(v: &Json) -> (r: Option<WifiData>)
    ensures
        match r {
            Some(w) => spec_wifi(v@) == Some(w),
            None => spec_wifi(v@) is None,
        },
{
    let fields = match as_obj(v) {
        Some(f) => f,
        None => {
            return None;
        },
    };
    let rv = match obj_get(fields, "rssi") {
        Some(x) => x,
        None => {
            return None;
        },
    };
    match int_of(rv, i32::MIN as i64, i32::MAX as i64) {
        Some(x) => Some(WifiData { rssi: x as i32 }),
        None => None,
    }
}

/// Decode a system-information section.
pub fn parse_sys(v: &Json) -> (r: Option<SysData>)
    ensures
        match r {
            Some(s) => spec_sys(v@) == Some(s),
            None => spec_sys(v@) is None,
        },
{
    let fields = match as_obj(v) {
        Some(f) => f,
        None => {
            return None;
        },
    };
    match opt_i64(fields, "uptime") {
        Some(up) => Some(SysData { uptime: up }),
        None => None,
    }
}

/// Decode a humidity section.
pub fn parse_humidity(v: &Json) -> (r: Option<HumidityData>)
    ensures
        match r {
            Some(h) => spec_humidity(v@) == Some(h),
            None => spec_humidity(v@) is None,
        },
{
    let fields = match as_obj(v) {
        Some(f) => f,
        None => {
            return None;
        },
    };
    match req_num(fields, "rh") {
        Some(rh) => Some(HumidityData { rh }),
        None => None,
    }
}

/// Decode a battery report.
pub fn parse_battery(v: &Json) -> (r: Option<BatteryData>)
    ensures
        match r {
            Some(b) => spec_battery(v@) == Some(b),
            None => spec_battery(v@) is None,
        },
{
    let fields = match as_obj(v) {
        Some(f) => f,
        None => {
            return None;
        },
    };
    let voltage = match req_num(fields, "V") {
        Some(x) => x,
        None => {
            return None;
        },
    };
    let pv = match obj_get(fields, "percent") {
        Some(x) => x,
        None => {
            return None;
        },
    };
    match int_of(pv, i64::MIN, i64::MAX) {
        Some(p) => Some(BatteryData { voltage, percent: p }),
        None => None,
    }
}

/// Decode a power-supply section.
pub fn parse_devicepower(v: &Json) -> (r: Option<DevicePowerData>)
    ensures
        match r {
            Some(d) => spec_devicepower(v@) == Some(d),
            None => spec_devicepower(v@) is None,
        },
{
    let fields = match as_obj(v) {
        Some(f) => f,
        None => {
            return None;
        },
    };
    match obj_get(fields, "battery") {
        None => Some(DevicePowerData { battery: None }),
        Some(bv) => {
            if is_null(bv) {
                Some(DevicePowerData { battery: None })
            } else {
                match parse_battery(bv) {
                    Some(b) => Some(DevicePowerData { battery: Some(b) }),
                    None => None,
                }
            }
        },
    }
}

/// Decode a switch section.
pub fn parse_switch(v: &Json) -> (r: Option<SwitchData>)
    ensures
        match r {
            Some(s) => spec_switch(v@) == Some(s@),
            None => spec_switch(v@) is None,
        },
{
    let fields = match as_obj(v) {
        Some(f) => f,
        None => {
            return None;
        },
    };
    let iv = match obj_get(fields, "id") {
        Some(x) => x,
        None => {
            return None;
        },
    };
    let id = match int_of(iv, 0, 255) {
        Some(x) => x as u8,
        None => {
            return None;
        },
    };
    let output = match opt_bool(fields, "output") {
        Some(x) => x,
        None => {
            return None;
        },
    };
    let apower = match opt_num(fields, "apower") {
        Some(x) => x,
        None => {
            return None;
        },
    };
    let voltage = match opt_num(fields, "voltage") {
        Some(x) => x,
        None => {
            return None;
        },
    };
    let current = match opt_num(fields, "current") {
        Some(x) => x,
        None => {
            return None;
        },
    };
    let ev = match obj_get(fields, "aenergy") {
        Some(x) => x,
        None => {
            return None;
        },
    };
    let aenergy = match parse_energy(ev) {
        Some(x) => x,
        None => {
            return None;
        },
    };
    let temperature = match obj_get(fields, "temperature") {
        None => None,
        Some(tv) => {
            if is_null(tv) {
                None
            } else {
                match parse_temperature(tv) {
                    Some(t) => Some(t),
                    None => {
                        return None;
                    },
                }
            }
        },
    };
    Some(SwitchData { id, output, apower, voltage, current, aenergy, temperature })
}

/// Decode the section set.
pub fn parse_params(v: &Json) -> (r: Option<MessageParams>)
    ensures
        match r {
            Some(p) => spec_params(v@) == Some(p@),
            None => spec_params(v@) is None,
        },
{
    let fields = match as_obj(v) {
        Some(f) => f,
        None => {
            return None;
        },
    };
    let switch = match obj_get(fields, "switch:0") {
        None => None,
        Some(sv) => {
            if is_null(sv) {
                None
            } else {
                match parse_switch(sv) {
                    Some(s) => Some(s),
                    None => {
                        return None;
                    },
                }
            }
        },
    };
    let wifi = match obj_get(fields, "wifi") {
        None => None,
        Some(wv) => {
            if is_null(wv) {
                None
            } else {
                match parse_wifi(wv) {
                    Some(w) => Some(w),
                    None => {
                        return None;
                    },
                }
            }
        },
    };
    let sys = match obj_get(fields, "sys") {
        None => None,
        Some(sv) => {
            if is_null(sv) {
                None
            } else {
                match parse_sys(sv) {
                    Some(s) => Some(s),
                    None => {
                        return None;
                    },
                }
            }
        },
    };
    let temperature = match obj_get(fields, "temperature:0") {
        None => None,
        Some(tv) => {
            if is_null(tv) {
                None
            } else {
                match parse_temperature(tv) {
                    Some(t) => Some(t),
                    None => {
                        return None;
                    },
                }
            }
        },
    };
    let humidity = match obj_get(fields, "humidity:0") {
        None => None,
        Some(hv) => {
            if is_null(hv) {
                None
            } else {
                match parse_humidity(hv) {
                    Some(h) => Some(h),
                    None => {
                        return None;
                    },
                }
            }
        },
    };
    let devicepower = match obj_get(fields, "devicepower:0") {
        None => None,
        Some(dv) => {
            if is_null(dv) {
                None
            } else {
                match parse_devicepower(dv) {
                    Some(d) => Some(d),
                    None => {
                        return None;
                    },
                }
            }
        },
    };
    Some(MessageParams { switch, wifi, sys, temperature, humidity, devicepower })
}

fn parse_method(v: &Json) -> (r: Option<MessageMethod>)
    ensures
        r == spec_method(v@),
{
    match v {
        Json::Str(s) => {
            if crate::util::str_eq(s.as_str(), "NotifyFullStatus") {
                Some(MessageMethod::NotifyFullStatus)
            } else if crate::util::str_eq(s.as_str(), "NotifyStatus") {
                Some(MessageMethod::NotifyStatus)
            } else if crate::util::str_eq(s.as_str(), "NotifyEvent") {
                Some(MessageMethod::NotifyEvent)
            } else {
                None
            }
        },
        _ => None,
    }
}

/// Decode a whole notification from a JSON document.
pub fn message_from_json(j: &Json) -> (r: Option<ShellyMessage>)
    ensures
        match r {
            Some(m) => spec_message(j@) == Some(m@),
            None => spec_message(j@) is None,
        },
{
    let fields = match as_obj(j) {
        Some(f) => f,
        None => {
            return None;
        },
    };
    let src: String = match obj_get(fields, "src") {
        Some(sv) => match sv {
            Json::Str(s) => s.clone(),
            _ => {
                return None;
            },
        },
        None => {
            return None;
        },
    };
    let dst: Option<String> = match obj_get(fields, "dst") {
        None => None,
        Some(dv) => {
            if is_null(dv) {
                None
            } else {
                match dv {
                    Json::Str(s) => Some(s.clone()),
                    _ => {
                        return None;
                    },
                }
            }
        },
    };
    let method = match obj_get(fields, "method") {
        Some(mv) => match parse_method(mv) {
            Some(m) => m,
            None => {
                return None;
            },
        },
        None => {
            return None;
        },
    };
    let params = match obj_get(fields, "params") {
        Some(pv) => match parse_params(pv) {
            Some(p) => p,
            None => {
                return None;
            },
        },
        None => {
            return None;
        },
    };
    Some(ShellyMessage { src, dst, method, params })
}

/// Decode a payload and apply the ignore policy: an `Event` notification is
/// rejected after a successful decode, before any metric work.
pub fn parse_message(json: &str) -> (r: Result<ShellyMessage, ParserError>)
    ensures
        match r {
            Ok(m) => match json_of(json@) {
                Some(j) => spec_message(j) == Some(m@) && m@.method != MessageMethod::NotifyEvent,
                None => false,
            },
            Err(e) => match e {
                ParserError::JsonError(_) => match json_of(json@) {
                    Some(j) => spec_message(j) is None,
                    None => true,
                },
                ParserError::IgnoredMessage(_) => match json_of(json@) {
                    Some(j) => match spec_message(j) {
                        Some(mv) => mv.method == MessageMethod::NotifyEvent,
                        None => false,
                    },
                    None => false,
                },
                ParserError::MissingField(_) => false,
            },
        },
{
    let doc = match json_decode(json) {
        Ok(j) => j,
        Err(e) => {
            return Err(ParserError::JsonError(e));
        },
    };
    let msg = match message_from_json(&doc) {
        Some(m) => m,
        None => {
            return Err(ParserError::JsonError("payload does not fit the message model".to_owned()));
        },
    };
    match msg.method {
        MessageMethod::NotifyEvent => Err(ParserError::IgnoredMessage("NotifyEvent".to_owned())),
        _ => Ok(msg),
    }
}

/// Whether a notification kind carries metric data.
pub fn should_process(method: &MessageMethod) -> (r: bool)
    ensures
        r == (*method != MessageMethod::NotifyEvent),
{
    match method {
        MessageMethod::NotifyEvent => false,
        _ => true,
    }
}

} // verus!
