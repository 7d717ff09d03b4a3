use vstd::prelude::*;
use crate::num::{Decimal, dec_scaled, sat_i64, scale_trunc};
use crate::parser::{
    ShellyMessage, MessageV, SwitchV, ParamsV, resolved_device, resolve_device,
};
use crate::util::{dec_rep, u64_to_string, str_eq};

verus! {

/// The ten gauge families the mapper writes.
#[derive(Clone, Copy, Debug, PartialEq, Eq, Structural)]
pub enum MetricFamily {
    Power,
    Voltage,
    Current,
    EnergyTotal,
    SwitchState,
    Temperature,
    Humidity,
    BatteryPercent,
    BatteryVoltage,
    WifiRssi,
}

/// The registered name of a gauge family.
pub open spec fn spec_family_name(f: MetricFamily) -> Seq<char> {
    match f {
        MetricFamily::Power => "shelly_switch_power_watts"@,
        MetricFamily::Voltage => "shelly_switch_voltage_volts"@,
        MetricFamily::Current => "shelly_switch_current_amps"@,
        MetricFamily::EnergyTotal => "shelly_switch_energy_total_wh"@,
        MetricFamily::SwitchState => "shelly_switch_state"@,
        MetricFamily::Temperature => "shelly_temperature_celsius"@,
        MetricFamily::Humidity => "shelly_humidity_percent"@,
        MetricFamily::BatteryPercent => "shelly_battery_percent"@,
        MetricFamily::BatteryVoltage => "shelly_battery_voltage"@,
        MetricFamily::WifiRssi => "shelly_wifi_rssi_dbm"@,
    }
}

/// The help text a gauge family is registered with.
pub open spec fn spec_family_help(f: MetricFamily) -> Seq<char> {
    match f {
        MetricFamily::Power => "Current power consumption in watts"@,
        MetricFamily::Voltage => "Line voltage in volts"@,
        MetricFamily::Current => "Current draw in amps"@,
        MetricFamily::EnergyTotal => "Total energy consumed in watt-hours"@,
        MetricFamily::SwitchState => "Switch output state (0=off, 1=on)"@,
        MetricFamily::Temperature => "Device temperature in celsius"@,
        MetricFamily::Humidity => "Relative humidity percentage"@,
        MetricFamily::BatteryPercent => "Battery charge percentage"@,
        MetricFamily::BatteryVoltage => "Battery voltage in volts"@,
        MetricFamily::WifiRssi => "WiFi signal strength in dBm"@,
    }
}

/// The ten families, in the order the sink registers them.
pub open spec fn spec_all_families() -> Seq<MetricFamily> {
    seq![
        MetricFamily::Power,
        MetricFamily::Voltage,
        MetricFamily::Current,
        MetricFamily::EnergyTotal,
        MetricFamily::SwitchState,
        MetricFamily::Temperature,
        MetricFamily::Humidity,
        MetricFamily::BatteryPercent,
        MetricFamily::BatteryVoltage,
        MetricFamily::WifiRssi,
    ]
}

impl MetricFamily {
    /// The name this family is registered under.
    pub fn name(&self) -> (r: &'static str)
        ensures
            r@ == spec_family_name(*self),
    {
        match self {
            MetricFamily::Power => "shelly_switch_power_watts",
            MetricFamily::Voltage => "shelly_switch_voltage_volts",
            MetricFamily::Current => "shelly_switch_current_amps",
            MetricFamily::EnergyTotal => "shelly_switch_energy_total_wh",
            MetricFamily::SwitchState => "shelly_switch_state",
            MetricFamily::Temperature => "shelly_temperature_celsius",
            MetricFamily::Humidity => "shelly_humidity_percent",
            MetricFamily::BatteryPercent => "shelly_battery_percent",
            MetricFamily::BatteryVoltage => "shelly_battery_voltage",
            MetricFamily::WifiRssi => "shelly_wifi_rssi_dbm",
        }
    }

    /// The help text this family is registered with.
    pub fn help(&self) -> (r: &'static str)
        ensures
            r@ == spec_family_help(*self),
    {
        match self {
            MetricFamily::Power => "Current power consumption in watts",
            MetricFamily::Voltage => "Line voltage in volts",
            MetricFamily::Current => "Current draw in amps",
            MetricFamily::EnergyTotal => "Total energy consumed in watt-hours",
            MetricFamily::SwitchState => "Switch output state (0=off, 1=on)",
            MetricFamily::Temperature => "Device temperature in celsius",
            MetricFamily::Humidity => "Relative humidity percentage",
            MetricFamily::BatteryPercent => "Battery charge percentage",
            MetricFamily::BatteryVoltage => "Battery voltage in volts",
            MetricFamily::WifiRssi => "WiFi signal strength in dBm",
        }
    }

    /// All ten families, in registration order.
    pub fn all() -> (v: Vec<MetricFamily>)
        ensures
            v@ == spec_all_families(),
    {
        let mut v: Vec<MetricFamily> = Vec::new();
        v.push(MetricFamily::Power);
        v.push(MetricFamily::Voltage);
        v.push(MetricFamily::Current);
        v.push(MetricFamily::EnergyTotal);
        v.push(MetricFamily::SwitchState);
        v.push(MetricFamily::Temperature);
        v.push(MetricFamily::Humidity);
        v.push(MetricFamily::BatteryPercent);
        v.push(MetricFamily::BatteryVoltage);
        v.push(MetricFamily::WifiRssi);
        proof {
            assert(v@ =~= spec_all_families());
        }
        v
    }
}

/// Labels of a per-circuit metric.
#[derive(Clone, Debug, PartialEq, Eq)]
pub struct DeviceLabels {
    pub device: String,
    pub switch: String,
}

/// Labels of a whole-device metric.
#[derive(Clone, Debug, PartialEq, Eq)]
pub struct DeviceOnlyLabels {
    pub device: String,
}

/// One gauge write: a family, its label set and the value to store.
pub enum GaugeUpdate {
    Switch { family: MetricFamily, labels: DeviceLabels, value: i64 },
    Device { family: MetricFamily, labels: DeviceOnlyLabels, value: i64 },
}

/// The mathematical shape of one gauge write.
pub struct UpdateV {
    pub family: MetricFamily,
    pub device: Seq<char>,
    pub switch: Option<Seq<char>>,
    pub value: int,
}

/// The identity of one time series: a family plus its label tuple.
pub struct KeyV {
    pub family: MetricFamily,
    pub device: Seq<char>,
    pub switch: Option<Seq<char>>,
}

impl UpdateV {
    /// The series this write lands in.
    pub open spec fn key(self) -> KeyV {
        KeyV { family: self.family, device: self.device, switch: self.switch }
    }
}

impl View for GaugeUpdate {
    type V = UpdateV;

    open spec fn view(&self) -> UpdateV {
        match self {
            GaugeUpdate::Switch { family, labels, value } => UpdateV {
                family: *family,
                device: labels.device@,
                switch: Some(labels.switch@),
                value: *value as int,
            },
            GaugeUpdate::Device { family, labels, value } => UpdateV {
                family: *family,
                device: labels.device@,
                switch: None,
                value: *value as int,
            },
        }
    }
}

/// The integer a gauge stores for a decimal reading scaled by `10^k`:
/// truncated toward zero and saturated into `i64`.
pub open spec fn gauge_of(d: Decimal, k: int) -> int {
    sat_i64(dec_scaled(d, k))
}

pub open spec fn upd_sw(family: MetricFamily, dev: Seq<char>, sw: Seq<char>, value: int) -> Seq<
    UpdateV,
> {
    seq![UpdateV { family, device: dev, switch: Some(sw), value }]
}

pub open spec fn upd_dev(family: MetricFamily, dev: Seq<char>, value: int) -> Seq<UpdateV> {
    seq![UpdateV { family, device: dev, switch: None, value }]
}

/// The writes a switch section produces: one row per present field, in watts,
/// deci-volts, milli-amps, deci-watt-hours, the output bit, and deci-celsius
/// for the embedded temperature.
pub open spec fn switch_updates(dev: Seq<char>, sw: SwitchV) -> Seq<UpdateV> {
    let lbl = dec_rep(sw.id as nat);
    (match sw.apower {
        Some(d) => upd_sw(MetricFamily::Power, dev, lbl, gauge_of(d, 0)),
        None => Seq::<UpdateV>::empty(),
    }) + (match sw.voltage {
        Some(d) => upd_sw(MetricFamily::Voltage, dev, lbl, gauge_of(d, 1)),
        None => Seq::<UpdateV>::empty(),
    }) + (match sw.current {
        Some(d) => upd_sw(MetricFamily::Current, dev, lbl, gauge_of(d, 3)),
        None => Seq::<UpdateV>::empty(),
    }) + upd_sw(MetricFamily::EnergyTotal, dev, lbl, gauge_of(sw.aenergy.total, 1)) + (match sw
        .output {
        Some(b) => upd_sw(
            MetricFamily::SwitchState,
            dev,
            lbl,
            if b {
                1
            } else {
                0
            },
        ),
        None => Seq::<UpdateV>::empty(),
    }) + (match sw.temperature {
        Some(t) => upd_dev(MetricFamily::Temperature, dev, gauge_of(t.tc, 1)),
        None => Seq::<UpdateV>::empty(),
    })
}

/// The writes one decoded notification produces, row by row: each present
/// source field updates its gauge; absent fields touch nothing.
pub open spec fn updates_of(m: MessageV, topic: Option<Seq<char>>) -> Seq<UpdateV> {
    let dev = resolved_device(topic, m.src);
    (match m.params.switch {
        Some(sw) => switch_updates(dev, sw),
        None => Seq::<UpdateV>::empty(),
    }) + (match m.params.temperature {
        Some(t) => upd_dev(MetricFamily::Temperature, dev, gauge_of(t.tc, 1)),
        None => Seq::<UpdateV>::empty(),
    }) + (match m.params.humidity {
        Some(h) => upd_dev(MetricFamily::Humidity, dev, gauge_of(h.rh, 1)),
        None => Seq::<UpdateV>::empty(),
    }) + (match m.params.devicepower {
        Some(dp) => match dp.battery {
            Some(b) => upd_dev(MetricFamily::BatteryPercent, dev, b.percent as int) + upd_dev(
                MetricFamily::BatteryVoltage,
                dev,
                gauge_of(b.voltage, 2),
            ),
            None => Seq::<UpdateV>::empty(),
        },
        None => Seq::<UpdateV>::empty(),
    }) + (match m.params.wifi {
        Some(w) => upd_dev(MetricFamily::WifiRssi, dev, w.rssi as int),
        None => Seq::<UpdateV>::empty(),
    })
}

/// The view of a list of gauge writes.
pub open spec fn updates_view(v: Seq<GaugeUpdate>) -> Seq<UpdateV> {
    v.map_values(|u: GaugeUpdate| u@)
}

/// Compute the gauge writes for one notification and the topic it arrived on.
#[verifier::rlimit(100)]
pub fn updates_for(msg: &ShellyMessage, topic: Option<&str>) -> (v: Vec<GaugeUpdate>)
    ensures
        updates_view(v@) == updates_of(
            msg@,
            match topic {
                Some(t) => Some(t@),
                None => None,
            },
        ),
{
    let device = resolve_device(topic, msg.src.as_str());
    let ghost dev = device@;
    let ghost mv = msg@;
    let mut v: Vec<GaugeUpdate> = Vec::new();
    let ghost s0 = Seq::<UpdateV>::empty();
    proof {
        assert(updates_view(v@) =~= s0);
    }
    let ghost s_switch = s0 + (match mv.params.switch {
        Some(sw) => switch_updates(dev, sw),
        None => Seq::<UpdateV>::empty(),
    });
    if let Some(sw) = &msg.params.switch {
        let lbl = u64_to_string(sw.id as u64);
        if let Some(d) = &sw.apower {
            let value = scale_trunc(d, 0);
            v.push(
                GaugeUpdate::Switch {
                    family: MetricFamily::Power,
                    labels: DeviceLabels { device: device.clone(), switch: lbl.clone() },
                    value,
                },
            );
        }
        if let Some(d) = &sw.voltage {
            let value = scale_trunc(d, 1);
            v.push(
                GaugeUpdate::Switch {
                    family: MetricFamily::Voltage,
                    labels: DeviceLabels { device: device.clone(), switch: lbl.clone() },
                    value,
                },
            );
        }
        if let Some(d) = &sw.current {
            let value = scale_trunc(d, 3);
            v.push(
                GaugeUpdate::Switch {
                    family: MetricFamily::Current,
                    labels: DeviceLabels { device: device.clone(), switch: lbl.clone() },
                    value,
                },
            );
        }
        let energy = scale_trunc(&sw.aenergy.total, 1);
        v.push(
            GaugeUpdate::Switch {
                family: MetricFamily::EnergyTotal,
                labels: DeviceLabels { device: device.clone(), switch: lbl.clone() },
                value: energy,
            },
        );
        if let Some(b) = sw.output {
            v.push(
                GaugeUpdate::Switch {
                    family: MetricFamily::SwitchState,
                    labels: DeviceLabels { device: device.clone(), switch: lbl.clone() },
                    value: if b {
                        1
                    } else {
                        0
                    },
                },
            );
        }
        if let Some(t) = &sw.temperature {
            let value = scale_trunc(&t.tc, 1);
            v.push(
                GaugeUpdate::Device {
                    family: MetricFamily::Temperature,
                    labels: DeviceOnlyLabels { device: device.clone() },
                    value,
                },
            );
        }
        proof {
            assert(updates_view(v@) =~= s_switch);
        }
    } else {
        proof {
            assert(updates_view(v@) =~= s_switch);
        }
    }
    let ghost s_temp = s_switch + (match mv.params.temperature {
        Some(t) => upd_dev(MetricFamily::Temperature, dev, gauge_of(t.tc, 1)),
        None => Seq::<UpdateV>::empty(),
    });
    if let Some(t) = &msg.params.temperature {
        let value = scale_trunc(&t.tc, 1);
        v.push(
            GaugeUpdate::Device {
                family: MetricFamily::Temperature,
                labels: DeviceOnlyLabels { device: device.clone() },
                value,
            },
        );
    }
    proof {
        assert(updates_view(v@) =~= s_temp);
    }
    let ghost s_hum = s_temp + (match mv.params.humidity {
        Some(h) => upd_dev(MetricFamily::Humidity, dev, gauge_of(h.rh, 1)),
        None => Seq::<UpdateV>::empty(),
    });
    if let Some(h) = &msg.params.humidity {
        let value = scale_trunc(&h.rh, 1);
        v.push(
            GaugeUpdate::Device {
                family: MetricFamily::Humidity,
                labels: DeviceOnlyLabels { device: device.clone() },
                value,
            },
        );
    }
    proof {
        assert(updates_view(v@) =~= s_hum);
    }
    let ghost s_bat = s_hum + (match mv.params.devicepower {
        Some(dp) => match dp.battery {
            Some(b) => upd_dev(MetricFamily::BatteryPercent, dev, b.percent as int) + upd_dev(
                MetricFamily::BatteryVoltage,
                dev,
                gauge_of(b.voltage, 2),
            ),
            None => Seq::<UpdateV>::empty(),
        },
        None => Seq::<UpdateV>::empty(),
    });
    if let Some(dp) = &msg.params.devicepower {
        if let Some(b) = &dp.battery {
            v.push(
                GaugeUpdate::Device {
                    family: MetricFamily::BatteryPercent,
                    labels: DeviceOnlyLabels { device: device.clone() },
                    value: b.percent,
                },
            );
            let value = scale_trunc(&b.voltage, 2);
            v.push(
                GaugeUpdate::Device {
                    family: MetricFamily::BatteryVoltage,
                    labels: DeviceOnlyLabels { device: device.clone() },
                    value,
                },
            );
        }
    }
    proof {
        assert(updates_view(v@) =~= s_bat);
    }
    let ghost s_wifi = s_bat + (match mv.params.wifi {
        Some(w) => upd_dev(MetricFamily::WifiRssi, dev, w.rssi as int),
        None => Seq::<UpdateV>::empty(),
    });
    if let Some(w) = &msg.params.wifi {
        v.push(
            GaugeUpdate::Device {
                family: MetricFamily::WifiRssi,
                labels: DeviceOnlyLabels { device: device.clone() },
                value: w.rssi as i64,
            },
        );
    }
    proof {
        assert(updates_view(v@) =~= s_wifi);
        assert(s_wifi =~= updates_of(
            mv,
            match topic {
                Some(t) => Some(t@),
                None => None,
            },
        ));
    }
    v
}

/// One stored gauge cell: a series identity and its latest value.
#[derive(Clone, Debug, PartialEq, Eq)]
struct GaugeEntry {
    pub family: MetricFamily,
    pub device: String,
    pub switch: Option<String>,
    pub value: i64,
}

impl GaugeEntry {
    /// The series this cell belongs to.
    spec fn skey(&self) -> KeyV {
        KeyV {
            family: self.family,
            device: self.device@,
            switch: match self.switch {
                Some(s) => Some(s@),
                None => None,
            },
        }
    }
}

/// The value stored for a series, scanning from the front: the first matching
/// cell wins (at most one ever matches, since a write lands in the first).
spec fn find_gauge(entries: Seq<GaugeEntry>, k: KeyV) -> Option<int>
    decreases entries.len(),
{
    if entries.len() == 0 {
        None
    } else if entries[0].skey() == k {
        Some(entries[0].value as int)
    } else {
        find_gauge(entries.skip(1), k)
    }
}

/// The append-only, label-keyed gauge store the mapper writes into: a series
/// is created on first sight and overwritten, never removed.
pub struct ShellyMetrics {
    entries: Vec<GaugeEntry>,
}

impl View for ShellyMetrics {
    type V = Map<KeyV, int>;

    closed spec fn view(&self) -> Map<KeyV, int> {
        Map::new(
            |k: KeyV| find_gauge(self.entries@, k) is Some,
            |k: KeyV| find_gauge(self.entries@, k).unwrap(),
        )
    }
}

proof fn lemma_find_update(entries: Seq<GaugeEntry>, j: int, e: GaugeEntry, q: KeyV)
    requires
        0 <= j < entries.len(),
        entries[j].skey() == e.skey(),
        forall|i: int| 0 <= i < j ==> entries[i].skey() != e.skey(),
    ensures
        find_gauge(entries.update(j, e), q) == if q == e.skey() {
            Some(e.value as int)
        } else {
            find_gauge(entries, q)
        },
    decreases j,
{
    if j == 0 {
        assert(entries.update(0, e)[0] == e);
        assert(entries.update(0, e).skip(1) =~= entries.skip(1));
        if q == e.skey() {
        } else {
            assert(entries[0].skey() != q || entries[0].skey() == e.skey());
        }
    } else {
        assert(entries.update(j, e)[0] == entries[0]);
        assert(entries.update(j, e).skip(1) =~= entries.skip(1).update(j - 1, e));
        lemma_find_update(entries.skip(1), j - 1, e, q);
    }
}

proof fn lemma_find_push(entries: Seq<GaugeEntry>, e: GaugeEntry, q: KeyV)
    ensures
        find_gauge(entries.push(e), q) == match find_gauge(entries, q) {
            Some(v) => Some(v),
            None => if q == e.skey() {
                Some(e.value as int)
            } else {
                None
            },
        },
    decreases entries.len(),
{
    if entries.len() == 0 {
        assert(entries.push(e)[0] == e);
        assert(entries.push(e).skip(1) =~= Seq::<GaugeEntry>::empty());
        assert(find_gauge(Seq::<GaugeEntry>::empty(), q) is None);
    } else {
        assert(entries.push(e)[0] == entries[0]);
        assert(entries.push(e).skip(1) =~= entries.skip(1).push(e));
        lemma_find_push(entries.skip(1), e, q);
    }
}

fn entry_matches(e: &GaugeEntry, u: &GaugeUpdate) -> (r: bool)
    ensures
        r == (e.skey() == u@.key()),
{
    let (family, device, switch): (MetricFamily, &String, Option<&String>) = match u {
        GaugeUpdate::Switch { family, labels, .. } => (*family, &labels.device, Some(
            &labels.switch,
        )),
        GaugeUpdate::Device { family, labels, .. } => (*family, &labels.device, None),
    };
    if !(e.family == family) {
        return false;
    }
    if !str_eq(e.device.as_str(), device.as_str()) {
        return false;
    }
    match (&e.switch, switch) {
        (None, None) => true,
        (Some(a), Some(b)) => str_eq(a.as_str(), b.as_str()),
        _ => false,
    }
}

impl ShellyMetrics {
    /// An empty store: every series comes into being on its first write.
    pub fn new() -> (r: ShellyMetrics)
        ensures
            r@ == Map::<KeyV, int>::empty(),
    {
        let r = ShellyMetrics { entries: Vec::new() };
        proof {
            assert(r@ =~= Map::<KeyV, int>::empty());
        }
        r
    }

    /// Write one gauge: last value wins, and the series persists afterwards.
    pub fn set_gauge(&mut self, u: &GaugeUpdate)
        ensures
            final(self)@ == old(self)@.insert(u@.key(), u@.value),
    {
        let n = self.entries.len();
        let mut j: usize = 0;
        while j < n
            invariant
                n == self.entries@.len(),
                j <= n,
                self.entries@ == old(self).entries@,
                forall|i: int| 0 <= i < j ==> self.entries@[i].skey() != u@.key(),
            decreases n - j,
        {
            if entry_matches(&self.entries[j], u) {
                let e = GaugeEntry {
                    family: self.entries[j].family,
                    device: self.entries[j].device.clone(),
                    switch: self.entries[j].switch.clone(),
                    value: match u {
                        GaugeUpdate::Switch { value, .. } => *value,
                        GaugeUpdate::Device { value, .. } => *value,
                    },
                };
                proof {
                    assert(e.skey() == self.entries@[j as int].skey());
                }
                self.entries.remove(j);
                self.entries.insert(j, e);
                proof {
                    assert(self.entries@ =~= old(self).entries@.update(j as int, e));
                    lemma_find_update(old(self).entries@, j as int, e, u@.key());
                    assert forall|q: KeyV| true implies find_gauge(self.entries@, q) == (if q
                        == u@.key() {
                        Some(u@.value)
                    } else {
                        find_gauge(old(self).entries@, q)
                    }) by {
                        lemma_find_update(old(self).entries@, j as int, e, q);
                    }
                    assert(self@ =~= old(self)@.insert(u@.key(), u@.value));
                }
                return ;
            }
            j = j + 1;
        }
        let e = GaugeEntry {
            family: match u {
                GaugeUpdate::Switch { family, .. } => *family,
                GaugeUpdate::Device { family, .. } => *family,
            },
            device: match u {
                GaugeUpdate::Switch { labels, .. } => labels.device.clone(),
                GaugeUpdate::Device { labels, .. } => labels.device.clone(),
            },
            switch: match u {
                GaugeUpdate::Switch { labels, .. } => Some(labels.switch.clone()),
                GaugeUpdate::Device { .. } => None,
            },
            value: match u {
                GaugeUpdate::Switch { value, .. } => *value,
                GaugeUpdate::Device { value, .. } => *value,
            },
        };
        proof {
            assert(e.skey() == u@.key());
        }
        self.entries.push(e);
        proof {
            assert forall|q: KeyV| true implies find_gauge(self.entries@, q) == (match find_gauge(
                old(self).entries@,
                q,
            ) {
                Some(v) => Some(v),
                None => if q == u@.key() {
                    Some(u@.value)
                } else {
                    None
                },
            }) by {
                lemma_find_push(old(self).entries@, e, q);
            }
            lemma_find_skip(old(self).entries@, u@.key(), old(self).entries@.len() as int);
            assert(old(self).entries@.skip(old(self).entries@.len() as int)
                =~= Seq::<GaugeEntry>::empty());
            assert(find_gauge(Seq::<GaugeEntry>::empty(), u@.key()) is None);
            assert(find_gauge(old(self).entries@, u@.key()) is None);
            assert(self@ =~= old(self)@.insert(u@.key(), u@.value));
        }
    }

    /// Read the stored value of one series, if it has ever been written.
    pub fn get(&self, family: MetricFamily, device: &str, switch: Option<&str>) -> (r: Option<
        i64,
    >)
        ensures
            ({
                let k = KeyV {
                    family,
                    device: device@,
                    switch: match switch {
                        Some(s) => Some(s@),
                        None => None,
                    },
                };
                match r {
                    Some(v) => self@.dom().contains(k) && self@[k] == v as int,
                    None => !self@.dom().contains(k),
                }
            }),
    {
        let ghost k = KeyV {
            family,
            device: device@,
            switch: match switch {
                Some(s) => Some(s@),
                None => None,
            },
        };
        let n = self.entries.len();
        let mut j: usize = 0;
        while j < n
            invariant
                n == self.entries@.len(),
                j <= n,
                k == (KeyV {
                    family,
                    device: device@,
                    switch: match switch {
                        Some(s) => Some(s@),
                        None => None,
                    },
                }),
                forall|i: int| 0 <= i < j ==> self.entries@[i].skey() != k,
            decreases n - j,
        {
            let e = &self.entries[j];
            let fam_eq = e.family == family;
            let dev_eq = str_eq(e.device.as_str(), device);
            let sw_eq = match (&e.switch, switch) {
                (None, None) => true,
                (Some(a), Some(b)) => str_eq(a.as_str(), b),
                _ => false,
            };
            if fam_eq && dev_eq && sw_eq {
                proof {
                    assert(self.entries@[j as int].skey() == k);
                    lemma_find_skip(self.entries@, k, j as int);
                    assert(self.entries@.skip(j as int)[0] == self.entries@[j as int]);
                }
                return Some(e.value);
            }
            j = j + 1;
        }
        proof {
            lemma_find_skip(self.entries@, k, n as int);
        }
        None
    }
}

/// The store that results from a list of gauge writes, applied in order.
pub open spec fn apply_updates(m: Map<KeyV, int>, us: Seq<UpdateV>) -> Map<KeyV, int>
    decreases us.len(),
{
    if us.len() == 0 {
        m
    } else {
        apply_updates(m.insert(us[0].key(), us[0].value), us.skip(1))
    }
}

proof fn lemma_apply_snoc(m: Map<KeyV, int>, us: Seq<UpdateV>, u: UpdateV)
    ensures
        apply_updates(m, us.push(u)) == apply_updates(m, us).insert(u.key(), u.value),
    decreases us.len(),
{
    if us.len() == 0 {
        assert(us.push(u)[0] == u);
        assert(us.push(u).skip(1) =~= Seq::<UpdateV>::empty());
        assert(apply_updates(m.insert(u.key(), u.value), Seq::<UpdateV>::empty()) == m.insert(
            u.key(),
            u.value,
        ));
    } else {
        assert(us.push(u)[0] == us[0]);
        assert(us.push(u).skip(1) =~= us.skip(1).push(u));
        lemma_apply_snoc(m.insert(us[0].key(), us[0].value), us.skip(1), u);
    }
}

/// The last value a list of writes stores into a series, if any write
/// touches it.
pub open spec fn last_write(us: Seq<UpdateV>, k: KeyV) -> Option<int>
    decreases us.len(),
{
    if us.len() == 0 {
        None
    } else if us.last().key() == k {
        Some(us.last().value)
    } else {
        last_write(us.drop_last(), k)
    }
}

/// Applying a list of writes stores, for each series, the last value written
/// to it, and touches no other series.
pub proof fn lemma_apply_is_last_write(m: Map<KeyV, int>, us: Seq<UpdateV>, k: KeyV)
    ensures
        apply_updates(m, us).dom().contains(k) == (m.dom().contains(k) || last_write(us, k)
            is Some),
        apply_updates(m, us).dom().contains(k) ==> apply_updates(m, us)[k] == (match last_write(
            us,
            k,
        ) {
            Some(v) => v,
            None => m[k],
        }),
    decreases us.len(),
{
    if us.len() > 0 {
        assert(us.drop_last().push(us.last()) =~= us);
        lemma_apply_snoc(m, us.drop_last(), us.last());
        lemma_apply_is_last_write(m, us.drop_last(), k);
    }
}

/// Law: applying the same list of writes twice leaves the same store as
/// applying it once — every write lands last-value-wins, nothing accumulates.
pub proof fn lemma_updates_idempotent(m: Map<KeyV, int>, us: Seq<UpdateV>)
    ensures
        apply_updates(apply_updates(m, us), us) == apply_updates(m, us),
{
    let m1 = apply_updates(m, us);
    let m2 = apply_updates(m1, us);
    assert forall|k: KeyV| #[trigger] m2.dom().contains(k) implies m1.dom().contains(k) by {
        lemma_apply_is_last_write(m, us, k);
        lemma_apply_is_last_write(m1, us, k);
    }
    assert forall|k: KeyV| #[trigger] m1.dom().contains(k) implies m2.dom().contains(k) && m2[k]
        == m1[k] by {
        lemma_apply_is_last_write(m, us, k);
        lemma_apply_is_last_write(m1, us, k);
    }
    assert(m2.dom() =~= m1.dom());
    assert(m2 =~= m1);
}

/// Law: applying the same message twice yields the same gauge values as
/// applying it once.
pub proof fn lemma_message_idempotent(m: Map<KeyV, int>, msg: MessageV, topic: Option<Seq<char>>)
    ensures
        apply_updates(apply_updates(m, updates_of(msg, topic)), updates_of(msg, topic))
            == apply_updates(m, updates_of(msg, topic)),
{
    lemma_updates_idempotent(m, updates_of(msg, topic));
}

proof fn lemma_last_write_none(us: Seq<UpdateV>, k: KeyV)
    requires
        forall|i: int| 0 <= i < us.len() ==> (#[trigger] us[i]).key() != k,
    ensures
        last_write(us, k) is None,
    decreases us.len(),
{
    if us.len() > 0 {
        lemma_last_write_none(us.drop_last(), k);
    }
}

proof fn lemma_last_write_value(us: Seq<UpdateV>, k: KeyV, v: int)
    requires
        exists|i: int| 0 <= i < us.len() && (#[trigger] us[i]).key() == k,
        forall|i: int| 0 <= i < us.len() && (#[trigger] us[i]).key() == k ==> us[i].value == v,
    ensures
        last_write(us, k) == Some(v),
    decreases us.len(),
{
    if us.last().key() == k {
    } else {
        let j = choose|i: int| 0 <= i < us.len() && (#[trigger] us[i]).key() == k;
        assert(us.drop_last()[j] == us[j]);
        lemma_last_write_value(us.drop_last(), k, v);
    }
}

/// Law: a message whose switch section has `apower` absent and `voltage`
/// present updates the voltage series of that label set and leaves the power
/// series exactly as it was.
pub proof fn lemma_field_absence(m: Map<KeyV, int>, msg: MessageV, topic: Option<Seq<char>>)
    requires
        msg.params.switch is Some,
        msg.params.switch.unwrap().apower is None,
        msg.params.switch.unwrap().voltage is Some,
    ensures
        ({
            let dev = resolved_device(topic, msg.src);
            let sw = msg.params.switch.unwrap();
            let lbl = dec_rep(sw.id as nat);
            let after = apply_updates(m, updates_of(msg, topic));
            let vkey = KeyV { family: MetricFamily::Voltage, device: dev, switch: Some(lbl) };
            let pkey = KeyV { family: MetricFamily::Power, device: dev, switch: Some(lbl) };
            &&& after.dom().contains(vkey)
            &&& after[vkey] == gauge_of(sw.voltage.unwrap(), 1)
            &&& after.dom().contains(pkey) == m.dom().contains(pkey)
            &&& m.dom().contains(pkey) ==> after[pkey] == m[pkey]
        }),
{
    let dev = resolved_device(topic, msg.src);
    let sw = msg.params.switch.unwrap();
    let lbl = dec_rep(sw.id as nat);
    let us = updates_of(msg, topic);
    let vkey = KeyV { family: MetricFamily::Voltage, device: dev, switch: Some(lbl) };
    let pkey = KeyV { family: MetricFamily::Power, device: dev, switch: Some(lbl) };
    assert forall|i: int| 0 <= i < us.len() implies (#[trigger] us[i]).key() != pkey by {
        assert(us[i].family != MetricFamily::Power);
    }
    lemma_last_write_none(us, pkey);
    let sws = switch_updates(dev, sw);
    assert(sws[0] == UpdateV {
        family: MetricFamily::Voltage,
        device: dev,
        switch: Some(lbl),
        value: gauge_of(sw.voltage.unwrap(), 1),
    });
    assert(us[0] == sws[0]);
    assert(us[0].key() == vkey);
    assert forall|i: int| 0 <= i < us.len() && (#[trigger] us[i]).key() == vkey implies us[i].value
        == gauge_of(sw.voltage.unwrap(), 1) by {
        if i != 0 {
            assert(us[i].family != MetricFamily::Voltage);
        }
    }
    lemma_last_write_value(us, vkey, gauge_of(sw.voltage.unwrap(), 1));
    lemma_apply_is_last_write(m, us, vkey);
    lemma_apply_is_last_write(m, us, pkey);
}

impl ShellyMetrics {
    /// Apply every row of one decoded notification to the store, and hand the
    /// computed writes back so an outside sink can mirror them.
    pub fn update_from_message(&mut self, msg: &ShellyMessage, topic: Option<&str>) -> (v: Vec<
        GaugeUpdate,
    >)
        ensures
            final(self)@ == apply_updates(
                old(self)@,
                updates_of(
                    msg@,
                    match topic {
                        Some(t) => Some(t@),
                        None => None,
                    },
                ),
            ),
            updates_view(v@) == updates_of(
                msg@,
                match topic {
                    Some(t) => Some(t@),
                    None => None,
                },
            ),
    {
        let updates = updates_for(msg, topic);
        let ghost us = updates_view(updates@);
        let n = updates.len();
        let mut i: usize = 0;
        proof {
            assert(us.take(0) =~= Seq::<UpdateV>::empty());
        }
        while i < n
            invariant
                n == updates@.len(),
                i <= n,
                us == updates_view(updates@),
                self@ == apply_updates(old(self)@, us.take(i as int)),
            decreases n - i,
        {
            self.set_gauge(&updates[i]);
            proof {
                assert(us.take(i + 1) =~= us.take(i as int).push(us[i as int]));
                lemma_apply_snoc(old(self)@, us.take(i as int), us[i as int]);
            }
            i = i + 1;
        }
        proof {
            assert(us.take(n as int) =~= us);
        }
        updates
    }

    /// Write the instantaneous-power gauge of one circuit, in watts.
    pub fn update_power(&mut self, device: &str, switch: &str, watts: &Decimal)
        ensures
            final(self)@ == old(self)@.insert(
                KeyV {
                    family: MetricFamily::Power,
                    device: device@,
                    switch: Some(switch@),
                },
                gauge_of(*watts, 0),
            ),
    {
        let value = scale_trunc(watts, 0);
        let u = GaugeUpdate::Switch {
            family: MetricFamily::Power,
            labels: DeviceLabels { device: device.to_owned(), switch: switch.to_owned() },
            value,
        };
        self.set_gauge(&u);
    }

    /// Write the line-voltage gauge of one circuit, in deci-volts.
    pub fn update_voltage(&mut self, device: &str, switch: &str, volts: &Decimal)
        ensures
            final(self)@ == old(self)@.insert(
                KeyV {
                    family: MetricFamily::Voltage,
                    device: device@,
                    switch: Some(switch@),
                },
                gauge_of(*volts, 1),
            ),
    {
        let value = scale_trunc(volts, 1);
        let u = GaugeUpdate::Switch {
            family: MetricFamily::Voltage,
            labels: DeviceLabels { device: device.to_owned(), switch: switch.to_owned() },
            value,
        };
        self.set_gauge(&u);
    }

    /// Write the current-draw gauge of one circuit, in milli-amps.
    pub fn update_current(&mut self, device: &str, switch: &str, amps: &Decimal)
        ensures
            final(self)@ == old(self)@.insert(
                KeyV {
                    family: MetricFamily::Current,
                    device: device@,
                    switch: Some(switch@),
                },
                gauge_of(*amps, 3),
            ),
    {
        let value = scale_trunc(amps, 3);
        let u = GaugeUpdate::Switch {
            family: MetricFamily::Current,
            labels: DeviceLabels { device: device.to_owned(), switch: switch.to_owned() },
            value,
        };
        self.set_gauge(&u);
    }

    /// Write the cumulative-energy gauge of one circuit, in deci-watt-hours.
    pub fn update_energy(&mut self, device: &str, switch: &str, wh: &Decimal)
        ensures
            final(self)@ == old(self)@.insert(
                KeyV {
                    family: MetricFamily::EnergyTotal,
                    device: device@,
                    switch: Some(switch@),
                },
                gauge_of(*wh, 1),
            ),
    {
        let value = scale_trunc(wh, 1);
        let u = GaugeUpdate::Switch {
            family: MetricFamily::EnergyTotal,
            labels: DeviceLabels { device: device.to_owned(), switch: switch.to_owned() },
            value,
        };
        self.set_gauge(&u);
    }
}

proof fn lemma_find_skip(entries: Seq<GaugeEntry>, k: KeyV, j: int)
    requires
        0 <= j <= entries.len(),
        forall|i: int| 0 <= i < j ==> entries[i].skey() != k,
    ensures
        find_gauge(entries, k) == find_gauge(entries.skip(j), k),
    decreases j,
{
    if j > 0 {
        lemma_find_skip(entries.skip(1), k, j - 1);
        assert(entries.skip(1).skip(j - 1) =~= entries.skip(j));
    } else {
        assert(entries.skip(0) =~= entries);
    }
}

} // verus!
