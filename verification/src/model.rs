//! Channel routing and message handling.
//!
//! The model owns the configuration, the history series and a routing table
//! from fully-qualified channel names to channel kinds. A decoded payload
//! arrives together with its channel name; the matching handler extracts the
//! relevant scalars or tables, commits scalars into the history series and
//! returns the display fields to update. Unmatched channel names are
//! silently ignored.
use vstd::prelude::*;
use vstd::string::StringExecFns;
use crate::Config;
use crate::history::DataBase;
use crate::forecast::KpForecastPoint;
use crate::forecast::StormForecastPoint;
use crate::forecast::kp_fold;
use crate::forecast::kp_windows_init;
use crate::forecast::storm_fold;
use crate::forecast::storm_windows_init;
use crate::forecast::flux_of_level;
use crate::forecast::extract_kp_forecast;
use crate::forecast::extract_srs_rb_forecast;
use crate::datetime::convert_datetime;
use crate::datetime::hour_label;
use crate::datetime::shifted_hour;
use crate::datetime::ts_hour;
use crate::datetime::timestamp_well_formed;

verus! {

/// A data-contract violation that the model propagates instead of handling.
#[derive(PartialEq, Eq, Structural, Clone, Copy, Debug)]
pub enum ModelError {
    MalformedTimestamp,
}

/// The channel kinds the model understands.
#[derive(PartialEq, Eq, Structural, Clone, Copy, Debug)]
pub enum Channel {
    IndoorTRh,
    IndoorCo2,
    SpaceWeatherKp,
    SpaceWeatherKpInst,
    SpaceWeatherFlux,
    SpaceWeatherForecast,
}

/// One instantaneous Kp reading: a `HH:MM DD-MM-YYYY` timestamp and the Kp
/// value in the caller's fixed-point scale.
#[derive(PartialEq, Eq, Debug)]
pub struct KpInstantReading {
    pub time_tag: String,
    pub kp: i32,
}

/// A decoded payload, already reduced to plain values, tagged by the channel
/// kind it belongs to.
pub enum Payload {
    TemperatureHumidity { temperature: i32, rh: i32 },
    Co2 { co2: i32 },
    KpSeries(Vec<KpInstantReading>),
    KpInstant(KpInstantReading),
    Flux { flux_gt10mev: i64 },
    Forecast { kp: Vec<KpForecastPoint>, srs: Vec<StormForecastPoint>, rb: Vec<StormForecastPoint> },
}

/// One point of the Kp chart handed to the display: an hour label and the
/// Kp value in the caller's fixed-point scale.
#[derive(PartialEq, Eq, Debug)]
pub struct KpIndexUi {
    pub hour: String,
    pub kp: i32,
}

/// One display field to update, as plain data pulled by the rendering
/// collaborator.
#[derive(PartialEq, Eq, Debug)]
pub enum UiUpdate {
    IndoorT(i32),
    IndoorRh(i32),
    IndoorCo2(i32),
    SolarRadiationNow(i64),
    KpForecast3h(i32),
    KpForecast24h(i32),
    SolarRadiationForecast3h(u32),
    SolarRadiationForecast24h(u32),
    KpIndexData(Vec<KpIndexUi>),
    KpIndexInstant(KpIndexUi),
}

/// The reference instant a notification is handled at: today's date rendered
/// as in the forecast tables, the hour of day, and milliseconds of host time
/// for the history commit gate.
pub struct NowInstant {
    pub date: String,
    pub hour: u32,
    pub millis: u64,
}

/// The fully-qualified channel name built from the naming template:
/// `base + "/" + controller + "_" + name + "/state"`.
pub open spec fn full_topic(name: Seq<char>, base: Seq<char>, controller: Seq<char>) -> Seq<char> {
    base + "/"@ + controller + "_"@ + name + "/state"@
}

/// Apply the naming template to a short sensor name.
pub fn make_full_topic(sensor_name: &str, config: &Config) -> (r: String)
    ensures
        r@ == full_topic(sensor_name@, config.mqtt_base_topic@, config.mqtt_controller_name@),
{
    let r = config.mqtt_base_topic.clone().concat("/").concat(
        config.mqtt_controller_name.as_str(),
    ).concat("_").concat(sensor_name).concat("/state");
    proof {
        assert(r@ =~= full_topic(
            sensor_name@,
            config.mqtt_base_topic@,
            config.mqtt_controller_name@,
        ));
    }
    r
}

/// The channel kind the routing table assigns to a name: that of the first
/// entry whose name matches, if any.
pub open spec fn route_of(routes: Seq<(String, Channel)>, topic: Seq<char>) -> Option<Channel>
    decreases routes.len(),
{
    if routes.len() == 0 {
        None
    } else if routes[0].0@ == topic {
        Some(routes[0].1)
    } else {
        route_of(routes.drop_first(), topic)
    }
}

/// Aggregation state and routing table; handles inbound notifications.
pub struct Model {
    pub config: Config,
    pub db: DataBase,
    pub data_view_map: Vec<(String, Channel)>,
}

impl Model {
    pub open spec fn well_formed(&self) -> bool {
        self.db.well_formed()
    }

    pub fn new(config: Config, db: DataBase) -> (r: Self)
        ensures
            r.config == config,
            r.db == db,
            r.data_view_map@ == Seq::<(String, Channel)>::empty(),
    {
        Model { config, db, data_view_map: Vec::new() }
    }

    /// Register channels: each (short name, kind) pair is entered under its
    /// fully-qualified name built from the naming template. Existing entries
    /// stay; new entries are appended in the given order.
    pub fn add_map(&mut self, map: &Vec<(String, Channel)>)
        ensures
            final(self).config == old(self).config,
            final(self).db == old(self).db,
            final(self).data_view_map@.len() == old(self).data_view_map@.len() + map@.len(),
            forall|i: int|
                0 <= i < old(self).data_view_map@.len() ==> final(self).data_view_map@[i] == old(
                    self,
                ).data_view_map@[i],
            forall|i: int|
                0 <= i < map@.len() ==> {
                    let entry = final(self).data_view_map@[old(self).data_view_map@.len() + i];
                    entry.0@ == full_topic(
                        (#[trigger] map@[i]).0@,
                        old(self).config.mqtt_base_topic@,
                        old(self).config.mqtt_controller_name@,
                    ) && entry.1 == map@[i].1
                },
    {
        let mut j: usize = 0;
        while j < map.len()
            invariant
                j <= map@.len(),
                self.config == old(self).config,
                self.db == old(self).db,
                self.data_view_map@.len() == old(self).data_view_map@.len() + j,
                forall|i: int|
                    0 <= i < old(self).data_view_map@.len() ==> self.data_view_map@[i] == old(
                        self,
                    ).data_view_map@[i],
                forall|i: int|
                    0 <= i < j ==> {
                        let entry = self.data_view_map@[old(self).data_view_map@.len() + i];
                        entry.0@ == full_topic(
                            (#[trigger] map@[i]).0@,
                            old(self).config.mqtt_base_topic@,
                            old(self).config.mqtt_controller_name@,
                        ) && entry.1 == map@[i].1
                    },
            decreases map@.len() - j,
        {
            let name = map[j].0.as_str();
            let channel = map[j].1;
            let topic = make_full_topic(name, &self.config);
            self.data_view_map.push((topic, channel));
            j = j + 1;
        }
    }

    /// The channel kind registered for a fully-qualified name, if any.
    pub fn lookup(&self, topic: &String) -> (r: Option<Channel>)
        ensures
            r == route_of(self.data_view_map@, topic@),
    {
        let mut i: usize = 0;
        proof {
            assert(self.data_view_map@.skip(0) =~= self.data_view_map@);
        }
        while i < self.data_view_map.len()
            invariant
                i <= self.data_view_map@.len(),
                route_of(self.data_view_map@.skip(i as int), topic@) == route_of(
                    self.data_view_map@,
                    topic@,
                ),
            decreases self.data_view_map@.len() - i,
        {
            proof {
                assert(self.data_view_map@.skip(i as int)[0] == self.data_view_map@[i as int]);
                assert(self.data_view_map@.skip(i as int).drop_first() =~= self.data_view_map@.skip(
                    i as int + 1,
                ));
            }
            if self.data_view_map[i].0 == *topic {
                return Some(self.data_view_map[i].1);
            }
            i = i + 1;
        }
        None
    }

    /// Handle an indoor temperature and humidity reading: commit both into
    /// their history series and report both display fields.
    pub fn indoor_t_rh_callback(&mut self, temperature: i32, rh: i32, now_ms: u64) -> (updates:
        Vec<UiUpdate>)
        requires
            old(self).well_formed(),
        ensures
            final(self).well_formed(),
            final(self).config == old(self).config,
            final(self).data_view_map@ == old(self).data_view_map@,
            final(self).db.indoor_t_history@ == old(self).db.indoor_t_history@.after_insert(
                temperature,
                now_ms as int,
            ),
            final(self).db.indoor_rh_history@ == old(self).db.indoor_rh_history@.after_insert(
                rh,
                now_ms as int,
            ),
            final(self).db.indoor_co2_history == old(self).db.indoor_co2_history,
            updates@ =~= seq![UiUpdate::IndoorT(temperature), UiUpdate::IndoorRh(rh)],
    {
        self.db.indoor_t_history.insert(temperature, now_ms);
        self.db.indoor_rh_history.insert(rh, now_ms);
        let mut updates: Vec<UiUpdate> = Vec::new();
        updates.push(UiUpdate::IndoorT(temperature));
        updates.push(UiUpdate::IndoorRh(rh));
        updates
    }

    /// Handle an indoor carbon-dioxide reading: commit it into its history
    /// series and report the display field.
    pub fn indoor_co2_callback(&mut self, co2: i32, now_ms: u64) -> (updates: Vec<UiUpdate>)
        requires
            old(self).well_formed(),
        ensures
            final(self).well_formed(),
            final(self).config == old(self).config,
            final(self).data_view_map@ == old(self).data_view_map@,
            final(self).db.indoor_co2_history@ == old(self).db.indoor_co2_history@.after_insert(
                co2,
                now_ms as int,
            ),
            final(self).db.indoor_t_history == old(self).db.indoor_t_history,
            final(self).db.indoor_rh_history == old(self).db.indoor_rh_history,
            updates@ =~= seq![UiUpdate::IndoorCo2(co2)],
    {
        self.db.indoor_co2_history.insert(co2, now_ms);
        let mut updates: Vec<UiUpdate> = Vec::new();
        updates.push(UiUpdate::IndoorCo2(co2));
        updates
    }

    /// Handle a Kp index series: each reading's timestamp becomes an hour
    /// label in the configured timezone; a malformed timestamp is a
    /// data-contract violation and is propagated.
    pub fn space_weather_kp_callback(&self, data: &Vec<KpInstantReading>) -> (r: Result<
        Vec<UiUpdate>,
        ModelError,
    >)
        ensures
            r.is_ok() <==> (forall|i: int|
                0 <= i < data@.len() ==> timestamp_well_formed(
                    (#[trigger] data@[i]).time_tag@,
                )),
            r matches Ok(updates) ==> updates@.len() == 1 && (updates@[0] matches
                UiUpdate::KpIndexData(items) && kp_chart_matches(
                items@,
                data@,
                self.config.timezone_offset_h as int,
            )),
            r is Err ==> r == Err::<Vec<UiUpdate>, ModelError>(ModelError::MalformedTimestamp),
    {
        let mut items: Vec<KpIndexUi> = Vec::new();
        let mut i: usize = 0;
        while i < data.len()
            invariant
                i <= data@.len(),
                items@.len() == i,
                forall|j: int|
                    0 <= j < i ==> timestamp_well_formed((#[trigger] data@[j]).time_tag@),
                kp_chart_matches(
                    items@,
                    data@.take(i as int),
                    self.config.timezone_offset_h as int,
                ),
            decreases data@.len() - i,
        {
            match convert_datetime(data[i].time_tag.as_str(), self.config.timezone_offset_h) {
                Some(label) => {
                    items.push(KpIndexUi { hour: label, kp: data[i].kp });
                },
                None => {
                    return Err(ModelError::MalformedTimestamp);
                },
            }
            proof {
                assert(data@.take(i as int + 1).drop_last() =~= data@.take(i as int));
                assert(data@.take(i as int + 1).last() == data@[i as int]);
            }
            i = i + 1;
        }
        proof {
            assert(data@.take(data@.len() as int) =~= data@);
        }
        let mut updates: Vec<UiUpdate> = Vec::new();
        updates.push(UiUpdate::KpIndexData(items));
        Ok(updates)
    }

    /// Handle an instantaneous Kp reading: its timestamp becomes an hour
    /// label in the configured timezone; a malformed timestamp is a
    /// data-contract violation and is propagated.
    pub fn space_weather_kp_inst_callback(&self, reading: &KpInstantReading) -> (r: Result<
        Vec<UiUpdate>,
        ModelError,
    >)
        ensures
            r.is_ok() <==> timestamp_well_formed(reading.time_tag@),
            r matches Ok(updates) ==> updates@.len() == 1 && (updates@[0] matches
                UiUpdate::KpIndexInstant(item) && item.kp == reading.kp && item.hour@ == hour_label(
                shifted_hour(ts_hour(reading.time_tag@), self.config.timezone_offset_h as int),
            )),
            r is Err ==> r == Err::<Vec<UiUpdate>, ModelError>(ModelError::MalformedTimestamp),
    {
        match convert_datetime(reading.time_tag.as_str(), self.config.timezone_offset_h) {
            Some(label) => {
                let mut updates: Vec<UiUpdate> = Vec::new();
                updates.push(UiUpdate::KpIndexInstant(KpIndexUi { hour: label, kp: reading.kp }));
                Ok(updates)
            },
            None => Err(ModelError::MalformedTimestamp),
        }
    }

    /// Handle the current solar radiation flux reading: report it unchanged.
    pub fn space_weather_flux_callback(&self, flux_gt10mev: i64) -> (updates: Vec<UiUpdate>)
        ensures
            updates@ =~= seq![UiUpdate::SolarRadiationNow(flux_gt10mev)],
    {
        let mut updates: Vec<UiUpdate> = Vec::new();
        updates.push(UiUpdate::SolarRadiationNow(flux_gt10mev));
        updates
    }

    /// Handle a space-weather forecast: aggregate the Kp table into its
    /// near-term and one-day windows and the solar-radiation-storm table into
    /// its one-day window (currently standing in for the near-term field as
    /// well). The radiation-belt windows are computed against their own
    /// threshold and returned for diagnostics only.
    pub fn space_weather_forecast_callback(
        &self,
        kp: &Vec<KpForecastPoint>,
        srs: &Vec<StormForecastPoint>,
        rb: &Vec<StormForecastPoint>,
        now: &NowInstant,
    ) -> (r: (Vec<UiUpdate>, (u32, u32)))
        ensures
            ({
                let w = kp_fold(kp_windows_init(), kp@, now.date@, now.hour as int);
                let s = storm_fold(
                    storm_windows_init(),
                    srs@,
                    now.date@,
                    self.config.srs_min_prob_thrh,
                );
                let b = storm_fold(
                    storm_windows_init(),
                    rb@,
                    now.date@,
                    self.config.rb_min_prob_thrh,
                );
                &&& r.0@ =~= seq![
                    UiUpdate::KpForecast3h(w.kp_3h),
                    UiUpdate::KpForecast24h(w.kp_1d),
                    UiUpdate::SolarRadiationForecast3h(flux_of_level(s.level_1d)),
                    UiUpdate::SolarRadiationForecast24h(flux_of_level(s.level_1d)),
                ]
                &&& r.1 == (flux_of_level(b.level_1d), flux_of_level(b.level_3d))
            }),
    {
        let (kpf_3h, kpf_1d, _kpf_3d) = extract_kp_forecast(kp, &now.date, now.hour);
        let (srs_1d, _srs_3d) = extract_srs_rb_forecast(srs, &now.date, self.config.srs_min_prob_thrh);
        let (rb_1d, rb_3d) = extract_srs_rb_forecast(rb, &now.date, self.config.rb_min_prob_thrh);
        let mut updates: Vec<UiUpdate> = Vec::new();
        updates.push(UiUpdate::KpForecast3h(kpf_3h));
        updates.push(UiUpdate::KpForecast24h(kpf_1d));
        updates.push(UiUpdate::SolarRadiationForecast3h(srs_1d));
        updates.push(UiUpdate::SolarRadiationForecast24h(srs_1d));
        (updates, (rb_1d, rb_3d))
    }

    /// Dispatch one notification: look the channel name up in the routing
    /// table and hand the payload to the matching handler. An unregistered
    /// name, or a payload whose shape does not belong to the channel, is a
    /// no-op, never an error.
    pub fn on_notification(&mut self, topic: &String, payload: Payload, now: &NowInstant) -> (r:
        Result<Vec<UiUpdate>, ModelError>)
        requires
            old(self).well_formed(),
        ensures
            final(self).well_formed(),
            final(self).config == old(self).config,
            final(self).data_view_map@ == old(self).data_view_map@,
            ({
                let route = route_of(old(self).data_view_map@, topic@);
                &&& (route is None ==> *final(self) == *old(self) && no_updates(r))
                &&& (route == Some(Channel::IndoorTRh) ==> (match payload {
                    Payload::TemperatureHumidity { temperature, rh } => {
                        &&& final(self).db.indoor_t_history@ == old(
                            self,
                        ).db.indoor_t_history@.after_insert(temperature, now.millis as int)
                        &&& final(self).db.indoor_rh_history@ == old(
                            self,
                        ).db.indoor_rh_history@.after_insert(rh, now.millis as int)
                        &&& final(self).db.indoor_co2_history == old(self).db.indoor_co2_history
                        &&& (r matches Ok(u) && u@ =~= seq![
                            UiUpdate::IndoorT(temperature),
                            UiUpdate::IndoorRh(rh),
                        ])
                    },
                    _ => *final(self) == *old(self) && no_updates(r),
                }))
                &&& (route == Some(Channel::IndoorCo2) ==> (match payload {
                    Payload::Co2 { co2 } => {
                        &&& final(self).db.indoor_co2_history@ == old(
                            self,
                        ).db.indoor_co2_history@.after_insert(co2, now.millis as int)
                        &&& final(self).db.indoor_t_history == old(self).db.indoor_t_history
                        &&& final(self).db.indoor_rh_history == old(self).db.indoor_rh_history
                        &&& (r matches Ok(u) && u@ =~= seq![UiUpdate::IndoorCo2(co2)])
                    },
                    _ => *final(self) == *old(self) && no_updates(r),
                }))
                &&& (route == Some(Channel::SpaceWeatherKp) ==> *final(self) == *old(self) && (
                match payload {
                    Payload::KpSeries(data) => {
                        &&& r.is_ok() <==> (forall|i: int|
                            0 <= i < data@.len() ==> timestamp_well_formed(
                                (#[trigger] data@[i]).time_tag@,
                            ))
                        &&& (r matches Ok(updates) ==> updates@.len() == 1 && (updates@[0] matches
                        UiUpdate::KpIndexData(items) && kp_chart_matches(
                            items@,
                            data@,
                            old(self).config.timezone_offset_h as int,
                        )))
                    },
                    _ => no_updates(r),
                }))
                &&& (route == Some(Channel::SpaceWeatherKpInst) ==> *final(self) == *old(self) && (
                match payload {
                    Payload::KpInstant(reading) => {
                        &&& r.is_ok() <==> timestamp_well_formed(reading.time_tag@)
                        &&& (r matches Ok(updates) ==> updates@.len() == 1 && (updates@[0] matches
                        UiUpdate::KpIndexInstant(item) && item.kp == reading.kp && item.hour@
                            == hour_label(
                            shifted_hour(
                                ts_hour(reading.time_tag@),
                                old(self).config.timezone_offset_h as int,
                            ),
                        )))
                    },
                    _ => no_updates(r),
                }))
                &&& (route == Some(Channel::SpaceWeatherFlux) ==> *final(self) == *old(self) && (
                match payload {
                    Payload::Flux { flux_gt10mev } => r matches Ok(u) && u@ =~= seq![
                        UiUpdate::SolarRadiationNow(flux_gt10mev),
                    ],
                    _ => no_updates(r),
                }))
                &&& (route == Some(Channel::SpaceWeatherForecast) ==> *final(self) == *old(self)
                    && (match payload {
                    Payload::Forecast { kp, srs, rb } => {
                        let w = kp_fold(kp_windows_init(), kp@, now.date@, now.hour as int);
                        let s = storm_fold(
                            storm_windows_init(),
                            srs@,
                            now.date@,
                            old(self).config.srs_min_prob_thrh,
                        );
                        r matches Ok(u) && u@ =~= seq![
                            UiUpdate::KpForecast3h(w.kp_3h),
                            UiUpdate::KpForecast24h(w.kp_1d),
                            UiUpdate::SolarRadiationForecast3h(flux_of_level(s.level_1d)),
                            UiUpdate::SolarRadiationForecast24h(flux_of_level(s.level_1d)),
                        ]
                    },
                    _ => no_updates(r),
                }))
            }),
    {
        let route = self.lookup(topic);
        match route {
            None => Ok(Vec::new()),
            Some(Channel::IndoorTRh) => match payload {
                Payload::TemperatureHumidity { temperature, rh } => Ok(
                    self.indoor_t_rh_callback(temperature, rh, now.millis),
                ),
                _ => Ok(Vec::new()),
            },
            Some(Channel::IndoorCo2) => match payload {
                Payload::Co2 { co2 } => Ok(self.indoor_co2_callback(co2, now.millis)),
                _ => Ok(Vec::new()),
            },
            Some(Channel::SpaceWeatherKp) => match payload {
                Payload::KpSeries(data) => self.space_weather_kp_callback(&data),
                _ => Ok(Vec::new()),
            },
            Some(Channel::SpaceWeatherKpInst) => match payload {
                Payload::KpInstant(reading) => self.space_weather_kp_inst_callback(&reading),
                _ => Ok(Vec::new()),
            },
            Some(Channel::SpaceWeatherFlux) => match payload {
                Payload::Flux { flux_gt10mev } => Ok(self.space_weather_flux_callback(flux_gt10mev)),
                _ => Ok(Vec::new()),
            },
            Some(Channel::SpaceWeatherForecast) => match payload {
                Payload::Forecast { kp, srs, rb } => Ok(
                    self.space_weather_forecast_callback(&kp, &srs, &rb, now).0,
                ),
                _ => Ok(Vec::new()),
            },
        }
    }
}

/// An empty, successful result: nothing updated, nothing failed.
pub open spec fn no_updates(r: Result<Vec<UiUpdate>, ModelError>) -> bool {
    r matches Ok(u) && u@ =~= Seq::<UiUpdate>::empty()
}

/// The chart items mirror the readings one for one: same Kp value, and the
/// hour label rendered from the reading's timestamp shifted by the timezone
/// offset.
pub open spec fn kp_chart_matches(
    items: Seq<KpIndexUi>,
    data: Seq<KpInstantReading>,
    offset: int,
) -> bool {
    &&& items.len() == data.len()
    &&& forall|i: int|
        0 <= i < data.len() ==> {
            &&& (#[trigger] items[i]).kp == data[i].kp
            &&& items[i].hour@ == hour_label(shifted_hour(ts_hour(data[i].time_tag@), offset))
        }
}

/// The reference instant of the host clock, for handling a notification.
///
/// Relies on chrono's `Utc::now` for the current instant; `format` with the
/// `%b %d %Y` pattern renders the calendar date the way the forecast tables
/// key it; `Timelike::hour` returns the hour number from 0 to 23; and
/// `timestamp_millis` counts milliseconds since the Unix epoch (clamped here
/// to zero for a pre-epoch host clock).
#[verifier::external_body]
pub fn now_instant() -> (r: NowInstant)
    ensures
        r.hour <= 23,
{
    let now = chrono::Utc::now();
    let ms = now.timestamp_millis();
    NowInstant {
        date: now.format("%b %d %Y").to_string(),
        hour: chrono::Timelike::hour(&now),
        millis: if ms < 0 {
            0
        } else {
            ms as u64
        },
    }
}

} // verus!
