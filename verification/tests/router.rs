use meteo_core::forecast::{KpForecastPoint, StormForecastPoint};
use meteo_core::history::DataBase;
use meteo_core::model::{
    now_instant, Channel, KpInstantReading, Model, ModelError, NowInstant, Payload, UiUpdate,
};
use meteo_core::Config;

fn test_config(base_topic: &str, controller: &str) -> Config {
    Config {
        mqtt_host: "localhost".to_string(),
        mqtt_port: 1883,
        mqtt_keep_alive: 5,
        mqtt_base_topic: base_topic.to_string(),
        mqtt_controller_name: controller.to_string(),
        timezone_offset_h: 3,
        srs_min_prob_thrh: 50,
        rb_min_prob_thrh: 50,
        video_url: String::new(),
        video_max_rate: 10,
        history_n_elements: 4,
        history_interval_s: 1,
    }
}

fn test_model(base_topic: &str, controller: &str) -> Model {
    let config = test_config(base_topic, controller);
    let db = DataBase::new(&config, 0);
    let mut model = Model::new(config, db);
    model.add_map(&vec![
        ("htu21d".to_string(), Channel::IndoorTRh),
        ("mhz19".to_string(), Channel::IndoorCo2),
        ("noaa_kp".to_string(), Channel::SpaceWeatherKp),
        ("noaa_kp_inst".to_string(), Channel::SpaceWeatherKpInst),
        ("noaa_flux".to_string(), Channel::SpaceWeatherFlux),
        ("noaa_sw_forecast".to_string(), Channel::SpaceWeatherForecast),
    ]);
    model
}

fn at(millis: u64) -> NowInstant {
    NowInstant { date: "Jun 10 2024".to_string(), hour: 13, millis }
}

#[test]
fn full_topics_follow_the_naming_template() {
    let config = test_config("P", "D");
    let db = DataBase::new(&config, 0);
    let mut model = Model::new(config, db);
    model.add_map(&vec![
        ("a".to_string(), Channel::IndoorTRh),
        ("b".to_string(), Channel::IndoorCo2),
    ]);
    assert_eq!(model.data_view_map.len(), 2);
    assert_eq!(model.data_view_map[0].0, "P/D_a/state");
    assert_eq!(model.data_view_map[0].1, Channel::IndoorTRh);
    assert_eq!(model.data_view_map[1].0, "P/D_b/state");
    assert_eq!(model.data_view_map[1].1, Channel::IndoorCo2);
}

#[test]
fn lookup_finds_registered_channels_only() {
    let model = test_model("homeassistant/sensor", "cubieboard");
    assert_eq!(
        model.lookup(&"homeassistant/sensor/cubieboard_htu21d/state".to_string()),
        Some(Channel::IndoorTRh)
    );
    assert_eq!(
        model.lookup(&"homeassistant/sensor/cubieboard_mhz19/state".to_string()),
        Some(Channel::IndoorCo2)
    );
    assert_eq!(model.lookup(&"somewhere/else".to_string()), None);
}

#[test]
fn unmatched_channel_is_a_no_op() {
    let mut model = test_model("P", "D");
    let before_t = model.db.indoor_t_history.get_history();
    let before_co2 = model.db.indoor_co2_history.get_history();
    let r = model.on_notification(
        &"P/D_unknown/state".to_string(),
        Payload::Co2 { co2: 999 },
        &at(10_000),
    );
    assert_eq!(r, Ok(vec![]));
    assert_eq!(model.db.indoor_t_history.get_history(), before_t);
    assert_eq!(model.db.indoor_co2_history.get_history(), before_co2);
}

#[test]
fn mismatched_payload_shape_is_a_no_op() {
    let mut model = test_model("P", "D");
    let r = model.on_notification(
        &"P/D_htu21d/state".to_string(),
        Payload::Co2 { co2: 42 },
        &at(10_000),
    );
    assert_eq!(r, Ok(vec![]));
    assert_eq!(model.db.indoor_t_history.get_history(), vec![0, 0, 0, 0]);
}

#[test]
fn temperature_humidity_notification_updates_and_commits() {
    let mut model = test_model("P", "D");
    let r = model
        .on_notification(
            &"P/D_htu21d/state".to_string(),
            Payload::TemperatureHumidity { temperature: 21, rh: 55 },
            &at(10_000),
        )
        .unwrap();
    assert_eq!(r.len(), 2);
    assert!(matches!(r[0], UiUpdate::IndoorT(21)));
    assert!(matches!(r[1], UiUpdate::IndoorRh(55)));
    // 10 s elapsed at a 1 s interval: both readings committed.
    assert_eq!(model.db.indoor_t_history.get_history(), vec![0, 0, 21, 21]);
    assert_eq!(model.db.indoor_rh_history.get_history(), vec![0, 0, 55, 55]);
    assert_eq!(model.db.indoor_co2_history.get_history(), vec![0, 0, 0, 0]);
}

#[test]
fn co2_notification_updates_and_commits() {
    let mut model = test_model("P", "D");
    let r = model
        .on_notification(&"P/D_mhz19/state".to_string(), Payload::Co2 { co2: 640 }, &at(2_000))
        .unwrap();
    assert_eq!(r.len(), 1);
    assert!(matches!(r[0], UiUpdate::IndoorCo2(640)));
    assert_eq!(model.db.indoor_co2_history.get_history(), vec![0, 0, 640, 640]);
}

#[test]
fn flux_notification_passes_the_reading_through() {
    let mut model = test_model("P", "D");
    let r = model
        .on_notification(
            &"P/D_noaa_flux/state".to_string(),
            Payload::Flux { flux_gt10mev: 3500 },
            &at(0),
        )
        .unwrap();
    assert_eq!(r.len(), 1);
    assert!(matches!(r[0], UiUpdate::SolarRadiationNow(3500)));
}

#[test]
fn kp_series_notification_renders_hour_labels() {
    let mut model = test_model("P", "D");
    let data = vec![
        KpInstantReading { time_tag: "13:45 10-06-2024".to_string(), kp: 310 },
        KpInstantReading { time_tag: "23:45 10-06-2024".to_string(), kp: 250 },
    ];
    let r = model
        .on_notification(&"P/D_noaa_kp/state".to_string(), Payload::KpSeries(data), &at(0))
        .unwrap();
    assert_eq!(r.len(), 1);
    match &r[0] {
        UiUpdate::KpIndexData(items) => {
            assert_eq!(items.len(), 2);
            // Offset +3 whole hours.
            assert_eq!(items[0].hour, "16");
            assert_eq!(items[0].kp, 310);
            assert_eq!(items[1].hour, "02");
            assert_eq!(items[1].kp, 250);
        }
        _ => panic!("expected a Kp chart update"),
    }
}

#[test]
fn malformed_kp_timestamp_is_propagated() {
    let mut model = test_model("P", "D");
    let data = vec![KpInstantReading { time_tag: "not a timestamp!".to_string(), kp: 100 }];
    let r = model.on_notification(&"P/D_noaa_kp/state".to_string(), Payload::KpSeries(data), &at(0));
    assert_eq!(r, Err(ModelError::MalformedTimestamp));

    let inst = KpInstantReading { time_tag: "99:99 99-99-9999".to_string(), kp: 100 };
    let r = model.on_notification(
        &"P/D_noaa_kp_inst/state".to_string(),
        Payload::KpInstant(inst),
        &at(0),
    );
    assert_eq!(r, Err(ModelError::MalformedTimestamp));
}

#[test]
fn kp_instant_notification_renders_one_label() {
    let mut model = test_model("P", "D");
    let inst = KpInstantReading { time_tag: "05:00 10-06-2024".to_string(), kp: 433 };
    let r = model
        .on_notification(&"P/D_noaa_kp_inst/state".to_string(), Payload::KpInstant(inst), &at(0))
        .unwrap();
    assert_eq!(r.len(), 1);
    match &r[0] {
        UiUpdate::KpIndexInstant(item) => {
            assert_eq!(item.hour, "08");
            assert_eq!(item.kp, 433);
        }
        _ => panic!("expected an instant Kp update"),
    }
}

#[test]
fn forecast_notification_reports_all_windows() {
    let mut model = test_model("P", "D");
    let kp = vec![
        KpForecastPoint { date: "Jun 10 2024".to_string(), hour: 15, value: 333 },
        KpForecastPoint { date: "Jun 10 2024".to_string(), hour: 18, value: 400 },
    ];
    let srs = vec![StormForecastPoint {
        date: "Jun 10 2024".to_string(),
        s1: 99,
        s2: 90,
        s3: 60,
        s4: 20,
        s5: 10,
    }];
    let rb = vec![StormForecastPoint {
        date: "Jun 10 2024".to_string(),
        s1: 0,
        s2: 0,
        s3: 0,
        s4: 0,
        s5: 80,
    }];
    let r = model
        .on_notification(
            &"P/D_noaa_sw_forecast/state".to_string(),
            Payload::Forecast { kp, srs, rb },
            &at(0),
        )
        .unwrap();
    assert_eq!(r.len(), 4);
    assert!(matches!(r[0], UiUpdate::KpForecast3h(333)));
    assert!(matches!(r[1], UiUpdate::KpForecast24h(400)));
    // The one-day storm window currently stands in for the near-term field.
    assert!(matches!(r[2], UiUpdate::SolarRadiationForecast3h(1001)));
    assert!(matches!(r[3], UiUpdate::SolarRadiationForecast24h(1001)));
}

#[test]
fn now_instant_yields_a_valid_hour() {
    let now = now_instant();
    assert!(now.hour <= 23);
    // The calendar-date pattern renders as in the forecast tables.
    assert_eq!(now.date.len(), 11);
}
