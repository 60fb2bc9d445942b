use lib::{
    window_bounds, ActuatorChange, Controller, MonitoringSystem, Sensor, StatusSuhu, HISTORY_LIMIT,
};

fn all_statuses() -> Vec<StatusSuhu> {
    vec![
        StatusSuhu::Normal,
        StatusSuhu::WarningTinggi,
        StatusSuhu::WarningRendah,
        StatusSuhu::DangerTinggi,
        StatusSuhu::DangerRendah,
        StatusSuhu::SensorError,
    ]
}

#[test]
fn labels_are_the_table_texts() {
    assert_eq!(StatusSuhu::Normal.label(), "✓ NORMAL      ");
    assert_eq!(StatusSuhu::WarningTinggi.label(), "⚠ WARN TINGGI ");
    assert_eq!(StatusSuhu::WarningRendah.label(), "⚠ WARN RENDAH ");
    assert_eq!(StatusSuhu::DangerTinggi.label(), "✗ DANGER PANAS");
    assert_eq!(StatusSuhu::DangerRendah.label(), "✗ DANGER DINGIN");
    assert_eq!(StatusSuhu::SensorError.label(), "! SENSOR ERROR");
}

#[test]
fn log_label_is_trimmed_label() {
    for s in all_statuses() {
        assert_eq!(s.log_label(), s.label().trim());
    }
}

#[test]
fn labels_distinct() {
    let all = all_statuses();
    for (i, a) in all.iter().enumerate() {
        for (j, b) in all.iter().enumerate() {
            if i != j {
                assert_ne!(a.label(), b.label());
                assert_ne!(a.log_label(), b.log_label());
            }
        }
    }
}

#[test]
fn only_normal_is_not_an_alarm() {
    for s in all_statuses() {
        assert_eq!(s.is_alarm(), s != StatusSuhu::Normal);
    }
}

fn classify_celsius(t: f64, valid: bool) -> StatusSuhu {
    // Thresholds of the cold room: normal 2.0 .. 8.0, warning band 2.0 wide.
    let (min, max, dev) = (2.0_f64, 8.0_f64, 2.0_f64);
    StatusSuhu::classify(valid, t > max + dev, t > max, t < min - dev, t < min)
}

#[test]
fn readme_threshold_bands() {
    assert_eq!(classify_celsius(2.0, true), StatusSuhu::Normal);
    assert_eq!(classify_celsius(5.0, true), StatusSuhu::Normal);
    assert_eq!(classify_celsius(8.0, true), StatusSuhu::Normal);
    assert_eq!(classify_celsius(8.3, true), StatusSuhu::WarningTinggi);
    assert_eq!(classify_celsius(10.0, true), StatusSuhu::WarningTinggi);
    assert_eq!(classify_celsius(1.0, true), StatusSuhu::WarningRendah);
    assert_eq!(classify_celsius(0.0, true), StatusSuhu::WarningRendah);
    assert_eq!(classify_celsius(12.5, true), StatusSuhu::DangerTinggi);
    assert_eq!(classify_celsius(-0.5, true), StatusSuhu::DangerRendah);
    assert_eq!(classify_celsius(5.0, false), StatusSuhu::SensorError);
    assert_eq!(classify_celsius(200.0, false), StatusSuhu::SensorError);
}

#[test]
fn classify_order_of_checks() {
    // An invalid sensor wins over every threshold.
    assert_eq!(StatusSuhu::classify(false, true, true, true, true), StatusSuhu::SensorError);
    // Above-danger wins over the other bands.
    assert_eq!(StatusSuhu::classify(true, true, true, true, true), StatusSuhu::DangerTinggi);
    assert_eq!(StatusSuhu::classify(true, false, true, true, true), StatusSuhu::WarningTinggi);
    assert_eq!(StatusSuhu::classify(true, false, false, true, true), StatusSuhu::DangerRendah);
    assert_eq!(StatusSuhu::classify(true, false, false, false, true), StatusSuhu::WarningRendah);
    assert_eq!(StatusSuhu::classify(true, false, false, false, false), StatusSuhu::Normal);
}

#[test]
fn controller_starts_idle() {
    let c = Controller::new("Cold Room", 2.0_f64, 8.0, 2.0);
    assert_eq!(c.nama_storage, "Cold Room");
    assert_eq!(c.normal_min, 2.0);
    assert_eq!(c.normal_max, 8.0);
    assert_eq!(c.warning_dev, 2.0);
    assert!(!c.cooling_active);
    assert!(!c.heater_active);
    assert_eq!(c.alarm_count, 0);
}

#[test]
fn control_cooling_reports_changes() {
    let mut c = Controller::new("x", 0i32, 0, 0);
    assert!(c.control_cooling(true));
    assert!(c.cooling_active);
    assert!(!c.control_cooling(true));
    assert!(c.cooling_active);
    assert!(c.control_cooling(false));
    assert!(!c.cooling_active);
    assert!(!c.heater_active);
}

#[test]
fn control_heater_reports_changes() {
    let mut c = Controller::new("x", 0i32, 0, 0);
    assert!(!c.control_heater(false));
    assert!(c.control_heater(true));
    assert!(c.heater_active);
    assert!(!c.control_heater(true));
    assert!(!c.cooling_active);
}

#[test]
fn trigger_alarm_drives_actuators() {
    let mut c = Controller::new("x", 0i32, 0, 0);
    c.trigger_alarm(&StatusSuhu::DangerTinggi);
    assert!(c.cooling_active && !c.heater_active);
    assert_eq!(c.alarm_count, 1);
    c.trigger_alarm(&StatusSuhu::WarningRendah);
    assert!(c.cooling_active && !c.heater_active);
    assert_eq!(c.alarm_count, 2);
    c.trigger_alarm(&StatusSuhu::DangerRendah);
    assert!(c.cooling_active && c.heater_active);
    assert_eq!(c.alarm_count, 3);
    c.trigger_alarm(&StatusSuhu::Normal);
    assert!(!c.cooling_active && !c.heater_active);
    assert_eq!(c.alarm_count, 3);
    c.trigger_alarm(&StatusSuhu::Normal);
    assert!(!c.cooling_active && !c.heater_active);
    assert_eq!(c.alarm_count, 3);
    c.trigger_alarm(&StatusSuhu::SensorError);
    assert!(!c.cooling_active && !c.heater_active);
    assert_eq!(c.alarm_count, 4);
}

#[test]
fn alarm_count_counts_non_normal_statuses() {
    let mut c = Controller::new("x", 0i32, 0, 0);
    let seq = [
        StatusSuhu::Normal,
        StatusSuhu::WarningTinggi,
        StatusSuhu::Normal,
        StatusSuhu::DangerTinggi,
        StatusSuhu::SensorError,
        StatusSuhu::Normal,
        StatusSuhu::DangerRendah,
    ];
    for s in seq.iter() {
        c.trigger_alarm(s);
    }
    assert_eq!(c.alarm_count, 4);
    assert!(!c.cooling_active);
    assert!(c.heater_active);
}

#[test]
fn sensor_new_is_active_and_empty() {
    let s = Sensor::new(1, "Sensor Zona A-01", "Zona A", -40.0_f64, 85.0, 0.0);
    assert_eq!(s.id, 1);
    assert_eq!(s.name, "Sensor Zona A-01");
    assert_eq!(s.zone, "Zona A");
    assert_eq!(s.value, 0.0);
    assert_eq!(s.min_range, -40.0);
    assert_eq!(s.max_range, 85.0);
    assert!(s.is_active);
    assert!(s.history.is_empty());
}

#[test]
fn sensor_history_keeps_ten_most_recent() {
    let mut s = Sensor::new(1, "a", "b", -40i32, 85, 0);
    for v in 1..=12 {
        s.set_value(v);
        assert_eq!(s.value, v);
        assert!(s.history.len() <= HISTORY_LIMIT);
        assert_eq!(*s.history.last().unwrap(), v);
    }
    assert_eq!(HISTORY_LIMIT, 10);
    assert_eq!(s.history, (3..=12).collect::<Vec<i32>>());
}

#[test]
fn sensor_history_short_run() {
    let mut s = Sensor::new(1, "a", "b", -40.0_f64, 85.0, 0.0);
    s.set_value(4.2);
    s.set_value(4.1);
    assert_eq!(s.history, vec![4.2, 4.1]);
    assert_eq!(s.value, 4.1);
}

#[test]
fn sensor_deactivate() {
    let mut s = Sensor::new(7, "a", "b", 0i32, 1, 0);
    s.set_value(1);
    s.deactivate();
    assert!(!s.is_active);
    assert_eq!(s.history, vec![1]);
    assert_eq!(s.id, 7);
}

#[test]
fn window_bounds_values() {
    assert_eq!(window_bounds(0, 3), (0, 1));
    assert_eq!(window_bounds(1, 3), (0, 2));
    assert_eq!(window_bounds(2, 3), (0, 3));
    assert_eq!(window_bounds(3, 3), (1, 3));
    assert_eq!(window_bounds(4, 3), (2, 3));
    assert_eq!(window_bounds(4, 1), (4, 1));
    assert_eq!(window_bounds(2, 10), (0, 3));
}

#[test]
fn window_bounds_give_moving_average() {
    // Moving average of [1, 2, 3, 4, 5] with window 3 is [1, 1.5, 2, 3, 4].
    let data = vec![1.0_f64, 2.0, 3.0, 4.0, 5.0];
    let ma: Vec<f64> = (0..data.len())
        .map(|i| {
            let (start, len) = window_bounds(i, 3);
            data[start..=i].iter().sum::<f64>() / len as f64
        })
        .collect();
    assert!((ma[0] - 1.0).abs() < 1e-9);
    assert!((ma[1] - 1.5).abs() < 1e-9);
    assert!((ma[2] - 2.0).abs() < 1e-9);
    assert!((ma[3] - 3.0).abs() < 1e-9);
    assert!((ma[4] - 4.0).abs() < 1e-9);
}

fn four_zone_system() -> MonitoringSystem<f64> {
    let ctrl = Controller::new("Cold Room", 2.0, 8.0, 2.0);
    let mut m = MonitoringSystem::new("PT", ctrl, 5);
    for (id, zone) in [(1u32, "Zona A"), (2, "Zona B"), (3, "Zona C"), (4, "Zona D")] {
        m.add_sensor(Sensor::new(id, "s", zone, -40.0, 85.0, 0.0));
    }
    m
}

#[test]
fn monitoring_new_and_add_sensor() {
    let m = four_zone_system();
    assert_eq!(m.nama_perusahaan, "PT");
    assert_eq!(m.sensors.len(), 4);
    assert_eq!(m.sensors[2].zone, "Zona C");
    assert_eq!(m.sesi, 0);
    assert_eq!(m.ma_window, 5);
    assert!(m.log.is_empty());
}

#[test]
fn start_session_feeds_inputs_by_index() {
    let mut m = four_zone_system();
    let n = m.start_session(&vec![4.2, 5.1, 3.8]);
    assert_eq!(n, 1);
    assert_eq!(m.sesi, 1);
    assert_eq!(m.sensors[0].value, 4.2);
    assert_eq!(m.sensors[1].history, vec![5.1]);
    assert_eq!(m.sensors[2].value, 3.8);
    assert_eq!(m.sensors[3].value, 0.0);
    assert!(m.sensors[3].history.is_empty());
    let n = m.start_session(&vec![1.0, 2.0, 3.0, 4.0, 99.0]);
    assert_eq!(n, 2);
    assert_eq!(m.sensors[3].history, vec![4.0]);
    assert_eq!(m.sensors[0].history, vec![4.2, 1.0]);
    assert_eq!(m.sensors.len(), 4);
}

#[test]
fn record_reading_logs_and_alarms() {
    let mut m = four_zone_system();
    m.start_session(&vec![4.5, 12.5, 4.0, 200.0]);
    assert!(!m.record_reading(0, 4.5, StatusSuhu::Normal));
    assert!(m.record_reading(1, 12.5, StatusSuhu::DangerTinggi));
    assert!(m.controller.cooling_active);
    assert!(m.record_reading(3, 200.0, StatusSuhu::SensorError));
    assert_eq!(m.controller.alarm_count, 2);
    assert_eq!(m.log.len(), 3);
    let e = &m.log[1];
    assert_eq!(e.sesi, 1);
    assert_eq!(e.zona, "Zona B");
    assert_eq!(e.suhu_raw, 12.5);
    assert_eq!(e.suhu_ma, 12.5);
    assert_eq!(e.status, "✗ DANGER PANAS");
    assert_eq!(m.log[0].status, "✓ NORMAL");
    assert_eq!(m.log[2].status, "! SENSOR ERROR");
    assert_eq!(m.log[2].zona, "Zona D");
}

fn temperature_rank(s: StatusSuhu) -> i32 {
    match s {
        StatusSuhu::DangerRendah => 0,
        StatusSuhu::WarningRendah => 1,
        StatusSuhu::Normal | StatusSuhu::SensorError => 2,
        StatusSuhu::WarningTinggi => 3,
        StatusSuhu::DangerTinggi => 4,
    }
}

#[test]
fn status_rises_with_reading() {
    let mut previous = temperature_rank(classify_celsius(-5.0, true));
    let mut t = -5.0_f64;
    while t <= 15.0 {
        let rank = temperature_rank(classify_celsius(t, true));
        assert!(rank >= previous);
        previous = rank;
        t += 0.25;
    }
    assert_eq!(previous, 4);
}

#[test]
fn record_session_logs_every_zone_in_order() {
    let mut m = four_zone_system();
    m.start_session(&vec![4.1, 5.0, 12.5, 3.9]);
    let statuses = vec![
        StatusSuhu::Normal,
        StatusSuhu::WarningTinggi,
        StatusSuhu::DangerTinggi,
        StatusSuhu::Normal,
    ];
    let out = m.record_session(&vec![4.1, 5.0, 12.5, 3.9], &statuses);
    assert!(out.any_alarm);
    assert_eq!(m.log.len(), 4);
    for (i, zone) in ["Zona A", "Zona B", "Zona C", "Zona D"].iter().enumerate() {
        assert_eq!(m.log[i].zona, *zone);
        assert_eq!(m.log[i].sesi, 1);
        assert_eq!(m.log[i].status, statuses[i].log_label());
        assert_eq!(m.log[i].suhu_raw, m.sensors[i].value);
    }
    assert_eq!(m.controller.alarm_count, 2);
    // Zone C switches cooling on, zone D (normal) switches it off again.
    assert_eq!(
        out.changes,
        vec![
            ActuatorChange { cooling_switched: false, cooling_active: false, heater_switched: false, heater_active: false },
            ActuatorChange { cooling_switched: false, cooling_active: false, heater_switched: false, heater_active: false },
            ActuatorChange { cooling_switched: true, cooling_active: true, heater_switched: false, heater_active: false },
            ActuatorChange { cooling_switched: true, cooling_active: false, heater_switched: false, heater_active: false },
        ]
    );
    assert!(!m.controller.cooling_active);
}

#[test]
fn record_session_all_normal() {
    let mut m = four_zone_system();
    m.start_session(&vec![4.2, 5.1, 3.8, 6.0]);
    let out = m.record_session(&vec![4.2, 5.1, 3.8, 6.0], &vec![StatusSuhu::Normal; 4]);
    assert!(!out.any_alarm);
    assert_eq!(m.controller.alarm_count, 0);
    assert_eq!(m.log.len(), 4);
    assert!(out.changes.iter().all(|c| !c.cooling_switched && !c.heater_switched));
}

#[test]
fn derived_clones_copy_fields() {
    let mut s = Sensor::new(3, "n", "z", 0i32, 9, 0);
    s.set_value(4);
    let t = s.clone();
    assert_eq!(t.history, vec![4]);
    let c = Controller::new("x", 1i32, 2, 3);
    assert_eq!(c.clone().normal_max, 2);
}
