use pi_client::clock::LocalTime;
use pi_client::model::{ModelAlarm, ModelTimezone};
use pi_client::schedule::{alarm_due, tick_sleep_ms, AlarmSchedule, CronAction, CronMessage, LoopCommand};

fn at(weekday: u8, hour: u8, minute: u8, second: u8) -> LocalTime {
    LocalTime { weekday, hour, minute, second }
}

fn alarm(alarm_id: i64, day: u8, hour: u8, minute: u8) -> ModelAlarm {
    ModelAlarm { alarm_id, day, hour, minute }
}

fn zone(name: &str) -> ModelTimezone {
    ModelTimezone { timezone_id: 1, zone_name: String::from(name) }
}

#[test]
fn monday_six_thirty_fires_once() {
    let alarms = vec![alarm(1, 0, 6, 30)];
    assert!(alarm_due(&alarms, at(0, 6, 30, 0)));
    for second in 1..60 {
        assert!(!alarm_due(&alarms, at(0, 6, 30, second)));
    }
    for weekday in 1..7 {
        assert!(!alarm_due(&alarms, at(weekday, 6, 30, 0)));
    }
    assert!(!alarm_due(&alarms, at(0, 6, 31, 0)));
    assert!(!alarm_due(&alarms, at(0, 7, 30, 0)));
    assert!(!alarm_due(&alarms, at(0, 18, 30, 0)));
}

#[test]
fn one_trigger_per_matching_minute() {
    let alarms = vec![alarm(1, 2, 7, 0), alarm(2, 2, 7, 0), alarm(3, 4, 23, 59)];
    let mut count = 0;
    for second in 0..60 {
        if alarm_due(&alarms, at(2, 7, 0, second)) {
            count += 1;
        }
    }
    assert_eq!(count, 1);
    let mut count = 0;
    for second in 0..60 {
        if alarm_due(&alarms, at(4, 23, 59, second)) {
            count += 1;
        }
    }
    assert_eq!(count, 1);
    assert!(!alarm_due(&Vec::new(), at(2, 7, 0, 0)));
}

#[test]
fn tick_sleep_corrects_drift() {
    assert_eq!(tick_sleep_ms(0), 1000);
    assert_eq!(tick_sleep_ms(1), 999);
    assert_eq!(tick_sleep_ms(250), 750);
    assert_eq!(tick_sleep_ms(999), 1);
    assert_eq!(tick_sleep_ms(1000), 0);
    assert_eq!(tick_sleep_ms(5000), 0);
    assert_eq!(tick_sleep_ms(u128::MAX), 0);
}

#[test]
fn rapid_resets_leave_one_loop() {
    let mut schedule = AlarmSchedule::new();
    assert!(schedule.active().is_none());
    let mut running: Vec<u64> = Vec::new();
    for n in 0..10u8 {
        let alarms = vec![alarm(n as i64 + 1, n % 7, 6, n)];
        match schedule.reset(Some(alarms), zone("Europe/Berlin")) {
            LoopCommand::Replace { cancel, start } => {
                if let Some(c) = cancel {
                    running.retain(|id| *id != c);
                }
                running.push(start);
            }
            LoopCommand::KeepCurrent => panic!("reload succeeded"),
        }
        assert_eq!(running.len(), 1);
    }
    let active = schedule.active().as_ref().unwrap();
    assert_eq!(running, vec![active.id]);
    assert_eq!(active.alarms, vec![alarm(10, 2, 6, 9)]);
    assert_eq!(active.time_zone.zone_name, "Europe/Berlin");
}

#[test]
fn failed_reload_keeps_running_loop() {
    let mut schedule = AlarmSchedule::new();
    let first = schedule.reset(Some(vec![alarm(1, 0, 6, 30)]), zone("Etc/UTC"));
    assert_eq!(first, LoopCommand::Replace { cancel: None, start: 0 });
    let second = schedule.reset(None, zone("Europe/London"));
    assert_eq!(second, LoopCommand::KeepCurrent);
    let active = schedule.active().as_ref().unwrap();
    assert_eq!(active.id, 0);
    assert_eq!(active.alarms, vec![alarm(1, 0, 6, 30)]);
    assert_eq!(active.time_zone.zone_name, "Etc/UTC");
    let third = schedule.reset(Some(Vec::new()), zone("Europe/London"));
    assert_eq!(third, LoopCommand::Replace { cancel: Some(0), start: 1 });
}

#[test]
fn cron_messages_decide() {
    assert_eq!(AlarmSchedule::on_message(CronMessage::ResetLoop, true), CronAction::Reload);
    assert_eq!(AlarmSchedule::on_message(CronMessage::Light, false), CronAction::Illuminate);
    assert_eq!(AlarmSchedule::on_message(CronMessage::Light, true), CronAction::Ignore);
}

#[test]
fn default_zone_is_utc() {
    let tz = ModelTimezone::default();
    assert_eq!(tz.timezone_id, 1);
    assert_eq!(tz.zone_name, "Etc/UTC");
    let now = tz.now_with_offset();
    assert!(now.weekday <= 6 && now.hour <= 23 && now.minute <= 59 && now.second <= 59);
}
