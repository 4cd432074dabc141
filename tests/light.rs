use pi_client::light::{
    AlarmRamp, LightControl, LimitMinutes, ManualAction, RampAction, RainbowFrame, ToggleAction,
};

#[test]
fn limits_in_seconds() {
    assert_eq!(LimitMinutes::Five.get_sec(), 300);
    assert_eq!(LimitMinutes::FortyFive.get_sec(), 2700);
    assert_eq!(LimitMinutes::Ninety.get_sec(), 5400);
    assert_eq!(LimitMinutes::for_step(0, LimitMinutes::Ninety), LimitMinutes::Five);
    assert_eq!(LimitMinutes::for_step(8, LimitMinutes::Ninety), LimitMinutes::Five);
    assert_eq!(LimitMinutes::for_step(9, LimitMinutes::Ninety), LimitMinutes::Ninety);
    assert_eq!(LimitMinutes::for_step(9, LimitMinutes::FortyFive), LimitMinutes::FortyFive);
}

#[test]
fn ramp_climbs_nine_times_then_finishes() {
    let mut ramp = AlarmRamp::new(LimitMinutes::FortyFive);
    assert_eq!((ramp.step(), ramp.brightness()), (0, 1));
    let mut advances = 0;
    for expected_step in 1..=9u8 {
        assert_eq!(ramp.poll(true, 300), RampAction::Render);
        assert_eq!(ramp.poll(true, 301), RampAction::Advance { brightness: expected_step + 1 });
        advances += 1;
        assert_eq!(ramp.step(), expected_step);
    }
    assert_eq!(advances, 9);
    assert_eq!(ramp.brightness(), 10);
    assert_eq!(ramp.poll(true, 301), RampAction::Render);
    assert_eq!(ramp.poll(true, 2700), RampAction::Render);
    assert_eq!(ramp.poll(true, 2701), RampAction::Finish);
    assert_eq!(ramp.brightness(), 10);
    assert_eq!(ramp.poll(false, 0), RampAction::Stop);
}

#[test]
fn ramp_final_step_follows_configuration() {
    let mut ramp = AlarmRamp::new(LimitMinutes::Ninety);
    for _ in 0..9 {
        ramp.poll(true, 301);
    }
    assert_eq!(ramp.poll(true, 2701), RampAction::Render);
    assert_eq!(ramp.poll(true, 5401), RampAction::Finish);
}

#[test]
fn ramp_stops_when_flag_cleared() {
    let mut ramp = AlarmRamp::new(LimitMinutes::FortyFive);
    ramp.poll(true, 301);
    assert_eq!(ramp.poll(false, 10_000), RampAction::Stop);
    assert_eq!((ramp.step(), ramp.brightness()), (1, 2));
}

#[test]
fn manual_ceiling_is_five_minutes() {
    assert_eq!(LightControl::manual_poll(true, 0), ManualAction::Render);
    assert_eq!(LightControl::manual_poll(true, 300), ManualAction::Render);
    assert_eq!(LightControl::manual_poll(true, 301), ManualAction::ForceOff);
    assert_eq!(LightControl::manual_poll(true, 100_000), ManualAction::ForceOff);
    assert_eq!(LightControl::manual_poll(false, 10), ManualAction::Exit);
    assert!(LightControl::light_limit(301, LimitMinutes::Five));
    assert!(!LightControl::light_limit(300, LimitMinutes::Five));
}

#[test]
fn manual_ceiling_independent_of_ticks() {
    // readings every 250 ms, and a sparse run that skips most of them
    for step_ms in [250u64, 7_000, 61_000] {
        let mut t = 0u64;
        let mut forced_at = None;
        while forced_at.is_none() {
            if LightControl::manual_poll(true, t / 1000) == ManualAction::ForceOff {
                forced_at = Some(t / 1000);
            }
            t += step_ms;
        }
        let secs = forced_at.unwrap();
        assert!(secs >= 301 && secs < 301 + step_ms / 1000 + 1);
    }
}

#[test]
fn set_light_on_then_off_reports_twice() {
    // the session's own events, as the runner publishes them
    let mut published: Vec<bool> = Vec::new();
    let mut light_on = false;
    let ramp = AlarmRamp::new(LimitMinutes::FortyFive);

    match LightControl::toggle_light(true, light_on) {
        ToggleAction::StartManual => {
            light_on = true;
            published.push(light_on);
        }
        other => panic!("unexpected {other:?}"),
    }
    let mut elapsed_ms = 0u64;
    while elapsed_ms < 2_000 {
        assert_eq!(LightControl::manual_poll(light_on, elapsed_ms / 1000), ManualAction::Render);
        elapsed_ms += 250;
    }
    match LightControl::toggle_light(false, light_on) {
        ToggleAction::StopSession => light_on = false,
        other => panic!("unexpected {other:?}"),
    }
    assert_eq!(LightControl::manual_poll(light_on, elapsed_ms / 1000), ManualAction::Exit);
    published.push(light_on);

    assert_eq!(published, vec![true, false]);
    assert_eq!(ramp.brightness(), 1);
    assert_eq!(ramp.step(), 0);
}

#[test]
fn toggle_decisions() {
    assert_eq!(LightControl::toggle_light(true, true), ToggleAction::Nothing);
    assert_eq!(LightControl::toggle_light(false, false), ToggleAction::ReplyStatus);
}

#[test]
fn rainbow_sweeps_forward_then_back() {
    let frames = LightControl::rainbow_frames(true, false);
    assert_eq!(frames.len(), 16);
    assert_eq!(frames[0], RainbowFrame { pixel: 0, red: 255, green: 0, blue: 0 });
    assert_eq!(frames[5], RainbowFrame { pixel: 5, red: 39, green: 0, blue: 51 });
    assert_eq!(frames[7], RainbowFrame { pixel: 7, red: 255, green: 255, blue: 255 });
    assert_eq!(frames[8], RainbowFrame { pixel: 7, red: 255, green: 255, blue: 255 });
    assert_eq!(frames[15], RainbowFrame { pixel: 0, red: 255, green: 0, blue: 0 });
    let pixels: Vec<usize> = frames.iter().map(|f| f.pixel).collect();
    assert_eq!(pixels, vec![0, 1, 2, 3, 4, 5, 6, 7, 7, 6, 5, 4, 3, 2, 1, 0]);
}

#[test]
fn rainbow_yields_to_sessions() {
    assert!(LightControl::rainbow_frames(true, true).is_empty());
    assert!(LightControl::rainbow_frames(false, false).is_empty());
}
