use vstd::prelude::*;

verus! {

/// Interval between two renders of a session, and the latency of a stop.
pub const RENDER_INTERVAL_MS: u64 = 250;

/// How long one pixel of the rainbow sweep is shown.
pub const RAINBOW_PIXEL_MS: u64 = 50;

/// Number of the ramp's last step.
pub const FINAL_STEP: u8 = 9;

/// Brightness of the ramp's first step, in tenths of full brightness.
pub const RAMP_START_BRIGHTNESS: u8 = 1;

/// Number of pixels on the strip.
pub const PIXELS: usize = 8;

/// The durations a session step can have.
#[derive(Clone, Copy, Debug, PartialEq, Eq, Structural)]
pub enum LimitMinutes {
    Five,
    FortyFive,
    Ninety,
}

/// The duration in seconds.
pub open spec fn limit_secs(l: LimitMinutes) -> u64 {
    match l {
        LimitMinutes::Five => 300,
        LimitMinutes::FortyFive => 2700,
        LimitMinutes::Ninety => 5400,
    }
}

/// The duration of ramp step `step`, when the final step lasts `final_step`.
pub open spec fn step_limit(step: int, final_step: LimitMinutes) -> LimitMinutes {
    if step < FINAL_STEP {
        LimitMinutes::Five
    } else {
        final_step
    }
}

impl LimitMinutes {
    /// The duration in seconds.
    pub fn get_sec(&self) -> (r: u64)
        ensures
            r == limit_secs(*self),
    {
        match self {
            LimitMinutes::Five => 60 * 5,
            LimitMinutes::FortyFive => 60 * 45,
            LimitMinutes::Ninety => 60 * 90,
        }
    }

    /// The duration of ramp step `step`: five minutes for steps 0 to 8, then
    /// `final_step`.
    pub fn for_step(step: u8, final_step: LimitMinutes) -> (r: LimitMinutes)
        ensures
            r == step_limit(step as int, final_step),
    {
        if step < FINAL_STEP {
            LimitMinutes::Five
        } else {
            final_step
        }
    }
}

/// One iteration of a manual (solid-on) session.
#[derive(Clone, Copy, Debug, PartialEq, Eq, Structural)]
pub enum ManualAction {
    /// The flag is off: clear the strip, publish the change once, and end.
    Exit,
    /// Show the frame again and wait one render interval.
    Render,
    /// The safety ceiling is passed: turn the flag off.
    ForceOff,
}

/// The manual session's decision for a flag value and the seconds since it began.
pub open spec fn manual_step(light_on: bool, elapsed_secs: u64) -> ManualAction {
    if !light_on {
        ManualAction::Exit
    } else if elapsed_secs > limit_secs(LimitMinutes::Five) {
        ManualAction::ForceOff
    } else {
        ManualAction::Render
    }
}

/// Answer to a command that sets the light on or off.
#[derive(Clone, Copy, Debug, PartialEq, Eq, Structural)]
pub enum ToggleAction {
    /// Set the flag, report it on, and run a manual session.
    StartManual,
    /// Clear the flag; the running session reports the change when it ends.
    StopSession,
    /// Nothing runs: report the light off.
    ReplyStatus,
    /// The light is already on: nothing to do.
    Nothing,
}

/// One frame of the rainbow sweep: a pixel and its colour.
#[derive(Clone, Copy, Debug, PartialEq, Eq, Structural)]
pub struct RainbowFrame {
    pub pixel: usize,
    pub red: u8,
    pub green: u8,
    pub blue: u8,
}

/// Colour of pixel `i` in the sweep.
pub open spec fn rainbow_color(i: int) -> (u8, u8, u8) {
    if i == 0 {
        (255, 0, 0)
    } else if i == 1 {
        (255, 127, 0)
    } else if i == 2 {
        (255, 255, 0)
    } else if i == 3 {
        (0, 255, 0)
    } else if i == 4 {
        (0, 0, 255)
    } else if i == 5 {
        (39, 0, 51)
    } else if i == 6 {
        (139, 0, 255)
    } else {
        (255, 255, 255)
    }
}

/// The frame that shows pixel `i` in its colour.
pub open spec fn rainbow_frame(i: int) -> RainbowFrame {
    RainbowFrame {
        pixel: i as usize,
        red: rainbow_color(i).0,
        green: rainbow_color(i).1,
        blue: rainbow_color(i).2,
    }
}

/// The light controller: the decisions of its sessions.
pub struct LightControl;

impl LightControl {
    /// Whether `elapsed_secs` has passed the duration `limit`.
    pub fn light_limit(elapsed_secs: u64, limit: LimitMinutes) -> (r: bool)
        ensures
            r == (elapsed_secs > limit_secs(limit)),
    {
        elapsed_secs > limit.get_sec()
    }

    /// One iteration of a manual session, begun `elapsed_secs` ago.
    pub fn manual_poll(light_on: bool, elapsed_secs: u64) -> (r: ManualAction)
        ensures
            r == manual_step(light_on, elapsed_secs),
    {
        if !light_on {
            ManualAction::Exit
        } else if Self::light_limit(elapsed_secs, LimitMinutes::Five) {
            ManualAction::ForceOff
        } else {
            ManualAction::Render
        }
    }

    /// What to do when asked to set the light to `new_status`.
    pub fn toggle_light(new_status: bool, light_on: bool) -> (r: ToggleAction)
        ensures
            r == if new_status {
                if light_on {
                    ToggleAction::Nothing
                } else {
                    ToggleAction::StartManual
                }
            } else {
                if light_on {
                    ToggleAction::StopSession
                } else {
                    ToggleAction::ReplyStatus
                }
            },
    {
        if new_status {
            if light_on {
                ToggleAction::Nothing
            } else {
                ToggleAction::StartManual
            }
        } else if light_on {
            ToggleAction::StopSession
        } else {
            ToggleAction::ReplyStatus
        }
    }

    fn color_at(i: usize) -> (r: (u8, u8, u8))
        ensures
            r == rainbow_color(i as int),
    {
        if i == 0 {
            (255, 0, 0)
        } else if i == 1 {
            (255, 127, 0)
        } else if i == 2 {
            (255, 255, 0)
        } else if i == 3 {
            (0, 255, 0)
        } else if i == 4 {
            (0, 0, 255)
        } else if i == 5 {
            (39, 0, 51)
        } else if i == 6 {
            (139, 0, 255)
        } else {
            (255, 255, 255)
        }
    }

    /// The rainbow sweep: each pixel in its colour from first to last, then
    /// from last to first. Empty when the sweep is disabled or a session
    /// holds the light.
    pub fn rainbow_frames(enabled: bool, light_on: bool) -> (r: Vec<RainbowFrame>)
        ensures
            !enabled || light_on ==> r@.len() == 0,
            enabled && !light_on ==> {
                &&& r@.len() == 2 * PIXELS
                &&& forall|i: int| 0 <= i < PIXELS ==> #[trigger] r@[i] == rainbow_frame(i)
                &&& forall|i: int|
                    0 <= i < PIXELS ==> #[trigger] r@[PIXELS + i] == rainbow_frame(PIXELS - 1 - i)
            },
    {
        let mut frames: Vec<RainbowFrame> = Vec::new();
        if !enabled || light_on {
            return frames;
        }
        let mut i: usize = 0;
        while i < PIXELS
            invariant
                i <= PIXELS,
                frames@.len() == i,
                forall|j: int| 0 <= j < i ==> #[trigger] frames@[j] == rainbow_frame(j),
            decreases PIXELS - i,
        {
            let (red, green, blue) = Self::color_at(i);
            frames.push(RainbowFrame { pixel: i, red, green, blue });
            i += 1;
        }
        let mut k: usize = 0;
        while k < PIXELS
            invariant
                k <= PIXELS,
                frames@.len() == PIXELS + k,
                forall|j: int| 0 <= j < PIXELS ==> #[trigger] frames@[j] == rainbow_frame(j),
                forall|j: int|
                    0 <= j < k ==> #[trigger] frames@[PIXELS + j] == rainbow_frame(PIXELS - 1 - j),
            decreases PIXELS - k,
        {
            let pixel = PIXELS - 1 - k;
            let (red, green, blue) = Self::color_at(pixel);
            frames.push(RainbowFrame { pixel, red, green, blue });
            k += 1;
        }
        frames
    }
}

/// The index of the first reading of a manual session (seconds since it
/// began, one per iteration, the flag on throughout) at which the safety
/// ceiling turns the flag off, if any.
pub open spec fn first_force_off(readings: Seq<u64>) -> Option<int>
    decreases readings.len(),
{
    if readings.len() == 0 {
        None
    } else if manual_step(true, readings[0]) == ManualAction::ForceOff {
        Some(0)
    } else {
        match first_force_off(readings.drop_first()) {
            Some(i) => Some(i + 1),
            None => None,
        }
    }
}

/// However many iterations a manual session runs and however its readings
/// are spaced, the ceiling turns the flag off at the first reading past five
/// minutes and at no earlier one; it keeps the light on through every
/// reading up to five minutes.
pub proof fn lemma_manual_ceiling(readings: Seq<u64>)
    ensures
        match first_force_off(readings) {
            Some(i) => 0 <= i < readings.len() && readings[i] > limit_secs(LimitMinutes::Five)
                && forall|j: int| 0 <= j < i ==> readings[j] <= limit_secs(LimitMinutes::Five),
            None => forall|j: int|
                0 <= j < readings.len() ==> readings[j] <= limit_secs(LimitMinutes::Five),
        },
    decreases readings.len(),
{
    if readings.len() > 0 && manual_step(true, readings[0]) != ManualAction::ForceOff {
        let tail = readings.drop_first();
        lemma_manual_ceiling(tail);
        assert forall|j: int| 1 <= j < readings.len() implies readings[j] == tail[j - 1] by {}
    }
}

/// One iteration of the alarm ramp.
#[derive(Clone, Copy, Debug, PartialEq, Eq, Structural)]
pub enum RampAction {
    /// The flag is off: clear the strip, publish the change once, and end.
    Stop,
    /// Show the frame again and wait one render interval.
    Render,
    /// The step is over: show the strip at `brightness` tenths and restart the step timer.
    Advance { brightness: u8 },
    /// The final step is over: turn the flag off and clear the strip.
    Finish,
}

/// The ramp's decision at step `step` for a flag value and the seconds
/// since the step began, with the step that follows.
pub open spec fn ramp_step(step: int, light_on: bool, elapsed_secs: u64, final_step: LimitMinutes) -> (
    int,
    RampAction,
) {
    if !light_on {
        (step, RampAction::Stop)
    } else if elapsed_secs > limit_secs(step_limit(step, final_step)) {
        if step < FINAL_STEP {
            (step + 1, RampAction::Advance { brightness: (RAMP_START_BRIGHTNESS + step + 1) as u8 })
        } else {
            (step, RampAction::Finish)
        }
    } else {
        (step, RampAction::Render)
    }
}

/// A ramp run while the flag stays on, one reading of the step timer per
/// iteration, until it finishes: the step reached, the number of advances,
/// and whether it finished.
pub open spec fn ramp_run(step: int, readings: Seq<u64>, final_step: LimitMinutes) -> (int, nat, bool)
    decreases readings.len(),
{
    if readings.len() == 0 {
        (step, 0, false)
    } else {
        let (next, action) = ramp_step(step, true, readings[0], final_step);
        if action is Finish {
            (next, 0, true)
        } else {
            let (last, advances, finished) = ramp_run(next, readings.drop_first(), final_step);
            (last, advances + if action is Advance {
                1nat
            } else {
                0nat
            }, finished)
        }
    }
}

/// The alarm ramp: ten steps of rising brightness, the last one long.
pub struct AlarmRamp {
    step: u8,
    brightness: u8,
    final_step: LimitMinutes,
}

impl AlarmRamp {
    /// The step and brightness agree, and the step is a ramp step.
    pub open spec fn wf(&self) -> bool {
        &&& self.step_spec() <= FINAL_STEP
        &&& self.brightness_spec() == RAMP_START_BRIGHTNESS + self.step_spec()
        &&& self.final_spec() != LimitMinutes::Five
    }

    /// The current step.
    pub closed spec fn step_spec(&self) -> int {
        self.step as int
    }

    /// Brightness in tenths.
    pub closed spec fn brightness_spec(&self) -> int {
        self.brightness as int
    }

    /// Duration of the final step.
    pub closed spec fn final_spec(&self) -> LimitMinutes {
        self.final_step
    }

    /// A ramp at step 0 and the start brightness; its final step lasts
    /// `final_step`, which is one of the long durations.
    pub fn new(final_step: LimitMinutes) -> (r: Self)
        requires
            final_step != LimitMinutes::Five,
        ensures
            r.wf(),
            r.step_spec() == 0,
            r.brightness_spec() == RAMP_START_BRIGHTNESS,
            r.final_spec() == final_step,
    {
        AlarmRamp { step: 0, brightness: RAMP_START_BRIGHTNESS, final_step }
    }

    /// The current step.
    pub fn step(&self) -> (r: u8)
        ensures
            r == self.step_spec(),
    {
        self.step
    }

    /// Brightness in tenths of full brightness.
    pub fn brightness(&self) -> (r: u8)
        ensures
            r == self.brightness_spec(),
    {
        self.brightness
    }

    /// One iteration, `step_elapsed_secs` after the current step began.
    pub fn poll(&mut self, light_on: bool, step_elapsed_secs: u64) -> (r: RampAction)
        requires
            old(self).wf(),
        ensures
            final(self).wf(),
            final(self).brightness_spec() == RAMP_START_BRIGHTNESS + final(self).step_spec(),
            final(self).final_spec() == old(self).final_spec(),
            (final(self).step_spec(), r) == ramp_step(
                old(self).step_spec(),
                light_on,
                step_elapsed_secs,
                old(self).final_spec(),
            ),
    {
        if !light_on {
            return RampAction::Stop;
        }
        let limit = LimitMinutes::for_step(self.step, self.final_step);
        if LightControl::light_limit(step_elapsed_secs, limit) {
            if self.step < FINAL_STEP {
                self.step = self.step + 1;
                self.brightness = self.brightness + 1;
                RampAction::Advance { brightness: self.brightness }
            } else {
                RampAction::Finish
            }
        } else {
            RampAction::Render
        }
    }
}

/// While the flag stays on, each step transition raises the brightness by
/// exactly one tenth (the step reached is the start step plus the number of
/// advances, never past the final step), and the ramp finishes, turning the
/// flag off, only in the final step and only once a reading has passed that
/// step's own duration.
pub proof fn lemma_ramp_progress(step: int, readings: Seq<u64>, final_step: LimitMinutes)
    requires
        0 <= step <= FINAL_STEP,
    ensures
        ramp_run(step, readings, final_step).0 == step + ramp_run(step, readings, final_step).1,
        ramp_run(step, readings, final_step).0 <= FINAL_STEP,
        ramp_run(step, readings, final_step).2 ==> {
            &&& ramp_run(step, readings, final_step).0 == FINAL_STEP
            &&& exists|i: int| 0 <= i < readings.len() && readings[i] > limit_secs(final_step)
        },
    decreases readings.len(),
{
    if readings.len() > 0 {
        let (next, action) = ramp_step(step, true, readings[0], final_step);
        if !(action is Finish) {
            lemma_ramp_progress(next, readings.drop_first(), final_step);
            if ramp_run(step, readings, final_step).2 {
                let tail = readings.drop_first();
                let i = choose|i: int| 0 <= i < tail.len() && tail[i] > limit_secs(final_step);
                assert(readings[i + 1] > limit_secs(final_step));
            }
        } else {
            assert(readings[0] > limit_secs(final_step));
        }
    }
}

} // verus!
