use vstd::prelude::*;

use crate::clock::LocalTime;
use crate::model::{ModelAlarm, ModelTimezone};

verus! {

/// Length of one scheduler tick.
pub const ONE_SECOND_AS_MS: u64 = 1000;

/// Messages handled by the scheduler supervisor.
#[derive(Clone, Copy, Debug, PartialEq, Eq, Structural)]
pub enum CronMessage {
    /// Reload alarms and time zone, and replace the running loop.
    ResetLoop,
    /// An alarm matched: start the illumination ramp.
    Light,
}

/// `a` is set for the weekday, hour and minute of `now`.
pub open spec fn alarm_matches(a: ModelAlarm, now: LocalTime) -> bool {
    a.day == now.weekday && a.hour == now.hour && a.minute == now.minute
}

/// Some alarm of `alarms` is set for the minute of `now`.
pub open spec fn any_alarm_matches(alarms: Seq<ModelAlarm>, now: LocalTime) -> bool {
    exists|i: int| 0 <= i < alarms.len() && #[trigger] alarm_matches(alarms[i], now)
}

/// A tick at `now` emits a trigger: some alarm matches and the second is zero.
pub open spec fn should_trigger(alarms: Seq<ModelAlarm>, now: LocalTime) -> bool {
    now.second == 0 && any_alarm_matches(alarms, now)
}

/// Whether the tick at `now` emits a trigger.
pub fn alarm_due(alarms: &Vec<ModelAlarm>, now: LocalTime) -> (r: bool)
    ensures
        r == should_trigger(alarms@, now),
{
    if now.second != 0 {
        return false;
    }
    let mut i: usize = 0;
    while i < alarms.len()
        invariant
            i <= alarms.len(),
            now.second == 0,
            forall|j: int| 0 <= j < i ==> !#[trigger] alarm_matches(alarms@[j], now),
        decreases alarms.len() - i,
    {
        let a = alarms[i];
        if a.day == now.weekday && a.hour == now.hour && a.minute == now.minute {
            assert(alarm_matches(alarms@[i as int], now));
            return true;
        }
        i += 1;
    }
    false
}

/// The pause after a tick whose work took `elapsed_ms`: the rest of the second.
pub open spec fn sleep_after(elapsed_ms: int) -> int {
    if elapsed_ms < ONE_SECOND_AS_MS {
        ONE_SECOND_AS_MS - elapsed_ms
    } else {
        0
    }
}

/// Milliseconds to sleep after a tick that took `elapsed_ms`, so that ticks
/// follow wall-clock seconds; zero once the tick has used the whole second.
pub fn tick_sleep_ms(elapsed_ms: u128) -> (r: u64)
    ensures
        r == sleep_after(elapsed_ms as int),
{
    if elapsed_ms < ONE_SECOND_AS_MS as u128 {
        ONE_SECOND_AS_MS - elapsed_ms as u64
    } else {
        0
    }
}

/// The seconds of one minute at which a tick emits a trigger.
pub open spec fn triggering_seconds(alarms: Seq<ModelAlarm>, weekday: u8, hour: u8, minute: u8) -> Set<int> {
    Set::new(
        |s: int|
            0 <= s < 60 && should_trigger(
                alarms,
                LocalTime { weekday, hour, minute, second: s as u8 },
            ),
    )
}

/// Within any minute, the ticks emit exactly one trigger, at second zero, if
/// some alarm is set for that weekday, hour and minute, and none otherwise.
pub proof fn lemma_one_trigger_per_minute(alarms: Seq<ModelAlarm>, weekday: u8, hour: u8, minute: u8)
    ensures
        triggering_seconds(alarms, weekday, hour, minute).len() == if any_alarm_matches(
            alarms,
            LocalTime { weekday, hour, minute, second: 0 },
        ) {
            1nat
        } else {
            0nat
        },
        triggering_seconds(alarms, weekday, hour, minute).subset_of(set![0int]),
{
    let at_zero = LocalTime { weekday, hour, minute, second: 0 };
    let secs = triggering_seconds(alarms, weekday, hour, minute);
    assert forall|s: int| secs.contains(s) implies s == 0 by {
        assert((s as u8) == 0);
    }
    if any_alarm_matches(alarms, at_zero) {
        let i = choose|i: int| 0 <= i < alarms.len() && #[trigger] alarm_matches(alarms[i], at_zero);
        assert(alarm_matches(alarms[i], LocalTime { weekday, hour, minute, second: 0int as u8 }));
        assert(secs =~= set![0int]);
    } else {
        assert forall|s: int| !secs.contains(s) by {
            if secs.contains(s) {
                assert(s == 0);
                let now = LocalTime { weekday, hour, minute, second: s as u8 };
                let i = choose|i: int| 0 <= i < alarms.len() && #[trigger] alarm_matches(alarms[i], now);
                assert(alarm_matches(alarms[i], at_zero));
            }
        }
        assert(secs =~= Set::<int>::empty());
    }
}


/// The loop the scheduler runs: its handle number and the snapshot it evaluates.
#[derive(Clone, Debug)]
pub struct ActiveLoop {
    pub id: u64,
    pub alarms: Vec<ModelAlarm>,
    pub time_zone: ModelTimezone,
}

/// What the runner does with loop handles after a reset.
#[derive(Clone, Copy, Debug, PartialEq, Eq, Structural)]
pub enum LoopCommand {
    /// Cancel the loop `cancel` (if any), then start loop `start` on the new snapshot.
    Replace { cancel: Option<u64>, start: u64 },
    /// The reload failed: leave the running loop as it is.
    KeepCurrent,
}

/// What the supervisor does with a message.
#[derive(Clone, Copy, Debug, PartialEq, Eq, Structural)]
pub enum CronAction {
    /// Reload the snapshot and call `reset`.
    Reload,
    /// Start the alarm illumination ramp.
    Illuminate,
    /// A session already holds the light: nothing to do.
    Ignore,
}

/// Abstract state of the supervisor: the active loop's id and snapshot.
pub type ScheduleView = Option<(u64, Seq<ModelAlarm>, ModelTimezone)>;

/// The outcome of reloading alarms and time zone: `None` when loading failed.
pub type Reload = Option<(Seq<ModelAlarm>, ModelTimezone)>;

/// The id given to the loop that replaces the one of `s`.
pub open spec fn next_loop_id(s: ScheduleView) -> u64 {
    match s {
        Some((id, _, _)) => if id == u64::MAX {
            0
        } else {
            (id + 1) as u64
        },
        None => 0,
    }
}

/// One reset: on a successful reload, cancel the active loop and start a
/// new one on the fresh snapshot; on a failed one, keep everything.
pub open spec fn reset_step(s: ScheduleView, reload: Reload) -> (ScheduleView, LoopCommand) {
    match reload {
        None => (s, LoopCommand::KeepCurrent),
        Some((alarms, tz)) => (
            Some((next_loop_id(s), alarms, tz)),
            LoopCommand::Replace {
                cancel: match s {
                    Some((id, _, _)) => Some(id),
                    None => None,
                },
                start: next_loop_id(s),
            },
        ),
    }
}

/// The set of running loops after the runner carries out `cmd`.
pub open spec fn running_after(running: Set<u64>, cmd: LoopCommand) -> Set<u64> {
    match cmd {
        LoopCommand::KeepCurrent => running,
        LoopCommand::Replace { cancel, start } => match cancel {
            Some(c) => running.remove(c).insert(start),
            None => running.insert(start),
        },
    }
}

/// The running loops are exactly the active one.
pub open spec fn loops_agree(s: ScheduleView, running: Set<u64>) -> bool {
    match s {
        Some((id, _, _)) => running == set![id],
        None => running == Set::<u64>::empty(),
    }
}

/// The state and running loops after a series of resets.
pub open spec fn apply_resets(s: ScheduleView, running: Set<u64>, reloads: Seq<Reload>) -> (
    ScheduleView,
    Set<u64>,
)
    decreases reloads.len(),
{
    if reloads.len() == 0 {
        (s, running)
    } else {
        let (s1, cmd) = reset_step(s, reloads[0]);
        apply_resets(s1, running_after(running, cmd), reloads.drop_first())
    }
}

/// Supervisor of the scheduling loop: holds at most one active loop.
pub struct AlarmSchedule {
    looper: Option<ActiveLoop>,
}

impl View for AlarmSchedule {
    type V = ScheduleView;

    closed spec fn view(&self) -> ScheduleView {
        match self.looper {
            Some(l) => Some((l.id, l.alarms@, l.time_zone)),
            None => None,
        }
    }
}

/// The reload outcome that `reset` is handed, as a spec value.
pub open spec fn reload_of(alarms: Option<Vec<ModelAlarm>>, time_zone: ModelTimezone) -> Reload {
    match alarms {
        Some(v) => Some((v@, time_zone)),
        None => None,
    }
}

impl AlarmSchedule {
    /// A supervisor with no loop yet.
    pub fn new() -> (r: Self)
        ensures
            r@ is None,
    {
        AlarmSchedule { looper: None }
    }

    /// The active loop, if any.
    pub fn active(&self) -> (r: &Option<ActiveLoop>)
        ensures
            match *r {
                Some(l) => self@ == Some((l.id, l.alarms@, l.time_zone)),
                None => self@ is None,
            },
    {
        &self.looper
    }

    /// Replace the active loop by one on a freshly loaded snapshot. `alarms`
    /// is `None` when loading failed: then the active loop stays.
    pub fn reset(&mut self, alarms: Option<Vec<ModelAlarm>>, time_zone: ModelTimezone) -> (cmd:
        LoopCommand)
        ensures
            (final(self)@, cmd) == reset_step(old(self)@, reload_of(alarms, time_zone)),
    {
        match alarms {
            None => LoopCommand::KeepCurrent,
            Some(alarms) => {
                let (cancel, start) = match &self.looper {
                    Some(l) => (Some(l.id), if l.id == u64::MAX {
                        0
                    } else {
                        l.id + 1
                    }),
                    None => (None, 0),
                };
                self.looper = Some(ActiveLoop { id: start, alarms, time_zone });
                LoopCommand::Replace { cancel, start }
            },
        }
    }

    /// The supervisor's decision for `msg`; `light_on` is the shared light flag.
    pub fn on_message(msg: CronMessage, light_on: bool) -> (r: CronAction)
        ensures
            msg == CronMessage::ResetLoop ==> r == CronAction::Reload,
            msg == CronMessage::Light ==> r == if light_on {
                CronAction::Ignore
            } else {
                CronAction::Illuminate
            },
    {
        match msg {
            CronMessage::ResetLoop => CronAction::Reload,
            CronMessage::Light => if light_on {
                CronAction::Ignore
            } else {
                CronAction::Illuminate
            },
        }
    }
}

/// However many resets come in, and however they are interleaved with failed
/// reloads, at most one loop runs, it is the active one, and after a
/// successful reset it evaluates the snapshot that reset supplied.
pub proof fn lemma_resets_leave_one_loop(s: ScheduleView, running: Set<u64>, reloads: Seq<Reload>)
    requires
        loops_agree(s, running),
    ensures
        loops_agree(apply_resets(s, running, reloads).0, apply_resets(s, running, reloads).1),
        (s is Some || exists|i: int| 0 <= i < reloads.len() && reloads[i] is Some) ==> apply_resets(
            s,
            running,
            reloads,
        ).1.len() == 1,
        reloads.len() > 0 && reloads.last() is Some ==> match apply_resets(s, running, reloads).0 {
            Some((_, alarms, tz)) => reloads.last() == Some((alarms, tz)),
            None => false,
        },
    decreases reloads.len(),
{
    if reloads.len() > 0 {
        let (s1, cmd) = reset_step(s, reloads[0]);
        let r1 = running_after(running, cmd);
        if reloads[0] is Some {
            match s {
                Some((id, _, _)) => {
                    assert(r1 =~= set![next_loop_id(s)]);
                },
                None => {
                    assert(r1 =~= set![next_loop_id(s)]);
                },
            }
        }
        lemma_resets_leave_one_loop(s1, r1, reloads.drop_first());
        let tail = reloads.drop_first();
        if s1 is Some {
            assert(s is Some || reloads[0] is Some);
        }
        if exists|i: int| 0 <= i < tail.len() && tail[i] is Some {
            let i = choose|i: int| 0 <= i < tail.len() && tail[i] is Some;
            assert(reloads[i + 1] is Some);
        }
        if (s is Some || exists|i: int| 0 <= i < reloads.len() && reloads[i] is Some) {
            if !(s1 is Some) {
                let i = choose|i: int| 0 <= i < reloads.len() && reloads[i] is Some;
                assert(i != 0);
                assert(tail[i - 1] is Some);
            }
        }
        if tail.len() == 0 {
            assert(reloads.last() == reloads[0]);
        } else {
            assert(reloads.last() == tail.last());
        }
    } else {
        if s is Some {
            assert(running.len() == 1);
        }
    }
}

} // verus!
