use vstd::prelude::*;

use crate::controller::{
    count_alarms, is_alarm, lemma_after_statuses_push, lemma_alarm_count_counts,
    lemma_count_alarms_prefix, spec_log_label, Controller, StatusSuhu,
};
use crate::sensor::{next_history, Sensor};

verus! {

/// What the controller did to its actuators while handling one zone of a session:
/// whether each actuator was switched, and its state afterwards.
#[derive(Debug, Clone, Copy, PartialEq, Eq, Structural)]
pub struct ActuatorChange {
    pub cooling_switched: bool,
    pub cooling_active: bool,
    pub heater_switched: bool,
    pub heater_active: bool,
}

/// The outcome of recording a whole session: whether any zone raised an alarm, and
/// what the controller did to the actuators for each zone in turn.
pub struct SessionOutcome {
    pub any_alarm: bool,
    pub changes: Vec<ActuatorChange>,
}

/// `line` is the log line of `sensor` in session `sesi`, with moving average `ma`
/// and status `status`.
pub open spec fn is_log_line<T>(
    line: DataLog<T>,
    sesi: u32,
    sensor: Sensor<T>,
    ma: T,
    status: StatusSuhu,
) -> bool {
    &&& line.sesi == sesi
    &&& line.zona@ == sensor.zone@
    &&& line.suhu_raw == sensor.value
    &&& line.suhu_ma == ma
    &&& line.status@ == spec_log_label(status)
}

/// The actuator change made by `before` handling `status`.
pub open spec fn change_of<T>(before: Controller<T>, status: StatusSuhu) -> ActuatorChange {
    let after = before.after_status(status);
    ActuatorChange {
        cooling_switched: before.cooling_active != after.cooling_active,
        cooling_active: after.cooling_active,
        heater_switched: before.heater_active != after.heater_active,
        heater_active: after.heater_active,
    }
}

/// One line of the monitoring log: a zone's reading in one session.
#[derive(Debug)]
pub struct DataLog<T> {
    pub sesi: u32,
    pub zona: String,
    pub suhu_raw: T,
    pub suhu_ma: T,
    pub status: String,
}

/// The whole monitoring installation: its sensors, its controller, the log of every
/// session and the width of the moving average.
pub struct MonitoringSystem<T> {
    pub nama_perusahaan: String,
    pub sensors: Vec<Sensor<T>>,
    pub controller: Controller<T>,
    pub log: Vec<DataLog<T>>,
    pub sesi: u32,
    pub ma_window: usize,
}

impl<T: Copy> MonitoringSystem<T> {
    /// Creates a system with no sensors, an empty log and no session run yet.
    pub fn new(nama: &str, ctrl: Controller<T>, window: usize) -> (m: Self)
        ensures
            m.nama_perusahaan@ == nama@,
            m.sensors@ == Seq::<Sensor<T>>::empty(),
            m.controller == ctrl,
            m.log@ == Seq::<DataLog<T>>::empty(),
            m.sesi == 0,
            m.ma_window == window,
    {
        MonitoringSystem {
            nama_perusahaan: nama.to_owned(),
            sensors: Vec::new(),
            controller: ctrl,
            log: Vec::new(),
            sesi: 0,
            ma_window: window,
        }
    }

    /// Registers a sensor after the ones already present.
    pub fn add_sensor(&mut self, sensor: Sensor<T>)
        ensures
            final(self).sensors@ == old(self).sensors@.push(sensor),
            final(self).nama_perusahaan == old(self).nama_perusahaan,
            final(self).controller == old(self).controller,
            final(self).log@ == old(self).log@,
            final(self).sesi == old(self).sesi,
            final(self).ma_window == old(self).ma_window,
    {
        self.sensors.push(sensor);
    }

    /// Opens a new monitoring session: the session number advances by one, and the
    /// `i`-th sensor records the `i`-th input, for every index that has both (sensors
    /// without an input keep their value and history; extra inputs are ignored).
    /// Returns the new session number.
    pub fn start_session(&mut self, inputs: &Vec<T>) -> (sesi: u32)
        requires
            old(self).sesi < u32::MAX,
        ensures
            sesi == old(self).sesi + 1,
            final(self).sesi == sesi,
            final(self).sensors.len() == old(self).sensors.len(),
            forall|i: int|
                #![trigger old(self).sensors@[i]]
                #![trigger final(self).sensors@[i]]
                0 <= i < old(self).sensors.len() ==> {
                    let s0 = old(self).sensors@[i];
                    let s1 = final(self).sensors@[i];
                    &&& s1.id == s0.id
                    &&& s1.name == s0.name
                    &&& s1.zone == s0.zone
                    &&& s1.min_range == s0.min_range
                    &&& s1.max_range == s0.max_range
                    &&& s1.is_active == s0.is_active
                    &&& if i < inputs.len() {
                        s1.value == inputs@[i] && s1.history@ == next_history(
                            s0.history@,
                            inputs@[i],
                        )
                    } else {
                        s1.value == s0.value && s1.history@ == s0.history@
                    }
                },
            final(self).nama_perusahaan == old(self).nama_perusahaan,
            final(self).controller == old(self).controller,
            final(self).log@ == old(self).log@,
            final(self).ma_window == old(self).ma_window,
    {
        self.sesi = self.sesi + 1;
        let n = self.sensors.len();
        let mut i: usize = 0;
        while i < n
            invariant
                n == self.sensors.len(),
                n == old(self).sensors.len(),
                i <= n,
                self.sesi == old(self).sesi + 1,
                self.nama_perusahaan == old(self).nama_perusahaan,
                self.controller == old(self).controller,
                self.log@ == old(self).log@,
                self.ma_window == old(self).ma_window,
                forall|k: int|
                    0 <= k < n ==> {
                        let s0 = #[trigger] old(self).sensors@[k];
                        let s1 = self.sensors@[k];
                        &&& s1.id == s0.id
                        &&& s1.name == s0.name
                        &&& s1.zone == s0.zone
                        &&& s1.min_range == s0.min_range
                        &&& s1.max_range == s0.max_range
                        &&& s1.is_active == s0.is_active
                        &&& if k < i && k < inputs.len() {
                            s1.value == inputs@[k] && s1.history@ == next_history(
                                s0.history@,
                                inputs@[k],
                            )
                        } else {
                            s1.value == s0.value && s1.history@ == s0.history@
                        }
                    },
            decreases n - i,
        {
            if i < inputs.len() {
                let val = inputs[i];
                let ghost before = self.sensors@;
                self.sensors[i].set_value(val);
                assert(forall|k: int| 0 <= k < n && k != i ==> self.sensors@[k] == before[k]);
            }
            i = i + 1;
        }
        self.sesi
    }

    /// Records the result for the `i`-th sensor in the current session: appends its
    /// log line (session, zone, current value, moving average `ma`, log label of
    /// `status`) and lets the controller handle `status`. Returns whether `status`
    /// is an alarm.
    pub fn record_reading(&mut self, i: usize, ma: T, status: StatusSuhu) -> (alarm: bool)
        requires
            i < old(self).sensors.len(),
            is_alarm(status) ==> old(self).controller.alarm_count < u32::MAX,
        ensures
            alarm == is_alarm(status),
            final(self).log.len() == old(self).log.len() + 1,
            final(self).log@.subrange(0, old(self).log.len() as int) == old(self).log@,
            final(self).log@.last().sesi == old(self).sesi,
            final(self).log@.last().zona@ == old(self).sensors@[i as int].zone@,
            final(self).log@.last().suhu_raw == old(self).sensors@[i as int].value,
            final(self).log@.last().suhu_ma == ma,
            final(self).log@.last().status@ == spec_log_label(status),
            final(self).controller == old(self).controller.after_status(status),
            final(self).sensors@ == old(self).sensors@,
            final(self).sesi == old(self).sesi,
            final(self).nama_perusahaan == old(self).nama_perusahaan,
            final(self).ma_window == old(self).ma_window,
    {
        let entry = DataLog {
            sesi: self.sesi,
            zona: self.sensors[i].zone.clone(),
            suhu_raw: self.sensors[i].value,
            suhu_ma: ma,
            status: status.log_label().to_owned(),
        };
        self.log.push(entry);
        self.controller.trigger_alarm(&status);
        status.is_alarm()
    }

    /// Records a whole session whose sensor values are already set (by
    /// `start_session`): for every sensor in order, its log line with moving average
    /// `mas[j]` and status `statuses[j]` is appended and the controller handles
    /// `statuses[j]`. Reports whether any zone raised an alarm and, zone by zone,
    /// what the controller did to the actuators.
    pub fn record_session(&mut self, mas: &Vec<T>, statuses: &Vec<StatusSuhu>) -> (out:
        SessionOutcome)
        requires
            mas.len() == old(self).sensors.len(),
            statuses.len() == old(self).sensors.len(),
            old(self).controller.alarm_count + count_alarms(statuses@) <= u32::MAX,
        ensures
            final(self).log.len() == old(self).log.len() + old(self).sensors.len(),
            final(self).log@.subrange(0, old(self).log.len() as int) == old(self).log@,
            forall|j: int|
                0 <= j < old(self).sensors.len() ==> is_log_line(
                    #[trigger] final(self).log@[old(self).log.len() + j],
                    old(self).sesi,
                    old(self).sensors@[j],
                    mas@[j],
                    statuses@[j],
                ),
            final(self).controller == old(self).controller.after_statuses(statuses@),
            final(self).controller.alarm_count == old(self).controller.alarm_count
                + count_alarms(statuses@),
            out.any_alarm == (exists|j: int|
                0 <= j < statuses.len() && is_alarm(#[trigger] statuses@[j])),
            out.changes.len() == old(self).sensors.len(),
            forall|j: int|
                0 <= j < old(self).sensors.len() ==> #[trigger] out.changes@[j] == change_of(
                    old(self).controller.after_statuses(statuses@.take(j)),
                    statuses@[j],
                ),
            final(self).sensors@ == old(self).sensors@,
            final(self).sesi == old(self).sesi,
            final(self).nama_perusahaan == old(self).nama_perusahaan,
            final(self).ma_window == old(self).ma_window,
    {
        let n = self.sensors.len();
        let mut any_alarm = false;
        let mut changes: Vec<ActuatorChange> = Vec::new();
        let mut i: usize = 0;
        proof {
            assert(statuses@.take(0) =~= Seq::<StatusSuhu>::empty());
        }
        while i < n
            invariant
                n == old(self).sensors.len(),
                n == mas.len(),
                n == statuses.len(),
                i <= n,
                old(self).controller.alarm_count + count_alarms(statuses@) <= u32::MAX,
                self.sensors@ == old(self).sensors@,
                self.sesi == old(self).sesi,
                self.nama_perusahaan == old(self).nama_perusahaan,
                self.ma_window == old(self).ma_window,
                self.log.len() == old(self).log.len() + i,
                self.log@.subrange(0, old(self).log.len() as int) == old(self).log@,
                forall|j: int|
                    0 <= j < i ==> is_log_line(
                        #[trigger] self.log@[old(self).log.len() + j],
                        old(self).sesi,
                        old(self).sensors@[j],
                        mas@[j],
                        statuses@[j],
                    ),
                self.controller == old(self).controller.after_statuses(statuses@.take(i as int)),
                self.controller.alarm_count == old(self).controller.alarm_count + count_alarms(
                    statuses@.take(i as int),
                ),
                any_alarm == (exists|j: int| 0 <= j < i && is_alarm(#[trigger] statuses@[j])),
                changes.len() == i,
                forall|j: int|
                    0 <= j < i ==> #[trigger] changes@[j] == change_of(
                        old(self).controller.after_statuses(statuses@.take(j)),
                        statuses@[j],
                    ),
            decreases n - i,
        {
            let status = statuses[i];
            let ghost before = self.controller;
            let ghost log_before = self.log@;
            proof {
                assert(statuses@.take(i + 1) =~= statuses@.take(i as int).push(status));
                lemma_count_alarms_prefix(statuses@, i + 1);
                crate::controller::lemma_count_alarms_push(statuses@.take(i as int), status);
                lemma_after_statuses_push(old(self).controller, statuses@.take(i as int), status);
            }
            let cooling_before = self.controller.cooling_active;
            let heater_before = self.controller.heater_active;
            let alarm = self.record_reading(i, mas[i], status);
            if alarm {
                any_alarm = true;
            }
            let change = ActuatorChange {
                cooling_switched: cooling_before != self.controller.cooling_active,
                cooling_active: self.controller.cooling_active,
                heater_switched: heater_before != self.controller.heater_active,
                heater_active: self.controller.heater_active,
            };
            changes.push(change);
            proof {
                assert(self.log@.subrange(0, log_before.len() as int) == log_before);
                assert forall|j: int| 0 <= j < i + 1 implies is_log_line(
                    #[trigger] self.log@[old(self).log.len() + j],
                    old(self).sesi,
                    old(self).sensors@[j],
                    mas@[j],
                    statuses@[j],
                ) by {
                    if j < i {
                        assert(self.log@[old(self).log.len() + j] == log_before[old(self).log.len() + j]);
                    }
                }
            }
            i = i + 1;
        }
        proof {
            assert(statuses@.take(n as int) =~= statuses@);
        }
        SessionOutcome { any_alarm, changes }
    }
}

} // verus!
