use vstd::prelude::*;

verus! {

/// Temperature condition of one zone.
#[derive(Debug, Clone, Copy, PartialEq, Eq, Structural)]
pub enum StatusSuhu {
    Normal,
    WarningTinggi,
    WarningRendah,
    DangerTinggi,
    DangerRendah,
    SensorError,
}

/// The fixed-width table label shown for each status.
pub open spec fn spec_label(s: StatusSuhu) -> Seq<char> {
    match s {
        StatusSuhu::Normal => "✓ NORMAL      "@,
        StatusSuhu::WarningTinggi => "⚠ WARN TINGGI "@,
        StatusSuhu::WarningRendah => "⚠ WARN RENDAH "@,
        StatusSuhu::DangerTinggi => "✗ DANGER PANAS"@,
        StatusSuhu::DangerRendah => "✗ DANGER DINGIN"@,
        StatusSuhu::SensorError => "! SENSOR ERROR"@,
    }
}

/// The label as stored in the session log: the table label without its padding.
pub open spec fn spec_log_label(s: StatusSuhu) -> Seq<char> {
    match s {
        StatusSuhu::Normal => "✓ NORMAL"@,
        StatusSuhu::WarningTinggi => "⚠ WARN TINGGI"@,
        StatusSuhu::WarningRendah => "⚠ WARN RENDAH"@,
        StatusSuhu::DangerTinggi => "✗ DANGER PANAS"@,
        StatusSuhu::DangerRendah => "✗ DANGER DINGIN"@,
        StatusSuhu::SensorError => "! SENSOR ERROR"@,
    }
}

/// Every status other than `Normal` raises an alarm.
pub open spec fn is_alarm(s: StatusSuhu) -> bool {
    s != StatusSuhu::Normal
}

/// The status of a zone, decided from the sensor's validity and the position of the
/// temperature relative to the thresholds, checked in this order: sensor error, above
/// the danger limit, above the normal maximum, below the danger limit, below the
/// normal minimum, otherwise normal.
pub open spec fn spec_classify(
    sensor_valid: bool,
    above_danger: bool,
    above_normal: bool,
    below_danger: bool,
    below_normal: bool,
) -> StatusSuhu {
    if !sensor_valid {
        StatusSuhu::SensorError
    } else if above_danger {
        StatusSuhu::DangerTinggi
    } else if above_normal {
        StatusSuhu::WarningTinggi
    } else if below_danger {
        StatusSuhu::DangerRendah
    } else if below_normal {
        StatusSuhu::WarningRendah
    } else {
        StatusSuhu::Normal
    }
}

impl StatusSuhu {
    /// Label of the status as printed in the monitoring table.
    pub fn label(&self) -> (s: &str)
        ensures
            s@ == spec_label(*self),
    {
        match self {
            StatusSuhu::Normal => "✓ NORMAL      ",
            StatusSuhu::WarningTinggi => "⚠ WARN TINGGI ",
            StatusSuhu::WarningRendah => "⚠ WARN RENDAH ",
            StatusSuhu::DangerTinggi => "✗ DANGER PANAS",
            StatusSuhu::DangerRendah => "✗ DANGER DINGIN",
            StatusSuhu::SensorError => "! SENSOR ERROR",
        }
    }

    /// Label of the status as written into the session log (no padding).
    pub fn log_label(&self) -> (s: &str)
        ensures
            s@ == spec_log_label(*self),
    {
        match self {
            StatusSuhu::Normal => "✓ NORMAL",
            StatusSuhu::WarningTinggi => "⚠ WARN TINGGI",
            StatusSuhu::WarningRendah => "⚠ WARN RENDAH",
            StatusSuhu::DangerTinggi => "✗ DANGER PANAS",
            StatusSuhu::DangerRendah => "✗ DANGER DINGIN",
            StatusSuhu::SensorError => "! SENSOR ERROR",
        }
    }

    /// Whether this status raises an alarm (anything but `Normal`).
    pub fn is_alarm(&self) -> (b: bool)
        ensures
            b == is_alarm(*self),
    {
        !matches!(self, StatusSuhu::Normal)
    }

    /// Decides the status of a zone from the comparisons of its moving average
    /// against the controller's thresholds (see `spec_classify`).
    pub fn classify(
        sensor_valid: bool,
        above_danger: bool,
        above_normal: bool,
        below_danger: bool,
        below_normal: bool,
    ) -> (s: StatusSuhu)
        ensures
            s == spec_classify(sensor_valid, above_danger, above_normal, below_danger, below_normal),
    {
        if !sensor_valid {
            StatusSuhu::SensorError
        } else if above_danger {
            StatusSuhu::DangerTinggi
        } else if above_normal {
            StatusSuhu::WarningTinggi
        } else if below_danger {
            StatusSuhu::DangerRendah
        } else if below_normal {
            StatusSuhu::WarningRendah
        } else {
            StatusSuhu::Normal
        }
    }
}

/// Alarm and actuator state of a cold room, with its thresholds held as readings of
/// type `T` (the application uses degrees Celsius).
#[derive(Debug, Clone)]
pub struct Controller<T> {
    pub nama_storage: String,
    pub normal_min: T,
    pub normal_max: T,
    pub warning_dev: T,
    pub cooling_active: bool,
    pub heater_active: bool,
    pub alarm_count: u32,
}

impl<T> Controller<T> {
    /// The controller after a cooling command.
    pub open spec fn with_cooling(self, on: bool) -> Self {
        Controller { cooling_active: on, ..self }
    }

    /// The controller after a heater command.
    pub open spec fn with_heater(self, on: bool) -> Self {
        Controller { heater_active: on, ..self }
    }

    /// The controller with its alarm counter raised by one.
    pub open spec fn with_alarm(self) -> Self {
        Controller { alarm_count: (self.alarm_count + 1) as u32, ..self }
    }

    /// The controller after handling a zone in the given status: every alarm is
    /// counted; an over-temperature danger switches cooling on, an under-temperature
    /// danger switches heating on, and a normal zone switches both off.
    pub open spec fn after_status(self, status: StatusSuhu) -> Self {
        match status {
            StatusSuhu::Normal => self.with_cooling(false).with_heater(false),
            StatusSuhu::DangerTinggi => self.with_alarm().with_cooling(true),
            StatusSuhu::DangerRendah => self.with_alarm().with_heater(true),
            _ => self.with_alarm(),
        }
    }

    /// Creates a controller with the given thresholds, both actuators off and no alarm.
    pub fn new(nama: &str, min: T, max: T, dev: T) -> (c: Self)
        ensures
            c.nama_storage@ == nama@,
            c.normal_min == min,
            c.normal_max == max,
            c.warning_dev == dev,
            !c.cooling_active,
            !c.heater_active,
            c.alarm_count == 0,
    {
        Controller {
            nama_storage: nama.to_owned(),
            normal_min: min,
            normal_max: max,
            warning_dev: dev,
            cooling_active: false,
            heater_active: false,
            alarm_count: 0,
        }
    }

    /// Switches cooling to `on`; returns whether its state changed.
    pub fn control_cooling(&mut self, on: bool) -> (changed: bool)
        ensures
            *final(self) == old(self).with_cooling(on),
            changed == (old(self).cooling_active != on),
            final(self).cooling_active == on,
            final(self).heater_active == old(self).heater_active,
            final(self).alarm_count == old(self).alarm_count,
            final(self).nama_storage == old(self).nama_storage,
            final(self).normal_min == old(self).normal_min,
            final(self).normal_max == old(self).normal_max,
            final(self).warning_dev == old(self).warning_dev,
    {
        if self.cooling_active != on {
            self.cooling_active = on;
            true
        } else {
            false
        }
    }

    /// Switches heating to `on`; returns whether its state changed.
    pub fn control_heater(&mut self, on: bool) -> (changed: bool)
        ensures
            *final(self) == old(self).with_heater(on),
            changed == (old(self).heater_active != on),
            final(self).heater_active == on,
            final(self).cooling_active == old(self).cooling_active,
            final(self).alarm_count == old(self).alarm_count,
            final(self).nama_storage == old(self).nama_storage,
            final(self).normal_min == old(self).normal_min,
            final(self).normal_max == old(self).normal_max,
            final(self).warning_dev == old(self).warning_dev,
    {
        if self.heater_active != on {
            self.heater_active = on;
            true
        } else {
            false
        }
    }

    /// Counts the alarm of a zone in `status` and drives the actuators (see `after_status`).
    pub fn trigger_alarm(&mut self, status: &StatusSuhu)
        requires
            is_alarm(*status) ==> old(self).alarm_count < u32::MAX,
        ensures
            *final(self) == old(self).after_status(*status),
    {
        match status {
            StatusSuhu::WarningTinggi | StatusSuhu::WarningRendah | StatusSuhu::SensorError => {
                self.alarm_count = self.alarm_count + 1;
            },
            StatusSuhu::DangerTinggi => {
                self.alarm_count = self.alarm_count + 1;
                self.control_cooling(true);
            },
            StatusSuhu::DangerRendah => {
                self.alarm_count = self.alarm_count + 1;
                self.control_heater(true);
            },
            StatusSuhu::Normal => {
                if self.cooling_active {
                    self.control_cooling(false);
                }
                if self.heater_active {
                    self.control_heater(false);
                }
            },
        }
    }
}

/// Number of statuses in `s` that raise an alarm.
pub open spec fn count_alarms(s: Seq<StatusSuhu>) -> nat
    decreases s.len(),
{
    if s.len() == 0 {
        0
    } else {
        (if is_alarm(s[0]) { 1nat } else { 0nat }) + count_alarms(s.drop_first())
    }
}

impl<T> Controller<T> {
    /// The controller after handling the statuses of `s` in order.
    pub open spec fn after_statuses(self, s: Seq<StatusSuhu>) -> Self
        decreases s.len(),
    {
        if s.len() == 0 {
            self
        } else {
            self.after_status(s[0]).after_statuses(s.drop_first())
        }
    }
}

/// The alarm counter counts alarms: after handling a run of statuses it has grown by
/// exactly the number of statuses other than `Normal`, and the storage name and
/// thresholds are untouched.
pub proof fn lemma_alarm_count_counts<T>(c: Controller<T>, s: Seq<StatusSuhu>)
    requires
        c.alarm_count + count_alarms(s) <= u32::MAX,
    ensures
        c.after_statuses(s).alarm_count == c.alarm_count + count_alarms(s),
        c.after_statuses(s).nama_storage == c.nama_storage,
        c.after_statuses(s).normal_min == c.normal_min,
        c.after_statuses(s).normal_max == c.normal_max,
        c.after_statuses(s).warning_dev == c.warning_dev,
    decreases s.len(),
{
    if s.len() > 0 {
        lemma_alarm_count_counts(c.after_status(s[0]), s.drop_first());
    }
}

/// Counting the alarms of two runs one after the other adds their counts.
pub proof fn lemma_count_alarms_append(a: Seq<StatusSuhu>, b: Seq<StatusSuhu>)
    ensures
        count_alarms(a + b) == count_alarms(a) + count_alarms(b),
    decreases a.len(),
{
    if a.len() > 0 {
        lemma_count_alarms_append(a.drop_first(), b);
        assert((a + b).drop_first() =~= a.drop_first() + b);
    } else {
        assert(a + b =~= b);
    }
}

/// Handling two runs of statuses one after the other is handling their concatenation.
pub proof fn lemma_after_statuses_append<T>(c: Controller<T>, a: Seq<StatusSuhu>, b: Seq<StatusSuhu>)
    ensures
        c.after_statuses(a + b) == c.after_statuses(a).after_statuses(b),
    decreases a.len(),
{
    if a.len() > 0 {
        lemma_after_statuses_append(c.after_status(a[0]), a.drop_first(), b);
        assert((a + b).drop_first() =~= a.drop_first() + b);
    } else {
        assert(a + b =~= b);
    }
}

/// Handling one more status after a run is one more step of `after_status`.
pub proof fn lemma_after_statuses_push<T>(c: Controller<T>, a: Seq<StatusSuhu>, x: StatusSuhu)
    ensures
        c.after_statuses(a.push(x)) == c.after_statuses(a).after_status(x),
{
    lemma_after_statuses_append(c, a, seq![x]);
    assert(a + seq![x] =~= a.push(x));
    let d = c.after_statuses(a);
    assert(seq![x].drop_first() =~= Seq::<StatusSuhu>::empty());
    assert(d.after_statuses(seq![x]) == d.after_status(x).after_statuses(seq![x].drop_first()));
}

/// Counting the alarms of a run plus one more status.
pub proof fn lemma_count_alarms_push(a: Seq<StatusSuhu>, x: StatusSuhu)
    ensures
        count_alarms(a.push(x)) == count_alarms(a) + (if is_alarm(x) { 1nat } else { 0nat }),
{
    lemma_count_alarms_append(a, seq![x]);
    assert(a + seq![x] =~= a.push(x));
    assert(seq![x].drop_first() =~= Seq::<StatusSuhu>::empty());
    assert(seq![x][0] == x);
    assert(count_alarms(Seq::<StatusSuhu>::empty()) == 0);
}

/// A prefix of a run holds no more alarms than the whole run.
pub proof fn lemma_count_alarms_prefix(s: Seq<StatusSuhu>, k: int)
    requires
        0 <= k <= s.len(),
    ensures
        count_alarms(s.take(k)) <= count_alarms(s),
{
    lemma_count_alarms_append(s.take(k), s.skip(k));
    assert(s.take(k) + s.skip(k) =~= s);
}

/// Position of a status on the temperature scale, from too cold to too hot.
pub open spec fn temperature_rank(s: StatusSuhu) -> int {
    match s {
        StatusSuhu::DangerRendah => 0,
        StatusSuhu::WarningRendah => 1,
        StatusSuhu::Normal => 2,
        StatusSuhu::WarningTinggi => 3,
        StatusSuhu::DangerTinggi => 4,
        StatusSuhu::SensorError => 2,
    }
}

/// The comparisons of one reading against thresholds are consistent when they come
/// from `normal_min <= normal_max` and `warning_dev >= 0`: above the danger limit
/// implies above the maximum, below the danger limit implies below the minimum, and
/// no reading is both above the maximum and below the minimum.
pub open spec fn consistent_flags(
    above_danger: bool,
    above_normal: bool,
    below_danger: bool,
    below_normal: bool,
) -> bool {
    &&& above_danger ==> above_normal
    &&& below_danger ==> below_normal
    &&& !(above_normal && below_normal)
}

/// The status of a valid sensor rises with the reading: when reading `b` crosses every
/// upper threshold that reading `a` crosses, and `a` crosses every lower threshold that
/// `b` crosses (as a reading `a <= b` does), the status of `a` is no higher on the
/// temperature scale than the status of `b`.
pub proof fn lemma_classify_monotone(
    a_above_danger: bool,
    a_above_normal: bool,
    a_below_danger: bool,
    a_below_normal: bool,
    b_above_danger: bool,
    b_above_normal: bool,
    b_below_danger: bool,
    b_below_normal: bool,
)
    requires
        consistent_flags(a_above_danger, a_above_normal, a_below_danger, a_below_normal),
        consistent_flags(b_above_danger, b_above_normal, b_below_danger, b_below_normal),
        a_above_danger ==> b_above_danger,
        a_above_normal ==> b_above_normal,
        b_below_danger ==> a_below_danger,
        b_below_normal ==> a_below_normal,
    ensures
        temperature_rank(
            spec_classify(true, a_above_danger, a_above_normal, a_below_danger, a_below_normal),
        ) <= temperature_rank(
            spec_classify(true, b_above_danger, b_above_normal, b_below_danger, b_below_normal),
        ),
{
}

/// The comparisons of reading `x` against the thresholds, in the order `classify`
/// takes them: above `max + dev`, above `max`, below `min - dev`, below `min`.
pub open spec fn threshold_flags(x: int, min: int, max: int, dev: int) -> (bool, bool, bool, bool) {
    (x > max + dev, x > max, x < min - dev, x < min)
}

/// The status of a valid sensor as a function of its reading, for ordered thresholds.
pub open spec fn status_of_reading(x: int, min: int, max: int, dev: int) -> StatusSuhu {
    let f = threshold_flags(x, min, max, dev);
    spec_classify(true, f.0, f.1, f.2, f.3)
}

/// For thresholds with `min <= max` and `dev >= 0`, the status rises with the reading:
/// a higher reading never gives a colder status.
pub proof fn lemma_status_rises_with_reading(a: int, b: int, min: int, max: int, dev: int)
    requires
        min <= max,
        dev >= 0,
        a <= b,
    ensures
        temperature_rank(status_of_reading(a, min, max, dev)) <= temperature_rank(
            status_of_reading(b, min, max, dev),
        ),
{
    let fa = threshold_flags(a, min, max, dev);
    let fb = threshold_flags(b, min, max, dev);
    lemma_classify_monotone(fa.0, fa.1, fa.2, fa.3, fb.0, fb.1, fb.2, fb.3);
}

/// A zone back in the normal range switches both actuators off and raises no alarm,
/// whatever state the controller was in; handling it again changes nothing.
pub proof fn lemma_normal_switches_off<T>(c: Controller<T>)
    ensures
        !c.after_status(StatusSuhu::Normal).cooling_active,
        !c.after_status(StatusSuhu::Normal).heater_active,
        c.after_status(StatusSuhu::Normal).alarm_count == c.alarm_count,
        c.after_status(StatusSuhu::Normal).after_status(StatusSuhu::Normal)
            == c.after_status(StatusSuhu::Normal),
{
}

/// A danger reading drives the matching actuator on and leaves the other one as it was.
pub proof fn lemma_danger_drives_actuator<T>(c: Controller<T>)
    requires
        c.alarm_count < u32::MAX,
    ensures
        c.after_status(StatusSuhu::DangerTinggi).cooling_active,
        c.after_status(StatusSuhu::DangerTinggi).heater_active == c.heater_active,
        c.after_status(StatusSuhu::DangerRendah).heater_active,
        c.after_status(StatusSuhu::DangerRendah).cooling_active == c.cooling_active,
{
}

/// Warnings and sensor errors are counted but never move an actuator.
pub proof fn lemma_warning_keeps_actuators<T>(c: Controller<T>, s: StatusSuhu)
    requires
        s == StatusSuhu::WarningTinggi || s == StatusSuhu::WarningRendah
            || s == StatusSuhu::SensorError,
        c.alarm_count < u32::MAX,
    ensures
        c.after_status(s).cooling_active == c.cooling_active,
        c.after_status(s).heater_active == c.heater_active,
        c.after_status(s).alarm_count == c.alarm_count + 1,
{
}

/// The two actuators are independent: a cooling command sets the cooling and leaves
/// the heater, the alarm counter, the name and the thresholds exactly as they were,
/// and a heater command sets the heater and leaves the cooling and everything else.
/// Commands to different actuators commute.
pub proof fn lemma_actuator_commands_independent<T>(c: Controller<T>, on: bool, other: bool)
    ensures
        c.with_cooling(on).cooling_active == on,
        c.with_cooling(on).heater_active == c.heater_active,
        c.with_cooling(on).alarm_count == c.alarm_count,
        c.with_cooling(on).nama_storage == c.nama_storage,
        c.with_cooling(on).normal_min == c.normal_min,
        c.with_cooling(on).normal_max == c.normal_max,
        c.with_cooling(on).warning_dev == c.warning_dev,
        c.with_heater(on).heater_active == on,
        c.with_heater(on).cooling_active == c.cooling_active,
        c.with_heater(on).alarm_count == c.alarm_count,
        c.with_heater(on).nama_storage == c.nama_storage,
        c.with_heater(on).normal_min == c.normal_min,
        c.with_heater(on).normal_max == c.normal_max,
        c.with_heater(on).warning_dev == c.warning_dev,
        c.with_cooling(on).with_heater(other) == c.with_heater(other).with_cooling(on),
        c.with_cooling(on).with_cooling(other) == c.with_cooling(other),
        c.with_heater(on).with_heater(other) == c.with_heater(other),
{
}

/// Repeating an actuator command changes nothing: the second call finds the state
/// already set.
pub proof fn lemma_actuator_command_idempotent<T>(c: Controller<T>, on: bool)
    ensures
        c.with_cooling(on).with_cooling(on) == c.with_cooling(on),
        c.with_cooling(on).cooling_active == on,
        c.with_heater(on).with_heater(on) == c.with_heater(on),
        c.with_heater(on).heater_active == on,
{
}

/// The classification covers every case exactly as the threshold bands are ordered:
/// a zone is normal exactly when its sensor is valid and no threshold is crossed, and
/// an invalid sensor always reports a sensor error.
pub proof fn lemma_classify_bands(
    sensor_valid: bool,
    above_danger: bool,
    above_normal: bool,
    below_danger: bool,
    below_normal: bool,
)
    ensures
        (spec_classify(sensor_valid, above_danger, above_normal, below_danger, below_normal)
            == StatusSuhu::Normal) <==> (sensor_valid && !above_danger && !above_normal
            && !below_danger && !below_normal),
        !sensor_valid ==> spec_classify(
            sensor_valid,
            above_danger,
            above_normal,
            below_danger,
            below_normal,
        ) == StatusSuhu::SensorError,
{
}

/// The table label is the log label padded on the right with spaces.
pub proof fn lemma_label_pads_log_label(s: StatusSuhu)
    ensures
        spec_log_label(s).len() <= spec_label(s).len(),
        spec_label(s).subrange(0, spec_log_label(s).len() as int) == spec_log_label(s),
        forall|i: int|
            spec_log_label(s).len() <= i < spec_label(s).len() ==> #[trigger] spec_label(s)[i]
                == ' ',
{
    reveal_strlit("✓ NORMAL      ");
    reveal_strlit("⚠ WARN TINGGI ");
    reveal_strlit("⚠ WARN RENDAH ");
    reveal_strlit("✗ DANGER PANAS");
    reveal_strlit("✗ DANGER DINGIN");
    reveal_strlit("! SENSOR ERROR");
    reveal_strlit("✓ NORMAL");
    reveal_strlit("⚠ WARN TINGGI");
    reveal_strlit("⚠ WARN RENDAH");
    match s {
        StatusSuhu::Normal => {
            assert("✓ NORMAL      "@.subrange(0, 8) =~= "✓ NORMAL"@);
        },
        StatusSuhu::WarningTinggi => {
            assert("⚠ WARN TINGGI "@.subrange(0, 13) =~= "⚠ WARN TINGGI"@);
        },
        StatusSuhu::WarningRendah => {
            assert("⚠ WARN RENDAH "@.subrange(0, 13) =~= "⚠ WARN RENDAH"@);
        },
        StatusSuhu::DangerTinggi => {
            assert("✗ DANGER PANAS"@.subrange(0, 14) =~= "✗ DANGER PANAS"@);
        },
        StatusSuhu::DangerRendah => {
            assert("✗ DANGER DINGIN"@.subrange(0, 15) =~= "✗ DANGER DINGIN"@);
        },
        StatusSuhu::SensorError => {
            assert("! SENSOR ERROR"@.subrange(0, 14) =~= "! SENSOR ERROR"@);
        },
    }
}

/// Length, first character and eighth character of a table label.
spec fn label_key(s: StatusSuhu) -> (nat, char, char) {
    match s {
        StatusSuhu::Normal => (14, '✓', 'L'),
        StatusSuhu::WarningTinggi => (14, '⚠', 'T'),
        StatusSuhu::WarningRendah => (14, '⚠', 'R'),
        StatusSuhu::DangerTinggi => (14, '✗', 'R'),
        StatusSuhu::DangerRendah => (15, '✗', 'R'),
        StatusSuhu::SensorError => (14, '!', 'R'),
    }
}

/// Length, first character and eighth character of a log label.
spec fn log_label_key(s: StatusSuhu) -> (nat, char, char) {
    match s {
        StatusSuhu::Normal => (8, '✓', 'L'),
        StatusSuhu::WarningTinggi => (13, '⚠', 'T'),
        StatusSuhu::WarningRendah => (13, '⚠', 'R'),
        StatusSuhu::DangerTinggi => (14, '✗', 'R'),
        StatusSuhu::DangerRendah => (15, '✗', 'R'),
        StatusSuhu::SensorError => (14, '!', 'R'),
    }
}

proof fn lemma_label_keys(s: StatusSuhu)
    ensures
        label_key(s) == (spec_label(s).len(), spec_label(s)[0], spec_label(s)[7]),
        log_label_key(s) == (spec_log_label(s).len(), spec_log_label(s)[0], spec_log_label(s)[7]),
{
    reveal_strlit("✓ NORMAL      ");
    reveal_strlit("⚠ WARN TINGGI ");
    reveal_strlit("⚠ WARN RENDAH ");
    reveal_strlit("✗ DANGER PANAS");
    reveal_strlit("✗ DANGER DINGIN");
    reveal_strlit("! SENSOR ERROR");
    reveal_strlit("✓ NORMAL");
    reveal_strlit("⚠ WARN TINGGI");
    reveal_strlit("⚠ WARN RENDAH");
}

/// Distinct statuses have distinct labels, so a printed label identifies its status.
pub proof fn lemma_labels_distinct(a: StatusSuhu, b: StatusSuhu)
    requires
        a != b,
    ensures
        spec_label(a) != spec_label(b),
        spec_log_label(a) != spec_log_label(b),
{
    lemma_label_keys(a);
    lemma_label_keys(b);
}

} // verus!
