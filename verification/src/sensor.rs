use vstd::prelude::*;

verus! {

/// How many of the most recent readings a sensor keeps for its moving average.
pub const HISTORY_LIMIT: usize = 10;

/// The history after recording `val`: the reading is appended and, when the history
/// then holds more than `HISTORY_LIMIT` readings, the oldest one is dropped.
pub open spec fn next_history<T>(h: Seq<T>, val: T) -> Seq<T> {
    let p = h.push(val);
    if p.len() > HISTORY_LIMIT {
        p.drop_first()
    } else {
        p
    }
}

/// The history after recording every reading of `vals` in order.
pub open spec fn history_after<T>(h: Seq<T>, vals: Seq<T>) -> Seq<T>
    decreases vals.len(),
{
    if vals.len() == 0 {
        h
    } else {
        history_after(next_history(h, vals[0]), vals.drop_first())
    }
}

/// The last `HISTORY_LIMIT` elements of `s` (all of them when there are fewer).
pub open spec fn most_recent<T>(s: Seq<T>) -> Seq<T> {
    if s.len() > HISTORY_LIMIT {
        s.subrange(s.len() - HISTORY_LIMIT, s.len() as int)
    } else {
        s
    }
}

/// A history that holds at most `HISTORY_LIMIT` readings still does after one more
/// reading is recorded, and its newest reading is the one just recorded.
pub proof fn lemma_history_bounded<T>(h: Seq<T>, val: T)
    requires
        h.len() <= HISTORY_LIMIT,
    ensures
        next_history(h, val).len() <= HISTORY_LIMIT,
        next_history(h, val).len() > 0,
        next_history(h, val).last() == val,
{
}

/// Starting from a history of at most `HISTORY_LIMIT` readings, recording a run of
/// readings leaves exactly the `HISTORY_LIMIT` most recent readings of the old
/// history followed by the run.
pub proof fn lemma_history_keeps_most_recent<T>(h: Seq<T>, vals: Seq<T>)
    requires
        h.len() <= HISTORY_LIMIT,
    ensures
        history_after(h, vals) == most_recent(h + vals),
    decreases vals.len(),
{
    if vals.len() == 0 {
        assert(h + vals =~= h);
    } else {
        let v0 = vals[0];
        let rest = vals.drop_first();
        let n = next_history(h, v0);
        lemma_history_keeps_most_recent(n, rest);
        let all = h + vals;
        if h.len() < HISTORY_LIMIT {
            assert(n + rest =~= all);
        } else {
            assert(n + rest =~= all.drop_first());
            let d = all.drop_first();
            if d.len() > HISTORY_LIMIT {
                assert(d.subrange(d.len() - HISTORY_LIMIT, d.len() as int)
                    =~= all.subrange(all.len() - HISTORY_LIMIT, all.len() as int));
            } else {
                assert(d =~= all.subrange(all.len() - HISTORY_LIMIT, all.len() as int));
            }
        }
    }
}

/// A sensor built by `Sensor::new` that then records `vals` holds the most recent
/// `HISTORY_LIMIT` of them, oldest first.
pub proof fn lemma_fresh_history<T>(vals: Seq<T>)
    ensures
        history_after(Seq::<T>::empty(), vals) == most_recent(vals),
{
    lemma_history_keeps_most_recent(Seq::<T>::empty(), vals);
    assert(Seq::<T>::empty() + vals =~= vals);
}

/// A physical temperature sensor of one storage zone. `T` is the type of a reading.
#[derive(Debug, Clone)]
pub struct Sensor<T> {
    pub id: u32,
    pub name: String,
    pub zone: String,
    pub value: T,
    pub min_range: T,
    pub max_range: T,
    pub is_active: bool,
    pub history: Vec<T>,
}

impl<T: Copy> Sensor<T> {
    /// Creates an active sensor with the given specification range, showing `value`
    /// and with an empty history.
    pub fn new(id: u32, name: &str, zone: &str, min_range: T, max_range: T, value: T) -> (s: Self)
        ensures
            s.id == id,
            s.name@ == name@,
            s.zone@ == zone@,
            s.value == value,
            s.min_range == min_range,
            s.max_range == max_range,
            s.is_active,
            s.history@ == Seq::<T>::empty(),
    {
        Sensor {
            id,
            name: name.to_owned(),
            zone: zone.to_owned(),
            value,
            min_range,
            max_range,
            is_active: true,
            history: Vec::new(),
        }
    }

    /// Records a new reading: it becomes the current value and enters the history,
    /// which keeps only the most recent `HISTORY_LIMIT` readings.
    pub fn set_value(&mut self, val: T)
        ensures
            final(self).value == val,
            final(self).history@ == next_history(old(self).history@, val),
            final(self).id == old(self).id,
            final(self).name == old(self).name,
            final(self).zone == old(self).zone,
            final(self).min_range == old(self).min_range,
            final(self).max_range == old(self).max_range,
            final(self).is_active == old(self).is_active,
    {
        self.value = val;
        self.history.push(val);
        if self.history.len() > HISTORY_LIMIT {
            self.history.remove(0);
        }
    }

    /// Takes the sensor out of service.
    pub fn deactivate(&mut self)
        ensures
            !final(self).is_active,
            final(self).id == old(self).id,
            final(self).name == old(self).name,
            final(self).zone == old(self).zone,
            final(self).value == old(self).value,
            final(self).min_range == old(self).min_range,
            final(self).max_range == old(self).max_range,
            final(self).history@ == old(self).history@,
    {
        self.is_active = false;
    }
}

} // verus!
