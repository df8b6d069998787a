use vstd::prelude::*;

verus! {

/// The value that a saturating addition of `step` to `v` gives under `top`.
pub open spec fn sat_add(v: nat, step: nat, top: nat) -> nat {
    if v + step > top {
        top
    } else {
        v + step
    }
}

/// The value that a saturating subtraction of `step` from `v` gives.
pub open spec fn sat_sub(v: nat, step: nat) -> nat {
    if step > v {
        0
    } else {
        (v - step) as nat
    }
}

/// A counter that never wraps: every relative change saturates at zero and
/// at `ceiling()`.
pub trait Bound<T> {
    /// The stored value.
    spec fn level(&self) -> nat;

    /// The largest value the counter can hold.
    spec fn ceiling() -> nat;

    /// The size of a step given as `T`.
    spec fn step_size(step: T) -> nat;

    fn value(&self) -> (r: &u32)
        ensures
            *r as nat == self.level(),
    ;

    fn set_value(&mut self, value: u32) -> (r: &Self)
        ensures
            final(self).level() == value as nat,
            r.level() == final(self).level(),
    ;

    fn inc(&mut self) -> (r: &Self)
        requires
            old(self).level() <= Self::ceiling(),
        ensures
            final(self).level() == sat_add(old(self).level(), 1, Self::ceiling()),
            r.level() == final(self).level(),
    ;

    fn inc_by(&mut self, step: T) -> (r: &Self)
        requires
            old(self).level() <= Self::ceiling(),
        ensures
            final(self).level() == sat_add(old(self).level(), Self::step_size(step), Self::ceiling()),
            r.level() == final(self).level(),
    ;

    fn dec(&mut self) -> (r: &Self)
        ensures
            final(self).level() == sat_sub(old(self).level(), 1),
            r.level() == final(self).level(),
    ;

    fn dec_by(&mut self, step: T) -> (r: &Self)
        ensures
            final(self).level() == sat_sub(old(self).level(), Self::step_size(step)),
            r.level() == final(self).level(),
    ;
}

/// Position in the playback queue, as reported by the daemon.
#[derive(Debug, Default, PartialEq, Eq, Structural, Clone, Copy)]
pub struct CurrentIndex(pub u32);

impl CurrentIndex {
    /// A position holding `value`.
    pub fn new(value: u32) -> (r: CurrentIndex)
        ensures
            r.0 == value,
    {
        CurrentIndex(value)
    }
}

impl Bound<u32> for CurrentIndex {
    open spec fn level(&self) -> nat {
        self.0 as nat
    }

    open spec fn ceiling() -> nat {
        u32::MAX as nat
    }

    open spec fn step_size(step: u32) -> nat {
        step as nat
    }

    fn value(&self) -> (r: &u32) {
        &self.0
    }

    fn set_value(&mut self, value: u32) -> (r: &Self) {
        self.0 = value;
        self
    }

    fn inc(&mut self) -> (r: &Self) {
        self.0 = self.0.saturating_add(1);
        self
    }

    fn inc_by(&mut self, step: u32) -> (r: &Self) {
        self.0 = self.0.saturating_add(step);
        self
    }

    fn dec(&mut self) -> (r: &Self) {
        self.0 = self.0.saturating_sub(1);
        self
    }

    fn dec_by(&mut self, step: u32) -> (r: &Self) {
        self.0 = self.0.saturating_sub(step);
        self
    }
}


/// The mixer's volume, as reported by the daemon.
#[derive(Debug, Default, PartialEq, Eq, Structural, Clone, Copy)]
pub struct Volume(pub u32);

impl Volume {
    /// A volume holding `value`.
    pub fn new(value: u32) -> (r: Volume)
        ensures
            r.0 == value,
    {
        Volume(value)
    }
}

impl Bound<u32> for Volume {
    open spec fn level(&self) -> nat {
        self.0 as nat
    }

    open spec fn ceiling() -> nat {
        u32::MAX as nat
    }

    open spec fn step_size(step: u32) -> nat {
        step as nat
    }

    fn value(&self) -> (r: &u32) {
        &self.0
    }

    fn set_value(&mut self, value: u32) -> (r: &Self) {
        self.0 = value;
        self
    }

    fn inc(&mut self) -> (r: &Self) {
        self.0 = self.0.saturating_add(1);
        self
    }

    fn inc_by(&mut self, step: u32) -> (r: &Self) {
        self.0 = self.0.saturating_add(step);
        self
    }

    fn dec(&mut self) -> (r: &Self) {
        self.0 = self.0.saturating_sub(1);
        self
    }

    fn dec_by(&mut self, step: u32) -> (r: &Self) {
        self.0 = self.0.saturating_sub(step);
        self
    }
}


/// One relative change of a counter.
#[derive(Debug, Clone, Copy, PartialEq, Eq, Structural)]
pub enum Adjust {
    Inc,
    Dec,
    IncBy(u32),
    DecBy(u32),
}

/// What one change does to a `u32` counter's value.
pub open spec fn adjusted(v: nat, a: Adjust) -> nat {
    match a {
        Adjust::Inc => sat_add(v, 1, u32::MAX as nat),
        Adjust::Dec => sat_sub(v, 1),
        Adjust::IncBy(n) => sat_add(v, n as nat, u32::MAX as nat),
        Adjust::DecBy(n) => sat_sub(v, n as nat),
    }
}

/// The value after the changes `adjs`, first to last.
pub open spec fn adjusted_all(v: nat, adjs: Seq<Adjust>) -> nat
    decreases adjs.len(),
{
    if adjs.len() == 0 {
        v
    } else {
        adjusted(adjusted_all(v, adjs.drop_last()), adjs.last())
    }
}

impl CurrentIndex {
    /// Applies one change, as the matching method of [`Bound`] does.
    pub fn adjust(&mut self, a: Adjust)
        ensures
            final(self).level() == adjusted(old(self).level(), a),
    {
        match a {
            Adjust::Inc => {
                self.inc();
            },
            Adjust::Dec => {
                self.dec();
            },
            Adjust::IncBy(n) => {
                self.inc_by(n);
            },
            Adjust::DecBy(n) => {
                self.dec_by(n);
            },
        }
    }
}

/// However many increments and decrements, by one or by any step, a counter
/// goes through, its value stays between zero and the largest `u32`.
pub proof fn lemma_adjustments_stay_in_range(start: nat, adjs: Seq<Adjust>)
    requires
        start <= u32::MAX,
    ensures
        0 <= adjusted_all(start, adjs) <= u32::MAX,
    decreases adjs.len(),
{
    if adjs.len() > 0 {
        lemma_adjustments_stay_in_range(start, adjs.drop_last());
    }
}

} // verus!
