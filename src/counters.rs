use vstd::multiset::Multiset;
use vstd::prelude::*;

verus! {

/// The two conversions whose use is counted.
#[derive(Clone, Copy, Debug, PartialEq, Eq, Structural)]
pub enum Operation {
    ToCelsius,
    ToFahrenheit,
}

/// The value a `usize` count takes after one increment: one more, or zero
/// after the largest value (native unsigned wrap-around).
pub open spec fn incremented(n: usize) -> usize {
    if n == usize::MAX {
        0
    } else {
        (n + 1) as usize
    }
}

/// Per-operation invocation counts of the two conversions.
#[derive(Clone, Copy, Debug, PartialEq, Eq, Structural)]
pub struct Counters {
    pub to_celcius: usize,
    pub to_fahrenheit: usize,
}

/// The counts after one use of `op`: its own count goes up by one, the other
/// one stays.
pub open spec fn after(c: Counters, op: Operation) -> Counters {
    match op {
        Operation::ToCelsius => Counters { to_celcius: incremented(c.to_celcius), ..c },
        Operation::ToFahrenheit => Counters { to_fahrenheit: incremented(c.to_fahrenheit), ..c },
    }
}

/// The counts after the uses `ops`, applied one after the other from `c`.
pub open spec fn replay(c: Counters, ops: Seq<Operation>) -> Counters
    decreases ops.len(),
{
    if ops.len() == 0 {
        c
    } else {
        after(replay(c, ops.drop_last()), ops.last())
    }
}

impl Counters {
    /// Both counts at zero.
    pub fn new() -> (r: Counters)
        ensures
            r.to_celcius == 0,
            r.to_fahrenheit == 0,
    {
        Counters { to_celcius: 0, to_fahrenheit: 0 }
    }

    /// Counts one Fahrenheit-to-Celsius conversion.
    pub fn increment_to_celsius(&mut self)
        ensures
            *final(self) == after(*old(self), Operation::ToCelsius),
    {
        self.to_celcius = self.to_celcius.wrapping_add(1);
    }

    /// Counts one Celsius-to-Fahrenheit conversion.
    pub fn increment_to_fahrenheit(&mut self)
        ensures
            *final(self) == after(*old(self), Operation::ToFahrenheit),
    {
        self.to_fahrenheit = self.to_fahrenheit.wrapping_add(1);
    }

    /// Counts one use of `op`.
    pub fn increment(&mut self, op: Operation)
        ensures
            *final(self) == after(*old(self), op),
    {
        match op {
            Operation::ToCelsius => self.increment_to_celsius(),
            Operation::ToFahrenheit => self.increment_to_fahrenheit(),
        }
    }
}

impl Default for Counters {
    fn default() -> (r: Counters)
        ensures
            r.to_celcius == 0,
            r.to_fahrenheit == 0,
    {
        Counters::new()
    }
}

/// No use is lost or counted twice: after any sequence of uses, in any order,
/// each count has grown by exactly the number of uses of its operation, as
/// long as neither count passes the largest `usize`.
pub proof fn lemma_replay_counts_every_use(c: Counters, ops: Seq<Operation>)
    requires
        c.to_celcius + ops.to_multiset().count(Operation::ToCelsius) <= usize::MAX,
        c.to_fahrenheit + ops.to_multiset().count(Operation::ToFahrenheit) <= usize::MAX,
    ensures
        replay(c, ops).to_celcius == c.to_celcius + ops.to_multiset().count(Operation::ToCelsius),
        replay(c, ops).to_fahrenheit == c.to_fahrenheit + ops.to_multiset().count(
            Operation::ToFahrenheit,
        ),
    decreases ops.len(),
{
    broadcast use vstd::seq_lib::group_to_multiset_ensures;
    broadcast use vstd::multiset::group_multiset_axioms;

    if ops.len() == 0 {
        assert(ops.to_multiset() =~= Multiset::empty());
    } else {
        let init = ops.drop_last();
        assert(init.push(ops.last()) =~= ops);
        lemma_replay_counts_every_use(c, init);
    }
}

/// Every use is of one of the two operations, so their counts add up to the
/// number of uses.
proof fn lemma_counts_cover(ops: Seq<Operation>)
    ensures
        ops.to_multiset().count(Operation::ToCelsius) + ops.to_multiset().count(
            Operation::ToFahrenheit,
        ) == ops.len(),
    decreases ops.len(),
{
    broadcast use vstd::seq_lib::group_to_multiset_ensures;
    broadcast use vstd::multiset::group_multiset_axioms;

    if ops.len() == 0 {
        assert(ops.to_multiset() =~= Multiset::empty());
    } else {
        let init = ops.drop_last();
        assert(init.push(ops.last()) =~= ops);
        lemma_counts_cover(init);
    }
}

/// Uses applied from zero: each count equals the number of uses of its
/// operation, whatever the order in which they came.
pub proof fn lemma_replay_from_zero(ops: Seq<Operation>)
    requires
        ops.len() <= usize::MAX,
    ensures
        replay(Counters { to_celcius: 0, to_fahrenheit: 0 }, ops).to_celcius
            == ops.to_multiset().count(Operation::ToCelsius),
        replay(Counters { to_celcius: 0, to_fahrenheit: 0 }, ops).to_fahrenheit
            == ops.to_multiset().count(Operation::ToFahrenheit),
{
    lemma_counts_cover(ops);
    lemma_replay_counts_every_use(Counters { to_celcius: 0, to_fahrenheit: 0 }, ops);
}

} // verus!
