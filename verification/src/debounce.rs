//! Debounced input filter.
//!
//! A noisy boolean signal (a mechanical button read once per loop iteration)
//! is turned into reliable edge events: the filter keeps the last four raw
//! samples and the last stable reported level, and reports an edge only on
//! the first update where all four most recent samples agree on a level that
//! differs from the last stable one.

use vstd::prelude::*;

verus! {

/// A stable level change reported by the debounce filter.
#[derive(PartialEq, Eq, Structural, Clone, Copy, Debug)]
pub enum Edge {
    Rising,
    Falling,
}

/// Shift register of the last four raw samples plus the last stable level.
///
/// `s0` is the oldest sample, `s3` the newest. One instance exists per
/// physical button; it is created at the start of each blocking sub-loop and
/// does not persist across sub-loops.
#[derive(PartialEq, Eq, Structural, Clone, Copy, Debug)]
pub struct Debouncer {
    pub s0: bool,
    pub s1: bool,
    pub s2: bool,
    pub s3: bool,
    pub stable: bool,
}

impl Debouncer {
    /// All four recorded samples are at the given level.
    pub open spec fn spec_all_at(self, level: bool) -> bool {
        self.s0 == level && self.s1 == level && self.s2 == level && self.s3 == level
    }

    /// How many of the newest samples (from `s3` backwards) are at `level`.
    pub open spec fn spec_trailing(self, level: bool) -> nat {
        if self.s3 != level {
            0
        } else if self.s2 != level {
            1
        } else if self.s1 != level {
            2
        } else if self.s0 != level {
            3
        } else {
            4
        }
    }

    /// The register after shifting in one raw sample, stable level updated.
    pub open spec fn spec_step(self, sample: bool) -> Debouncer {
        let shifted = Debouncer { s0: self.s1, s1: self.s2, s2: self.s3, s3: sample, ..self };
        if shifted.spec_all_at(!self.stable) {
            Debouncer { stable: !self.stable, ..shifted }
        } else {
            shifted
        }
    }

    /// The edge reported for one raw sample: the stable level flips exactly
    /// when the shifted register agrees on the opposite level.
    pub open spec fn spec_edge(self, sample: bool) -> Option<Edge> {
        let shifted = Debouncer { s0: self.s1, s1: self.s2, s2: self.s3, s3: sample, ..self };
        if shifted.spec_all_at(!self.stable) {
            if self.stable {
                Some(Edge::Falling)
            } else {
                Some(Edge::Rising)
            }
        } else {
            None
        }
    }

    /// A fresh filter at `initial`: all samples and the stable level.
    pub open spec fn new_spec(initial: bool) -> Debouncer {
        Debouncer { s0: initial, s1: initial, s2: initial, s3: initial, stable: initial }
    }

    /// A fresh filter that considers `initial` the stable level.
    pub fn new(initial: bool) -> (r: Debouncer)
        ensures
            r == Debouncer::new_spec(initial),
    {
        Debouncer { s0: initial, s1: initial, s2: initial, s3: initial, stable: initial }
    }

    /// Feed one raw sample; report the stable level change, if any.
    pub fn update(&mut self, sample: bool) -> (edge: Option<Edge>)
        ensures
            *final(self) == old(self).spec_step(sample),
            edge == old(self).spec_edge(sample),
    {
        let shifted_all_high = self.s1 && self.s2 && self.s3 && sample;
        let shifted_all_low = !self.s1 && !self.s2 && !self.s3 && !sample;
        self.s0 = self.s1;
        self.s1 = self.s2;
        self.s2 = self.s3;
        self.s3 = sample;
        if !self.stable && shifted_all_high {
            self.stable = true;
            Some(Edge::Rising)
        } else if self.stable && shifted_all_low {
            self.stable = false;
            Some(Edge::Falling)
        } else {
            None
        }
    }

    /// All four recorded samples are high.
    pub fn is_high(&self) -> (r: bool)
        ensures
            r == self.spec_all_at(true),
    {
        self.s0 && self.s1 && self.s2 && self.s3
    }

    /// All four recorded samples are low.
    pub fn is_low(&self) -> (r: bool)
        ensures
            r == self.spec_all_at(false),
    {
        !self.s0 && !self.s1 && !self.s2 && !self.s3
    }
}

/// The filter state after feeding `n` raw samples at a constant `level`.
pub open spec fn run_const(d: Debouncer, level: bool, n: nat) -> Debouncer
    decreases n,
{
    if n == 0 {
        d
    } else {
        run_const(d.spec_step(level), level, (n - 1) as nat)
    }
}

/// The edges reported, in order, over `n` updates at a constant `level`.
pub open spec fn edges_const(d: Debouncer, level: bool, n: nat) -> Seq<Edge>
    decreases n,
{
    if n == 0 {
        Seq::empty()
    } else {
        (match d.spec_edge(level) {
            Some(e) => seq![e],
            None => Seq::empty(),
        }) + edges_const(d.spec_step(level), level, (n - 1) as nat)
    }
}

/// Once the stable level and all samples agree with the input level, further
/// updates at that level report nothing.
proof fn lemma_settled_reports_nothing(d: Debouncer, level: bool, n: nat)
    requires
        d.stable == level,
        d.spec_all_at(level),
    ensures
        edges_const(d, level, n) == Seq::<Edge>::empty(),
        run_const(d, level, n) == d,
    decreases n,
{
    if n > 0 {
        assert(d.spec_step(level) == d);
        lemma_settled_reports_nothing(d, level, (n - 1) as nat)
    }
}

/// Generalized debounce law: from a filter whose stable level differs from
/// the input level, enough constant-level updates report exactly one edge,
/// in the direction of the input level. "Enough" is four updates less the
/// newest samples already at that level.
proof fn lemma_const_level_one_edge(d: Debouncer, level: bool, n: nat)
    requires
        d.stable != level,
        n >= 1,
        n + d.spec_trailing(level) >= 4,
    ensures
        edges_const(d, level, n) == seq![if level { Edge::Rising } else { Edge::Falling }],
    decreases n,
{
    let d1 = d.spec_step(level);
    match d.spec_edge(level) {
        Some(e) => {
            assert(d1.stable == level && d1.spec_all_at(level));
            lemma_settled_reports_nothing(d1, level, (n - 1) as nat);
            assert(edges_const(d, level, n) =~= seq![e]);
        },
        None => {
            assert(d1.spec_trailing(level) >= d.spec_trailing(level) + 1);
            lemma_const_level_one_edge(d1, level, (n - 1) as nat);
            assert(edges_const(d, level, n) =~= edges_const(d1, level, (n - 1) as nat));
        },
    }
}

/// Debounce law: feeding a constant level for at least four updates to a
/// filter whose stable level differs reports exactly one edge event, of the
/// direction matching the level.
pub proof fn lemma_debounce_constant_level(d: Debouncer, level: bool, n: nat)
    requires
        d.stable != level,
        n >= 4,
    ensures
        edges_const(d, level, n) == seq![if level { Edge::Rising } else { Edge::Falling }],
{
    lemma_const_level_one_edge(d, level, n)
}

} // verus!
