//! The cyclic counter with which a demo's frame loop steps through a list
//! of effects, staying on each one for a fixed number of ticks.

use vstd::prelude::*;
use vstd::arithmetic::div_mod::lemma_multiply_divide_lt;
use vstd::arithmetic::div_mod::lemma_small_mod;

verus! {

/// Steps through `effects` many effects, staying on each for `period`
/// ticks, then starts over.
pub struct EffectCycle {
    count: u32,
    period: u32,
    effects: u32,
}

impl EffectCycle {
    /// The ticks seen since the cycle last started over.
    pub closed spec fn spec_count(&self) -> u32 {
        self.count
    }

    /// How many ticks the cycle stays on one effect.
    pub closed spec fn spec_period(&self) -> u32 {
        self.period
    }

    /// How many effects the cycle steps through.
    pub closed spec fn spec_effects(&self) -> u32 {
        self.effects
    }

    /// The counter stays ahead of the tick count's wrap-around.
    pub open spec fn wf(&self) -> bool {
        &&& 1 <= self.spec_period()
        &&& 1 <= self.spec_effects()
        &&& self.spec_effects() * self.spec_period() <= u32::MAX
        &&& self.spec_count() < self.spec_effects() * self.spec_period()
    }

    /// A cycle over `effects` many effects of `period` ticks each, starting
    /// at the first tick of the first effect.
    pub fn new(effects: u32, period: u32) -> (r: Self)
        requires
            1 <= effects,
            1 <= period,
            effects * period <= u32::MAX,
        ensures
            r.wf(),
            r.spec_count() == 0,
            r.spec_period() == period,
            r.spec_effects() == effects,
    {
        proof {
            assert(effects as int * period as int >= 1) by (nonlinear_arith)
                requires
                    effects >= 1 && period >= 1,
            ;
        }
        EffectCycle { count: 0, period, effects }
    }

    /// Advances the cycle by one tick, starting over after the last tick of
    /// the last effect.
    pub fn tick(&mut self)
        requires
            old(self).wf(),
        ensures
            final(self).wf(),
            final(self).spec_period() == old(self).spec_period(),
            final(self).spec_effects() == old(self).spec_effects(),
            final(self).spec_count() == (old(self).spec_count() + 1) % (
            old(self).spec_effects() * old(self).spec_period()),
    {
        proof {
            let m: int = self.effects as int * self.period as int;
            if self.count + 1 < m {
                lemma_small_mod((self.count + 1) as nat, m as nat);
            } else {
                assert(self.count + 1 == m);
                assert(m % m == 0) by (nonlinear_arith)
                    requires
                        m >= 1,
                ;
            }
        }
        self.count = self.count + 1;
        if self.count >= self.effects * self.period {
            self.count = 0;
        }
    }

    /// The effect the cycle is on now; always a position in the effect list.
    pub fn current(&self) -> (r: u32)
        requires
            self.wf(),
        ensures
            r == self.spec_count() / self.spec_period(),
            r < self.spec_effects(),
    {
        proof {
            assert(self.count < self.period as int * self.effects as int) by (nonlinear_arith)
                requires
                    self.count < self.effects as int * self.period as int,
            ;
            lemma_multiply_divide_lt(
                self.count as int,
                self.period as int,
                self.effects as int,
            );
        }
        self.count / self.period
    }
}

} // verus!
