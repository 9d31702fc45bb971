use vstd::prelude::*;

verus! {

/// Highest infection level a city can carry.
pub const MAX_SPREAD: u8 = 3;

#[derive(Clone, Copy, Debug, PartialEq, Eq, Structural)]
pub enum DiseaseKind {
    Red,
    Blue,
    Yellow,
    Black,
}

/// The infection a city carries: its level, from 0 to `MAX_SPREAD`, and the
/// kind of disease that is at home there.
#[derive(Clone, Copy, Debug, PartialEq, Eq, Structural)]
pub struct Disease {
    pub spread: u8,
    pub kind: DiseaseKind,
}

/// The level a city has after one more infection: one higher, but never
/// above `MAX_SPREAD`.
pub open spec fn infected_level(level: u8) -> u8 {
    if level >= MAX_SPREAD {
        MAX_SPREAD
    } else {
        (level + 1) as u8
    }
}

/// Whether one more infection at `level` would pass the cap, which is an
/// outbreak.
pub open spec fn breaks_out(level: u8) -> bool {
    level >= MAX_SPREAD
}

/// The level after `times` infections in a row.
pub open spec fn level_after(level: u8, times: nat) -> u8
    decreases times,
{
    if times == 0 {
        level
    } else {
        infected_level(level_after(level, (times - 1) as nat))
    }
}

/// The number of outbreaks that `times` infections in a row set off.
pub open spec fn outbreaks_during(level: u8, times: nat) -> nat
    decreases times,
{
    if times == 0 {
        0
    } else {
        let before = level_after(level, (times - 1) as nat);
        outbreaks_during(level, (times - 1) as nat) + if breaks_out(before) {
            1nat
        } else {
            0nat
        }
    }
}

/// However often a city is infected, its level never passes `MAX_SPREAD`:
/// from a level within the cap it climbs one by one up to the cap and stays
/// there.
pub proof fn lemma_level_stays_capped(level: u8, times: nat)
    requires
        level <= MAX_SPREAD,
    ensures
        level_after(level, times) <= MAX_SPREAD,
        level_after(level, times) == if level + times <= MAX_SPREAD {
            level + times
        } else {
            MAX_SPREAD as int
        },
    decreases times,
{
    if times > 0 {
        lemma_level_stays_capped(level, (times - 1) as nat);
    }
}

/// Each infection that would pass the cap sets off one outbreak and no other
/// infection does: of `times` infections in a row, exactly those beyond the
/// room left under the cap break out.
pub proof fn lemma_one_outbreak_per_crossing(level: u8, times: nat)
    requires
        level <= MAX_SPREAD,
    ensures
        outbreaks_during(level, times) == if level + times <= MAX_SPREAD {
            0
        } else {
            level + times - MAX_SPREAD
        },
    decreases times,
{
    if times > 0 {
        lemma_one_outbreak_per_crossing(level, (times - 1) as nat);
        lemma_level_stays_capped(level, (times - 1) as nat);
    }
}

impl Disease {
    /// One more infection: the level rises by one up to `MAX_SPREAD`; at the
    /// cap it stays and the result reports the outbreak.
    pub fn infect(&mut self) -> (outbreak: bool)
        ensures
            final(self).spread == infected_level(old(self).spread),
            final(self).kind == old(self).kind,
            outbreak == breaks_out(old(self).spread),
    {
        if self.spread >= MAX_SPREAD {
            self.spread = MAX_SPREAD;
            true
        } else {
            self.spread = self.spread + 1;
            false
        }
    }
}

} // verus!
