use vstd::prelude::*;
use super::cards::{Deck, DiseaseCard, PlayCard};
use super::city::City;
use super::disease::MAX_SPREAD;
use crate::util::graph::Graph;

verus! {

/// Number of steps on the infection-rate track.
pub const IMPACT_STEPS: u8 = 8;

/// Infection cards drawn per turn at each step of the infection-rate track.
pub open spec fn impact_rates() -> Seq<u8> {
    seq![2u8, 2u8, 2u8, 3u8, 3u8, 3u8, 4u8, 4u8]
}

/// The board: the map and its cities, the two decks, and the two counters
/// that epidemics and outbreaks move.
#[derive(Debug)]
pub struct World {
    pub map: Graph,
    pub cities: Vec<City>,
    pub play_deck: Deck<PlayCard>,
    pub disease_deck: Deck<DiseaseCard>,
    pub outbreaks: u8,
    pub impaction_rate: u8,
}

impl Default for World {
    fn default() -> (world: Self)
        ensures
            world.wf(),
            world.map.size() == 0,
            world.cities@.len() == 0,
            world.play_deck@.cards.len() == 0,
            world.play_deck@.total() == 0,
            world.disease_deck@.cards.len() == 0,
            world.disease_deck@.total() == 0,
            world.outbreaks == 0,
            world.impaction_rate == 0,
    {
        World {
            map: Graph::default(),
            cities: Vec::new(),
            play_deck: Deck::default(),
            disease_deck: Deck::default(),
            outbreaks: 0,
            impaction_rate: 0,
        }
    }
}

impl World {
    /// The map has one node for each city, each city knows its own place
    /// and carries no more infection than the cap allows, both decks are
    /// well formed, and every infection card names a city of this world.
    pub open spec fn wf(self) -> bool {
        &&& self.map.size() == self.cities@.len()
        &&& forall|i: int|
            0 <= i < self.cities@.len() ==> {
                &&& (#[trigger] self.cities@[i]).index == i
                &&& self.cities@[i].disease.spread <= MAX_SPREAD
            }
        &&& self.play_deck@.wf()
        &&& self.disease_deck@.wf()
        &&& forall|i: int|
            0 <= i < self.disease_deck@.cards.len() ==> (#[trigger] self.disease_deck@.cards[i]).0
                < self.cities@.len()
    }

    /// Whether `other` holds what this world holds.
    pub open spec fn same_as(self, other: World) -> bool {
        &&& other.map == self.map
        &&& other.cities@ == self.cities@
        &&& other.play_deck@ == self.play_deck@
        &&& other.disease_deck@ == self.disease_deck@
        &&& other.outbreaks == self.outbreaks
        &&& other.impaction_rate == self.impaction_rate
    }

    /// Whether `other` is this world but for the play deck.
    pub open spec fn same_but_play_deck(self, other: World) -> bool {
        &&& other.map == self.map
        &&& other.cities == self.cities
        &&& other.disease_deck == self.disease_deck
        &&& other.outbreaks == self.outbreaks
        &&& other.impaction_rate == self.impaction_rate
    }

    /// Whether `other` is this world but for the infection deck and the
    /// infection of the city at `city`.
    pub open spec fn same_but_infection(self, other: World, city: int) -> bool {
        &&& other.map == self.map
        &&& other.play_deck == self.play_deck
        &&& other.outbreaks == self.outbreaks
        &&& other.impaction_rate == self.impaction_rate
        &&& other.disease_deck@.cards == self.disease_deck@.cards
        &&& other.cities@.len() == self.cities@.len()
        &&& forall|i: int|
            0 <= i < self.cities@.len() && i != city ==> #[trigger] other.cities@[i]
                == self.cities@[i]
        &&& 0 <= city < self.cities@.len() ==> {
            &&& other.cities@[city].name == self.cities@[city].name
            &&& other.cities@[city].index == self.cities@[city].index
            &&& other.cities@[city].disease.kind == self.cities@[city].disease.kind
        }
    }

    /// Whether the world is well formed.
    pub fn is_wf(&self) -> (yes: bool)
        ensures
            yes == self.wf(),
    {
        let n = self.cities.len();
        if self.map.len() != n {
            return false;
        }
        let mut i: usize = 0;
        while i < n
            invariant
                i <= n,
                n == self.cities@.len(),
                forall|j: int|
                    0 <= j < i ==> {
                        &&& (#[trigger] self.cities@[j]).index == j
                        &&& self.cities@[j].disease.spread <= MAX_SPREAD
                    },
            decreases n - i,
        {
            if self.cities[i].index != i || self.cities[i].disease.spread > MAX_SPREAD {
                return false;
            }
            i = i + 1;
        }
        if !self.play_deck.is_wf() || !self.disease_deck.is_wf() {
            return false;
        }
        let mut k: usize = 0;
        while k < self.disease_deck.cards.len()
            invariant
                k <= self.disease_deck@.cards.len(),
                n == self.cities@.len(),
                forall|j: int| 0 <= j < k ==> (#[trigger] self.disease_deck@.cards[j]).0 < n,
            decreases self.disease_deck@.cards.len() - k,
        {
            if self.disease_deck.cards[k].0 >= n {
                return false;
            }
            k = k + 1;
        }
        true
    }

    /// Infection cards drawn per turn at the current step of the
    /// infection-rate track.
    pub fn impact_rate(&self) -> (rate: u8)
        requires
            self.impaction_rate < IMPACT_STEPS,
        ensures
            rate == impact_rates()[self.impaction_rate as int],
    {
        if self.impaction_rate < 3 {
            2
        } else if self.impaction_rate < 6 {
            3
        } else {
            4
        }
    }

    /// The cities that can be reached from `city` in one flight, in rising
    /// order: every other city to which the map has an edge from `city`.
    pub fn flights_from(&self, city: usize) -> (reach: Vec<usize>)
        requires
            self.map.size() == self.cities@.len(),
            city < self.cities@.len(),
        ensures
            forall|i: int, j: int| 0 <= i < j < reach@.len() ==> reach@[i] < reach@[j],
            forall|to: usize|
                reach@.contains(to) <==> (to < self.cities@.len() && to != city && self.map.edge(
                    city as int,
                    to as int,
                )),
    {
        let n = self.cities.len();
        let mut reach: Vec<usize> = Vec::new();
        let mut i: usize = 0;
        while i < n
            invariant
                i <= n,
                n == self.cities@.len(),
                self.map.size() == n,
                city < n,
                forall|a: int, b: int| 0 <= a < b < reach@.len() ==> reach@[a] < reach@[b],
                forall|k: int| 0 <= k < reach@.len() ==> #[trigger] reach@[k] < i,
                forall|to: usize|
                    reach@.contains(to) <==> (to < i && to != city && self.map.edge(
                        city as int,
                        to as int,
                    )),
            decreases n - i,
        {
            if i != city && self.map.connected(city, i) {
                let ghost before = reach@;
                reach.push(i);
                assert forall|to: usize|
                    reach@.contains(to) <==> (to < i + 1 && to != city && self.map.edge(
                        city as int,
                        to as int,
                    )) by {
                    if reach@.contains(to) {
                        let k = choose|k: int| 0 <= k < reach@.len() && reach@[k] == to;
                        if k < before.len() {
                            assert(before.contains(to));
                        }
                    }
                    if to < i + 1 && to != city && self.map.edge(city as int, to as int) {
                        if to == i {
                            assert(reach@[reach@.len() - 1] == to);
                        } else {
                            assert(before.contains(to));
                            let k = choose|k: int| 0 <= k < before.len() && before[k] == to;
                            assert(reach@[k] == to);
                        }
                    }
                }
            }
            i = i + 1;
        }
        reach
    }
}

} // verus!
