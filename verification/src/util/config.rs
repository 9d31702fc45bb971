use vstd::prelude::*;
use crate::game::disease::DiseaseKind;
use crate::game::Difficulty;

verus! {

/// The edges of the map as a flat list: each two entries that follow one
/// another name the city an edge leaves and the city it reaches.
pub struct GraphDef(pub Vec<usize>);

pub struct CityDef {
    pub name: String,
    pub kind: DiseaseKind,
}

/// What a game is set up from.
pub struct GameConfig {
    pub cities: Vec<CityDef>,
    pub map: GraphDef,
    pub difficulty: Option<Difficulty>,
}

/// Why a configuration cannot be set up as a game.
#[derive(Clone, Copy, Debug, PartialEq, Eq, Structural)]
pub enum ConfigError {
    /// The map's list has an odd number of entries.
    MapNotInPairs,
    /// The map names a city that the list of cities does not have.
    UnknownCity,
}

impl GameConfig {
    /// The map's list can be read two by two.
    pub open spec fn map_in_pairs(self) -> bool {
        self.map.0@.len() % 2 == 0
    }

    /// Every entry of the map's list is the index of a city.
    pub open spec fn map_in_range(self) -> bool {
        forall|k: int| 0 <= k < self.map.0@.len() ==> #[trigger] self.map.0@[k] < self.cities@.len()
    }

    /// The `k`-th pair of the map's list.
    pub open spec fn pair(self, k: int) -> (int, int) {
        (self.map.0@[2 * k] as int, self.map.0@[2 * k + 1] as int)
    }

    /// Whether the map's list holds the pair `(from, to)`.
    pub open spec fn links(self, from: int, to: int) -> bool {
        exists|k: int| 0 <= k && 2 * k + 1 < self.map.0@.len() && #[trigger] self.pair(k) == (from, to)
    }

    /// The difficulty asked for, or the easiest where none is.
    pub open spec fn level(self) -> Difficulty {
        match self.difficulty {
            Some(d) => d,
            None => Difficulty::Easy,
        }
    }
}

} // verus!
