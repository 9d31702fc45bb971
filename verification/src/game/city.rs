use vstd::prelude::*;
use super::disease::Disease;

verus! {

pub type CityIdx = usize;

/// A city of the map. `index` is its place in the world's list of cities,
/// by which cards, players and the graph refer to it.
#[derive(Debug)]
pub struct City {
    pub name: String,
    pub disease: Disease,
    pub index: CityIdx,
}

} // verus!
