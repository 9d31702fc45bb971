use vstd::prelude::*;
use super::cards::{Action, PlayCard};
use super::city::CityIdx;

verus! {

pub type PlayerId = usize;

#[derive(Clone, Copy, Debug, PartialEq, Eq, Structural)]
pub enum Profession {
    Unassigned,
    Medic,
    Scientist,
    Dispatcher,
    Researcher,
    Ops,
    Contingency,
    QuarantineSpec,
}

impl Default for Profession {
    fn default() -> (profession: Self)
        ensures
            profession == Profession::Unassigned,
    {
        Profession::Unassigned
    }
}

/// A player as plain values.
pub struct PlayerView {
    pub name: Seq<char>,
    pub cards: Seq<PlayCard>,
    pub profession: Profession,
    pub current_city: CityIdx,
    pub additional_actions: Seq<Action>,
    pub id: PlayerId,
}

impl PlayerView {
    /// A player of whom nothing is known yet.
    pub open spec fn fresh() -> PlayerView {
        PlayerView {
            name: Seq::empty(),
            cards: Seq::empty(),
            profession: Profession::Unassigned,
            current_city: 0,
            additional_actions: Seq::empty(),
            id: 0,
        }
    }
}

/// The players of `players` as plain values, seat by seat.
pub open spec fn roster(players: Seq<Player>) -> Seq<PlayerView> {
    Seq::new(players.len(), |i: int| players[i]@)
}

#[derive(Debug)]
pub struct Player {
    pub name: String,
    pub cards: Vec<PlayCard>,
    pub profession: Profession,
    pub current_city: CityIdx,
    pub additional_actions: Vec<Action>,
    pub id: PlayerId,
}

impl View for Player {
    type V = PlayerView;

    open spec fn view(&self) -> PlayerView {
        PlayerView {
            name: self.name@,
            cards: self.cards@,
            profession: self.profession,
            current_city: self.current_city,
            additional_actions: self.additional_actions@,
            id: self.id,
        }
    }
}

impl Clone for Player {
    fn clone(&self) -> (copy: Self)
        ensures
            copy@ == self@,
    {
        Player {
            name: self.name.clone(),
            cards: self.cards.clone(),
            profession: self.profession,
            current_city: self.current_city,
            additional_actions: self.additional_actions.clone(),
            id: self.id,
        }
    }
}

impl Default for Player {
    fn default() -> (player: Self)
        ensures
            player@ == PlayerView::fresh(),
    {
        Player {
            name: String::new(),
            cards: Vec::new(),
            profession: Profession::Unassigned,
            current_city: 0,
            additional_actions: Vec::new(),
            id: 0,
        }
    }
}

impl Player {
    /// Whether `other` is this player but for the hand, which is `hand`.
    pub open spec fn same_but_hand(self, other: Player, hand: Seq<PlayCard>) -> bool {
        &&& other.name == self.name
        &&& other.cards@ == hand
        &&& other.profession == self.profession
        &&& other.current_city == self.current_city
        &&& other.additional_actions == self.additional_actions
        &&& other.id == self.id
    }

    /// Puts `card` at the end of the hand.
    pub fn add_card(&mut self, card: PlayCard)
        ensures
            old(self).same_but_hand(*final(self), old(self).cards@.push(card)),
    {
        self.cards.push(card);
    }

    /// The action the player chooses. No choice is offered yet: it is
    /// always a direct flight to the first city, and the player is left as
    /// they were.
    pub fn prompt_action(&mut self) -> (action: Action)
        ensures
            action == Action::Direct(0),
            *final(self) == *old(self),
    {
        Action::Direct(0)
    }
}

} // verus!
