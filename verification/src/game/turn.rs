use vstd::prelude::*;

verus! {

pub type ActionsLeft = u8;

pub type DrawsLeft = u8;

pub type DiseasesLeft = u8;

/// Actions a player has at the start of a turn.
pub const ACTIONS_PER_TURN: u8 = 4;

/// Play cards a player draws after the last action.
pub const DRAWS_PER_TURN: u8 = 2;

/// Infection cards drawn at the end of a turn.
pub const DISEASES_PER_TURN: u8 = 2;

/// The phase a player's turn is in. A phase is never changed in place: each
/// transition gives the phase that follows, or `None` where the operation
/// does not belong to the phase it was asked of.
#[derive(Clone, Copy, Debug, PartialEq, Eq, Structural)]
pub enum Turn {
    Action(ActionsLeft),
    Draw(DrawsLeft),
    Disease(DiseasesLeft),
    PandemicInfect,
    PandemicIntensify,
    NextPlayer,
}

impl Default for Turn {
    fn default() -> (turn: Self)
        ensures
            turn == Turn::Action(ACTIONS_PER_TURN),
    {
        Turn::Action(ACTIONS_PER_TURN)
    }
}

impl Turn {
    /// The phase after one action has been played.
    pub open spec fn after_action(self) -> Option<Turn> {
        match self {
            Turn::Action(left) => if left == 0 {
                None
            } else if left == 1 {
                Some(Turn::Draw(DRAWS_PER_TURN))
            } else {
                Some(Turn::Action((left - 1) as u8))
            },
            _ => None,
        }
    }

    /// The phase after one play card has been drawn.
    pub open spec fn after_draw(self, is_epidemic: bool) -> Option<Turn> {
        match self {
            Turn::Draw(left) => if left == 0 {
                None
            } else if left == 1 {
                Some(Turn::Disease(DISEASES_PER_TURN))
            } else if is_epidemic {
                Some(Turn::PandemicInfect)
            } else {
                Some(Turn::Draw((left - 1) as u8))
            },
            _ => None,
        }
    }

    /// The phase after the infection step of an epidemic.
    pub open spec fn after_pandemic_infect(self) -> Option<Turn> {
        match self {
            Turn::PandemicInfect => Some(Turn::PandemicIntensify),
            _ => None,
        }
    }

    /// The phase after the intensify step of an epidemic.
    pub open spec fn after_pandemic_intensify(self) -> Option<Turn> {
        match self {
            Turn::PandemicIntensify => Some(Turn::Disease(DISEASES_PER_TURN)),
            _ => None,
        }
    }

    /// The phase after one infection card has been drawn.
    pub open spec fn after_spread(self) -> Option<Turn> {
        match self {
            Turn::Disease(left) => if left == 0 {
                None
            } else if left == 1 {
                Some(Turn::NextPlayer)
            } else {
                Some(Turn::Disease((left - 1) as u8))
            },
            _ => None,
        }
    }

    /// The phase with which the next player starts.
    pub open spec fn after_next_player(self) -> Option<Turn> {
        match self {
            Turn::NextPlayer => Some(Turn::Action(ACTIONS_PER_TURN)),
            _ => None,
        }
    }

    /// The counters stay within what a turn hands out.
    pub open spec fn wf(self) -> bool {
        match self {
            Turn::Action(left) => left <= ACTIONS_PER_TURN,
            Turn::Draw(left) => left <= DRAWS_PER_TURN,
            Turn::Disease(left) => left <= DISEASES_PER_TURN,
            _ => true,
        }
    }

    /// Whether the counter is within what a turn hands out.
    pub fn is_wf(&self) -> (yes: bool)
        ensures
            yes == self.wf(),
    {
        match self {
            Turn::Action(left) => *left <= ACTIONS_PER_TURN,
            Turn::Draw(left) => *left <= DRAWS_PER_TURN,
            Turn::Disease(left) => *left <= DISEASES_PER_TURN,
            _ => true,
        }
    }

    /// Whether `next` can follow this phase by one of the transitions.
    pub open spec fn leads_to(self, next: Turn) -> bool {
        ||| self.after_action() == Some(next)
        ||| self.after_draw(true) == Some(next)
        ||| self.after_draw(false) == Some(next)
        ||| self.after_pandemic_infect() == Some(next)
        ||| self.after_pandemic_intensify() == Some(next)
        ||| self.after_spread() == Some(next)
        ||| self.after_next_player() == Some(next)
    }

    /// A fresh turn: four actions ahead.
    pub fn new() -> (turn: Self)
        ensures
            turn == Turn::Action(ACTIONS_PER_TURN),
    {
        Turn::Action(ACTIONS_PER_TURN)
    }

    pub fn play_action(&self) -> (next: Option<Turn>)
        ensures
            next == self.after_action(),
    {
        match self {
            Turn::Action(left) => {
                if *left == 0 {
                    None
                } else if *left == 1 {
                    Some(Turn::Draw(DRAWS_PER_TURN))
                } else {
                    Some(Turn::Action(*left - 1))
                }
            },
            _ => None,
        }
    }

    pub fn draw_card(&self, is_epidemic: bool) -> (next: Option<Turn>)
        ensures
            next == self.after_draw(is_epidemic),
    {
        match self {
            Turn::Draw(left) => {
                if *left == 0 {
                    None
                } else if *left == 1 {
                    Some(Turn::Disease(DISEASES_PER_TURN))
                } else if is_epidemic {
                    Some(Turn::PandemicInfect)
                } else {
                    Some(Turn::Draw(*left - 1))
                }
            },
            _ => None,
        }
    }

    pub fn pandemic_infect(&self) -> (next: Option<Turn>)
        ensures
            next == self.after_pandemic_infect(),
    {
        match self {
            Turn::PandemicInfect => Some(Turn::PandemicIntensify),
            _ => None,
        }
    }

    pub fn pandemic_intensify(&self) -> (next: Option<Turn>)
        ensures
            next == self.after_pandemic_intensify(),
    {
        match self {
            Turn::PandemicIntensify => Some(Turn::Disease(DISEASES_PER_TURN)),
            _ => None,
        }
    }

    pub fn spread_disease(&self) -> (next: Option<Turn>)
        ensures
            next == self.after_spread(),
    {
        match self {
            Turn::Disease(left) => {
                if *left == 0 {
                    None
                } else if *left == 1 {
                    Some(Turn::NextPlayer)
                } else {
                    Some(Turn::Disease(*left - 1))
                }
            },
            _ => None,
        }
    }

    pub fn advance_next_player(&self) -> (next: Option<Turn>)
        ensures
            next == self.after_next_player(),
    {
        match self {
            Turn::NextPlayer => Some(Turn::new()),
            _ => None,
        }
    }
}

/// The transitions, phase by phase: a counter above one counts down within
/// its phase, except that an epidemic card drawn before the last draw starts
/// the pandemic; a counter at one moves on to the next phase; a counter at
/// zero leads nowhere; the two pandemic phases and the end of the turn each
/// have one way on.
pub proof fn lemma_transition_table(left: u8, is_epidemic: bool)
    ensures
        Turn::Action(0).after_action() == None::<Turn>,
        Turn::Action(1).after_action() == Some(Turn::Draw(2)),
        left > 1 ==> Turn::Action(left).after_action() == Some(Turn::Action((left - 1) as u8)),
        Turn::Draw(0).after_draw(is_epidemic) == None::<Turn>,
        Turn::Draw(1).after_draw(is_epidemic) == Some(Turn::Disease(2)),
        left > 1 ==> Turn::Draw(left).after_draw(true) == Some(Turn::PandemicInfect),
        left > 1 ==> Turn::Draw(left).after_draw(false) == Some(Turn::Draw((left - 1) as u8)),
        Turn::PandemicInfect.after_pandemic_infect() == Some(Turn::PandemicIntensify),
        Turn::PandemicIntensify.after_pandemic_intensify() == Some(Turn::Disease(2)),
        Turn::Disease(0).after_spread() == None::<Turn>,
        Turn::Disease(1).after_spread() == Some(Turn::NextPlayer),
        left > 1 ==> Turn::Disease(left).after_spread() == Some(Turn::Disease((left - 1) as u8)),
        Turn::NextPlayer.after_next_player() == Some(Turn::Action(4)),
{
}

/// An operation asked of a phase it does not belong to leads nowhere.
pub proof fn lemma_no_transition_outside_phase(turn: Turn, is_epidemic: bool)
    ensures
        !(turn is Action) ==> turn.after_action() is None,
        !(turn is Draw) ==> turn.after_draw(is_epidemic) is None,
        !(turn is PandemicInfect) ==> turn.after_pandemic_infect() is None,
        !(turn is PandemicIntensify) ==> turn.after_pandemic_intensify() is None,
        !(turn is Disease) ==> turn.after_spread() is None,
        !(turn is NextPlayer) ==> turn.after_next_player() is None,
{
}

/// No transition takes a counter beyond what a turn hands out.
pub proof fn lemma_transitions_keep_wf(turn: Turn, next: Turn)
    requires
        turn.wf(),
        turn.leads_to(next),
    ensures
        next.wf(),
{
}

/// From a fresh turn, four actions in a row lead to the two draws.
pub proof fn lemma_four_actions_then_draw()
    ensures
        Turn::Action(4).after_action() == Some(Turn::Action(3)),
        Turn::Action(3).after_action() == Some(Turn::Action(2)),
        Turn::Action(2).after_action() == Some(Turn::Action(1)),
        Turn::Action(1).after_action() == Some(Turn::Draw(2)),
{
}

} // verus!
