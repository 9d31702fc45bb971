use vstd::prelude::*;
use crate::util::config::{ConfigError, GameConfig};
use crate::util::graph::Graph;
use self::cards::{
    count_kind, event_kinds, places, Action, CardKind, Deck, DiseaseCard, Event, PlayCard,
    NUM_EVENTS,
};
use self::city::{City, CityIdx};
use self::disease::{breaks_out, infected_level, Disease};
use self::player::Player;
use self::turn::Turn;
use self::world::World;

pub mod cards;
pub mod city;
pub mod disease;
pub mod player;
pub mod turn;
pub mod world;

verus! {

/// How hard a game is: the harder, the more epidemic cards are in the play
/// deck.
#[derive(Clone, Copy, Debug, PartialEq, Eq, Structural)]
pub enum Difficulty {
    Easy,
    Normal,
    Hard,
}

impl Default for Difficulty {
    fn default() -> (difficulty: Self)
        ensures
            difficulty == Difficulty::Easy,
    {
        Difficulty::Easy
    }
}

impl Difficulty {
    /// Number of epidemic cards in the play deck.
    pub open spec fn epidemic_cards(self) -> nat {
        match self {
            Difficulty::Easy => 4,
            Difficulty::Normal => 5,
            Difficulty::Hard => 6,
        }
    }

    pub fn epidemic_count(&self) -> (count: usize)
        ensures
            count == self.epidemic_cards(),
    {
        match self {
            Difficulty::Easy => 4,
            Difficulty::Normal => 5,
            Difficulty::Hard => 6,
        }
    }
}

/// The pool of the play deck for a world of `cities` cities: one card for
/// each city, then the event cards, then the epidemic cards.
pub open spec fn play_cards(cities: nat, difficulty: Difficulty) -> Seq<PlayCard> {
    Seq::new(
        cities + (NUM_EVENTS as nat) + difficulty.epidemic_cards(),
        |i: int|
            if i < cities {
                PlayCard::City(i as usize)
            } else if i < cities + NUM_EVENTS {
                PlayCard::Event(event_kinds()[i - cities])
            } else {
                PlayCard::Epidemic
            },
    )
}

/// The pool of the infection deck: one card for each city.
pub open spec fn disease_cards(cities: nat) -> Seq<DiseaseCard> {
    Seq::new(cities, |i: int| DiseaseCard(i as usize))
}

/// A play deck holds one card for each city, each event once, and as many
/// epidemic cards as the difficulty asks for, and nothing else.
pub proof fn lemma_play_deck_composition(cities: nat, difficulty: Difficulty)
    requires
        cities <= usize::MAX,
    ensures
        play_cards(cities, difficulty).len() == cities + NUM_EVENTS + difficulty.epidemic_cards(),
        forall|i: int|
            0 <= i < cities ==> #[trigger] play_cards(cities, difficulty)[i] == PlayCard::City(
                i as usize,
            ),
        forall|i: int|
            cities <= i < cities + NUM_EVENTS ==> #[trigger] play_cards(cities, difficulty)[i]
                == PlayCard::Event(event_kinds()[i - cities]),
        forall|i: int, j: int|
            0 <= i < j < cities + NUM_EVENTS ==> play_cards(cities, difficulty)[i] != play_cards(
                cities,
                difficulty,
            )[j],
        forall|i: int|
            cities + NUM_EVENTS <= i < play_cards(cities, difficulty).len()
                ==> #[trigger] play_cards(cities, difficulty)[i] == PlayCard::Epidemic,
{
}

/// Among the first `upto` cards of a play deck's pool, the city cards come
/// first, then the event cards, then the epidemic cards.
proof fn lemma_count_prefix(cities: nat, difficulty: Difficulty, upto: nat)
    requires
        upto <= play_cards(cities, difficulty).len(),
    ensures
        count_kind(play_cards(cities, difficulty).take(upto as int), CardKind::City) == if upto
            <= cities {
            upto
        } else {
            cities
        },
        count_kind(play_cards(cities, difficulty).take(upto as int), CardKind::Event) == if upto
            <= cities {
            0
        } else if upto <= cities + NUM_EVENTS {
            upto - cities
        } else {
            NUM_EVENTS as int
        },
        count_kind(play_cards(cities, difficulty).take(upto as int), CardKind::Epidemic) == if upto
            <= cities + NUM_EVENTS {
            0
        } else {
            upto - cities - NUM_EVENTS
        },
    decreases upto,
{
    if upto > 0 {
        let pool = play_cards(cities, difficulty);
        lemma_count_prefix(cities, difficulty, (upto - 1) as nat);
        assert(pool.take(upto as int).drop_last() =~= pool.take(upto - 1));
    }
}

/// A play deck has exactly one city card for each city, exactly as many
/// event cards as there are events, and exactly as many epidemic cards as
/// the difficulty asks for.
pub proof fn lemma_play_deck_counts(cities: nat, difficulty: Difficulty)
    ensures
        count_kind(play_cards(cities, difficulty), CardKind::City) == cities,
        count_kind(play_cards(cities, difficulty), CardKind::Event) == NUM_EVENTS,
        count_kind(play_cards(cities, difficulty), CardKind::Epidemic)
            == difficulty.epidemic_cards(),
{
    let pool = play_cards(cities, difficulty);
    lemma_count_prefix(cities, difficulty, pool.len());
    assert(pool.take(pool.len() as int) =~= pool);
}

/// What one step of play did.
#[derive(Clone, Copy, Debug, PartialEq, Eq, Structural)]
pub enum Outcome {
    /// The player played `action`; the turn goes on in `next`.
    Acted { action: Action, next: Turn },
    /// The player drew `card` into the hand; the turn goes on in `next`.
    Drew { card: PlayCard, next: Turn },
    /// An epidemic phase passed; the turn goes on in `next`.
    Pandemic { next: Turn },
    /// The city at `city` was infected once more, with or without an
    /// outbreak.
    Infected { city: CityIdx, outbreak: bool },
    /// The turn passed to the player at `player`.
    NextPlayer { player: usize },
    /// No play card was left to draw: the game is over.
    PlayDeckExhausted,
    /// No infection card was left to draw: the game is over.
    DiseaseDeckExhausted,
}

/// The whole state of a game.
#[derive(Debug)]
pub struct Game {
    pub world: World,
    pub players: Vec<Player>,
    pub current_player: usize,
    pub turn: Turn,
    pub difficulty: Difficulty,
    pub end_game: bool,
}

impl Default for Game {
    fn default() -> (game: Self)
        ensures
            game.wf(),
            game.world.map.size() == 0,
            game.world.cities@.len() == 0,
            game.world.play_deck@.cards.len() == 0,
            game.world.play_deck@.total() == 0,
            game.world.disease_deck@.cards.len() == 0,
            game.world.disease_deck@.total() == 0,
            game.world.outbreaks == 0,
            game.world.impaction_rate == 0,
            game.players@.len() == 0,
            game.current_player == 0,
            game.turn == Turn::Action(4),
            game.difficulty == Difficulty::Easy,
            !game.end_game,
    {
        Game {
            world: World::default(),
            players: Vec::new(),
            current_player: 0,
            turn: Turn::new(),
            difficulty: Difficulty::Easy,
            end_game: false,
        }
    }
}

impl Game {
    /// The world is well formed and the turn's counter is within what a
    /// turn hands out.
    pub open spec fn wf(self) -> bool {
        self.world.wf() && self.turn.wf()
    }

    /// Whether this game is what `cfg` sets up, whatever order the two
    /// stacks were shuffled into.
    pub open spec fn set_up_from(self, cfg: GameConfig) -> bool {
        let n = cfg.cities@.len();
        &&& self.world.cities@.len() == n
        &&& forall|i: int|
            0 <= i < n ==> {
                let city = #[trigger] self.world.cities@[i];
                &&& city.name@ == cfg.cities@[i].name@
                &&& city.disease == Disease { spread: 0, kind: cfg.cities@[i].kind }
                &&& city.index == i
            }
        &&& self.world.map.size() == n
        &&& forall|from: int, to: int| self.world.map.edge(from, to) == cfg.links(from, to)
        &&& self.difficulty == cfg.level()
        &&& self.world.play_deck@.cards == play_cards(n, cfg.level())
        &&& self.world.play_deck@.discard.len() == 0
        &&& self.world.play_deck@.stack.to_multiset() == places(
            play_cards(n, cfg.level()).len(),
        ).to_multiset()
        &&& self.world.disease_deck@.cards == disease_cards(n)
        &&& self.world.disease_deck@.discard.len() == 0
        &&& self.world.disease_deck@.stack.to_multiset() == places(n).to_multiset()
        &&& self.world.outbreaks == 0
        &&& self.world.impaction_rate == 0
        &&& self.players@.len() == 0
        &&& self.current_player == 0
        &&& self.turn == Turn::Action(4)
        &&& !self.end_game
    }

    /// An empty game: no city, no card, no player, a fresh turn.
    pub fn new() -> (game: Self)
        ensures
            game.wf(),
            game.world.map.size() == 0,
            game.world.cities@.len() == 0,
            game.world.play_deck@.cards.len() == 0,
            game.world.play_deck@.total() == 0,
            game.world.disease_deck@.cards.len() == 0,
            game.world.disease_deck@.total() == 0,
            game.world.outbreaks == 0,
            game.world.impaction_rate == 0,
            game.players@.len() == 0,
            game.current_player == 0,
            game.turn == Turn::Action(4),
            game.difficulty == Difficulty::Easy,
            !game.end_game,
    {
        Game::default()
    }

    /// Sets a game up from `cfg`: a city for each entry of its list, at
    /// infection level 0; the map with an edge for each pair of its list;
    /// a play deck and an infection deck, both shuffled; no player yet.
    /// A map that is not in pairs, or that names a city that is not there,
    /// is refused.
    pub fn from_config(cfg: &GameConfig) -> (res: Result<Game, ConfigError>)
        requires
            cfg.cities@.len() + NUM_EVENTS + cfg.level().epidemic_cards() <= usize::MAX,
        ensures
            match res {
                Ok(game) => cfg.map_in_pairs() && cfg.map_in_range() && game.wf()
                    && game.set_up_from(*cfg),
                Err(ConfigError::MapNotInPairs) => !cfg.map_in_pairs(),
                Err(ConfigError::UnknownCity) => cfg.map_in_pairs() && !cfg.map_in_range(),
            },
    {
        let n = cfg.cities.len();
        if cfg.map.0.len() % 2 != 0 {
            return Err(ConfigError::MapNotInPairs);
        }
        let mut k: usize = 0;
        while k < cfg.map.0.len()
            invariant
                cfg.map_in_pairs(),
                k <= cfg.map.0@.len(),
                n == cfg.cities@.len(),
                forall|j: int| 0 <= j < k ==> #[trigger] cfg.map.0@[j] < n,
            decreases cfg.map.0@.len() - k,
        {
            if cfg.map.0[k] >= n {
                return Err(ConfigError::UnknownCity);
            }
            k = k + 1;
        }
        let cities = cities_of(cfg);
        let map = map_of(cfg);
        let difficulty = match cfg.difficulty {
            Some(d) => d,
            None => Difficulty::Easy,
        };
        let play_deck = Deck::shuffled(play_cards_for(n, difficulty));
        let disease_deck = Deck::shuffled(disease_cards_for(n));
        Ok(
            Game {
                world: World {
                    map,
                    cities,
                    play_deck,
                    disease_deck,
                    outbreaks: 0,
                    impaction_rate: 0,
                },
                players: Vec::new(),
                current_player: 0,
                turn: Turn::new(),
                difficulty,
                end_game: false,
            },
        )
    }

    /// What an outbreak in the city at `city` does to the game, and
    /// whether it ended the world. Outbreaks do not spread yet: the game
    /// stays as it is and the world never ends.
    pub fn resolve_epidemic(&mut self, city: CityIdx) -> (ended: bool)
        ensures
            *final(self) == *old(self),
            !ended,
    {
        false
    }

    /// Infects the city at `city` once more. Its level rises by one, up to
    /// the cap; an infection at the cap leaves the level there and is an
    /// outbreak, which the result reports.
    pub fn disease_city(&mut self, city: CityIdx) -> (outbreak: bool)
        requires
            city < old(self).world.cities@.len(),
        ensures
            outbreak == breaks_out(old(self).world.cities@[city as int].disease.spread),
            final(self).world.cities@[city as int].disease.spread == infected_level(
                old(self).world.cities@[city as int].disease.spread,
            ),
            final(self).world.cities@[city as int].disease.spread <= 3,
            old(self).world.same_but_infection(final(self).world, city as int),
            final(self).world.disease_deck == old(self).world.disease_deck,
            final(self).players == old(self).players,
            final(self).current_player == old(self).current_player,
            final(self).turn == old(self).turn,
            final(self).difficulty == old(self).difficulty,
            final(self).end_game == old(self).end_game,
    {
        let crossed = self.world.cities[city].disease.infect();
        if crossed {
            self.resolve_epidemic(city);
        }
        crossed
    }

    /// Marks the game as over.
    pub fn end_game(&mut self)
        ensures
            final(self).end_game,
            final(self).world == old(self).world,
            final(self).players == old(self).players,
            final(self).current_player == old(self).current_player,
            final(self).turn == old(self).turn,
            final(self).difficulty == old(self).difficulty,
    {
        self.end_game = true;
    }

    /// Whether `post` is this game with nothing changed but the phase of
    /// the turn.
    pub open spec fn same_but_turn(self, post: Game) -> bool {
        &&& self.world.same_as(post.world)
        &&& post.players@ == self.players@
        &&& post.current_player == self.current_player
        &&& post.difficulty == self.difficulty
        &&& post.end_game == self.end_game
    }

    /// Whether `post` is this game over: nothing changed but the flag.
    pub open spec fn ends_as(self, post: Game) -> bool {
        &&& self.world.same_as(post.world)
        &&& post.players@ == self.players@
        &&& post.current_player == self.current_player
        &&& post.difficulty == self.difficulty
        &&& post.turn == self.turn
        &&& post.end_game
    }

    /// An action phase: the current player chooses an action, and the turn
    /// moves on by one action.
    pub open spec fn acts_to(self, post: Game, outcome: Outcome) -> bool {
        &&& self.same_but_turn(post)
        &&& Some(post.turn) == self.turn.after_action()
        &&& outcome == Outcome::Acted { action: Action::Direct(0), next: post.turn }
    }

    /// A draw phase: the top play card goes to the hand of the current
    /// player, and the turn moves on by what the card is. With no card
    /// left the game is over.
    pub open spec fn draws_to(self, post: Game, outcome: Outcome) -> bool {
        match self.world.play_deck@.top() {
            None => self.ends_as(post) && outcome == Outcome::PlayDeckExhausted,
            Some(card) => {
                let me = self.current_player as int;
                &&& self.world.same_but_play_deck(post.world)
                &&& post.world.play_deck@ == self.world.play_deck@.drawn()
                &&& post.players@.len() == self.players@.len()
                &&& forall|i: int|
                    0 <= i < self.players@.len() && i != me ==> #[trigger] post.players@[i]
                        == self.players@[i]
                &&& self.players@[me].same_but_hand(
                    post.players@[me],
                    self.players@[me].cards@.push(card),
                )
                &&& post.current_player == self.current_player
                &&& post.difficulty == self.difficulty
                &&& post.end_game == self.end_game
                &&& Some(post.turn) == self.turn.after_draw(card == PlayCard::Epidemic)
                &&& outcome == Outcome::Drew { card, next: post.turn }
            },
        }
    }

    /// An epidemic phase: nothing happens but that the turn moves on.
    pub open spec fn pandemic_to(self, post: Game, outcome: Outcome) -> bool {
        &&& self.same_but_turn(post)
        &&& Some(post.turn) == if self.turn == Turn::PandemicInfect {
            self.turn.after_pandemic_infect()
        } else {
            self.turn.after_pandemic_intensify()
        }
        &&& outcome == Outcome::Pandemic { next: post.turn }
    }

    /// The phase that follows an infection: the next one of the turn,
    /// unless the game is over or no infection was left to draw, in which
    /// case the phase stays.
    pub open spec fn turn_after_spread(self) -> Turn {
        if self.end_game {
            self.turn
        } else {
            match self.turn.after_spread() {
                Some(next) => next,
                None => self.turn,
            }
        }
    }

    /// An infection phase: the top infection card is drawn and its city
    /// infected once more. With no card left the game is over.
    pub open spec fn spreads_to(self, post: Game, outcome: Outcome) -> bool {
        match self.world.disease_deck@.top() {
            None => self.ends_as(post) && outcome == Outcome::DiseaseDeckExhausted,
            Some(card) => {
                let city = card.0 as int;
                let level = self.world.cities@[city].disease.spread;
                &&& self.world.same_but_infection(post.world, city)
                &&& post.world.disease_deck@ == self.world.disease_deck@.drawn()
                &&& post.world.cities@[city].disease.spread == infected_level(level)
                &&& post.players@ == self.players@
                &&& post.current_player == self.current_player
                &&& post.difficulty == self.difficulty
                &&& post.end_game == self.end_game
                &&& post.turn == self.turn_after_spread()
                &&& outcome == Outcome::Infected { city: card.0, outbreak: breaks_out(level) }
            },
        }
    }

    /// The end of a turn: the player after the current one, round the
    /// table, starts a fresh turn.
    pub open spec fn passes_to(self, post: Game, outcome: Outcome) -> bool {
        &&& self.same_but_turn(post.with_player(self.current_player))
        &&& post.current_player == (self.current_player + 1) % (self.players@.len() as int)
        &&& post.turn == Turn::Action(4)
        &&& outcome == Outcome::NextPlayer { player: post.current_player }
    }

    /// At the end of a turn a step of play moves the turn on by exactly
    /// one seat, round the table, and the next player starts with all
    /// their actions.
    pub proof fn lemma_next_player_rotates(self, post: Game, outcome: Outcome)
        requires
            self.turn == Turn::NextPlayer,
            self.current_player < self.players@.len(),
            self.steps_to(post, outcome),
        ensures
            post.turn == Turn::Action(4),
            self.current_player + 1 < self.players@.len() ==> post.current_player
                == self.current_player + 1,
            self.current_player + 1 == self.players@.len() ==> post.current_player == 0,
            post.players@ == self.players@,
            outcome == (Outcome::NextPlayer { player: post.current_player }),
    {
        let seats = self.players@.len() as int;
        if self.current_player + 1 < seats {
            vstd::arithmetic::div_mod::lemma_small_mod((self.current_player + 1) as nat, seats as nat);
        } else {
            vstd::arithmetic::div_mod::lemma_mod_self_0(seats);
        }
    }

    /// This game with `player` as the current player.
    pub open spec fn with_player(self, player: usize) -> Game {
        Game { current_player: player, ..self }
    }

    /// Whether one step of play takes this game to `post` with `outcome`.
    pub open spec fn steps_to(self, post: Game, outcome: Outcome) -> bool {
        match self.turn {
            Turn::Action(_) => self.acts_to(post, outcome),
            Turn::Draw(_) => self.draws_to(post, outcome),
            Turn::PandemicInfect => self.pandemic_to(post, outcome),
            Turn::PandemicIntensify => self.pandemic_to(post, outcome),
            Turn::Disease(_) => self.spreads_to(post, outcome),
            Turn::NextPlayer => self.passes_to(post, outcome),
        }
    }

    /// Whether a step of play can be taken: there is a current player, and
    /// the phase does not ask for an action or a card beyond those the
    /// turn hands out. A draw phase that has run out can still be stepped
    /// once the play deck is exhausted: the step then ends the game before
    /// any card is asked for.
    pub open spec fn can_step(self) -> bool {
        &&& self.wf()
        &&& self.current_player < self.players@.len()
        &&& self.turn != Turn::Action(0)
        &&& self.turn == Turn::Draw(0) ==> self.world.play_deck@.stack.len() == 0
    }

    /// Whether a step of play can be taken.
    pub fn steppable(&self) -> (yes: bool)
        ensures
            yes == self.can_step(),
    {
        if !self.is_wf() || self.current_player >= self.players.len() {
            return false;
        }
        match self.turn {
            Turn::Action(left) => left != 0,
            Turn::Draw(left) => left != 0 || self.world.play_deck.cards_stack.len() == 0,
            _ => true,
        }
    }

    /// Whether the game is well formed.
    pub fn is_wf(&self) -> (yes: bool)
        ensures
            yes == self.wf(),
    {
        self.world.is_wf() && self.turn.is_wf()
    }

    /// Takes one step of play: does what the phase of the turn asks for
    /// and moves the turn on.
    pub fn play_turn(&mut self) -> (outcome: Outcome)
        requires
            old(self).can_step(),
        ensures
            final(self).wf(),
            old(self).steps_to(*final(self), outcome),
    {
        match self.turn {
            Turn::Action(_) => {
                let action = self.players[self.current_player].prompt_action();
                assert(self.players@ =~= old(self).players@);
                let next = self.turn.play_action().unwrap();
                self.turn = next;
                Outcome::Acted { action, next }
            },
            Turn::Draw(_) => {
                match self.world.play_deck.draw() {
                    Some(card) => {
                        self.players[self.current_player].add_card(card);
                        let next = self.turn.draw_card(card.is_epidemic()).unwrap();
                        self.turn = next;
                        Outcome::Drew { card, next }
                    },
                    None => {
                        self.end_game();
                        Outcome::PlayDeckExhausted
                    },
                }
            },
            Turn::PandemicInfect => {
                let next = self.turn.pandemic_infect().unwrap();
                self.turn = next;
                Outcome::Pandemic { next }
            },
            Turn::PandemicIntensify => {
                let next = self.turn.pandemic_intensify().unwrap();
                self.turn = next;
                Outcome::Pandemic { next }
            },
            Turn::Disease(_) => {
                let ghost deck = self.world.disease_deck@;
                match self.world.disease_deck.draw() {
                    Some(card) => {
                        assert(deck.stack.last() == (deck.stack + deck.discard)[deck.stack.len() - 1]);
                        let outbreak = self.disease_city(card.0);
                        if !self.end_game {
                            if let Some(next) = self.turn.spread_disease() {
                                self.turn = next;
                            }
                        }
                        Outcome::Infected { city: card.0, outbreak }
                    },
                    None => {
                        self.end_game();
                        Outcome::DiseaseDeckExhausted
                    },
                }
            },
            Turn::NextPlayer => {
                let seats = self.players.len();
                self.current_player = (self.current_player + 1) % seats;
                self.turn = self.turn.advance_next_player().unwrap();
                Outcome::NextPlayer { player: self.current_player }
            },
        }
    }
}

/// The cities that `cfg` lists, each at infection level 0 and at its place.
fn cities_of(cfg: &GameConfig) -> (cities: Vec<City>)
    ensures
        cities@.len() == cfg.cities@.len(),
        forall|i: int|
            0 <= i < cities@.len() ==> {
                let city = #[trigger] cities@[i];
                &&& city.name@ == cfg.cities@[i].name@
                &&& city.disease == Disease { spread: 0, kind: cfg.cities@[i].kind }
                &&& city.index == i
            },
{
    let mut cities: Vec<City> = Vec::new();
    let mut i: usize = 0;
    while i < cfg.cities.len()
        invariant
            i <= cfg.cities@.len(),
            cities@.len() == i,
            forall|j: int|
                0 <= j < i ==> {
                    let city = #[trigger] cities@[j];
                    &&& city.name@ == cfg.cities@[j].name@
                    &&& city.disease == Disease { spread: 0, kind: cfg.cities@[j].kind }
                    &&& city.index == j
                },
        decreases cfg.cities@.len() - i,
    {
        let def = &cfg.cities[i];
        cities.push(
            City { name: def.name.clone(), disease: Disease { spread: 0, kind: def.kind }, index: i },
        );
        i = i + 1;
    }
    cities
}

/// The map that `cfg` describes: a node for each city and an edge for each
/// pair of the list, in the direction in which the pair is written.
fn map_of(cfg: &GameConfig) -> (map: Graph)
    requires
        cfg.map_in_pairs(),
        cfg.map_in_range(),
    ensures
        map.size() == cfg.cities@.len(),
        forall|from: int, to: int| map.edge(from, to) == cfg.links(from, to),
{
    let mut map = Graph::new(cfg.cities.len());
    let mut i: usize = 0;
    while i < cfg.map.0.len()
        invariant
            cfg.map_in_pairs(),
            cfg.map_in_range(),
            i <= cfg.map.0@.len(),
            i % 2 == 0,
            map.size() == cfg.cities@.len(),
            forall|from: int, to: int|
                map.edge(from, to) == (exists|k: int|
                    0 <= k && 2 * k + 1 < i && #[trigger] cfg.pair(k) == (from, to)),
        decreases cfg.map.0@.len() - i,
    {
        let from = cfg.map.0[i];
        let to = cfg.map.0[i + 1];
        map.connect(from, to);
        proof {
            let done = i / 2;
            assert forall|a: int, b: int|
                map.edge(a, b) == (exists|k: int|
                    0 <= k && 2 * k + 1 < i + 2 && #[trigger] cfg.pair(k) == (a, b)) by {
                if a == from && b == to {
                    assert(2 * done + 1 < i + 2 && cfg.pair(done as int) == (a, b));
                }
            }
        }
        i = i + 2;
    }
    map
}

/// The pool of the play deck for `cities` cities.
fn play_cards_for(cities: usize, difficulty: Difficulty) -> (cards: Vec<PlayCard>)
    requires
        cities + NUM_EVENTS + difficulty.epidemic_cards() <= usize::MAX,
    ensures
        cards@ == play_cards(cities as nat, difficulty),
{
    let epidemics = difficulty.epidemic_count();
    let total = cities + NUM_EVENTS + epidemics;
    let mut cards: Vec<PlayCard> = Vec::new();
    let mut i: usize = 0;
    while i < total
        invariant
            i <= total,
            total == cities + NUM_EVENTS + difficulty.epidemic_cards(),
            cards@.len() == i,
            forall|j: int|
                0 <= j < i ==> #[trigger] cards@[j] == play_cards(cities as nat, difficulty)[j],
        decreases total - i,
    {
        let card = if i < cities {
            PlayCard::City(i)
        } else if i < cities + NUM_EVENTS {
            PlayCard::Event(Event::nth(i - cities))
        } else {
            PlayCard::Epidemic
        };
        cards.push(card);
        i = i + 1;
    }
    cards
}

/// The pool of the infection deck for `cities` cities.
fn disease_cards_for(cities: usize) -> (cards: Vec<DiseaseCard>)
    ensures
        cards@ == disease_cards(cities as nat),
{
    let mut cards: Vec<DiseaseCard> = Vec::new();
    let mut i: usize = 0;
    while i < cities
        invariant
            i <= cities,
            cards@.len() == i,
            forall|j: int| 0 <= j < i ==> #[trigger] cards@[j] == DiseaseCard(j as usize),
        decreases cities - i,
    {
        cards.push(DiseaseCard(i));
        i = i + 1;
    }
    cards
}

} // verus!
