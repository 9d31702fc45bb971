use vstd::prelude::*;
use rand::seq::SliceRandom;
use rand::thread_rng;
use super::city::CityIdx;
use super::disease::DiseaseKind;
use super::player::PlayerId;

verus! {

pub type CardIdx = usize;

/// An infection card: the city that is infected when it is drawn.
#[derive(Clone, Copy, Debug, PartialEq, Eq, Structural)]
pub struct DiseaseCard(pub CityIdx);

impl Default for DiseaseCard {
    fn default() -> (card: Self)
        ensures
            card == DiseaseCard(0),
    {
        DiseaseCard(0)
    }
}

#[derive(Clone, Copy, Debug, PartialEq, Eq, Structural)]
pub enum Action {
    BuildResearchCenter(CityIdx),
    TreatDisease(CityIdx),
    DiscoverCure(DiseaseKind),
    ShareKnowledge(PlayerId),
    Drive(CityIdx),
    Direct(CityIdx),
    Charter(CityIdx),
    Shuttle(CityIdx),
}

#[derive(Clone, Copy, Debug, PartialEq, Eq, Structural)]
pub enum Event {
    GovermentGrant,
    Forecast,
    Airlift(CityIdx),
    OneQuietNight,
    ResilientPopulation(CardIdx),
}

#[derive(Clone, Copy, Debug, PartialEq, Eq)]
pub struct EventCard {
    pub title: &'static str,
    pub effect: &'static str,
    pub kind: Event,
}

/// Number of event cards in a play deck.
pub const NUM_EVENTS: usize = 5;

/// The events in the order in which their cards enter a play deck, each
/// with its target still unset.
pub open spec fn event_kinds() -> Seq<Event> {
    seq![
        Event::GovermentGrant,
        Event::Forecast,
        Event::Airlift(0),
        Event::OneQuietNight,
        Event::ResilientPopulation(0),
    ]
}

/// No event occurs twice among the event cards.
pub proof fn lemma_event_kinds_distinct()
    ensures
        event_kinds().len() == NUM_EVENTS,
        event_kinds().no_duplicates(),
{
}

/// The titles of the event cards, in the order of `event_kinds`.
pub open spec fn event_titles() -> Seq<&'static str> {
    seq!["GovermentGrand", "Forecast", "Airlift", "OneQuietNight", "ResilientPopulation"]
}

/// The event cards, in the order in which they enter a play deck. None has
/// a text for its effect yet.
pub fn event_cards() -> (cards: Vec<EventCard>)
    ensures
        cards@.len() == NUM_EVENTS,
        forall|i: int|
            0 <= i < cards@.len() ==> {
                &&& (#[trigger] cards@[i]).kind == event_kinds()[i]
                &&& cards@[i].title == event_titles()[i]
                &&& cards@[i].effect == ""
            },
{
    let mut cards: Vec<EventCard> = Vec::new();
    cards.push(EventCard { title: "GovermentGrand", effect: "", kind: Event::GovermentGrant });
    cards.push(EventCard { title: "Forecast", effect: "", kind: Event::Forecast });
    cards.push(EventCard { title: "Airlift", effect: "", kind: Event::Airlift(0) });
    cards.push(EventCard { title: "OneQuietNight", effect: "", kind: Event::OneQuietNight });
    cards.push(
        EventCard {
            title: "ResilientPopulation",
            effect: "",
            kind: Event::ResilientPopulation(0),
        },
    );
    cards
}

impl Event {
    /// The event at place `i` of `event_kinds`.
    pub fn nth(i: usize) -> (event: Event)
        requires
            i < NUM_EVENTS,
        ensures
            event == event_kinds()[i as int],
    {
        if i == 0 {
            Event::GovermentGrant
        } else if i == 1 {
            Event::Forecast
        } else if i == 2 {
            Event::Airlift(0)
        } else if i == 3 {
            Event::OneQuietNight
        } else {
            Event::ResilientPopulation(0)
        }
    }
}

#[derive(Clone, Copy, Debug, PartialEq, Eq, Structural)]
pub enum PlayCard {
    City(CityIdx),
    Event(Event),
    Epidemic,
}

impl Default for PlayCard {
    fn default() -> (card: Self)
        ensures
            card == PlayCard::Epidemic,
    {
        PlayCard::Epidemic
    }
}

impl PlayCard {
    pub fn is_epidemic(&self) -> (yes: bool)
        ensures
            yes == (*self == PlayCard::Epidemic),
    {
        match self {
            PlayCard::Epidemic => true,
            _ => false,
        }
    }
}

/// The kinds of play card.
pub enum CardKind {
    City,
    Event,
    Epidemic,
}

impl PlayCard {
    pub open spec fn kind(self) -> CardKind {
        match self {
            PlayCard::City(_) => CardKind::City,
            PlayCard::Event(_) => CardKind::Event,
            PlayCard::Epidemic => CardKind::Epidemic,
        }
    }
}

/// Number of cards of kind `kind` among `cards`.
pub open spec fn count_kind(cards: Seq<PlayCard>, kind: CardKind) -> nat
    decreases cards.len(),
{
    if cards.len() == 0 {
        0
    } else {
        count_kind(cards.drop_last(), kind) + if cards.last().kind() == kind {
            1nat
        } else {
            0nat
        }
    }
}

/// What a deck holds, as plain sequences: the pool of cards, and the places
/// in the pool that are still to be drawn (`stack`, the top last) and that
/// were drawn (`discard`, the latest last).
pub struct DeckView<T> {
    pub cards: Seq<T>,
    pub stack: Seq<CardIdx>,
    pub discard: Seq<CardIdx>,
}

impl<T> DeckView<T> {
    /// Every place of the pool is in exactly one of `stack` and `discard`,
    /// exactly once.
    pub open spec fn wf(self) -> bool {
        &&& self.stack.len() + self.discard.len() == self.cards.len()
        &&& (self.stack + self.discard).no_duplicates()
        &&& forall|k: int|
            0 <= k < (self.stack + self.discard).len() ==> 0 <= #[trigger] (self.stack
                + self.discard)[k] < self.cards.len()
    }

    /// Number of cards in the deck, drawn or not.
    pub open spec fn total(self) -> nat {
        self.stack.len() + self.discard.len()
    }

    /// The card on top, if one is left to draw.
    pub open spec fn top(self) -> Option<T> {
        if self.stack.len() == 0 {
            None
        } else {
            Some(self.cards[self.stack.last() as int])
        }
    }

    /// The deck after one draw: the top place moves to the discard. An
    /// exhausted deck stays as it is.
    pub open spec fn drawn(self) -> Self {
        if self.stack.len() == 0 {
            self
        } else {
            DeckView {
                cards: self.cards,
                stack: self.stack.drop_last(),
                discard: self.discard.push(self.stack.last()),
            }
        }
    }

    /// The deck after `n` draws.
    pub open spec fn drawn_times(self, n: nat) -> Self
        decreases n,
    {
        if n == 0 {
            self
        } else {
            self.drawn_times((n - 1) as nat).drawn()
        }
    }

    /// One draw keeps the deck well formed.
    pub proof fn lemma_drawn_wf(self)
        requires
            self.wf(),
        ensures
            self.drawn().wf(),
    {
        if self.stack.len() > 0 {
            let before = self.stack + self.discard;
            let after = self.drawn().stack + self.drawn().discard;
            let n = self.stack.len() as int;
            let m = before.len() as int;
            // `after` is `before` with the entry at n - 1 moved to the end.
            let src = |k: int| if k < n - 1 { k } else if k < m - 1 { k + 1 } else { n - 1 };
            assert forall|k: int| 0 <= k < m implies #[trigger] after[k] == before[src(k)] by {}
        }
    }
}

/// Draws never add or lose a card: after any number of them the stack and
/// the discard together hold as many places as before, the pool is the same
/// and the deck is still well formed.
pub proof fn lemma_draws_keep_total<T>(deck: DeckView<T>, n: nat)
    ensures
        deck.drawn_times(n).total() == deck.total(),
        deck.drawn_times(n).cards == deck.cards,
        deck.wf() ==> deck.drawn_times(n).wf(),
    decreases n,
{
    if n > 0 {
        lemma_draws_keep_total(deck, (n - 1) as nat);
        if deck.wf() {
            deck.drawn_times((n - 1) as nat).lemma_drawn_wf();
        }
    }
}

/// While cards are left, each draw takes exactly one from the stack: after
/// `n` draws from a stack of at least `n`, the stack is `n` shorter and the
/// discard `n` longer.
pub proof fn lemma_draws_move_cards<T>(deck: DeckView<T>, n: nat)
    requires
        n <= deck.stack.len(),
    ensures
        deck.drawn_times(n).stack == deck.stack.take(deck.stack.len() - n),
        deck.drawn_times(n).discard.len() == deck.discard.len() + n,
    decreases n,
{
    if n > 0 {
        lemma_draws_move_cards(deck, (n - 1) as nat);
        assert(deck.stack.take(deck.stack.len() - (n - 1)).drop_last() =~= deck.stack.take(
            deck.stack.len() - n,
        ));
    }
}

/// The places of a pool of `n` cards, in the order of the pool.
pub open spec fn places(n: nat) -> Seq<CardIdx> {
    Seq::new(n, |i: int| i as CardIdx)
}

/// Any arrangement of the places of a pool of `n` cards has `n` entries,
/// none of them twice, each of them a place of the pool.
pub proof fn lemma_arranged_places(stack: Seq<CardIdx>, n: nat)
    requires
        n <= usize::MAX,
        stack.to_multiset() == places(n).to_multiset(),
    ensures
        stack.len() == n,
        stack.no_duplicates(),
        forall|k: int| 0 <= k < stack.len() ==> #[trigger] stack[k] < n,
{
    broadcast use vstd::seq_lib::group_to_multiset_ensures;

    let pool = places(n);
    stack.to_multiset_ensures();
    pool.to_multiset_ensures();
    pool.lemma_multiset_has_no_duplicates();
    stack.lemma_multiset_has_no_duplicates_conv();
    assert forall|k: int| 0 <= k < stack.len() implies #[trigger] stack[k] < n by {
        assert(stack.to_multiset().count(stack[k]) > 0);
    }
}

/// `rand::seq::SliceRandom::shuffle` on the entries of `stack`, with the
/// generator that `rand::thread_rng` hands out. The shuffle only swaps
/// entries, so whatever order comes out, the entries are those that went in,
/// each as often as before. Nothing is claimed of the order. (The generator
/// gives up on a machine that has no source of entropy for it, when it is
/// first seeded or when it is seeded anew.)
#[verifier::external_body]
fn shuffle(stack: &mut Vec<CardIdx>)
    ensures
        final(stack)@.to_multiset() == old(stack)@.to_multiset(),
{
    stack.shuffle(&mut thread_rng());
}

/// A pool of cards with a stack of the places still to be drawn and a stack
/// of those already drawn. The pool never changes; a draw moves one place
/// from the first stack to the second.
#[derive(Debug)]
pub struct Deck<T: Clone> {
    pub cards: Vec<T>,
    pub cards_stack: Vec<CardIdx>,
    pub cards_discard: Vec<CardIdx>,
}

impl<T: Clone> View for Deck<T> {
    type V = DeckView<T>;

    open spec fn view(&self) -> DeckView<T> {
        DeckView { cards: self.cards@, stack: self.cards_stack@, discard: self.cards_discard@ }
    }
}

impl<T: Clone> Default for Deck<T> {
    fn default() -> (deck: Self)
        ensures
            deck@.cards.len() == 0,
            deck@.stack.len() == 0,
            deck@.discard.len() == 0,
            deck@.wf(),
    {
        Deck { cards: Vec::new(), cards_stack: Vec::new(), cards_discard: Vec::new() }
    }
}

impl<T: Clone> Deck<T> {
    /// A deck of the cards of `cards` with nothing drawn yet, to be drawn
    /// in the order of `stack`, its last entry first.
    pub fn stacked(cards: Vec<T>, stack: Vec<CardIdx>) -> (deck: Self)
        requires
            stack@.to_multiset() == places(cards@.len()).to_multiset(),
        ensures
            deck@.cards == cards@,
            deck@.stack == stack@,
            deck@.discard.len() == 0,
            deck@.wf(),
    {
        let ghost n = cards.len();
        proof {
            lemma_arranged_places(stack@, n as nat);
        }
        Deck { cards, cards_stack: stack, cards_discard: Vec::new() }
    }

    /// A deck of the cards of `cards` with nothing drawn yet and the stack
    /// in an order left to chance.
    pub fn shuffled(cards: Vec<T>) -> (deck: Self)
        ensures
            deck@.cards == cards@,
            deck@.discard.len() == 0,
            deck@.stack.to_multiset() == places(cards@.len()).to_multiset(),
            deck@.wf(),
    {
        let n = cards.len();
        let mut stack: Vec<CardIdx> = Vec::new();
        let mut i: usize = 0;
        while i < n
            invariant
                i <= n,
                stack@ == places(i as nat),
            decreases n - i,
        {
            stack.push(i);
            i = i + 1;
        }
        shuffle(&mut stack);
        Deck::stacked(cards, stack)
    }

    /// Whether the deck is well formed: every place of the pool is in the
    /// stack or in the discard, once.
    pub fn is_wf(&self) -> (yes: bool)
        ensures
            yes == self@.wf(),
    {
        let n = self.cards.len();
        let drawable = self.cards_stack.len();
        if drawable > n || self.cards_discard.len() != n - drawable {
            return false;
        }
        let ghost all = self@.stack + self@.discard;
        let mut seen: Vec<bool> = Vec::new();
        let mut i: usize = 0;
        while i < n
            invariant
                i <= n,
                seen@.len() == i,
                forall|v: int| 0 <= v < i ==> !(#[trigger] seen@[v]),
            decreases n - i,
        {
            seen.push(false);
            i = i + 1;
        }
        let mut k: usize = 0;
        while k < n
            invariant
                k <= n,
                n == self@.cards.len(),
                drawable == self@.stack.len(),
                all == self@.stack + self@.discard,
                all.len() == n,
                seen@.len() == n,
                forall|j: int| 0 <= j < k ==> 0 <= #[trigger] all[j] < n,
                forall|a: int, b: int| 0 <= a < k && 0 <= b < k && a != b ==> all[a] != all[b],
                forall|v: int|
                    0 <= v < n ==> (#[trigger] seen@[v] <==> exists|j: int|
                        0 <= j < k && #[trigger] all[j] == v),
            decreases n - k,
        {
            let place = if k < drawable {
                self.cards_stack[k]
            } else {
                self.cards_discard[k - drawable]
            };
            assert(place == all[k as int]);
            if place >= n {
                return false;
            }
            if seen[place] {
                return false;
            }
            seen.set(place, true);
            assert forall|v: int| 0 <= v < n implies (#[trigger] seen@[v] <==> exists|j: int|
                0 <= j < k + 1 && #[trigger] all[j] == v) by {}
            k = k + 1;
        }
        true
    }

    /// Draws the top card: its place moves from the stack to the discard and
    /// a copy of the card is handed out. An exhausted deck gives `None` and
    /// stays as it is.
    pub fn draw(&mut self) -> (card: Option<T>)
        requires
            old(self)@.wf(),
        ensures
            final(self)@.wf(),
            final(self)@ == old(self)@.drawn(),
            card.is_some() == (old(self)@.stack.len() > 0),
            card.is_some() ==> cloned(old(self)@.top().unwrap(), card.unwrap()),
    {
        proof {
            self@.lemma_drawn_wf();
        }
        if let Some(card_idx) = self.cards_stack.pop() {
            self.cards_discard.push(card_idx);
            assert(card_idx == (old(self)@.stack + old(self)@.discard)[old(self)@.stack.len() - 1]);
            Some(self.cards[card_idx].clone())
        } else {
            None
        }
    }
}

} // verus!
