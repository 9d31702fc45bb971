use vstd::prelude::*;
use super::{ClientMsg, ServerMsg};
use crate::game::player::{roster, Player, PlayerView};
use crate::game::turn::Turn;
use crate::game::{Difficulty, Game};

verus! {

#[derive(Clone, Copy, Debug, PartialEq, Eq, Structural)]
pub enum ClientError {
    NotConnected,
}

/// What reaches a guest.
pub enum ClientEvent {
    /// The connection to the host stands.
    Connected,
    /// The guest's own call to introduce themselves.
    Greet,
    /// The host sent a message.
    Message(ServerMsg),
    /// The connection to the host was lost.
    Disconnected,
}

/// What a guest has to do after an event.
pub enum ClientReply {
    Nothing,
    /// Call for `ClientEvent::Greet`.
    Greet,
    /// Send the message to the host.
    Send(ClientMsg),
    /// End the session.
    Stop,
}

/// A guest's side of a session: the game as far as the host has told of
/// it, the guest's own player, and whether the host has been greeted.
pub struct Client {
    pub game: Game,
    pub player: Player,
    pub connected: bool,
}

impl Client {
    /// The events a guest has an answer to: of the host's messages, the
    /// list of players only.
    pub open spec fn can_handle(self, event: ClientEvent) -> bool {
        match event {
            ClientEvent::Message(ServerMsg::AddPlayer(_)) => true,
            ClientEvent::Message(_) => false,
            _ => true,
        }
    }

    /// Whether `post` differs from this guest in the game's list of
    /// players and in the mark of a greeted host at most.
    pub open spec fn same_but_session(self, post: Client) -> bool {
        &&& post.player == self.player
        &&& post.game.world == self.game.world
        &&& post.game.current_player == self.game.current_player
        &&& post.game.turn == self.game.turn
        &&& post.game.difficulty == self.game.difficulty
        &&& post.game.end_game == self.game.end_game
    }

    /// Whether handling `event` takes this guest to `post` with `reply`.
    pub open spec fn handles(self, event: ClientEvent, post: Client, reply: ClientReply) -> bool {
        &&& self.same_but_session(post)
        &&& match event {
            ClientEvent::Connected => {
                &&& post.game.players@ == self.game.players@
                &&& post.connected == self.connected
                &&& reply is Greet
            },
            ClientEvent::Greet => {
                &&& post.game.players@ == self.game.players@
                &&& post.connected
                &&& match reply {
                    ClientReply::Send(ClientMsg::Id(name)) => name@ == self.player.name@,
                    _ => false,
                }
            },
            ClientEvent::Message(ServerMsg::AddPlayer(list)) => {
                &&& post.game.players@ == list@
                &&& post.connected == self.connected
                &&& reply is Nothing
            },
            ClientEvent::Message(_) => false,
            ClientEvent::Disconnected => {
                &&& post.game.players@ == self.game.players@
                &&& post.connected == self.connected
                &&& reply is Stop
            },
        }
    }

    /// A guest called `name` who has not met a host yet.
    pub fn new(name: &str) -> (client: Self)
        ensures
            client.player@ == (PlayerView { name: name@, ..PlayerView::fresh() }),
            client.game.wf(),
            client.game.world.map.size() == 0,
            client.game.world.cities@.len() == 0,
            client.game.world.play_deck@.cards.len() == 0,
            client.game.world.play_deck@.total() == 0,
            client.game.world.disease_deck@.cards.len() == 0,
            client.game.world.disease_deck@.total() == 0,
            client.game.world.outbreaks == 0,
            client.game.world.impaction_rate == 0,
            client.game.players@.len() == 0,
            client.game.current_player == 0,
            client.game.turn == Turn::Action(4),
            client.game.difficulty == Difficulty::Easy,
            !client.game.end_game,
            !client.connected,
    {
        let mut player = Player::default();
        player.name = name.to_owned();
        Client { game: Game::new(), player, connected: false }
    }

    /// Calls `f` on each player of the game, from the first seat on.
    pub fn players_map<F>(&self, f: F) where F: Fn(&Player)
        requires
            forall|i: int|
                0 <= i < self.game.players@.len() ==> f.requires((&#[trigger] self.game.players@[i],)),
        ensures
            forall|i: int|
                0 <= i < self.game.players@.len() ==> f.ensures(
                    (&#[trigger] self.game.players@[i],),
                    (),
                ),
    {
        let mut i: usize = 0;
        while i < self.game.players.len()
            invariant
                i <= self.game.players@.len(),
                forall|j: int|
                    0 <= j < self.game.players@.len() ==> f.requires(
                        (&#[trigger] self.game.players@[j],),
                    ),
                forall|j: int|
                    0 <= j < i ==> f.ensures((&#[trigger] self.game.players@[j],), ()),
            decreases self.game.players@.len() - i,
        {
            f(&self.game.players[i]);
            i = i + 1;
        }
    }

    /// Whether the guest has an answer to `event`.
    pub fn accepts(&self, event: &ClientEvent) -> (yes: bool)
        ensures
            yes == self.can_handle(*event),
    {
        match event {
            ClientEvent::Message(ServerMsg::AddPlayer(_)) => true,
            ClientEvent::Message(_) => false,
            _ => true,
        }
    }

    /// Takes in one event. Once the connection stands the guest calls
    /// for a greeting; the greeting marks the host as met and sends the
    /// guest's name; a list of players from the host takes the place of
    /// the game's own; a lost connection ends the session.
    pub fn handle(&mut self, event: ClientEvent) -> (reply: ClientReply)
        requires
            old(self).can_handle(event),
        ensures
            old(self).handles(event, *final(self), reply),
    {
        match event {
            ClientEvent::Connected => ClientReply::Greet,
            ClientEvent::Greet => {
                self.connected = true;
                ClientReply::Send(ClientMsg::Id(self.player.name.clone()))
            },
            ClientEvent::Message(ServerMsg::AddPlayer(list)) => {
                self.game.players = list;
                ClientReply::Nothing
            },
            ClientEvent::Message(_) => ClientReply::Nothing,
            ClientEvent::Disconnected => ClientReply::Stop,
        }
    }
}

} // verus!
