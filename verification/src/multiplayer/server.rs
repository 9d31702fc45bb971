use vstd::prelude::*;
use std::collections::HashMap;
use super::{ClientMsg, ServerMsg};
use crate::game::player::{roster, Player, PlayerId, PlayerView};
use crate::game::Game;

verus! {

broadcast use vstd::std_specs::hash::group_hash_axioms;

#[derive(Clone, Copy, Debug, PartialEq, Eq, Structural)]
pub enum ServerError {
    NotConnected,
}

/// What reaches the host: something that happened on one of its
/// connections, each known by a number, or the host's own wish to start.
pub enum ServerEvent {
    /// A guest connected.
    Accepted(u64),
    /// A guest sent a message.
    Message(u64, ClientMsg),
    /// A guest's connection was lost.
    Disconnected(u64),
    /// The host starts the game.
    SendStart,
}

/// What the host has to do after an event.
pub enum ServerReply {
    Nothing,
    /// Send the message to every guest.
    Broadcast(ServerMsg),
    /// End the session.
    Stop,
}

impl ServerReply {
    /// Whether the reply is to send every guest the list `players`.
    pub open spec fn announces(self, players: Seq<PlayerView>) -> bool {
        match self {
            ServerReply::Broadcast(ServerMsg::AddPlayer(list)) => roster(list@) == players,
            _ => false,
        }
    }
}

/// The host's side of a session: the game, the seat of each connection,
/// and whether the game has started.
pub struct Server {
    pub game: Game,
    /// The seat of each connection that was accepted: the place the guest
    /// had in the list of players when they connected.
    pub clients: HashMap<u64, PlayerId>,
    pub started: bool,
}

impl Server {
    /// Whether `endpoint` is a connection whose seat a player sits on.
    pub open spec fn seated(self, endpoint: u64) -> bool {
        self.clients@.contains_key(endpoint) && self.clients@[endpoint] < self.game.players@.len()
    }

    /// The events the host has an answer to: a guest can connect while
    /// the list of players has room, a seated guest can give their name or
    /// leave, and the host can start.
    pub open spec fn can_handle(self, event: ServerEvent) -> bool {
        match event {
            ServerEvent::Accepted(_) => self.game.players@.len() < usize::MAX,
            ServerEvent::Message(endpoint, ClientMsg::Id(_)) => self.seated(endpoint),
            ServerEvent::Message(_, _) => false,
            ServerEvent::Disconnected(endpoint) => self.seated(endpoint),
            ServerEvent::SendStart => true,
        }
    }

    /// Whether the game of `post` differs from the game of this host in
    /// the list of players at most.
    pub open spec fn same_but_players(self, post: Server) -> bool {
        &&& post.game.world == self.game.world
        &&& post.game.current_player == self.game.current_player
        &&& post.game.turn == self.game.turn
        &&& post.game.difficulty == self.game.difficulty
        &&& post.game.end_game == self.game.end_game
    }

    /// Whether handling `event` takes this host to `post` with `reply`.
    pub open spec fn handles(self, event: ServerEvent, post: Server, reply: ServerReply) -> bool {
        let players = roster(self.game.players@);
        match event {
            ServerEvent::Accepted(endpoint) => {
                &&& self.same_but_players(post)
                &&& post.clients@ == self.clients@.insert(endpoint, self.game.players@.len() as usize)
                &&& post.started == self.started
                &&& roster(post.game.players@) == players.push(PlayerView::fresh())
                &&& reply is Nothing
            },
            ServerEvent::Message(endpoint, ClientMsg::Id(name)) => {
                let seat = self.clients@[endpoint] as int;
                &&& self.same_but_players(post)
                &&& post.clients@ == self.clients@
                &&& post.started == self.started
                &&& roster(post.game.players@) == players.update(
                    seat,
                    PlayerView { name: name@, ..players[seat] },
                )
                &&& reply.announces(roster(post.game.players@))
            },
            ServerEvent::Message(_, _) => false,
            ServerEvent::Disconnected(endpoint) => {
                let seat = self.clients@[endpoint] as int;
                &&& self.same_but_players(post)
                &&& post.clients@ == self.clients@
                &&& post.started == self.started
                &&& if self.started {
                    &&& roster(post.game.players@) == players
                    &&& reply is Stop
                } else {
                    &&& roster(post.game.players@) == players.remove(seat)
                    &&& reply.announces(roster(post.game.players@))
                }
            },
            ServerEvent::SendStart => {
                &&& self.same_but_players(post)
                &&& post.clients@ == self.clients@
                &&& roster(post.game.players@) == players
                &&& post.started
                &&& reply is Nothing
            },
        }
    }

    /// A host for `game` with no guest yet.
    pub fn new(game: Game) -> (server: Self)
        ensures
            server.game == game,
            server.clients@ == Map::<u64, PlayerId>::empty(),
            !server.started,
    {
        Server { game, clients: HashMap::new(), started: false }
    }

    /// The seat of the connection `endpoint`, if it was accepted.
    pub fn seat_of(&self, endpoint: u64) -> (seat: Option<PlayerId>)
        ensures
            seat == if self.clients@.contains_key(endpoint) {
                Some(self.clients@[endpoint])
            } else {
                None
            },
    {
        match self.clients.get(&endpoint) {
            Some(seat) => Some(*seat),
            None => None,
        }
    }

    /// Calls `f` on each player of the game, from the first seat on.
    pub fn players_map<F>(&self, f: F) where F: Fn(&Player)
        requires
            forall|i: int|
                0 <= i < self.game.players@.len() ==> f.requires((&#[trigger] self.game.players@[i],)),
        ensures
            forall|i: int|
                0 <= i < self.game.players@.len() ==> f.ensures(
                    (&#[trigger] self.game.players@[i],),
                    (),
                ),
    {
        let mut i: usize = 0;
        while i < self.game.players.len()
            invariant
                i <= self.game.players@.len(),
                forall|j: int|
                    0 <= j < self.game.players@.len() ==> f.requires(
                        (&#[trigger] self.game.players@[j],),
                    ),
                forall|j: int|
                    0 <= j < i ==> f.ensures((&#[trigger] self.game.players@[j],), ()),
            decreases self.game.players@.len() - i,
        {
            f(&self.game.players[i]);
            i = i + 1;
        }
    }

    /// Whether the host has an answer to `event`.
    pub fn accepts(&self, event: &ServerEvent) -> (yes: bool)
        ensures
            yes == self.can_handle(*event),
    {
        match event {
            ServerEvent::Accepted(_) => self.game.players.len() < usize::MAX,
            ServerEvent::Message(endpoint, ClientMsg::Id(_)) => self.is_seated(*endpoint),
            ServerEvent::Message(_, _) => false,
            ServerEvent::Disconnected(endpoint) => self.is_seated(*endpoint),
            ServerEvent::SendStart => true,
        }
    }

    fn is_seated(&self, endpoint: u64) -> (yes: bool)
        ensures
            yes == self.seated(endpoint),
    {
        match self.seat_of(endpoint) {
            Some(seat) => seat < self.game.players.len(),
            None => false,
        }
    }

    /// The message that tells every guest who is playing.
    fn announcement(&self) -> (reply: ServerReply)
        ensures
            reply.announces(roster(self.game.players@)),
    {
        let list = self.game.players.clone();
        assert(roster(list@) =~= roster(self.game.players@));
        ServerReply::Broadcast(ServerMsg::AddPlayer(list))
    }

    /// Takes in one event. A guest who connects gets the next seat and a
    /// player of whom nothing is known yet. A guest who gives their name
    /// has it put on their player, and everybody is told the new list. A
    /// guest who leaves before the start has the player on their seat
    /// taken off the list, and everybody is told; once the game has
    /// started, a guest who leaves ends the session.
    pub fn handle(&mut self, event: ServerEvent) -> (reply: ServerReply)
        requires
            old(self).can_handle(event),
        ensures
            old(self).handles(event, *final(self), reply),
    {
        match event {
            ServerEvent::Accepted(endpoint) => {
                let seat = self.game.players.len();
                self.game.players.push(Player::default());
                self.clients.insert(endpoint, seat);
                assert(roster(self.game.players@) =~= roster(old(self).game.players@).push(
                    PlayerView::fresh(),
                ));
                ServerReply::Nothing
            },
            ServerEvent::Message(endpoint, ClientMsg::Id(name)) => {
                let seat = self.seat_of(endpoint).unwrap();
                let ghost before = roster(self.game.players@);
                self.game.players[seat].name = name;
                assert(roster(self.game.players@) =~= before.update(
                    seat as int,
                    PlayerView { name: name@, ..before[seat as int] },
                ));
                self.announcement()
            },
            ServerEvent::Message(_, _) => ServerReply::Nothing,
            ServerEvent::Disconnected(endpoint) => {
                if self.started {
                    ServerReply::Stop
                } else {
                    let seat = self.seat_of(endpoint).unwrap();
                    self.game.players.remove(seat);
                    assert(roster(self.game.players@) =~= roster(old(self).game.players@).remove(
                        seat as int,
                    ));
                    self.announcement()
                }
            },
            ServerEvent::SendStart => {
                self.started = true;
                ServerReply::Nothing
            },
        }
    }
}

} // verus!
