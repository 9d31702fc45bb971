use rustdemic::game::player::Player;
use rustdemic::game::Game;
use rustdemic::multiplayer::client::{Client, ClientEvent, ClientReply};
use rustdemic::multiplayer::server::{Server, ServerEvent, ServerReply};
use rustdemic::multiplayer::{ClientMsg, ServerMsg};

fn names(players: &[Player]) -> Vec<String> {
    players.iter().map(|p| p.name.clone()).collect()
}

fn announced(reply: ServerReply) -> Vec<String> {
    match reply {
        ServerReply::Broadcast(ServerMsg::AddPlayer(list)) => names(&list),
        _ => panic!("no list of players was sent"),
    }
}

fn host_with(guests: &[(u64, &str)]) -> Server {
    let mut server = Server::new(Game::new());
    for (endpoint, name) in guests {
        server.handle(ServerEvent::Accepted(*endpoint));
        server.handle(ServerEvent::Message(*endpoint, ClientMsg::Id(name.to_string())));
    }
    server
}

#[test]
fn new_host_has_no_guest() {
    let server = Server::new(Game::new());
    assert!(server.clients.is_empty());
    assert!(!server.started);
    assert!(server.game.players.is_empty());
    assert_eq!(server.seat_of(3), None);
}

#[test]
fn accepted_guest_gets_the_next_seat() {
    let mut server = Server::new(Game::new());
    assert!(matches!(server.handle(ServerEvent::Accepted(10)), ServerReply::Nothing));
    assert!(matches!(server.handle(ServerEvent::Accepted(20)), ServerReply::Nothing));
    assert_eq!(server.seat_of(10), Some(0));
    assert_eq!(server.seat_of(20), Some(1));
    assert_eq!(server.seat_of(30), None);
    assert_eq!(names(&server.game.players), vec!["", ""]);
}

#[test]
fn a_name_is_put_on_the_seat_and_announced() {
    let mut server = Server::new(Game::new());
    server.handle(ServerEvent::Accepted(10));
    server.handle(ServerEvent::Accepted(20));
    let reply = server.handle(ServerEvent::Message(20, ClientMsg::Id("bo".to_string())));
    assert_eq!(announced(reply), vec!["", "bo"]);
    let reply = server.handle(ServerEvent::Message(10, ClientMsg::Id("al".to_string())));
    assert_eq!(announced(reply), vec!["al", "bo"]);
    assert_eq!(names(&server.game.players), vec!["al", "bo"]);
}

#[test]
fn a_guest_who_leaves_before_the_start_is_taken_off() {
    let mut server = host_with(&[(1, "al"), (2, "bo"), (3, "cy")]);
    let reply = server.handle(ServerEvent::Disconnected(2));
    assert_eq!(announced(reply), vec!["al", "cy"]);
    assert_eq!(names(&server.game.players), vec!["al", "cy"]);
    assert_eq!(server.seat_of(2), Some(1));
    assert_eq!(server.seat_of(3), Some(2));
}

#[test]
fn a_guest_who_leaves_after_the_start_ends_the_session() {
    let mut server = host_with(&[(1, "al"), (2, "bo")]);
    assert!(matches!(server.handle(ServerEvent::SendStart), ServerReply::Nothing));
    assert!(server.started);
    assert!(matches!(server.handle(ServerEvent::Disconnected(1)), ServerReply::Stop));
    assert_eq!(names(&server.game.players), vec!["al", "bo"]);
}

#[test]
fn host_knows_which_events_it_can_take() {
    let mut server = host_with(&[(1, "al"), (2, "bo")]);
    assert!(server.accepts(&ServerEvent::Accepted(9)));
    assert!(server.accepts(&ServerEvent::SendStart));
    assert!(server.accepts(&ServerEvent::Disconnected(2)));
    assert!(!server.accepts(&ServerEvent::Disconnected(9)));
    assert!(server.accepts(&ServerEvent::Message(1, ClientMsg::Id("x".to_string()))));
    assert!(!server.accepts(&ServerEvent::Message(9, ClientMsg::Id("x".to_string()))));
    assert!(!server.accepts(&ServerEvent::Message(1, ClientMsg::Move)));
    assert!(!server.accepts(&ServerEvent::Message(1, ClientMsg::Success(4))));
    server.handle(ServerEvent::Disconnected(1));
    assert!(!server.accepts(&ServerEvent::Disconnected(2)));
    assert!(server.accepts(&ServerEvent::Disconnected(1)));
}

#[test]
fn new_guest_carries_the_name() {
    let client = Client::new("zed");
    assert_eq!(client.player.name, "zed");
    assert!(client.player.cards.is_empty());
    assert!(!client.connected);
    assert!(client.game.players.is_empty());
}

#[test]
fn guest_greets_with_their_name() {
    let mut client = Client::new("zed");
    assert!(matches!(client.handle(ClientEvent::Connected), ClientReply::Greet));
    assert!(!client.connected);
    match client.handle(ClientEvent::Greet) {
        ClientReply::Send(ClientMsg::Id(name)) => assert_eq!(name, "zed"),
        _ => panic!("no name was sent"),
    }
    assert!(client.connected);
}

#[test]
fn guest_takes_over_the_list_of_players() {
    let mut client = Client::new("zed");
    let mut al = Player::default();
    al.name = "al".to_string();
    let mut bo = Player::default();
    bo.name = "bo".to_string();
    let reply = client.handle(ClientEvent::Message(ServerMsg::AddPlayer(vec![al, bo])));
    assert!(matches!(reply, ClientReply::Nothing));
    assert_eq!(names(&client.game.players), vec!["al", "bo"]);
    assert_eq!(client.player.name, "zed");
}

#[test]
fn guest_stops_when_the_connection_is_lost() {
    let mut client = Client::new("zed");
    assert!(matches!(client.handle(ClientEvent::Disconnected), ClientReply::Stop));
}

#[test]
fn guest_knows_which_events_it_can_take() {
    let client = Client::new("zed");
    assert!(client.accepts(&ClientEvent::Connected));
    assert!(client.accepts(&ClientEvent::Greet));
    assert!(client.accepts(&ClientEvent::Disconnected));
    assert!(client.accepts(&ClientEvent::Message(ServerMsg::AddPlayer(vec![]))));
    assert!(!client.accepts(&ClientEvent::Message(ServerMsg::DrawCard)));
    assert!(!client.accepts(&ClientEvent::Message(ServerMsg::Started(1))));
}

#[test]
fn players_map_visits_every_player_in_order() {
    let server = host_with(&[(1, "al"), (2, "bo"), (3, "cy")]);
    let seen = std::cell::RefCell::new(Vec::new());
    server.players_map(|p| seen.borrow_mut().push(p.name.clone()));
    assert_eq!(seen.into_inner(), vec!["al", "bo", "cy"]);

    let mut client = Client::new("zed");
    let mut al = Player::default();
    al.name = "al".to_string();
    client.handle(ClientEvent::Message(ServerMsg::AddPlayer(vec![al])));
    let count = std::cell::Cell::new(0);
    client.players_map(|_| count.set(count.get() + 1));
    assert_eq!(count.get(), 1);
}
