use vstd::prelude::*;
use crate::game::player::Player;

pub mod client;
pub mod server;

verus! {

/// Number by which a request and its answer are matched.
pub type MsgHash = u128;

/// What the host sends to a guest.
#[derive(Debug)]
pub enum ServerMsg {
    DrawCard,
    DrawDiseaseCard,
    DrawEpidemicCard,
    PromptAction(MsgHash),
    PromptEvent(MsgHash),
    Started(MsgHash),
    AddPlayer(Vec<Player>),
}

/// What a guest sends to the host.
#[derive(Debug)]
pub enum ClientMsg {
    Success(MsgHash),
    Id(String),
    Start(MsgHash),
    CardDiscarded,
    Move,
    Treat,
    Cure,
    Build,
    Event,
    RejectEvent(MsgHash),
}

} // verus!
