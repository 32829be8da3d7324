//! Messages exchanged between players through the broadcast relay, and the
//! shared game status.

use vstd::prelude::*;

verus! {

/// The phase of the shared game protocol. All players are expected to
/// converge on the same status.
#[derive(Clone, Copy, Debug, PartialEq, Eq, Structural)]
pub enum GameStatus {
    /// The inviting player is about to pick a content set.
    InviteAskBegin,
    /// The inviting player waits for others to accept.
    InviteAsking,
    /// An invitation was received and waits to be accepted.
    InviteAsked,
    /// The invitation was accepted; waiting for the game to start.
    PlayAccepted,
    /// The player in turn is about to turn up a first card.
    PlayBefore1stCard,
    /// The player in turn is about to turn up a second card.
    PlayBefore2ndCard,
    /// The two cards did not match: the next player must claim the turn.
    TakeTurnBegin,
    /// The turn was handed over.
    TakeTurnEnd,
    /// All pairs are found: the game is over.
    GameOverPlayAgainBegin,
    /// The connection was lost.
    Reconnect,
}

/// The name of a status, as it is shown and logged.
pub open spec fn status_name(s: GameStatus) -> Seq<char> {
    match s {
        GameStatus::InviteAskBegin => "InviteAskBegin"@,
        GameStatus::InviteAsking => "InviteAsking"@,
        GameStatus::InviteAsked => "InviteAsked"@,
        GameStatus::PlayAccepted => "PlayAccepted"@,
        GameStatus::PlayBefore1stCard => "PlayBefore1stCard"@,
        GameStatus::PlayBefore2ndCard => "PlayBefore2ndCard"@,
        GameStatus::TakeTurnBegin => "TakeTurnBegin"@,
        GameStatus::TakeTurnEnd => "TakeTurnEnd"@,
        GameStatus::GameOverPlayAgainBegin => "GameOverPlayAgainBegin"@,
        GameStatus::Reconnect => "Reconnect"@,
    }
}

impl GameStatus {
    /// The name of the status, as it is shown and logged.
    pub fn as_str(&self) -> (r: &'static str)
        ensures
            r@ == status_name(*self),
    {
        match self {
            GameStatus::InviteAskBegin => "InviteAskBegin",
            GameStatus::InviteAsking => "InviteAsking",
            GameStatus::InviteAsked => "InviteAsked",
            GameStatus::PlayAccepted => "PlayAccepted",
            GameStatus::PlayBefore1stCard => "PlayBefore1stCard",
            GameStatus::PlayBefore2ndCard => "PlayBefore2ndCard",
            GameStatus::TakeTurnBegin => "TakeTurnBegin",
            GameStatus::TakeTurnEnd => "TakeTurnEnd",
            GameStatus::GameOverPlayAgainBegin => "GameOverPlayAgainBegin",
            GameStatus::Reconnect => "Reconnect",
        }
    }
}

/// One player: the client id of the player's session and the number of
/// pairs the player has found.
#[derive(Clone, Copy, Debug, PartialEq, Eq, Structural)]
pub struct Player {
    /// Client id of the player's session.
    pub ws_uid: usize,
    /// Pairs found so far.
    pub points: usize,
}

/// The three faces a card can show.
#[derive(Clone, Copy, Debug, PartialEq, Eq, Structural)]
pub enum CardStatusCardFace {
    /// Face down.
    Down,
    /// Turned up for the current turn.
    UpTemporary,
    /// Part of a found pair: stays up.
    UpPermanently,
}

/// One card of the deck.
#[derive(Clone, Copy, Debug, PartialEq, Eq, Structural)]
pub struct Card {
    /// Which face the card shows.
    pub status: CardStatusCardFace,
    /// The face value; equal values make a pair.
    pub card_number_and_img_src: usize,
    /// The card's position in the deck.
    pub card_index_and_id: usize,
}

/// The configuration of a content set: one name per face value (index 0 is
/// the face-down image) and the size of a card image.
#[derive(Debug)]
pub struct Spelling {
    /// Names of the face values.
    pub name: Vec<String>,
    /// Card image width.
    pub card_width: usize,
    /// Card image height.
    pub card_height: usize,
}

/// A message between players. Messages that describe the game state carry
/// the whole resulting state, not a difference.
pub enum WsMessage {
    /// Carries nothing.
    Dummy { dummy: String },
    /// First message to the relay after connecting.
    RequestWsUid { test: String },
    /// The relay's answer to `RequestWsUid`.
    ResponseWsUid { your_ws_uid: usize },
    /// An invitation to play a content set.
    Invite { my_ws_uid: usize, asked_folder_name: String },
    /// An invitation was accepted.
    PlayAccept { my_ws_uid: usize, players: Vec<Player> },
    /// The inviting player dealt the deck and starts the game.
    GameDataInit { card_grid_data: Vec<Card>, game_config: Option<Spelling>, players: Vec<Player> },
    /// A first card was turned up.
    PlayerClick1stCard {
        my_ws_uid: usize,
        players: Vec<Player>,
        card_grid_data: Vec<Card>,
        game_status: GameStatus,
        card_index_of_first_click: usize,
        card_index_of_second_click: usize,
    },
    /// A second card was turned up.
    PlayerClick2ndCard {
        my_ws_uid: usize,
        players: Vec<Player>,
        card_grid_data: Vec<Card>,
        game_status: GameStatus,
        card_index_of_first_click: usize,
        card_index_of_second_click: usize,
    },
    /// The two cards did not match.
    TakeTurnBegin {
        my_ws_uid: usize,
        players: Vec<Player>,
        card_grid_data: Vec<Card>,
        game_status: GameStatus,
        card_index_of_first_click: usize,
        card_index_of_second_click: usize,
    },
    /// All pairs are found.
    GameOverPlayAgainBegin {
        my_ws_uid: usize,
        players: Vec<Player>,
        card_grid_data: Vec<Card>,
        game_status: GameStatus,
        card_index_of_first_click: usize,
        card_index_of_second_click: usize,
    },
    /// The next player claimed the turn.
    TakeTurnEnd { my_ws_uid: usize, players: Vec<Player> },
}

/// The client id that a message names as its sender, if it names one.
pub open spec fn sender_of(m: WsMessage) -> Option<usize> {
    match m {
        WsMessage::Invite { my_ws_uid, .. } => Some(my_ws_uid),
        WsMessage::PlayAccept { my_ws_uid, .. } => Some(my_ws_uid),
        WsMessage::PlayerClick1stCard { my_ws_uid, .. } => Some(my_ws_uid),
        WsMessage::PlayerClick2ndCard { my_ws_uid, .. } => Some(my_ws_uid),
        WsMessage::TakeTurnBegin { my_ws_uid, .. } => Some(my_ws_uid),
        WsMessage::GameOverPlayAgainBegin { my_ws_uid, .. } => Some(my_ws_uid),
        WsMessage::TakeTurnEnd { my_ws_uid, .. } => Some(my_ws_uid),
        _ => None,
    }
}

impl WsMessage {
    /// The client id of the sender, for the messages that name one.
    pub fn sender(&self) -> (r: Option<usize>)
        ensures
            r == sender_of(*self),
    {
        match self {
            WsMessage::Invite { my_ws_uid, .. } => Some(*my_ws_uid),
            WsMessage::PlayAccept { my_ws_uid, .. } => Some(*my_ws_uid),
            WsMessage::PlayerClick1stCard { my_ws_uid, .. } => Some(*my_ws_uid),
            WsMessage::PlayerClick2ndCard { my_ws_uid, .. } => Some(*my_ws_uid),
            WsMessage::TakeTurnBegin { my_ws_uid, .. } => Some(*my_ws_uid),
            WsMessage::GameOverPlayAgainBegin { my_ws_uid, .. } => Some(*my_ws_uid),
            WsMessage::TakeTurnEnd { my_ws_uid, .. } => Some(*my_ws_uid),
            _ => None,
        }
    }
}

/// The game state that a full-state message carries: sender, players, deck,
/// status and the two picks.
pub open spec fn payload(m: WsMessage) -> (usize, Seq<Player>, Seq<Card>, GameStatus, usize, usize) {
    match m {
        WsMessage::PlayerClick1stCard {
            my_ws_uid,
            players,
            card_grid_data,
            game_status,
            card_index_of_first_click,
            card_index_of_second_click,
        } => (
            my_ws_uid,
            players@,
            card_grid_data@,
            game_status,
            card_index_of_first_click,
            card_index_of_second_click,
        ),
        WsMessage::PlayerClick2ndCard {
            my_ws_uid,
            players,
            card_grid_data,
            game_status,
            card_index_of_first_click,
            card_index_of_second_click,
        } => (
            my_ws_uid,
            players@,
            card_grid_data@,
            game_status,
            card_index_of_first_click,
            card_index_of_second_click,
        ),
        WsMessage::TakeTurnBegin {
            my_ws_uid,
            players,
            card_grid_data,
            game_status,
            card_index_of_first_click,
            card_index_of_second_click,
        } => (
            my_ws_uid,
            players@,
            card_grid_data@,
            game_status,
            card_index_of_first_click,
            card_index_of_second_click,
        ),
        WsMessage::GameOverPlayAgainBegin {
            my_ws_uid,
            players,
            card_grid_data,
            game_status,
            card_index_of_first_click,
            card_index_of_second_click,
        } => (
            my_ws_uid,
            players@,
            card_grid_data@,
            game_status,
            card_index_of_first_click,
            card_index_of_second_click,
        ),
        _ => (0, Seq::empty(), Seq::empty(), GameStatus::Reconnect, 0, 0),
    }
}

/// A copy of a list of players.
pub fn copy_players(v: &Vec<Player>) -> (r: Vec<Player>)
    ensures
        r@ == v@,
{
    let mut r: Vec<Player> = Vec::new();
    let mut i: usize = 0;
    while i < v.len()
        invariant
            i <= v.len(),
            r@ == v@.subrange(0, i as int),
        decreases v.len() - i,
    {
        r.push(v[i]);
        i = i + 1;
    }
    assert(r@ =~= v@);
    r
}

/// A copy of a deck.
pub fn copy_cards(v: &Vec<Card>) -> (r: Vec<Card>)
    ensures
        r@ == v@,
{
    let mut r: Vec<Card> = Vec::new();
    let mut i: usize = 0;
    while i < v.len()
        invariant
            i <= v.len(),
            r@ == v@.subrange(0, i as int),
        decreases v.len() - i,
    {
        r.push(v[i]);
        i = i + 1;
    }
    assert(r@ =~= v@);
    r
}

} // verus!
