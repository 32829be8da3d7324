//! Client-side logic of a multiplayer memory-card game: the card deal, the
//! game-status state machine and the message-driven synchronisation between
//! players. Rendering and transport live outside this crate.

pub mod protocol;
mod random;
pub mod deal;
pub mod gamedata;
pub mod playersandscores;
pub mod rootrenderingcomponent;
pub mod statusinviteaskbegin;
pub mod statuswanttoplayasked;
pub mod statusplaybefore1stcard;
pub mod statusplaybefore2ndcard;
pub mod statustaketurnbegin;
pub mod websocketcommunication;
pub mod divplayeractions;
