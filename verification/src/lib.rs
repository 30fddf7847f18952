//! Game information of a running match, as a game plugin publishes it and a
//! rich-presence client reads it: the fighters and stages with their wire
//! codes, the per-player state, the framing of the packets that carry it,
//! the search for the code patterns that locate the game's hooks, and the
//! decisions of the plugin's publishing server.

pub mod character;
pub mod stage;
pub mod game_info;
pub mod packet;
pub mod scan;
pub mod server;
pub mod presence;
