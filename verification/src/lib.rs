//! Verified core of the Radyo Fenomen player: the data it reads from the
//! station service, the text it derives from that data, the style classes of
//! its controls, the requests it sends and the decisions of its player.

pub mod text;
pub mod types;
pub mod utils;
pub mod styles;
pub mod player;
pub mod catalog;
pub mod api;
pub mod backend;
