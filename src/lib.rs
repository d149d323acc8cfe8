//! Station list, playback tracking and the modal state machine of a
//! terminal radio player, with the station file's CSV framing.
pub mod app;
pub mod player;
pub mod station;
pub mod store;

pub use app::{Action, App, AppView};
pub use player::{PlaybackEvent, Player, PlayerState};
pub use station::{EditField, Key, Mode, Station};
pub use store::{encode_stations, load_stations, stations_from_table};
