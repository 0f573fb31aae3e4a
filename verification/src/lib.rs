//! Replay analysis and minimap rendering logic for World of Warships replays.
pub mod advantage;
pub mod battle;
pub mod bytes;
pub mod chat;
pub mod controller;
pub mod packets;
pub mod decoder;
pub mod events;
pub mod players;
pub mod render;
pub mod rpc;
pub mod types;
pub mod video;
pub mod vehicle;
pub mod version;
pub mod state;
pub mod survey;
pub mod text;
pub mod timeline;
