//! Verified core logic of the Mirai Bedrock server.

pub mod coords;
pub mod varint;
pub mod region_index;
pub mod subchunk;

pub mod region;
pub mod point;
pub mod bytes;
pub mod framing;
pub mod heightmap;
pub mod blobs;
pub mod net_blobs;
pub mod column;
pub mod session;
pub mod rule;
pub mod forms;
pub mod inventory;
pub mod config;
pub mod command;
pub mod items;
