//! Server configuration records.
use vstd::prelude::*;

verus! {

/// Configuration for the database connection.
#[derive(Debug)]
pub struct DatabaseConfig {
    /// Host address of the database server.
    ///
    /// Default: localhost.
    pub host: String,
    /// Port of the database server.
    ///
    /// This should usually be set to 6379 when using a Redis server.
    ///
    /// Default: 6379.
    pub port: u16,
}

/// Configuration of the level
#[derive(Debug)]
pub struct LevelConfig {
    /// The path to the level.
    pub path: String,
}

/// The connection limits of the server, which can be changed while it runs.
#[derive(Debug, Copy, Clone, PartialEq, Eq, Structural)]
pub struct Limits {
    /// Maximum amount of players the server allows concurrently.
    pub max_connections: usize,
    /// The maximum render distance that clients are allowed to use.
    pub max_render_distance: usize,
}

impl Limits {
    /// The limits a new server starts with: 10 players, render distance 12.
    pub fn new() -> (l: Limits)
        ensures
            l.max_connections == 10,
            l.max_render_distance == 12,
    {
        Limits { max_connections: 10, max_render_distance: 12 }
    }

    /// Returns the current maximum player count.
    pub fn max_connections(&self) -> (n: usize)
        ensures
            n == self.max_connections,
    {
        self.max_connections
    }

    /// Sets the maximum amount of players that can be connected at the same time.
    ///
    /// If the maximum is set below the current player count, no players will be disconnected.
    pub fn set_max_connections(&mut self, max: usize)
        ensures
            *final(self) == (Limits { max_connections: max, ..*old(self) }),
    {
        self.max_connections = max;
    }

    /// Whether a new client may connect while `connected` clients are
    /// connected: new connections are refused at or above the maximum, and
    /// clients that are already connected are never disconnected for it.
    pub fn accepts_connection(&self, connected: usize) -> (b: bool)
        ensures
            b == (connected < self.max_connections),
    {
        connected < self.max_connections
    }

    /// Returns the maximum render distance.
    pub fn max_render_distance(&self) -> (n: usize)
        ensures
            n == self.max_render_distance,
    {
        self.max_render_distance
    }

    /// Sets the maximum render distance.
    pub fn set_max_render_distance(&mut self, max: usize)
        ensures
            *final(self) == (Limits { max_render_distance: max, ..*old(self) }),
    {
        self.max_render_distance = max;
    }
}

} // verus!
