//! Integer coordinate vectors used throughout the level code.
use vstd::prelude::*;

verus! {

/// A three-component integer coordinate (block, subchunk or chunk space).
#[derive(Debug, Clone, Copy, PartialEq, Eq, Structural)]
pub struct Vector3 {
    pub x: i32,
    pub y: i32,
    pub z: i32,
}

impl Vector3 {
    /// Creates a vector from its three components.
    pub fn new(x: i32, y: i32, z: i32) -> (v: Vector3)
        ensures
            v.x == x,
            v.y == y,
            v.z == z,
    {
        Vector3 { x, y, z }
    }
}

/// A position of a block inside a subchunk, each component normally in `0..16`.
#[derive(Debug, Clone, Copy, PartialEq, Eq, Structural)]
pub struct LocalPos {
    pub x: u8,
    pub y: u8,
    pub z: u8,
}

impl LocalPos {
    /// Creates a local position from its three components.
    pub fn new(x: u8, y: u8, z: u8) -> (p: LocalPos)
        ensures
            p.x == x,
            p.y == y,
            p.z == z,
    {
        LocalPos { x, y, z }
    }
}

/// A two-component integer coordinate (chunk column space).
#[derive(Debug, Clone, Copy, PartialEq, Eq, Structural)]
pub struct Vector2 {
    pub x: i32,
    pub y: i32,
}

impl Vector2 {
    /// Creates a vector from its two components.
    pub fn new(x: i32, y: i32) -> (v: Vector2)
        ensures
            v.x == x,
            v.y == y,
    {
        Vector2 { x, y }
    }
}

/// The dimension that a region or chunk belongs to.
#[derive(Debug, Clone, Copy, PartialEq, Eq, Structural)]
pub enum Dimension {
    /// The overworld.
    Overworld,
    /// The nether.
    Nether,
    /// The end.
    End,
}

} // verus!
