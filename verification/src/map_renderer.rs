//! Plain geometry values exchanged with the rendering engine.
//!
//! The engine itself (construction from a map definition, binding a target
//! context, the render call, projection math) is an external collaborator;
//! only the data that crosses its boundary is modelled here.

use vstd::prelude::*;

verus! {

/// A point in map or screen coordinates.
pub struct Point<T: Copy + Clone> {
    pub x: T,
    pub y: T,
}

impl<T: Copy + Clone> Point<T> {
    pub fn new(x: T, y: T) -> (p: Point<T>)
        ensures
            p.x == x,
            p.y == y,
    {
        Point { x, y }
    }
}

/// An axis-aligned bounding box, as the engine's viewport description.
#[derive(Debug, Clone, Copy, PartialEq)]
pub struct Box2d<T: Clone + Copy> {
    pub startx: T,
    pub starty: T,
    pub endx: T,
    pub endy: T,
}

} // verus!
