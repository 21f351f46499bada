//! Plain descriptions of the bodies that the integrator moves.
//!
//! The integrator works on real numbers; this library only stores, copies and
//! compares them.  Every real quantity is therefore carried as the bit
//! pattern of an IEEE 754 double (what `f64::to_bits` returns), which keeps
//! the value exactly and lets equality in contracts mean "the very same
//! number".

use vstd::prelude::*;

verus! {

/// A point of the plane, each coordinate a double's bit pattern.
#[derive(Debug, Clone, Copy, PartialEq, Eq, Structural)]
pub struct Point {
    pub x: u64,
    pub y: u64,
}

impl Point {
    pub fn new(x: u64, y: u64) -> (point: Point)
        ensures
            point == (Point { x, y }),
    {
        Point { x, y }
    }
}

/// A velocity, given by its magnitude and its angle, each a double's bit
/// pattern.
#[derive(Debug, Clone, Copy, PartialEq, Eq, Structural)]
pub struct Vector {
    pub magnitude: u64,
    pub angle: u64,
}

impl Vector {
    pub fn new(magnitude: u64, angle: u64) -> (vector: Vector)
        ensures
            vector == (Vector { magnitude, angle }),
    {
        Vector { magnitude, angle }
    }
}

/// One body as the integrator reports it.  Mass and radius are doubles' bit
/// patterns.
#[derive(Debug, Clone, Copy, PartialEq, Eq, Structural)]
pub struct Object {
    pub mass: u64,
    pub velocity: Vector,
    pub position: Point,
    pub radius: u64,
}

impl Object {
    pub fn new(mass: u64, velocity: Vector, position: Point, radius: u64) -> (object: Object)
        ensures
            object == (Object { mass, velocity, position, radius }),
    {
        Object { mass, velocity, position, radius }
    }
}

/// What the integrator hands back after it has moved the bodies: the
/// indices, in the list it was given, of the bodies that are gone (merged
/// into others, say), and the bodies that are left, in their old order.
#[derive(Debug)]
pub struct Advance {
    pub removed: Vec<usize>,
    pub objects: Vec<Object>,
}

} // verus!
