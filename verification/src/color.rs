//! Colours.

use vstd::prelude::*;

verus! {

/// A colour as red, green, blue and alpha channels. Each channel is meant to
/// lie between zero and one of `T`; the library stores the channels as they
/// are given and never computes with them.
#[derive(Clone, Copy, Debug, PartialEq)]
pub struct Color<T> {
    pub r: T,
    pub g: T,
    pub b: T,
    pub a: T,
}

impl<T: Copy> Color<T> {
    /// The colour with the given channels.
    pub fn from_rgba(r: T, g: T, b: T, a: T) -> (c: Self)
        ensures
            c == (Color { r, g, b, a }),
    {
        Color { r, g, b, a }
    }

    /// The red channel.
    pub fn r(&self) -> (v: T)
        ensures
            v == self.r,
    {
        self.r
    }

    /// The green channel.
    pub fn g(&self) -> (v: T)
        ensures
            v == self.g,
    {
        self.g
    }

    /// The blue channel.
    pub fn b(&self) -> (v: T)
        ensures
            v == self.b,
    {
        self.b
    }

    /// The alpha channel.
    pub fn a(&self) -> (v: T)
        ensures
            v == self.a,
    {
        self.a
    }
}

} // verus!
