//! Laid-out text. Fonts are loaded and text is laid out elsewhere; what
//! arrives here is the result: where each glyph goes and where it sits in
//! the glyph atlas.

use vstd::prelude::*;
use crate::image::ImageHandle;
use crate::shape::Rectangle;

verus! {

/// One glyph of a laid-out text.
#[derive(Clone, Copy, Debug, PartialEq)]
pub struct FormattedGlyph<T> {
    /// Where the glyph is drawn, in logical pixels of the window.
    pub bounds: Rectangle<T>,
    /// Where the glyph sits in the atlas, in normalized coordinates.
    pub atlas_coords: Rectangle<T>,
    /// The atlas image that holds the glyph.
    pub atlas: ImageHandle,
}

/// A laid-out text: its glyphs in the order in which they are drawn.
#[derive(Clone, Debug)]
pub struct FormattedTextBlock<T> {
    glyphs: Vec<FormattedGlyph<T>>,
}

impl<T> View for FormattedTextBlock<T> {
    type V = Seq<FormattedGlyph<T>>;

    closed spec fn view(&self) -> Seq<FormattedGlyph<T>> {
        self.glyphs@
    }
}

impl<T: Copy> FormattedTextBlock<T> {
    /// The text of the given glyphs.
    pub fn new(glyphs: Vec<FormattedGlyph<T>>) -> (block: Self)
        ensures
            block@ == glyphs@,
    {
        FormattedTextBlock { glyphs }
    }

    /// How many glyphs the text has.
    pub fn len(&self) -> (n: usize)
        ensures
            n == self@.len(),
    {
        self.glyphs.len()
    }

    /// The glyph at `index`.
    pub fn glyph(&self, index: usize) -> (g: Option<FormattedGlyph<T>>)
        ensures
            g.is_some() <==> index < self@.len(),
            g matches Some(glyph) ==> glyph == self@[index as int],
    {
        if index < self.glyphs.len() {
            Some(self.glyphs[index])
        } else {
            None
        }
    }
}

} // verus!
